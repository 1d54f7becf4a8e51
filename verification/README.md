# cursor_oauth

Account intake for the Cursor editor, verified with Verus.

- `src/` is the verified library: a plain-value JSON model (`json`), text
  normalisation (`text`), expiry timestamps (`timestamp`), JWT claim
  location and base64 decoding (`jwt`), the account records (`model`), the
  building of account payloads from sign-in snapshots and the matching of
  payloads to accounts (`snapshot`), pending browser sign-in sessions
  (`oauth`) and the decisions of the account commands (`commands`).
- `app/` holds what stays outside verification: the serialisable records,
  conversion to and from `serde_json`, the process-wide session store, the
  parsing of JWT claims, and the command functions over the account store.
- `tests/` runs the library on concrete values.
