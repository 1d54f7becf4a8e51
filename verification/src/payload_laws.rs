//! What the payload operations promise, stated over the keys of the sign-in
//! snapshot and the results, and proved from the operations' contracts.

use vstd::prelude::*;
use crate::json::{Json, json_get, json_path};
use crate::model::{AccountView, PayloadView};
use crate::snapshot::{
    pick_text, usable_text, refresh_token_keys, access_token_keys, auth_email_keys,
    profile_email_keys, claims_email_keys, user_id_keys, claims_user_id_keys, snapshot_payload,
    payload_matches, local_files_payload, refreshed_payload, no_local_login_message,
};
use crate::oauth::{finished_login, retry_hint};
use crate::text::{trimmed, non_empty_text, email_text, unicode_lowercase, lemma_trimmed_idempotent};
use crate::timestamp::{json_of_i64, normalized_timestamp, law_parse_timestamp_of_integer};

verus! {

proof fn lemma_path1(v: Json, k: Seq<char>)
    ensures
        json_path(v, seq![k]) == json_get(v, k),
{
    let p = seq![k];
    assert(p[0] == k);
    assert(p.drop_first() =~= Seq::<Seq<char>>::empty());
    if let Some(c) = json_get(v, k) {
        assert(json_path(c, p.drop_first()) == Some(c));
    }
}

proof fn lemma_path2(v: Json, k1: Seq<char>, k2: Seq<char>)
    ensures
        json_path(v, seq![k1, k2]) == match json_get(v, k1) {
            Some(c) => json_get(c, k2),
            None => None,
        },
{
    let p = seq![k1, k2];
    assert(p[0] == k1);
    assert(p.drop_first() =~= seq![k2]);
    if let Some(c) = json_get(v, k1) {
        lemma_path1(c, k2);
    }
}

proof fn lemma_pick_cons(root: Json, head: Seq<Seq<char>>, tail: Seq<Seq<Seq<char>>>)
    ensures
        pick_text(root, seq![head] + tail) == match json_path(root, head) {
            Some(v) => match usable_text(v) {
                Some(t) => Some(t),
                None => pick_text(root, tail),
            },
            None => pick_text(root, tail),
        },
{
    let ps = seq![head] + tail;
    assert(ps[0] == head);
    assert(ps.drop_first() =~= tail);
}

/// The text of a string that is not blank.
proof fn lemma_usable_string(s: Seq<char>)
    requires
        trimmed(s).len() > 0,
    ensures
        usable_text(Json::Str(s)) == Some(trimmed(s)),
{
}

/// The refresh token is read at `refreshToken`, else at `refresh_token`,
/// else at `cursorAuth.refreshToken`; a non-blank string found first is the
/// payload's refresh token, trimmed, and with none of the three present the
/// payload has none.
pub proof fn law_refresh_token_lookup(
    auth: Json,
    profile: Option<Json>,
    usage: Option<Json>,
    claims: Option<Json>,
    s: Seq<char>,
)
    ensures
        json_get(auth, "refreshToken"@) == Some(Json::Str(s)) && trimmed(s).len() > 0 ==> (
        snapshot_payload(auth, profile, usage, claims) matches Ok(p) ==> p.refresh_token == Some(
            trimmed(s),
        )),
        json_get(auth, "refreshToken"@) is None && json_get(auth, "refresh_token"@) == Some(
            Json::Str(s),
        ) && trimmed(s).len() > 0 ==> (snapshot_payload(auth, profile, usage, claims) matches Ok(p)
            ==> p.refresh_token == Some(trimmed(s))),
        json_get(auth, "refreshToken"@) is None && json_get(auth, "refresh_token"@) is None
            && json_path(auth, seq!["cursorAuth"@, "refreshToken"@]) == Some(Json::Str(s))
            && trimmed(s).len() > 0 ==> (snapshot_payload(auth, profile, usage, claims) matches Ok(p)
            ==> p.refresh_token == Some(trimmed(s))),
        json_get(auth, "refreshToken"@) is None && json_get(auth, "refresh_token"@) is None
            && json_path(auth, seq!["cursorAuth"@, "refreshToken"@]) is None ==> (
        snapshot_payload(auth, profile, usage, claims) matches Ok(p) ==> p.refresh_token is None),
{
    let k0: Seq<Seq<char>> = seq!["refreshToken"@];
    let k1: Seq<Seq<char>> = seq!["refresh_token"@];
    let k2: Seq<Seq<char>> = seq!["cursorAuth"@, "refreshToken"@];
    let empty = Seq::<Seq<Seq<char>>>::empty();
    assert(refresh_token_keys() =~= seq![k0] + (seq![k1] + (seq![k2] + empty)));
    lemma_pick_cons(auth, k0, seq![k1] + (seq![k2] + empty));
    lemma_pick_cons(auth, k1, seq![k2] + empty);
    lemma_pick_cons(auth, k2, empty);
    lemma_path1(auth, "refreshToken"@);
    lemma_path1(auth, "refresh_token"@);
    lemma_path2(auth, "cursorAuth"@, "refreshToken"@);
    if trimmed(s).len() > 0 {
        lemma_usable_string(s);
    }
}

/// A payload is for an account exactly when both have the same non-blank
/// user id, or both have the same accepted e-mail address ignoring case, or
/// both have the same non-blank refresh token. An absent value on either side
/// never counts as a match.
pub proof fn law_payload_matches(p: PayloadView, a: PayloadView)
    ensures
        payload_matches(p, a) <==> {
            ||| (non_empty_text(p.user_id) matches Some(x) && non_empty_text(a.user_id) matches Some(y)
                && x == y)
            ||| (email_text(Some(p.email)) matches Some(x) && email_text(Some(a.email)) matches Some(y)
                && unicode_lowercase(x) == unicode_lowercase(y))
            ||| (non_empty_text(p.refresh_token) matches Some(x) && non_empty_text(a.refresh_token) matches Some(y)
                && x == y)
        },
{
}


/// A refresh takes the local payload, built from the authorization read and
/// from the profile and usage where they were read (nothing where a read
/// failed), exactly when that payload is for the account; in every other case
/// the account keeps its own data.
pub proof fn law_refresh_uses_what_was_read(
    account: AccountView,
    auth_token: Result<Option<Json>, Seq<char>>,
    profile: Result<Option<Json>, Seq<char>>,
    usage: Result<Option<Json>, Seq<char>>,
    claims: Option<Json>,
)
    ensures
        ({
            let pr = match profile {
                Ok(v) => v,
                Err(_) => None,
            };
            let us = match usage {
                Ok(v) => v,
                Err(_) => None,
            };
            let r = refreshed_payload(account, auth_token, profile, usage, claims);
            &&& auth_token matches Ok(Some(a)) ==> (snapshot_payload(a, pr, us, claims) matches Ok(p)
                ==> (payload_matches(p, account.data) ==> r == p))
            &&& auth_token matches Ok(Some(a)) ==> (snapshot_payload(a, pr, us, claims) matches Ok(p)
                ==> (payload_matches(p, account.data) ==> r.cursor_usage_raw == us))
            &&& auth_token matches Ok(Some(a)) ==> (snapshot_payload(a, pr, us, claims) matches Ok(p)
                ==> (!payload_matches(p, account.data) ==> r == account.data))
            &&& auth_token matches Ok(Some(a)) ==> (snapshot_payload(a, pr, us, claims) is Err
                ==> r == account.data)
            &&& !(auth_token matches Ok(Some(_))) ==> r == account.data
        }),
{
    if let Ok(Some(a)) = auth_token {
        crate::snapshot::law_snapshot_payload_shape(
            a,
            match profile {
                Ok(v) => v,
                Err(_) => None,
            },
            match usage {
                Ok(v) => v,
                Err(_) => None,
            },
            claims,
        );
    }
}

/// Importing the local sign-in: a failed read of the authorization gives its
/// error, a missing authorization gives `no_local_login_message`, and once
/// all three reads succeed the payload is the one the snapshot of exactly
/// those reads gives (profile and usage included).
pub proof fn law_local_files_use_all_reads(
    auth: Json,
    profile: Option<Json>,
    usage: Option<Json>,
    claims: Option<Json>,
    e: Seq<char>,
    pr: Result<Option<Json>, Seq<char>>,
    us: Result<Option<Json>, Seq<char>>,
)
    ensures
        local_files_payload(Ok(Some(auth)), Ok(profile), Ok(usage), claims) == snapshot_payload(
            auth,
            profile,
            usage,
            claims,
        ),
        local_files_payload(Err(e), pr, us, claims) == Err::<PayloadView, Seq<char>>(e),
        local_files_payload(Ok(None), pr, us, claims) == Err::<PayloadView, Seq<char>>(
            no_local_login_message(),
        ),
{
}

/// Completing an accepted sign-in gives the payload of the snapshot that was
/// read, with the claims of its access token, or that snapshot's error
/// followed by the retry hint.
pub proof fn law_finished_login_is_snapshot_payload(
    auth: Json,
    profile: Option<Json>,
    usage: Option<Json>,
    claims: Option<Json>,
)
    ensures
        finished_login(Ok(Some(auth)), Ok(profile), Ok(usage), claims) == match snapshot_payload(
            auth,
            profile,
            usage,
            claims,
        ) {
            Ok(p) => Ok(p),
            Err(m) => Err(m + retry_hint()),
        },
{
}

/// Whether `auth` has no e-mail at any of `email`, `cachedEmail`,
/// `cursorAuth.cachedEmail`, `login_hint` and `loginHint`.
proof fn lemma_no_auth_email(auth: Json)
    requires
        json_get(auth, "email"@) is None,
        json_get(auth, "cachedEmail"@) is None,
        json_path(auth, seq!["cursorAuth"@, "cachedEmail"@]) is None,
        json_get(auth, "login_hint"@) is None,
        json_get(auth, "loginHint"@) is None,
    ensures
        pick_text(auth, auth_email_keys()) is None,
{
    let k0: Seq<Seq<char>> = seq!["email"@];
    let k1: Seq<Seq<char>> = seq!["cachedEmail"@];
    let k2: Seq<Seq<char>> = seq!["cursorAuth"@, "cachedEmail"@];
    let k3: Seq<Seq<char>> = seq!["login_hint"@];
    let k4: Seq<Seq<char>> = seq!["loginHint"@];
    let e = Seq::<Seq<Seq<char>>>::empty();
    assert(auth_email_keys() =~= seq![k0] + (seq![k1] + (seq![k2] + (seq![k3] + (seq![k4] + e)))));
    lemma_pick_cons(auth, k0, seq![k1] + (seq![k2] + (seq![k3] + (seq![k4] + e))));
    lemma_pick_cons(auth, k1, seq![k2] + (seq![k3] + (seq![k4] + e)));
    lemma_pick_cons(auth, k2, seq![k3] + (seq![k4] + e));
    lemma_pick_cons(auth, k3, seq![k4] + e);
    lemma_pick_cons(auth, k4, e);
    lemma_path1(auth, "email"@);
    lemma_path1(auth, "cachedEmail"@);
    lemma_path1(auth, "login_hint"@);
    lemma_path1(auth, "loginHint"@);
}

/// The first path of a key list, read first.
proof fn lemma_first_key(root: Json, keys: Seq<Seq<Seq<char>>>, key: Seq<char>, s: Seq<char>)
    requires
        keys.len() > 0,
        keys[0] == seq![key],
        json_get(root, key) == Some(Json::Str(s)),
        trimmed(s).len() > 0,
    ensures
        pick_text(root, keys) == Some(trimmed(s)),
{
    lemma_path1(root, key);
    lemma_usable_string(s);
}

/// An e-mail address that the authorization lacks is taken from the profile
/// read with it (its `email`), and the profile is kept as it was read.
pub proof fn law_profile_email_used(
    auth: Json,
    profile: Json,
    usage: Option<Json>,
    claims: Option<Json>,
    token: Seq<char>,
    email: Seq<char>,
)
    requires
        json_get(auth, "accessToken"@) == Some(Json::Str(token)),
        trimmed(token).len() > 0,
        json_get(auth, "email"@) is None,
        json_get(auth, "cachedEmail"@) is None,
        json_path(auth, seq!["cursorAuth"@, "cachedEmail"@]) is None,
        json_get(auth, "login_hint"@) is None,
        json_get(auth, "loginHint"@) is None,
        json_get(profile, "email"@) == Some(Json::Str(email)),
        email_text(Some(email)) is Some,
    ensures
        snapshot_payload(auth, Some(profile), usage, claims) matches Ok(p) && Some(p.email)
            == email_text(Some(email)) && p.cursor_profile_raw == Some(profile)
            && p.access_token == trimmed(token),
{
    lemma_no_auth_email(auth);
    lemma_first_key(auth, access_token_keys(), "accessToken"@, token);
    lemma_first_key(profile, profile_email_keys(), "email"@, email);
    lemma_trimmed_idempotent(email);
}

/// With an authorization that names no e-mail, user id or expiry and no
/// profile, the claims of the access token give them: the e-mail from
/// `email`, the user id from `sub` and the expiry from `exp`.
pub proof fn law_claims_used(
    auth: Json,
    usage: Option<Json>,
    claims: Json,
    token: Seq<char>,
    email: Seq<char>,
    sub: Seq<char>,
    exp: i64,
)
    requires
        json_get(auth, "accessToken"@) == Some(Json::Str(token)),
        trimmed(token).len() > 0,
        json_get(auth, "email"@) is None,
        json_get(auth, "cachedEmail"@) is None,
        json_path(auth, seq!["cursorAuth"@, "cachedEmail"@]) is None,
        json_get(auth, "login_hint"@) is None,
        json_get(auth, "loginHint"@) is None,
        json_get(auth, "userId"@) is None,
        json_get(auth, "user_id"@) is None,
        json_get(auth, "sub"@) is None,
        json_path(auth, seq!["cursorAuth"@, "userId"@]) is None,
        json_get(auth, "expiresAt"@) is None,
        json_get(auth, "expires_at"@) is None,
        json_get(auth, "expiration"@) is None,
        json_get(auth, "exp"@) is None,
        json_get(claims, "email"@) == Some(Json::Str(email)),
        email_text(Some(email)) is Some,
        json_get(claims, "sub"@) == Some(Json::Str(sub)),
        trimmed(sub).len() > 0,
        json_get(claims, "exp"@) == Some(json_of_i64(exp)),
    ensures
        snapshot_payload(auth, None, usage, Some(claims)) matches Ok(p) && Some(p.email)
            == email_text(Some(email)) && p.user_id == Some(trimmed(sub)) && p.expires_at
            == normalized_timestamp(exp),
{
    lemma_no_auth_email(auth);
    lemma_first_key(auth, access_token_keys(), "accessToken"@, token);
    lemma_first_key(claims, claims_email_keys(), "email"@, email);
    lemma_first_key(claims, claims_user_id_keys(), "sub"@, sub);
    lemma_trimmed_idempotent(email);
    lemma_trimmed_idempotent(sub);
    law_parse_timestamp_of_integer(exp);
    let k0: Seq<Seq<char>> = seq!["userId"@];
    let k1: Seq<Seq<char>> = seq!["user_id"@];
    let k2: Seq<Seq<char>> = seq!["sub"@];
    let k3: Seq<Seq<char>> = seq!["cursorAuth"@, "userId"@];
    let e = Seq::<Seq<Seq<char>>>::empty();
    assert(user_id_keys() =~= seq![k0] + (seq![k1] + (seq![k2] + (seq![k3] + e))));
    lemma_pick_cons(auth, k0, seq![k1] + (seq![k2] + (seq![k3] + e)));
    lemma_pick_cons(auth, k1, seq![k2] + (seq![k3] + e));
    lemma_pick_cons(auth, k2, seq![k3] + e);
    lemma_pick_cons(auth, k3, e);
    lemma_path1(auth, "userId"@);
    lemma_path1(auth, "user_id"@);
    lemma_path1(auth, "sub"@);
}


/// The access token is read at `accessToken`, `access_token`, `token`,
/// `id_token` and `cursorAuth.accessToken`, in that order; a snapshot with
/// none of them is refused with its message, whatever else it holds.
pub proof fn law_access_token_lookup(
    auth: Json,
    profile: Option<Json>,
    usage: Option<Json>,
    claims: Option<Json>,
    t: Seq<char>,
)
    ensures
        json_get(auth, "accessToken"@) == Some(Json::Str(t)) && trimmed(t).len() > 0 ==> (
        snapshot_payload(auth, profile, usage, claims) matches Ok(p) ==> p.access_token == trimmed(
            t,
        )),
        json_get(auth, "accessToken"@) is None && json_get(auth, "access_token"@) is None
            && json_get(auth, "token"@) is None && json_get(auth, "id_token"@) is None && json_path(
            auth,
            seq!["cursorAuth"@, "accessToken"@],
        ) is None ==> snapshot_payload(auth, profile, usage, claims) == Err::<PayloadView, Seq<char>>(
            "Cursor 本地授权信息缺少 access token"@,
        ),
{
    let k0: Seq<Seq<char>> = seq!["accessToken"@];
    let k1: Seq<Seq<char>> = seq!["access_token"@];
    let k2: Seq<Seq<char>> = seq!["token"@];
    let k3: Seq<Seq<char>> = seq!["id_token"@];
    let k4: Seq<Seq<char>> = seq!["cursorAuth"@, "accessToken"@];
    let e = Seq::<Seq<Seq<char>>>::empty();
    assert(access_token_keys() =~= seq![k0] + (seq![k1] + (seq![k2] + (seq![k3] + (seq![k4] + e)))));
    lemma_pick_cons(auth, k0, seq![k1] + (seq![k2] + (seq![k3] + (seq![k4] + e))));
    lemma_pick_cons(auth, k1, seq![k2] + (seq![k3] + (seq![k4] + e)));
    lemma_pick_cons(auth, k2, seq![k3] + (seq![k4] + e));
    lemma_pick_cons(auth, k3, seq![k4] + e);
    lemma_pick_cons(auth, k4, e);
    lemma_path1(auth, "accessToken"@);
    lemma_path1(auth, "access_token"@);
    lemma_path1(auth, "token"@);
    lemma_path1(auth, "id_token"@);
    if trimmed(t).len() > 0 {
        lemma_usable_string(t);
    }
}

/// An e-mail address in the authorization's `email` is the payload's, ahead
/// of the profile and the claims, and it is the login hint.
pub proof fn law_auth_email_first(
    auth: Json,
    profile: Option<Json>,
    usage: Option<Json>,
    claims: Option<Json>,
    email: Seq<char>,
)
    requires
        json_get(auth, "email"@) == Some(Json::Str(email)),
        email_text(Some(email)) is Some,
    ensures
        snapshot_payload(auth, profile, usage, claims) matches Ok(p) ==> Some(p.email) == email_text(
            Some(email),
        ) && p.login_hint == Some(p.email),
{
    lemma_first_key(auth, auth_email_keys(), "email"@, email);
    lemma_trimmed_idempotent(email);
}

} // verus!
