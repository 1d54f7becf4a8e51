//! Browser sign-in sessions: starting one, settling it when the user comes
//! back, and cancelling.

use vstd::prelude::*;
use base64::Engine;
use rand::Rng;
use crate::json::JsonValue;
use crate::model::{CursorOAuthCompletePayload, CursorOAuthStartResponse, PayloadView};
use crate::snapshot::{
    build_payload_from_local_files, local_files_payload, payload_result, read_view,
};
use crate::model::opt_json_value;
use crate::text::{str_eq, chars_of, trim, trimmed, opt_text};
use crate::timestamp::now_timestamp;

verus! {

/// How long a sign-in session stays open, in seconds.
pub const OAUTH_TIMEOUT_SECONDS: u64 = 600;

/// How often the caller is asked to poll, in seconds.
pub const OAUTH_INTERVAL_SECONDS: u64 = 3;

/// The page where the user signs in.
pub open spec fn cursor_login_url() -> Seq<char> {
    "https://www.cursor.com/login"@
}

fn login_url() -> (r: String)
    ensures
        r@ == cursor_login_url(),
{
    "https://www.cursor.com/login".to_owned()
}

/// A sign-in session waiting for the user.
#[derive(Debug, Clone)]
pub struct PendingOAuthState {
    pub login_id: String,
    pub expires_at: i64,
}

/// The open sign-in sessions, by login id.
pub struct PendingLoginStore {
    entries: Vec<PendingOAuthState>,
}

/// The sessions of a list of entries, a later entry for a login id taking
/// the place of an earlier one.
pub open spec fn entries_map(entries: Seq<PendingOAuthState>) -> Map<Seq<char>, i64>
    decreases entries.len(),
{
    if entries.len() == 0 {
        Map::empty()
    } else {
        entries_map(entries.drop_last()).insert(entries.last().login_id@, entries.last().expires_at)
    }
}

impl View for PendingLoginStore {
    /// Each open session's login id and the time it expires.
    type V = Map<Seq<char>, i64>;

    closed spec fn view(&self) -> Map<Seq<char>, i64> {
        entries_map(self.entries@)
    }
}

impl PendingLoginStore {
    pub fn new() -> (r: Self)
        ensures
            r@ == Map::<Seq<char>, i64>::empty(),
    {
        PendingLoginStore { entries: Vec::new() }
    }

    /// The session of `login_id`, if it is open.
    pub fn get(&self, login_id: &str) -> (r: Option<PendingOAuthState>)
        ensures
            match r {
                Some(state) => self@.contains_key(login_id@) && state.login_id@ == login_id@
                    && state.expires_at == self@[login_id@],
                None => !self@.contains_key(login_id@),
            },
    {
        let ghost s = self.entries@;
        let mut i = self.entries.len();
        assert(s.take(i as int) =~= s);
        while i > 0
            invariant
                s == self.entries@,
                i <= s.len(),
                entries_map(s).contains_key(login_id@) == entries_map(s.take(i as int)).contains_key(login_id@),
                entries_map(s).contains_key(login_id@) ==> entries_map(s)[login_id@] == entries_map(
                    s.take(i as int),
                )[login_id@],
            decreases i,
        {
            let e = &self.entries[i - 1];
            assert(s.take(i as int).drop_last() =~= s.take(i - 1));
            assert(s.take(i as int).last() == s[i - 1]);
            if str_eq(e.login_id.as_str(), login_id) {
                return Some(PendingOAuthState { login_id: e.login_id.clone(), expires_at: e.expires_at });
            }
            i = i - 1;
        }
        None
    }

    /// Opens (or replaces) the session of `state.login_id`.
    pub fn insert(&mut self, state: PendingOAuthState)
        ensures
            final(self)@ == old(self)@.insert(state.login_id@, state.expires_at),
    {
        self.remove(state.login_id.as_str());
        let ghost before = self.entries@;
        self.entries.push(state);
        assert(self.entries@.drop_last() =~= before);
        assert(entries_map(before).remove(state.login_id@).insert(state.login_id@, state.expires_at) =~= entries_map(before).insert(state.login_id@, state.expires_at)) by {
            assert(entries_map(before) == old(self)@.remove(state.login_id@));
        }
    }

    /// Closes the session of `login_id`, if it is open.
    pub fn remove(&mut self, login_id: &str)
        ensures
            final(self)@ == old(self)@.remove(login_id@),
    {
        let ghost s = self.entries@;
        let mut kept: Vec<PendingOAuthState> = Vec::new();
        let mut i: usize = 0;
        assert(s.take(0) =~= Seq::<PendingOAuthState>::empty());
        assert(entries_map(kept@) =~= entries_map(s.take(0)).remove(login_id@));
        while i < self.entries.len()
            invariant
                s == self.entries@,
                i <= s.len(),
                entries_map(kept@) == entries_map(s.take(i as int)).remove(login_id@),
            decreases s.len() - i,
        {
            let e = &self.entries[i];
            assert(s.take(i + 1).drop_last() =~= s.take(i as int));
            assert(s.take(i + 1).last() == s[i as int]);
            if !str_eq(e.login_id.as_str(), login_id) {
                let ghost prev = kept@;
                kept.push(PendingOAuthState { login_id: e.login_id.clone(), expires_at: e.expires_at });
                assert(kept@.drop_last() =~= prev);
                assert(entries_map(kept@) =~= entries_map(s.take(i + 1)).remove(login_id@));
            } else {
                assert(entries_map(kept@) =~= entries_map(s.take(i + 1)).remove(login_id@));
            }
            i = i + 1;
        }
        assert(s.take(s.len() as int) =~= s);
        self.entries = kept;
    }

    /// Closes every session.
    pub fn clear(&mut self)
        ensures
            final(self)@ == Map::<Seq<char>, i64>::empty(),
    {
        self.entries.clear();
    }
}


/// Whether `c` is an ASCII letter or digit.
pub open spec fn ascii_alnum(c: char) -> bool {
    ('a' <= c && c <= 'z') || ('A' <= c && c <= 'Z') || ('0' <= c && c <= '9')
}

/// `c` in upper case, for an ASCII letter; `c` itself otherwise.
pub open spec fn ascii_upper(c: char) -> char {
    if 'a' <= c && c <= 'z' {
        ((c as int) - 32) as char
    } else {
        c
    }
}

/// The first `n` ASCII letters and digits of `s`, in upper case.
pub open spec fn alnum_prefix_upper(s: Seq<char>, n: nat) -> Seq<char>
    decreases s.len(),
{
    if s.len() == 0 || n == 0 {
        Seq::empty()
    } else if ascii_alnum(s[0]) {
        seq![ascii_upper(s[0])] + alnum_prefix_upper(s.drop_first(), (n - 1) as nat)
    } else {
        alnum_prefix_upper(s.drop_first(), n)
    }
}

/// The code shown to the user for a login id: its first six ASCII letters
/// and digits, in upper case.
pub open spec fn user_code_of(login_id: Seq<char>) -> Seq<char> {
    alnum_prefix_upper(login_id, 6)
}

pub fn user_code(login_id: &str) -> (r: String)
    ensures
        r@ == user_code_of(login_id@),
{
    let chars = chars_of(login_id);
    let mut out = String::new();
    let mut count: usize = 0;
    let mut i: usize = 0;
    assert(chars@.skip(0) =~= chars@);
    while i < chars.len()
        invariant
            chars@ == login_id@,
            i <= chars@.len(),
            count <= 6,
            out@.len() == count,
            out@ + alnum_prefix_upper(chars@.skip(i as int), (6 - count) as nat) == user_code_of(
                login_id@,
            ),
        decreases chars@.len() - i,
    {
        let c = chars[i];
        let ghost rest = chars@.skip(i as int);
        assert(rest[0] == c);
        assert(rest.drop_first() =~= chars@.skip(i + 1));
        if count < 6 && (('a' <= c && c <= 'z') || ('A' <= c && c <= 'Z') || ('0' <= c && c <= '9')) {
            let u = if 'a' <= c && c <= 'z' {
                ((c as u32) - 32) as u8 as char
            } else {
                c
            };
            assert(u == ascii_upper(c));
            let ghost before = out@;
            crate::text::push_char(&mut out, u);
            assert(out@ + alnum_prefix_upper(chars@.skip(i + 1), (6 - (count + 1)) as nat) =~= before
                + alnum_prefix_upper(rest, (6 - count) as nat));
            count = count + 1;
        }
        i = i + 1;
    }
    assert(chars@.skip(i as int).len() == 0);
    assert(out@ =~= out@ + alnum_prefix_upper(chars@.skip(i as int), (6 - count) as nat));
    out
}

#[verifier::external_type_specification]
#[verifier::external_body]
pub struct ExThreadRng(rand::rngs::ThreadRng);

/// `rand::thread_rng`: the generator of this thread, seeded by the system.
#[verifier::external_body]
fn thread_rng() -> rand::rngs::ThreadRng {
    rand::thread_rng()
}

/// `Rng::gen::<u8>`: a random byte; nothing is promised of its value.
#[verifier::external_body]
fn random_byte(rng: &mut rand::rngs::ThreadRng) -> u8 {
    rng.gen::<u8>()
}

/// What `base64::engine::general_purpose::URL_SAFE_NO_PAD.encode` gives for
/// some bytes: their base64 text in the URL-safe alphabet, without padding.
pub uninterp spec fn base64_url_safe_no_pad_encode(bytes: Seq<u8>) -> Seq<char>;

/// Whether `c` is in the URL-safe base64 alphabet.
pub open spec fn is_url_safe_base64_char(c: char) -> bool {
    ascii_alnum(c) || c == '-' || c == '_'
}

/// The length of the unpadded base64 text of `n` bytes (`encoded_len` of
/// the `base64` crate without padding).
pub open spec fn unpadded_base64_len(n: nat) -> nat {
    4 * (n / 3) + if n % 3 == 0 {
        0
    } else {
        n % 3 + 1
    }
}

/// `URL_SAFE_NO_PAD.encode` of the `base64` crate; its result is named
/// `base64_url_safe_no_pad_encode`. As the crate's source shows, the text
/// has `encoded_len` characters, each from the URL-safe alphabet; the
/// length bound leaves out the sizes where that computation overflows and
/// `encode` panics.
#[verifier::external_body]
fn encode_url_safe_no_pad(bytes: &[u8]) -> (r: String)
    requires
        bytes@.len() <= usize::MAX / 2,
    ensures
        r@ == base64_url_safe_no_pad_encode(bytes@),
        r@.len() == unpadded_base64_len(bytes@.len()),
        forall|i: int| 0 <= i < r@.len() ==> is_url_safe_base64_char(#[trigger] r@[i]),
{
    base64::engine::general_purpose::URL_SAFE_NO_PAD.encode(bytes)
}

/// A fresh login id: 24 random bytes in URL-safe base64, 32 characters.
pub fn generate_token() -> (r: String)
    ensures
        exists|b: Seq<u8>| b.len() == 24 && r@ == base64_url_safe_no_pad_encode(b),
        r@.len() == 32,
        forall|i: int| 0 <= i < r@.len() ==> is_url_safe_base64_char(#[trigger] r@[i]),
{
    let mut rng = thread_rng();
    let mut bytes: Vec<u8> = Vec::new();
    while bytes.len() < 24
        invariant
            bytes@.len() <= 24,
        decreases 24 - bytes@.len(),
    {
        let b = random_byte(&mut rng);
        bytes.push(b);
    }
    encode_url_safe_no_pad(bytes.as_slice())
}

/// When a session opened at `now` expires.
pub open spec fn session_expiry(now: i64) -> i64 {
    (now + OAUTH_TIMEOUT_SECONDS) as i64
}

/// The answer to the start of a sign-in with `login_id`.
pub open spec fn is_start_response(r: CursorOAuthStartResponse, login_id: Seq<char>) -> bool {
    &&& r.login_id@ == login_id
    &&& r.user_code@ == user_code_of(login_id)
    &&& r.verification_uri@ == cursor_login_url()
    &&& r.verification_uri_complete.deep_view() == Some(cursor_login_url())
    &&& r.expires_in == OAUTH_TIMEOUT_SECONDS
    &&& r.interval_seconds == OAUTH_INTERVAL_SECONDS
    &&& r.callback_url is None
}

/// Opens a session for `login_id` at time `now`; it expires
/// `OAUTH_TIMEOUT_SECONDS` later.
pub fn start_login_at(store: &mut PendingLoginStore, login_id: String, now: i64) -> (r: CursorOAuthStartResponse)
    requires
        now <= i64::MAX - OAUTH_TIMEOUT_SECONDS,
    ensures
        final(store)@ == old(store)@.insert(login_id@, session_expiry(now)),
        is_start_response(r, login_id@),
{
    let expires_at = now + OAUTH_TIMEOUT_SECONDS as i64;
    store.insert(PendingOAuthState { login_id: login_id.clone(), expires_at });
    let user_code = user_code(login_id.as_str());
    CursorOAuthStartResponse {
        login_id,
        user_code,
        verification_uri: login_url(),
        verification_uri_complete: Some(login_url()),
        expires_in: OAUTH_TIMEOUT_SECONDS,
        interval_seconds: OAUTH_INTERVAL_SECONDS,
        callback_url: None,
    }
}

/// Opens a session with a fresh login id, expiring `OAUTH_TIMEOUT_SECONDS`
/// after the present time `t`, whatever the clock read.
pub fn start_login(store: &mut PendingLoginStore) -> (r: CursorOAuthStartResponse)
    ensures
        is_start_response(r, r.login_id@),
        exists|t: i64|
            0 <= t < crate::timestamp::CLOCK_LIMIT && final(store)@ == old(store)@.insert(
                r.login_id@,
                #[trigger] session_expiry(t),
            ),
        exists|b: Seq<u8>| b.len() == 24 && r.login_id@ == base64_url_safe_no_pad_encode(b),
        r.login_id@.len() == 32,
        forall|i: int| 0 <= i < r.login_id@.len() ==> is_url_safe_base64_char(#[trigger] r.login_id@[i]),
{
    let login_id = generate_token();
    let now = now_timestamp();
    start_login_at(store, login_id, now)
}

/// The message for a login id with no open session.
pub open spec fn missing_session_message() -> Seq<char> {
    "Cursor OAuth 登录会话不存在，请重新开始授权"@
}

/// The message for a session that has expired.
pub open spec fn expired_session_message() -> Seq<char> {
    "Cursor OAuth 登录会话已过期，请重新开始授权"@
}

/// Settling the session of `login_id` at `now`: the sessions afterwards, and
/// the message where it is refused. An open session is closed whether or not
/// it has expired; an unknown login id changes nothing.
pub open spec fn settle_session(sessions: Map<Seq<char>, i64>, login_id: Seq<char>, now: i64) -> (
    Map<Seq<char>, i64>,
    Option<Seq<char>>,
) {
    if !sessions.contains_key(login_id) {
        (sessions, Some(missing_session_message()))
    } else if sessions[login_id] < now {
        (sessions.remove(login_id), Some(expired_session_message()))
    } else {
        (sessions.remove(login_id), None)
    }
}

/// Settles the session of `login_id` at `now` (see `settle_session`).
pub fn take_pending_login(store: &mut PendingLoginStore, login_id: &str, now: i64) -> (r: Result<
    (),
    String,
>)
    ensures
        final(store)@ == settle_session(old(store)@, login_id@, now).0,
        match r {
            Ok(()) => settle_session(old(store)@, login_id@, now).1 is None,
            Err(e) => settle_session(old(store)@, login_id@, now).1 == Some(e@),
        },
{
    let state = match store.get(login_id) {
        Some(s) => s,
        None => {
            return Err("Cursor OAuth 登录会话不存在，请重新开始授权".to_owned());
        },
    };
    if !str_eq(state.login_id.as_str(), login_id) {
        return Err("Cursor OAuth 登录会话不匹配，请重新开始授权".to_owned());
    }
    if state.expires_at < now {
        store.remove(login_id);
        return Err("Cursor OAuth 登录会话已过期，请重新开始授权".to_owned());
    }
    store.remove(login_id);
    Ok(())
}

/// What is added to the message when the local sign-in cannot be read.
pub open spec fn retry_hint() -> Seq<char> {
    "。请先在 Cursor 客户端完成登录，再回到这里点击重试。"@
}

/// The payload of the local sign-in once a session is accepted, or the error
/// of reading it followed by `retry_hint`.
pub open spec fn finished_login(
    auth_token: Result<Option<crate::json::Json>, Seq<char>>,
    profile: Result<Option<crate::json::Json>, Seq<char>>,
    usage: Result<Option<crate::json::Json>, Seq<char>>,
    claims: Option<crate::json::Json>,
) -> Result<PayloadView, Seq<char>> {
    match local_files_payload(auth_token, profile, usage, claims) {
        Ok(p) => Ok(p),
        Err(e) => Err(e + retry_hint()),
    }
}

/// The outcome of completing a sign-in at `now`: the refusal of the session,
/// else `finished_login` of what is then read of the local sign-in.
pub open spec fn completed_login(
    sessions: Map<Seq<char>, i64>,
    login_id: Seq<char>,
    now: i64,
    auth_token: Result<Option<crate::json::Json>, Seq<char>>,
    profile: Result<Option<crate::json::Json>, Seq<char>>,
    usage: Result<Option<crate::json::Json>, Seq<char>>,
    claims: Option<crate::json::Json>,
) -> Result<PayloadView, Seq<char>> {
    match settle_session(sessions, login_id, now).1 {
        Some(m) => Err(m),
        None => finished_login(auth_token, profile, usage, claims),
    }
}

/// The second step of completing a sign-in, after `complete_login` accepted
/// the session: the payload of the local sign-in that was then read (its
/// authorization, profile and usage, and the claims of the access token found
/// there), or the error of reading it with a hint to sign in and retry.
pub fn finish_login(
    auth_token: Result<Option<JsonValue>, String>,
    profile: Result<Option<JsonValue>, String>,
    usage: Result<Option<JsonValue>, String>,
    jwt_claims: Option<JsonValue>,
) -> (r: Result<CursorOAuthCompletePayload, String>)
    ensures
        payload_result(r) == finished_login(
            read_view(auth_token),
            read_view(profile),
            read_view(usage),
            opt_json_value(jwt_claims),
        ),
{
    match build_payload_from_local_files(auth_token, profile, usage, jwt_claims) {
        Ok(p) => Ok(p),
        Err(err) => Err(err.concat("。请先在 Cursor 客户端完成登录，再回到这里点击重试。")),
    }
}

/// Completes the sign-in of `login_id` at time `now`, where the local
/// sign-in that would be read after an accepted session is given: both steps
/// of `complete_login` and `finish_login` in one.
pub fn complete_login_at(
    store: &mut PendingLoginStore,
    login_id: &str,
    now: i64,
    auth_token: Result<Option<JsonValue>, String>,
    profile: Result<Option<JsonValue>, String>,
    usage: Result<Option<JsonValue>, String>,
    jwt_claims: Option<JsonValue>,
) -> (r: Result<CursorOAuthCompletePayload, String>)
    ensures
        final(store)@ == settle_session(old(store)@, login_id@, now).0,
        payload_result(r) == completed_login(
            old(store)@,
            login_id@,
            now,
            read_view(auth_token),
            read_view(profile),
            read_view(usage),
            opt_json_value(jwt_claims),
        ),
{
    match take_pending_login(store, login_id, now) {
        Ok(()) => {},
        Err(e) => {
            return Err(e);
        },
    }
    finish_login(auth_token, profile, usage, jwt_claims)
}

/// The first step of completing the sign-in of `login_id`: the session is
/// settled at the present time `now`, whatever the clock read (see
/// `settle_session`). The local sign-in is read only after `Ok`, and handed
/// to `finish_login`; a refused session is answered without reading it.
pub fn complete_login(store: &mut PendingLoginStore, login_id: &str) -> (r: Result<(), String>)
    ensures
        exists|now: i64|
            {
                &&& 0 <= now < crate::timestamp::CLOCK_LIMIT
                &&& final(store)@ == (#[trigger] settle_session(old(store)@, login_id@, now)).0
                &&& match r {
                    Ok(()) => settle_session(old(store)@, login_id@, now).1 is None,
                    Err(e) => settle_session(old(store)@, login_id@, now).1 == Some(e@),
                }
            },
{
    let now = now_timestamp();
    take_pending_login(store, login_id, now)
}

/// Whether a completion is refused never depends on the local sign-in, and
/// once the session is accepted the outcome is `finished_login` of what is
/// read.
pub proof fn law_completion_reads_after_acceptance(
    sessions: Map<Seq<char>, i64>,
    login_id: Seq<char>,
    now: i64,
    auth_token: Result<Option<crate::json::Json>, Seq<char>>,
    profile: Result<Option<crate::json::Json>, Seq<char>>,
    usage: Result<Option<crate::json::Json>, Seq<char>>,
    claims: Option<crate::json::Json>,
)
    ensures
        settle_session(sessions, login_id, now).1 matches Some(m) ==> completed_login(
            sessions,
            login_id,
            now,
            auth_token,
            profile,
            usage,
            claims,
        ) == Err::<PayloadView, Seq<char>>(m),
        settle_session(sessions, login_id, now).1 is None ==> completed_login(
            sessions,
            login_id,
            now,
            auth_token,
            profile,
            usage,
            claims,
        ) == finished_login(auth_token, profile, usage, claims),
{
}

/// A session opened at `t` and completed by `t + OAUTH_TIMEOUT_SECONDS`
/// gives the payload of the local sign-in (or its read error with the
/// retry hint), never a session error, and is closed.
pub proof fn law_started_session_completes(
    sessions: Map<Seq<char>, i64>,
    login_id: Seq<char>,
    t: i64,
    now: i64,
    auth_token: Result<Option<crate::json::Json>, Seq<char>>,
    profile: Result<Option<crate::json::Json>, Seq<char>>,
    usage: Result<Option<crate::json::Json>, Seq<char>>,
    claims: Option<crate::json::Json>,
)
    requires
        0 <= t < crate::timestamp::CLOCK_LIMIT,
        now <= t + OAUTH_TIMEOUT_SECONDS,
    ensures
        ({
            let opened = sessions.insert(login_id, session_expiry(t));
            &&& completed_login(opened, login_id, now, auth_token, profile, usage, claims)
                == finished_login(auth_token, profile, usage, claims)
            &&& settle_session(opened, login_id, now).0 == sessions.remove(login_id)
        }),
{
    law_started_session_settles(sessions, login_id, t, now);
}

/// The sessions after a cancel: only the session of the trimmed login id
/// where one is given and not blank, every session otherwise.
pub open spec fn cancelled_sessions(sessions: Map<Seq<char>, i64>, login_id: Option<Seq<char>>) -> Map<
    Seq<char>,
    i64,
> {
    match login_id {
        Some(id) => if trimmed(id).len() > 0 {
            sessions.remove(trimmed(id))
        } else {
            Map::empty()
        },
        None => Map::empty(),
    }
}

/// Cancels the session of `login_id`, or every session where none is named.
pub fn cancel_login(store: &mut PendingLoginStore, login_id: Option<&str>) -> (r: Result<(), String>)
    ensures
        r is Ok,
        final(store)@ == cancelled_sessions(old(store)@, opt_text(login_id)),
{
    let id = match login_id {
        Some(raw) => {
            let t = trim(raw);
            if t.is_empty() {
                None
            } else {
                Some(t)
            }
        },
        None => None,
    };
    match id {
        Some(id) => {
            store.remove(id);
        },
        None => {
            store.clear();
        },
    }
    Ok(())
}


/// A session started at `now` is accepted by a completion at any time up to
/// its expiry, and the completion closes it and no other session.
pub proof fn law_started_session_settles(
    sessions: Map<Seq<char>, i64>,
    login_id: Seq<char>,
    now: i64,
    later: i64,
)
    requires
        now <= i64::MAX - OAUTH_TIMEOUT_SECONDS,
        later <= now + OAUTH_TIMEOUT_SECONDS,
    ensures
        ({
            let opened = sessions.insert(login_id, session_expiry(now));
            &&& settle_session(opened, login_id, later).1 is None
            &&& settle_session(opened, login_id, later).0 == sessions.remove(login_id)
        }),
{
    let opened = sessions.insert(login_id, session_expiry(now));
    assert(opened.remove(login_id) =~= sessions.remove(login_id));
}

/// A session completed after its expiry is refused as expired, and closed.
pub proof fn law_late_session_refused(
    sessions: Map<Seq<char>, i64>,
    login_id: Seq<char>,
    now: i64,
    later: i64,
)
    requires
        now <= i64::MAX - OAUTH_TIMEOUT_SECONDS,
        later > now + OAUTH_TIMEOUT_SECONDS,
    ensures
        ({
            let opened = sessions.insert(login_id, session_expiry(now));
            &&& settle_session(opened, login_id, later).1 == Some(expired_session_message())
            &&& settle_session(opened, login_id, later).0 == sessions.remove(login_id)
        }),
{
    let opened = sessions.insert(login_id, session_expiry(now));
    assert(opened.remove(login_id) =~= sessions.remove(login_id));
}

/// A session can be completed once: whatever the first attempt gave, a
/// second attempt finds no session and changes nothing.
pub proof fn law_session_settles_once(
    sessions: Map<Seq<char>, i64>,
    login_id: Seq<char>,
    now: i64,
    later: i64,
)
    ensures
        ({
            let after = settle_session(sessions, login_id, now).0;
            settle_session(after, login_id, later) == (after, Some(missing_session_message()))
        }),
{
}

/// Settling one session leaves every other session as it was.
pub proof fn law_settle_leaves_others(
    sessions: Map<Seq<char>, i64>,
    login_id: Seq<char>,
    other: Seq<char>,
    now: i64,
)
    requires
        other != login_id,
    ensures
        settle_session(sessions, login_id, now).0.contains_key(other) == sessions.contains_key(other),
        sessions.contains_key(other) ==> settle_session(sessions, login_id, now).0[other]
            == sessions[other],
{
}

/// Cancelling a named session closes it and no other; cancelling without a
/// name closes all.
pub proof fn law_cancel(sessions: Map<Seq<char>, i64>, login_id: Seq<char>, other: Seq<char>)
    requires
        trimmed(login_id).len() > 0,
        other != trimmed(login_id),
    ensures
        !cancelled_sessions(sessions, Some(login_id)).contains_key(trimmed(login_id)),
        cancelled_sessions(sessions, Some(login_id)).contains_key(other) == sessions.contains_key(
            other,
        ),
        cancelled_sessions(sessions, None) == Map::<Seq<char>, i64>::empty(),
{
}

/// A login id that `start_login` hands out is its own trimming, so
/// cancelling it by name closes exactly its session, after which it is
/// unknown.
pub proof fn law_cancel_started_login(sessions: Map<Seq<char>, i64>, login_id: Seq<char>, now: i64)
    requires
        login_id.len() > 0,
        forall|i: int| 0 <= i < login_id.len() ==> is_url_safe_base64_char(#[trigger] login_id[i]),
    ensures
        cancelled_sessions(sessions, Some(login_id)) == sessions.remove(login_id),
        settle_session(cancelled_sessions(sessions, Some(login_id)), login_id, now) == (
            sessions.remove(login_id),
            Some(missing_session_message()),
        ),
{
    assert(is_url_safe_base64_char(login_id[0]));
    assert(is_url_safe_base64_char(login_id[login_id.len() - 1]));
    assert(crate::text::trim_start(login_id) == login_id);
    assert(crate::text::trim_end(login_id) == login_id);
}

/// A user code has at most six characters, each an upper-case ASCII letter
/// or a digit.
pub proof fn law_user_code_shape(login_id: Seq<char>)
    ensures
        user_code_of(login_id).len() <= 6,
        forall|i: int|
            0 <= i < user_code_of(login_id).len() ==> {
                let c = #[trigger] user_code_of(login_id)[i];
                ('A' <= c && c <= 'Z') || ('0' <= c && c <= '9')
            },
{
    lemma_alnum_prefix_upper_shape(login_id, 6);
}

proof fn lemma_alnum_prefix_upper_shape(s: Seq<char>, n: nat)
    ensures
        alnum_prefix_upper(s, n).len() <= n,
        forall|i: int|
            0 <= i < alnum_prefix_upper(s, n).len() ==> {
                let c = #[trigger] alnum_prefix_upper(s, n)[i];
                ('A' <= c && c <= 'Z') || ('0' <= c && c <= '9')
            },
    decreases s.len(),
{
    if s.len() == 0 || n == 0 {
    } else if ascii_alnum(s[0]) {
        lemma_alnum_prefix_upper_shape(s.drop_first(), (n - 1) as nat);
        let rest = alnum_prefix_upper(s.drop_first(), (n - 1) as nat);
        let r = alnum_prefix_upper(s, n);
        assert(r == seq![ascii_upper(s[0])] + rest);
        assert forall|i: int| 0 <= i < r.len() implies {
            let c = #[trigger] r[i];
            ('A' <= c && c <= 'Z') || ('0' <= c && c <= '9')
        } by {
            if i > 0 {
                assert(r[i] == rest[i - 1]);
            }
        }
    } else {
        lemma_alnum_prefix_upper_shape(s.drop_first(), n);
    }
}

} // verus!
