//! Turning a sign-in snapshot (the stored authorization, the profile and the
//! usage) into an account payload, and matching payloads to stored accounts.

use vstd::prelude::*;
use crate::json::{
    JsonValue, Json, json_view, opt_json, path_keys, json_path, json_get, json_as_str, json_as_i64,
    json_as_u64, get_path_value, object_get, as_str, as_i64, as_u64,
};
use crate::model::{
    CursorOAuthCompletePayload, PayloadView, CursorAccount, AccountView, opt_json_value, clone_opt_string,
    clone_opt_strings, clone_opt_json,
};
use crate::text::{
    non_empty_text, email_text, int_text, opt_text, normalize_non_empty, normalize_email,
    i64_to_string, u64_to_string, unicode_lowercase, to_lowercase, trimmed, trim,
};
use crate::timestamp::{timestamp_of, parse_timestamp};

verus! {

/// `a`, or else `b`.
pub open spec fn opt_or<T>(a: Option<T>, b: Option<T>) -> Option<T> {
    match a {
        Some(x) => Some(x),
        None => b,
    }
}

/// Key paths, each written as a list of string slices.
pub open spec fn paths_view(paths: Seq<&[&str]>) -> Seq<Seq<Seq<char>>> {
    paths.map_values(|p: &[&str]| path_keys(p@))
}

/// The text a JSON value gives a field: a string with something besides
/// white space (trimmed), or an integer in decimal.
pub open spec fn usable_text(v: Json) -> Option<Seq<char>> {
    match non_empty_text(json_as_str(v)) {
        Some(t) => Some(t),
        None => match json_as_i64(v) {
            Some(n) => Some(int_text(n as int)),
            None => match json_as_u64(v) {
                Some(n) => Some(int_text(n as int)),
                None => None,
            },
        },
    }
}

/// The text of the first path that leads in `root` to a usable value.
pub open spec fn pick_text(root: Json, paths: Seq<Seq<Seq<char>>>) -> Option<Seq<char>>
    decreases paths.len(),
{
    if paths.len() == 0 {
        None
    } else {
        match json_path(root, paths[0]) {
            Some(v) => match usable_text(v) {
                Some(t) => Some(t),
                None => pick_text(root, paths.drop_first()),
            },
            None => pick_text(root, paths.drop_first()),
        }
    }
}

/// `pick_text` in a document that may be absent.
pub open spec fn pick_text_in(root: Option<Json>, paths: Seq<Seq<Seq<char>>>) -> Option<Seq<char>> {
    match root {
        Some(r) => pick_text(r, paths),
        None => None,
    }
}

/// The text of the first of `paths` that leads in `root` to a non-blank
/// string or to an integer.
pub fn pick_string(root: Option<&JsonValue>, paths: &[&[&str]]) -> (r: Option<String>)
    ensures
        r.deep_view() == pick_text_in(opt_json(root), paths_view(paths@)),
{
    let doc = match root {
        Some(v) => v,
        None => {
            return None;
        },
    };
    let ghost pv = paths_view(paths@);
    assert(pv.skip(0) =~= pv);
    let mut i: usize = 0;
    while i < paths.len()
        invariant
            0 <= i <= paths@.len(),
            pv == paths_view(paths@),
            opt_json(root) == Some(doc@),
            pick_text(doc@, pv) == pick_text(doc@, pv.skip(i as int)),
        decreases paths@.len() - i,
    {
        assert(pv.skip(i as int)[0] == path_keys(paths@[i as int]@));
        assert(pv.skip(i as int).drop_first() =~= pv.skip(i + 1));
        if let Some(value) = get_path_value(doc, paths[i]) {
            if let Some(text) = as_str(value) {
                if let Some(normalized) = normalize_non_empty(Some(text)) {
                    return Some(normalized);
                }
            }
            if let Some(num) = as_i64(value) {
                return Some(i64_to_string(num));
            }
            if let Some(num) = as_u64(value) {
                return Some(u64_to_string(num));
            }
        }
        i = i + 1;
    }
    None
}


/// Where the access token may stand.
pub open spec fn access_token_keys() -> Seq<Seq<Seq<char>>> {
    seq![
        seq!["accessToken"@],
        seq!["access_token"@],
        seq!["token"@],
        seq!["id_token"@],
        seq!["cursorAuth"@, "accessToken"@],
    ]
}

fn access_token_paths() -> (r: &'static [&'static [&'static str]])
    ensures
        paths_view(r@) == access_token_keys(),
{
    let r: &'static [&'static [&'static str]] = &[
        &["accessToken"],
        &["access_token"],
        &["token"],
        &["id_token"],
        &["cursorAuth", "accessToken"],
    ];
    assert(paths_view(r@) =~~= access_token_keys());
    r
}


/// Where the refresh token may stand.
pub open spec fn refresh_token_keys() -> Seq<Seq<Seq<char>>> {
    seq![
        seq!["refreshToken"@],
        seq!["refresh_token"@],
        seq!["cursorAuth"@, "refreshToken"@],
    ]
}

fn refresh_token_paths() -> (r: &'static [&'static [&'static str]])
    ensures
        paths_view(r@) == refresh_token_keys(),
{
    let r: &'static [&'static [&'static str]] = &[
        &["refreshToken"],
        &["refresh_token"],
        &["cursorAuth", "refreshToken"],
    ];
    assert(paths_view(r@) =~~= refresh_token_keys());
    r
}

/// Where the token type may stand.
pub open spec fn token_type_keys() -> Seq<Seq<Seq<char>>> {
    seq![
        seq!["tokenType"@],
        seq!["token_type"@],
    ]
}

fn token_type_paths() -> (r: &'static [&'static [&'static str]])
    ensures
        paths_view(r@) == token_type_keys(),
{
    let r: &'static [&'static [&'static str]] = &[
        &["tokenType"],
        &["token_type"],
    ];
    assert(paths_view(r@) =~~= token_type_keys());
    r
}

/// Where the authorization may hold the e-mail address.
pub open spec fn auth_email_keys() -> Seq<Seq<Seq<char>>> {
    seq![
        seq!["email"@],
        seq!["cachedEmail"@],
        seq!["cursorAuth"@, "cachedEmail"@],
        seq!["login_hint"@],
        seq!["loginHint"@],
    ]
}

fn auth_email_paths() -> (r: &'static [&'static [&'static str]])
    ensures
        paths_view(r@) == auth_email_keys(),
{
    let r: &'static [&'static [&'static str]] = &[
        &["email"],
        &["cachedEmail"],
        &["cursorAuth", "cachedEmail"],
        &["login_hint"],
        &["loginHint"],
    ];
    assert(paths_view(r@) =~~= auth_email_keys());
    r
}

/// Where the profile may hold the e-mail address.
pub open spec fn profile_email_keys() -> Seq<Seq<Seq<char>>> {
    seq![
        seq!["email"@],
        seq!["user"@, "email"@],
        seq!["account"@, "email"@],
    ]
}

fn profile_email_paths() -> (r: &'static [&'static [&'static str]])
    ensures
        paths_view(r@) == profile_email_keys(),
{
    let r: &'static [&'static [&'static str]] = &[
        &["email"],
        &["user", "email"],
        &["account", "email"],
    ];
    assert(paths_view(r@) =~~= profile_email_keys());
    r
}

/// Where the token claims may hold the e-mail address.
pub open spec fn claims_email_keys() -> Seq<Seq<Seq<char>>> {
    seq![
        seq!["email"@],
        seq!["upn"@],
        seq!["preferred_username"@],
    ]
}

fn claims_email_paths() -> (r: &'static [&'static [&'static str]])
    ensures
        paths_view(r@) == claims_email_keys(),
{
    let r: &'static [&'static [&'static str]] = &[
        &["email"],
        &["upn"],
        &["preferred_username"],
    ];
    assert(paths_view(r@) =~~= claims_email_keys());
    r
}

/// Where the authorization may hold the user id.
pub open spec fn user_id_keys() -> Seq<Seq<Seq<char>>> {
    seq![
        seq!["userId"@],
        seq!["user_id"@],
        seq!["sub"@],
        seq!["cursorAuth"@, "userId"@],
    ]
}

fn user_id_paths() -> (r: &'static [&'static [&'static str]])
    ensures
        paths_view(r@) == user_id_keys(),
{
    let r: &'static [&'static [&'static str]] = &[
        &["userId"],
        &["user_id"],
        &["sub"],
        &["cursorAuth", "userId"],
    ];
    assert(paths_view(r@) =~~= user_id_keys());
    r
}

/// Where the token claims hold the user id.
pub open spec fn claims_user_id_keys() -> Seq<Seq<Seq<char>>> {
    seq![
        seq!["sub"@],
    ]
}

fn claims_user_id_paths() -> (r: &'static [&'static [&'static str]])
    ensures
        paths_view(r@) == claims_user_id_keys(),
{
    let r: &'static [&'static [&'static str]] = &[
        &["sub"],
    ];
    assert(paths_view(r@) =~~= claims_user_id_keys());
    r
}

/// Where the authorization may name the sign-in provider.
pub open spec fn provider_keys() -> Seq<Seq<Seq<char>>> {
    seq![
        seq!["provider"@],
        seq!["loginProvider"@],
        seq!["authProvider"@],
        seq!["cursorAuth"@, "provider"@],
    ]
}

fn provider_paths() -> (r: &'static [&'static [&'static str]])
    ensures
        paths_view(r@) == provider_keys(),
{
    let r: &'static [&'static [&'static str]] = &[
        &["provider"],
        &["loginProvider"],
        &["authProvider"],
        &["cursorAuth", "provider"],
    ];
    assert(paths_view(r@) =~~= provider_keys());
    r
}

/// Where the authorization may name the plan.
pub open spec fn plan_keys() -> Seq<Seq<Seq<char>>> {
    seq![
        seq!["stripeMembershipType"@],
        seq!["membershipType"@],
        seq!["plan"@],
        seq!["planName"@],
        seq!["cursorAuth"@, "stripeMembershipType"@],
    ]
}

fn plan_paths() -> (r: &'static [&'static [&'static str]])
    ensures
        paths_view(r@) == plan_keys(),
{
    let r: &'static [&'static [&'static str]] = &[
        &["stripeMembershipType"],
        &["membershipType"],
        &["plan"],
        &["planName"],
        &["cursorAuth", "stripeMembershipType"],
    ];
    assert(paths_view(r@) =~~= plan_keys());
    r
}


/// The profile written for an account whose snapshot has none: its e-mail
/// address, and its user id where there is one.
pub open spec fn fallback_profile(email: Seq<char>, user_id: Option<Seq<char>>) -> Json {
    Json::Object(
        seq![("email"@, Json::Str(email))] + match non_empty_text(user_id) {
            Some(uid) => seq![("userId"@, Json::Str(uid))],
            None => Seq::empty(),
        },
    )
}

pub fn build_fallback_profile(email: &str, user_id: Option<&str>) -> (r: JsonValue)
    ensures
        r@ == fallback_profile(email@, opt_text(user_id)),
{
    let mut obj: Vec<(String, JsonValue)> = Vec::new();
    obj.push(("email".to_owned(), JsonValue::Str(email.to_owned())));
    if let Some(uid) = normalize_non_empty(user_id) {
        obj.push(("userId".to_owned(), JsonValue::Str(uid)));
    }
    proof {
        crate::json::lemma_members_view(obj@, obj@.len());
    }
    let ghost members = crate::json::members_view(obj@, obj@.len());
    let ghost expected = seq![("email"@, Json::Str(email@))] + match non_empty_text(opt_text(user_id)) {
        Some(uid) => seq![("userId"@, Json::Str(uid))],
        None => Seq::empty(),
    };
    assert(members[0] == (obj@[0].0@, json_view(obj@[0].1)));
    assert(members =~= expected);
    let r = JsonValue::Object(obj);
    assert(r@ == Json::Object(members));
    r
}

/// The value that gives the expiry: the first of `expiresAt`, `expires_at`,
/// `expiration` and `exp` present in the authorization, else `exp` of the
/// token claims.
pub open spec fn expiry_value(auth: Json, claims: Option<Json>) -> Option<Json> {
    opt_or(
        json_get(auth, "expiresAt"@),
        opt_or(
            json_get(auth, "expires_at"@),
            opt_or(
                json_get(auth, "expiration"@),
                opt_or(
                    json_get(auth, "exp"@),
                    match claims {
                        Some(c) => json_get(c, "exp"@),
                        None => None,
                    },
                ),
            ),
        ),
    )
}

fn expiry_source<'a>(auth: &'a JsonValue, claims: Option<&'a JsonValue>) -> (r: Option<&'a JsonValue>)
    ensures
        opt_json(r) == expiry_value(auth@, opt_json(claims)),
{
    if let Some(v) = object_get(auth, "expiresAt") {
        return Some(v);
    }
    if let Some(v) = object_get(auth, "expires_at") {
        return Some(v);
    }
    if let Some(v) = object_get(auth, "expiration") {
        return Some(v);
    }
    if let Some(v) = object_get(auth, "exp") {
        return Some(v);
    }
    match claims {
        Some(c) => object_get(c, "exp"),
        None => None,
    }
}

/// The message when the authorization holds no access token.
pub open spec fn missing_access_token_message() -> Seq<char> {
    "Cursor 本地授权信息缺少 access token"@
}

/// The message when no e-mail address is found.
pub open spec fn missing_email_message() -> Seq<char> {
    "Cursor 登录信息缺少邮箱字段，请先在 Cursor 客户端完成登录"@
}

/// The payload a snapshot gives: the access token and e-mail address are
/// required, every other field is read from the first place that has it.
/// `claims` are the claims of the access token's JWT, where they decode.
pub open spec fn snapshot_payload(
    auth: Json,
    profile: Option<Json>,
    usage: Option<Json>,
    claims: Option<Json>,
) -> Result<PayloadView, Seq<char>> {
    match pick_text(auth, access_token_keys()) {
        None => Err(missing_access_token_message()),
        Some(access_token) => {
            let email = opt_or(
                email_text(pick_text(auth, auth_email_keys())),
                opt_or(
                    email_text(pick_text_in(profile, profile_email_keys())),
                    email_text(pick_text_in(claims, claims_email_keys())),
                ),
            );
            match email {
                None => Err(missing_email_message()),
                Some(email) => {
                    let user_id = opt_or(
                        non_empty_text(pick_text(auth, user_id_keys())),
                        non_empty_text(pick_text_in(claims, claims_user_id_keys())),
                    );
                    let plan_name = non_empty_text(pick_text(auth, plan_keys()));
                    Ok(
                        PayloadView {
                            email: email,
                            user_id: user_id,
                            login_provider: non_empty_text(pick_text(auth, provider_keys())),
                            access_token: access_token,
                            refresh_token: pick_text(auth, refresh_token_keys()),
                            token_type: opt_or(pick_text(auth, token_type_keys()), Some("Bearer"@)),
                            expires_at: timestamp_of(expiry_value(auth, claims)),
                            idc_region: None,
                            issuer_url: None,
                            client_id: None,
                            scopes: None,
                            login_hint: Some(email),
                            plan_name: plan_name,
                            plan_tier: plan_name,
                            credits_total: None,
                            credits_used: None,
                            bonus_total: None,
                            bonus_used: None,
                            usage_reset_at: None,
                            bonus_expire_days: None,
                            cursor_auth_token_raw: Some(auth),
                            cursor_profile_raw: Some(
                                match profile {
                                    Some(p) => p,
                                    None => fallback_profile(email, user_id),
                                },
                            ),
                            cursor_usage_raw: usage,
                        },
                    )
                },
            }
        },
    }
}

/// The model of a result that carries a payload or a message.
pub open spec fn payload_result(r: Result<CursorOAuthCompletePayload, String>) -> Result<PayloadView, Seq<char>> {
    match r {
        Ok(p) => Ok(p@),
        Err(e) => Err(e@),
    }
}

/// An optional owned text, borrowed.
fn opt_as_str(o: &Option<String>) -> (r: Option<&str>)
    ensures
        opt_text(r) == o.deep_view(),
{
    match o {
        Some(s) => Some(s.as_str()),
        None => None,
    }
}

/// An optional owned JSON value, borrowed.
fn opt_ref(o: &Option<JsonValue>) -> (r: Option<&JsonValue>)
    ensures
        opt_json(r) == opt_json_value(*o),
{
    match o {
        Some(v) => Some(v),
        None => None,
    }
}

/// The payload a sign-in snapshot gives (see `snapshot_payload`).
///
/// `jwt_claims` are the claims of the access token that the snapshot holds,
/// decoded from `crate::jwt::jwt_claims_bytes` of that token; `None` where
/// it has none or they do not decode.
pub fn build_payload_from_snapshot(
    auth_token: JsonValue,
    profile: Option<JsonValue>,
    usage: Option<JsonValue>,
    jwt_claims: Option<JsonValue>,
) -> (r: Result<CursorOAuthCompletePayload, String>)
    ensures
        payload_result(r) == snapshot_payload(
            auth_token@,
            opt_json_value(profile),
            opt_json_value(usage),
            opt_json_value(jwt_claims),
        ),
{
    let access_token = match pick_string(Some(&auth_token), access_token_paths()) {
        Some(t) => t,
        None => {
            return Err("Cursor 本地授权信息缺少 access token".to_owned());
        },
    };
    let refresh_token = pick_string(Some(&auth_token), refresh_token_paths());
    let token_type = match pick_string(Some(&auth_token), token_type_paths()) {
        Some(t) => Some(t),
        None => Some("Bearer".to_owned()),
    };
    let claims = opt_ref(&jwt_claims);
    let auth_email = pick_string(Some(&auth_token), auth_email_paths());
    let email = match normalize_email(opt_as_str(&auth_email)) {
        Some(e) => Some(e),
        None => {
            let profile_email = pick_string(opt_ref(&profile), profile_email_paths());
            match normalize_email(opt_as_str(&profile_email)) {
                Some(e) => Some(e),
                None => {
                    let claims_email = pick_string(claims, claims_email_paths());
                    normalize_email(opt_as_str(&claims_email))
                },
            }
        },
    };
    let email = match email {
        Some(e) => e,
        None => {
            return Err("Cursor 登录信息缺少邮箱字段，请先在 Cursor 客户端完成登录".to_owned());
        },
    };
    let auth_user_id = pick_string(Some(&auth_token), user_id_paths());
    let user_id = match normalize_non_empty(opt_as_str(&auth_user_id)) {
        Some(u) => Some(u),
        None => {
            let claims_sub = pick_string(claims, claims_user_id_paths());
            normalize_non_empty(opt_as_str(&claims_sub))
        },
    };
    let provider = pick_string(Some(&auth_token), provider_paths());
    let login_provider = normalize_non_empty(opt_as_str(&provider));
    let plan = pick_string(Some(&auth_token), plan_paths());
    let plan_name = normalize_non_empty(opt_as_str(&plan));
    let expires_at = parse_timestamp(expiry_source(&auth_token, claims));
    let profile_raw = match profile {
        Some(p) => p,
        None => build_fallback_profile(email.as_str(), opt_as_str(&user_id)),
    };
    Ok(
        CursorOAuthCompletePayload {
            email: email.clone(),
            user_id: clone_opt_string(&user_id),
            login_provider,
            access_token,
            refresh_token,
            token_type,
            expires_at,
            idc_region: None,
            issuer_url: None,
            client_id: None,
            scopes: None,
            login_hint: Some(email),
            plan_name: clone_opt_string(&plan_name),
            plan_tier: plan_name,
            credits_total: None,
            credits_used: None,
            bonus_total: None,
            bonus_used: None,
            usage_reset_at: None,
            bonus_expire_days: None,
            cursor_auth_token_raw: Some(auth_token),
            cursor_profile_raw: Some(profile_raw),
            cursor_usage_raw: usage,
        },
    )
}


/// The payload with its usage figures brought up to date; the usage that a
/// sign-in reports is already in the payload, so it is returned as it is.
pub fn enrich_payload_with_runtime_usage(payload: CursorOAuthCompletePayload) -> (r: CursorOAuthCompletePayload)
    ensures
        r@ == payload@,
{
    payload
}

/// The access token a snapshot holds, where the claims of its JWT are to be
/// read from before `build_payload_from_snapshot`.
pub fn snapshot_access_token(auth_token: &JsonValue) -> (r: Option<String>)
    ensures
        r.deep_view() == pick_text(auth_token@, access_token_keys()),
{
    pick_string(Some(auth_token), access_token_paths())
}

/// The message when the local client store holds no sign-in.
pub open spec fn no_local_login_message() -> Seq<char> {
    "未在本机找到 Cursor 登录信息（state.vscdb 中缺少 cursorAuth/accessToken）"@
}

/// The model of the result of reading one part of the local sign-in.
pub open spec fn read_view(r: Result<Option<JsonValue>, String>) -> Result<Option<Json>, Seq<char>> {
    match r {
        Ok(v) => Ok(opt_json_value(v)),
        Err(e) => Err(e@),
    }
}

/// The payload from what was read of the local client store: the first read
/// that failed gives its error, a missing authorization gives
/// `no_local_login_message`, and otherwise the snapshot gives the payload.
pub open spec fn local_files_payload(
    auth_token: Result<Option<Json>, Seq<char>>,
    profile: Result<Option<Json>, Seq<char>>,
    usage: Result<Option<Json>, Seq<char>>,
    claims: Option<Json>,
) -> Result<PayloadView, Seq<char>> {
    match auth_token {
        Err(e) => Err(e),
        Ok(None) => Err(no_local_login_message()),
        Ok(Some(auth)) => match profile {
            Err(e) => Err(e),
            Ok(p) => match usage {
                Err(e) => Err(e),
                Ok(u) => snapshot_payload(auth, p, u, claims),
            },
        },
    }
}

/// The payload from the sign-in that the local client stores. The three
/// arguments are the results of reading its authorization, profile and usage
/// snapshot; `jwt_claims` are the claims of the authorization's access token.
pub fn build_payload_from_local_files(
    auth_token: Result<Option<JsonValue>, String>,
    profile: Result<Option<JsonValue>, String>,
    usage: Result<Option<JsonValue>, String>,
    jwt_claims: Option<JsonValue>,
) -> (r: Result<CursorOAuthCompletePayload, String>)
    ensures
        payload_result(r) == local_files_payload(
            read_view(auth_token),
            read_view(profile),
            read_view(usage),
            opt_json_value(jwt_claims),
        ),
{
    let auth_token = match auth_token {
        Err(e) => {
            return Err(e);
        },
        Ok(None) => {
            return Err(
                "未在本机找到 Cursor 登录信息（state.vscdb 中缺少 cursorAuth/accessToken）".to_owned(),
            );
        },
        Ok(Some(a)) => a,
    };
    let profile = match profile {
        Err(e) => {
            return Err(e);
        },
        Ok(p) => p,
    };
    let usage = match usage {
        Err(e) => {
            return Err(e);
        },
        Ok(u) => u,
    };
    build_payload_from_snapshot(auth_token, profile, usage, jwt_claims)
}

/// The authorization a bare access token stands for.
pub open spec fn token_snapshot(token: Seq<char>) -> Json {
    Json::Object(seq![("accessToken"@, Json::Str(token)), ("tokenType"@, Json::Str("Bearer"@))])
}

/// The message when the token given is blank.
pub open spec fn empty_token_message() -> Seq<char> {
    "Token 不能为空"@
}

/// The payload for an access token given by hand: an error where it is
/// blank, else the payload of the snapshot that holds the trimmed token.
pub open spec fn token_payload(token: Seq<char>, claims: Option<Json>) -> Result<PayloadView, Seq<char>> {
    if trimmed(token).len() == 0 {
        Err(empty_token_message())
    } else {
        snapshot_payload(token_snapshot(trimmed(token)), None, None, claims)
    }
}

/// The payload for an access token given by hand; `jwt_claims` are the
/// claims of the trimmed token.
pub fn build_payload_from_token(token: &str, jwt_claims: Option<JsonValue>) -> (r: Result<
    CursorOAuthCompletePayload,
    String,
>)
    ensures
        payload_result(r) == token_payload(token@, opt_json_value(jwt_claims)),
{
    let trimmed_token = trim(token);
    if trimmed_token.is_empty() {
        return Err("Token 不能为空".to_owned());
    }
    let mut members: Vec<(String, JsonValue)> = Vec::new();
    members.push(("accessToken".to_owned(), JsonValue::Str(trimmed_token.to_owned())));
    members.push(("tokenType".to_owned(), JsonValue::Str("Bearer".to_owned())));
    proof {
        crate::json::lemma_members_view(members@, members@.len());
    }
    let ghost mv = crate::json::members_view(members@, members@.len());
    assert(mv[0] == (members@[0].0@, json_view(members@[0].1)));
    assert(mv[1] == (members@[1].0@, json_view(members@[1].1)));
    assert(mv =~= seq![("accessToken"@, Json::Str(trimmed(token@))), ("tokenType"@, Json::Str("Bearer"@))]);
    let raw = JsonValue::Object(members);
    assert(raw@ == token_snapshot(trimmed(token@)));
    build_payload_from_snapshot(raw, None, None, jwt_claims)
}

/// The lower-case form of an optional text.
pub open spec fn opt_lowercase(o: Option<Seq<char>>) -> Option<Seq<char>> {
    match o {
        Some(t) => Some(unicode_lowercase(t)),
        None => None,
    }
}

/// Both present and equal.
pub open spec fn same_present(a: Option<Seq<char>>, b: Option<Seq<char>>) -> bool {
    a is Some && b is Some && a == b
}

/// Whether a payload is for the account: the same user id, else the same
/// e-mail address ignoring case, else the same refresh token, each counted
/// only where both sides have one.
pub open spec fn payload_matches(p: PayloadView, a: PayloadView) -> bool {
    ||| same_present(non_empty_text(p.user_id), non_empty_text(a.user_id))
    ||| same_present(
        opt_lowercase(email_text(Some(p.email))),
        opt_lowercase(email_text(Some(a.email))),
    )
    ||| same_present(non_empty_text(p.refresh_token), non_empty_text(a.refresh_token))
}

fn same_text(a: &Option<String>, b: &Option<String>) -> (r: bool)
    ensures
        r == same_present(a.deep_view(), b.deep_view()),
{
    match (a, b) {
        (Some(left), Some(right)) => *left == *right,
        _ => false,
    }
}

fn lowercase_opt(o: Option<String>) -> (r: Option<String>)
    ensures
        r.deep_view() == opt_lowercase(o.deep_view()),
{
    match o {
        Some(t) => Some(to_lowercase(t.as_str())),
        None => None,
    }
}

pub fn payload_matches_account(payload: &CursorOAuthCompletePayload, account: &CursorAccount) -> (r: bool)
    ensures
        r == payload_matches(payload@, account@.data),
{
    let payload_user = normalize_non_empty(opt_as_str(&payload.user_id));
    let account_user = normalize_non_empty(opt_as_str(&account.user_id));
    if same_text(&payload_user, &account_user) {
        return true;
    }
    let payload_email = lowercase_opt(normalize_email(Some(payload.email.as_str())));
    let account_email = lowercase_opt(normalize_email(Some(account.email.as_str())));
    if same_text(&payload_email, &account_email) {
        return true;
    }
    let payload_refresh = normalize_non_empty(opt_as_str(&payload.refresh_token));
    let account_refresh = normalize_non_empty(opt_as_str(&account.refresh_token));
    same_text(&payload_refresh, &account_refresh)
}

/// The sign-in data of a stored account, as a payload.
pub fn payload_from_account(account: &CursorAccount) -> (r: CursorOAuthCompletePayload)
    ensures
        r@ == account@.data,
{
    CursorOAuthCompletePayload {
        email: account.email.clone(),
        user_id: clone_opt_string(&account.user_id),
        login_provider: clone_opt_string(&account.login_provider),
        access_token: account.access_token.clone(),
        refresh_token: clone_opt_string(&account.refresh_token),
        token_type: clone_opt_string(&account.token_type),
        expires_at: account.expires_at,
        idc_region: clone_opt_string(&account.idc_region),
        issuer_url: clone_opt_string(&account.issuer_url),
        client_id: clone_opt_string(&account.client_id),
        scopes: clone_opt_strings(&account.scopes),
        login_hint: clone_opt_string(&account.login_hint),
        plan_name: clone_opt_string(&account.plan_name),
        plan_tier: clone_opt_string(&account.plan_tier),
        credits_total: account.credits_total,
        credits_used: account.credits_used,
        bonus_total: account.bonus_total,
        bonus_used: account.bonus_used,
        usage_reset_at: account.usage_reset_at,
        bonus_expire_days: account.bonus_expire_days,
        cursor_auth_token_raw: clone_opt_json(&account.cursor_auth_token_raw),
        cursor_profile_raw: clone_opt_json(&account.cursor_profile_raw),
        cursor_usage_raw: clone_opt_json(&account.cursor_usage_raw),
    }
}

/// The payload that refreshes an account: the local sign-in where it reads
/// in full, yields a payload and that payload is for the account; the
/// account's own data otherwise.
pub open spec fn refreshed_payload(
    account: AccountView,
    auth_token: Result<Option<Json>, Seq<char>>,
    profile: Result<Option<Json>, Seq<char>>,
    usage: Result<Option<Json>, Seq<char>>,
    claims: Option<Json>,
) -> PayloadView {
    match auth_token {
        Ok(Some(auth)) => {
            let p = match profile {
                Ok(v) => v,
                Err(_) => None,
            };
            let u = match usage {
                Ok(v) => v,
                Err(_) => None,
            };
            match snapshot_payload(auth, p, u, claims) {
                Ok(payload) => if payload_matches(payload, account.data) {
                    payload
                } else {
                    account.data
                },
                Err(_) => account.data,
            }
        },
        _ => account.data,
    }
}

/// The payload that refreshes `account` (see `refreshed_payload`); the
/// arguments after it are what was read of the local client store and the
/// claims of the access token found there. It always succeeds.
pub fn refresh_payload_for_account(
    account: &CursorAccount,
    auth_token: Result<Option<JsonValue>, String>,
    profile: Result<Option<JsonValue>, String>,
    usage: Result<Option<JsonValue>, String>,
    jwt_claims: Option<JsonValue>,
) -> (r: Result<CursorOAuthCompletePayload, String>)
    ensures
        r matches Ok(p) && p@ == refreshed_payload(
            account@,
            read_view(auth_token),
            read_view(profile),
            read_view(usage),
            opt_json_value(jwt_claims),
        ),
{
    if let Ok(Some(auth)) = auth_token {
        let profile = match profile {
            Ok(v) => v,
            Err(_) => None,
        };
        let usage = match usage {
            Ok(v) => v,
            Err(_) => None,
        };
        if let Ok(payload) = build_payload_from_snapshot(auth, profile, usage, jwt_claims) {
            if payload_matches_account(&payload, account) {
                return Ok(payload);
            }
        }
    }
    Ok(payload_from_account(account))
}


/// Whether an account can be recognised at all: it has a user id, an
/// e-mail address or a refresh token.
pub open spec fn identifiable(a: PayloadView) -> bool {
    ||| non_empty_text(a.user_id) is Some
    ||| email_text(Some(a.email)) is Some
    ||| non_empty_text(a.refresh_token) is Some
}

/// The payload made from a recognisable account is taken for that account.
pub proof fn law_account_payload_matches(a: PayloadView)
    requires
        identifiable(a),
    ensures
        payload_matches(a, a),
{
}

/// A refresh keeps an account's own data unless the local sign-in is for
/// that same account.
pub proof fn law_refresh_keeps_account(
    account: AccountView,
    auth_token: Result<Option<Json>, Seq<char>>,
    profile: Result<Option<Json>, Seq<char>>,
    usage: Result<Option<Json>, Seq<char>>,
    claims: Option<Json>,
)
    ensures
        ({
            let p = refreshed_payload(account, auth_token, profile, usage, claims);
            p == account.data || payload_matches(p, account.data)
        }),
{
}

/// Every payload that a snapshot gives has an e-mail address with an `@`,
/// uses it as the login hint, has a token type, takes the plan tier from
/// the plan name, and keeps the authorization and a profile.
pub proof fn law_snapshot_payload_shape(
    auth: Json,
    profile: Option<Json>,
    usage: Option<Json>,
    claims: Option<Json>,
)
    ensures
        snapshot_payload(auth, profile, usage, claims) matches Ok(p) ==> {
            &&& p.email.contains('@')
            &&& p.login_hint == Some(p.email)
            &&& p.token_type is Some
            &&& p.plan_tier == p.plan_name
            &&& p.cursor_auth_token_raw == Some(auth)
            &&& p.cursor_profile_raw is Some
            &&& p.cursor_usage_raw == usage
        },
{
    let e1 = pick_text(auth, auth_email_keys());
    let e2 = pick_text_in(profile, profile_email_keys());
    let e3 = pick_text_in(claims, claims_email_keys());
    crate::text::law_normalize_email_idempotent(e1);
    crate::text::law_normalize_email_idempotent(e2);
    crate::text::law_normalize_email_idempotent(e3);
}

/// A token given by hand that is not blank becomes the access token,
/// trimmed, with the token type `Bearer`; the only way it can be refused is
/// for want of an e-mail address.
pub proof fn law_token_payload(token: Seq<char>, claims: Option<Json>)
    requires
        trimmed(token).len() > 0,
    ensures
        token_payload(token, claims) matches Ok(p) ==> p.access_token == trimmed(token)
            && p.token_type == Some("Bearer"@),
        token_payload(token, claims) is Err ==> token_payload(token, claims) == Err::<PayloadView, Seq<char>>(
            missing_email_message(),
        ),
{
    let t = trimmed(token);
    let snap = token_snapshot(t);
    crate::text::lemma_trimmed_idempotent(token);
    let members = seq![("accessToken"@, Json::Str(t)), ("tokenType"@, Json::Str("Bearer"@))];
    assert(members[0].0 == "accessToken"@);
    assert(json_get(snap, "accessToken"@) == Some(Json::Str(t)));
    assert(json_path(Json::Str(t), seq!["accessToken"@].drop_first()) == Some(Json::Str(t)));
    assert(json_path(snap, seq!["accessToken"@]) == Some(Json::Str(t)));
    assert(usable_text(Json::Str(t)) == Some(t));
    assert(pick_text(snap, access_token_keys()) == Some(t));
    let bearer: Seq<char> = "Bearer"@;
    assert(members.drop_first()[0].0 == "tokenType"@);
    assert(json_get(snap, "tokenType"@) == Some(Json::Str(bearer))) by {
        assert(crate::json::member_value(members.drop_first(), "tokenType"@) == Some(
            Json::Str(bearer),
        ));
        assert(members[0].0 != "tokenType"@) by {
            reveal_strlit("accessToken");
            reveal_strlit("tokenType");
            assert(members[0].0[0] != "tokenType"@[0]);
        }
    }
    assert(json_path(snap, seq!["tokenType"@]) == Some(Json::Str(bearer))) by {
        let p: Seq<Seq<char>> = seq!["tokenType"@];
        assert(p[0] == "tokenType"@);
        assert(p.drop_first() =~= Seq::<Seq<char>>::empty());
        assert(json_path(Json::Str(bearer), p.drop_first()) == Some(Json::Str(bearer)));
    }
    assert(trimmed(bearer) == bearer) by {
        reveal_strlit("Bearer");
        assert(!crate::text::is_white_space(bearer[0]));
        assert(!crate::text::is_white_space(bearer.last()));
        assert(crate::text::trim_start(bearer) == bearer);
        assert(crate::text::trim_end(bearer) == bearer);
    }
    assert(usable_text(Json::Str(bearer)) == Some(bearer)) by {
        reveal_strlit("Bearer");
    }
    assert(pick_text(snap, token_type_keys()) == Some(bearer));
}

} // verus!
