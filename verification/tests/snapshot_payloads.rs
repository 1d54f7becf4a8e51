use cursor_oauth::json::JsonValue;
use cursor_oauth::model::{CursorAccount, CursorOAuthCompletePayload};
use cursor_oauth::snapshot::{
    build_fallback_profile, build_payload_from_local_files, build_payload_from_snapshot,
    build_payload_from_token, enrich_payload_with_runtime_usage, payload_from_account,
    payload_matches_account, pick_string, refresh_payload_for_account, snapshot_access_token,
};

fn s(t: &str) -> JsonValue {
    JsonValue::Str(t.to_string())
}

fn obj(members: Vec<(&str, JsonValue)>) -> JsonValue {
    JsonValue::Object(members.into_iter().map(|(k, v)| (k.to_string(), v)).collect())
}

fn member<'a>(v: &'a JsonValue, key: &str) -> Option<&'a JsonValue> {
    match v {
        JsonValue::Object(m) => m.iter().find(|(k, _)| k == key).map(|(_, v)| v),
        _ => None,
    }
}

fn text_of(v: Option<&JsonValue>) -> Option<String> {
    match v {
        Some(JsonValue::Str(t)) => Some(t.clone()),
        _ => None,
    }
}

fn account(id: &str, email: &str, user_id: Option<&str>, refresh: Option<&str>) -> CursorAccount {
    CursorAccount {
        id: id.to_string(),
        email: email.to_string(),
        user_id: user_id.map(|u| u.to_string()),
        login_provider: Some("github".to_string()),
        access_token: "stored-access".to_string(),
        refresh_token: refresh.map(|r| r.to_string()),
        token_type: Some("Bearer".to_string()),
        expires_at: Some(1_800_000_000),
        idc_region: Some("us-east-1".to_string()),
        issuer_url: None,
        client_id: Some("client".to_string()),
        scopes: Some(vec!["a".to_string(), "b".to_string()]),
        login_hint: Some(email.to_string()),
        plan_name: Some("pro".to_string()),
        plan_tier: Some("pro".to_string()),
        credits_total: Some(500),
        credits_used: Some(20),
        bonus_total: None,
        bonus_used: None,
        usage_reset_at: Some(1_750_000_000),
        bonus_expire_days: Some(7),
        cursor_auth_token_raw: Some(obj(vec![("accessToken", s("stored-access"))])),
        cursor_profile_raw: None,
        cursor_usage_raw: Some(JsonValue::Array(vec![JsonValue::PosInt(1)])),
    }
}

fn full_auth() -> JsonValue {
    obj(vec![
        ("cursorAuth", obj(vec![
            ("accessToken", s("  tok-123  ")),
            ("refreshToken", s("ref-9")),
            ("cachedEmail", s("User@Example.com")),
            ("stripeMembershipType", s("pro")),
            ("provider", s("google")),
            ("userId", JsonValue::PosInt(77)),
        ])),
        ("expiresAt", JsonValue::PosInt(1_800_000_000_000)),
    ])
}

#[test]
fn pick_string_takes_first_usable_path() {
    let doc = obj(vec![
        ("a", s("   ")),
        ("b", JsonValue::NegInt(-12)),
        ("c", s(" text ")),
    ]);
    assert_eq!(pick_string(Some(&doc), &[&["a"], &["b"], &["c"]]), Some("-12".to_string()));
    assert_eq!(pick_string(Some(&doc), &[&["a"], &["c"]]), Some("text".to_string()));
    assert_eq!(pick_string(Some(&doc), &[&["a"], &["zzz"]]), None);
    assert_eq!(pick_string(None, &[&["c"]]), None);
    let big = obj(vec![("n", JsonValue::PosInt(u64::MAX))]);
    assert_eq!(pick_string(Some(&big), &[&["n"]]), Some(u64::MAX.to_string()));
}

#[test]
fn fallback_profile_holds_email_and_user_id() {
    let p = build_fallback_profile("a@b.c", Some(" u1 "));
    assert_eq!(text_of(member(&p, "email")), Some("a@b.c".to_string()));
    assert_eq!(text_of(member(&p, "userId")), Some("u1".to_string()));
    let q = build_fallback_profile("a@b.c", Some("  "));
    assert!(member(&q, "userId").is_none());
}

#[test]
fn snapshot_with_nested_fields() {
    let p = build_payload_from_snapshot(full_auth(), None, None, None).unwrap();
    assert_eq!(p.access_token, "tok-123");
    assert_eq!(p.refresh_token.as_deref(), Some("ref-9"));
    assert_eq!(p.email, "User@Example.com");
    assert_eq!(p.login_hint.as_deref(), Some("User@Example.com"));
    assert_eq!(p.user_id.as_deref(), Some("77"));
    assert_eq!(p.login_provider.as_deref(), Some("google"));
    assert_eq!(p.plan_name.as_deref(), Some("pro"));
    assert_eq!(p.plan_tier.as_deref(), Some("pro"));
    assert_eq!(p.token_type.as_deref(), Some("Bearer"));
    assert_eq!(p.expires_at, Some(1_800_000_000));
    assert!(p.idc_region.is_none() && p.scopes.is_none() && p.credits_total.is_none());
    assert!(p.cursor_auth_token_raw.is_some());
    let profile = p.cursor_profile_raw.as_ref().unwrap();
    assert_eq!(text_of(member(profile, "email")), Some("User@Example.com".to_string()));
    assert_eq!(text_of(member(profile, "userId")), Some("77".to_string()));
    assert!(p.cursor_usage_raw.is_none());
}

#[test]
fn snapshot_without_access_token_is_refused() {
    let auth = obj(vec![("email", s("a@b.c"))]);
    let e = build_payload_from_snapshot(auth, None, None, None).err().unwrap();
    assert_eq!(e, "Cursor 本地授权信息缺少 access token");
}

#[test]
fn snapshot_without_email_is_refused() {
    let auth = obj(vec![("accessToken", s("t")), ("email", s("no-at-sign"))]);
    let e = build_payload_from_snapshot(auth, None, None, None).err().unwrap();
    assert_eq!(e, "Cursor 登录信息缺少邮箱字段，请先在 Cursor 客户端完成登录");
}

#[test]
fn email_falls_back_to_profile_then_claims() {
    let auth = obj(vec![("accessToken", s("t"))]);
    let profile = obj(vec![("user", obj(vec![("email", s("p@x.io"))]))]);
    let p = build_payload_from_snapshot(auth, Some(profile), Some(JsonValue::Null), None).unwrap();
    assert_eq!(p.email, "p@x.io");
    assert!(matches!(p.cursor_usage_raw, Some(JsonValue::Null)));
    assert!(member(p.cursor_profile_raw.as_ref().unwrap(), "user").is_some());

    let auth = obj(vec![("accessToken", s("t"))]);
    let claims = obj(vec![("upn", s("c@x.io")), ("sub", s("sub-1")), ("exp", JsonValue::PosInt(1_900_000_000))]);
    let p = build_payload_from_snapshot(auth, None, None, Some(claims)).unwrap();
    assert_eq!(p.email, "c@x.io");
    assert_eq!(p.user_id.as_deref(), Some("sub-1"));
    assert_eq!(p.expires_at, Some(1_900_000_000));
}

#[test]
fn first_expiry_key_present_wins_even_if_null() {
    let auth = obj(vec![
        ("accessToken", s("t")),
        ("email", s("a@b.c")),
        ("expires_at", JsonValue::Null),
        ("exp", JsonValue::PosInt(1_800_000_000)),
    ]);
    let p = build_payload_from_snapshot(auth, None, None, None).unwrap();
    assert_eq!(p.expires_at, None);
}

#[test]
fn snapshot_access_token_reads_the_token() {
    assert_eq!(snapshot_access_token(&full_auth()), Some("tok-123".to_string()));
    assert_eq!(snapshot_access_token(&obj(vec![])), None);
}

#[test]
fn local_files_errors_come_in_order() {
    let e = build_payload_from_local_files(Err("db locked".to_string()), Err("p".to_string()), Ok(None), None);
    assert_eq!(e.err().unwrap(), "db locked");
    let e = build_payload_from_local_files(Ok(None), Err("p".to_string()), Ok(None), None);
    assert_eq!(e.err().unwrap(), "未在本机找到 Cursor 登录信息（state.vscdb 中缺少 cursorAuth/accessToken）");
    let e = build_payload_from_local_files(Ok(Some(full_auth())), Err("profile".to_string()), Err("usage".to_string()), None);
    assert_eq!(e.err().unwrap(), "profile");
    let e = build_payload_from_local_files(Ok(Some(full_auth())), Ok(None), Err("usage".to_string()), None);
    assert_eq!(e.err().unwrap(), "usage");
    let p = build_payload_from_local_files(Ok(Some(full_auth())), Ok(None), Ok(None), None).unwrap();
    assert_eq!(p.access_token, "tok-123");
}

#[test]
fn token_payload_cases() {
    assert_eq!(build_payload_from_token("   ", None).err().unwrap(), "Token 不能为空");
    assert_eq!(
        build_payload_from_token(" abc ", None).err().unwrap(),
        "Cursor 登录信息缺少邮箱字段，请先在 Cursor 客户端完成登录"
    );
    let claims = obj(vec![("email", s("jwt@x.io"))]);
    let p = build_payload_from_token("  abc  ", Some(claims)).unwrap();
    assert_eq!(p.access_token, "abc");
    assert_eq!(p.token_type.as_deref(), Some("Bearer"));
    assert_eq!(p.email, "jwt@x.io");
    let raw = p.cursor_auth_token_raw.as_ref().unwrap();
    assert_eq!(text_of(member(raw, "accessToken")), Some("abc".to_string()));
    assert_eq!(text_of(member(raw, "tokenType")), Some("Bearer".to_string()));
}

#[test]
fn payload_from_account_copies_everything() {
    let a = account("id-1", "a@b.c", Some("u1"), Some("r1"));
    let p: CursorOAuthCompletePayload = payload_from_account(&a);
    assert_eq!(p.email, a.email);
    assert_eq!(p.user_id, a.user_id);
    assert_eq!(p.idc_region, a.idc_region);
    assert_eq!(p.scopes, a.scopes);
    assert_eq!(p.credits_total, Some(500));
    assert_eq!(p.bonus_expire_days, Some(7));
    assert!(matches!(p.cursor_usage_raw, Some(JsonValue::Array(ref v)) if v.len() == 1));
    assert!(payload_matches_account(&p, &a));
    let q = enrich_payload_with_runtime_usage(p);
    assert_eq!(q.email, "a@b.c");
}

#[test]
fn matching_by_user_id_email_or_refresh_token() {
    let a = account("id-1", "Someone@Example.COM", Some("u1"), Some("r1"));
    let mut p = payload_from_account(&account("x", "other@x.io", Some(" u1 "), None));
    assert!(payload_matches_account(&p, &a));
    p.user_id = Some("u2".to_string());
    assert!(!payload_matches_account(&p, &a));
    p.email = " someone@example.com ".to_string();
    assert!(payload_matches_account(&p, &a));
    p.email = "nobody@x.io".to_string();
    p.refresh_token = Some("r1".to_string());
    assert!(payload_matches_account(&p, &a));
    p.refresh_token = Some("r2".to_string());
    assert!(!payload_matches_account(&p, &a));
}

#[test]
fn refresh_uses_local_sign_in_only_for_same_account() {
    let a = account("id-1", "user@example.com", Some("77"), None);
    let p = refresh_payload_for_account(&a, Ok(Some(full_auth())), Ok(None), Ok(None), None).unwrap();
    assert_eq!(p.access_token, "tok-123");

    let b = account("id-2", "b@x.io", Some("88"), None);
    let p = refresh_payload_for_account(&b, Ok(Some(full_auth())), Err("x".to_string()), Err("y".to_string()), None).unwrap();
    assert_eq!(p.access_token, "stored-access");

    let p = refresh_payload_for_account(&a, Err("unreadable".to_string()), Ok(None), Ok(None), None).unwrap();
    assert_eq!(p.access_token, "stored-access");
    let p = refresh_payload_for_account(&a, Ok(None), Ok(None), Ok(None), None).unwrap();
    assert_eq!(p.email, "user@example.com");
}
