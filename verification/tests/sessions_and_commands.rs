use cursor_oauth::commands::{
    account_not_found_message, classify_launch_result, contains_str, starts_with, switch_message,
    tally_refresh_results, LaunchDecision,
};
use cursor_oauth::json::JsonValue;
use cursor_oauth::oauth::{
    cancel_login, complete_login, complete_login_at, finish_login, generate_token, start_login, start_login_at,
    take_pending_login, user_code, PendingLoginStore, PendingOAuthState, OAUTH_INTERVAL_SECONDS,
    OAUTH_TIMEOUT_SECONDS,
};

fn auth() -> JsonValue {
    JsonValue::Object(vec![
        ("accessToken".to_string(), JsonValue::Str("tok".to_string())),
        ("email".to_string(), JsonValue::Str("me@x.io".to_string())),
    ])
}

#[test]
fn store_insert_get_remove_clear() {
    let mut store = PendingLoginStore::new();
    assert!(store.get("a").is_none());
    store.insert(PendingOAuthState { login_id: "a".to_string(), expires_at: 10 });
    store.insert(PendingOAuthState { login_id: "b".to_string(), expires_at: 20 });
    store.insert(PendingOAuthState { login_id: "a".to_string(), expires_at: 30 });
    let a = store.get("a").unwrap();
    assert_eq!((a.login_id.as_str(), a.expires_at), ("a", 30));
    store.remove("a");
    assert!(store.get("a").is_none());
    assert_eq!(store.get("b").unwrap().expires_at, 20);
    store.clear();
    assert!(store.get("b").is_none());
}

#[test]
fn user_code_takes_six_alphanumerics_upper_case() {
    assert_eq!(user_code("a-b_c1d2e3f4"), "ABC1D2");
    assert_eq!(user_code("--x"), "X");
    assert_eq!(user_code(""), "");
}

#[test]
fn generated_tokens_are_url_safe_and_fresh() {
    let a = generate_token();
    let b = generate_token();
    assert_eq!(a.len(), 32);
    assert!(a.chars().all(|c| c.is_ascii_alphanumeric() || c == '-' || c == '_'));
    assert_ne!(a, b);
}

#[test]
fn start_login_at_opens_session() {
    let mut store = PendingLoginStore::new();
    let r = start_login_at(&mut store, "abc-def_ghi".to_string(), 1000);
    assert_eq!(r.login_id, "abc-def_ghi");
    assert_eq!(r.user_code, "ABCDEF");
    assert_eq!(r.verification_uri, "https://www.cursor.com/login");
    assert_eq!(r.verification_uri_complete.as_deref(), Some("https://www.cursor.com/login"));
    assert_eq!(r.expires_in, OAUTH_TIMEOUT_SECONDS);
    assert_eq!(r.expires_in, 600);
    assert_eq!(r.interval_seconds, OAUTH_INTERVAL_SECONDS);
    assert_eq!(r.interval_seconds, 3);
    assert!(r.callback_url.is_none());
    assert_eq!(store.get("abc-def_ghi").unwrap().expires_at, 1600);
}

#[test]
fn start_login_uses_fresh_id_and_clock() {
    let mut store = PendingLoginStore::new();
    let r = start_login(&mut store);
    assert_eq!(r.login_id.len(), 32);
    let state = store.get(&r.login_id).unwrap();
    assert!(state.expires_at > 1_700_000_000);
}

#[test]
fn session_completes_once_before_expiry() {
    let mut store = PendingLoginStore::new();
    start_login_at(&mut store, "id1".to_string(), 1000);
    start_login_at(&mut store, "id2".to_string(), 1000);
    assert_eq!(take_pending_login(&mut store, "id1", 1600), Ok(()));
    assert!(store.get("id2").is_some());
    assert_eq!(
        take_pending_login(&mut store, "id1", 1600),
        Err("Cursor OAuth 登录会话不存在，请重新开始授权".to_string())
    );
}

#[test]
fn expired_session_is_refused_and_closed() {
    let mut store = PendingLoginStore::new();
    start_login_at(&mut store, "id1".to_string(), 1000);
    assert_eq!(
        take_pending_login(&mut store, "id1", 1601),
        Err("Cursor OAuth 登录会话已过期，请重新开始授权".to_string())
    );
    assert!(store.get("id1").is_none());
}

#[test]
fn complete_login_builds_payload() {
    let mut store = PendingLoginStore::new();
    start_login_at(&mut store, "id1".to_string(), 1000);
    let p = complete_login_at(&mut store, "id1", 1200, Ok(Some(auth())), Ok(None), Ok(None), None).unwrap();
    assert_eq!(p.email, "me@x.io");
    assert!(store.get("id1").is_none());
}

#[test]
fn complete_login_adds_retry_hint_to_read_errors() {
    let mut store = PendingLoginStore::new();
    start_login_at(&mut store, "id1".to_string(), 1000);
    let e = complete_login_at(&mut store, "id1", 1200, Ok(None), Ok(None), Ok(None), None).err().unwrap();
    assert_eq!(
        e,
        "未在本机找到 Cursor 登录信息（state.vscdb 中缺少 cursorAuth/accessToken）。请先在 Cursor 客户端完成登录，再回到这里点击重试。"
    );
    assert!(store.get("id1").is_none());
}

#[test]
fn complete_login_in_two_steps() {
    let mut store = PendingLoginStore::new();
    let e = complete_login(&mut store, "nope").err().unwrap();
    assert_eq!(e, "Cursor OAuth 登录会话不存在，请重新开始授权");
    let r = start_login(&mut store);
    assert_eq!(complete_login(&mut store, &r.login_id), Ok(()));
    assert!(store.get(&r.login_id).is_none());
    let p = finish_login(Ok(Some(auth())), Ok(None), Ok(None), None).unwrap();
    assert_eq!(p.access_token, "tok");
    let e = finish_login(Err("locked".to_string()), Ok(None), Ok(None), None).err().unwrap();
    assert_eq!(e, "locked。请先在 Cursor 客户端完成登录，再回到这里点击重试。");
    assert_eq!(
        complete_login(&mut store, &r.login_id),
        Err("Cursor OAuth 登录会话不存在，请重新开始授权".to_string())
    );
}

#[test]
fn started_login_id_is_single_use_after_cancel_by_name() {
    let mut store = PendingLoginStore::new();
    let r = start_login(&mut store);
    assert!(r.login_id.chars().all(|c| c.is_ascii_alphanumeric() || c == '-' || c == '_'));
    assert_eq!(cancel_login(&mut store, Some(&r.login_id)), Ok(()));
    assert_eq!(
        complete_login(&mut store, &r.login_id),
        Err("Cursor OAuth 登录会话不存在，请重新开始授权".to_string())
    );
}

#[test]
fn cancel_named_or_all() {
    let mut store = PendingLoginStore::new();
    start_login_at(&mut store, "id1".to_string(), 0);
    start_login_at(&mut store, "id2".to_string(), 0);
    assert_eq!(cancel_login(&mut store, Some("  id1 ")), Ok(()));
    assert!(store.get("id1").is_none());
    assert!(store.get("id2").is_some());
    assert_eq!(cancel_login(&mut store, Some("   ")), Ok(()));
    assert!(store.get("id2").is_none());
    start_login_at(&mut store, "id3".to_string(), 0);
    assert_eq!(cancel_login(&mut store, None), Ok(()));
    assert!(store.get("id3").is_none());
}

#[test]
fn text_search_helpers() {
    assert!(starts_with("APP_PATH_NOT_FOUND: x", "APP_PATH_NOT_FOUND:"));
    assert!(!starts_with("APP", "APP_PATH"));
    assert!(contains_str("错误：启动 Cursor 失败: 超时", "启动 Cursor 失败"));
    assert!(contains_str("abc", ""));
    assert!(!contains_str("abc", "abcd"));
    assert!(!contains_str("abcabd", "abe"));
}

#[test]
fn launch_results_are_classified() {
    assert!(matches!(classify_launch_result(&Ok(())), LaunchDecision::Launched));
    assert!(matches!(
        classify_launch_result(&Err("APP_PATH_NOT_FOUND:cursor".to_string())),
        LaunchDecision::Warn { app_path_missing: true }
    ));
    assert!(matches!(
        classify_launch_result(&Err("启动 Cursor 失败: exit 1".to_string())),
        LaunchDecision::Warn { app_path_missing: false }
    ));
    assert!(matches!(classify_launch_result(&Err("other".to_string())), LaunchDecision::Abort));
}

#[test]
fn switch_messages() {
    assert_eq!(switch_message("a@b.c", None), "切换完成: a@b.c");
    assert_eq!(switch_message("a@b.c", Some("boom")), "切换完成，但 Cursor 启动失败: boom");
    assert_eq!(account_not_found_message("id9"), "Cursor account not found: id9");
}

#[test]
fn refresh_tally_counts() {
    let t = tally_refresh_results(&[true, false, true, true]);
    assert_eq!((t.succeeded, t.failed), (3, 1));
    let t = tally_refresh_results(&[]);
    assert_eq!((t.succeeded, t.failed), (0, 0));
}
