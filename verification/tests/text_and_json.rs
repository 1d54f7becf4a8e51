use cursor_oauth::json::{as_i64, as_str, as_u64, clone_json, get_path_value, object_get, JsonValue};
use cursor_oauth::text::{
    contains_char, i64_to_string, normalize_email, normalize_non_empty, parse_i64, trim,
    u64_to_string,
};

fn s(t: &str) -> JsonValue {
    JsonValue::Str(t.to_string())
}

fn obj(members: Vec<(&str, JsonValue)>) -> JsonValue {
    JsonValue::Object(members.into_iter().map(|(k, v)| (k.to_string(), v)).collect())
}

#[test]
fn trim_removes_unicode_white_space() {
    assert_eq!(trim("  abc \t\n"), "abc");
    assert_eq!(trim("\u{3000}x y\u{a0}"), "x y");
    assert_eq!(trim("   "), "");
    assert_eq!(trim(""), "");
    for t in ["  a b  ", "\u{2028}q\u{85}", "\u{1680}\u{200a}z"] {
        assert_eq!(trim(t), t.trim());
    }
}

#[test]
fn normalize_non_empty_cases() {
    assert_eq!(normalize_non_empty(None), None);
    assert_eq!(normalize_non_empty(Some("   ")), None);
    assert_eq!(normalize_non_empty(Some(" id-1 ")), Some("id-1".to_string()));
}

#[test]
fn normalize_non_empty_twice_is_once() {
    for t in [" a ", "b", "  ", "\tc\u{3000}"] {
        let once = normalize_non_empty(Some(t));
        let twice = normalize_non_empty(once.as_deref());
        assert_eq!(once, twice);
    }
}

#[test]
fn normalize_email_requires_at_sign() {
    assert_eq!(normalize_email(Some(" user@example.com ")), Some("user@example.com".to_string()));
    assert_eq!(normalize_email(Some("not-an-email")), None);
    assert_eq!(normalize_email(Some("  ")), None);
    assert_eq!(normalize_email(None), None);
}

#[test]
fn contains_char_finds_characters() {
    assert!(contains_char("a@b", '@'));
    assert!(!contains_char("ab", '@'));
    assert!(!contains_char("", '@'));
}

#[test]
fn decimal_text_matches_to_string() {
    for v in [0i64, 7, 10, -1, -10, 1700000000, i64::MAX, i64::MIN] {
        assert_eq!(i64_to_string(v), v.to_string());
    }
    for v in [0u64, 9, 100, u64::MAX] {
        assert_eq!(u64_to_string(v), v.to_string());
    }
}

#[test]
fn parse_i64_follows_std() {
    for t in ["0", "42", "-42", "+42", "", "+", "-", "12a", " 1", "9223372036854775807",
        "9223372036854775808", "-9223372036854775808", "-9223372036854775809",
        "000123", "99999999999999999999999"]
    {
        assert_eq!(parse_i64(t), t.parse::<i64>().ok(), "input {:?}", t);
    }
}

#[test]
fn integer_accessors_follow_serde_json() {
    assert_eq!(as_i64(&JsonValue::PosInt(5)), Some(5));
    assert_eq!(as_i64(&JsonValue::PosInt(u64::MAX)), None);
    assert_eq!(as_u64(&JsonValue::PosInt(u64::MAX)), Some(u64::MAX));
    assert_eq!(as_i64(&JsonValue::NegInt(-3)), Some(-3));
    assert_eq!(as_u64(&JsonValue::NegInt(-3)), None);
    assert_eq!(as_i64(&JsonValue::Float("1.5".to_string())), None);
    assert_eq!(as_str(&s("x")), Some("x"));
    assert_eq!(as_str(&JsonValue::Null), None);
}

#[test]
fn object_get_finds_member_by_name() {
    let doc = obj(vec![("a", s("1")), ("b", s("2"))]);
    assert!(matches!(object_get(&doc, "b"), Some(JsonValue::Str(t)) if t == "2"));
    assert!(object_get(&doc, "c").is_none());
    assert!(object_get(&s("x"), "a").is_none());
}

#[test]
fn get_path_value_follows_keys() {
    let doc = obj(vec![("cursorAuth", obj(vec![("accessToken", s("tok"))]))]);
    assert!(matches!(get_path_value(&doc, &["cursorAuth", "accessToken"]), Some(JsonValue::Str(t)) if t == "tok"));
    assert!(get_path_value(&doc, &["cursorAuth", "missing"]).is_none());
    assert!(get_path_value(&doc, &["cursorAuth", "accessToken", "deeper"]).is_none());
    assert!(matches!(get_path_value(&doc, &[]), Some(JsonValue::Object(_))));
}

#[test]
fn clone_json_copies_nested_values() {
    let doc = obj(vec![("a", JsonValue::Array(vec![JsonValue::Bool(true), JsonValue::NegInt(-1)]))]);
    let copy = clone_json(&doc);
    match copy {
        JsonValue::Object(m) => {
            assert_eq!(m.len(), 1);
            assert_eq!(m[0].0, "a");
            match &m[0].1 {
                JsonValue::Array(items) => {
                    assert!(matches!(items[0], JsonValue::Bool(true)));
                    assert!(matches!(items[1], JsonValue::NegInt(-1)));
                }
                _ => panic!("not an array"),
            }
        }
        _ => panic!("not an object"),
    }
}

#[test]
fn path_lookup_composes_and_never_indexes_arrays() {
    let doc = obj(vec![("a", obj(vec![("b", obj(vec![("c", s("x"))]))])), ("arr", JsonValue::Array(vec![JsonValue::PosInt(1)]))]);
    let whole = get_path_value(&doc, &["a", "b", "c"]);
    let step = get_path_value(&doc, &["a"]).and_then(|v| get_path_value(v, &["b", "c"]));
    assert!(matches!((whole, step), (Some(JsonValue::Str(p)), Some(JsonValue::Str(q))) if p == q));
    assert!(get_path_value(&doc, &["arr", "0"]).is_none());
    assert!(get_path_value(&doc, &["a", "zz", "c"]).is_none());
}
