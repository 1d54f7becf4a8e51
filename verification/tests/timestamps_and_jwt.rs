use cursor_oauth::json::JsonValue;
use cursor_oauth::jwt::{jwt_claims_base64, jwt_claims_bytes};
use cursor_oauth::timestamp::{normalize_timestamp, parse_timestamp};

fn s(t: &str) -> JsonValue {
    JsonValue::Str(t.to_string())
}

#[test]
fn normalize_timestamp_cases() {
    assert_eq!(normalize_timestamp(0), None);
    assert_eq!(normalize_timestamp(-5), None);
    assert_eq!(normalize_timestamp(1_700_000_000), Some(1_700_000_000));
    assert_eq!(normalize_timestamp(10_000_000_000), Some(10_000_000_000));
    assert_eq!(normalize_timestamp(1_700_000_000_123), Some(1_700_000_000));
}

#[test]
fn normalizing_a_normalized_timestamp_changes_nothing() {
    for raw in [1i64, 1_700_000_000, 10_000_000_000, 1_700_000_000_999, 10_000_000_000_999] {
        let t = normalize_timestamp(raw).unwrap();
        assert!(t > 0);
        assert_eq!(normalize_timestamp(t), Some(t));
    }
    // where the law does not hold: a value three orders above milliseconds
    let t = normalize_timestamp(10_000_000_000_000_000).unwrap();
    assert_eq!(t, 10_000_000_000_000);
    assert_eq!(normalize_timestamp(t), Some(10_000_000_000));
}

#[test]
fn parse_timestamp_of_numbers() {
    assert_eq!(parse_timestamp(None), None);
    assert_eq!(parse_timestamp(Some(&JsonValue::PosInt(1_700_000_000))), Some(1_700_000_000));
    assert_eq!(parse_timestamp(Some(&JsonValue::PosInt(1_700_000_000_000))), Some(1_700_000_000));
    assert_eq!(parse_timestamp(Some(&JsonValue::PosInt(u64::MAX))), None);
    assert_eq!(parse_timestamp(Some(&JsonValue::NegInt(-1))), None);
    assert_eq!(parse_timestamp(Some(&JsonValue::Null)), None);
    assert_eq!(parse_timestamp(Some(&JsonValue::Float("1.5".to_string()))), None);
}

#[test]
fn parse_timestamp_of_text() {
    assert_eq!(parse_timestamp(Some(&s(" 1700000000 "))), Some(1_700_000_000));
    assert_eq!(parse_timestamp(Some(&s("1700000000000"))), Some(1_700_000_000));
    assert_eq!(parse_timestamp(Some(&s("   "))), None);
    assert_eq!(parse_timestamp(Some(&s("2024-01-01T00:00:00Z"))), Some(1_704_067_200));
    assert_eq!(parse_timestamp(Some(&s("2024-01-01T08:00:00+08:00"))), Some(1_704_067_200));
    assert_eq!(parse_timestamp(Some(&s("tomorrow"))), None);
}

#[test]
fn jwt_claims_base64_pads_and_converts_alphabet() {
    assert_eq!(jwt_claims_base64("h.eyJ4Ijoi__4ifQ.s"), Some("eyJ4Ijoi//4ifQ==".to_string()));
    assert_eq!(jwt_claims_base64("h.Pz8-Pj8"), Some("Pz8+Pj8=".to_string()));
    assert_eq!(jwt_claims_base64("h..s"), Some("".to_string()));
    assert_eq!(jwt_claims_base64("no-dots"), None);
    assert_eq!(jwt_claims_base64("a.bcd"), Some("bcd=".to_string()));
}

#[test]
fn jwt_claims_bytes_decodes_payload() {
    let token = "eyJhbGciOiJIUzI1NiJ9.eyJlbWFpbCI6ImNsYWltc0BleGFtcGxlLmNvbSIsInN1YiI6InVzZXItNDIiLCJleHAiOjE3MDAwMDAwMDB9.sig";
    let bytes = jwt_claims_bytes(token).unwrap();
    assert_eq!(
        String::from_utf8(bytes).unwrap(),
        "{\"email\":\"claims@example.com\",\"sub\":\"user-42\",\"exp\":1700000000}"
    );
    assert_eq!(jwt_claims_bytes("h.Pz8-Pj8.s"), Some(b"??>>?".to_vec()));
    assert_eq!(jwt_claims_bytes("plain-token"), None);
    assert_eq!(jwt_claims_bytes("h.%%%%.s"), None);
}

#[test]
fn integer_expiry_reads_the_same_in_every_form() {
    for n in [0i64, 5, -7, 1_700_000_000, 1_700_000_000_123, i64::MAX, i64::MIN] {
        let number = if n >= 0 { JsonValue::PosInt(n as u64) } else { JsonValue::NegInt(n) };
        let expected = normalize_timestamp(n);
        assert_eq!(parse_timestamp(Some(&number)), expected);
        assert_eq!(parse_timestamp(Some(&s(&n.to_string()))), expected);
        assert_eq!(parse_timestamp(Some(&s(&format!(" {} ", n)))), expected);
    }
}
