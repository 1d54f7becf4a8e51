//! Expiry times: reading a JSON value as UNIX seconds, and the clock.

use vstd::prelude::*;
use crate::json::{JsonValue, Json, opt_json, json_as_i64, json_as_u64, json_as_str, as_i64, as_u64, as_str};
use crate::text::{
    trimmed, parse_i64_text, trim, parse_i64, int_text, law_parse_int_text, law_int_text_trimmed,
};

verus! {

/// Values above this are taken to be milliseconds.
pub const MILLIS_THRESHOLD: i64 = 10_000_000_000;

/// UNIX seconds from a raw timestamp: nothing for zero or less, seconds for a
/// value in milliseconds (above ten billion), the value itself otherwise.
pub open spec fn normalized_timestamp(raw: i64) -> Option<i64> {
    if raw <= 0 {
        None
    } else if raw > MILLIS_THRESHOLD {
        Some((raw / 1000) as i64)
    } else {
        Some(raw)
    }
}

pub fn normalize_timestamp(raw: i64) -> (r: Option<i64>)
    ensures
        r == normalized_timestamp(raw),
{
    if raw <= 0 {
        return None;
    }
    if raw > MILLIS_THRESHOLD {
        return Some(raw / 1000);
    }
    Some(raw)
}

/// A normalised timestamp is positive and never above ten billion seconds
/// unless the raw value was; normalising it again changes nothing where the
/// raw value is below ten billion thousands (plus the last thousand).
pub proof fn law_normalized_timestamp(raw: i64)
    ensures
        normalized_timestamp(raw) matches Some(t) ==> 0 < t <= raw,
        raw > MILLIS_THRESHOLD ==> normalized_timestamp(raw) == Some((raw / 1000) as i64),
        raw < 10_000_000_001_000 ==> (normalized_timestamp(raw) matches Some(t)
            ==> normalized_timestamp(t) == Some(t)),
{
}

/// The JSON number of an `i64`, as `serde_json` makes it.
pub open spec fn json_of_i64(n: i64) -> Json {
    if n >= 0 {
        Json::PosInt(n as u64)
    } else {
        Json::NegInt(n)
    }
}

/// An integer gives the same expiry as a number, as its decimal text, and as
/// that text with white space around it.
pub proof fn law_parse_timestamp_of_integer(n: i64)
    ensures
        timestamp_of(Some(json_of_i64(n))) == normalized_timestamp(n),
        timestamp_of(Some(Json::Str(int_text(n as int)))) == normalized_timestamp(n),
        timestamp_of(Some(Json::Str(seq![' '] + int_text(n as int) + seq![' '])))
            == normalized_timestamp(n),
{
    law_parse_int_text(n);
    law_int_text_trimmed(n);
}

/// What `chrono::DateTime::parse_from_rfc3339` followed by `timestamp`
/// gives for a text: the UNIX seconds of an RFC 3339 date and time, or
/// nothing where the text is not one.
pub uninterp spec fn rfc3339_seconds(s: Seq<char>) -> Option<i64>;

/// `chrono::DateTime::parse_from_rfc3339`, read as UNIX seconds with
/// `DateTime::timestamp`; the result is named `rfc3339_seconds`.
#[verifier::external_body]
fn parse_rfc3339_seconds(s: &str) -> (r: Option<i64>)
    ensures
        r == rfc3339_seconds(s@),
{
    match chrono::DateTime::parse_from_rfc3339(s) {
        Ok(dt) => Some(dt.timestamp()),
        Err(_) => None,
    }
}

/// The expiry a JSON value gives: an integer as a raw timestamp, a text that
/// is an integer the same way, or else an RFC 3339 date and time.
pub open spec fn timestamp_of(value: Option<Json>) -> Option<i64> {
    match value {
        None => None,
        Some(v) => match json_as_i64(v) {
            Some(n) => normalized_timestamp(n),
            None => match json_as_u64(v) {
                Some(n) => normalized_timestamp(n as i64),
                None => match json_as_str(v) {
                    Some(text) => {
                        let t = trimmed(text);
                        if t.len() == 0 {
                            None
                        } else {
                            match parse_i64_text(t) {
                                Some(n) => normalized_timestamp(n),
                                None => rfc3339_seconds(t),
                            }
                        }
                    },
                    None => None,
                },
            },
        },
    }
}

pub fn parse_timestamp(value: Option<&JsonValue>) -> (r: Option<i64>)
    ensures
        r == timestamp_of(opt_json(value)),
{
    let value = match value {
        Some(v) => v,
        None => {
            return None;
        },
    };
    if let Some(seconds) = as_i64(value) {
        return normalize_timestamp(seconds);
    }
    if let Some(seconds) = as_u64(value) {
        return normalize_timestamp(seconds as i64);
    }
    if let Some(text) = as_str(value) {
        let t = trim(text);
        if t.is_empty() {
            return None;
        }
        if let Some(seconds) = parse_i64(t) {
            return normalize_timestamp(seconds);
        }
        return parse_rfc3339_seconds(t);
    }
    None
}

/// An upper bound of every UNIX time that chrono can give: its day count is
/// an `i32`.
pub const CLOCK_LIMIT: i64 = 185_542_587_187_200;

/// `chrono::Utc::now().timestamp()`: the current UNIX time in seconds. The
/// value depends on the clock; what holds of every outcome is that it is not
/// negative (`Utc::now` panics for a clock before 1970, and the system time
/// counts its seconds in an `i64`) and that it stays below `CLOCK_LIMIT`.
#[verifier::external_body]
pub(crate) fn now_timestamp() -> (t: i64)
    ensures
        0 <= t < CLOCK_LIMIT,
{
    chrono::Utc::now().timestamp()
}

} // verus!
