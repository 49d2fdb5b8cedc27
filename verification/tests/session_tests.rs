use garmin_client::session::{parse_session, session_to_json, SessionRecord};
use garmin_client::text::{parse_u64, strip_quotes, u64_to_string};

#[test]
fn session_to_json_exact_text() {
    let rec = SessionRecord { token: String::from("abc"), expires_at: 1700000000 };
    assert_eq!(
        session_to_json(&rec),
        "{\n  \"expires_at\": \"1700000000\",\n  \"token\": \"abc\"\n}"
    );
}

#[test]
fn session_round_trips_through_real_json() {
    let rec = SessionRecord { token: String::from("eyJhbGciOiJSUzI1NiJ9.x.y"), expires_at: 42 };
    let text = session_to_json(&rec);
    let back = parse_session(&text).unwrap();
    assert_eq!(back, rec);
}

#[test]
fn session_to_json_escapes_token() {
    let rec = SessionRecord { token: String::from("a\"b\\c\nd"), expires_at: 7 };
    let text = session_to_json(&rec);
    assert_eq!(
        text,
        "{\n  \"expires_at\": \"7\",\n  \"token\": \"a\\\"b\\\\c\\nd\"\n}"
    );
    // The escaping must agree with a real JSON parser.
    let value: serde_json::Value = serde_json::from_str(&text).unwrap();
    assert_eq!(value["token"].as_str().unwrap(), "a\"b\\c\nd");
    assert_eq!(value["expires_at"].as_str().unwrap(), "7");
}

#[test]
fn session_to_json_escapes_control_chars() {
    let rec = SessionRecord { token: String::from("x\u{1}y"), expires_at: 0 };
    let text = session_to_json(&rec);
    assert!(text.contains("\\u0001"));
    let value: serde_json::Value = serde_json::from_str(&text).unwrap();
    assert_eq!(value["token"].as_str().unwrap(), "x\u{1}y");
}

#[test]
fn parse_session_accepts_extra_fields() {
    let text = "{\"expires_at\": \"123\", \"token\": \"t1\", \"displayName\": \"user\"}";
    let rec = parse_session(text).unwrap();
    assert_eq!(rec.token, "t1");
    assert_eq!(rec.expires_at, 123);
}

#[test]
fn parse_session_accepts_numeric_expiry() {
    let text = "{\"expires_at\": 456, \"token\": \"t2\"}";
    let rec = parse_session(text).unwrap();
    assert_eq!(rec.expires_at, 456);
    assert_eq!(rec.token, "t2");
}

#[test]
fn parse_session_rejects_bad_records() {
    assert!(parse_session("").is_none());
    assert!(parse_session("not json").is_none());
    assert!(parse_session("{\"token\": \"t\"}").is_none());
    assert!(parse_session("{\"expires_at\": \"99\"}").is_none());
    assert!(parse_session("{\"expires_at\": \"soon\", \"token\": \"t\"}").is_none());
}

#[test]
fn strip_quotes_removes_every_quote() {
    assert_eq!(strip_quotes("\"abc\""), "abc");
    assert_eq!(strip_quotes("a\"b\"c"), "abc");
    assert_eq!(strip_quotes("plain"), "plain");
    assert_eq!(strip_quotes(""), "");
}

#[test]
fn parse_u64_exact_values_and_limits() {
    assert_eq!(parse_u64("0"), Some(0));
    assert_eq!(parse_u64("1700000000"), Some(1700000000));
    assert_eq!(parse_u64("18446744073709551615"), Some(u64::MAX));
    assert_eq!(parse_u64("18446744073709551616"), None);
    assert_eq!(parse_u64(""), None);
    assert_eq!(parse_u64("12a"), None);
    assert_eq!(parse_u64("-1"), None);
}

#[test]
fn u64_to_string_renders_decimal() {
    assert_eq!(u64_to_string(0), "0");
    assert_eq!(u64_to_string(907), "907");
    assert_eq!(u64_to_string(u64::MAX), "18446744073709551615");
}
