use garmin_client::formbody::read_oauth_token;
use garmin_client::tokens::{parse_oauth2_response, OAuth2Token, OAuth2TokenWrapper};

fn wrapper_with(expires_in: u64, refresh_in: u64) -> OAuth2TokenWrapper {
    let mut token: OAuth2Token = Default::default();
    token.access_token = String::from("AT");
    token.token_type = String::from("Bearer");
    token.expires_in = expires_in;
    token.refresh_token_expires_in = refresh_in;
    OAuth2TokenWrapper { oauth2_token: token, expires_at: 0, refresh_token_expires_at: 0 }
}

#[test]
fn read_oauth_token_recovers_both_keys() {
    let t = read_oauth_token("oauth_token=abc&oauth_token_secret=def").unwrap();
    assert_eq!(t.oauth_token, "abc");
    assert_eq!(t.oauth_token_secret, "def");
}

#[test]
fn read_oauth_token_names_missing_token() {
    let e = read_oauth_token("oauth_token_secret=def").unwrap_err();
    assert_eq!(e, "oauth_token");
}

#[test]
fn read_oauth_token_names_missing_secret() {
    let e = read_oauth_token("oauth_token=abc&other=1").unwrap_err();
    assert_eq!(e, "oauth_token_secret");
}

#[test]
fn read_oauth_token_last_binding_wins() {
    let t = read_oauth_token("oauth_token=a&oauth_token=b&oauth_token_secret=s").unwrap();
    assert_eq!(t.oauth_token, "b");
}

#[test]
fn read_oauth_token_empty_value_is_a_binding() {
    let t = read_oauth_token("oauth_token=&oauth_token_secret=x").unwrap();
    assert_eq!(t.oauth_token, "");
    assert_eq!(t.oauth_token_secret, "x");
}

#[test]
fn read_oauth_token_ignores_other_pieces() {
    let t = read_oauth_token("x=1&oauth_token=t&y&oauth_token_secret=s&z=").unwrap();
    assert_eq!(t.oauth_token, "t");
    assert_eq!(t.oauth_token_secret, "s");
}

#[test]
fn read_oauth_token_value_keeps_later_equals() {
    let t = read_oauth_token("oauth_token=a=b&oauth_token_secret=s").unwrap();
    assert_eq!(t.oauth_token, "a=b");
}

#[test]
fn read_oauth_token_empty_body_fails() {
    assert_eq!(read_oauth_token("").unwrap_err(), "oauth_token");
}

#[test]
fn is_expired_is_strict() {
    let mut w = wrapper_with(0, 0);
    w.expires_at = 1000;
    assert!(!w.is_expired(1000));
    assert!(!w.is_expired(999));
    assert!(w.is_expired(1001));
}

#[test]
fn update_recomputes_expiries_from_now() {
    let mut w = wrapper_with(3600, 7200);
    w.update(1000);
    assert_eq!(w.expires_at, 4600);
    assert_eq!(w.refresh_token_expires_at, 8200);
    assert!(!w.is_expired(4600));
    assert!(w.is_expired(4601));
    assert!(!w.refresh_expired(8200));
    assert!(w.refresh_expired(8201));
}

#[test]
fn update_moves_an_expired_wrapper_forward() {
    // Expiry is monotonic in time for a fixed wrapper; only an update
    // can make it false again.
    let mut w = wrapper_with(100, 100);
    w.expires_at = 10;
    assert!(w.is_expired(11));
    assert!(w.is_expired(5000));
    w.update(5000);
    assert!(!w.is_expired(5000));
    assert!(!w.is_expired(5100));
    assert!(w.is_expired(5101));
}

#[test]
fn to_string_joins_type_and_token() {
    let w = wrapper_with(0, 0);
    assert_eq!(w.to_string(), "Bearer AT");
}

#[test]
fn parse_oauth2_response_reads_all_fields() {
    let body = "{\"scope\":\"CONNECT_READ\",\"jti\":\"j1\",\"access_token\":\"AT\",\
                \"token_type\":\"Bearer\",\"refresh_token\":\"RT\",\
                \"expires_in\":3600,\"refresh_token_expires_in\":7200}";
    let w = parse_oauth2_response(body, 1000).unwrap();
    assert_eq!(w.oauth2_token.scope, "CONNECT_READ");
    assert_eq!(w.oauth2_token.jti, "j1");
    assert_eq!(w.oauth2_token.access_token, "AT");
    assert_eq!(w.oauth2_token.token_type, "Bearer");
    assert_eq!(w.oauth2_token.refresh_token, "RT");
    assert_eq!(w.oauth2_token.expires_in, 3600);
    assert_eq!(w.oauth2_token.refresh_token_expires_in, 7200);
    assert_eq!(w.expires_at, 4600);
    assert_eq!(w.refresh_token_expires_at, 8200);
}

#[test]
fn parse_oauth2_response_rejects_missing_field() {
    let body = "{\"scope\":\"s\",\"jti\":\"j\",\"access_token\":\"AT\",\
                \"token_type\":\"Bearer\",\"refresh_token\":\"RT\",\"expires_in\":3600}";
    assert!(parse_oauth2_response(body, 1000).is_none());
}

#[test]
fn parse_oauth2_response_rejects_wrong_field_shape() {
    let body = "{\"scope\":\"s\",\"jti\":\"j\",\"access_token\":\"AT\",\
                \"token_type\":\"Bearer\",\"refresh_token\":\"RT\",\
                \"expires_in\":\"3600\",\"refresh_token_expires_in\":7200}";
    assert!(parse_oauth2_response(body, 1000).is_none());
    assert!(parse_oauth2_response("not json at all", 1000).is_none());
}

#[test]
fn parse_oauth2_response_rejects_expiry_overflow() {
    let body = "{\"scope\":\"s\",\"jti\":\"j\",\"access_token\":\"AT\",\
                \"token_type\":\"Bearer\",\"refresh_token\":\"RT\",\
                \"expires_in\":18446744073709551615,\"refresh_token_expires_in\":7200}";
    assert!(parse_oauth2_response(body, 1000).is_none());
}
