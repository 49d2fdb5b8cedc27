use garmin_client::config::{EnabledStats, GarminConfig, UserInfo};
use garmin_client::tables::{get_activity_map, get_monitoring_map};
use garmin_client::urls::{
    bearer_header, build_api_url, build_auth_url, consumer_url, cookie_url, exchange_url,
    mfa_url, oauth1_url, signin_url,
};
use garmin_client::SESSION_FILE;

#[test]
fn session_file_name_is_fixed() {
    assert_eq!(SESSION_FILE, ".garmin_session.json");
}

#[test]
fn auth_urls_carry_widget_and_redirect_params() {
    let expected = "https://sso.garmin.com/sso/signin?id=gauth-widget&embedWidget=true\
        &gauthHost=https://sso.garmin.com/sso/embed\
        &service=https://sso.garmin.com/sso/embed\
        &source=https://sso.garmin.com/sso/embed\
        &redirectAfterAccountLoginUrl=https://sso.garmin.com/sso/embed\
        &redirectAfterAccountCreationUrl=https://sso.garmin.com/sso/embed";
    assert_eq!(signin_url(), expected);
    assert_eq!(build_auth_url("signin"), expected);
    assert!(mfa_url().starts_with("https://sso.garmin.com/sso/verifyMFA/loginEnterMfaCode?id=gauth-widget"));
}

#[test]
fn cookie_url_primes_the_embed_page() {
    assert_eq!(
        cookie_url(),
        "https://sso.garmin.com/sso/embed?id=gauth-widget&embedWidget=true&gauthHost=https://sso.garmin.com/sso"
    );
}

#[test]
fn api_urls_join_host_and_endpoint() {
    assert_eq!(
        build_api_url("wellness-service/wellness/dailySleepData"),
        "https://connectapi.garmin.com/wellness-service/wellness/dailySleepData"
    );
}

#[test]
fn token_endpoints_are_fixed() {
    assert_eq!(consumer_url(), "https://thegarth.s3.amazonaws.com/oauth_consumer.json");
    assert_eq!(
        oauth1_url("ST-1"),
        "https://connectapi.garmin.com/oauth-service/oauth/preauthorized?ticket=ST-1&login-url=https://sso.garmin.com/sso/embed&accepts-mfa-tokens=true"
    );
    assert_eq!(
        exchange_url(),
        "https://connectapi.garmin.com/oauth-service/oauth/exchange/user/2.0"
    );
}

#[test]
fn bearer_header_prefixes_token() {
    assert_eq!(bearer_header("abc"), "Bearer abc");
}

#[test]
fn config_defaults_disable_everything() {
    let cfg: GarminConfig = Default::default();
    assert_eq!(cfg.credentials.user, "");
    assert_eq!(cfg.credentials.password, "");
    assert!(!cfg.data.download_today_data);
    let stats: EnabledStats = Default::default();
    assert!(!stats.daily_summary && !stats.monitoring && !stats.sleep);
    assert!(!stats.rhr && !stats.weight && !stats.activities);
    let user: UserInfo = Default::default();
    assert_eq!(user.age, 0);
    assert_eq!(user.email, "");
}

#[test]
fn activity_map_covers_known_record_kinds() {
    let map = get_activity_map();
    assert_eq!(map.len(), 13);
    assert_eq!(map[0].0, "user_profile");
    let record = map.iter().find(|e| e.0 == "record").expect("record kind present");
    assert!(record.1.iter().any(|f| f == "heart_rate"));
    assert!(record.1.iter().any(|f| f == "timestamp"));
    let session = map.iter().find(|e| e.0 == "session").expect("session kind present");
    assert!(session.1.iter().any(|f| f == "total_distance"));
}

#[test]
fn monitoring_map_covers_known_record_kinds() {
    let map = get_monitoring_map();
    assert_eq!(map.len(), 13);
    let monitoring = map.iter().find(|e| e.0 == "monitoring").expect("monitoring kind present");
    assert!(monitoring.1.iter().any(|f| f == "timestamp_16"));
    assert!(monitoring.1.iter().any(|f| f == "steps"));
    let hrv = map.iter().find(|e| e.0 == "hrv_value").expect("hrv kind present");
    assert_eq!(hrv.1.len(), 2);
}
