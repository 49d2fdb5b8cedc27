//! The fixed endpoints of the identity and API hosts, and the verified
//! construction of each request URL.
//!
//! The backend treats query parameters order-independently; the builders
//! here emit them in one fixed, documented order.
use vstd::prelude::*;

use vstd::string::StringExecFns;

verus! {

/// The embed page on the identity host, used as the gauth/service/source
/// and redirect target of every single-sign-on URL.
pub open spec fn sso_embed_spec() -> Seq<char> {
    "https://sso.garmin.com/sso/embed"@
}

/// The cookie-priming URL: the embed page with the widget parameters.
pub open spec fn cookie_url_spec() -> Seq<char> {
    "https://sso.garmin.com/sso/embed?id=gauth-widget&embedWidget=true&gauthHost=https://sso.garmin.com/sso"@
}

/// Query string shared by the signin and MFA-verification URLs.
pub open spec fn auth_query_spec() -> Seq<char> {
    "?id=gauth-widget&embedWidget=true&gauthHost=https://sso.garmin.com/sso/embed&service=https://sso.garmin.com/sso/embed&source=https://sso.garmin.com/sso/embed&redirectAfterAccountLoginUrl=https://sso.garmin.com/sso/embed&redirectAfterAccountCreationUrl=https://sso.garmin.com/sso/embed"@
}

/// A single-sign-on URL on the identity host: the endpoint plus the
/// widget, service and redirect parameters.
pub open spec fn auth_url_spec(endpoint: Seq<char>) -> Seq<char> {
    "https://sso.garmin.com/sso/"@ + endpoint + auth_query_spec()
}

/// The signin URL, the target of the CSRF fetch and the credential post.
pub open spec fn signin_url_spec() -> Seq<char> {
    auth_url_spec("signin"@)
}

/// The MFA-verification URL, the target of the one-time-code post.
pub open spec fn mfa_url_spec() -> Seq<char> {
    auth_url_spec("verifyMFA/loginEnterMfaCode"@)
}

/// A data URL on the API host.
pub open spec fn api_url_spec(endpoint: Seq<char>) -> Seq<char> {
    "https://connectapi.garmin.com/"@ + endpoint
}

/// The public consumer-registration endpoint that serves the signing
/// credentials.
pub open spec fn consumer_url_spec() -> Seq<char> {
    "https://thegarth.s3.amazonaws.com/oauth_consumer.json"@
}

/// The preauthorized (request-token) endpoint, keyed by the service
/// ticket.
pub open spec fn oauth1_url_spec(ticket: Seq<char>) -> Seq<char> {
    "https://connectapi.garmin.com/oauth-service/oauth/preauthorized?ticket="@ + ticket
        + "&login-url=https://sso.garmin.com/sso/embed&accepts-mfa-tokens=true"@
}

/// The user-token exchange endpoint.
pub open spec fn exchange_url_spec() -> Seq<char> {
    "https://connectapi.garmin.com/oauth-service/oauth/exchange/user/2.0"@
}

/// The value of a bearer-token authorization header.
pub open spec fn bearer_spec(token: Seq<char>) -> Seq<char> {
    "Bearer "@ + token
}

/// Builds the cookie-priming URL.
pub fn cookie_url() -> (r: String)
    ensures
        r@ == cookie_url_spec(),
{
    "https://sso.garmin.com/sso/embed?id=gauth-widget&embedWidget=true&gauthHost=https://sso.garmin.com/sso".to_owned()
}

/// Builds a single-sign-on URL for the given endpoint of the identity
/// host.
pub fn build_auth_url(endpoint: &str) -> (r: String)
    ensures
        r@ == auth_url_spec(endpoint@),
{
    let mut url = "https://sso.garmin.com/sso/".to_owned();
    url.append(endpoint);
    url.append(
        "?id=gauth-widget&embedWidget=true&gauthHost=https://sso.garmin.com/sso/embed&service=https://sso.garmin.com/sso/embed&source=https://sso.garmin.com/sso/embed&redirectAfterAccountLoginUrl=https://sso.garmin.com/sso/embed&redirectAfterAccountCreationUrl=https://sso.garmin.com/sso/embed",
    );
    url
}

/// Builds the signin URL.
pub fn signin_url() -> (r: String)
    ensures
        r@ == signin_url_spec(),
{
    build_auth_url("signin")
}

/// Builds the MFA-verification URL.
pub fn mfa_url() -> (r: String)
    ensures
        r@ == mfa_url_spec(),
{
    build_auth_url("verifyMFA/loginEnterMfaCode")
}

/// Builds a data URL on the API host.
pub fn build_api_url(endpoint: &str) -> (r: String)
    ensures
        r@ == api_url_spec(endpoint@),
{
    let mut url = "https://connectapi.garmin.com/".to_owned();
    url.append(endpoint);
    url
}

/// Builds the consumer-registration URL.
pub fn consumer_url() -> (r: String)
    ensures
        r@ == consumer_url_spec(),
{
    "https://thegarth.s3.amazonaws.com/oauth_consumer.json".to_owned()
}

/// Builds the preauthorized (request-token) URL for the given service
/// ticket.
pub fn oauth1_url(ticket: &str) -> (r: String)
    ensures
        r@ == oauth1_url_spec(ticket@),
{
    let mut url = "https://connectapi.garmin.com/oauth-service/oauth/preauthorized?ticket=".to_owned();
    url.append(ticket);
    url.append("&login-url=https://sso.garmin.com/sso/embed&accepts-mfa-tokens=true");
    url
}

/// Builds the user-token exchange URL.
pub fn exchange_url() -> (r: String)
    ensures
        r@ == exchange_url_spec(),
{
    "https://connectapi.garmin.com/oauth-service/oauth/exchange/user/2.0".to_owned()
}

/// Builds the value of the bearer authorization header for `token`.
pub fn bearer_header(token: &str) -> (r: String)
    ensures
        r@ == bearer_spec(token@),
{
    let mut h = "Bearer ".to_owned();
    h.append(token);
    h
}

} // verus!
