//! The authentication flow as an explicit state machine.
//!
//! Each transition is a pure function taking the prior state's captured
//! output and the new HTTP response, and returning the next state
//! together with the action the HTTP driver must perform. The driver
//! around the library owns the HTTP client and the session file; the
//! decisions all live here, with proved contracts.
use vstd::prelude::*;

use vstd::string::StringExecFns;

use crate::formbody;
use crate::jsonio;
use crate::scrape;
use crate::session;
use crate::text;
use crate::tokens::{OAuth2Token, OAuth2TokenWrapper};
use crate::tokens;
use crate::urls;

verus! {

/// What the HTTP driver hands back for one request: the final response
/// URL (after redirects) and the body text. A transport failure is
/// handed back as no reply at all.
#[derive(Debug, PartialEq, Eq)]
pub struct HttpReply {
    pub url: String,
    pub body: String,
}

/// Everything that can end a login attempt without a token.
#[derive(Debug, PartialEq, Eq)]
pub enum AuthError {
    /// The cookie-priming request failed.
    CookieFailed,
    /// No CSRF token could be scraped from the signin page.
    CsrfNotFound,
    /// The provider answered the credential post with its generic
    /// authentication-application page.
    InvalidCredentials,
    /// The answer to the one-time-code post still asked for a code.
    MfaFailed,
    /// No service ticket could be scraped from the post-login page.
    TicketNotFound,
    /// A token exchange response lacked the named key.
    TokenExchangeFailed(String),
    /// A network-layer failure after the cookie step.
    TransportError,
    /// A response did not have the JSON shape the exchange assumes.
    MalformedResponse,
    /// The credential post answered with an unforeseen page title.
    UnexpectedResponse(String),
}

/// Classification of the page title that answers a credential post.
#[derive(Debug, PartialEq, Eq)]
pub enum TitleOutcome {
    Success,
    InvalidCredentials,
    MfaNeeded,
    Unexpected,
}

/// How a page title is classified: the exact success title, the exact
/// generic-authentication-application title, any title holding the MFA
/// marker, anything else.
pub open spec fn classify_title_spec(t: Seq<char>) -> TitleOutcome {
    if t == "Success"@ {
        TitleOutcome::Success
    } else if t == "GARMIN Authentication Application"@ {
        TitleOutcome::InvalidCredentials
    } else if scrape::contains_lit(t, "MFA"@) {
        TitleOutcome::MfaNeeded
    } else {
        TitleOutcome::Unexpected
    }
}

/// Classifies a page title.
pub fn classify_title(title: &str) -> (r: TitleOutcome)
    ensures
        r == classify_title_spec(title@),
{
    proof {
        reveal_strlit("MFA");
    }
    if scrape::str_eq(title, "Success") {
        TitleOutcome::Success
    } else if scrape::str_eq(title, "GARMIN Authentication Application") {
        TitleOutcome::InvalidCredentials
    } else if scrape::contains_pat(title, "MFA") {
        TitleOutcome::MfaNeeded
    } else {
        TitleOutcome::Unexpected
    }
}

/// The states of a login attempt. Every `Await` state names the reply
/// the driver owes next; the captured outputs of the steps already taken
/// ride along in the state.
#[derive(Debug, PartialEq, Eq)]
pub enum LoginState {
    /// The cookie-priming request is out.
    AwaitCookie,
    /// The CSRF-page request is out; `referer` is the cookie step's
    /// response URL.
    AwaitCsrf { referer: String },
    /// The credential post is out.
    AwaitLogin { referer: String, csrf: String },
    /// The second CSRF-page request of the MFA branch is out.
    AwaitMfaCsrf { referer: String },
    /// The driver is blocked on local entry of the one-time code.
    AwaitMfaCode { referer: String, csrf: String },
    /// The one-time-code post is out.
    AwaitMfaSubmit,
    /// The consumer-credentials request is out; the service ticket is
    /// already in hand.
    AwaitConsumer { ticket: String },
    /// The request-token exchange is out.
    AwaitOauth1 { consumer_key: String, consumer_secret: String },
    /// The user-token exchange is out.
    AwaitOauth2 {
        consumer_key: String,
        consumer_secret: String,
        oauth_token: String,
        oauth_token_secret: String,
    },
    /// Authenticated: the access token, and the signing material kept
    /// for transparent refresh.
    Done {
        token: OAuth2TokenWrapper,
        consumer_key: String,
        consumer_secret: String,
        oauth_token: String,
        oauth_token_secret: String,
    },
    /// The attempt is over without a token.
    Failed { error: AuthError },
}

/// What the driver must do next.
#[derive(Debug, PartialEq, Eq)]
pub enum LoginAction {
    /// Issue a GET, with the given referer header if any.
    Get { url: String, referer: Option<String> },
    /// Issue a form-encoded POST with the given referer header.
    PostForm { url: String, referer: String, fields: Vec<(String, String)> },
    /// Issue a request-signed POST, with the request token as further
    /// signing material when present.
    PostSigned {
        url: String,
        consumer_key: String,
        consumer_secret: String,
        token_key: Option<String>,
        token_secret: Option<String>,
    },
    /// Block for local entry of the one-time code.
    PromptMfa,
    /// Overwrite the session file with `contents`, then report success.
    WriteSessionAndFinish { contents: String },
    /// Report the outcome; nothing further to do.
    Finish { ok: bool },
}

/// Begins a login attempt from the session file contents (None when the
/// file is absent or unreadable) and the current unix time.
///
/// A valid record whose expiry is not in the past short-circuits the
/// whole flow: the attempt is immediately successful and no request is
/// issued. Anything else starts the full flow at the cookie step.
///
/// A cached session carries no signing material, so a transparent
/// refresh can succeed only after a full flow has run in this process.
pub fn login_begin(session_file: Option<&str>, now: u64) -> (r: (LoginState, LoginAction))
    ensures
        match session_file {
            Some(text) => match session::parse_session_spec(text@) {
                Some((tok, expires_at)) => if expires_at >= now {
                    &&& r.0 matches LoginState::Done {
                        token,
                        consumer_key,
                        consumer_secret,
                        oauth_token,
                        oauth_token_secret,
                    } && token.oauth2_token.access_token@ == tok && token.expires_at == expires_at
                        && consumer_key@ =~= Seq::<char>::empty() && consumer_secret@
                        =~= Seq::<char>::empty() && oauth_token@ =~= Seq::<char>::empty()
                        && oauth_token_secret@ =~= Seq::<char>::empty()
                    &&& r.1 == (LoginAction::Finish { ok: true })
                } else {
                    starts_full_flow(r)
                },
                None => starts_full_flow(r),
            },
            None => starts_full_flow(r),
        },
{
    let fresh: Option<session::SessionRecord> = match session_file {
        Some(text) => match session::parse_session(text) {
            Some(rec) => if rec.expires_at >= now {
                Some(rec)
            } else {
                None
            },
            None => None,
        },
        None => None,
    };
    match fresh {
        Some(rec) => {
            let mut bare: OAuth2Token = Default::default();
            bare.access_token = rec.token;
            let token = OAuth2TokenWrapper {
                oauth2_token: bare,
                expires_at: rec.expires_at,
                refresh_token_expires_at: 0,
            };
            (
                LoginState::Done {
                    token,
                    consumer_key: String::new(),
                    consumer_secret: String::new(),
                    oauth_token: String::new(),
                    oauth_token_secret: String::new(),
                },
                LoginAction::Finish { ok: true },
            )
        },
        None => (
            LoginState::AwaitCookie,
            LoginAction::Get { url: urls::cookie_url(), referer: None },
        ),
    }
}

/// Does `r` start the full flow at the cookie-priming step?
pub open spec fn starts_full_flow(r: (LoginState, LoginAction)) -> bool {
    &&& r.0 == LoginState::AwaitCookie
    &&& r.1 matches LoginAction::Get { url, referer } && url@ == urls::cookie_url_spec()
        && referer is None
}

/// Consumes the cookie-priming reply. A transport failure here is the
/// one that aborts with `CookieFailed`; otherwise the response URL
/// becomes the referer of the CSRF-page request.
pub fn login_after_cookie(reply: Option<HttpReply>) -> (r: (LoginState, LoginAction))
    ensures
        match reply {
            None => r.0 == (LoginState::Failed { error: AuthError::CookieFailed }) && r.1 == (
            LoginAction::Finish { ok: false }),
            Some(rep) => {
                &&& r.0 matches LoginState::AwaitCsrf { referer } && referer@ == rep.url@
                &&& r.1 matches LoginAction::Get { url, referer } && url@
                    == urls::signin_url_spec() && (referer matches Some(u) && u@ == rep.url@)
            },
        },
{
    match reply {
        None => (
            LoginState::Failed { error: AuthError::CookieFailed },
            LoginAction::Finish { ok: false },
        ),
        Some(rep) => {
            let referer = rep.url;
            (
                LoginState::AwaitCsrf { referer: referer.clone() },
                LoginAction::Get { url: urls::signin_url(), referer: Some(referer) },
            )
        },
    }
}

/// Consumes the CSRF-page reply: scrapes the CSRF token and, when it is
/// there, posts the credential form to the signin URL. A page without
/// the token is a hard failure, never guessed around.
pub fn login_after_csrf(username: &str, password: &str, reply: Option<HttpReply>) -> (r: (
    LoginState,
    LoginAction,
))
    ensures
        match reply {
            None => r.0 == (LoginState::Failed { error: AuthError::TransportError }) && r.1 == (
            LoginAction::Finish { ok: false }),
            Some(rep) => match scrape::csrf_of(rep.body@) {
                Some(c) => {
                    &&& r.0 matches LoginState::AwaitLogin { referer, csrf } && referer@
                        == rep.url@ && csrf@ == c
                    &&& r.1 matches LoginAction::PostForm { url, referer, fields } && url@
                        == urls::signin_url_spec() && referer@ == rep.url@
                        && credential_fields(fields@, username@, password@, c)
                },
                None => r.0 == (LoginState::Failed { error: AuthError::CsrfNotFound }) && r.1 == (
                LoginAction::Finish { ok: false }),
            },
        },
{
    match reply {
        None => (
            LoginState::Failed { error: AuthError::TransportError },
            LoginAction::Finish { ok: false },
        ),
        Some(rep) => match scrape::extract_csrf(rep.body.as_str()) {
            Ok(csrf) => {
                let fields: Vec<(String, String)> = vec![
                    ("username".to_owned(), username.to_owned()),
                    ("password".to_owned(), password.to_owned()),
                    ("embed".to_owned(), "true".to_owned()),
                    ("_csrf".to_owned(), csrf.clone()),
                ];
                (
                    LoginState::AwaitLogin { referer: rep.url.clone(), csrf },
                    LoginAction::PostForm { url: urls::signin_url(), referer: rep.url, fields },
                )
            },
            Err(_) => (
                LoginState::Failed { error: AuthError::CsrfNotFound },
                LoginAction::Finish { ok: false },
            ),
        },
    }
}

/// The form fields of a credential post: username, password, the embed
/// flag, and the echoed CSRF token, in that order.
pub open spec fn credential_fields(
    fields: Seq<(String, String)>,
    username: Seq<char>,
    password: Seq<char>,
    csrf: Seq<char>,
) -> bool {
    &&& fields.len() == 4
    &&& fields[0].0@ == "username"@ && fields[0].1@ == username
    &&& fields[1].0@ == "password"@ && fields[1].1@ == password
    &&& fields[2].0@ == "embed"@ && fields[2].1@ == "true"@
    &&& fields[3].0@ == "_csrf"@ && fields[3].1@ == csrf
}

/// Consumes the reply to the credential post: scrapes and classifies the
/// page title, then either extracts the service ticket, branches to the
/// MFA path, or fails with the error the title dictates.
pub fn login_after_submit(reply: Option<HttpReply>) -> (r: (LoginState, LoginAction))
    ensures
        match reply {
            None => r.0 == (LoginState::Failed { error: AuthError::TransportError }) && r.1 == (
            LoginAction::Finish { ok: false }),
            Some(rep) => match scrape::title_of(rep.body@) {
                None => r.0 == (LoginState::Failed { error: AuthError::MalformedResponse }) && r.1
                    == (LoginAction::Finish { ok: false }),
                Some(t) => match classify_title_spec(t) {
                    TitleOutcome::Success => ticket_step(r, rep.body@),
                    TitleOutcome::InvalidCredentials => r.0 == (LoginState::Failed {
                        error: AuthError::InvalidCredentials,
                    }) && r.1 == (LoginAction::Finish { ok: false }),
                    TitleOutcome::MfaNeeded => {
                        &&& r.0 matches LoginState::AwaitMfaCsrf { referer } && referer@
                            == rep.url@
                        &&& r.1 matches LoginAction::Get { url, referer } && url@
                            == urls::signin_url_spec() && (referer matches Some(u) && u@
                            == rep.url@)
                    },
                    TitleOutcome::Unexpected => {
                        &&& r.0 matches LoginState::Failed { error } && error
                            matches AuthError::UnexpectedResponse(title) && title@ == t
                        &&& r.1 == (LoginAction::Finish { ok: false })
                    },
                },
            },
        },
{
    match reply {
        None => (
            LoginState::Failed { error: AuthError::TransportError },
            LoginAction::Finish { ok: false },
        ),
        Some(rep) => match scrape::extract_title(rep.body.as_str()) {
            Err(_) => (
                LoginState::Failed { error: AuthError::MalformedResponse },
                LoginAction::Finish { ok: false },
            ),
            Ok(title) => match classify_title(title.as_str()) {
                TitleOutcome::Success => extract_ticket_step(rep.body.as_str()),
                TitleOutcome::InvalidCredentials => (
                    LoginState::Failed { error: AuthError::InvalidCredentials },
                    LoginAction::Finish { ok: false },
                ),
                TitleOutcome::MfaNeeded => (
                    LoginState::AwaitMfaCsrf { referer: rep.url.clone() },
                    LoginAction::Get { url: urls::signin_url(), referer: Some(rep.url) },
                ),
                TitleOutcome::Unexpected => (
                    LoginState::Failed { error: AuthError::UnexpectedResponse(title) },
                    LoginAction::Finish { ok: false },
                ),
            },
        },
    }
}

/// After a successful title: either the ticket is extracted and the
/// consumer-credentials request goes out, or the attempt fails with
/// `TicketNotFound`.
pub open spec fn ticket_step(r: (LoginState, LoginAction), body: Seq<char>) -> bool {
    match scrape::ticket_of(body) {
        Some(tk) => {
            &&& r.0 matches LoginState::AwaitConsumer { ticket } && ticket@ == tk
            &&& r.1 matches LoginAction::Get { url, referer } && url@ == urls::consumer_url_spec()
                && referer is None
        },
        None => r.0 == (LoginState::Failed { error: AuthError::TicketNotFound }) && r.1 == (
        LoginAction::Finish { ok: false }),
    }
}

fn extract_ticket_step(body: &str) -> (r: (LoginState, LoginAction))
    ensures
        ticket_step(r, body@),
{
    match scrape::extract_ticket(body) {
        Ok(ticket) => (
            LoginState::AwaitConsumer { ticket },
            LoginAction::Get { url: urls::consumer_url(), referer: None },
        ),
        Err(_) => (
            LoginState::Failed { error: AuthError::TicketNotFound },
            LoginAction::Finish { ok: false },
        ),
    }
}

/// Consumes the second CSRF-page reply of the MFA branch, then blocks
/// the flow on local entry of the one-time code.
pub fn login_after_mfa_csrf(reply: Option<HttpReply>) -> (r: (LoginState, LoginAction))
    ensures
        match reply {
            None => r.0 == (LoginState::Failed { error: AuthError::TransportError }) && r.1 == (
            LoginAction::Finish { ok: false }),
            Some(rep) => match scrape::csrf_of(rep.body@) {
                Some(c) => {
                    &&& r.0 matches LoginState::AwaitMfaCode { referer, csrf } && referer@
                        == rep.url@ && csrf@ == c
                    &&& r.1 == LoginAction::PromptMfa
                },
                None => r.0 == (LoginState::Failed { error: AuthError::CsrfNotFound }) && r.1 == (
                LoginAction::Finish { ok: false }),
            },
        },
{
    match reply {
        None => (
            LoginState::Failed { error: AuthError::TransportError },
            LoginAction::Finish { ok: false },
        ),
        Some(rep) => match scrape::extract_csrf(rep.body.as_str()) {
            Ok(csrf) => (LoginState::AwaitMfaCode { referer: rep.url, csrf }, LoginAction::PromptMfa),
            Err(_) => (
                LoginState::Failed { error: AuthError::CsrfNotFound },
                LoginAction::Finish { ok: false },
            ),
        },
    }
}

/// The form fields of a one-time-code post: the code, the page marker,
/// the embed flag, and the echoed CSRF token, in that order.
pub open spec fn mfa_fields(fields: Seq<(String, String)>, code: Seq<char>, csrf: Seq<char>) -> bool {
    &&& fields.len() == 4
    &&& fields[0].0@ == "mfa-code"@ && fields[0].1@ == code
    &&& fields[1].0@ == "fromPage"@ && fields[1].1@ == "setupEnterMfaCode"@
    &&& fields[2].0@ == "embed"@ && fields[2].1@ == "true"@
    &&& fields[3].0@ == "_csrf"@ && fields[3].1@ == csrf
}

/// Posts the locally entered one-time code with the echoed CSRF token to
/// the MFA-verification URL.
pub fn login_submit_mfa(referer: &str, csrf: &str, code: &str) -> (r: (LoginState, LoginAction))
    ensures
        r.0 == LoginState::AwaitMfaSubmit,
        r.1 matches LoginAction::PostForm { url, referer: rf, fields } && url@
            == urls::mfa_url_spec() && rf@ == referer@ && mfa_fields(fields@, code@, csrf@),
{
    let fields: Vec<(String, String)> = vec![
        ("mfa-code".to_owned(), code.to_owned()),
        ("fromPage".to_owned(), "setupEnterMfaCode".to_owned()),
        ("embed".to_owned(), "true".to_owned()),
        ("_csrf".to_owned(), csrf.to_owned()),
    ];
    (
        LoginState::AwaitMfaSubmit,
        LoginAction::PostForm { url: urls::mfa_url(), referer: referer.to_owned(), fields },
    )
}

/// Consumes the reply to the one-time-code post: the title is
/// re-evaluated exactly as after the credential post, except that a
/// title still asking for a code is now `MfaFailed` rather than a
/// second branch.
pub fn login_after_mfa_submit(reply: Option<HttpReply>) -> (r: (LoginState, LoginAction))
    ensures
        match reply {
            None => r.0 == (LoginState::Failed { error: AuthError::TransportError }) && r.1 == (
            LoginAction::Finish { ok: false }),
            Some(rep) => match scrape::title_of(rep.body@) {
                None => r.0 == (LoginState::Failed { error: AuthError::MalformedResponse }) && r.1
                    == (LoginAction::Finish { ok: false }),
                Some(t) => match classify_title_spec(t) {
                    TitleOutcome::Success => ticket_step(r, rep.body@),
                    TitleOutcome::InvalidCredentials => r.0 == (LoginState::Failed {
                        error: AuthError::InvalidCredentials,
                    }) && r.1 == (LoginAction::Finish { ok: false }),
                    TitleOutcome::MfaNeeded => r.0 == (LoginState::Failed {
                        error: AuthError::MfaFailed,
                    }) && r.1 == (LoginAction::Finish { ok: false }),
                    TitleOutcome::Unexpected => {
                        &&& r.0 matches LoginState::Failed { error } && error
                            matches AuthError::UnexpectedResponse(title) && title@ == t
                        &&& r.1 == (LoginAction::Finish { ok: false })
                    },
                },
            },
        },
{
    match reply {
        None => (
            LoginState::Failed { error: AuthError::TransportError },
            LoginAction::Finish { ok: false },
        ),
        Some(rep) => match scrape::extract_title(rep.body.as_str()) {
            Err(_) => (
                LoginState::Failed { error: AuthError::MalformedResponse },
                LoginAction::Finish { ok: false },
            ),
            Ok(title) => match classify_title(title.as_str()) {
                TitleOutcome::Success => extract_ticket_step(rep.body.as_str()),
                TitleOutcome::InvalidCredentials => (
                    LoginState::Failed { error: AuthError::InvalidCredentials },
                    LoginAction::Finish { ok: false },
                ),
                TitleOutcome::MfaNeeded => (
                    LoginState::Failed { error: AuthError::MfaFailed },
                    LoginAction::Finish { ok: false },
                ),
                TitleOutcome::Unexpected => (
                    LoginState::Failed { error: AuthError::UnexpectedResponse(title) },
                    LoginAction::Finish { ok: false },
                ),
            },
        },
    }
}

/// Consumes the consumer-credentials reply: with both signing fields in
/// hand, the request-token exchange goes out, keyed by the service
/// ticket.
pub fn login_after_consumer(ticket: &str, reply: Option<HttpReply>) -> (r: (
    LoginState,
    LoginAction,
))
    ensures
        match reply {
            None => r.0 == (LoginState::Failed { error: AuthError::TransportError }) && r.1 == (
            LoginAction::Finish { ok: false }),
            Some(rep) => match (
                jsonio::json_field_str(rep.body@, "consumer_key"@),
                jsonio::json_field_str(rep.body@, "consumer_secret"@),
            ) {
                (Some(ck), Some(cs)) => {
                    &&& r.0 matches LoginState::AwaitOauth1 { consumer_key, consumer_secret }
                        && consumer_key@ == ck && consumer_secret@ == cs
                    &&& r.1 matches LoginAction::PostSigned {
                        url,
                        consumer_key,
                        consumer_secret,
                        token_key,
                        token_secret,
                    } && url@ == urls::oauth1_url_spec(ticket@) && consumer_key@ == ck
                        && consumer_secret@ == cs && token_key is None && token_secret is None
                },
                _ => r.0 == (LoginState::Failed { error: AuthError::MalformedResponse }) && r.1
                    == (LoginAction::Finish { ok: false }),
            },
        },
{
    match reply {
        None => (
            LoginState::Failed { error: AuthError::TransportError },
            LoginAction::Finish { ok: false },
        ),
        Some(rep) => {
            let ck = jsonio::json_field_string(rep.body.as_str(), "consumer_key");
            let cs = jsonio::json_field_string(rep.body.as_str(), "consumer_secret");
            match (ck, cs) {
                (Some(ck), Some(cs)) => (
                    LoginState::AwaitOauth1 {
                        consumer_key: ck.clone(),
                        consumer_secret: cs.clone(),
                    },
                    LoginAction::PostSigned {
                        url: urls::oauth1_url(ticket),
                        consumer_key: ck,
                        consumer_secret: cs,
                        token_key: None,
                        token_secret: None,
                    },
                ),
                _ => (
                    LoginState::Failed { error: AuthError::MalformedResponse },
                    LoginAction::Finish { ok: false },
                ),
            }
        },
    }
}

/// Consumes the request-token exchange reply: the form-encoded body must
/// bind both token keys; a missing key fails the exchange naming it.
/// With both in hand, the user-token exchange goes out, signed with the
/// consumer credentials and the fresh request token.
pub fn login_after_oauth1(consumer_key: &str, consumer_secret: &str, reply: Option<HttpReply>) -> (r: (
    LoginState,
    LoginAction,
))
    ensures
        match reply {
            None => r.0 == (LoginState::Failed { error: AuthError::TransportError }) && r.1 == (
            LoginAction::Finish { ok: false }),
            Some(rep) => match (
                formbody::form_value(rep.body@, "oauth_token"@),
                formbody::form_value(rep.body@, "oauth_token_secret"@),
            ) {
                (Some(tk), Some(ts)) => {
                    &&& r.0 matches LoginState::AwaitOauth2 {
                        consumer_key: ck,
                        consumer_secret: cs,
                        oauth_token,
                        oauth_token_secret,
                    } && ck@ == consumer_key@ && cs@ == consumer_secret@ && oauth_token@ == tk
                        && oauth_token_secret@ == ts
                    &&& r.1 matches LoginAction::PostSigned {
                        url,
                        consumer_key: ck,
                        consumer_secret: cs,
                        token_key,
                        token_secret,
                    } && url@ == urls::exchange_url_spec() && ck@ == consumer_key@ && cs@
                        == consumer_secret@ && (token_key matches Some(k) && k@ == tk) && (
                    token_secret matches Some(s) && s@ == ts)
                },
                (None, _) => {
                    &&& r.0 matches LoginState::Failed { error } && error
                        matches AuthError::TokenExchangeFailed(k) && k@ == "oauth_token"@
                    &&& r.1 == (LoginAction::Finish { ok: false })
                },
                (Some(_), None) => {
                    &&& r.0 matches LoginState::Failed { error } && error
                        matches AuthError::TokenExchangeFailed(k) && k@ == "oauth_token_secret"@
                    &&& r.1 == (LoginAction::Finish { ok: false })
                },
            },
        },
{
    match reply {
        None => (
            LoginState::Failed { error: AuthError::TransportError },
            LoginAction::Finish { ok: false },
        ),
        Some(rep) => match formbody::read_oauth_token(rep.body.as_str()) {
            Ok(t) => (
                LoginState::AwaitOauth2 {
                    consumer_key: consumer_key.to_owned(),
                    consumer_secret: consumer_secret.to_owned(),
                    oauth_token: t.oauth_token.clone(),
                    oauth_token_secret: t.oauth_token_secret.clone(),
                },
                LoginAction::PostSigned {
                    url: urls::exchange_url(),
                    consumer_key: consumer_key.to_owned(),
                    consumer_secret: consumer_secret.to_owned(),
                    token_key: Some(t.oauth_token),
                    token_secret: Some(t.oauth_token_secret),
                },
            ),
            Err(k) => (
                LoginState::Failed { error: AuthError::TokenExchangeFailed(k) },
                LoginAction::Finish { ok: false },
            ),
        },
    }
}

/// Consumes the user-token exchange reply: parses the access token,
/// computes its absolute expiry times from `now`, and has the driver
/// overwrite the session file with the fresh record. The signing
/// material is kept in the final state for transparent refresh.
pub fn login_after_oauth2(
    consumer_key: &str,
    consumer_secret: &str,
    oauth_token: &str,
    oauth_token_secret: &str,
    reply: Option<HttpReply>,
    now: u64,
) -> (r: (LoginState, LoginAction))
    ensures
        match reply {
            None => r.0 == (LoginState::Failed { error: AuthError::TransportError }) && r.1 == (
            LoginAction::Finish { ok: false }),
            Some(rep) => if tokens::oauth2_response_ok(rep.body@, now) {
                &&& r.0 matches LoginState::Done {
                    token,
                    consumer_key: ck,
                    consumer_secret: cs,
                    oauth_token: tk,
                    oauth_token_secret: ts,
                } && jsonio::json_field_str(rep.body@, "access_token"@) == Some(
                    token.oauth2_token.access_token@,
                ) && jsonio::json_field_u64(rep.body@, "expires_in"@) == Some(
                    token.oauth2_token.expires_in,
                ) && token.expires_at == now + token.oauth2_token.expires_in
                    && token.refresh_token_expires_at == now
                    + token.oauth2_token.refresh_token_expires_in && ck@ == consumer_key@ && cs@
                    == consumer_secret@ && tk@ == oauth_token@ && ts@ == oauth_token_secret@
                &&& r.1 matches LoginAction::WriteSessionAndFinish { contents }
                    && r.0 matches LoginState::Done { token, .. } && contents@
                    == session::session_json_spec(token.oauth2_token.access_token@, token.expires_at)
            } else {
                r.0 == (LoginState::Failed { error: AuthError::MalformedResponse }) && r.1 == (
                LoginAction::Finish { ok: false })
            },
        },
{
    match reply {
        None => (
            LoginState::Failed { error: AuthError::TransportError },
            LoginAction::Finish { ok: false },
        ),
        Some(rep) => match tokens::parse_oauth2_response(rep.body.as_str(), now) {
            Some(token) => {
                let record = session::SessionRecord {
                    token: token.oauth2_token.access_token.clone(),
                    expires_at: token.expires_at,
                };
                let contents = session::session_to_json(&record);
                (
                    LoginState::Done {
                        token,
                        consumer_key: consumer_key.to_owned(),
                        consumer_secret: consumer_secret.to_owned(),
                        oauth_token: oauth_token.to_owned(),
                        oauth_token_secret: oauth_token_secret.to_owned(),
                    },
                    LoginAction::WriteSessionAndFinish { contents },
                )
            },
            None => (
                LoginState::Failed { error: AuthError::MalformedResponse },
                LoginAction::Finish { ok: false },
            ),
        },
    }
}

} // verus!
