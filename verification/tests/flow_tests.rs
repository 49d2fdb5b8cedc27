use garmin_client::flow::{
    login_after_consumer, login_after_cookie, login_after_csrf, login_after_mfa_csrf,
    login_after_mfa_submit, login_after_oauth1, login_after_oauth2, login_after_submit,
    login_begin, login_submit_mfa, AuthError, HttpReply, LoginAction, LoginState,
};

const NOW: u64 = 1_700_000_000;

fn reply(url: &str, body: &str) -> Option<HttpReply> {
    Some(HttpReply { url: String::from(url), body: String::from(body) })
}

fn exchange_body() -> String {
    String::from(
        "{\"scope\":\"CONNECT_READ\",\"jti\":\"j1\",\"access_token\":\"AT-9\",\
         \"token_type\":\"Bearer\",\"refresh_token\":\"RT-9\",\
         \"expires_in\":3600,\"refresh_token_expires_in\":7200}",
    )
}

#[test]
fn fresh_session_short_circuits_login() {
    // A valid record with a future expiry: success reported at once,
    // and the first action is no request at all.
    let file = format!("{{\"expires_at\": \"{}\", \"token\": \"cached-token\"}}", NOW + 100);
    let (state, action) = login_begin(Some(&file), NOW);
    assert_eq!(action, LoginAction::Finish { ok: true });
    match state {
        LoginState::Done { token, .. } => {
            assert_eq!(token.oauth2_token.access_token, "cached-token");
            assert_eq!(token.expires_at, NOW + 100);
        }
        other => panic!("expected Done, got {:?}", other),
    }
}

#[test]
fn boundary_session_is_still_fresh() {
    // Expiry exactly now: only a strictly past stamp counts as
    // expired.
    let file = format!("{{\"expires_at\": \"{}\", \"token\": \"edge\"}}", NOW);
    let (_, action) = login_begin(Some(&file), NOW);
    assert_eq!(action, LoginAction::Finish { ok: true });
}

#[test]
fn expired_session_starts_full_flow() {
    let file = format!("{{\"expires_at\": \"{}\", \"token\": \"stale\"}}", NOW - 1);
    let (state, action) = login_begin(Some(&file), NOW);
    assert_eq!(state, LoginState::AwaitCookie);
    match action {
        LoginAction::Get { url, referer } => {
            assert_eq!(
                url,
                "https://sso.garmin.com/sso/embed?id=gauth-widget&embedWidget=true&gauthHost=https://sso.garmin.com/sso"
            );
            assert_eq!(referer, None);
        }
        other => panic!("expected Get, got {:?}", other),
    }
}

#[test]
fn absent_or_broken_session_starts_full_flow() {
    let (state, _) = login_begin(None, NOW);
    assert_eq!(state, LoginState::AwaitCookie);
    let (state2, _) = login_begin(Some("not json"), NOW);
    assert_eq!(state2, LoginState::AwaitCookie);
}

#[test]
fn full_login_scenario_writes_fresh_session() {
    // Session file absent; the mocked identity host answers every step.
    let (state, action) = login_begin(None, NOW);
    assert_eq!(state, LoginState::AwaitCookie);
    assert!(matches!(action, LoginAction::Get { .. }));

    let (state, action) = login_after_cookie(reply("https://sso.garmin.com/sso/embed", "<html></html>"));
    match (&state, &action) {
        (LoginState::AwaitCsrf { referer }, LoginAction::Get { url, referer: rf }) => {
            assert_eq!(referer, "https://sso.garmin.com/sso/embed");
            assert!(url.starts_with("https://sso.garmin.com/sso/signin?id=gauth-widget"));
            assert_eq!(rf.as_deref(), Some("https://sso.garmin.com/sso/embed"));
        }
        other => panic!("unexpected step: {:?}", other),
    }

    let csrf_page = r#"<form><input name="_csrf" value="csrf77" /></form>"#;
    let (state, action) = login_after_csrf("user", "pass", reply("https://sso.garmin.com/signin-page", csrf_page));
    match (&state, &action) {
        (LoginState::AwaitLogin { referer, csrf }, LoginAction::PostForm { url, referer: rf, fields }) => {
            assert_eq!(referer, "https://sso.garmin.com/signin-page");
            assert_eq!(csrf, "csrf77");
            assert!(url.starts_with("https://sso.garmin.com/sso/signin?"));
            assert_eq!(rf, "https://sso.garmin.com/signin-page");
            assert_eq!(fields.len(), 4);
            assert_eq!(fields[0], (String::from("username"), String::from("user")));
            assert_eq!(fields[1], (String::from("password"), String::from("pass")));
            assert_eq!(fields[2], (String::from("embed"), String::from("true")));
            assert_eq!(fields[3], (String::from("_csrf"), String::from("csrf77")));
        }
        other => panic!("unexpected step: {:?}", other),
    }

    let success_page =
        "<title>Success</title><script>url = \"embed?ticket=ST-777-xyz\";</script>";
    let (state, action) = login_after_submit(reply("https://sso.garmin.com/done", success_page));
    match (&state, &action) {
        (LoginState::AwaitConsumer { ticket }, LoginAction::Get { url, referer }) => {
            assert_eq!(ticket, "ST-777-xyz");
            assert_eq!(url, "https://thegarth.s3.amazonaws.com/oauth_consumer.json");
            assert_eq!(*referer, None);
        }
        other => panic!("unexpected step: {:?}", other),
    }

    let consumer_body = "{\"consumer_key\": \"CK\", \"consumer_secret\": \"CS\"}";
    let (state, action) = login_after_consumer("ST-777-xyz", reply("https://thegarth.s3.amazonaws.com/oauth_consumer.json", consumer_body));
    match (&state, &action) {
        (
            LoginState::AwaitOauth1 { consumer_key, consumer_secret },
            LoginAction::PostSigned { url, consumer_key: ck, consumer_secret: cs, token_key, token_secret },
        ) => {
            assert_eq!(consumer_key, "CK");
            assert_eq!(consumer_secret, "CS");
            assert_eq!(
                url,
                "https://connectapi.garmin.com/oauth-service/oauth/preauthorized?ticket=ST-777-xyz&login-url=https://sso.garmin.com/sso/embed&accepts-mfa-tokens=true"
            );
            assert_eq!(ck, "CK");
            assert_eq!(cs, "CS");
            assert_eq!(*token_key, None);
            assert_eq!(*token_secret, None);
        }
        other => panic!("unexpected step: {:?}", other),
    }

    let oauth1_body = "oauth_token=OT&oauth_token_secret=OS";
    let (state, action) = login_after_oauth1("CK", "CS", reply("https://connectapi.garmin.com/x", oauth1_body));
    match (&state, &action) {
        (
            LoginState::AwaitOauth2 { oauth_token, oauth_token_secret, .. },
            LoginAction::PostSigned { url, token_key, token_secret, .. },
        ) => {
            assert_eq!(oauth_token, "OT");
            assert_eq!(oauth_token_secret, "OS");
            assert_eq!(url, "https://connectapi.garmin.com/oauth-service/oauth/exchange/user/2.0");
            assert_eq!(token_key.as_deref(), Some("OT"));
            assert_eq!(token_secret.as_deref(), Some("OS"));
        }
        other => panic!("unexpected step: {:?}", other),
    }

    let (state, action) = login_after_oauth2("CK", "CS", "OT", "OS", reply("https://connectapi.garmin.com/y", &exchange_body()), NOW);
    match (&state, &action) {
        (LoginState::Done { token, .. }, LoginAction::WriteSessionAndFinish { contents }) => {
            assert_eq!(token.oauth2_token.access_token, "AT-9");
            assert_eq!(token.expires_at, NOW + 3600);
            // The written record holds the mocked token and now + expires_in.
            let value: serde_json::Value = serde_json::from_str(contents).unwrap();
            assert_eq!(value["token"].as_str().unwrap(), "AT-9");
            assert_eq!(value["expires_at"].as_str().unwrap(), format!("{}", NOW + 3600));
        }
        other => panic!("unexpected step: {:?}", other),
    }
}

#[test]
fn invalid_credentials_fail_without_session_write() {
    let page = "<title>GARMIN Authentication Application</title>";
    let (state, action) = login_after_submit(reply("https://sso.garmin.com/done", page));
    assert_eq!(state, LoginState::Failed { error: AuthError::InvalidCredentials });
    assert_eq!(action, LoginAction::Finish { ok: false });
}

#[test]
fn mfa_branch_prompts_then_succeeds() {
    let page = "<title>MFA Required</title>";
    let (state, action) = login_after_submit(reply("https://sso.garmin.com/mfa", page));
    match (&state, &action) {
        (LoginState::AwaitMfaCsrf { referer }, LoginAction::Get { url, referer: rf }) => {
            assert_eq!(referer, "https://sso.garmin.com/mfa");
            assert!(url.starts_with("https://sso.garmin.com/sso/signin?"));
            assert_eq!(rf.as_deref(), Some("https://sso.garmin.com/mfa"));
        }
        other => panic!("unexpected step: {:?}", other),
    }

    let csrf_page = r#"<input name="_csrf" value="mfacsrf" />"#;
    let (state, action) = login_after_mfa_csrf(reply("https://sso.garmin.com/mfa2", csrf_page));
    assert_eq!(action, LoginAction::PromptMfa);
    let (referer, csrf) = match state {
        LoginState::AwaitMfaCode { referer, csrf } => (referer, csrf),
        other => panic!("unexpected state: {:?}", other),
    };
    assert_eq!(referer, "https://sso.garmin.com/mfa2");
    assert_eq!(csrf, "mfacsrf");

    let (state, action) = login_submit_mfa(&referer, &csrf, "123456");
    assert_eq!(state, LoginState::AwaitMfaSubmit);
    match action {
        LoginAction::PostForm { url, referer: rf, fields } => {
            assert!(url.starts_with("https://sso.garmin.com/sso/verifyMFA/loginEnterMfaCode?"));
            assert_eq!(rf, "https://sso.garmin.com/mfa2");
            assert_eq!(fields[0], (String::from("mfa-code"), String::from("123456")));
            assert_eq!(fields[1], (String::from("fromPage"), String::from("setupEnterMfaCode")));
            assert_eq!(fields[2], (String::from("embed"), String::from("true")));
            assert_eq!(fields[3], (String::from("_csrf"), String::from("mfacsrf")));
        }
        other => panic!("unexpected action: {:?}", other),
    }

    let done = "<title>Success</title> embed?ticket=ST-MFA-1\"";
    let (state, _) = login_after_mfa_submit(reply("https://sso.garmin.com/ok", done));
    match state {
        LoginState::AwaitConsumer { ticket } => assert_eq!(ticket, "ST-MFA-1"),
        other => panic!("unexpected state: {:?}", other),
    }
}

#[test]
fn mfa_branch_does_not_recurse() {
    let again = "<title>MFA Required</title>";
    let (state, action) = login_after_mfa_submit(reply("https://sso.garmin.com/mfa", again));
    assert_eq!(state, LoginState::Failed { error: AuthError::MfaFailed });
    assert_eq!(action, LoginAction::Finish { ok: false });
}

#[test]
fn transport_failures_abort() {
    let (state, _) = login_after_cookie(None);
    assert_eq!(state, LoginState::Failed { error: AuthError::CookieFailed });
    let (state, _) = login_after_csrf("u", "p", None);
    assert_eq!(state, LoginState::Failed { error: AuthError::TransportError });
    let (state, _) = login_after_submit(None);
    assert_eq!(state, LoginState::Failed { error: AuthError::TransportError });
    let (state, _) = login_after_oauth2("", "", "", "", None, NOW);
    assert_eq!(state, LoginState::Failed { error: AuthError::TransportError });
}

#[test]
fn scraping_failures_are_hard() {
    let (state, _) = login_after_csrf("u", "p", reply("https://x", "<html>no token</html>"));
    assert_eq!(state, LoginState::Failed { error: AuthError::CsrfNotFound });

    let (state, _) = login_after_submit(reply("https://x", "<title>Success</title> no ticket"));
    assert_eq!(state, LoginState::Failed { error: AuthError::TicketNotFound });

    let (state, _) = login_after_submit(reply("https://x", "no title at all"));
    assert_eq!(state, LoginState::Failed { error: AuthError::MalformedResponse });
}

#[test]
fn unexpected_title_is_reported_verbatim() {
    let (state, _) = login_after_submit(reply("https://x", "<title>Scheduled Maintenance</title>"));
    assert_eq!(
        state,
        LoginState::Failed {
            error: AuthError::UnexpectedResponse(String::from("Scheduled Maintenance"))
        }
    );
}

#[test]
fn token_exchange_failures_name_the_key() {
    let (state, _) = login_after_oauth1("CK", "CS", reply("https://x", "oauth_token_secret=s"));
    assert_eq!(
        state,
        LoginState::Failed {
            error: AuthError::TokenExchangeFailed(String::from("oauth_token"))
        }
    );
    let (state, _) = login_after_oauth1("CK", "CS", reply("https://x", "oauth_token=t"));
    assert_eq!(
        state,
        LoginState::Failed {
            error: AuthError::TokenExchangeFailed(String::from("oauth_token_secret"))
        }
    );
    let (state, _) = login_after_consumer("T", reply("https://x", "{\"consumer_key\": \"only\"}"));
    assert_eq!(state, LoginState::Failed { error: AuthError::MalformedResponse });
    let (state, _) = login_after_oauth2("CK", "CS", "OT", "OS", reply("https://x", "{}"), NOW);
    assert_eq!(state, LoginState::Failed { error: AuthError::MalformedResponse });
}
