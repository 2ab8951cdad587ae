use wifilogin::portal::{
    classify, is_online_status, judge, login_form, read_reply, user_agent, LoginResult, Outcome,
    PortalError, ResponseBody, MAX_RESPONSE_BODY,
};

#[test]
fn classify_granted() {
    assert_eq!(
        classify("<title>WiFi Access Granted</title>"),
        Outcome::Granted
    );
}

#[test]
fn classify_bad() {
    assert_eq!(
        classify("Sorry, please check your username and password"),
        Outcome::BadCredentials
    );
}

#[test]
fn classify_uncertain() {
    assert_eq!(classify("something else"), Outcome::Uncertain);
}

#[test]
fn a_confirmation_outweighs_the_login_page() {
    assert_eq!(
        classify("WiFi Login Portal ... Access Granted"),
        Outcome::Granted
    );
    assert_eq!(classify("<h1>WiFi Login Portal</h1>"), Outcome::BadCredentials);
    assert_eq!(classify("access granted"), Outcome::Uncertain);
    assert_eq!(classify(""), Outcome::Uncertain);
}

#[test]
fn an_error_status_decides_only_an_open_outcome() {
    assert_eq!(
        judge(500, "oops"),
        LoginResult {
            outcome: Outcome::HttpError,
            http_status: 500
        }
    );
    assert_eq!(judge(399, "oops").outcome, Outcome::Uncertain);
    assert_eq!(judge(400, "oops").outcome, Outcome::HttpError);
    assert_eq!(judge(503, "Access Granted").outcome, Outcome::Granted);
    assert_eq!(
        judge(403, "WiFi Login Portal").outcome,
        Outcome::BadCredentials
    );
}

#[test]
fn a_reply_is_read_from_its_bytes() {
    let mut body = ResponseBody::new();
    assert!(body.push_chunk(b"\xff<b>WiFi Acc").is_ok());
    assert!(body.push_chunk(b"ess Granted</b>\xc3").is_ok());
    assert_eq!(
        read_reply(200, &body),
        LoginResult {
            outcome: Outcome::Granted,
            http_status: 200
        }
    );
}

#[test]
fn a_body_stops_growing_at_the_limit() {
    let mut body = ResponseBody::new();
    let half = vec![b'x'; MAX_RESPONSE_BODY / 2];
    assert!(body.push_chunk(&half).is_ok());
    assert!(body.push_chunk(&half).is_ok());
    assert!(body.push_chunk(&[]).is_ok());
    let error = body.push_chunk(b"y").unwrap_err();
    assert_eq!(error.message(), "portal response exceeds 1048576 bytes");
    assert_eq!(read_reply(200, &body).outcome, Outcome::Uncertain);
}

#[test]
fn portal_failures_are_told_apart() {
    assert_eq!(
        PortalError::Check("timeout".into()).message(),
        "connectivity check: timeout"
    );
    assert_eq!(
        PortalError::Post("refused".into()).message(),
        "post login form: refused"
    );
    assert_eq!(
        PortalError::Read("reset".into()).message(),
        "read portal response: reset"
    );
}

#[test]
fn outcomes_have_names() {
    assert_eq!(Outcome::Granted.name(), "granted");
    assert_eq!(Outcome::BadCredentials.name(), "bad credentials");
    assert_eq!(Outcome::Uncertain.name(), "uncertain");
    assert_eq!(Outcome::HttpError.name(), "http error");
}

#[test]
fn the_form_holds_the_credentials() {
    let form = login_form("user", "secret");
    let expected: Vec<(String, String)> = vec![
        ("userId".into(), "user".into()),
        ("password".into(), "secret".into()),
        ("serviceName".into(), "ProntoAuthentication".into()),
        ("Submit22".into(), "Login".into()),
    ];
    assert_eq!(form, expected);
}

#[test]
fn only_no_content_means_online() {
    assert!(is_online_status(204));
    assert!(!is_online_status(200));
    assert!(!is_online_status(302));
    assert_eq!(user_agent("1.2.3"), "wifilogin/1.2.3");
}
