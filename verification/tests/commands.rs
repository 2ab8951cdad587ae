use wifilogin::commands::{Login, LoginAction, LoginInput};
use wifilogin::config::{Config, Target};
use wifilogin::daemon::DaemonState;
use wifilogin::failure::Failure;
use wifilogin::keyring::{
    check_password, credentials, is_not_found, map_not_found, CredsError, KeyringFailure, NotFound,
};
use wifilogin::portal::{LoginResult, Outcome};
use wifilogin::status::{
    creds_get, creds_line, daemon_lines, network_lines, online_report, pause_line,
    read_piped_password, read_typed_password, read_username, with_username,
};
use wifilogin::wifi::{Connectivity, NetworkState};

fn network(ssid: &str, uuid: &str, is_activated: bool, is_default: bool) -> NetworkState {
    NetworkState::Connected {
        ssid: ssid.into(),
        connection_uuid: uuid.into(),
        is_activated,
        is_default,
        connectivity: Connectivity::Unknown,
    }
}

fn config() -> Config {
    Config {
        targets: vec!["R-VIT".into()],
        username: Some("user".into()),
    }
}

fn message(action: LoginAction) -> String {
    match action {
        LoginAction::Fail { failure } => failure.message,
        other => panic!("{other:?}"),
    }
}

fn reply(outcome: Outcome) -> LoginInput {
    LoginInput::Reply(Ok(LoginResult {
        outcome,
        http_status: 200,
    }))
}

fn submitted() -> Login {
    let (login, action) = Login::new().step(
        &config(),
        LoginInput::Network(Ok(network("R-VIT", "uuid", true, true))),
    );
    assert!(matches!(action, LoginAction::LoadPassword));
    let (login, action) = login.step(&config(), LoginInput::Password(Ok("secret".into())));
    assert!(matches!(action, LoginAction::ReadNetwork));
    let (login, action) = login.step(
        &config(),
        LoginInput::Network(Ok(network("R-VIT", "uuid", true, true))),
    );
    match action {
        LoginAction::Submit {
            line,
            username,
            password,
        } => {
            assert_eq!(
                line,
                "logging in to http://phc.prontonetworks.com/cgi-bin/authlogin?URI= as user…"
            );
            assert_eq!((username.as_str(), password.as_str()), ("user", "secret"));
        }
        other => panic!("{other:?}"),
    }
    login
}

#[test]
fn an_explicit_login_is_verified() {
    let (login, action) = submitted().step(&config(), reply(Outcome::Granted));
    assert!(
        matches!(action, LoginAction::CheckOnline { line } if line == "portal: granted (HTTP 200)")
    );
    let (_, action) = login.step(&config(), LoginInput::Online(Ok(true)));
    assert!(
        matches!(action, LoginAction::Exit { line, code: 0 } if line == "connectivity: online")
    );
}

#[test]
fn an_explicit_login_tells_its_failure() {
    let (_, action) = submitted().step(&config(), reply(Outcome::BadCredentials));
    assert!(
        matches!(action, LoginAction::Exit { line, code: 1 } if line == "portal: bad credentials (HTTP 200)")
    );
    let (_, action) = submitted().step(&config(), LoginInput::Reply(Err("timeout".into())));
    assert_eq!(message(action), "timeout");
    for online in [Ok(false), Err(Failure::from("dns"))] {
        let (login, _) = submitted().step(&config(), reply(Outcome::Uncertain));
        let (_, action) = login.step(&config(), LoginInput::Online(online));
        assert!(
            matches!(action, LoginAction::Exit { line, code: 1 } if line == "connectivity: still captive/offline")
        );
    }
}

#[test]
fn an_explicit_login_is_refused_off_target() {
    let refuse = |network: NetworkState| {
        message(Login::new().step(&config(), LoginInput::Network(Ok(network))).1)
    };
    assert_eq!(
        refuse(NetworkState::Disconnected),
        "refusing portal login: Wi-Fi is disconnected"
    );
    assert_eq!(
        refuse(network("Phone", "uuid", true, true)),
        "refusing portal login: Phone is not an allowed target Wi-Fi network"
    );
    assert_eq!(
        refuse(network("R-VIT", "uuid", false, true)),
        "refusing portal login: R-VIT is still changing state"
    );
    assert_eq!(
        refuse(network("R-VIT", "uuid", true, false)),
        "refusing portal login: R-VIT is not the default route"
    );
    let (_, action) = Login::new().step(&config(), LoginInput::Network(Err("no bus".into())));
    assert_eq!(message(action), "no bus");
}

#[test]
fn an_explicit_login_needs_credentials() {
    let nameless = Config {
        username: None,
        ..config()
    };
    let here = || LoginInput::Network(Ok(network("R-VIT", "uuid", true, true)));
    assert_eq!(
        message(Login::new().step(&nameless, here()).1),
        "no username — run `wifilogin setup` or `wifilogin creds set <username>`"
    );
    let (login, _) = Login::new().step(&config(), here());
    let missing = LoginInput::Password(Err(CredsError::Missing(NotFound)));
    let (_, action) = login.step(&config(), missing);
    assert!(matches!(
        action,
        LoginAction::Fail { failure } if failure == Failure {
            message: "no password — run `wifilogin setup` or `wifilogin creds set <username>`"
                .into(),
            causes: vec!["credentials not found in keyring".into()],
        }
    ));
}

#[test]
fn an_explicit_login_notices_a_change_of_connection() {
    let (login, _) = Login::new().step(
        &config(),
        LoginInput::Network(Ok(network("R-VIT", "uuid", true, true))),
    );
    let (login, _) = login.step(&config(), LoginInput::Password(Ok("secret".into())));
    let (_, action) = login.step(
        &config(),
        LoginInput::Network(Ok(network("R-VIT", "other", true, true))),
    );
    assert_eq!(
        message(action),
        "refusing portal login: the active Wi-Fi connection changed"
    );
}

#[test]
fn keyring_failures_are_sorted() {
    assert!(is_not_found(&map_not_found(KeyringFailure::NoEntry)));
    assert_eq!(
        map_not_found(KeyringFailure::NoEntry).message(),
        "credentials not found in keyring"
    );
    for (failure, text) in [
        (
            KeyringFailure::StoreUnavailable("no owner".into()),
            "system credential store unavailable (Secret Service)",
        ),
        (
            KeyringFailure::EntryUnavailable("refused".into()),
            "open keyring entry for service 'wifilogin'",
        ),
        (KeyringFailure::Other("locked".into()), "locked"),
    ] {
        let error = map_not_found(failure);
        assert!(!is_not_found(&error));
        assert_eq!(error.message(), text);
    }
    assert_eq!(NotFound.message(), "credentials not found in keyring");
}

#[test]
fn credentials_need_both_halves() {
    let loaded = credentials(Some("user"), Ok("secret".into())).unwrap();
    assert_eq!(loaded, ("user".to_string(), "secret".to_string()));
    assert!(is_not_found(&credentials(None, Ok("secret".into())).unwrap_err()));
    let locked = || Err(CredsError::Unreadable("locked".into()));
    assert!(is_not_found(&credentials(None, locked()).unwrap_err()));
    assert_eq!(
        credentials(Some("user"), locked()).unwrap_err().message(),
        "locked"
    );
    assert_eq!(check_password("x"), Ok(()));
    assert_eq!(check_password(""), Err("password is required".to_string()));
}

#[test]
fn status_tells_about_the_daemon() {
    let state = DaemonState {
        pid: 42,
        state: "Captive".into(),
        message: "waiting".into(),
        ssid: None,
        online: false,
        updated: 100,
        last_error: Some("timeout".into()),
    };
    assert_eq!(daemon_lines(None, 0), ["daemon: not running"]);
    assert_eq!(
        daemon_lines(Some((&state, false)), 160),
        ["daemon: not running (stale state from pid 42, updated 1m ago)"]
    );
    assert_eq!(
        daemon_lines(Some((&state, true)), 105),
        [
            "daemon: running (pid 42, updated 5s ago)",
            "daemon state: Captive — waiting",
            "last error: timeout"
        ]
    );
    let quiet = DaemonState {
        last_error: None,
        ..state
    };
    assert_eq!(daemon_lines(Some((&quiet, true)), 105).len(), 2);
}

#[test]
fn status_tells_about_the_network() {
    assert_eq!(
        network_lines(None, &NetworkState::Disconnected),
        ["wifi: disconnected"]
    );
    assert_eq!(
        network_lines(Some(&config()), &network("R-VIT", "uuid", true, true)),
        [
            "wifi: R-VIT (allowed portal network: true)",
            "NetworkManager connection: uuid",
            "default route: wifi",
            "NetworkManager connectivity: Unknown"
        ]
    );
    let lines = network_lines(None, &network("R-VIT", "uuid", true, false));
    assert_eq!(lines[0], "wifi: R-VIT (allowed portal network: false)");
    assert_eq!(lines[2], "default route: another connection");
}

#[test]
fn status_tells_about_the_credentials() {
    let present = || Ok("secret".to_string());
    let missing = || Err(CredsError::Missing(NotFound));
    let locked = || Err(CredsError::Unreadable("locked".into()));
    assert_eq!(
        creds_line(Some("user"), &present()),
        "creds: password present (user)"
    );
    assert_eq!(
        creds_line(None, &present()),
        "creds: password present; username missing from config"
    );
    assert_eq!(
        creds_line(Some("user"), &missing()),
        "creds: password missing (user)"
    );
    assert_eq!(
        creds_line(None, &missing()),
        "creds: username and password missing"
    );
    assert_eq!(creds_line(None, &locked()), "creds: error: locked");
    assert_eq!(creds_get(&present()), Ok("password present in keyring".to_string()));
    assert_eq!(creds_get(&missing()), Ok("no password in keyring".to_string()));
    assert_eq!(creds_get(&locked()), Err(Failure::from("locked")));
}

#[test]
fn the_username_is_set_in_the_configuration() {
    let config = with_username(Some(config()), "other".into());
    assert_eq!(config.username.as_deref(), Some("other"));
    assert!(config.is_target("R-VIT"));
    let config = with_username(None, "user".into());
    assert!(config.targets.is_empty());
    assert_eq!(config.username.as_deref(), Some("user"));
}

#[test]
fn simple_commands_tell_their_outcome() {
    assert_eq!(pause_line(true), "automatic portal login enabled");
    assert_eq!(pause_line(false), "automatic portal login paused");
    assert_eq!(online_report(Ok(true)), ("online".to_string(), 0));
    assert_eq!(online_report(Ok(false)), ("captive/offline".to_string(), 1));
    assert_eq!(online_report(Err("dns".into())), ("error: dns".to_string(), 2));
}

#[test]
fn typed_credentials_are_checked() {
    assert_eq!(read_username(" user \n"), Ok("user".to_string()));
    assert_eq!(read_username(" \n"), Err("username is required".to_string()));
    assert_eq!(read_piped_password(" p w \r\n"), Ok(" p w ".to_string()));
    assert_eq!(
        read_piped_password("\n"),
        Err("empty password on stdin".to_string())
    );
    assert_eq!(
        read_typed_password("a".into(), "a".into()),
        Ok("a".to_string())
    );
    assert_eq!(
        read_typed_password("a".into(), "b".into()),
        Err("passwords do not match".to_string())
    );
    assert_eq!(
        read_typed_password("".into(), "".into()),
        Err("password is required".to_string())
    );
}

#[test]
fn an_explicit_login_tells_why_the_keyring_failed() {
    let (login, _) = Login::new().step(
        &config(),
        LoginInput::Network(Ok(network("R-VIT", "uuid", true, true))),
    );
    let locked = map_not_found(KeyringFailure::StoreUnavailable(Failure {
        message: "locked".into(),
        causes: vec!["no prompt".into()],
    }));
    let (_, action) = login.step(&config(), LoginInput::Password(Err(locked)));
    assert!(matches!(
        action,
        LoginAction::Fail { failure } if failure.one_line()
            == "no password — run `wifilogin setup` or `wifilogin creds set <username>`: \
                system credential store unavailable (Secret Service): locked: no prompt"
    ));
}

#[test]
fn causes_are_kept() {
    let failure = Failure::from("inner").context("middle").context("outer");
    assert_eq!(failure.message, "outer");
    assert_eq!(failure.causes, ["middle", "inner"]);
    assert_eq!(failure.one_line(), "outer: middle: inner");
    assert_eq!(failure.clone(), failure);
    assert_eq!(Failure::plain("alone".into()).one_line(), "alone");
    assert_eq!(
        online_report(Err(Failure::from("no route").context("connect"))),
        ("error: connect: no route".to_string(), 2)
    );
}

#[test]
fn status_looks_at_the_profile_of_a_target() {
    let config = Config {
        targets: vec![Target {
            ssid: "R-VIT".into(),
            connection_uuid: Some("pinned".into()),
        }],
        username: None,
    };
    let first = |uuid: &str| {
        network_lines(Some(&config), &network("R-VIT", uuid, true, true)).remove(0)
    };
    assert_eq!(first("pinned"), "wifi: R-VIT (allowed portal network: true)");
    assert_eq!(first("other"), "wifi: R-VIT (allowed portal network: false)");
}
