use wifilogin::config::{Config, Target};
use wifilogin::keyring::{CredsError, NotFound};
use wifilogin::portal::{LoginResult, Outcome};
use wifilogin::session::{
    format_duration, Action, Backoff, Controller, Input, Snapshot, State, RETRY_BASE, RETRY_MAX,
    SECOND, SNAPSHOT_RESYNC_DELAY,
};
use wifilogin::settings::Settings;
use wifilogin::wifi::{Connectivity, NetworkState};

const UUID: &str = "d9428888-122b-11e1-b85c-61cd3cbb3210";

/// The world that a controller meets.
struct World {
    enabled: bool,
    network: Result<NetworkState, String>,
    creds: fn() -> Result<(String, String), CredsError>,
    reply: Result<Outcome, String>,
    online: Result<bool, String>,
    now: u64,
    loads: usize,
    logins: usize,
    checks: usize,
}

fn world(network: Result<NetworkState, String>, online: bool, outcome: Outcome) -> World {
    World {
        enabled: true,
        network,
        creds: || Ok(("user".into(), "password".into())),
        reply: Ok(outcome),
        online: Ok(online),
        now: 0,
        loads: 0,
        logins: 0,
        checks: 0,
    }
}

fn step(controller: &mut Controller, config: &Config, world: &mut World) -> (Snapshot, Option<u64>) {
    let mut input = Input::Begin {
        settings: Settings {
            enabled: world.enabled,
        },
    };
    loop {
        input = match controller.step(config, input) {
            Action::ReadNetwork => Input::Network {
                reading: world.network.clone(),
                now: world.now,
            },
            Action::LoadCredentials => {
                world.loads += 1;
                Input::Credentials {
                    loaded: (world.creds)(),
                }
            }
            Action::SubmitLogin { username, password } => {
                assert_eq!((username.as_str(), password.as_str()), ("user", "password"));
                world.logins += 1;
                Input::Login {
                    reply: world.reply.clone().map(|outcome| LoginResult {
                        outcome,
                        http_status: 200,
                    }),
                    now: world.now,
                }
            }
            Action::CheckOnline => {
                world.checks += 1;
                Input::Online {
                    online: world.online.clone(),
                    now: world.now,
                }
            }
            Action::Report { snapshot, retry } => return (snapshot, retry),
        };
    }
}

fn config() -> Config {
    Config {
        targets: vec![Target {
            ssid: "Campus".into(),
            connection_uuid: Some(UUID.into()),
        }],
        ..Config::default()
    }
}

fn network(
    ssid: &str,
    connection_uuid: &str,
    is_activated: bool,
    is_default: bool,
    connectivity: Connectivity,
) -> NetworkState {
    NetworkState::Connected {
        ssid: ssid.into(),
        connection_uuid: connection_uuid.into(),
        is_activated,
        is_default,
        connectivity,
    }
}

fn campus() -> NetworkState {
    network("Campus", UUID, true, true, Connectivity::Portal)
}

#[test]
fn ignores_a_phone_hotspot_or_any_other_ssid() {
    let mut world = world(
        Ok(network(
            "My Phone",
            "phone-profile",
            true,
            true,
            Connectivity::Full,
        )),
        true,
        Outcome::Granted,
    );
    let (snapshot, retry) = step(&mut Controller::new(), &config(), &mut world);
    assert_eq!(snapshot.state, State::OtherNetwork);
    assert_eq!(retry, None);
    assert_eq!(world.logins, 0);
}

#[test]
fn requires_the_configured_networkmanager_profile() {
    let mut world = world(
        Ok(network(
            "Campus",
            "2f1c5a60-6e1f-4c42-b2a8-0d1a9d2f3e40",
            true,
            true,
            Connectivity::Portal,
        )),
        true,
        Outcome::Granted,
    );
    let (snapshot, _) = step(&mut Controller::new(), &config(), &mut world);
    assert_eq!(snapshot.state, State::OtherNetwork);
    assert_eq!(world.logins, 0);
}

#[test]
fn does_not_login_until_the_connection_is_activated_and_default() {
    let mut world = world(
        Ok(network(
            "Campus",
            "d9428888-122b-11e1-b85c-61cd3cbb3210",
            false,
            false,
            Connectivity::Portal,
        )),
        true,
        Outcome::Granted,
    );
    let (snapshot, retry) = step(&mut Controller::new(), &config(), &mut world);
    assert_eq!(snapshot.state, State::Connecting);
    assert_eq!(retry, None);
    assert_eq!(world.logins, 0);
}

#[test]
fn waits_for_networkmanager_before_posting_credentials() {
    let mut world = world(
        Ok(network(
            "Campus",
            "d9428888-122b-11e1-b85c-61cd3cbb3210",
            true,
            true,
            Connectivity::Unknown,
        )),
        true,
        Outcome::Granted,
    );
    let (snapshot, retry) = step(&mut Controller::new(), &config(), &mut world);
    assert_eq!(snapshot.state, State::WaitingForNetworkManager);
    assert_eq!(retry, None);
    assert_eq!(world.logins, 0);
    assert_eq!(
        snapshot.message,
        "NetworkManager connectivity is Unknown — waiting"
    );
}

#[test]
fn bad_credentials_do_not_retry() {
    let mut world = world(
        Ok(network(
            "Campus",
            "d9428888-122b-11e1-b85c-61cd3cbb3210",
            true,
            true,
            Connectivity::Portal,
        )),
        false,
        Outcome::BadCredentials,
    );
    let (snapshot, retry) = step(&mut Controller::new(), &config(), &mut world);
    assert_eq!(snapshot.state, State::BadCredentials);
    assert_eq!(retry, None);
    assert_eq!(world.checks, 0);
}

#[test]
fn retries_only_an_inconclusive_portal_result() {
    let mut world = world(
        Ok(network(
            "Campus",
            "d9428888-122b-11e1-b85c-61cd3cbb3210",
            true,
            true,
            Connectivity::Portal,
        )),
        false,
        Outcome::Granted,
    );
    let mut controller = Controller::new();
    let (snapshot, retry) = step(&mut controller, &config(), &mut world);
    assert_eq!(snapshot.state, State::Captive);
    assert_eq!(retry, Some(RETRY_BASE));

    // A D-Bus event may call step again immediately, but it must not
    // bypass the pending deadline and submit the form a second time.
    let (snapshot, retry) = step(&mut controller, &config(), &mut world);
    assert_eq!(snapshot.state, State::Captive);
    assert!(retry.is_some_and(|delay| delay <= RETRY_BASE));
    assert_eq!(world.logins, 1);
}

#[test]
fn transient_snapshot_failure_gets_one_resync() {
    let mut world = world(
        Err("D-Bus object disappeared".into()),
        false,
        Outcome::Granted,
    );
    let mut controller = Controller::new();
    let (_, first_retry) = step(&mut controller, &config(), &mut world);
    let (_, second_retry) = step(&mut controller, &config(), &mut world);
    assert_eq!(first_retry, Some(SNAPSHOT_RESYNC_DELAY));
    assert_eq!(second_retry, None);
}

#[test]
fn a_successful_read_allows_another_resync() {
    let mut world = world(Err("gone".into()), false, Outcome::Granted);
    let mut controller = Controller::new();
    let (snapshot, _) = step(&mut controller, &config(), &mut world);
    assert_eq!(snapshot.state, State::Error);
    assert_eq!(
        snapshot.message,
        "could not read NetworkManager state: gone"
    );
    assert_eq!(snapshot.last_error.as_deref(), Some("gone"));
    world.network = Ok(NetworkState::Disconnected);
    let (snapshot, retry) = step(&mut controller, &config(), &mut world);
    assert_eq!((snapshot.state, retry), (State::Disconnected, None));
    assert_eq!(
        snapshot.message,
        "Wi-Fi disconnected — waiting for NetworkManager"
    );
    world.network = Err("gone".into());
    let (_, retry) = step(&mut controller, &config(), &mut world);
    assert_eq!(retry, Some(SNAPSHOT_RESYNC_DELAY));
}

#[test]
fn a_paused_daemon_does_nothing() {
    let mut world = world(Ok(campus()), true, Outcome::Granted);
    world.enabled = false;
    let (snapshot, retry) = step(&mut Controller::new(), &config(), &mut world);
    assert_eq!((snapshot.state, retry), (State::Paused, None));
    assert_eq!(snapshot.message, "paused — run `wifilogin resume`");
    assert_eq!((world.loads, world.logins, world.checks), (0, 0, 0));
}

#[test]
fn without_targets_the_daemon_does_nothing() {
    let mut world = world(Ok(campus()), true, Outcome::Granted);
    let (snapshot, retry) = step(&mut Controller::new(), &Config::default(), &mut world);
    assert_eq!((snapshot.state, retry), (State::NoTargets, None));
    assert_eq!(
        snapshot.message,
        "no target connections configured — the daemon will not act"
    );
    assert_eq!(world.loads, 0);
}

#[test]
fn a_secondary_connection_gets_no_credentials() {
    let mut world = world(
        Ok(network("Campus", UUID, true, false, Connectivity::Portal)),
        true,
        Outcome::Granted,
    );
    let (snapshot, retry) = step(&mut Controller::new(), &config(), &mut world);
    assert_eq!((snapshot.state, retry), (State::TargetNotDefault, None));
    assert_eq!(snapshot.current_ssid.as_deref(), Some("Campus"));
    assert_eq!(world.loads, 0);
}

#[test]
fn full_connectivity_needs_no_probe() {
    let mut world = world(
        Ok(network("Campus", UUID, true, true, Connectivity::Full)),
        true,
        Outcome::Granted,
    );
    let (snapshot, retry) = step(&mut Controller::new(), &config(), &mut world);
    assert!(snapshot.is_online());
    assert_eq!(retry, None);
    assert_eq!((world.loads, world.checks), (0, 0));
}

#[test]
fn a_verified_login_is_online() {
    let mut world = world(Ok(campus()), true, Outcome::Uncertain);
    let (snapshot, retry) = step(&mut Controller::new(), &config(), &mut world);
    assert_eq!((snapshot.state, retry), (State::Online, None));
    assert_eq!(snapshot.message, "portal login verified");
    assert_eq!((world.logins, world.checks), (1, 1));
}

#[test]
fn missing_credentials_do_not_retry() {
    let mut world = world(Ok(campus()), true, Outcome::Granted);
    world.creds = || Err(CredsError::Missing(NotFound));
    let (snapshot, retry) = step(&mut Controller::new(), &config(), &mut world);
    assert_eq!((snapshot.state, retry), (State::CredentialsMissing, None));
    assert_eq!(
        snapshot.message,
        "credentials missing — run `wifilogin creds set <username>`"
    );
    assert_eq!(snapshot.last_error.as_deref(), Some("credentials missing"));
    assert_eq!(world.logins, 0);
}

#[test]
fn a_locked_keyring_gets_one_resync() {
    let mut world = world(Ok(campus()), true, Outcome::Granted);
    world.creds = || Err(CredsError::Unreadable("locked".into()));
    let mut controller = Controller::new();
    let (snapshot, retry) = step(&mut controller, &config(), &mut world);
    assert_eq!(
        (snapshot.state, retry),
        (State::Error, Some(SNAPSHOT_RESYNC_DELAY))
    );
    assert_eq!(snapshot.message, "could not load credentials: locked");
    let (_, retry) = step(&mut controller, &config(), &mut world);
    assert_eq!(retry, None);
}

#[test]
fn portal_retries_back_off() {
    let mut world = world(Ok(campus()), false, Outcome::Granted);
    world.reply = Err("timeout".into());
    let mut controller = Controller::new();
    for seconds in [30, 60, 120, 240, 300, 300] {
        let (snapshot, retry) = step(&mut controller, &config(), &mut world);
        assert_eq!(snapshot.state, State::Captive);
        assert_eq!(
            snapshot.last_error.as_deref(),
            Some("portal login failed: timeout")
        );
        assert_eq!(retry, Some(seconds * SECOND));
        world.now += seconds * SECOND;
    }
    assert_eq!(world.logins, 6);
}

#[test]
fn a_pending_retry_tells_the_time_left() {
    let mut world = world(Ok(campus()), false, Outcome::Granted);
    let mut controller = Controller::new();
    let (snapshot, _) = step(&mut controller, &config(), &mut world);
    assert_eq!(
        snapshot.message,
        "portal login did not establish connectivity — retrying in 30s"
    );
    world.now = 10 * SECOND + 1;
    let (snapshot, retry) = step(&mut controller, &config(), &mut world);
    assert_eq!(retry, Some(20 * SECOND - 1));
    assert_eq!(
        snapshot.message,
        "portal login did not establish connectivity — retrying in 19s"
    );
    world.now = 30 * SECOND;
    world.online = Err("dns".into());
    let (snapshot, retry) = step(&mut controller, &config(), &mut world);
    assert_eq!(retry, Some(60 * SECOND));
    assert_eq!(
        snapshot.message,
        "could not verify portal login: dns — retrying in 1m"
    );
    assert_eq!(world.logins, 2);
}

#[test]
fn another_connection_starts_over() {
    let config = Config {
        targets: vec!["Campus".into()],
        username: None,
    };
    let mut world = world(Ok(campus()), false, Outcome::Granted);
    let mut controller = Controller::new();
    step(&mut controller, &config, &mut world);
    world.network = Ok(network("Campus", "other", true, true, Connectivity::Portal));
    let (_, retry) = step(&mut controller, &config, &mut world);
    assert_eq!(retry, Some(RETRY_BASE));
    assert_eq!(world.logins, 2);
}

#[test]
fn leaving_the_network_forgets_the_backoff() {
    let mut world = world(Ok(campus()), false, Outcome::Granted);
    let mut controller = Controller::new();
    step(&mut controller, &config(), &mut world);
    world.network = Ok(NetworkState::Disconnected);
    step(&mut controller, &config(), &mut world);
    world.network = Ok(campus());
    let (_, retry) = step(&mut controller, &config(), &mut world);
    assert_eq!(retry, Some(RETRY_BASE));
    assert_eq!(world.logins, 2);
}

#[test]
fn an_abandoned_step_starts_over() {
    let mut controller = Controller::new();
    let begin = || Input::Begin {
        settings: Settings::default(),
    };
    assert!(matches!(
        controller.step(&config(), begin()),
        Action::ReadNetwork
    ));
    assert!(matches!(
        controller.step(
            &config(),
            Input::Network {
                reading: Ok(campus()),
                now: 0
            }
        ),
        Action::LoadCredentials
    ));
    assert!(matches!(
        controller.step(&config(), begin()),
        Action::ReadNetwork
    ));
}

#[test]
fn the_backoff_doubles_up_to_its_limit() {
    let mut backoff = Backoff::new();
    let delays: Vec<u64> = (0..7).map(|_| backoff.next() / SECOND).collect();
    assert_eq!(delays, [30, 60, 120, 240, 300, 300, 300]);
    assert_eq!(backoff.next(), RETRY_MAX);
    backoff.reset();
    assert_eq!(backoff.next(), RETRY_BASE);
}

#[test]
fn durations_are_written_in_minutes_or_seconds() {
    assert_eq!(format_duration(30 * SECOND), "30s");
    assert_eq!(format_duration(60 * SECOND), "1m");
    assert_eq!(format_duration(90 * SECOND), "90s");
    assert_eq!(format_duration(300 * SECOND), "5m");
    assert_eq!(format_duration(SECOND - 1), "0m");
}

#[test]
fn states_have_names() {
    let names: Vec<&str> = [
        State::Paused,
        State::NoTargets,
        State::Disconnected,
        State::OtherNetwork,
        State::Connecting,
        State::TargetNotDefault,
        State::WaitingForNetworkManager,
        State::Online,
        State::Captive,
        State::CredentialsMissing,
        State::BadCredentials,
        State::Error,
    ]
    .iter()
    .map(|state| state.name())
    .collect();
    assert_eq!(
        names,
        [
            "Paused",
            "NoTargets",
            "Disconnected",
            "OtherNetwork",
            "Connecting",
            "TargetNotDefault",
            "WaitingForNetworkManager",
            "Online",
            "Captive",
            "CredentialsMissing",
            "BadCredentials",
            "Error"
        ]
    );
}

#[test]
fn loaded_credentials_allow_another_keyring_resync() {
    let mut world = world(Ok(campus()), true, Outcome::Granted);
    let mut controller = Controller::new();
    world.creds = || Err(CredsError::Unreadable("locked".into()));
    let (snapshot, retry) = step(&mut controller, &config(), &mut world);
    assert_eq!(retry, Some(SNAPSHOT_RESYNC_DELAY));
    assert_eq!(snapshot.current_ssid.as_deref(), Some("Campus"));
    assert_eq!(snapshot.last_error.as_deref(), Some("locked"));
    world.creds = || Ok(("user".into(), "password".into()));
    step(&mut controller, &config(), &mut world);
    world.creds = || Err(CredsError::Unreadable("locked".into()));
    let (_, retry) = step(&mut controller, &config(), &mut world);
    assert_eq!(retry, Some(SNAPSHOT_RESYNC_DELAY));
    assert_eq!(world.logins, 1);
}

#[test]
fn a_submission_needs_a_configured_username() {
    let mut world = world(Ok(campus()), true, Outcome::Granted);
    world.creds = || wifilogin::keyring::credentials(None, Ok("password".into()));
    let (snapshot, retry) = step(&mut Controller::new(), &config(), &mut world);
    assert_eq!((snapshot.state, retry), (State::CredentialsMissing, None));
    assert_eq!(world.logins, 0);
}
