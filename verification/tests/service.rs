use wifilogin::paths::Environment;
use wifilogin::service::{disable_note, plan_unit, render_unit, unit_path, Systemctl};

#[test]
fn renders_exe() {
    let u = render_unit("/home/sid/.cargo/bin/wifilogin");
    assert!(u.contains("ExecStart=/home/sid/.cargo/bin/wifilogin run"));
    assert!(!u.contains("@EXE@"));
}

#[test]
fn renders_without_unresolved_placeholders() {
    let u = render_unit("/usr/local/bin/wifilogin");
    assert!(u.contains("ExecStart=/usr/local/bin/wifilogin run"));
    assert!(!u.contains("@"));
}

#[test]
fn installing_again_changes_nothing() {
    let first = plan_unit("/bin/wifilogin", "/u/wifilogin.service", false, None);
    assert!(first.write);
    assert_eq!(first.line, "created /u/wifilogin.service");
    let again = plan_unit(
        "/bin/wifilogin",
        "/u/wifilogin.service",
        true,
        Some(&first.contents),
    );
    assert!(!again.write);
    assert_eq!(
        again.line,
        "unit file already up to date: /u/wifilogin.service"
    );
    let moved = plan_unit(
        "/opt/wifilogin",
        "/u/wifilogin.service",
        true,
        Some(&first.contents),
    );
    assert!(moved.write);
    assert_eq!(moved.line, "updated /u/wifilogin.service");
}

#[test]
fn systemctl_is_called_with_the_unit() {
    assert_eq!(Systemctl::Reload.args(), ["daemon-reload"]);
    assert_eq!(
        Systemctl::Enable.args(),
        ["enable", "--now", "wifilogin.service"]
    );
    assert_eq!(
        Systemctl::Disable.args(),
        ["disable", "--now", "wifilogin.service"]
    );
    assert_eq!(Systemctl::Start.args(), ["start", "wifilogin.service"]);
    assert_eq!(Systemctl::Stop.args(), ["stop", "wifilogin.service"]);
    assert_eq!(Systemctl::Restart.args(), ["restart", "wifilogin.service"]);
    assert_eq!(Systemctl::Status.args(), ["status", "wifilogin.service"]);
    assert_eq!(
        Systemctl::Restart.launch_failure(),
        "run systemctl --user restart wifilogin.service"
    );
}

#[test]
fn systemctl_failures_are_told() {
    assert_eq!(Systemctl::Enable.check(true, b"noise"), Ok(()));
    assert_eq!(
        Systemctl::Enable.check(false, b"  no such unit \xff\n"),
        Err(
            "`systemctl --user enable --now wifilogin.service` failed: no such unit \u{fffd}"
                .to_string()
        )
    );
    assert_eq!(disable_note(true, b"x"), None);
    assert_eq!(
        disable_note(false, b" denied\n"),
        Some("note: could not disable service: denied".to_string())
    );
}

#[test]
fn the_unit_lives_with_the_user_units() {
    let env = Environment {
        xdg_config_home: Some(b"/cfg/".to_vec()),
        xdg_state_home: None,
        home: None,
    };
    assert_eq!(
        unit_path(&env),
        Ok(b"/cfg/systemd/user/wifilogin.service".to_vec())
    );
}
