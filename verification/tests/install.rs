use wifilogin::failure::Failure;
use wifilogin::install::{Install, InstallAction, InstallInput};
use wifilogin::service::{render_unit, Systemctl};

fn unit(present: Option<String>) -> InstallInput {
    InstallInput::Unit {
        exe: "/bin/wifilogin".into(),
        path: "/u/wifilogin.service".into(),
        existed: present.is_some(),
        present,
    }
}

fn ran() -> InstallInput {
    InstallInput::Ran {
        success: true,
        stderr: vec![],
    }
}

fn reading() -> Install {
    let (install, action) = Install::new().step(InstallInput::Systemctl { found: true });
    assert!(matches!(action, InstallAction::ReadUnit));
    install
}

fn failure(action: InstallAction) -> Failure {
    match action {
        InstallAction::Fail { failure } => failure,
        other => panic!("{other:?}"),
    }
}

fn enable(install: Install) {
    let (install, action) = install.step(ran());
    assert!(matches!(
        action,
        InstallAction::Run { line, step: Systemctl::Enable } if line == "reloaded user units"
    ));
    let (_, action) = install.step(ran());
    assert!(matches!(
        action,
        InstallAction::Finish { line } if line == "enabled and started wifilogin.service"
    ));
}

#[test]
fn a_first_installation_writes_the_unit() {
    let (install, action) = reading().step(unit(None));
    assert!(matches!(
        action,
        InstallAction::WriteUnit { contents } if contents == render_unit("/bin/wifilogin")
    ));
    let (install, action) = install.step(InstallInput::Written(Ok(())));
    assert!(matches!(
        action,
        InstallAction::Run { line, step: Systemctl::Reload }
            if line == "created /u/wifilogin.service"
    ));
    enable(install);
}

#[test]
fn a_second_installation_leaves_the_unit() {
    let (install, action) = reading().step(unit(Some(render_unit("/bin/wifilogin"))));
    assert!(matches!(
        action,
        InstallAction::Run { line, step: Systemctl::Reload }
            if line == "unit file already up to date: /u/wifilogin.service"
    ));
    enable(install);
}

#[test]
fn an_installation_stops_at_the_first_failure() {
    let (_, action) = Install::new().step(InstallInput::Systemctl { found: false });
    assert_eq!(
        failure(action),
        Failure::from("systemctl not found — `service` commands require a systemd user session")
    );
    let (install, _) = reading().step(unit(None));
    let (_, action) = install.step(InstallInput::Written(Err(Failure::from("read-only"))));
    assert_eq!(failure(action), Failure::from("read-only"));
    let (install, _) = reading().step(unit(Some(render_unit("/bin/wifilogin"))));
    let (_, action) = install.step(InstallInput::NotRun(Failure::from("no such file")));
    assert_eq!(
        failure(action),
        Failure::from("no such file").context("run systemctl --user daemon-reload")
    );
    let (install, _) = reading().step(unit(Some(render_unit("/bin/wifilogin"))));
    let (install, _) = install.step(ran());
    let (_, action) = install.step(InstallInput::Ran {
        success: false,
        stderr: b" denied\xff\n".to_vec(),
    });
    assert_eq!(
        failure(action).message,
        "`systemctl --user enable --now wifilogin.service` failed: denied\u{fffd}"
    );
}
