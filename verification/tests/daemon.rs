use wifilogin::config::Config;
use wifilogin::daemon::{
    after_bind, after_probe, age, deadline_after, process_path, reload, state_changed, BindStep,
    DaemonState, Response, Schedule, Wake,
};
use wifilogin::session::{Snapshot, State};

#[test]
fn the_loop_steps_and_then_waits() {
    let mut schedule = Schedule::new();
    assert!(schedule.should_step);
    assert_eq!(
        schedule.wake(Wake::StepFinished { deadline: Some(7) }),
        Response::Continue
    );
    assert!(!schedule.should_step);
    assert_eq!(schedule.next_retry, Some(7));
    assert_eq!(schedule.wake(Wake::RetryDue), Response::Continue);
    assert!(schedule.should_step);
    schedule.wake(Wake::StepFinished { deadline: None });
    assert_eq!(schedule.next_retry, None);
    assert_eq!(schedule.wake(Wake::NetworkChanged), Response::Continue);
    assert!(schedule.should_step);
}

#[test]
fn control_datagrams_reload() {
    let mut schedule = Schedule::new();
    schedule.wake(Wake::StepFinished { deadline: None });
    assert_eq!(schedule.wake(Wake::Control), Response::Reload);
    assert!(schedule.should_step);
    assert_eq!(schedule.wake(Wake::ControlFailed), Response::Abort);
}

#[test]
fn the_loop_ends() {
    assert_eq!(Schedule::new().wake(Wake::Stopped), Response::Stop);
    assert_eq!(Schedule::new().wake(Wake::NetworkClosed), Response::Fail);
}

#[test]
fn deadlines_follow_delays() {
    assert_eq!(deadline_after(5, Some(10)), Some(15));
    assert_eq!(deadline_after(5, None), None);
    assert!(state_changed(None, State::Online));
    assert!(state_changed(Some(State::Captive), State::Online));
    assert!(!state_changed(Some(State::Online), State::Online));
}

#[test]
fn a_failed_reload_keeps_the_configuration() {
    let mut config = Config {
        targets: vec!["R-VIT".into()],
        username: None,
    };
    assert_eq!(
        reload(&mut config, Err("unknown field".into())),
        Some("unknown field".to_string())
    );
    assert!(config.is_target("R-VIT"));
    assert_eq!(reload(&mut config, Ok(Config::default())), None);
    assert!(!config.is_target("R-VIT"));
}

#[test]
fn a_step_leaves_its_finding() {
    let snapshot = Snapshot::on_network(State::Online, "R-VIT".into(), "fine".into())
        .with_error("before".into());
    let state = DaemonState::record(42, &snapshot, 1000);
    assert_eq!(state.pid, 42);
    assert_eq!(state.state, "Online");
    assert_eq!(state.message, "fine");
    assert_eq!(state.ssid.as_deref(), Some("R-VIT"));
    assert!(state.online);
    assert_eq!(state.updated, 1000);
    assert_eq!(state.last_error.as_deref(), Some("before"));
    let idle = Snapshot::idle(State::Paused, "paused".into());
    assert!(!DaemonState::record(42, &idle, 0).online);
}

#[test]
fn ages_are_written_in_one_unit() {
    assert_eq!(age(100, 100), "0s");
    assert_eq!(age(100, 200), "0s");
    assert_eq!(age(159, 100), "59s");
    assert_eq!(age(160, 100), "1m");
    assert_eq!(age(3699, 100), "59m");
    assert_eq!(age(3700, 100), "1h");
    assert_eq!(process_path(1234), "/proc/1234");
}

#[test]
fn a_live_control_socket_is_left_alone() {
    assert_eq!(after_bind(true, false), BindStep::Bound);
    assert_eq!(after_bind(false, true), BindStep::Probe);
    assert_eq!(after_bind(false, false), BindStep::Fail);
    assert_eq!(after_probe(true), BindStep::AlreadyRunning);
    assert_eq!(after_probe(false), BindStep::RemoveAndBind);
}
