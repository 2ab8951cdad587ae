use wifilogin::paths::{config_dir, join, state_dir, Environment};
use wifilogin::settings::{
    control_socket_path, daemon_state_path, default_enabled, settings_path, Manager, Settings,
};

fn env(config: Option<&str>, state: Option<&str>, home: Option<&[u8]>) -> Environment {
    Environment {
        xdg_config_home: config.map(|path| path.as_bytes().to_vec()),
        xdg_state_home: state.map(|path| path.as_bytes().to_vec()),
        home: home.map(|path| path.to_vec()),
    }
}

#[test]
fn settings_round_trip() {
    let (mut manager, stored) = Manager::from_stored(None);
    assert!(manager.get().enabled);
    assert_eq!(stored, Some(Settings { enabled: true }));
    let stored = manager.set_enabled(false);
    assert!(!manager.get().enabled);
    assert!(!Manager::from_stored(Some(stored)).0.get().enabled);
    assert_eq!(Manager::from_stored(Some(stored)).1, None);
}

#[test]
fn a_failed_reload_keeps_the_settings() {
    let (mut manager, _) = Manager::from_stored(Some(Settings { enabled: false }));
    assert_eq!(
        manager.reload(Err("parse".into())),
        Err("parse".to_string())
    );
    assert!(!manager.get().enabled);
    assert_eq!(
        manager.reload(Ok(Settings { enabled: true })),
        Ok(Settings { enabled: true })
    );
    assert!(manager.get().enabled);
    assert!(default_enabled());
    assert!(Settings::default().enabled);
}

#[test]
fn a_variable_names_the_root() {
    let env = env(Some("/cfg"), Some("state"), Some(b"/home/sid"));
    assert_eq!(config_dir(&env), Ok(b"/cfg".to_vec()));
    assert_eq!(state_dir(&env), Ok(b"state".to_vec()));
}

#[test]
fn an_empty_variable_names_nothing() {
    let env = env(Some(""), None, Some(b"/home/s\xffd"));
    assert_eq!(config_dir(&env), Ok(b"/home/s\xffd/.config".to_vec()));
    assert_eq!(state_dir(&env), Ok(b"/home/s\xffd/.local/state".to_vec()));
}

#[test]
fn without_a_home_there_is_no_root() {
    let message = Err("could not resolve home directory".to_string());
    assert_eq!(config_dir(&env(Some(""), None, None)), message);
    assert_eq!(settings_path(&env(Some("/cfg"), None, None)), message);
}

#[test]
fn state_files_live_together() {
    let env = env(None, None, Some(b"/home/sid"));
    let root = "/home/sid/.local/state/wifilogin/";
    let path = |name: &str| Ok(format!("{root}{name}").into_bytes());
    assert_eq!(settings_path(&env), path("settings.json"));
    assert_eq!(daemon_state_path(&env), path("daemon.json"));
    assert_eq!(control_socket_path(&env), path("control.sock"));
}

#[test]
fn paths_join_like_the_standard_library() {
    for base in ["", "/", "a", "a/", "/x/y", "/x/y/"] {
        for part in ["", "b", "b/c", "/abs", ".config"] {
            let expected = std::path::Path::new(base).join(part);
            let joined = join(&base.as_bytes().to_vec(), part);
            assert_eq!(
                String::from_utf8(joined).unwrap(),
                expected.to_str().unwrap(),
                "{base:?} {part:?}"
            );
        }
    }
}
