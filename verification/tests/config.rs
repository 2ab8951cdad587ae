use wifilogin::config::{config_path, setup, Config, PortalPermission, Target};
use wifilogin::paths::Environment;
use wifilogin::wifi::{Connectivity, NetworkState};

fn network(ssid: &str, uuid: &str, is_activated: bool, is_default: bool) -> NetworkState {
    NetworkState::Connected {
        ssid: ssid.into(),
        connection_uuid: uuid.into(),
        is_activated,
        is_default,
        connectivity: Connectivity::Portal,
    }
}

fn pinned() -> Config {
    Config {
        targets: vec![Target {
            ssid: "Campus".into(),
            connection_uuid: Some("d9428888-122b-11e1-b85c-61cd3cbb3210".into()),
        }],
        ..Config::default()
    }
}

#[test]
fn target_matching_is_exact() {
    let config = Config {
        targets: vec!["R-VIT".into()],
        username: Some("user".into()),
    };
    assert!(config.is_target("R-VIT"));
    assert!(!config.is_target("R-VIT-Guest"));
}

#[test]
fn empty_target_is_rejected() {
    let config = Config {
        targets: vec!["".into()],
        username: None,
    };
    assert!(config.validate().is_err());
}

#[test]
fn validation_names_the_first_blank_target() {
    let config = Config {
        targets: vec!["R-VIT".into(), " \t".into(), "".into()],
        username: Some("".into()),
    };
    assert_eq!(
        config.validate(),
        Err("targets[1] must not be empty".to_string())
    );
}

#[test]
fn validation_rejects_a_blank_username() {
    let config = Config {
        targets: vec!["R-VIT".into()],
        username: Some("\u{2003}".into()),
    };
    assert_eq!(
        config.validate(),
        Err("username must not be empty".to_string())
    );
}

#[test]
fn validation_accepts_the_default_configuration() {
    assert_eq!(Config::default().validate(), Ok(()));
    assert!(Config::default().targets.is_empty());
    assert_eq!(Config::default().username, None);
}

#[test]
fn permission_follows_the_connection() {
    let config = pinned();
    let uuid = "d9428888-122b-11e1-b85c-61cd3cbb3210";
    assert_eq!(
        config.portal_permission(&NetworkState::Disconnected),
        PortalPermission::Disconnected
    );
    assert_eq!(
        config.portal_permission(&network("My Phone", uuid, true, true)),
        PortalPermission::OtherNetwork("My Phone")
    );
    assert_eq!(
        config.portal_permission(&network("Campus", "phone-profile", true, true)),
        PortalPermission::OtherNetwork("Campus")
    );
    assert_eq!(
        config.portal_permission(&network("Campus", uuid, false, true)),
        PortalPermission::Connecting("Campus")
    );
    assert_eq!(
        config.portal_permission(&network("Campus", uuid, true, false)),
        PortalPermission::TargetNotDefault("Campus")
    );
    assert_eq!(
        config.portal_permission(&network("Campus", uuid, true, true)),
        PortalPermission::Allowed {
            ssid: "Campus",
            connection_uuid: uuid,
            connectivity: Connectivity::Portal
        }
    );
}

#[test]
fn a_target_without_a_profile_takes_every_profile() {
    let config = setup("user".to_string());
    assert_eq!(config.username.as_deref(), Some("user"));
    assert_eq!(config.validate(), Ok(()));
    assert_eq!(
        config.portal_permission(&network("R-VIT", "any-profile", true, true)),
        PortalPermission::Allowed {
            ssid: "R-VIT",
            connection_uuid: "any-profile",
            connectivity: Connectivity::Portal
        }
    );
}

#[test]
fn a_copied_configuration_says_the_same() {
    let config = pinned();
    let copy = config.clone();
    assert_eq!(copy.targets, config.targets);
    assert_eq!(copy.username, config.username);
}

#[test]
fn configuration_lives_below_the_configuration_root() {
    let env = Environment {
        xdg_config_home: None,
        xdg_state_home: None,
        home: Some(b"/home/sid".to_vec()),
    };
    assert_eq!(
        config_path(&env),
        Ok(b"/home/sid/.config/wifilogin/config.toml".to_vec())
    );
}
