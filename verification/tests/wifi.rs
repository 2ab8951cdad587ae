use wifilogin::failure::Failure;
use wifilogin::probe::{wifi_devices, Probe, Progress, ReadError, Reply, Request};
use wifilogin::signals::{
    affects_network_state, inspect_properties, is_lifecycle_signal, match_rules, triage, Triage,
};
use wifilogin::wifi::{Connectivity, Event, NetworkState, Selection, NM_DEVICE_IFACE, NM_IFACE};

#[test]
fn maps_networkmanager_connectivity_values() {
    assert_eq!(Connectivity::from_nm(0), Connectivity::Unknown);
    assert_eq!(Connectivity::from_nm(2), Connectivity::Portal);
    assert_eq!(Connectivity::from_nm(4), Connectivity::Full);
    assert_eq!(Connectivity::from_nm(99), Connectivity::Unknown);
}

#[test]
fn connectivity_values_have_names() {
    assert_eq!(Connectivity::from_nm(0).name(), "Unknown");
    assert_eq!(Connectivity::from_nm(1).name(), "None");
    assert_eq!(Connectivity::from_nm(2).name(), "Portal");
    assert_eq!(Connectivity::from_nm(3).name(), "Limited");
    assert_eq!(Connectivity::from_nm(4).name(), "Full");
}

fn network(ssid: &str, is_default: bool) -> NetworkState {
    NetworkState::Connected {
        ssid: ssid.into(),
        connection_uuid: "uuid".into(),
        is_activated: true,
        is_default,
        connectivity: Connectivity::Full,
    }
}

#[test]
fn the_default_route_owner_wins() {
    let mut selection = Selection::new();
    assert_eq!(selection.observe(Err("gone".into())), None);
    assert_eq!(selection.observe(Ok(None)), None);
    assert_eq!(selection.observe(Ok(Some(network("first", false)))), None);
    assert_eq!(
        selection.observe(Ok(Some(network("owner", true)))),
        Some(network("owner", true))
    );
}

#[test]
fn without_an_owner_the_first_active_network_counts() {
    let mut selection = Selection::new();
    selection.observe(Err("gone".into()));
    selection.observe(Ok(Some(network("first", false))));
    selection.observe(Ok(Some(network("second", false))));
    assert_eq!(selection.finish(), Ok(network("first", false)));
}

#[test]
fn without_a_network_the_first_error_counts() {
    let mut selection = Selection::new();
    selection.observe(Ok(None));
    selection.observe(Err("first".into()));
    selection.observe(Err("second".into()));
    assert_eq!(selection.finish(), Err(Failure::from("first")));
    assert_eq!(Selection::new().finish(), Ok(NetworkState::Disconnected));
}

fn more(progress: Progress) -> Probe {
    match progress {
        Progress::More(probe) => probe,
        Progress::Done(reading) => panic!("done: {reading:?}"),
    }
}

fn done(progress: Progress) -> Result<Option<NetworkState>, Failure> {
    match progress {
        Progress::Done(reading) => reading,
        Progress::More(probe) => panic!("more: {probe:?}"),
    }
}

fn identified() -> Probe {
    let probe = Probe::new();
    assert!(matches!(probe.request(), Request::AccessPoint));
    let probe = more(probe.advance(Reply::Text(Ok("/ap/1".into()))));
    assert!(matches!(probe.request(), Request::Ssid { access_point } if access_point == "/ap/1"));
    let probe = more(probe.advance(Reply::Bytes(Ok(b"Caf\xc3\xa9\xff".to_vec()))));
    assert!(matches!(probe.request(), Request::ActiveConnection));
    let probe = more(probe.advance(Reply::Text(Ok("/active/7".into()))));
    assert!(matches!(probe.request(), Request::Uuid { active } if active == "/active/7"));
    more(probe.advance(Reply::Text(Ok("some-uuid".into()))))
}

#[test]
fn a_probe_reads_a_whole_device() {
    let probe = more(identified().advance(Reply::Number(Ok(2))));
    assert!(matches!(probe.request(), Request::Default4 { active } if active == "/active/7"));
    let probe = more(probe.advance(Reply::Flag(Ok(true))));
    assert!(matches!(probe.request(), Request::Connectivity));
    assert_eq!(
        done(probe.advance(Reply::Number(Ok(2)))),
        Ok(Some(NetworkState::Connected {
            ssid: "Caf\u{e9}\u{fffd}".into(),
            connection_uuid: "some-uuid".into(),
            is_activated: true,
            is_default: true,
            connectivity: Connectivity::Portal,
        }))
    );
}

#[test]
fn a_probe_accepts_the_ipv6_default_route() {
    let probe = more(identified().advance(Reply::Number(Ok(1))));
    let probe = more(probe.advance(Reply::Flag(Err(ReadError::Unreadable("gone".into())))));
    assert!(matches!(probe.request(), Request::Default6 { active } if active == "/active/7"));
    let probe = more(probe.advance(Reply::Flag(Ok(true))));
    assert_eq!(
        done(probe.advance(Reply::Number(Err(ReadError::Unreadable("gone".into()))))),
        Ok(Some(NetworkState::Connected {
            ssid: "Caf\u{e9}\u{fffd}".into(),
            connection_uuid: "some-uuid".into(),
            is_activated: false,
            is_default: true,
            connectivity: Connectivity::Unknown,
        }))
    );
}

#[test]
fn a_probe_stops_where_there_is_no_network() {
    assert_eq!(
        done(Probe::new().advance(Reply::Text(Ok("/".into())))),
        Ok(None)
    );
    let probe = more(Probe::new().advance(Reply::Text(Ok("/ap/1".into()))));
    assert_eq!(done(probe.advance(Reply::Bytes(Ok(vec![])))), Ok(None));
    let probe = more(Probe::new().advance(Reply::Text(Ok("/ap/1".into()))));
    let probe = more(probe.advance(Reply::Bytes(Ok(b"x".to_vec()))));
    assert_eq!(done(probe.advance(Reply::Text(Ok("/".into())))), Ok(None));
}

#[test]
fn a_probe_tells_what_it_could_not_read() {
    let unreadable = || Err(ReadError::Unreadable("no reply".into()));
    let told = |what: &str| {
        Err(Failure {
            message: what.to_string(),
            causes: vec!["no reply".to_string()],
        })
    };
    assert_eq!(
        done(Probe::new().advance(Reply::Text(unreadable()))),
        told("read active Wi-Fi access point")
    );
    assert_eq!(
        done(Probe::new().advance(Reply::Text(Err(ReadError::Unreachable("no bus".into()))))),
        Err(Failure::from("no bus"))
    );
    let probe = more(Probe::new().advance(Reply::Text(Ok("/ap/1".into()))));
    assert_eq!(
        done(probe.advance(Reply::Bytes(Err(ReadError::Unreadable("no reply".into()))))),
        told("read Wi-Fi SSID")
    );
    let probe = more(Probe::new().advance(Reply::Text(Ok("/ap/1".into()))));
    let probe = more(probe.advance(Reply::Bytes(Ok(b"x".to_vec()))));
    assert_eq!(
        done(probe.advance(Reply::Text(unreadable()))),
        told("read active Wi-Fi connection")
    );
    let probe = more(Probe::new().advance(Reply::Text(Ok("/ap/1".into()))));
    let probe = more(probe.advance(Reply::Bytes(Ok(b"x".to_vec()))));
    let probe = more(probe.advance(Reply::Text(Ok("/active/7".into()))));
    assert_eq!(
        done(probe.advance(Reply::Text(unreadable()))),
        told("read active Wi-Fi connection UUID")
    );
    let probe = more(identified().advance(Reply::Number(Err(ReadError::Unreadable("gone".into())))));
    let probe = more(probe.advance(Reply::Flag(Ok(false))));
    let probe = more(probe.advance(Reply::Flag(Ok(false))));
    assert_eq!(
        done(probe.advance(Reply::Number(Err(ReadError::Unreachable("gone".into()))))),
        Err(Failure::from("gone"))
    );
}

#[test]
fn only_wifi_devices_are_kept() {
    let devices: Vec<String> = vec!["/d/1".into(), "/d/2".into(), "/d/3".into(), "/d/4".into()];
    let types = vec![Some(2), Some(1), None, Some(2)];
    assert_eq!(wifi_devices(&devices, &types), ["/d/1", "/d/4"]);
}

#[test]
fn lifecycle_signals_are_recognised() {
    let device = Some("org.freedesktop.NetworkManager.Device");
    let active = Some("org.freedesktop.NetworkManager.Connection.Active");
    assert!(is_lifecycle_signal(Some(NM_IFACE), Some("DeviceAdded")));
    assert!(is_lifecycle_signal(Some(NM_IFACE), Some("DeviceRemoved")));
    assert!(is_lifecycle_signal(Some(NM_IFACE), Some("StateChanged")));
    assert!(is_lifecycle_signal(device, Some("StateChanged")));
    assert!(is_lifecycle_signal(active, Some("StateChanged")));
    assert!(is_lifecycle_signal(
        Some("org.freedesktop.DBus"),
        Some("NameOwnerChanged")
    ));
    assert!(!is_lifecycle_signal(device, Some("DeviceAdded")));
    assert!(!is_lifecycle_signal(None, Some("StateChanged")));
    assert!(!is_lifecycle_signal(Some(NM_IFACE), None));
}

#[test]
fn property_changes_are_sorted() {
    let changed = |names: &[&str]| -> Vec<String> { names.iter().map(|n| n.to_string()).collect() };
    let wireless = "org.freedesktop.NetworkManager.Device.Wireless";
    let active = "org.freedesktop.NetworkManager.Connection.Active";
    assert!(affects_network_state(NM_IFACE, &changed(&["Connectivity"])));
    assert!(affects_network_state(
        NM_IFACE,
        &changed(&["Version", "PrimaryConnection"])
    ));
    assert!(!affects_network_state(NM_IFACE, &changed(&["State"])));
    assert!(affects_network_state(NM_DEVICE_IFACE, &changed(&["State"])));
    assert!(!affects_network_state(NM_DEVICE_IFACE, &changed(&["Mtu"])));
    assert!(affects_network_state(wireless, &changed(&["ActiveAccessPoint"])));
    assert!(affects_network_state(wireless, &changed(&["ActiveConnection"])));
    assert!(!affects_network_state(wireless, &changed(&["LastScan"])));
    assert!(affects_network_state(active, &changed(&["State"])));
    assert!(affects_network_state(active, &changed(&["Default"])));
    assert!(affects_network_state(active, &changed(&["Default6"])));
    assert!(!affects_network_state(active, &changed(&["Vpn"])));
    assert!(affects_network_state(
        NM_DEVICE_IFACE,
        &changed(&["ActiveConnection"])
    ));
    assert!(!affects_network_state("org.example", &changed(&["State"])));
}

#[test]
fn messages_are_triaged() {
    let props = Some("org.freedesktop.DBus.Properties");
    assert_eq!(
        triage(true, Some(NM_IFACE), Some("StateChanged")),
        Triage::Notify(Event::NetworkChanged)
    );
    assert_eq!(
        triage(false, Some(NM_IFACE), Some("StateChanged")),
        Triage::Ignore
    );
    assert_eq!(
        triage(true, props, Some("PropertiesChanged")),
        Triage::InspectProperties
    );
    assert_eq!(triage(true, props, Some("Get")), Triage::Ignore);
    assert_eq!(triage(true, None, None), Triage::Ignore);
    assert_eq!(
        inspect_properties(Some((NM_IFACE.into(), vec!["Connectivity".into()]))),
        Some(Event::NetworkChanged)
    );
    assert_eq!(
        inspect_properties(Some((NM_IFACE.into(), vec!["Version".into()]))),
        None
    );
    assert_eq!(inspect_properties(None), None);
}

#[test]
fn ten_match_rules_are_added() {
    let rules = match_rules();
    assert_eq!(rules.len(), 10);
    assert_eq!(
        rules[0],
        "type='signal',sender='org.freedesktop.NetworkManager',interface='org.freedesktop.DBus.Properties',member='PropertiesChanged',arg0='org.freedesktop.NetworkManager'"
    );
    assert_eq!(
        rules[7],
        "type='signal',sender='org.freedesktop.NetworkManager',interface='org.freedesktop.NetworkManager.Device',member='StateChanged'"
    );
    assert_eq!(
        rules[9],
        "type='signal',sender='org.freedesktop.DBus',interface='org.freedesktop.DBus',member='NameOwnerChanged',arg0='org.freedesktop.NetworkManager'"
    );
}

#[test]
fn what_a_probe_reads_is_watched() {
    let active = || "/active/7".to_string();
    for (request, interface, name) in [
        (
            Request::AccessPoint,
            "org.freedesktop.NetworkManager.Device.Wireless",
            "ActiveAccessPoint",
        ),
        (
            Request::ActiveConnection,
            "org.freedesktop.NetworkManager.Device",
            "ActiveConnection",
        ),
        (
            Request::State { active: active() },
            "org.freedesktop.NetworkManager.Connection.Active",
            "State",
        ),
        (
            Request::Default4 { active: active() },
            "org.freedesktop.NetworkManager.Connection.Active",
            "Default",
        ),
        (
            Request::Default6 { active: active() },
            "org.freedesktop.NetworkManager.Connection.Active",
            "Default6",
        ),
        (
            Request::Connectivity,
            "org.freedesktop.NetworkManager",
            "Connectivity",
        ),
    ] {
        assert_eq!(request.property(), (interface, name));
        assert_eq!(
            inspect_properties(Some((interface.into(), vec![name.into()]))),
            Some(Event::NetworkChanged)
        );
    }
    let uuid = Request::Uuid { active: active() };
    assert_eq!(
        uuid.property(),
        ("org.freedesktop.NetworkManager.Connection.Active", "Uuid")
    );
    let ssid = Request::Ssid {
        access_point: "/ap/1".into(),
    };
    assert_eq!(
        ssid.property(),
        ("org.freedesktop.NetworkManager.AccessPoint", "Ssid")
    );
}
