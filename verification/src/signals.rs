//! The D-Bus signals that call for a fresh read of the network.

use vstd::prelude::*;

use crate::probe::RequestView;
use crate::text;
use crate::wifi::{
    Event, DBUS_PROPS_IFACE, DBUS_SERVICE, NM_ACTIVE_CONN_IFACE, NM_DEVICE_IFACE, NM_IFACE,
    NM_SERVICE, NM_WIRELESS_IFACE,
};

verus! {

/// NetworkManager reports a device that comes, goes or changes state, a
/// connection that changes state, or a change of its own; or the bus reports
/// a service that comes or goes.
pub open spec fn lifecycle_signal(interface: Option<Seq<char>>, member: Option<Seq<char>>) -> bool {
    ||| interface == Some(NM_IFACE@) && (member == Some("DeviceAdded"@) || member == Some(
        "DeviceRemoved"@,
    ) || member == Some("StateChanged"@))
    ||| interface == Some(NM_DEVICE_IFACE@) && member == Some("StateChanged"@)
    ||| interface == Some(NM_ACTIVE_CONN_IFACE@) && member == Some("StateChanged"@)
    ||| interface == Some(DBUS_SERVICE@) && member == Some("NameOwnerChanged"@)
}

fn is_some_text(value: Option<&str>, text: &str) -> (r: bool)
    ensures
        r == (text::opt_str(value) == Some(text@)),
{
    match value {
        Some(value) => text::same(value, text),
        None => false,
    }
}

/// Whether a signal says that something came, went or changed state.
pub fn is_lifecycle_signal(interface: Option<&str>, member: Option<&str>) -> (r: bool)
    ensures
        r == lifecycle_signal(text::opt_str(interface), text::opt_str(member)),
{
    (is_some_text(interface, NM_IFACE) && (is_some_text(member, "DeviceAdded") || is_some_text(
        member,
        "DeviceRemoved",
    ) || is_some_text(member, "StateChanged"))) || (is_some_text(interface, NM_DEVICE_IFACE)
        && is_some_text(member, "StateChanged")) || (is_some_text(interface, NM_ACTIVE_CONN_IFACE)
        && is_some_text(member, "StateChanged")) || (is_some_text(interface, DBUS_SERVICE)
        && is_some_text(member, "NameOwnerChanged"))
}

/// A property among those that changed bears on the state of the network:
/// connectivity or the primary connection of NetworkManager, the state of a
/// device or its connection, the access point or connection of an adapter, the
/// state or either default route of a connection.
pub open spec fn network_property_changed(
    interface: Seq<char>,
    changed: Seq<Seq<char>>,
) -> bool {
    ||| interface == NM_IFACE@ && (changed.contains("Connectivity"@) || changed.contains(
        "PrimaryConnection"@,
    ))
    ||| interface == NM_DEVICE_IFACE@ && (changed.contains("State"@) || changed.contains(
        "ActiveConnection"@,
    ))
    ||| interface == NM_WIRELESS_IFACE@ && (changed.contains("ActiveAccessPoint"@)
        || changed.contains("ActiveConnection"@))
    ||| interface == NM_ACTIVE_CONN_IFACE@ && (changed.contains("State"@) || changed.contains(
        "Default"@,
    ) || changed.contains("Default6"@))
}

fn has_text(list: &Vec<String>, text: &str) -> (r: bool)
    ensures
        r == text::texts(list@).contains(text@),
{
    for i in 0..list.len()
        invariant
            forall|j: int| 0 <= j < i ==> (#[trigger] text::texts(list@)[j]) != text@,
    {
        if text::same(list[i].as_str(), text) {
            assert(text::texts(list@)[i as int] == text@);
            return true;
        }
    }
    false
}

/// Whether the properties that changed bear on the state of the network.
pub fn affects_network_state(interface: &str, changed: &Vec<String>) -> (r: bool)
    ensures
        r == network_property_changed(interface@, text::texts(changed@)),
{
    (text::same(interface, NM_IFACE) && (has_text(changed, "Connectivity") || has_text(
        changed,
        "PrimaryConnection",
    ))) || (text::same(interface, NM_DEVICE_IFACE) && (has_text(changed, "State") || has_text(
        changed,
        "ActiveConnection",
    ))) || (text::same(
        interface,
        NM_WIRELESS_IFACE,
    ) && (has_text(changed, "ActiveAccessPoint") || has_text(changed, "ActiveConnection"))) || (
    text::same(interface, NM_ACTIVE_CONN_IFACE) && (has_text(changed, "State") || has_text(
        changed,
        "Default",
    ) || has_text(changed, "Default6")))
}

/// What is to be done about a message from the bus.
#[derive(Debug, Clone, Copy, PartialEq, Eq, Structural)]
pub enum Triage {
    /// It says nothing about the network.
    Ignore,
    /// It calls for a fresh read.
    Notify(Event),
    /// The properties that it lists decide.
    InspectProperties,
}

/// What is to be done about a message from the bus.
pub open spec fn triaged(
    is_signal: bool,
    interface: Option<Seq<char>>,
    member: Option<Seq<char>>,
) -> Triage {
    if !is_signal {
        Triage::Ignore
    } else if lifecycle_signal(interface, member) {
        Triage::Notify(Event::NetworkChanged)
    } else if interface == Some(DBUS_PROPS_IFACE@) && member == Some("PropertiesChanged"@) {
        Triage::InspectProperties
    } else {
        Triage::Ignore
    }
}

/// Says what is to be done about a message from the bus.
pub fn triage(is_signal: bool, interface: Option<&str>, member: Option<&str>) -> (verdict: Triage)
    ensures
        verdict == triaged(is_signal, text::opt_str(interface), text::opt_str(member)),
{
    if !is_signal {
        return Triage::Ignore;
    }
    if is_lifecycle_signal(interface, member) {
        return Triage::Notify(Event::NetworkChanged);
    }
    if is_some_text(interface, DBUS_PROPS_IFACE) && is_some_text(member, "PropertiesChanged") {
        return Triage::InspectProperties;
    }
    Triage::Ignore
}

/// Says what a list of changed properties calls for. One that could not be
/// decoded calls for nothing.
pub fn inspect_properties(listed: Option<(String, Vec<String>)>) -> (event: Option<Event>)
    ensures
        event == (match listed {
            Some((interface, changed)) if network_property_changed(
                interface@,
                text::texts(changed@),
            ) => Some(Event::NetworkChanged),
            _ => None,
        }),
{
    match listed {
        Some((interface, changed)) => {
            if affects_network_state(interface.as_str(), &changed) {
                Some(Event::NetworkChanged)
            } else {
                None
            }
        },
        None => None,
    }
}

/// The match rule for property changes of one of NetworkManager's interfaces.
pub open spec fn properties_rule(interface: Seq<char>) -> Seq<char> {
    "type='signal',sender='"@ + NM_SERVICE@ + "',interface='"@ + DBUS_PROPS_IFACE@
        + "',member='PropertiesChanged',arg0='"@ + interface + "'"@
}

/// The match rule for a signal of one of NetworkManager's interfaces.
pub open spec fn signal_rule(interface: Seq<char>, member: Seq<char>) -> Seq<char> {
    "type='signal',sender='"@ + NM_SERVICE@ + "',interface='"@ + interface + "',member='"@ + member
        + "'"@
}

/// The match rule for NetworkManager coming or going.
pub open spec fn owner_rule() -> Seq<char> {
    "type='signal',sender='org.freedesktop.DBus',interface='org.freedesktop.DBus',member='NameOwnerChanged',arg0='"@
        + NM_SERVICE@ + "'"@
}

/// All match rules, in the order in which they are added.
pub open spec fn all_rules() -> Seq<Seq<char>> {
    seq![
        properties_rule(NM_IFACE@),
        properties_rule(NM_DEVICE_IFACE@),
        properties_rule(NM_WIRELESS_IFACE@),
        properties_rule(NM_ACTIVE_CONN_IFACE@),
        signal_rule(NM_IFACE@, "DeviceAdded"@),
        signal_rule(NM_IFACE@, "DeviceRemoved"@),
        signal_rule(NM_IFACE@, "StateChanged"@),
        signal_rule(NM_DEVICE_IFACE@, "StateChanged"@),
        signal_rule(NM_ACTIVE_CONN_IFACE@, "StateChanged"@),
        owner_rule(),
    ]
}

fn make_properties_rule(interface: &str) -> (rule: String)
    ensures
        rule@ == properties_rule(interface@),
{
    "type='signal',sender='".to_string().concat(NM_SERVICE).concat("',interface='").concat(
        DBUS_PROPS_IFACE,
    ).concat("',member='PropertiesChanged',arg0='").concat(interface).concat("'")
}

fn make_signal_rule(interface: &str, member: &str) -> (rule: String)
    ensures
        rule@ == signal_rule(interface@, member@),
{
    "type='signal',sender='".to_string().concat(NM_SERVICE).concat("',interface='").concat(
        interface,
    ).concat("',member='").concat(member).concat("'")
}

/// All match rules, in the order in which they are added.
pub fn match_rules() -> (rules: Vec<String>)
    ensures
        text::texts(rules@) == all_rules(),
{
    let mut rules: Vec<String> = Vec::new();
    rules.push(make_properties_rule(NM_IFACE));
    rules.push(make_properties_rule(NM_DEVICE_IFACE));
    rules.push(make_properties_rule(NM_WIRELESS_IFACE));
    rules.push(make_properties_rule(NM_ACTIVE_CONN_IFACE));
    rules.push(make_signal_rule(NM_IFACE, "DeviceAdded"));
    rules.push(make_signal_rule(NM_IFACE, "DeviceRemoved"));
    rules.push(make_signal_rule(NM_IFACE, "StateChanged"));
    rules.push(make_signal_rule(NM_DEVICE_IFACE, "StateChanged"));
    rules.push(make_signal_rule(NM_ACTIVE_CONN_IFACE, "StateChanged"));
    rules.push(
        "type='signal',sender='org.freedesktop.DBus',interface='org.freedesktop.DBus',member='NameOwnerChanged',arg0='".to_string().concat(
            NM_SERVICE,
        ).concat("'"),
    );
    rules
}

/// Every signal and every property change that calls for a fresh read is one
/// that the match rules subscribe to.
pub proof fn relevant_signals_are_subscribed(
    interface: Seq<char>,
    member: Seq<char>,
    changed: Seq<Seq<char>>,
)
    ensures
        lifecycle_signal(Some(interface), Some(member)) ==> all_rules().contains(
            if interface == DBUS_SERVICE@ {
                owner_rule()
            } else {
                signal_rule(interface, member)
            },
        ),
        network_property_changed(interface, changed) ==> all_rules().contains(
            properties_rule(interface),
        ),
{
    let rules = all_rules();
    if network_property_changed(interface, changed) {
        assert(rules[0] == properties_rule(NM_IFACE@));
        assert(rules[1] == properties_rule(NM_DEVICE_IFACE@));
        assert(rules[2] == properties_rule(NM_WIRELESS_IFACE@));
        assert(rules[3] == properties_rule(NM_ACTIVE_CONN_IFACE@));
    }
    if lifecycle_signal(Some(interface), Some(member)) {
        reveal_strlit("org.freedesktop.DBus");
        reveal_strlit("org.freedesktop.NetworkManager");
        reveal_strlit("org.freedesktop.NetworkManager.Device");
        reveal_strlit("org.freedesktop.NetworkManager.Connection.Active");
        assert(NM_IFACE@.len() != DBUS_SERVICE@.len());
        assert(NM_DEVICE_IFACE@.len() != DBUS_SERVICE@.len());
        assert(NM_ACTIVE_CONN_IFACE@.len() != DBUS_SERVICE@.len());
        assert(rules[4] == signal_rule(NM_IFACE@, "DeviceAdded"@));
        assert(rules[5] == signal_rule(NM_IFACE@, "DeviceRemoved"@));
        assert(rules[6] == signal_rule(NM_IFACE@, "StateChanged"@));
        assert(rules[7] == signal_rule(NM_DEVICE_IFACE@, "StateChanged"@));
        assert(rules[8] == signal_rule(NM_ACTIVE_CONN_IFACE@, "StateChanged"@));
        assert(rules[9] == owner_rule());
    }
}

/// Whatever a probe of a device reads is watched: a change of the association,
/// the activation, either default route or the connectivity calls for a fresh
/// read. What identifies an access point or a connection is not watched by
/// itself; another one is a change of the association.
pub proof fn changes_of_what_is_read_call_for_a_read(
    request: RequestView,
    changed: Seq<Seq<char>>,
)
    requires
        !(request is Ssid || request is Uuid),
        changed.contains(request.property().1),
    ensures
        network_property_changed(request.property().0, changed),
{
}

/// Which signals are acted upon at once: a device that comes or goes, a change
/// of state of NetworkManager, of a device or of a connection, and a service
/// that comes or goes; nothing else is, and no message that is not a signal.
pub proof fn lifecycle_signals_notify(
    is_signal: bool,
    interface: Option<Seq<char>>,
    member: Option<Seq<char>>,
)
    ensures
        triaged(is_signal, interface, member) == Triage::Notify(Event::NetworkChanged) <==> {
            &&& is_signal
            &&& {
                ||| member == Some("DeviceAdded"@) && interface == Some(
                    "org.freedesktop.NetworkManager"@,
                )
                ||| member == Some("DeviceRemoved"@) && interface == Some(
                    "org.freedesktop.NetworkManager"@,
                )
                ||| member == Some("StateChanged"@) && (interface == Some(
                    "org.freedesktop.NetworkManager"@,
                ) || interface == Some("org.freedesktop.NetworkManager.Device"@) || interface
                    == Some("org.freedesktop.NetworkManager.Connection.Active"@))
                ||| member == Some("NameOwnerChanged"@) && interface == Some(
                    "org.freedesktop.DBus"@,
                )
            }
        },
{
}

/// The properties that a signal lists are looked at exactly when it is the
/// signal that lists changed properties.
pub proof fn property_signals_are_inspected(
    is_signal: bool,
    interface: Option<Seq<char>>,
    member: Option<Seq<char>>,
)
    ensures
        triaged(is_signal, interface, member) == Triage::InspectProperties <==> is_signal
            && interface == Some("org.freedesktop.DBus.Properties"@) && member == Some(
            "PropertiesChanged"@,
        ),
{
    reveal_strlit("org.freedesktop.DBus.Properties");
    reveal_strlit("org.freedesktop.NetworkManager");
    reveal_strlit("org.freedesktop.NetworkManager.Device");
    reveal_strlit("org.freedesktop.NetworkManager.Connection.Active");
    reveal_strlit("org.freedesktop.DBus");
    reveal_strlit("PropertiesChanged");
    reveal_strlit("StateChanged");
    reveal_strlit("DeviceAdded");
    reveal_strlit("DeviceRemoved");
    reveal_strlit("NameOwnerChanged");
    assert("PropertiesChanged"@.len() == 17);
}

/// Changed properties bear on the network exactly when one of them does by
/// itself: a list of several is no more and no less than its parts, and an
/// empty list bears on nothing.
pub proof fn properties_count_one_by_one(
    interface: Seq<char>,
    a: Seq<Seq<char>>,
    b: Seq<Seq<char>>,
)
    ensures
        network_property_changed(interface, a + b) <==> network_property_changed(interface, a)
            || network_property_changed(interface, b),
        !network_property_changed(interface, Seq::empty()),
{
    assert forall|name: Seq<char>| #[trigger] (a + b).contains(name) <==> a.contains(name)
        || b.contains(name) by {
        if a.contains(name) {
            let i = a.index_of(name);
            assert((a + b)[i] == name);
        }
        if b.contains(name) {
            let i = b.index_of(name);
            assert((a + b)[a.len() + i] == name);
        }
    }
}

/// Which single property bears on the network: the connectivity and the primary
/// connection of NetworkManager; the state and the connection of a device; the
/// access point and the connection of an adapter; the state and the IPv4 and
/// IPv6 default routes of a connection. No other property of any interface does.
pub proof fn single_properties_that_count(interface: Seq<char>, name: Seq<char>)
    ensures
        network_property_changed(interface, seq![name]) <==> {
            ||| interface == "org.freedesktop.NetworkManager"@ && (name == "Connectivity"@ || name
                == "PrimaryConnection"@)
            ||| interface == "org.freedesktop.NetworkManager.Device"@ && (name == "State"@ || name
                == "ActiveConnection"@)
            ||| interface == "org.freedesktop.NetworkManager.Device.Wireless"@ && (name
                == "ActiveAccessPoint"@ || name == "ActiveConnection"@)
            ||| interface == "org.freedesktop.NetworkManager.Connection.Active"@ && (name
                == "State"@ || name == "Default"@ || name == "Default6"@)
        },
{
    assert(seq![name][0] == name);
    assert(forall|other: Seq<char>| #[trigger] seq![name].contains(other) <==> other == name);
}

/// The match rules, written out: property changes and signals of NetworkManager
/// by their interface, and the coming and going of NetworkManager itself.
pub proof fn rules_are_written_out(interface: Seq<char>, member: Seq<char>)
    ensures
        properties_rule(interface)
            == "type='signal',sender='org.freedesktop.NetworkManager',interface='org.freedesktop.DBus.Properties',member='PropertiesChanged',arg0='"@
            + interface + "'"@,
        signal_rule(interface, member)
            == "type='signal',sender='org.freedesktop.NetworkManager',interface='"@ + interface
            + "',member='"@ + member + "'"@,
        owner_rule()
            == "type='signal',sender='org.freedesktop.DBus',interface='org.freedesktop.DBus',member='NameOwnerChanged',arg0='org.freedesktop.NetworkManager'"@,
        all_rules().len() == 10,
{
    reveal_strlit("type='signal',sender='");
    reveal_strlit("org.freedesktop.NetworkManager");
    reveal_strlit("',interface='");
    reveal_strlit("org.freedesktop.DBus.Properties");
    reveal_strlit("',member='PropertiesChanged',arg0='");
    reveal_strlit(
        "type='signal',sender='org.freedesktop.NetworkManager',interface='org.freedesktop.DBus.Properties',member='PropertiesChanged',arg0='",
    );
    reveal_strlit("type='signal',sender='org.freedesktop.NetworkManager',interface='");
    reveal_strlit(
        "type='signal',sender='org.freedesktop.DBus',interface='org.freedesktop.DBus',member='NameOwnerChanged',arg0='",
    );
    reveal_strlit(
        "type='signal',sender='org.freedesktop.DBus',interface='org.freedesktop.DBus',member='NameOwnerChanged',arg0='org.freedesktop.NetworkManager'",
    );
    reveal_strlit("'");
    assert("type='signal',sender='org.freedesktop.NetworkManager',interface='org.freedesktop.DBus.Properties',member='PropertiesChanged',arg0='"@
        == "type='signal',sender='"@ + NM_SERVICE@ + "',interface='"@ + DBUS_PROPS_IFACE@
        + "',member='PropertiesChanged',arg0='"@);
    assert("type='signal',sender='org.freedesktop.NetworkManager',interface='"@
        == "type='signal',sender='"@ + NM_SERVICE@ + "',interface='"@);
}

} // verus!
