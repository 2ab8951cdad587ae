//! Non-secret configuration and the rule that decides who may get credentials.

use vstd::prelude::*;

use crate::paths::{self, Environment};
use crate::text;
use crate::wifi::{Connectivity, NetworkState, NetworkView};

verus! {

/// A Wi-Fi name on which portal login is permitted. With a connection UUID,
/// only the NetworkManager profile of that UUID is meant.
#[derive(Debug, PartialEq, Eq)]
pub struct Target {
    pub ssid: String,
    pub connection_uuid: Option<String>,
}

/// What a [`Target`] says.
pub struct TargetView {
    pub ssid: Seq<char>,
    pub connection_uuid: Option<Seq<char>>,
}

impl View for Target {
    type V = TargetView;

    open spec fn view(&self) -> TargetView {
        TargetView { ssid: self.ssid@, connection_uuid: text::opt_text(self.connection_uuid) }
    }
}

impl TargetView {
    /// The target names this connection: the SSID is the same, character by
    /// character, and so is the UUID where the target has one.
    pub open spec fn covers(self, ssid: Seq<char>, connection_uuid: Seq<char>) -> bool {
        &&& self.ssid == ssid
        &&& self.connection_uuid matches Some(uuid) ==> uuid == connection_uuid
    }
}

impl Target {
    /// Whether the target names this connection.
    pub fn covers(&self, ssid: &str, connection_uuid: &str) -> (r: bool)
        ensures
            r == self@.covers(ssid@, connection_uuid@),
    {
        text::same(self.ssid.as_str(), ssid) && match &self.connection_uuid {
            Some(uuid) => text::same(uuid.as_str(), connection_uuid),
            None => true,
        }
    }
}

impl Clone for Target {
    fn clone(&self) -> (copy: Self)
        ensures
            copy@ == self@,
    {
        let connection_uuid = match &self.connection_uuid {
            Some(uuid) => Some(uuid.clone()),
            None => None,
        };
        Target { ssid: self.ssid.clone(), connection_uuid }
    }
}

impl From<&str> for Target {
    fn from(ssid: &str) -> (target: Target)
        ensures
            target@ == (TargetView { ssid: ssid@, connection_uuid: None }),
    {
        Target { ssid: ssid.to_string(), connection_uuid: None }
    }
}

impl vstd::std_specs::convert::FromSpecImpl<&str> for Target {
    open spec fn obeys_from_spec() -> bool {
        false
    }

    open spec fn from_spec(ssid: &str) -> Target {
        arbitrary()
    }
}

/// Why the active Wi-Fi connection may or may not receive portal credentials.
/// Both automatic and explicit login use this same classification.
#[derive(Debug, Clone, Copy, PartialEq, Eq)]
pub enum PortalPermission<'a> {
    Disconnected,
    OtherNetwork(&'a str),
    Connecting(&'a str),
    TargetNotDefault(&'a str),
    Allowed { ssid: &'a str, connection_uuid: &'a str, connectivity: Connectivity },
}

/// What a [`PortalPermission`] says.
pub enum PermissionView {
    Disconnected,
    OtherNetwork(Seq<char>),
    Connecting(Seq<char>),
    TargetNotDefault(Seq<char>),
    Allowed { ssid: Seq<char>, connection_uuid: Seq<char>, connectivity: Connectivity },
}

impl<'a> View for PortalPermission<'a> {
    type V = PermissionView;

    open spec fn view(&self) -> PermissionView {
        match *self {
            PortalPermission::Disconnected => PermissionView::Disconnected,
            PortalPermission::OtherNetwork(ssid) => PermissionView::OtherNetwork(ssid@),
            PortalPermission::Connecting(ssid) => PermissionView::Connecting(ssid@),
            PortalPermission::TargetNotDefault(ssid) => PermissionView::TargetNotDefault(ssid@),
            PortalPermission::Allowed {
                ssid,
                connection_uuid,
                connectivity,
            } => PermissionView::Allowed {
                ssid: ssid@,
                connection_uuid: connection_uuid@,
                connectivity,
            },
        }
    }
}

/// Non-secret choices made through the command line. Passwords live only in
/// the system keyring, and the portal URLs live in `portal`.
#[derive(Debug)]
pub struct Config {
    /// Wi-Fi names on which portal login is permitted.
    pub targets: Vec<Target>,
    /// Portal username. Passwords are stored separately in the system keyring.
    pub username: Option<String>,
}

/// What a [`Config`] says.
pub struct ConfigView {
    pub targets: Seq<TargetView>,
    pub username: Option<Seq<char>>,
}

impl View for Config {
    type V = ConfigView;

    open spec fn view(&self) -> ConfigView {
        ConfigView {
            targets: self.targets@.map_values(|target: Target| target@),
            username: text::opt_text(self.username),
        }
    }
}

impl ConfigView {
    /// Some target has this name.
    pub open spec fn names(self, ssid: Seq<char>) -> bool {
        exists|i: int| 0 <= i < self.targets.len() && (#[trigger] self.targets[i]).ssid == ssid
    }

    /// Some target names this connection.
    pub open spec fn covers(self, ssid: Seq<char>, connection_uuid: Seq<char>) -> bool {
        exists|i: int|
            0 <= i < self.targets.len() && (#[trigger] self.targets[i]).covers(
                ssid,
                connection_uuid,
            )
    }

    /// The standing of a network under this configuration.
    pub open spec fn permission(self, network: NetworkView) -> PermissionView {
        match network {
            NetworkView::Disconnected => PermissionView::Disconnected,
            NetworkView::Connected {
                ssid,
                connection_uuid,
                is_activated,
                is_default,
                connectivity,
            } => if !self.covers(ssid, connection_uuid) {
                PermissionView::OtherNetwork(ssid)
            } else if !is_activated {
                PermissionView::Connecting(ssid)
            } else if !is_default {
                PermissionView::TargetNotDefault(ssid)
            } else {
                PermissionView::Allowed { ssid, connection_uuid, connectivity }
            },
        }
    }

    /// The first target whose name is blank.
    pub open spec fn first_blank_target(self, index: int) -> bool {
        &&& 0 <= index < self.targets.len()
        &&& text::blank(self.targets[index].ssid)
        &&& forall|i: int| 0 <= i < index ==> !text::blank((#[trigger] self.targets[i]).ssid)
    }

    /// Every target has a name, and the username, where there is one, is not
    /// blank.
    pub open spec fn valid(self) -> bool {
        &&& forall|i: int|
            0 <= i < self.targets.len() ==> !text::blank((#[trigger] self.targets[i]).ssid)
        &&& self.username matches Some(username) ==> !text::blank(username)
    }
}

impl Clone for Config {
    fn clone(&self) -> (copy: Self)
        ensures
            copy@ == self@,
    {
        let mut targets: Vec<Target> = Vec::new();
        for i in 0..self.targets.len()
            invariant
                targets@.len() == i,
                forall|j: int| 0 <= j < i ==> (#[trigger] targets@[j])@ == self.targets@[j]@,
        {
            targets.push(self.targets[i].clone());
        }
        let username = match &self.username {
            Some(username) => Some(username.clone()),
            None => None,
        };
        let copy = Config { targets, username };
        assert(copy@.targets == self@.targets);
        copy
    }
}

impl Default for Config {
    /// No target and no username.
    fn default() -> (config: Self)
        ensures
            config@ == (ConfigView { targets: Seq::empty(), username: None }),
    {
        let config = Config { targets: Vec::new(), username: None };
        assert(config@.targets == Seq::<TargetView>::empty());
        config
    }
}

impl Config {
    /// Rejects a blank target name, the first one by its position, and then a
    /// blank username.
    pub fn validate(&self) -> (r: Result<(), String>)
        ensures
            r is Ok <==> self@.valid(),
            r matches Err(message) ==> {
                ||| exists|i: int| #[trigger]
                    self@.first_blank_target(i) && message@ == "targets["@ + text::decimal_text(
                        i as nat,
                    ) + "] must not be empty"@
                ||| {
                    &&& forall|i: int| !self@.first_blank_target(i)
                    &&& message@ == "username must not be empty"@
                }
            },
    {
        for index in 0..self.targets.len()
            invariant
                forall|i: int| 0 <= i < index ==> !text::blank((#[trigger] self@.targets[i]).ssid),
        {
            if text::is_blank(self.targets[index].ssid.as_str()) {
                let message = text::concat3(
                    "targets[",
                    text::decimal(index as u64).as_str(),
                    "] must not be empty",
                );
                assert(self@.first_blank_target(index as int));
                return Err(message);
            }
        }
        match &self.username {
            Some(username) => {
                if text::is_blank(username.as_str()) {
                    return Err("username must not be empty".to_string());
                }
            },
            None => {},
        }
        Ok(())
    }

    /// Whether some target has exactly this name.
    pub fn is_target(&self, ssid: &str) -> (r: bool)
        ensures
            r == self@.names(ssid@),
    {
        for i in 0..self.targets.len()
            invariant
                forall|j: int| 0 <= j < i ==> (#[trigger] self@.targets[j]).ssid != ssid@,
        {
            if text::same(self.targets[i].ssid.as_str(), ssid) {
                assert(self@.targets[i as int].ssid == ssid@);
                return true;
            }
        }
        false
    }

    /// Whether some target names this connection.
    pub fn covers(&self, ssid: &str, connection_uuid: &str) -> (r: bool)
        ensures
            r == self@.covers(ssid@, connection_uuid@),
    {
        for i in 0..self.targets.len()
            invariant
                forall|j: int|
                    0 <= j < i ==> !(#[trigger] self@.targets[j]).covers(
                        ssid@,
                        connection_uuid@,
                    ),
        {
            if self.targets[i].covers(ssid, connection_uuid) {
                assert(self@.targets[i as int].covers(ssid@, connection_uuid@));
                return true;
            }
        }
        false
    }

    /// The standing of a network under this configuration.
    pub fn portal_permission<'a>(&self, network: &'a NetworkState) -> (permission: PortalPermission<
        'a,
    >)
        ensures
            permission@ == self@.permission(network@),
    {
        match network {
            NetworkState::Disconnected => PortalPermission::Disconnected,
            NetworkState::Connected {
                ssid,
                connection_uuid,
                is_activated,
                is_default,
                connectivity,
            } => {
                if !self.covers(ssid.as_str(), connection_uuid.as_str()) {
                    PortalPermission::OtherNetwork(ssid.as_str())
                } else if !*is_activated {
                    PortalPermission::Connecting(ssid.as_str())
                } else if !*is_default {
                    PortalPermission::TargetNotDefault(ssid.as_str())
                } else {
                    PortalPermission::Allowed {
                        ssid: ssid.as_str(),
                        connection_uuid: connection_uuid.as_str(),
                        connectivity: *connectivity,
                    }
                }
            },
        }
    }
}

/// The configuration that setup writes for a username: the one target `R-VIT`.
pub open spec fn setup_view(username: Seq<char>) -> ConfigView {
    ConfigView {
        targets: seq![TargetView { ssid: "R-VIT"@, connection_uuid: None }],
        username: Some(username),
    }
}

/// The configuration that setup writes for a username.
pub fn setup(username: String) -> (config: Config)
    ensures
        config@ == setup_view(username@),
{
    let mut targets: Vec<Target> = Vec::new();
    targets.push(Target::from("R-VIT"));
    let config = Config { targets, username: Some(username) };
    assert(config@.targets == setup_view(username@).targets);
    config
}

/// The configuration file.
pub fn config_path(env: &Environment) -> (path: Result<Vec<u8>, String>)
    ensures
        paths::found(
            path,
            paths::two_below(paths::config_root(*env), "wifilogin"@, "config.toml"@),
        ),
{
    paths::below(paths::config_dir(env), "wifilogin", "config.toml")
}

/// Credentials are permitted exactly on a Wi-Fi connection that a target
/// names, that is active, and that is the default route.
pub proof fn permission_needs_active_default_target(config: ConfigView, network: NetworkView)
    ensures
        config.permission(network) is Allowed <==> (network matches NetworkView::Connected {
            ssid,
            connection_uuid,
            is_activated,
            is_default,
            ..
        } && config.covers(ssid, connection_uuid) && is_activated && is_default),
{
}

/// A connection is covered only under a name on the target list, and where no
/// target asks for a profile the name is all that counts.
pub proof fn targets_match_by_exact_name(
    config: ConfigView,
    ssid: Seq<char>,
    connection_uuid: Seq<char>,
)
    ensures
        config.covers(ssid, connection_uuid) ==> config.names(ssid),
        (forall|i: int|
            0 <= i < config.targets.len() ==> (#[trigger] config.targets[i]).connection_uuid
                is None) ==> (config.covers(ssid, connection_uuid) <==> config.names(ssid)),
{
    if config.covers(ssid, connection_uuid) {
        let i = choose|i: int|
            0 <= i < config.targets.len() && (#[trigger] config.targets[i]).covers(
                ssid,
                connection_uuid,
            );
        assert(config.targets[i].ssid == ssid);
    }
    if config.names(ssid) {
        let i = choose|i: int|
            0 <= i < config.targets.len() && (#[trigger] config.targets[i]).ssid == ssid;
        assert(config.targets[i].connection_uuid is None ==> config.targets[i].covers(
            ssid,
            connection_uuid,
        ));
    }
}

/// The configuration that setup writes is valid for every username that is
/// not blank.
pub proof fn setup_is_valid(username: Seq<char>)
    requires
        !text::blank(username),
    ensures
        setup_view(username).valid(),
        setup_view(username).names("R-VIT"@),
{
    reveal_strlit("R-VIT");
    assert(setup_view(username).targets[0].ssid[0] == 'R');
    assert(setup_view(username).targets[0].ssid == "R-VIT"@);
}

/// A connection is covered exactly when some target has its name and either
/// names no profile or names the connection's own; a name is on the list
/// exactly when some target has it.
pub proof fn coverage_is_by_name_and_profile(
    config: ConfigView,
    ssid: Seq<char>,
    connection_uuid: Seq<char>,
)
    ensures
        config.covers(ssid, connection_uuid) <==> exists|i: int|
            0 <= i < config.targets.len() && (#[trigger] config.targets[i]).ssid == ssid && (
            config.targets[i].connection_uuid is None || config.targets[i].connection_uuid == Some(
                connection_uuid,
            )),
        config.names(ssid) <==> exists|i: int|
            0 <= i < config.targets.len() && (#[trigger] config.targets[i]).ssid == ssid,
{
    if config.covers(ssid, connection_uuid) {
        let i = choose|i: int|
            0 <= i < config.targets.len() && (#[trigger] config.targets[i]).covers(
                ssid,
                connection_uuid,
            );
        assert(config.targets[i].ssid == ssid);
    }
    if exists|i: int|
        0 <= i < config.targets.len() && (#[trigger] config.targets[i]).ssid == ssid && (
        config.targets[i].connection_uuid is None || config.targets[i].connection_uuid == Some(
            connection_uuid,
        )) {
        let i = choose|i: int|
            0 <= i < config.targets.len() && (#[trigger] config.targets[i]).ssid == ssid && (
            config.targets[i].connection_uuid is None || config.targets[i].connection_uuid == Some(
                connection_uuid,
            ));
        assert(config.targets[i].covers(ssid, connection_uuid));
    }
}

/// A longer target list allows more: what one part of it covers, all of it
/// covers, and nothing else.
pub proof fn coverage_adds_up(
    a: Seq<TargetView>,
    b: Seq<TargetView>,
    username: Option<Seq<char>>,
    ssid: Seq<char>,
    connection_uuid: Seq<char>,
)
    ensures
        (ConfigView { targets: a + b, username }).covers(ssid, connection_uuid) <==> (ConfigView {
            targets: a,
            username,
        }).covers(ssid, connection_uuid) || (ConfigView { targets: b, username }).covers(
            ssid,
            connection_uuid,
        ),
        !(ConfigView { targets: Seq::empty(), username }).covers(ssid, connection_uuid),
{
    let first = ConfigView { targets: a, username };
    let second = ConfigView { targets: b, username };
    let all = ConfigView { targets: a + b, username };
    if all.covers(ssid, connection_uuid) {
        let i = choose|i: int|
            0 <= i < all.targets.len() && (#[trigger] all.targets[i]).covers(
                ssid,
                connection_uuid,
            );
        if i < a.len() {
            assert(first.targets[i].covers(ssid, connection_uuid));
        } else {
            assert(second.targets[i - a.len()].covers(ssid, connection_uuid));
        }
    }
    if first.covers(ssid, connection_uuid) {
        let i = choose|i: int|
            0 <= i < first.targets.len() && (#[trigger] first.targets[i]).covers(
                ssid,
                connection_uuid,
            );
        assert(all.targets[i].covers(ssid, connection_uuid));
    }
    if second.covers(ssid, connection_uuid) {
        let i = choose|i: int|
            0 <= i < second.targets.len() && (#[trigger] second.targets[i]).covers(
                ssid,
                connection_uuid,
            );
        assert(all.targets[a.len() + i].covers(ssid, connection_uuid));
    }
}

/// The standing of a connection, by what is missing: a connection that no
/// target covers is another network, whatever its activation and route; a
/// covered one that is not active is connecting, whatever its route; an active
/// one without the default route is no more than that; and all others are
/// allowed. Each standing is given in that case alone, for that connection,
/// and the connectivity has no part in it.
pub proof fn standing_tells_what_is_missing(
    config: ConfigView,
    ssid: Seq<char>,
    connection_uuid: Seq<char>,
    is_activated: bool,
    is_default: bool,
    connectivity: Connectivity,
)
    ensures
        ({
            let permission = config.permission(
                NetworkView::Connected {
                    ssid,
                    connection_uuid,
                    is_activated,
                    is_default,
                    connectivity,
                },
            );
            let covered = config.covers(ssid, connection_uuid);
            &&& permission is OtherNetwork <==> !covered
            &&& permission is Connecting <==> covered && !is_activated
            &&& permission is TargetNotDefault <==> covered && is_activated && !is_default
            &&& permission is Allowed <==> covered && is_activated && is_default
            &&& !(permission is Disconnected)
            &&& permission matches PermissionView::OtherNetwork(name) ==> name == ssid
            &&& permission matches PermissionView::Connecting(name) ==> name == ssid
            &&& permission matches PermissionView::TargetNotDefault(name) ==> name == ssid
            &&& permission matches PermissionView::Allowed {
                ssid: name,
                connection_uuid: uuid,
                connectivity: assessed,
            } ==> name == ssid && uuid == connection_uuid && assessed == connectivity
        }),
        config.permission(NetworkView::Disconnected) is Disconnected,
{
}

/// A configuration is valid exactly when no target has a blank name and the
/// username, where there is one, is not blank; the profiles have no part in it.
pub proof fn valid_means_nothing_blank(config: ConfigView)
    ensures
        config.valid() <==> {
            &&& !exists|i: int|
                0 <= i < config.targets.len() && text::blank((#[trigger] config.targets[i]).ssid)
            &&& config.username is None || !text::blank(config.username->0)
        },
        forall|i: int| #[trigger]
            config.first_blank_target(i) ==> 0 <= i < config.targets.len() && text::blank(
                config.targets[i].ssid,
            ) && !config.valid(),
        forall|i: int, j: int| #[trigger]
            config.first_blank_target(i) && 0 <= j < config.targets.len() && text::blank(
                (#[trigger] config.targets[j]).ssid,
            ) ==> i <= j,
{
}

/// Setup allows the network `R-VIT` under every profile and no other network,
/// and keeps the username.
pub proof fn setup_allows_one_network(
    username: Seq<char>,
    ssid: Seq<char>,
    connection_uuid: Seq<char>,
)
    ensures
        setup_view(username).covers(ssid, connection_uuid) <==> ssid == "R-VIT"@,
        setup_view(username).username == Some(username),
{
    assert(setup_view(username).targets[0].ssid == "R-VIT"@);
    coverage_is_by_name_and_profile(setup_view(username), ssid, connection_uuid);
}

/// Where some target has a blank name, there is a first one that has.
pub proof fn some_blank_target_is_first(config: ConfigView, index: int)
    requires
        0 <= index < config.targets.len(),
        text::blank(config.targets[index].ssid),
    ensures
        exists|i: int| #[trigger] config.first_blank_target(i),
    decreases index,
{
    if exists|i: int| 0 <= i < index && text::blank((#[trigger] config.targets[i]).ssid) {
        let i = choose|i: int| 0 <= i < index && text::blank((#[trigger] config.targets[i]).ssid);
        some_blank_target_is_first(config, i);
    } else {
        assert(config.first_blank_target(index));
    }
}

} // verus!
