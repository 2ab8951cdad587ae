//! What NetworkManager tells about the Wi-Fi connection.

use vstd::prelude::*;

use crate::failure::{Failure, FailureView};

verus! {

/// NetworkManager's connectivity assessment. It is deliberately distinct
/// from reachability: only `Portal` authorizes an automatic login attempt.
#[derive(Debug, Clone, Copy, PartialEq, Eq, Structural)]
pub enum Connectivity {
    Unknown,
    /// NetworkManager calls this assessment `None`.
    Absent,
    Portal,
    Limited,
    Full,
}

/// The assessment that NetworkManager encodes as `value`.
pub open spec fn connectivity_of(value: int) -> Connectivity {
    if value == 1 {
        Connectivity::Absent
    } else if value == 2 {
        Connectivity::Portal
    } else if value == 3 {
        Connectivity::Limited
    } else if value == 4 {
        Connectivity::Full
    } else {
        Connectivity::Unknown
    }
}

impl Connectivity {
    /// Decodes NetworkManager's number; what it does not define is `Unknown`.
    pub fn from_nm(value: u32) -> (c: Self)
        ensures
            c == connectivity_of(value as int),
    {
        match value {
            1 => Self::Absent,
            2 => Self::Portal,
            3 => Self::Limited,
            4 => Self::Full,
            _ => Self::Unknown,
        }
    }

    /// The name of the assessment.
    pub open spec fn text(self) -> Seq<char> {
        match self {
            Self::Unknown => "Unknown"@,
            Self::Absent => "None"@,
            Self::Portal => "Portal"@,
            Self::Limited => "Limited"@,
            Self::Full => "Full"@,
        }
    }

    /// The name of the assessment.
    pub fn name(&self) -> (s: &'static str)
        ensures
            s@ == self.text(),
    {
        match self {
            Self::Unknown => "Unknown",
            Self::Absent => "None",
            Self::Portal => "Portal",
            Self::Limited => "Limited",
            Self::Full => "Full",
        }
    }
}

/// Facts needed to decide whether portal credentials may be submitted.
#[derive(Debug, PartialEq, Eq)]
pub enum NetworkState {
    /// There is no Wi-Fi adapter, or it has no active access point.
    Disconnected,
    /// Wi-Fi is associated. `is_default` means NetworkManager uses that
    /// connection for the default route rather than Ethernet or a VPN.
    Connected {
        ssid: String,
        connection_uuid: String,
        is_activated: bool,
        is_default: bool,
        connectivity: Connectivity,
    },
}

/// What a [`NetworkState`] says.
pub enum NetworkView {
    Disconnected,
    Connected {
        ssid: Seq<char>,
        connection_uuid: Seq<char>,
        is_activated: bool,
        is_default: bool,
        connectivity: Connectivity,
    },
}

impl View for NetworkState {
    type V = NetworkView;

    open spec fn view(&self) -> NetworkView {
        match *self {
            NetworkState::Disconnected => NetworkView::Disconnected,
            NetworkState::Connected {
                ssid,
                connection_uuid,
                is_activated,
                is_default,
                connectivity,
            } => NetworkView::Connected {
                ssid: ssid@,
                connection_uuid: connection_uuid@,
                is_activated,
                is_default,
                connectivity,
            },
        }
    }
}

impl Clone for NetworkState {
    fn clone(&self) -> (copy: Self)
        ensures
            copy@ == self@,
    {
        match self {
            Self::Disconnected => Self::Disconnected,
            Self::Connected {
                ssid,
                connection_uuid,
                is_activated,
                is_default,
                connectivity,
            } => Self::Connected {
                ssid: ssid.clone(),
                connection_uuid: connection_uuid.clone(),
                is_activated: *is_activated,
                is_default: *is_default,
                connectivity: *connectivity,
            },
        }
    }
}

impl NetworkView {
    /// Wi-Fi owns the default route.
    pub open spec fn default_route(self) -> bool {
        self matches NetworkView::Connected { is_default: true, .. }
    }
}

impl NetworkState {
    /// Whether Wi-Fi owns the default route.
    pub fn is_default_route(&self) -> (r: bool)
        ensures
            r == self@.default_route(),
    {
        match self {
            Self::Connected { is_default, .. } => *is_default,
            Self::Disconnected => false,
        }
    }
}

/// The bus name of NetworkManager.
pub const NM_SERVICE: &'static str = "org.freedesktop.NetworkManager";

/// NetworkManager's root object.
pub const NM_PATH: &'static str = "/org/freedesktop/NetworkManager";

pub const NM_IFACE: &'static str = "org.freedesktop.NetworkManager";

pub const NM_DEVICE_IFACE: &'static str = "org.freedesktop.NetworkManager.Device";

pub const NM_WIRELESS_IFACE: &'static str = "org.freedesktop.NetworkManager.Device.Wireless";

pub const NM_AP_IFACE: &'static str = "org.freedesktop.NetworkManager.AccessPoint";

pub const NM_ACTIVE_CONN_IFACE: &'static str = "org.freedesktop.NetworkManager.Connection.Active";

pub const DBUS_PROPS_IFACE: &'static str = "org.freedesktop.DBus.Properties";

/// The bus itself, by its name and by its interface.
pub const DBUS_SERVICE: &'static str = "org.freedesktop.DBus";

/// The device type of a Wi-Fi adapter.
pub const DEVICE_TYPE_WIFI: u32 = 2;

/// The state of a connection that is up.
pub const ACTIVE_CONNECTION_ACTIVATED: u32 = 2;

/// D-Bus changes are intentionally collapsed: a fresh snapshot is more
/// reliable than attempting to interpret every transition in a signal.
#[derive(Debug, Clone, Copy, PartialEq, Eq, Structural)]
pub enum Event {
    NetworkChanged,
}

/// What a device turned out to be: its network, nothing, or an error.
pub enum ReadingView {
    Active(NetworkView),
    Inactive,
    Failed(FailureView),
}

/// What a device turned out to be.
pub open spec fn reading_view(reading: Result<Option<NetworkState>, Failure>) -> ReadingView {
    match reading {
        Ok(Some(network)) => ReadingView::Active(network@),
        Ok(None) => ReadingView::Inactive,
        Err(error) => ReadingView::Failed(error@),
    }
}

/// The first reading with the property `p`.
pub open spec fn first_reading(
    readings: Seq<ReadingView>,
    p: spec_fn(ReadingView) -> bool,
) -> Option<ReadingView>
    decreases readings.len(),
{
    if readings.len() == 0 {
        None
    } else if p(readings.first()) {
        Some(readings.first())
    } else {
        first_reading(readings.drop_first(), p)
    }
}

/// The network that counts among the readings of several devices: the first
/// that owns the default route, else the first that is there at all. Without
/// any, the first error counts, and without an error Wi-Fi is disconnected.
pub open spec fn chosen_network(readings: Seq<ReadingView>) -> Result<NetworkView, FailureView> {
    let owner = first_reading(
        readings,
        |r: ReadingView| r matches ReadingView::Active(network) && network.default_route(),
    );
    let active = first_reading(readings, |r: ReadingView| r is Active);
    let failed = first_reading(readings, |r: ReadingView| r is Failed);
    match (owner, active, failed) {
        (Some(ReadingView::Active(network)), _, _) => Ok(network),
        (_, Some(ReadingView::Active(network)), _) => Ok(network),
        (_, _, Some(ReadingView::Failed(error))) => Err(error),
        _ => Ok(NetworkView::Disconnected),
    }
}

/// What the devices that were read so far leave to choose from.
pub struct Selection {
    first_active: Option<NetworkState>,
    first_error: Option<Failure>,
}

/// What a [`Selection`] says.
pub struct SelectionView {
    pub first_active: Option<NetworkView>,
    pub first_error: Option<FailureView>,
}

impl View for Selection {
    type V = SelectionView;

    closed spec fn view(&self) -> SelectionView {
        SelectionView {
            first_active: match self.first_active {
                Some(network) => Some(network@),
                None => None,
            },
            first_error: match self.first_error {
                Some(error) => Some(error@),
                None => None,
            },
        }
    }
}

impl SelectionView {
    /// No device was read.
    pub open spec fn empty() -> Self {
        SelectionView { first_active: None, first_error: None }
    }

    /// One more device was read, and it does not own the default route.
    pub open spec fn observed(self, reading: ReadingView) -> Self {
        match reading {
            ReadingView::Active(network) => if self.first_active is None {
                SelectionView { first_active: Some(network), ..self }
            } else {
                self
            },
            ReadingView::Inactive => self,
            ReadingView::Failed(error) => if self.first_error is None {
                SelectionView { first_error: Some(error), ..self }
            } else {
                self
            },
        }
    }

    /// What counts when no device owns the default route.
    pub open spec fn outcome(self) -> Result<NetworkView, FailureView> {
        match (self.first_active, self.first_error) {
            (Some(network), _) => Ok(network),
            (None, Some(error)) => Err(error),
            (None, None) => Ok(NetworkView::Disconnected),
        }
    }

    /// What counts after the readings that are still to come, of which none
    /// is looked at any more once a device owns the default route.
    pub open spec fn concluded(self, readings: Seq<ReadingView>) -> Result<NetworkView, FailureView>
        decreases readings.len(),
    {
        if readings.len() == 0 {
            self.outcome()
        } else {
            match readings.first() {
                ReadingView::Active(network) if network.default_route() => Ok(network),
                reading => self.observed(reading).concluded(readings.drop_first()),
            }
        }
    }
}

impl Selection {
    /// No device was read.
    pub fn new() -> (selection: Self)
        ensures
            selection@ == SelectionView::empty(),
    {
        Selection { first_active: None, first_error: None }
    }

    /// Takes the reading of one more device. A network that owns the default
    /// route is handed back: nothing else needs to be read.
    pub fn observe(&mut self, reading: Result<Option<NetworkState>, Failure>) -> (found: Option<
        NetworkState,
    >)
        ensures
            match reading_view(reading) {
                ReadingView::Active(network) if network.default_route() => {
                    &&& found matches Some(owner) && owner@ == network
                    &&& final(self)@ == old(self)@
                },
                other => found is None && final(self)@ == old(self)@.observed(other),
            },
    {
        match reading {
            Ok(Some(network)) => {
                if network.is_default_route() {
                    return Some(network);
                }
                if self.first_active.is_none() {
                    self.first_active = Some(network);
                }
            },
            Ok(None) => {},
            Err(error) => {
                if self.first_error.is_none() {
                    self.first_error = Some(error);
                }
            },
        }
        None
    }

    /// What counts when no device owns the default route.
    pub fn finish(self) -> (r: Result<NetworkState, Failure>)
        ensures
            match r {
                Ok(network) => self@.outcome() == Ok::<NetworkView, FailureView>(network@),
                Err(error) => self@.outcome() == Err::<NetworkView, FailureView>(error@),
            },
    {
        match (self.first_active, self.first_error) {
            (Some(network), _) => Ok(network),
            (None, Some(error)) => Err(error),
            (None, None) => Ok(NetworkState::Disconnected),
        }
    }
}

/// Reading the devices one by one, and stopping at the first that owns the
/// default route, chooses among all of them.
pub proof fn selection_chooses_network(readings: Seq<ReadingView>)
    ensures
        SelectionView::empty().concluded(readings) == chosen_network(readings),
{
    lemma_concluded(SelectionView::empty(), readings);
}

proof fn lemma_concluded(seen: SelectionView, readings: Seq<ReadingView>)
    ensures
        ({
            let owner = first_reading(
                readings,
                |r: ReadingView| r matches ReadingView::Active(network) && network.default_route(),
            );
            let active = first_reading(readings, |r: ReadingView| r is Active);
            let failed = first_reading(readings, |r: ReadingView| r is Failed);
            let all = SelectionView {
                first_active: match (seen.first_active, active) {
                    (Some(network), _) => Some(network),
                    (None, Some(ReadingView::Active(network))) => Some(network),
                    _ => None,
                },
                first_error: match (seen.first_error, failed) {
                    (Some(error), _) => Some(error),
                    (None, Some(ReadingView::Failed(error))) => Some(error),
                    _ => None,
                },
            };
            &&& owner is Some ==> (owner matches Some(ReadingView::Active(network))
                && seen.concluded(readings) == Ok::<NetworkView, FailureView>(network))
            &&& active is Some ==> active->0 is Active
            &&& failed is Some ==> failed->0 is Failed
            &&& owner is None ==> seen.concluded(readings) == all.outcome()
        }),
    decreases readings.len(),
{
    if readings.len() > 0 {
        lemma_concluded(seen.observed(readings.first()), readings.drop_first());
    }
}

/// NetworkManager numbers its assessments: 1 to 4 are no connectivity, a portal,
/// limited and full connectivity, and every other number says nothing.
pub proof fn assessments_are_numbered(value: int)
    ensures
        connectivity_of(value) == Connectivity::Absent <==> value == 1,
        connectivity_of(value) == Connectivity::Portal <==> value == 2,
        connectivity_of(value) == Connectivity::Limited <==> value == 3,
        connectivity_of(value) == Connectivity::Full <==> value == 4,
        connectivity_of(value) == Connectivity::Unknown <==> value < 1 || value > 4,
{
}

proof fn lemma_first_reading(
    readings: Seq<ReadingView>,
    p: spec_fn(ReadingView) -> bool,
    i: int,
)
    requires
        0 <= i <= readings.len(),
        forall|j: int| 0 <= j < i ==> !p(#[trigger] readings[j]),
        i < readings.len() ==> p(readings[i]),
    ensures
        first_reading(readings, p) == (if i < readings.len() {
            Some(readings[i])
        } else {
            None
        }),
    decreases readings.len(),
{
    if readings.len() > 0 && i > 0 {
        assert(!p(readings[0]));
        let rest = readings.drop_first();
        assert forall|j: int| 0 <= j < i - 1 implies !p(#[trigger] rest[j]) by {
            assert(rest[j] == readings[j + 1]);
        }
        lemma_first_reading(rest, p, i - 1);
    }
}

/// The first device that owns the default route counts, whatever the others
/// are, also where an earlier one failed or is active without it.
pub proof fn default_route_counts_first(readings: Seq<ReadingView>, i: int)
    requires
        0 <= i < readings.len(),
        readings[i] matches ReadingView::Active(NetworkView::Connected { is_default: true, .. }),
        forall|j: int|
            0 <= j < i ==> !(#[trigger] readings[j] matches ReadingView::Active(
                NetworkView::Connected { is_default: true, .. },
            )),
    ensures
        SelectionView::empty().concluded(readings) == Ok::<NetworkView, FailureView>(
            readings[i]->Active_0,
        ),
{
    selection_chooses_network(readings);
    lemma_first_reading(
        readings,
        |r: ReadingView| r matches ReadingView::Active(network) && network.default_route(),
        i,
    );
}

/// Where no device owns the default route, the first active one counts; where
/// none is active either, the first failure; and where none failed, Wi-Fi is
/// disconnected.
pub proof fn others_count_in_turn(readings: Seq<ReadingView>, i: int)
    requires
        0 <= i <= readings.len(),
        forall|j: int|
            0 <= j < readings.len() ==> !(#[trigger] readings[j] matches ReadingView::Active(
                NetworkView::Connected { is_default: true, .. },
            )),
    ensures
        i < readings.len() && readings[i] is Active && (forall|j: int|
            0 <= j < i ==> !(#[trigger] readings[j] is Active))
            ==> SelectionView::empty().concluded(readings) == Ok::<NetworkView, FailureView>(
            readings[i]->Active_0,
        ),
        i < readings.len() && readings[i] is Failed && (forall|j: int|
            0 <= j < i ==> !(#[trigger] readings[j] is Failed)) && (forall|j: int|
            0 <= j < readings.len() ==> !(#[trigger] readings[j] is Active))
            ==> SelectionView::empty().concluded(readings) == Err::<NetworkView, FailureView>(
            readings[i]->Failed_0,
        ),
        (forall|j: int| 0 <= j < readings.len() ==> #[trigger] readings[j] is Inactive)
            ==> SelectionView::empty().concluded(readings) == Ok::<NetworkView, FailureView>(
            NetworkView::Disconnected,
        ),
{
    let end = readings.len() as int;
    selection_chooses_network(readings);
    lemma_first_reading(
        readings,
        |r: ReadingView| r matches ReadingView::Active(network) && network.default_route(),
        end,
    );
    let active = |r: ReadingView| r is Active;
    let failed = |r: ReadingView| r is Failed;
    if i < end && readings[i] is Active && (forall|j: int|
        0 <= j < i ==> !(#[trigger] readings[j] is Active)) {
        lemma_first_reading(readings, active, i);
    }
    if forall|j: int| 0 <= j < end ==> !(#[trigger] readings[j] is Active) {
        lemma_first_reading(readings, active, end);
    }
    if i < end && readings[i] is Failed && (forall|j: int|
        0 <= j < i ==> !(#[trigger] readings[j] is Failed)) {
        lemma_first_reading(readings, failed, i);
    }
    if forall|j: int| 0 <= j < end ==> #[trigger] readings[j] is Inactive {
        assert(forall|j: int| 0 <= j < end ==> !(#[trigger] readings[j] is Active));
        lemma_first_reading(readings, active, end);
        lemma_first_reading(readings, failed, end);
    }
}

} // verus!
