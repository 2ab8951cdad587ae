//! Reading one Wi-Fi device, property by property.

use vstd::prelude::*;

use crate::failure::{Failure, FailureView};
use crate::text;
use crate::wifi::{
    connectivity_of, reading_view, Connectivity, NetworkState, NetworkView, ReadingView,
    ACTIVE_CONNECTION_ACTIVATED, DEVICE_TYPE_WIFI, NM_ACTIVE_CONN_IFACE, NM_AP_IFACE,
    NM_DEVICE_IFACE, NM_IFACE, NM_WIRELESS_IFACE,
};

verus! {

/// Why a property was not read.
#[derive(Debug)]
pub enum ReadError {
    /// The object that has it cannot be addressed.
    Unreachable(Failure),
    /// The object does not give it.
    Unreadable(Failure),
}

/// What a [`ReadError`] says.
pub enum ReadErrorView {
    Unreachable(FailureView),
    Unreadable(FailureView),
}

impl View for ReadError {
    type V = ReadErrorView;

    open spec fn view(&self) -> ReadErrorView {
        match *self {
            ReadError::Unreachable(error) => ReadErrorView::Unreachable(error@),
            ReadError::Unreadable(error) => ReadErrorView::Unreadable(error@),
        }
    }
}

impl ReadErrorView {
    /// The failure that this means for a device, where `what` was being read.
    pub open spec fn failure(self, what: Seq<char>) -> FailureView {
        match self {
            Self::Unreachable(error) => error,
            Self::Unreadable(error) => error.context(what),
        }
    }
}

impl ReadError {
    fn failure(self, what: &str) -> (failure: Failure)
        ensures
            failure@ == self@.failure(what@),
    {
        match self {
            Self::Unreachable(error) => error,
            Self::Unreadable(error) => error.context(what),
        }
    }
}

/// The property that is to be read next.
#[derive(Debug)]
pub enum Request {
    /// The device's `ActiveAccessPoint`, a property of its wireless interface.
    AccessPoint,
    /// The `Ssid` of the access point at this path.
    Ssid { access_point: String },
    /// The device's `ActiveConnection`, a property of its base interface.
    ActiveConnection,
    /// The `Uuid` of the active connection at this path.
    Uuid { active: String },
    /// The `State` of the active connection.
    State { active: String },
    /// Whether the active connection owns the IPv4 default route.
    Default4 { active: String },
    /// Whether the active connection owns the IPv6 default route.
    Default6 { active: String },
    /// NetworkManager's `Connectivity`.
    Connectivity,
}

/// What a [`Request`] says.
pub enum RequestView {
    AccessPoint,
    Ssid { access_point: Seq<char> },
    ActiveConnection,
    Uuid { active: Seq<char> },
    State { active: Seq<char> },
    Default4 { active: Seq<char> },
    Default6 { active: Seq<char> },
    Connectivity,
}

impl View for Request {
    type V = RequestView;

    open spec fn view(&self) -> RequestView {
        match *self {
            Request::AccessPoint => RequestView::AccessPoint,
            Request::Ssid { access_point } => RequestView::Ssid { access_point: access_point@ },
            Request::ActiveConnection => RequestView::ActiveConnection,
            Request::Uuid { active } => RequestView::Uuid { active: active@ },
            Request::State { active } => RequestView::State { active: active@ },
            Request::Default4 { active } => RequestView::Default4 { active: active@ },
            Request::Default6 { active } => RequestView::Default6 { active: active@ },
            Request::Connectivity => RequestView::Connectivity,
        }
    }
}

impl RequestView {
    /// The interface that has the property, and the property's name.
    pub open spec fn property(self) -> (Seq<char>, Seq<char>) {
        match self {
            Self::AccessPoint => (NM_WIRELESS_IFACE@, "ActiveAccessPoint"@),
            Self::Ssid { .. } => (NM_AP_IFACE@, "Ssid"@),
            Self::ActiveConnection => (NM_DEVICE_IFACE@, "ActiveConnection"@),
            Self::Uuid { .. } => (NM_ACTIVE_CONN_IFACE@, "Uuid"@),
            Self::State { .. } => (NM_ACTIVE_CONN_IFACE@, "State"@),
            Self::Default4 { .. } => (NM_ACTIVE_CONN_IFACE@, "Default"@),
            Self::Default6 { .. } => (NM_ACTIVE_CONN_IFACE@, "Default6"@),
            Self::Connectivity => (NM_IFACE@, "Connectivity"@),
        }
    }
}

impl Request {
    /// The interface that has the property, and the property's name.
    pub fn property(&self) -> (property: (&'static str, &'static str))
        ensures
            (property.0@, property.1@) == self@.property(),
    {
        match self {
            Self::AccessPoint => (NM_WIRELESS_IFACE, "ActiveAccessPoint"),
            Self::Ssid { .. } => (NM_AP_IFACE, "Ssid"),
            Self::ActiveConnection => (NM_DEVICE_IFACE, "ActiveConnection"),
            Self::Uuid { .. } => (NM_ACTIVE_CONN_IFACE, "Uuid"),
            Self::State { .. } => (NM_ACTIVE_CONN_IFACE, "State"),
            Self::Default4 { .. } => (NM_ACTIVE_CONN_IFACE, "Default"),
            Self::Default6 { .. } => (NM_ACTIVE_CONN_IFACE, "Default6"),
            Self::Connectivity => (NM_IFACE, "Connectivity"),
        }
    }
}

/// What was read: a path or a text, bytes, a number or a flag.
#[derive(Debug)]
pub enum Reply {
    Text(Result<String, ReadError>),
    Bytes(Result<Vec<u8>, ReadError>),
    Number(Result<u32, ReadError>),
    Flag(Result<bool, ReadError>),
}

/// What a [`Reply`] says.
pub enum ReplyView {
    Text(Result<Seq<char>, ReadErrorView>),
    Bytes(Result<Seq<u8>, ReadErrorView>),
    Number(Result<u32, ReadErrorView>),
    Flag(Result<bool, ReadErrorView>),
}

impl View for Reply {
    type V = ReplyView;

    open spec fn view(&self) -> ReplyView {
        match *self {
            Reply::Text(Ok(text)) => ReplyView::Text(Ok(text@)),
            Reply::Text(Err(error)) => ReplyView::Text(Err(error@)),
            Reply::Bytes(Ok(bytes)) => ReplyView::Bytes(Ok(bytes@)),
            Reply::Bytes(Err(error)) => ReplyView::Bytes(Err(error@)),
            Reply::Number(Ok(number)) => ReplyView::Number(Ok(number)),
            Reply::Number(Err(error)) => ReplyView::Number(Err(error@)),
            Reply::Flag(Ok(flag)) => ReplyView::Flag(Ok(flag)),
            Reply::Flag(Err(error)) => ReplyView::Flag(Err(error@)),
        }
    }
}

/// What is known about a device so far.
#[derive(Debug)]
pub enum Probe {
    Start,
    AccessPoint { access_point: String },
    Named { ssid: String },
    Active { ssid: String, active: String },
    Identified { ssid: String, active: String, connection_uuid: String },
    Staged { ssid: String, active: String, connection_uuid: String, is_activated: bool },
    Unrouted4 { ssid: String, active: String, connection_uuid: String, is_activated: bool },
    Routed { ssid: String, connection_uuid: String, is_activated: bool, is_default: bool },
}

/// What a [`Probe`] says.
pub enum ProbeView {
    Start,
    AccessPoint { access_point: Seq<char> },
    Named { ssid: Seq<char> },
    Active { ssid: Seq<char>, active: Seq<char> },
    Identified { ssid: Seq<char>, active: Seq<char>, connection_uuid: Seq<char> },
    Staged {
        ssid: Seq<char>,
        active: Seq<char>,
        connection_uuid: Seq<char>,
        is_activated: bool,
    },
    Unrouted4 {
        ssid: Seq<char>,
        active: Seq<char>,
        connection_uuid: Seq<char>,
        is_activated: bool,
    },
    Routed { ssid: Seq<char>, connection_uuid: Seq<char>, is_activated: bool, is_default: bool },
}

impl View for Probe {
    type V = ProbeView;

    open spec fn view(&self) -> ProbeView {
        match *self {
            Probe::Start => ProbeView::Start,
            Probe::AccessPoint { access_point } => ProbeView::AccessPoint {
                access_point: access_point@,
            },
            Probe::Named { ssid } => ProbeView::Named { ssid: ssid@ },
            Probe::Active { ssid, active } => ProbeView::Active { ssid: ssid@, active: active@ },
            Probe::Identified { ssid, active, connection_uuid } => ProbeView::Identified {
                ssid: ssid@,
                active: active@,
                connection_uuid: connection_uuid@,
            },
            Probe::Staged { ssid, active, connection_uuid, is_activated } => ProbeView::Staged {
                ssid: ssid@,
                active: active@,
                connection_uuid: connection_uuid@,
                is_activated,
            },
            Probe::Unrouted4 { ssid, active, connection_uuid, is_activated } => {
                ProbeView::Unrouted4 {
                    ssid: ssid@,
                    active: active@,
                    connection_uuid: connection_uuid@,
                    is_activated,
                }
            },
            Probe::Routed { ssid, connection_uuid, is_activated, is_default } => {
                ProbeView::Routed {
                    ssid: ssid@,
                    connection_uuid: connection_uuid@,
                    is_activated,
                    is_default,
                }
            },
        }
    }
}

/// How a probe goes on: with more to read, or with what the device is.
#[derive(Debug)]
pub enum Progress {
    More(Probe),
    Done(Result<Option<NetworkState>, Failure>),
}

/// What a [`Progress`] says.
pub enum ProgressView {
    More(ProbeView),
    Done(ReadingView),
}

impl View for Progress {
    type V = ProgressView;

    open spec fn view(&self) -> ProgressView {
        match *self {
            Progress::More(probe) => ProgressView::More(probe@),
            Progress::Done(reading) => ProgressView::Done(reading_view(reading)),
        }
    }
}

/// The path that stands for no object.
pub open spec fn no_object(path: Seq<char>) -> bool {
    path == "/"@
}

/// A reply that gives the flag, and gives it as set.
pub open spec fn is_set(flag: Result<bool, ReadErrorView>) -> bool {
    flag == Ok::<bool, ReadErrorView>(true)
}

/// A reply that gives the state, and gives it as activated.
pub open spec fn is_up(state: Result<u32, ReadErrorView>) -> bool {
    state == Ok::<u32, ReadErrorView>(ACTIVE_CONNECTION_ACTIVATED)
}

impl ProbeView {
    /// The property that is to be read next.
    pub open spec fn request(self) -> RequestView {
        match self {
            Self::Start => RequestView::AccessPoint,
            Self::AccessPoint { access_point } => RequestView::Ssid { access_point },
            Self::Named { .. } => RequestView::ActiveConnection,
            Self::Active { active, .. } => RequestView::Uuid { active },
            Self::Identified { active, .. } => RequestView::State { active },
            Self::Staged { active, .. } => RequestView::Default4 { active },
            Self::Unrouted4 { active, .. } => RequestView::Default6 { active },
            Self::Routed { .. } => RequestView::Connectivity,
        }
    }

    /// The reply is of the kind that the request asks for.
    pub open spec fn awaits(self, reply: ReplyView) -> bool {
        match self.request() {
            RequestView::AccessPoint => reply is Text,
            RequestView::Ssid { .. } => reply is Bytes,
            RequestView::ActiveConnection => reply is Text,
            RequestView::Uuid { .. } => reply is Text,
            RequestView::State { .. } => reply is Number,
            RequestView::Default4 { .. } => reply is Flag,
            RequestView::Default6 { .. } => reply is Flag,
            RequestView::Connectivity => reply is Number,
        }
    }

    /// What a reply of that kind leads to. A device without an access point,
    /// a name or an active connection has no network. A state or a route that
    /// cannot be read counts as not there, a connectivity that NetworkManager
    /// does not give as unknown.
    pub open spec fn advance(self, reply: ReplyView) -> ProgressView {
        match (self, reply) {
            (Self::Start, ReplyView::Text(Ok(access_point))) => if no_object(access_point) {
                ProgressView::Done(ReadingView::Inactive)
            } else {
                ProgressView::More(Self::AccessPoint { access_point })
            },
            (Self::Start, ReplyView::Text(Err(error))) => ProgressView::Done(
                ReadingView::Failed(error.failure("read active Wi-Fi access point"@)),
            ),
            (Self::AccessPoint { .. }, ReplyView::Bytes(Ok(ssid))) => if ssid.len() == 0 {
                ProgressView::Done(ReadingView::Inactive)
            } else {
                ProgressView::More(Self::Named { ssid: text::lossy_text(ssid) })
            },
            (Self::AccessPoint { .. }, ReplyView::Bytes(Err(error))) => ProgressView::Done(
                ReadingView::Failed(error.failure("read Wi-Fi SSID"@)),
            ),
            (Self::Named { ssid }, ReplyView::Text(Ok(active))) => if no_object(active) {
                ProgressView::Done(ReadingView::Inactive)
            } else {
                ProgressView::More(Self::Active { ssid, active })
            },
            (Self::Named { .. }, ReplyView::Text(Err(error))) => ProgressView::Done(
                ReadingView::Failed(error.failure("read active Wi-Fi connection"@)),
            ),
            (
                Self::Active { ssid, active },
                ReplyView::Text(Ok(connection_uuid)),
            ) => ProgressView::More(Self::Identified { ssid, active, connection_uuid }),
            (Self::Active { .. }, ReplyView::Text(Err(error))) => ProgressView::Done(
                ReadingView::Failed(error.failure("read active Wi-Fi connection UUID"@)),
            ),
            (
                Self::Identified { ssid, active, connection_uuid },
                ReplyView::Number(state),
            ) => ProgressView::More(
                Self::Staged { ssid, active, connection_uuid, is_activated: is_up(state) },
            ),
            (
                Self::Staged { ssid, active, connection_uuid, is_activated },
                ReplyView::Flag(flag),
            ) => if is_set(flag) {
                ProgressView::More(
                    Self::Routed { ssid, connection_uuid, is_activated, is_default: true },
                )
            } else {
                ProgressView::More(Self::Unrouted4 { ssid, active, connection_uuid, is_activated })
            },
            (
                Self::Unrouted4 { ssid, active, connection_uuid, is_activated },
                ReplyView::Flag(flag),
            ) => ProgressView::More(
                Self::Routed { ssid, connection_uuid, is_activated, is_default: is_set(flag) },
            ),
            (
                Self::Routed { ssid, connection_uuid, is_activated, is_default },
                ReplyView::Number(value),
            ) => ProgressView::Done(
                match value {
                    Err(ReadErrorView::Unreachable(error)) => ReadingView::Failed(error),
                    _ => ReadingView::Active(
                        NetworkView::Connected {
                            ssid,
                            connection_uuid,
                            is_activated,
                            is_default,
                            connectivity: match value {
                                Ok(value) => connectivity_of(value as int),
                                Err(_) => Connectivity::Unknown,
                            },
                        },
                    ),
                },
            ),
            _ => arbitrary(),
        }
    }
}

fn is_no_object(path: &str) -> (r: bool)
    ensures
        r == no_object(path@),
{
    text::same(path, "/")
}

fn flag_is_set(flag: Result<bool, ReadError>) -> (r: bool)
    ensures
        r == (flag matches Ok(true)),
{
    match flag {
        Ok(set) => set,
        Err(_) => false,
    }
}

impl Probe {
    /// Nothing is known.
    pub fn new() -> (probe: Self)
        ensures
            probe@ == ProbeView::Start,
    {
        Probe::Start
    }

    /// The property that is to be read next.
    pub fn request(&self) -> (request: Request)
        ensures
            request@ == self@.request(),
    {
        match self {
            Self::Start => Request::AccessPoint,
            Self::AccessPoint { access_point } => Request::Ssid {
                access_point: access_point.clone(),
            },
            Self::Named { .. } => Request::ActiveConnection,
            Self::Active { active, .. } => Request::Uuid { active: active.clone() },
            Self::Identified { active, .. } => Request::State { active: active.clone() },
            Self::Staged { active, .. } => Request::Default4 { active: active.clone() },
            Self::Unrouted4 { active, .. } => Request::Default6 { active: active.clone() },
            Self::Routed { .. } => Request::Connectivity,
        }
    }

    /// Takes a reply of the kind that the request asks for.
    pub fn advance(self, reply: Reply) -> (progress: Progress)
        requires
            self@.awaits(reply@),
        ensures
            progress@ == self@.advance(reply@),
    {
        match (self, reply) {
            (Self::Start, Reply::Text(Ok(access_point))) => {
                if is_no_object(access_point.as_str()) {
                    return Progress::Done(Ok(None));
                }
                Progress::More(Self::AccessPoint { access_point })
            },
            (Self::Start, Reply::Text(Err(error))) => Progress::Done(
                Err(error.failure("read active Wi-Fi access point")),
            ),
            (Self::AccessPoint { .. }, Reply::Bytes(Ok(ssid))) => {
                if ssid.len() == 0 {
                    return Progress::Done(Ok(None));
                }
                Progress::More(Self::Named { ssid: text::utf8_lossy(ssid.as_slice()) })
            },
            (Self::AccessPoint { .. }, Reply::Bytes(Err(error))) => Progress::Done(
                Err(error.failure("read Wi-Fi SSID")),
            ),
            (Self::Named { ssid }, Reply::Text(Ok(active))) => {
                if is_no_object(active.as_str()) {
                    return Progress::Done(Ok(None));
                }
                Progress::More(Self::Active { ssid, active })
            },
            (Self::Named { .. }, Reply::Text(Err(error))) => Progress::Done(
                Err(error.failure("read active Wi-Fi connection")),
            ),
            (Self::Active { ssid, active }, Reply::Text(Ok(connection_uuid))) => Progress::More(
                Self::Identified { ssid, active, connection_uuid },
            ),
            (Self::Active { .. }, Reply::Text(Err(error))) => Progress::Done(
                Err(error.failure("read active Wi-Fi connection UUID")),
            ),
            (Self::Identified { ssid, active, connection_uuid }, Reply::Number(state)) => {
                let is_activated = match state {
                    Ok(state) => state == ACTIVE_CONNECTION_ACTIVATED,
                    Err(_) => false,
                };
                Progress::More(Self::Staged { ssid, active, connection_uuid, is_activated })
            },
            (Self::Staged { ssid, active, connection_uuid, is_activated }, Reply::Flag(flag)) => {
                if flag_is_set(flag) {
                    return Progress::More(
                        Self::Routed { ssid, connection_uuid, is_activated, is_default: true },
                    );
                }
                Progress::More(Self::Unrouted4 { ssid, active, connection_uuid, is_activated })
            },
            (Self::Unrouted4 { ssid, connection_uuid, is_activated, .. }, Reply::Flag(flag)) => {
                Progress::More(
                    Self::Routed {
                        ssid,
                        connection_uuid,
                        is_activated,
                        is_default: flag_is_set(flag),
                    },
                )
            },
            (
                Self::Routed { ssid, connection_uuid, is_activated, is_default },
                Reply::Number(value),
            ) => {
                let connectivity = match value {
                    Ok(value) => Connectivity::from_nm(value),
                    Err(ReadError::Unreachable(error)) => {
                        return Progress::Done(Err(error));
                    },
                    Err(ReadError::Unreadable(_)) => Connectivity::Unknown,
                };
                Progress::Done(
                    Ok(
                        Some(
                            NetworkState::Connected {
                                ssid,
                                connection_uuid,
                                is_activated,
                                is_default,
                                connectivity,
                            },
                        ),
                    ),
                )
            },
            _ => Progress::Done(Ok(None)),
        }
    }
}

/// Everything that can be read about a device.
pub struct DeviceFacts {
    pub access_point: Result<Seq<char>, ReadErrorView>,
    pub ssid: Result<Seq<u8>, ReadErrorView>,
    pub active: Result<Seq<char>, ReadErrorView>,
    pub connection_uuid: Result<Seq<char>, ReadErrorView>,
    pub state: Result<u32, ReadErrorView>,
    pub default4: Result<bool, ReadErrorView>,
    pub default6: Result<bool, ReadErrorView>,
    pub connectivity: Result<u32, ReadErrorView>,
}

impl DeviceFacts {
    /// The reply to a request.
    pub open spec fn reply(self, request: RequestView) -> ReplyView {
        match request {
            RequestView::AccessPoint => ReplyView::Text(self.access_point),
            RequestView::Ssid { .. } => ReplyView::Bytes(self.ssid),
            RequestView::ActiveConnection => ReplyView::Text(self.active),
            RequestView::Uuid { .. } => ReplyView::Text(self.connection_uuid),
            RequestView::State { .. } => ReplyView::Number(self.state),
            RequestView::Default4 { .. } => ReplyView::Flag(self.default4),
            RequestView::Default6 { .. } => ReplyView::Flag(self.default6),
            RequestView::Connectivity => ReplyView::Number(self.connectivity),
        }
    }

    /// The device has a named access point and an active connection, and all
    /// that identifies them could be read.
    pub open spec fn associated(self) -> bool {
        &&& self.access_point matches Ok(access_point) && !no_object(access_point)
        &&& self.ssid matches Ok(ssid) && ssid.len() > 0
        &&& self.active matches Ok(active) && !no_object(active)
        &&& self.connection_uuid is Ok
        &&& !(self.connectivity matches Err(ReadErrorView::Unreachable(_)))
    }

    /// The device has no access point, an access point without a name, or no
    /// active connection, and all that had to be read to see it was read.
    pub open spec fn unassociated(self) -> bool {
        self.access_point matches Ok(access_point) && (no_object(access_point) || (
        self.ssid matches Ok(ssid) && (ssid.len() == 0 || (self.active matches Ok(active)
            && no_object(active)))))
    }

    /// The first failure among the reads that identify a network.
    pub open spec fn first_failure(self) -> FailureView {
        match (self.access_point, self.ssid, self.active, self.connection_uuid) {
            (Err(error), _, _, _) => error.failure("read active Wi-Fi access point"@),
            (_, Err(error), _, _) => error.failure("read Wi-Fi SSID"@),
            (_, _, Err(error), _) => error.failure("read active Wi-Fi connection"@),
            (_, _, _, Err(error)) => error.failure("read active Wi-Fi connection UUID"@),
            _ => self.connectivity->Err_0->Unreachable_0,
        }
    }
}

/// The outcome of a probe whose requests are answered by the facts of one
/// device. A probe makes at most as many requests as there are facts.
pub open spec fn probed(probe: ProbeView, facts: DeviceFacts, requests: nat) -> Option<ReadingView>
    decreases requests,
{
    if requests == 0 {
        None
    } else {
        match probe.advance(facts.reply(probe.request())) {
            ProgressView::Done(reading) => Some(reading),
            ProgressView::More(next) => probed(next, facts, (requests - 1) as nat),
        }
    }
}

/// A probe of an associated device finds its network. Either default route
/// counts.
pub proof fn probe_finds_network(facts: DeviceFacts)
    requires
        facts.associated(),
    ensures
        probed(ProbeView::Start, facts, 8) == Some(
            ReadingView::Active(
                NetworkView::Connected {
                    ssid: text::lossy_text(facts.ssid->Ok_0),
                    connection_uuid: facts.connection_uuid->Ok_0,
                    is_activated: is_up(facts.state),
                    is_default: is_set(facts.default4) || is_set(facts.default6),
                    connectivity: match facts.connectivity {
                        Ok(value) => connectivity_of(value as int),
                        Err(_) => Connectivity::Unknown,
                    },
                },
            ),
        ),
{
    reveal_with_fuel(probed, 9);
}

/// A probe of any other device finds no network: the device has none where all
/// that was read says so, and else the first read that failed tells why it is
/// not known.
pub proof fn probe_finds_no_other_network(facts: DeviceFacts)
    requires
        !facts.associated(),
    ensures
        probed(ProbeView::Start, facts, 8) == Some(
            if facts.unassociated() {
                ReadingView::Inactive
            } else {
                ReadingView::Failed(facts.first_failure())
            },
        ),
{
    reveal_with_fuel(probed, 9);
}

/// The devices, in order, whose type is that of a Wi-Fi adapter.
pub open spec fn wifi_only(
    devices: Seq<Seq<char>>,
    types: Seq<Option<u32>>,
) -> Seq<Seq<char>>
    decreases devices.len(),
{
    if devices.len() == 0 || types.len() == 0 {
        Seq::empty()
    } else {
        let earlier = wifi_only(devices.drop_last(), types.drop_last());
        if types.last() == Some(DEVICE_TYPE_WIFI) {
            earlier.push(devices.last())
        } else {
            earlier
        }
    }
}

/// The devices, in order, whose type was read and is that of a Wi-Fi adapter.
pub fn wifi_devices(devices: &Vec<String>, types: &Vec<Option<u32>>) -> (wifi: Vec<String>)
    requires
        devices@.len() == types@.len(),
    ensures
        text::texts(wifi@) == wifi_only(text::texts(devices@), types@),
{
    let mut wifi: Vec<String> = Vec::new();
    for i in 0..devices.len()
        invariant
            devices@.len() == types@.len(),
            text::texts(wifi@) == wifi_only(
                text::texts(devices@.take(i as int)),
                types@.take(i as int),
            ),
    {
        proof {
            assert(text::texts(devices@.take(i + 1)).drop_last() == text::texts(
                devices@.take(i as int),
            ));
            assert(types@.take(i + 1).drop_last() == types@.take(i as int));
            assert(text::texts(devices@.take(i + 1)).last() == devices@[i as int]@);
            assert(types@.take(i + 1).last() == types@[i as int]);
        }
        let is_wifi = match types[i] {
            Some(device_type) => device_type == DEVICE_TYPE_WIFI,
            None => false,
        };
        if is_wifi {
            let ghost earlier = wifi@;
            wifi.push(devices[i].clone());
            assert(text::texts(wifi@) == text::texts(earlier).push(devices@[i as int]@));
        }
    }
    proof {
        assert(devices@.take(devices@.len() as int) == devices@);
        assert(types@.take(types@.len() as int) == types@);
    }
    wifi
}

/// What a probe finds on an associated device, read off the properties
/// themselves: the connection is active exactly when its state was read and is
/// the number 2, it owns the default route exactly when one of the two flags
/// was read and is set, and the connectivity is the one of its number. Nothing
/// else that was read plays a part.
pub proof fn probe_reports_what_was_read(
    access_point: Seq<char>,
    ssid: Seq<u8>,
    active: Seq<char>,
    connection_uuid: Seq<char>,
    state: Result<u32, ReadErrorView>,
    default4: Result<bool, ReadErrorView>,
    default6: Result<bool, ReadErrorView>,
    connectivity: Result<u32, ReadErrorView>,
)
    requires
        access_point != "/"@,
        ssid.len() > 0,
        active != "/"@,
        !(connectivity matches Err(ReadErrorView::Unreachable(_))),
    ensures
        ({
            let facts = DeviceFacts {
                access_point: Ok(access_point),
                ssid: Ok(ssid),
                active: Ok(active),
                connection_uuid: Ok(connection_uuid),
                state,
                default4,
                default6,
                connectivity,
            };
            probed(ProbeView::Start, facts, 8) matches Some(
                ReadingView::Active(
                    NetworkView::Connected {
                        ssid: name,
                        connection_uuid: uuid,
                        is_activated,
                        is_default,
                        connectivity: assessed,
                    },
                ),
            ) && {
                &&& name == text::lossy_text(ssid)
                &&& uuid == connection_uuid
                &&& is_activated <==> (state matches Ok(number) && number == 2)
                &&& is_default <==> (default4 matches Ok(true)) || (default6 matches Ok(true))
                &&& assessed == Connectivity::Absent <==> (connectivity matches Ok(number)
                    && number == 1)
                &&& assessed == Connectivity::Portal <==> (connectivity matches Ok(number)
                    && number == 2)
                &&& assessed == Connectivity::Limited <==> (connectivity matches Ok(number)
                    && number == 3)
                &&& assessed == Connectivity::Full <==> (connectivity matches Ok(number)
                    && number == 4)
            }
        }),
{
    reveal_with_fuel(probed, 9);
}

/// A device without a network, read off the properties: the path `/` stands
/// for no access point and for no active connection, and an access point with
/// an empty name counts as none. Nothing behind that is read.
pub proof fn probe_reports_no_network(facts: DeviceFacts)
    ensures
        facts.access_point == Ok::<Seq<char>, ReadErrorView>("/"@) ==> probed(
            ProbeView::Start,
            facts,
            1,
        ) == Some(ReadingView::Inactive),
        (facts.access_point matches Ok(path) && path != "/"@) && (facts.ssid matches Ok(name)
            && name.len() == 0) ==> probed(ProbeView::Start, facts, 2) == Some(
            ReadingView::Inactive,
        ),
        (facts.access_point matches Ok(path) && path != "/"@) && (facts.ssid matches Ok(name)
            && name.len() > 0) && facts.active == Ok::<Seq<char>, ReadErrorView>("/"@) ==> probed(
            ProbeView::Start,
            facts,
            3,
        ) == Some(ReadingView::Inactive),
{
    reveal_with_fuel(probed, 4);
}

/// A probe asks for one property after the other, of the objects whose paths it
/// was given, and for the IPv6 route only where the IPv4 one is not owned.
pub proof fn probe_asks_in_order(
    access_point: Seq<char>,
    ssid: Seq<u8>,
    active: Seq<char>,
    connection_uuid: Seq<char>,
    state: Result<u32, ReadErrorView>,
    flag: Result<bool, ReadErrorView>,
)
    requires
        access_point != "/"@,
        ssid.len() > 0,
        active != "/"@,
        !(flag matches Ok(true)),
    ensures
        ProbeView::Start.request() == RequestView::AccessPoint,
        ProbeView::Start.advance(ReplyView::Text(Ok(access_point))) matches ProgressView::More(
            found,
        ) && {
            &&& found.request() == (RequestView::Ssid { access_point })
            &&& found.advance(ReplyView::Bytes(Ok(ssid))) matches ProgressView::More(named) && {
                &&& named.request() == RequestView::ActiveConnection
                &&& named.advance(ReplyView::Text(Ok(active))) matches ProgressView::More(up) && {
                    &&& up.request() == (RequestView::Uuid { active })
                    &&& up.advance(ReplyView::Text(Ok(connection_uuid))) matches ProgressView::More(
                        known,
                    ) && {
                        &&& known.request() == (RequestView::State { active })
                        &&& known.advance(ReplyView::Number(state)) matches ProgressView::More(
                            staged,
                        ) && {
                            &&& staged.request() == (RequestView::Default4 { active })
                            &&& staged.advance(
                                ReplyView::Flag(Ok(true)),
                            ) matches ProgressView::More(routed) && routed.request()
                                == RequestView::Connectivity
                            &&& staged.advance(ReplyView::Flag(flag)) matches ProgressView::More(
                                unrouted,
                            ) && {
                                &&& unrouted.request() == (RequestView::Default6 { active })
                                &&& unrouted.advance(
                                    ReplyView::Flag(flag),
                                ) matches ProgressView::More(last) && last.request()
                                    == RequestView::Connectivity
                            }
                        }
                    }
                }
            }
        },
{
}

/// One device is kept exactly when its type was read and is the number 2, and
/// of two lists of devices what is kept of the first comes before what is kept
/// of the second.
pub proof fn devices_are_kept_by_type(
    device: Seq<char>,
    device_type: Option<u32>,
    a: Seq<Seq<char>>,
    b: Seq<Seq<char>>,
    a_types: Seq<Option<u32>>,
    b_types: Seq<Option<u32>>,
)
    requires
        a.len() == a_types.len(),
        b.len() == b_types.len(),
    ensures
        wifi_only(seq![device], seq![device_type]) == (if device_type matches Some(number)
            && number == 2 {
            seq![device]
        } else {
            Seq::empty()
        }),
        wifi_only(a + b, a_types + b_types) == wifi_only(a, a_types) + wifi_only(b, b_types),
    decreases b.len(),
{
    assert(seq![device].drop_last() == Seq::<Seq<char>>::empty());
    assert(wifi_only(Seq::empty(), seq![device_type].drop_last()) == Seq::<Seq<char>>::empty());
    if b.len() == 0 {
        assert(a + b == a);
        assert(a_types + b_types == a_types);
        assert(wifi_only(a, a_types) + wifi_only(b, b_types) == wifi_only(a, a_types));
    } else {
        devices_are_kept_by_type(device, device_type, a, b.drop_last(), a_types, b_types.drop_last());
        assert((a + b).drop_last() == a + b.drop_last());
        assert((a_types + b_types).drop_last() == a_types + b_types.drop_last());
        assert((a + b).last() == b.last());
        assert((a_types + b_types).last() == b_types.last());
        if b_types.last() == Some(DEVICE_TYPE_WIFI) {
            assert((wifi_only(a, a_types) + wifi_only(b.drop_last(), b_types.drop_last())).push(
                b.last(),
            ) == wifi_only(a, a_types) + wifi_only(b.drop_last(), b_types.drop_last()).push(
                b.last(),
            ));
        }
    }
}

/// A property of an object that cannot be addressed fails as that does; one that
/// the object does not give fails as what was being read, with its cause.
pub proof fn failed_reads_tell_what_was_read(failure: FailureView, what: Seq<char>)
    ensures
        ReadErrorView::Unreachable(failure).failure(what) == failure,
        ReadErrorView::Unreadable(failure).failure(what).message == what,
        ReadErrorView::Unreadable(failure).failure(what).causes == seq![failure.message]
            + failure.causes,
{
}

/// A probe takes every reply that is of the kind of the property it asks for: a
/// path or a text, bytes, a number, or a flag.
pub proof fn every_reply_is_taken(probe: ProbeView, reply: ReplyView)
    ensures
        probe.awaits(reply) <==> match probe.request() {
            RequestView::AccessPoint => reply is Text,
            RequestView::ActiveConnection => reply is Text,
            RequestView::Uuid { .. } => reply is Text,
            RequestView::Ssid { .. } => reply is Bytes,
            RequestView::State { .. } => reply is Number,
            RequestView::Connectivity => reply is Number,
            RequestView::Default4 { .. } => reply is Flag,
            RequestView::Default6 { .. } => reply is Flag,
        },
{
}

} // verus!
