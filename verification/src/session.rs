//! Captive-portal policy: what the daemon does about the network that it sees.

use vstd::arithmetic::power2::pow2;
use vstd::prelude::*;

use crate::config::{Config, ConfigView, PermissionView, PortalPermission};
use crate::keyring::{self, CredsError, CredsErrorView, LoadView};
use crate::portal::{LoginResult, Outcome};
use crate::settings::Settings;
use crate::text;
use crate::wifi::{Connectivity, NetworkState, NetworkView};

verus! {

/// Nanoseconds in a second. Durations and readings of the clock count
/// nanoseconds; the clock never goes back and starts anywhere.
pub const SECOND: u64 = 1_000_000_000;

/// The delay before the first portal retry.
pub const RETRY_BASE: u64 = 30_000_000_000;

/// The longest delay before a portal retry.
pub const RETRY_MAX: u64 = 300_000_000_000;

/// The delay before a failed local read is tried again.
pub const SNAPSHOT_RESYNC_DELAY: u64 = 750_000_000;

/// What the daemon last found.
#[derive(Debug, Clone, Copy, PartialEq, Eq, Structural)]
pub enum State {
    Paused,
    NoTargets,
    Disconnected,
    OtherNetwork,
    Connecting,
    TargetNotDefault,
    WaitingForNetworkManager,
    Online,
    Captive,
    CredentialsMissing,
    BadCredentials,
    Error,
}

impl State {
    /// The name of the state.
    pub open spec fn text(self) -> Seq<char> {
        match self {
            Self::Paused => "Paused"@,
            Self::NoTargets => "NoTargets"@,
            Self::Disconnected => "Disconnected"@,
            Self::OtherNetwork => "OtherNetwork"@,
            Self::Connecting => "Connecting"@,
            Self::TargetNotDefault => "TargetNotDefault"@,
            Self::WaitingForNetworkManager => "WaitingForNetworkManager"@,
            Self::Online => "Online"@,
            Self::Captive => "Captive"@,
            Self::CredentialsMissing => "CredentialsMissing"@,
            Self::BadCredentials => "BadCredentials"@,
            Self::Error => "Error"@,
        }
    }

    /// The name of the state.
    pub fn name(&self) -> (s: &'static str)
        ensures
            s@ == self.text(),
    {
        match self {
            Self::Paused => "Paused",
            Self::NoTargets => "NoTargets",
            Self::Disconnected => "Disconnected",
            Self::OtherNetwork => "OtherNetwork",
            Self::Connecting => "Connecting",
            Self::TargetNotDefault => "TargetNotDefault",
            Self::WaitingForNetworkManager => "WaitingForNetworkManager",
            Self::Online => "Online",
            Self::Captive => "Captive",
            Self::CredentialsMissing => "CredentialsMissing",
            Self::BadCredentials => "BadCredentials",
            Self::Error => "Error",
        }
    }
}

/// What a step of the controller found.
#[derive(Debug)]
pub struct Snapshot {
    pub state: State,
    pub message: String,
    pub current_ssid: Option<String>,
    pub last_error: Option<String>,
}

/// What a [`Snapshot`] says.
pub struct SnapshotView {
    pub state: State,
    pub message: Seq<char>,
    pub current_ssid: Option<Seq<char>>,
    pub last_error: Option<Seq<char>>,
}

impl View for Snapshot {
    type V = SnapshotView;

    open spec fn view(&self) -> SnapshotView {
        SnapshotView {
            state: self.state,
            message: self.message@,
            current_ssid: text::opt_text(self.current_ssid),
            last_error: text::opt_text(self.last_error),
        }
    }
}

impl SnapshotView {
    /// A finding without a network.
    pub open spec fn idle(state: State, message: Seq<char>) -> Self {
        SnapshotView { state, message, current_ssid: None, last_error: None }
    }

    /// A finding about the network `ssid`.
    pub open spec fn on_network(state: State, ssid: Seq<char>, message: Seq<char>) -> Self {
        SnapshotView { state, message, current_ssid: Some(ssid), last_error: None }
    }

    /// The same finding with an error.
    pub open spec fn with_error(self, error: Seq<char>) -> Self {
        SnapshotView { last_error: Some(error), ..self }
    }
}

impl Snapshot {
    /// A finding without a network.
    pub fn idle(state: State, message: String) -> (snapshot: Self)
        ensures
            snapshot@ == SnapshotView::idle(state, message@),
    {
        Snapshot { state, message, current_ssid: None, last_error: None }
    }

    /// A finding about the network `ssid`.
    pub fn on_network(state: State, ssid: String, message: String) -> (snapshot: Self)
        ensures
            snapshot@ == SnapshotView::on_network(state, ssid@, message@),
    {
        Snapshot { state, message, current_ssid: Some(ssid), last_error: None }
    }

    /// The same finding with an error.
    pub fn with_error(self, error: String) -> (snapshot: Self)
        ensures
            snapshot@ == self@.with_error(error@),
    {
        Snapshot { last_error: Some(error), ..self }
    }

    /// Whether the network is up.
    pub fn is_online(&self) -> (r: bool)
        ensures
            r == (self@.state == State::Online),
    {
        self.state == State::Online
    }
}

/// A duration in whole minutes where it has no odd seconds, else in seconds.
pub open spec fn duration_text(nanos: nat) -> Seq<char> {
    let seconds = nanos / (SECOND as nat);
    if seconds % 60 == 0 {
        text::decimal_text(seconds / 60) + "m"@
    } else {
        text::decimal_text(seconds) + "s"@
    }
}

/// Writes a duration in whole minutes or in seconds.
pub fn format_duration(nanos: u64) -> (s: String)
    ensures
        s@ == duration_text(nanos as nat),
{
    let seconds: u64 = nanos / SECOND;
    if seconds % 60 == 0 {
        text::concat2(text::decimal(seconds / 60).as_str(), "m")
    } else {
        text::concat2(text::decimal(seconds).as_str(), "s")
    }
}

/// The delay after `attempts` earlier retries: it doubles from
/// [`RETRY_BASE`] on and never exceeds [`RETRY_MAX`].
pub open spec fn retry_delay(attempts: nat) -> nat {
    let doubled = RETRY_BASE * pow2(attempts);
    if doubled <= RETRY_MAX {
        doubled as nat
    } else {
        RETRY_MAX as nat
    }
}

/// Exponential portal retry delay. It is deliberately separate from the
/// one-off resync that recovers a failed local read.
pub struct Backoff {
    attempts: u32,
}

impl View for Backoff {
    type V = nat;

    closed spec fn view(&self) -> nat {
        self.attempts as nat
    }
}

/// One more attempt, as far as the counter goes.
pub open spec fn counted(attempts: nat) -> nat {
    if attempts < u32::MAX {
        attempts + 1
    } else {
        attempts
    }
}

impl Backoff {
    /// No attempt so far.
    pub fn new() -> (backoff: Self)
        ensures
            backoff@ == 0,
    {
        Backoff { attempts: 0 }
    }

    /// The delay before the next retry, which is counted.
    pub fn next(&mut self) -> (delay: u64)
        ensures
            delay == retry_delay(old(self)@),
            final(self)@ == counted(old(self)@),
    {
        let attempts: u32 = self.attempts;
        self.attempts = attempts.saturating_add(1);
        proof {
            vstd::arithmetic::power2::lemma2_to64();
            if attempts > 4 {
                vstd::arithmetic::power2::lemma_pow2_strictly_increases(4, attempts as nat);
            }
        }
        if attempts == 0 {
            RETRY_BASE
        } else if attempts == 1 {
            2 * RETRY_BASE
        } else if attempts == 2 {
            4 * RETRY_BASE
        } else if attempts == 3 {
            8 * RETRY_BASE
        } else {
            RETRY_MAX
        }
    }

    /// Starts over.
    pub fn reset(&mut self)
        ensures
            final(self)@ == 0,
    {
        self.attempts = 0;
    }
}

/// The Wi-Fi connection that a login is about.
#[derive(Debug)]
pub struct Connection {
    pub ssid: String,
    pub connection_uuid: String,
}

/// What a [`Connection`] says.
pub struct ConnectionView {
    pub ssid: Seq<char>,
    pub connection_uuid: Seq<char>,
}

impl View for Connection {
    type V = ConnectionView;

    open spec fn view(&self) -> ConnectionView {
        ConnectionView { ssid: self.ssid@, connection_uuid: self.connection_uuid@ }
    }
}

impl Clone for Connection {
    fn clone(&self) -> (copy: Self)
        ensures
            copy@ == self@,
    {
        Connection { ssid: self.ssid.clone(), connection_uuid: self.connection_uuid.clone() }
    }
}

/// A portal retry that is due at a deadline.
#[derive(Debug)]
pub struct PortalRetry {
    pub connection: Connection,
    pub deadline: u64,
    pub message: String,
}

/// What a [`PortalRetry`] says.
pub struct RetryView {
    pub connection: ConnectionView,
    pub deadline: nat,
    pub message: Seq<char>,
}

impl View for PortalRetry {
    type V = RetryView;

    open spec fn view(&self) -> RetryView {
        RetryView {
            connection: self.connection@,
            deadline: self.deadline as nat,
            message: self.message@,
        }
    }
}

impl PortalRetry {
    /// Whether the retry is about this connection.
    pub fn matches(&self, connection: &Connection) -> (r: bool)
        ensures
            r == (self@.connection == connection@),
    {
        self.connection.ssid == connection.ssid && self.connection.connection_uuid
            == connection.connection_uuid
    }
}

/// What the controller is waiting for.
#[derive(Debug)]
enum Phase {
    Idle,
    ReadingNetwork,
    LoadingCredentials(Connection),
    LoggingIn(Connection),
    Verifying(Connection),
}

/// What the controller is waiting for: nothing, the state of the network, the
/// credentials, the portal's answer, or the connectivity check.
pub enum PhaseView {
    Idle,
    ReadingNetwork,
    LoadingCredentials(ConnectionView),
    LoggingIn(ConnectionView),
    Verifying(ConnectionView),
}

impl View for Phase {
    type V = PhaseView;

    closed spec fn view(&self) -> PhaseView {
        match *self {
            Phase::Idle => PhaseView::Idle,
            Phase::ReadingNetwork => PhaseView::ReadingNetwork,
            Phase::LoadingCredentials(connection) => PhaseView::LoadingCredentials(connection@),
            Phase::LoggingIn(connection) => PhaseView::LoggingIn(connection@),
            Phase::Verifying(connection) => PhaseView::Verifying(connection@),
        }
    }
}

/// What the daemon tells the controller.
#[derive(Debug)]
pub enum Input {
    /// A step is due. What was under way is abandoned.
    Begin { settings: Settings },
    /// The state of the network, or why it could not be read, and the time.
    Network { reading: Result<NetworkState, String>, now: u64 },
    /// The username and password, or why there are none.
    Credentials { loaded: Result<(String, String), CredsError> },
    /// The portal's answer, or why there is none, and the time.
    Login { reply: Result<LoginResult, String>, now: u64 },
    /// What the connectivity check found, or why it failed, and the time.
    Online { online: Result<bool, String>, now: u64 },
}

/// What an [`Input`] says.
pub enum InputView {
    Begin { settings: Settings },
    Network { reading: Result<NetworkView, Seq<char>>, now: nat },
    Credentials { loaded: LoadView },
    Login { reply: Result<LoginResult, Seq<char>>, now: nat },
    Online { online: Result<bool, Seq<char>>, now: nat },
}

impl View for Input {
    type V = InputView;

    open spec fn view(&self) -> InputView {
        match *self {
            Input::Begin { settings } => InputView::Begin { settings },
            Input::Network { reading, now } => InputView::Network {
                reading: match reading {
                    Ok(network) => Ok(network@),
                    Err(error) => Err(error@),
                },
                now: now as nat,
            },
            Input::Credentials { loaded } => InputView::Credentials {
                loaded: keyring::load_view(loaded),
            },
            Input::Login { reply, now } => InputView::Login {
                reply: match reply {
                    Ok(login) => Ok(login),
                    Err(error) => Err(error@),
                },
                now: now as nat,
            },
            Input::Online { online, now } => InputView::Online {
                online: match online {
                    Ok(online) => Ok(online),
                    Err(error) => Err(error@),
                },
                now: now as nat,
            },
        }
    }
}

/// What the controller asks of the daemon.
#[derive(Debug)]
pub enum Action {
    /// Read the state of the network.
    ReadNetwork,
    /// Load the username and password.
    LoadCredentials,
    /// Post the login form.
    SubmitLogin { username: String, password: String },
    /// Check connectivity once.
    CheckOnline,
    /// The step is over. With a delay, another one is due after it.
    Report { snapshot: Snapshot, retry: Option<u64> },
}

/// What an [`Action`] says.
pub enum ActionView {
    ReadNetwork,
    LoadCredentials,
    SubmitLogin { username: Seq<char>, password: Seq<char> },
    CheckOnline,
    Report { snapshot: SnapshotView, retry: Option<nat> },
}

impl View for Action {
    type V = ActionView;

    open spec fn view(&self) -> ActionView {
        match *self {
            Action::ReadNetwork => ActionView::ReadNetwork,
            Action::LoadCredentials => ActionView::LoadCredentials,
            Action::SubmitLogin { username, password } => ActionView::SubmitLogin {
                username: username@,
                password: password@,
            },
            Action::CheckOnline => ActionView::CheckOnline,
            Action::Report { snapshot, retry } => ActionView::Report {
                snapshot: snapshot@,
                retry: match retry {
                    Some(delay) => Some(delay as nat),
                    None => None,
                },
            },
        }
    }
}

/// What a controller remembers between two inputs.
pub struct ControllerView {
    /// Portal retries since the last conclusive finding.
    pub attempts: nat,
    /// The portal retry that is pending.
    pub retry: Option<RetryView>,
    /// The last read of the network failed.
    pub resync_pending: bool,
    /// The last read of the keyring failed.
    pub keyring_resync_pending: bool,
    pub phase: PhaseView,
}

impl ControllerView {
    /// A controller that has seen nothing.
    pub open spec fn initial() -> Self {
        ControllerView {
            attempts: 0,
            retry: None,
            resync_pending: false,
            keyring_resync_pending: false,
            phase: PhaseView::Idle,
        }
    }

    /// The input is what the controller is waiting for. A step may begin at
    /// any time.
    pub open spec fn awaits(self, input: InputView) -> bool {
        match input {
            InputView::Begin { .. } => true,
            InputView::Network { .. } => self.phase is ReadingNetwork,
            InputView::Credentials { .. } => self.phase is LoadingCredentials,
            InputView::Login { .. } => self.phase is LoggingIn,
            InputView::Online { .. } => self.phase is Verifying,
        }
    }

    /// The same memory in another phase.
    pub open spec fn in_phase(self, phase: PhaseView) -> Self {
        ControllerView { phase, ..self }
    }

    /// No portal retry is pending, and the next one comes after the shortest
    /// delay.
    pub open spec fn without_backoff(self) -> Self {
        ControllerView { attempts: 0, retry: None, ..self }
    }

    /// The end of a step.
    pub open spec fn report(self, snapshot: SnapshotView, retry: Option<nat>) -> (
        Self,
        ActionView,
    ) {
        (self.in_phase(PhaseView::Idle), ActionView::Report { snapshot, retry })
    }

    /// The end of a step that leaves no portal retry behind.
    pub open spec fn settle(self, snapshot: SnapshotView) -> (Self, ActionView) {
        self.without_backoff().report(snapshot, None)
    }

    /// The end of a step that could not be completed: a portal retry is due
    /// after the next delay.
    pub open spec fn retry_later(
        self,
        connection: ConnectionView,
        message: Seq<char>,
        now: nat,
    ) -> (Self, ActionView) {
        let delay = retry_delay(self.attempts);
        let retry = RetryView { connection, deadline: now + delay, message };
        ControllerView { attempts: counted(self.attempts), retry: Some(retry), ..self }.report(
            captive(connection, message, delay),
            Some(delay),
        )
    }

    /// A step begins: nothing is done while paused or without a target.
    pub open spec fn begin(self, config: ConfigView, settings: Settings) -> (Self, ActionView) {
        if !settings.enabled {
            self.report(
                SnapshotView::idle(State::Paused, "paused — run `wifilogin resume`"@),
                None,
            )
        } else if config.targets.len() == 0 {
            self.report(
                SnapshotView::idle(
                    State::NoTargets,
                    "no target connections configured — the daemon will not act"@,
                ),
                None,
            )
        } else {
            (self.in_phase(PhaseView::ReadingNetwork), ActionView::ReadNetwork)
        }
    }

    /// The network could not be read: the first failure in a row is tried
    /// again after the resync delay.
    pub open spec fn network_failed(self, error: Seq<char>) -> (Self, ActionView) {
        ControllerView { resync_pending: true, ..self }.report(
            SnapshotView::idle(
                State::Error,
                "could not read NetworkManager state: "@ + error,
            ).with_error(error),
            resync(self.resync_pending),
        )
    }

    /// The network was read.
    pub open spec fn network_read(self, permission: PermissionView, now: nat) -> (
        Self,
        ActionView,
    ) {
        let seen = ControllerView { resync_pending: false, ..self };
        match permission {
            PermissionView::Disconnected => seen.settle(
                SnapshotView::idle(
                    State::Disconnected,
                    "Wi-Fi disconnected — waiting for NetworkManager"@,
                ),
            ),
            PermissionView::OtherNetwork(ssid) => seen.settle(
                SnapshotView::on_network(
                    State::OtherNetwork,
                    ssid,
                    "not an allowed NetworkManager connection"@,
                ),
            ),
            PermissionView::Connecting(ssid) => seen.settle(
                SnapshotView::on_network(
                    State::Connecting,
                    ssid,
                    "target Wi-Fi is changing state — waiting for NetworkManager"@,
                ),
            ),
            PermissionView::TargetNotDefault(ssid) => seen.settle(
                SnapshotView::on_network(
                    State::TargetNotDefault,
                    ssid,
                    "target Wi-Fi is not the default route — not submitting credentials"@,
                ),
            ),
            PermissionView::Allowed {
                ssid,
                connection_uuid,
                connectivity,
            } => if connectivity == Connectivity::Full {
                seen.settle(
                    SnapshotView::on_network(
                        State::Online,
                        ssid,
                        "NetworkManager reports full connectivity"@,
                    ),
                )
            } else if connectivity == Connectivity::Portal {
                seen.captive_portal(ConnectionView { ssid, connection_uuid }, now)
            } else {
                seen.settle(
                    SnapshotView::on_network(
                        State::WaitingForNetworkManager,
                        ssid,
                        "NetworkManager connectivity is "@ + connectivity.text() + " — waiting"@,
                    ),
                )
            },
        }
    }

    /// A portal stands before an allowed connection: a retry that is pending
    /// for it waits for its deadline, one for another connection is dropped.
    pub open spec fn captive_portal(self, connection: ConnectionView, now: nat) -> (
        Self,
        ActionView,
    ) {
        let load = PhaseView::LoadingCredentials(connection);
        match self.retry {
            None => (self.in_phase(load), ActionView::LoadCredentials),
            Some(retry) => if retry.connection != connection {
                (self.without_backoff().in_phase(load), ActionView::LoadCredentials)
            } else if now < retry.deadline {
                let remaining = (retry.deadline - now) as nat;
                self.report(captive(connection, retry.message, remaining), Some(remaining))
            } else {
                (
                    ControllerView { retry: None, ..self }.in_phase(load),
                    ActionView::LoadCredentials,
                )
            },
        }
    }

    /// The credentials were looked up for a connection.
    pub open spec fn credentials_loaded(self, connection: ConnectionView, loaded: LoadView) -> (
        Self,
        ActionView,
    ) {
        match loaded {
            LoadView::Loaded { username, password } => (
                ControllerView { keyring_resync_pending: false, ..self }.in_phase(
                    PhaseView::LoggingIn(connection),
                ),
                ActionView::SubmitLogin { username, password },
            ),
            LoadView::Failed(CredsErrorView::Missing) => self.report(
                SnapshotView::on_network(
                    State::CredentialsMissing,
                    connection.ssid,
                    "credentials missing — run `wifilogin creds set <username>`"@,
                ).with_error("credentials missing"@),
                None,
            ),
            LoadView::Failed(CredsErrorView::Unreadable(error)) => ControllerView {
                keyring_resync_pending: true,
                ..self
            }.report(
                SnapshotView::on_network(
                    State::Error,
                    connection.ssid,
                    "could not load credentials: "@ + error.message,
                ).with_error(error.message),
                resync(self.keyring_resync_pending),
            ),
        }
    }

    /// The portal answered, or did not.
    pub open spec fn login_answered(
        self,
        connection: ConnectionView,
        reply: Result<LoginResult, Seq<char>>,
        now: nat,
    ) -> (Self, ActionView) {
        match reply {
            Err(error) => self.retry_later(connection, "portal login failed: "@ + error, now),
            Ok(login) => if login.outcome == Outcome::BadCredentials {
                self.settle(
                    SnapshotView::on_network(
                        State::BadCredentials,
                        connection.ssid,
                        "invalid portal credentials — update with `wifilogin creds set`"@,
                    ).with_error("invalid credentials"@),
                )
            } else {
                (self.in_phase(PhaseView::Verifying(connection)), ActionView::CheckOnline)
            },
        }
    }

    /// The connectivity check came back, or failed.
    pub open spec fn online_checked(
        self,
        connection: ConnectionView,
        online: Result<bool, Seq<char>>,
        now: nat,
    ) -> (Self, ActionView) {
        match online {
            Ok(true) => self.settle(
                SnapshotView::on_network(
                    State::Online,
                    connection.ssid,
                    "portal login verified"@,
                ),
            ),
            Ok(false) => self.retry_later(
                connection,
                "portal login did not establish connectivity"@,
                now,
            ),
            Err(error) => self.retry_later(
                connection,
                "could not verify portal login: "@ + error,
                now,
            ),
        }
    }

    /// What the controller makes of an input that it awaits.
    pub open spec fn step(self, config: ConfigView, input: InputView) -> (Self, ActionView) {
        match (input, self.phase) {
            (InputView::Begin { settings }, _) => self.begin(config, settings),
            (
                InputView::Network { reading: Ok(network), now },
                PhaseView::ReadingNetwork,
            ) => self.network_read(config.permission(network), now),
            (
                InputView::Network { reading: Err(error), .. },
                PhaseView::ReadingNetwork,
            ) => self.network_failed(error),
            (
                InputView::Credentials { loaded },
                PhaseView::LoadingCredentials(connection),
            ) => self.credentials_loaded(connection, loaded),
            (
                InputView::Login { reply, now },
                PhaseView::LoggingIn(connection),
            ) => self.login_answered(connection, reply, now),
            (
                InputView::Online { online, now },
                PhaseView::Verifying(connection),
            ) => self.online_checked(connection, online, now),
            _ => arbitrary(),
        }
    }

    /// The deadline of the portal retry that this input may call for is a
    /// time that the clock can show.
    pub open spec fn has_room(self, input: InputView) -> bool {
        match input {
            InputView::Login { reply: Err(_), now } => now + retry_delay(self.attempts)
                <= u64::MAX,
            InputView::Online { online, now } => online != Ok::<bool, Seq<char>>(true) ==> now
                + retry_delay(self.attempts) <= u64::MAX,
            _ => true,
        }
    }
}

/// The finding while a portal retry is pending.
pub open spec fn captive(connection: ConnectionView, message: Seq<char>, delay: nat) -> SnapshotView {
    SnapshotView::on_network(
        State::Captive,
        connection.ssid,
        message + " — retrying in "@ + duration_text(delay),
    ).with_error(message)
}

/// The delay after a failed local read: one resync, and none after a failure
/// that was a resync already.
pub open spec fn resync(pending: bool) -> Option<nat> {
    if pending {
        None
    } else {
        Some(SNAPSHOT_RESYNC_DELAY as nat)
    }
}

/// Captive-portal policy. It never asks NetworkManager to activate a profile.
/// The daemon performs each action and hands back what came of it; a retry is
/// asked for only after an inconclusive portal request or one failed local
/// read.
pub struct Controller {
    portal_backoff: Backoff,
    portal_retry: Option<PortalRetry>,
    resync_pending: bool,
    keyring_resync_pending: bool,
    phase: Phase,
}

impl View for Controller {
    type V = ControllerView;

    closed spec fn view(&self) -> ControllerView {
        ControllerView {
            attempts: self.portal_backoff@,
            retry: match self.portal_retry {
                Some(retry) => Some(retry@),
                None => None,
            },
            resync_pending: self.resync_pending,
            keyring_resync_pending: self.keyring_resync_pending,
            phase: self.phase@,
        }
    }
}

fn captive_snapshot(connection: &Connection, message: &str, delay: u64) -> (snapshot: Snapshot)
    ensures
        snapshot@ == captive(connection@, message@, delay as nat),
{
    Snapshot::on_network(
        State::Captive,
        connection.ssid.clone(),
        text::concat3(message, " — retrying in ", format_duration(delay).as_str()),
    ).with_error(message.to_string())
}

fn resync_delay(pending: bool) -> (delay: Option<u64>)
    ensures
        delay is Some <==> resync(pending) is Some,
        delay matches Some(delay) ==> resync(pending) == Some(delay as nat),
{
    if pending {
        None
    } else {
        Some(SNAPSHOT_RESYNC_DELAY)
    }
}

impl Controller {
    /// A controller that has seen nothing.
    pub fn new() -> (controller: Self)
        ensures
            controller@ == ControllerView::initial(),
    {
        Controller {
            portal_backoff: Backoff::new(),
            portal_retry: None,
            resync_pending: false,
            keyring_resync_pending: false,
            phase: Phase::Idle,
        }
    }

    /// Takes an input that the controller awaits and says what to do next.
    pub fn step(&mut self, config: &Config, input: Input) -> (action: Action)
        requires
            old(self)@.awaits(input@),
            old(self)@.has_room(input@),
        ensures
            (final(self)@, action@) == old(self)@.step(config@, input@),
    {
        match input {
            Input::Begin { settings } => self.begin(config, settings),
            Input::Network { reading, now } => match reading {
                Ok(network) => self.network_read(config, &network, now),
                Err(error) => self.network_failed(error),
            },
            Input::Credentials { loaded } => self.credentials_loaded(loaded),
            Input::Login { reply, now } => self.login(reply, now),
            Input::Online { online, now } => self.online_checked(online, now),
        }
    }

    fn begin(&mut self, config: &Config, settings: Settings) -> (action: Action)
        ensures
            (final(self)@, action@) == old(self)@.begin(config@, settings),
    {
        if !settings.enabled {
            return self.report(
                Snapshot::idle(State::Paused, "paused — run `wifilogin resume`".to_string()),
                None,
            );
        }
        if config.targets.len() == 0 {
            return self.report(
                Snapshot::idle(
                    State::NoTargets,
                    "no target connections configured — the daemon will not act".to_string(),
                ),
                None,
            );
        }
        self.phase = Phase::ReadingNetwork;
        Action::ReadNetwork
    }

    fn network_failed(&mut self, error: String) -> (action: Action)
        ensures
            (final(self)@, action@) == old(self)@.network_failed(error@),
    {
        let retry = resync_delay(self.resync_pending);
        self.resync_pending = true;
        let message = text::concat2("could not read NetworkManager state: ", error.as_str());
        self.report(Snapshot::idle(State::Error, message).with_error(error), retry)
    }

    fn network_read(&mut self, config: &Config, network: &NetworkState, now: u64) -> (action:
        Action)
        ensures
            (final(self)@, action@) == old(self)@.network_read(
                config@.permission(network@),
                now as nat,
            ),
    {
        self.resync_pending = false;
        match config.portal_permission(network) {
            PortalPermission::Disconnected => self.settle(
                Snapshot::idle(
                    State::Disconnected,
                    "Wi-Fi disconnected — waiting for NetworkManager".to_string(),
                ),
            ),
            PortalPermission::OtherNetwork(ssid) => self.settle(
                Snapshot::on_network(
                    State::OtherNetwork,
                    ssid.to_string(),
                    "not an allowed NetworkManager connection".to_string(),
                ),
            ),
            PortalPermission::Connecting(ssid) => self.settle(
                Snapshot::on_network(
                    State::Connecting,
                    ssid.to_string(),
                    "target Wi-Fi is changing state — waiting for NetworkManager".to_string(),
                ),
            ),
            PortalPermission::TargetNotDefault(ssid) => self.settle(
                Snapshot::on_network(
                    State::TargetNotDefault,
                    ssid.to_string(),
                    "target Wi-Fi is not the default route — not submitting credentials".to_string(),
                ),
            ),
            PortalPermission::Allowed { ssid, connection_uuid, connectivity } => {
                match connectivity {
                    Connectivity::Full => self.settle(
                        Snapshot::on_network(
                            State::Online,
                            ssid.to_string(),
                            "NetworkManager reports full connectivity".to_string(),
                        ),
                    ),
                    Connectivity::Portal => self.captive_portal(
                        Connection {
                            ssid: ssid.to_string(),
                            connection_uuid: connection_uuid.to_string(),
                        },
                        now,
                    ),
                    _ => self.settle(
                        Snapshot::on_network(
                            State::WaitingForNetworkManager,
                            ssid.to_string(),
                            text::concat3(
                                "NetworkManager connectivity is ",
                                connectivity.name(),
                                " — waiting",
                            ),
                        ),
                    ),
                }
            },
        }
    }

    fn captive_portal(&mut self, connection: Connection, now: u64) -> (action: Action)
        ensures
            (final(self)@, action@) == old(self)@.captive_portal(connection@, now as nat),
    {
        match &self.portal_retry {
            Some(retry) => {
                if retry.matches(&connection) {
                    if now < retry.deadline {
                        let remaining: u64 = retry.deadline - now;
                        let snapshot = captive_snapshot(
                            &connection,
                            retry.message.as_str(),
                            remaining,
                        );
                        return self.report(snapshot, Some(remaining));
                    }
                    self.portal_retry = None;
                } else {
                    self.reset_portal_backoff();
                }
            },
            None => {},
        }
        self.phase = Phase::LoadingCredentials(connection);
        Action::LoadCredentials
    }

    fn credentials_loaded(&mut self, loaded: Result<(String, String), CredsError>) -> (action:
        Action)
        requires
            old(self)@.phase is LoadingCredentials,
        ensures
            (final(self)@, action@) == old(self)@.credentials_loaded(
                old(self)@.phase->LoadingCredentials_0,
                keyring::load_view(loaded),
            ),
    {
        let connection = self.pending_connection();
        match loaded {
            Ok((username, password)) => {
                self.keyring_resync_pending = false;
                self.phase = Phase::LoggingIn(connection);
                Action::SubmitLogin { username, password }
            },
            Err(CredsError::Missing(_)) => self.report(
                Snapshot::on_network(
                    State::CredentialsMissing,
                    connection.ssid,
                    "credentials missing — run `wifilogin creds set <username>`".to_string(),
                ).with_error("credentials missing".to_string()),
                None,
            ),
            Err(CredsError::Unreadable(error)) => {
                let retry = resync_delay(self.keyring_resync_pending);
                self.keyring_resync_pending = true;
                let message = text::concat2(
                    "could not load credentials: ",
                    error.message.as_str(),
                );
                self.report(
                    Snapshot::on_network(State::Error, connection.ssid, message).with_error(
                        error.message,
                    ),
                    retry,
                )
            },
        }
    }

    fn login(&mut self, reply: Result<LoginResult, String>, now: u64) -> (action: Action)
        requires
            old(self)@.phase is LoggingIn,
            reply is Err ==> now + retry_delay(old(self)@.attempts) <= u64::MAX,
        ensures
            (final(self)@, action@) == old(self)@.login_answered(
                old(self)@.phase->LoggingIn_0,
                match reply {
                    Ok(login) => Ok(login),
                    Err(error) => Err(error@),
                },
                now as nat,
            ),
    {
        let connection = self.pending_connection();
        match reply {
            Err(error) => self.retry(
                connection,
                text::concat2("portal login failed: ", error.as_str()),
                now,
            ),
            Ok(login) => {
                if login.outcome == Outcome::BadCredentials {
                    return self.settle(
                        Snapshot::on_network(
                            State::BadCredentials,
                            connection.ssid,
                            "invalid portal credentials — update with `wifilogin creds set`".to_string(),
                        ).with_error("invalid credentials".to_string()),
                    );
                }
                self.phase = Phase::Verifying(connection);
                Action::CheckOnline
            },
        }
    }

    fn online_checked(&mut self, online: Result<bool, String>, now: u64) -> (action: Action)
        requires
            old(self)@.phase is Verifying,
            !(online matches Ok(true)) ==> now + retry_delay(old(self)@.attempts) <= u64::MAX,
        ensures
            (final(self)@, action@) == old(self)@.online_checked(
                old(self)@.phase->Verifying_0,
                match online {
                    Ok(online) => Ok(online),
                    Err(error) => Err(error@),
                },
                now as nat,
            ),
    {
        let connection = self.pending_connection();
        match online {
            Ok(online) => {
                if online {
                    self.settle(
                        Snapshot::on_network(
                            State::Online,
                            connection.ssid,
                            "portal login verified".to_string(),
                        ),
                    )
                } else {
                    self.retry(
                        connection,
                        "portal login did not establish connectivity".to_string(),
                        now,
                    )
                }
            },
            Err(error) => self.retry(
                connection,
                text::concat2("could not verify portal login: ", error.as_str()),
                now,
            ),
        }
    }

    fn retry(&mut self, connection: Connection, message: String, now: u64) -> (action: Action)
        requires
            now + retry_delay(old(self)@.attempts) <= u64::MAX,
        ensures
            (final(self)@, action@) == old(self)@.retry_later(
                connection@,
                message@,
                now as nat,
            ),
    {
        let delay = self.portal_backoff.next();
        let snapshot = captive_snapshot(&connection, message.as_str(), delay);
        self.portal_retry = Some(PortalRetry { connection, deadline: now + delay, message });
        self.report(snapshot, Some(delay))
    }

    fn pending_connection(&self) -> (connection: Connection)
        requires
            self@.phase is LoadingCredentials || self@.phase is LoggingIn || self@.phase is Verifying,
        ensures
            match self@.phase {
                PhaseView::LoadingCredentials(pending) => connection@ == pending,
                PhaseView::LoggingIn(pending) => connection@ == pending,
                PhaseView::Verifying(pending) => connection@ == pending,
                _ => false,
            },
    {
        match &self.phase {
            Phase::LoadingCredentials(connection) => connection.clone(),
            Phase::LoggingIn(connection) => connection.clone(),
            Phase::Verifying(connection) => connection.clone(),
            Phase::Idle | Phase::ReadingNetwork => Connection {
                ssid: String::new(),
                connection_uuid: String::new(),
            },
        }
    }

    fn report(&mut self, snapshot: Snapshot, retry: Option<u64>) -> (action: Action)
        ensures
            final(self)@ == old(self)@.in_phase(PhaseView::Idle),
            action@ == (Action::Report { snapshot, retry })@,
    {
        self.phase = Phase::Idle;
        Action::Report { snapshot, retry }
    }

    fn settle(&mut self, snapshot: Snapshot) -> (action: Action)
        ensures
            (final(self)@, action@) == old(self)@.settle(snapshot@),
    {
        self.reset_portal_backoff();
        self.report(snapshot, None)
    }

    fn reset_portal_backoff(&mut self)
        ensures
            final(self)@ == old(self)@.without_backoff(),
    {
        self.portal_retry = None;
        self.portal_backoff.reset();
    }
}

} // verus!
