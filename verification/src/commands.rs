//! What the commands decide and say.

use vstd::prelude::*;

use crate::config::{Config, ConfigView, PermissionView, PortalPermission};
use crate::failure::{Failure, FailureView};
use crate::keyring::{CredsError, CredsErrorView};
use crate::portal::{LoginResult, Outcome, PORTAL_URL};
use crate::session::{Connection, ConnectionView};
use crate::text;
use crate::wifi::{Connectivity, NetworkState, NetworkView};

verus! {

/// Why a login is refused under this standing of the network.
pub open spec fn refusal(permission: PermissionView) -> Seq<char> {
    match permission {
        PermissionView::Disconnected => "refusing portal login: Wi-Fi is disconnected"@,
        PermissionView::OtherNetwork(ssid) => "refusing portal login: "@ + ssid
            + " is not an allowed target Wi-Fi network"@,
        PermissionView::Connecting(ssid) => "refusing portal login: "@ + ssid
            + " is still changing state"@,
        PermissionView::TargetNotDefault(ssid) => "refusing portal login: "@ + ssid
            + " is not the default route"@,
        PermissionView::Allowed { .. } => Seq::empty(),
    }
}

/// The connection that may receive credentials now, or why there is none.
pub open spec fn authorized(permission: PermissionView) -> Result<ConnectionView, Seq<char>> {
    match permission {
        PermissionView::Allowed { ssid, connection_uuid, .. } => Ok(
            ConnectionView { ssid, connection_uuid },
        ),
        _ => Err(refusal(permission)),
    }
}

/// The explicit login shares the daemon's network-identity guard. It may
/// bypass NetworkManager's `Portal` assessment, but never the target,
/// activation, or default-route requirements.
pub fn require_authorized_connection(config: &Config, network: &NetworkState) -> (r: Result<
    Connection,
    String,
>)
    ensures
        match r {
            Ok(connection) => authorized(config@.permission(network@)) == Ok::<
                ConnectionView,
                Seq<char>,
            >(connection@),
            Err(message) => authorized(config@.permission(network@)) == Err::<
                ConnectionView,
                Seq<char>,
            >(message@),
        },
{
    match config.portal_permission(network) {
        PortalPermission::Allowed { ssid, connection_uuid, .. } => Ok(
            Connection { ssid: ssid.to_string(), connection_uuid: connection_uuid.to_string() },
        ),
        PortalPermission::Disconnected => Err(
            "refusing portal login: Wi-Fi is disconnected".to_string(),
        ),
        PortalPermission::OtherNetwork(ssid) => Err(
            text::concat3(
                "refusing portal login: ",
                ssid,
                " is not an allowed target Wi-Fi network",
            ),
        ),
        PortalPermission::Connecting(ssid) => Err(
            text::concat3("refusing portal login: ", ssid, " is still changing state"),
        ),
        PortalPermission::TargetNotDefault(ssid) => Err(
            text::concat3("refusing portal login: ", ssid, " is not the default route"),
        ),
    }
}

/// What the explicit login is waiting for.
#[derive(Debug)]
pub enum Login {
    /// The first read of the network.
    Authorizing,
    /// The password.
    LoadingPassword { connection: Connection },
    /// The second read of the network.
    Confirming { connection: Connection, password: String },
    /// The portal's answer.
    LoggingIn,
    /// The connectivity check.
    Verifying,
    /// Nothing.
    Over,
}

/// What a [`Login`] says.
pub enum LoginView {
    Authorizing,
    LoadingPassword { connection: ConnectionView },
    Confirming { connection: ConnectionView, password: Seq<char> },
    LoggingIn,
    Verifying,
    Over,
}

impl View for Login {
    type V = LoginView;

    open spec fn view(&self) -> LoginView {
        match *self {
            Login::Authorizing => LoginView::Authorizing,
            Login::LoadingPassword { connection } => LoginView::LoadingPassword {
                connection: connection@,
            },
            Login::Confirming { connection, password } => LoginView::Confirming {
                connection: connection@,
                password: password@,
            },
            Login::LoggingIn => LoginView::LoggingIn,
            Login::Verifying => LoginView::Verifying,
            Login::Over => LoginView::Over,
        }
    }
}

/// What the explicit login is told.
#[derive(Debug)]
pub enum LoginInput {
    Network(Result<NetworkState, Failure>),
    Password(Result<String, CredsError>),
    Reply(Result<LoginResult, Failure>),
    Online(Result<bool, Failure>),
}

/// What a [`LoginInput`] says.
pub enum LoginInputView {
    Network(Result<NetworkView, FailureView>),
    Password(Result<Seq<char>, CredsErrorView>),
    Reply(Result<LoginResult, FailureView>),
    Online(Result<bool, FailureView>),
}

impl View for LoginInput {
    type V = LoginInputView;

    open spec fn view(&self) -> LoginInputView {
        match *self {
            LoginInput::Network(Ok(network)) => LoginInputView::Network(Ok(network@)),
            LoginInput::Network(Err(error)) => LoginInputView::Network(Err(error@)),
            LoginInput::Password(Ok(password)) => LoginInputView::Password(Ok(password@)),
            LoginInput::Password(Err(error)) => LoginInputView::Password(Err(error@)),
            LoginInput::Reply(Ok(login)) => LoginInputView::Reply(Ok(login)),
            LoginInput::Reply(Err(error)) => LoginInputView::Reply(Err(error@)),
            LoginInput::Online(Ok(online)) => LoginInputView::Online(Ok(online)),
            LoginInput::Online(Err(error)) => LoginInputView::Online(Err(error@)),
        }
    }
}

/// What the explicit login asks for.
#[derive(Debug)]
pub enum LoginAction {
    /// Read the state of the network.
    ReadNetwork,
    /// Load the password.
    LoadPassword,
    /// Say so, and post the login form.
    Submit { line: String, username: String, password: String },
    /// Say so, and check connectivity once.
    CheckOnline { line: String },
    /// Say so, and end with an exit code.
    Exit { line: String, code: u8 },
    /// Fail.
    Fail { failure: Failure },
}

/// What a [`LoginAction`] says.
pub enum LoginActionView {
    ReadNetwork,
    LoadPassword,
    Submit { line: Seq<char>, username: Seq<char>, password: Seq<char> },
    CheckOnline { line: Seq<char> },
    Exit { line: Seq<char>, code: u8 },
    Fail { failure: FailureView },
}

impl View for LoginAction {
    type V = LoginActionView;

    open spec fn view(&self) -> LoginActionView {
        match *self {
            LoginAction::ReadNetwork => LoginActionView::ReadNetwork,
            LoginAction::LoadPassword => LoginActionView::LoadPassword,
            LoginAction::Submit { line, username, password } => LoginActionView::Submit {
                line: line@,
                username: username@,
                password: password@,
            },
            LoginAction::CheckOnline { line } => LoginActionView::CheckOnline { line: line@ },
            LoginAction::Exit { line, code } => LoginActionView::Exit { line: line@, code },
            LoginAction::Fail { failure } => LoginActionView::Fail { failure: failure@ },
        }
    }
}

/// What the portal answered, in words.
pub open spec fn reply_line(login: LoginResult) -> Seq<char> {
    "portal: "@ + login.outcome.text() + " (HTTP "@ + text::decimal_text(login.http_status as nat)
        + ")"@
}

impl LoginView {
    /// The login is over, without success.
    pub open spec fn fail(failure: FailureView) -> (Self, LoginActionView) {
        (Self::Over, LoginActionView::Fail { failure })
    }

    /// The login is over for a reason that has no further cause.
    pub open spec fn refuse(message: Seq<char>) -> (Self, LoginActionView) {
        Self::fail(FailureView::plain(message))
    }

    /// The input is what the login is waiting for.
    pub open spec fn awaits(self, input: LoginInputView) -> bool {
        match input {
            LoginInputView::Network(_) => self is Authorizing || self is Confirming,
            LoginInputView::Password(_) => self is LoadingPassword,
            LoginInputView::Reply(_) => self is LoggingIn,
            LoginInputView::Online(_) => self is Verifying,
        }
    }

    /// What the login makes of an input that it awaits. The network must be
    /// authorized, and authorized again as the same connection once the
    /// password is there.
    pub open spec fn step(self, config: ConfigView, input: LoginInputView) -> (
        Self,
        LoginActionView,
    ) {
        match (self, input) {
            (Self::Authorizing, LoginInputView::Network(Err(error))) => Self::fail(error),
            (Self::Authorizing, LoginInputView::Network(Ok(network))) => match authorized(
                config.permission(network),
            ) {
                Err(message) => Self::refuse(message),
                Ok(connection) => if config.username is None {
                    Self::refuse(
                        "no username — run `wifilogin setup` or `wifilogin creds set <username>`"@,
                    )
                } else {
                    (Self::LoadingPassword { connection }, LoginActionView::LoadPassword)
                },
            },
            (Self::LoadingPassword { .. }, LoginInputView::Password(Err(error))) => Self::fail(
                error.failure().context(
                    "no password — run `wifilogin setup` or `wifilogin creds set <username>`"@,
                ),
            ),
            (
                Self::LoadingPassword { connection },
                LoginInputView::Password(Ok(password)),
            ) => (Self::Confirming { connection, password }, LoginActionView::ReadNetwork),
            (Self::Confirming { .. }, LoginInputView::Network(Err(error))) => Self::fail(error),
            (
                Self::Confirming { connection, password },
                LoginInputView::Network(Ok(network)),
            ) => match (authorized(config.permission(network)), config.username) {
                (Err(message), _) => Self::refuse(message),
                (Ok(now), Some(username)) => if now == connection {
                    (
                        Self::LoggingIn,
                        LoginActionView::Submit {
                            line: "logging in to "@ + PORTAL_URL@ + " as "@ + username + "…"@,
                            username,
                            password,
                        },
                    )
                } else {
                    Self::refuse("refusing portal login: the active Wi-Fi connection changed"@)
                },
                (Ok(_), None) => Self::refuse(
                    "no username — run `wifilogin setup` or `wifilogin creds set <username>`"@,
                ),
            },
            (Self::LoggingIn, LoginInputView::Reply(Err(error))) => Self::fail(error),
            (Self::LoggingIn, LoginInputView::Reply(Ok(login))) => if login.outcome
                == Outcome::BadCredentials {
                (Self::Over, LoginActionView::Exit { line: reply_line(login), code: 1 })
            } else {
                (Self::Verifying, LoginActionView::CheckOnline { line: reply_line(login) })
            },
            (Self::Verifying, LoginInputView::Online(online)) => if online == Ok::<
                bool,
                FailureView,
            >(true) {
                (Self::Over, LoginActionView::Exit { line: "connectivity: online"@, code: 0 })
            } else {
                (
                    Self::Over,
                    LoginActionView::Exit {
                        line: "connectivity: still captive/offline"@,
                        code: 1,
                    },
                )
            },
            _ => arbitrary(),
        }
    }
}

fn fail(failure: Failure) -> (r: (Login, LoginAction))
    ensures
        (r.0@, r.1@) == LoginView::fail(failure@),
{
    (Login::Over, LoginAction::Fail { failure })
}

fn refuse(message: &str) -> (r: (Login, LoginAction))
    ensures
        (r.0@, r.1@) == LoginView::refuse(message@),
{
    fail(Failure::plain(message.to_string()))
}

fn write_reply_line(login: LoginResult) -> (line: String)
    ensures
        line@ == reply_line(login),
{
    "portal: ".to_string().concat(login.outcome.name()).concat(" (HTTP ").concat(
        text::decimal(login.http_status as u64).as_str(),
    ).concat(")")
}

impl Login {
    /// A login that has not begun; the network is to be read first.
    pub fn new() -> (login: Self)
        ensures
            login@ == LoginView::Authorizing,
    {
        Login::Authorizing
    }

    /// Takes an input that the login awaits and says what to do next.
    pub fn step(self, config: &Config, input: LoginInput) -> (r: (Login, LoginAction))
        requires
            self@.awaits(input@),
        ensures
            (r.0@, r.1@) == self@.step(config@, input@),
    {
        match (self, input) {
            (Self::Authorizing, LoginInput::Network(Err(error))) => fail(error),
            (Self::Authorizing, LoginInput::Network(Ok(network))) => {
                match require_authorized_connection(config, &network) {
                    Err(message) => refuse(message.as_str()),
                    Ok(connection) => {
                        if config.username.is_none() {
                            return refuse(
                                "no username — run `wifilogin setup` or `wifilogin creds set <username>`",
                            );
                        }
                        (Self::LoadingPassword { connection }, LoginAction::LoadPassword)
                    },
                }
            },
            (Self::LoadingPassword { .. }, LoginInput::Password(Err(error))) => fail(
                error.failure().context(
                    "no password — run `wifilogin setup` or `wifilogin creds set <username>`",
                ),
            ),
            (Self::LoadingPassword { connection }, LoginInput::Password(Ok(password))) => (
                Self::Confirming { connection, password },
                LoginAction::ReadNetwork,
            ),
            (Self::Confirming { .. }, LoginInput::Network(Err(error))) => fail(error),
            (Self::Confirming { connection, password }, LoginInput::Network(Ok(network))) => {
                match (require_authorized_connection(config, &network), &config.username) {
                    (Err(message), _) => refuse(message.as_str()),
                    (Ok(now), Some(username)) => {
                        if !(now.ssid == connection.ssid && now.connection_uuid
                            == connection.connection_uuid) {
                            return refuse(
                                "refusing portal login: the active Wi-Fi connection changed",
                            );
                        }
                        let line = "logging in to ".to_string().concat(PORTAL_URL).concat(
                            " as ",
                        ).concat(username.as_str()).concat("…");
                        (
                            Self::LoggingIn,
                            LoginAction::Submit { line, username: username.clone(), password },
                        )
                    },
                    (Ok(_), None) => refuse(
                        "no username — run `wifilogin setup` or `wifilogin creds set <username>`",
                    ),
                }
            },
            (Self::LoggingIn, LoginInput::Reply(Err(error))) => fail(error),
            (Self::LoggingIn, LoginInput::Reply(Ok(login))) => {
                let line = write_reply_line(login);
                if login.outcome == Outcome::BadCredentials {
                    return (Self::Over, LoginAction::Exit { line, code: 1 });
                }
                (Self::Verifying, LoginAction::CheckOnline { line })
            },
            (Self::Verifying, LoginInput::Online(online)) => {
                let verified = match online {
                    Ok(online) => online,
                    Err(_) => false,
                };
                if verified {
                    (
                        Self::Over,
                        LoginAction::Exit { line: "connectivity: online".to_string(), code: 0 },
                    )
                } else {
                    (
                        Self::Over,
                        LoginAction::Exit {
                            line: "connectivity: still captive/offline".to_string(),
                            code: 1,
                        },
                    )
                }
            },
            _ => refuse(""),
        }
    }
}

/// The explicit login posts credentials only when the network is a target
/// connection, active and the default route, both before and after the
/// password is loaded, and the same one both times.
pub proof fn explicit_login_needs_permission(
    config: ConfigView,
    first: LoginInputView,
    loaded: LoginInputView,
    second: LoginInputView,
)
    requires
        ({
            let (authorized, _) = LoginView::Authorizing.step(config, first);
            let (ready, _) = authorized.step(config, loaded);
            &&& LoginView::Authorizing.awaits(first)
            &&& authorized.awaits(loaded)
            &&& ready.awaits(second)
            &&& ready.step(config, second).1 is Submit
        }),
    ensures
        first matches LoginInputView::Network(Ok(before)) && second matches LoginInputView::Network(
            Ok(after),
        ) && {
            &&& config.permission(before) is Allowed
            &&& config.permission(after) is Allowed
            &&& authorized(config.permission(before)) == authorized(config.permission(after))
            &&& loaded matches LoginInputView::Password(Ok(password)) && config.username matches Some(
                username,
            ) && LoginView::Authorizing.step(config, first).0.step(config, loaded).0.step(
                config,
                second,
            ).1 == (LoginActionView::Submit {
                line: "logging in to "@ + PORTAL_URL@ + " as "@ + username + "…"@,
                username,
                password,
            })
        },
{
}

/// Whatever NetworkManager thinks of its connectivity, a connection that may
/// receive credentials is authorized as itself, and no other standing of the
/// network authorizes anything.
pub proof fn every_allowed_connection_is_authorized(permission: PermissionView)
    ensures
        permission matches PermissionView::Allowed { ssid, connection_uuid, .. } ==> authorized(
            permission,
        ) == Ok::<ConnectionView, Seq<char>>(ConnectionView { ssid, connection_uuid }),
        !(permission is Allowed) ==> authorized(permission) is Err,
{
}

/// On one and the same connection, covered by a target, active and the default
/// route, the explicit login posts the configured username with the password
/// that was loaded, whatever the connectivity is at either read, and then
/// checks connectivity.
pub proof fn explicit_login_goes_through(
    config: ConfigView,
    ssid: Seq<char>,
    connection_uuid: Seq<char>,
    before: Connectivity,
    after: Connectivity,
    username: Seq<char>,
    password: Seq<char>,
    login: LoginResult,
)
    requires
        config.covers(ssid, connection_uuid),
        config.username == Some(username),
        login.outcome != Outcome::BadCredentials,
    ensures
        ({
            let network = |connectivity: Connectivity|
                LoginInputView::Network(
                    Ok(
                        NetworkView::Connected {
                            ssid,
                            connection_uuid,
                            is_activated: true,
                            is_default: true,
                            connectivity,
                        },
                    ),
                );
            let (authorized, first) = LoginView::Authorizing.step(config, network(before));
            let (ready, second) = authorized.step(config, LoginInputView::Password(Ok(password)));
            let (submitted, third) = ready.step(config, network(after));
            let (_, fourth) = submitted.step(config, LoginInputView::Reply(Ok(login)));
            &&& LoginView::Authorizing.awaits(network(before))
            &&& first is LoadPassword
            &&& authorized.awaits(LoginInputView::Password(Ok(password)))
            &&& second is ReadNetwork
            &&& ready.awaits(network(after))
            &&& third matches LoginActionView::Submit { username: posted, password: secret, .. }
                && posted == username && secret == password
            &&& submitted.awaits(LoginInputView::Reply(Ok(login)))
            &&& fourth is CheckOnline
        }),
{
}

/// The explicit login ends well exactly when the connectivity check says so,
/// and nothing is checked after the portal rejected the credentials.
pub proof fn explicit_login_ends_by_the_check(
    config: ConfigView,
    login: LoginView,
    input: LoginInputView,
)
    requires
        login.awaits(input),
    ensures
        ({
            let (next, action) = login.step(config, input);
            &&& (action matches LoginActionView::Exit { code, .. } && code == 0) <==> input
                == LoginInputView::Online(Ok(true))
            &&& action matches LoginActionView::Exit { code, .. } ==> code == 0 || code == 1
            &&& action is CheckOnline <==> (input matches LoginInputView::Reply(Ok(answer))
                && answer.outcome != Outcome::BadCredentials)
            &&& action is Exit <==> input is Online || (input matches LoginInputView::Reply(
                Ok(answer),
            ) && answer.outcome == Outcome::BadCredentials)
            &&& action is Exit || action is Fail <==> next is Over
        }),
{
}

/// What could not be read or was not answered is what the explicit login fails
/// with; a password that could not be loaded is named as the cause.
pub proof fn explicit_login_fails_with_the_cause(
    config: ConfigView,
    login: LoginView,
    failure: FailureView,
    error: CredsErrorView,
)
    ensures
        login is Authorizing || login is Confirming ==> login.step(
            config,
            LoginInputView::Network(Err(failure)),
        ).1 == (LoginActionView::Fail { failure }),
        login is LoggingIn ==> login.step(config, LoginInputView::Reply(Err(failure))).1 == (
        LoginActionView::Fail { failure }),
        login is LoadingPassword ==> (login.step(
            config,
            LoginInputView::Password(Err(error)),
        ).1 matches LoginActionView::Fail { failure: told } && told.causes.len() > 0
            && told.causes[0] == error.text()),
{
}

/// Another connection at the second read ends the explicit login, also where it
/// would be allowed by itself.
pub proof fn explicit_login_stays_with_the_connection(
    config: ConfigView,
    connection: ConnectionView,
    password: Seq<char>,
    network: NetworkView,
)
    requires
        !(network matches NetworkView::Connected { ssid, connection_uuid, .. } && ssid
            == connection.ssid && connection_uuid == connection.connection_uuid),
    ensures
        (LoginView::Confirming { connection, password }).step(
            config,
            LoginInputView::Network(Ok(network)),
        ).1 is Fail,
{
}

/// The explicit login goes on to the password exactly when the first read shows
/// a connection that may receive credentials and a username is configured. A
/// network that may not is refused for that, with or without a username.
pub proof fn explicit_login_begins_with_permission(config: ConfigView, network: NetworkView)
    ensures
        ({
            let (next, action) = LoginView::Authorizing.step(
                config,
                LoginInputView::Network(Ok(network)),
            );
            let permission = config.permission(network);
            &&& action is LoadPassword <==> permission is Allowed && config.username is Some
            &&& !(permission is Allowed) ==> (action matches LoginActionView::Fail { failure }
                && failure.message == refusal(permission) && failure.causes.len() == 0)
            &&& action is LoadPassword || action is Fail
        }),
{
}

/// A refusal names the network and says what stands against it.
pub proof fn refusals_name_the_network(ssid: Seq<char>)
    ensures
        refusal(PermissionView::Disconnected) == "refusing portal login: Wi-Fi is disconnected"@,
        refusal(PermissionView::OtherNetwork(ssid)) == "refusing portal login: "@ + ssid
            + " is not an allowed target Wi-Fi network"@,
        refusal(PermissionView::Connecting(ssid)) == "refusing portal login: "@ + ssid
            + " is still changing state"@,
        refusal(PermissionView::TargetNotDefault(ssid)) == "refusing portal login: "@ + ssid
            + " is not the default route"@,
{
}

/// The portal's answer is told by its outcome and its status, whatever they are,
/// before anything else is done.
pub proof fn answers_are_told(config: ConfigView, outcome: Outcome, http_status: u16)
    ensures
        ({
            let action = LoginView::LoggingIn.step(
                config,
                LoginInputView::Reply(Ok(LoginResult { outcome, http_status })),
            ).1;
            let told = "portal: "@ + outcome.text() + " (HTTP "@ + text::decimal_text(
                http_status as nat,
            ) + ")"@;
            &&& action matches LoginActionView::Exit { line, .. } ==> line == told
            &&& action matches LoginActionView::CheckOnline { line } ==> line == told
            &&& action is Exit || action is CheckOnline
        }),
{
}

} // verus!
