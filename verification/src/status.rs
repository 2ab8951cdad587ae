//! What the commands tell the user.

use vstd::prelude::*;

use crate::config::{self, Config, ConfigView};
use crate::daemon::{age, age_text, DaemonState, DaemonStateView};
use crate::failure::Failure;
use crate::keyring::{self, CredsError, CredsErrorView};
use crate::text;
use crate::wifi::{NetworkState, NetworkView};

verus! {

/// What the status command says about the daemon: what it last left, and
/// whether its process lives.
pub open spec fn daemon_report(
    state: Option<(DaemonStateView, bool)>,
    now: nat,
) -> Seq<Seq<char>> {
    match state {
        None => seq!["daemon: not running"@],
        Some((state, false)) => seq![
            "daemon: not running (stale state from pid "@ + text::decimal_text(state.pid)
                + ", updated "@ + age_text(now, state.updated) + " ago)"@,
        ],
        Some((state, true)) => {
            let running = seq![
                "daemon: running (pid "@ + text::decimal_text(state.pid) + ", updated "@
                    + age_text(now, state.updated) + " ago)"@,
                "daemon state: "@ + state.state + " — "@ + state.message,
            ];
            match state.last_error {
                Some(error) => running.push("last error: "@ + error),
                None => running,
            }
        },
    }
}

/// Says what the daemon last left, and whether its process lives.
pub fn daemon_lines(state: Option<(&DaemonState, bool)>, now: u64) -> (lines: Vec<String>)
    ensures
        text::texts(lines@) == daemon_report(
            match state {
                Some((state, alive)) => Some((state@, alive)),
                None => None,
            },
            now as nat,
        ),
{
    let mut lines: Vec<String> = Vec::new();
    match state {
        None => lines.push("daemon: not running".to_string()),
        Some((state, alive)) => {
            if alive {
                lines.push(
                    "daemon: running (pid ".to_string().concat(
                        text::decimal(state.pid as u64).as_str(),
                    ).concat(", updated ").concat(age(now, state.updated).as_str()).concat(
                        " ago)",
                    ),
                );
                lines.push(
                    "daemon state: ".to_string().concat(state.state.as_str()).concat(
                        " — ",
                    ).concat(state.message.as_str()),
                );
                if let Some(error) = &state.last_error {
                    lines.push(text::concat2("last error: ", error.as_str()));
                }
            } else {
                lines.push(
                    "daemon: not running (stale state from pid ".to_string().concat(
                        text::decimal(state.pid as u64).as_str(),
                    ).concat(", updated ").concat(age(now, state.updated).as_str()).concat(
                        " ago)",
                    ),
                );
            }
        },
    }
    lines
}

/// What the status command says about the network. Without a valid
/// configuration no network is allowed.
pub open spec fn network_report(config: Option<ConfigView>, network: NetworkView) -> Seq<
    Seq<char>,
> {
    match network {
        NetworkView::Disconnected => seq!["wifi: disconnected"@],
        NetworkView::Connected { ssid, connection_uuid, is_default, connectivity, .. } => {
            let allowed = config matches Some(config) && config.covers(
                ssid,
                connection_uuid,
            );
            seq![
                "wifi: "@ + ssid + " (allowed portal network: "@ + (if allowed {
                    "true"@
                } else {
                    "false"@
                }) + ")"@,
                "NetworkManager connection: "@ + connection_uuid,
                "default route: "@ + (if is_default {
                    "wifi"@
                } else {
                    "another connection"@
                }),
                "NetworkManager connectivity: "@ + connectivity.text(),
            ]
        },
    }
}

/// Says what the network looks like.
pub fn network_lines(config: Option<&Config>, network: &NetworkState) -> (lines: Vec<String>)
    ensures
        text::texts(lines@) == network_report(
            match config {
                Some(config) => Some(config@),
                None => None,
            },
            network@,
        ),
{
    let mut lines: Vec<String> = Vec::new();
    match network {
        NetworkState::Disconnected => lines.push("wifi: disconnected".to_string()),
        NetworkState::Connected { ssid, connection_uuid, is_default, connectivity, .. } => {
            let allowed = match config {
                Some(config) => config.covers(ssid.as_str(), connection_uuid.as_str()),
                None => false,
            };
            lines.push(
                "wifi: ".to_string().concat(ssid.as_str()).concat(
                    " (allowed portal network: ",
                ).concat(if allowed { "true" } else { "false" }).concat(")"),
            );
            lines.push(text::concat2("NetworkManager connection: ", connection_uuid.as_str()));
            lines.push(
                text::concat2(
                    "default route: ",
                    if *is_default { "wifi" } else { "another connection" },
                ),
            );
            lines.push(text::concat2("NetworkManager connectivity: ", connectivity.name()));
        },
    }
    lines
}

/// What the status command says about the credentials.
pub open spec fn creds_report(
    username: Option<Seq<char>>,
    password: Result<Seq<char>, CredsErrorView>,
) -> Seq<char> {
    match (username, password) {
        (Some(username), Ok(_)) => "creds: password present ("@ + username + ")"@,
        (None, Ok(_)) => "creds: password present; username missing from config"@,
        (Some(username), Err(CredsErrorView::Missing)) => "creds: password missing ("@ + username
            + ")"@,
        (None, Err(CredsErrorView::Missing)) => "creds: username and password missing"@,
        (_, Err(error)) => "creds: error: "@ + error.text(),
    }
}

/// Says which credentials there are. The password itself is never told.
pub fn creds_line(username: Option<&str>, password: &Result<String, CredsError>) -> (line: String)
    ensures
        line@ == creds_report(text::opt_str(username), keyring::password_view(*password)),
{
    match (username, password) {
        (Some(username), Ok(_)) => text::concat3("creds: password present (", username, ")"),
        (None, Ok(_)) => "creds: password present; username missing from config".to_string(),
        (Some(username), Err(CredsError::Missing(_))) => text::concat3(
            "creds: password missing (",
            username,
            ")",
        ),
        (None, Err(CredsError::Missing(_))) => "creds: username and password missing".to_string(),
        (_, Err(error)) => text::concat2("creds: error: ", error.message().as_str()),
    }
}

/// The status command never tells the password.
pub proof fn password_is_never_told(
    username: Option<Seq<char>>,
    one: Seq<char>,
    other: Seq<char>,
)
    ensures
        creds_report(username, Ok(one)) == creds_report(username, Ok(other)),
{
}

/// Says whether the keyring holds a password. What keeps it from answering
/// comes back as the failure.
pub fn creds_get(password: &Result<String, CredsError>) -> (r: Result<String, Failure>)
    ensures
        match keyring::password_view(*password) {
            Ok(_) => r matches Ok(line) && line@ == "password present in keyring"@,
            Err(CredsErrorView::Missing) => r matches Ok(line) && line@
                == "no password in keyring"@,
            Err(CredsErrorView::Unreadable(error)) => r matches Err(failure) && failure@ == error,
        },
{
    match password {
        Ok(_) => Ok("password present in keyring".to_string()),
        Err(CredsError::Missing(_)) => Ok("no password in keyring".to_string()),
        Err(CredsError::Unreadable(error)) => Err(error.clone()),
    }
}

/// The configuration in which a username is set: the one that exists, or else
/// the default one. Nothing but the username changes.
pub fn with_username(existing: Option<Config>, username: String) -> (config: Config)
    ensures
        config@ == (ConfigView {
            username: Some(username@),
            targets: match existing {
                Some(existing) => existing@.targets,
                None => Seq::empty(),
            },
        }),
{
    let mut config = match existing {
        Some(existing) => existing,
        None => Config::default(),
    };
    config.username = Some(username);
    config
}

/// Says that automatic login is on or paused.
pub fn pause_line(enabled: bool) -> (line: String)
    ensures
        line@ == "automatic portal login "@ + (if enabled {
            "enabled"@
        } else {
            "paused"@
        }),
{
    text::concat2("automatic portal login ", if enabled { "enabled" } else { "paused" })
}

/// Says what the connectivity check found, with the exit code that tells it.
pub fn online_report(online: Result<bool, Failure>) -> (r: (String, u8))
    ensures
        match online {
            Ok(true) => r.0@ == "online"@ && r.1 == 0,
            Ok(false) => r.0@ == "captive/offline"@ && r.1 == 1,
            Err(error) => r.0@ == "error: "@ + error@.one_line() && r.1 == 2,
        },
{
    match online {
        Ok(online) => {
            if online {
                ("online".to_string(), 0)
            } else {
                ("captive/offline".to_string(), 1)
            }
        },
        Err(error) => (text::concat2("error: ", error.one_line().as_str()), 2),
    }
}

/// The username in a line that was typed: what is left of it without the
/// white space around it, unless nothing is.
pub fn read_username(line: &str) -> (r: Result<String, String>)
    ensures
        match r {
            Ok(username) => username@ == text::trimmed(line@) && username@.len() > 0,
            Err(error) => text::trimmed(line@).len() == 0 && error@ == "username is required"@,
        },
{
    let username = text::trim(line);
    if username.as_str().is_empty() {
        return Err("username is required".to_string());
    }
    Ok(username)
}

/// A username that was typed is one that a configuration may hold.
pub proof fn typed_username_is_valid(line: Seq<char>)
    requires
        text::trimmed(line).len() > 0,
    ensures
        config::setup_view(text::trimmed(line)).valid(),
{
    text::trimmed_is_not_blank(line);
    config::setup_is_valid(text::trimmed(line));
}

/// The password in what came through a pipe: all of it but the line breaks at
/// its end, unless nothing is left.
pub fn read_piped_password(input: &str) -> (r: Result<String, String>)
    ensures
        match r {
            Ok(password) => password@ == text::without_line_end(input@) && password@.len() > 0,
            Err(error) => text::without_line_end(input@).len() == 0 && error@
                == "empty password on stdin"@,
        },
{
    let password = text::trim_line_end(input);
    if password.as_str().is_empty() {
        return Err("empty password on stdin".to_string());
    }
    Ok(password)
}

/// The password that was typed twice, unless the two differ or are empty.
pub fn read_typed_password(password: String, confirmation: String) -> (r: Result<String, String>)
    ensures
        match r {
            Ok(accepted) => accepted@ == password@ && password@ == confirmation@ && password@.len()
                > 0,
            Err(error) => if password@ != confirmation@ {
                error@ == "passwords do not match"@
            } else {
                password@.len() == 0 && error@ == "password is required"@
            },
        },
{
    if password != confirmation {
        return Err("passwords do not match".to_string());
    }
    if password.as_str().is_empty() {
        return Err("password is required".to_string());
    }
    Ok(password)
}

/// The status command says that a network is allowed exactly when a valid
/// configuration has a target that covers the connection, whatever its
/// activation and route; then it names the connection, says whether Wi-Fi owns
/// the default route, and tells NetworkManager's assessment.
pub proof fn status_tells_the_network(
    config: Option<ConfigView>,
    ssid: Seq<char>,
    connection_uuid: Seq<char>,
    is_activated: bool,
    is_default: bool,
    connectivity: crate::wifi::Connectivity,
)
    ensures
        ({
            let lines = network_report(
                config,
                NetworkView::Connected {
                    ssid,
                    connection_uuid,
                    is_activated,
                    is_default,
                    connectivity,
                },
            );
            let allowed = config is Some && config->0.covers(ssid, connection_uuid);
            &&& lines.len() == 4
            &&& allowed ==> lines[0] == "wifi: "@ + ssid + " (allowed portal network: "@ + "true"@
                + ")"@
            &&& !allowed ==> lines[0] == "wifi: "@ + ssid + " (allowed portal network: "@
                + "false"@ + ")"@
            &&& lines[1] == "NetworkManager connection: "@ + connection_uuid
            &&& is_default ==> lines[2] == "default route: "@ + "wifi"@
            &&& !is_default ==> lines[2] == "default route: "@ + "another connection"@
            &&& lines[3] == "NetworkManager connectivity: "@ + connectivity.text()
        }),
        network_report(config, NetworkView::Disconnected) == seq!["wifi: disconnected"@],
{
}

/// The status command tells a daemon that left nothing from one that is gone
/// and one that lives. Only of one that lives does it tell the finding, and the
/// error exactly when there is one.
pub proof fn status_tells_the_daemon(state: DaemonStateView, now: nat)
    ensures
        daemon_report(None, now) == seq!["daemon: not running"@],
        daemon_report(Some((state, false)), now).len() == 1,
        daemon_report(Some((state, false)), now)[0] == "daemon: not running (stale state from pid "@
            + text::decimal_text(state.pid) + ", updated "@ + age_text(now, state.updated)
            + " ago)"@,
        daemon_report(Some((state, true)), now).len() == (if state.last_error is Some {
            3nat
        } else {
            2nat
        }),
        daemon_report(Some((state, true)), now)[0] == "daemon: running (pid "@
            + text::decimal_text(state.pid) + ", updated "@ + age_text(now, state.updated)
            + " ago)"@,
        daemon_report(Some((state, true)), now)[1] == "daemon state: "@ + state.state + " — "@
            + state.message,
        state.last_error matches Some(error) ==> daemon_report(Some((state, true)), now)[2]
            == "last error: "@ + error,
{
}

/// The status command tells which half of the credentials is there: the
/// username by its text, the password by a word; and an unreadable keyring by
/// its failure, with or without a username.
pub proof fn status_tells_the_credentials(
    username: Seq<char>,
    password: Seq<char>,
    error: crate::failure::FailureView,
)
    ensures
        creds_report(Some(username), Ok(password)) == "creds: password present ("@ + username
            + ")"@,
        creds_report(Some(username), Err(CredsErrorView::Missing)) == "creds: password missing ("@
            + username + ")"@,
        creds_report(None, Ok(password)) == "creds: password present; username missing from config"@,
        creds_report(None, Err(CredsErrorView::Missing)) == "creds: username and password missing"@,
        creds_report(Some(username), Err(CredsErrorView::Unreadable(error))) == "creds: error: "@
            + error.message,
        creds_report(None, Err(CredsErrorView::Unreadable(error))) == "creds: error: "@
            + error.message,
{
}

} // verus!
