//! What the controller's answers mean: which facts lead to which finding, what
//! a finding tells, and what is remembered of it.

use vstd::prelude::*;

use crate::config::ConfigView;
use crate::keyring::{CredsErrorView, LoadView};
use crate::portal::Outcome;
use crate::runs::{answer, before, next, proper, Exchange};
use crate::session::{
    counted, duration_text, retry_delay, ActionView, ConnectionView, ControllerView, InputView,
    PhaseView, State,
};
use crate::settings::Settings;
use crate::text;
use crate::wifi::{Connectivity, NetworkView};

verus! {

/// The step is over, and this is the state that it found.
pub open spec fn reports(action: ActionView, state: State) -> bool {
    action matches ActionView::Report { snapshot, .. } && snapshot.state == state
}

/// The connection that the controller is logging in on.
pub open spec fn connection_in(phase: PhaseView) -> ConnectionView {
    match phase {
        PhaseView::LoadingCredentials(connection) => connection,
        PhaseView::LoggingIn(connection) => connection,
        PhaseView::Verifying(connection) => connection,
        _ => arbitrary(),
    }
}

/// A step that begins reads the network exactly when login is not paused and
/// there is a target; else it ends as paused, also without a target, or for
/// want of a target.
pub proof fn begin_reads_unless_idle(
    controller: ControllerView,
    config: ConfigView,
    settings: Settings,
)
    ensures
        ({
            let action = controller.step(config, InputView::Begin { settings }).1;
            &&& action is ReadNetwork <==> settings.enabled && config.targets.len() > 0
            &&& reports(action, State::Paused) <==> !settings.enabled
            &&& reports(action, State::NoTargets) <==> settings.enabled && config.targets.len() == 0
        }),
{
}

/// What a read of the network leads to, fact by fact. A covered, active
/// connection with the default route is online exactly when NetworkManager
/// assesses it as full, is waited for exactly when the assessment is unknown,
/// none or limited, and is logged in on exactly when it is a portal: at once, or
/// at the deadline of a retry that is pending for that very connection.
pub proof fn network_decides_the_finding(
    controller: ControllerView,
    config: ConfigView,
    ssid: Seq<char>,
    connection_uuid: Seq<char>,
    is_activated: bool,
    is_default: bool,
    connectivity: Connectivity,
    now: nat,
)
    requires
        controller.phase is ReadingNetwork,
    ensures
        ({
            let network = NetworkView::Connected {
                ssid,
                connection_uuid,
                is_activated,
                is_default,
                connectivity,
            };
            let action = controller.step(
                config,
                InputView::Network { reading: Ok(network), now },
            ).1;
            let covered = config.covers(ssid, connection_uuid);
            let allowed = covered && is_activated && is_default;
            let held_back = controller.retry matches Some(retry) && retry.connection.ssid == ssid
                && retry.connection.connection_uuid == connection_uuid && now < retry.deadline;
            &&& reports(action, State::OtherNetwork) <==> !covered
            &&& reports(action, State::Connecting) <==> covered && !is_activated
            &&& reports(action, State::TargetNotDefault) <==> covered && is_activated && !is_default
            &&& reports(action, State::Online) <==> allowed && connectivity == Connectivity::Full
            &&& reports(action, State::WaitingForNetworkManager) <==> allowed && (connectivity
                == Connectivity::Unknown || connectivity == Connectivity::Absent || connectivity
                == Connectivity::Limited)
            &&& reports(action, State::Captive) <==> allowed && connectivity
                == Connectivity::Portal && held_back
            &&& action is LoadCredentials <==> allowed && connectivity == Connectivity::Portal
                && !held_back
            &&& action is Report || action is LoadCredentials
        }),
        reports(
            controller.step(
                config,
                InputView::Network { reading: Ok(NetworkView::Disconnected), now },
            ).1,
            State::Disconnected,
        ),
{
}

/// What the lookup of credentials, the portal's answer and the connectivity
/// check lead to.
pub proof fn login_decides_the_finding(
    controller: ControllerView,
    config: ConfigView,
    input: InputView,
)
    requires
        controller.awaits(input),
        input is Credentials || input is Login || input is Online,
    ensures
        ({
            let action = controller.step(config, input).1;
            &&& action is SubmitLogin <==> (input matches InputView::Credentials {
                loaded: LoadView::Loaded { .. },
            })
            &&& input matches InputView::Credentials {
                loaded: LoadView::Loaded { username, password },
            } ==> action == (ActionView::SubmitLogin { username, password })
            &&& action is CheckOnline <==> (input matches InputView::Login { reply: Ok(login), .. }
                && login.outcome != Outcome::BadCredentials)
            &&& reports(action, State::CredentialsMissing) <==> (input
                matches InputView::Credentials {
                loaded: LoadView::Failed(CredsErrorView::Missing),
            })
            &&& reports(action, State::Error) <==> (input matches InputView::Credentials {
                loaded: LoadView::Failed(CredsErrorView::Unreadable(_)),
            })
            &&& reports(action, State::BadCredentials) <==> (input matches InputView::Login {
                reply: Ok(login),
                ..
            } && login.outcome == Outcome::BadCredentials)
            &&& reports(action, State::Online) <==> (input matches InputView::Online {
                online: Ok(true),
                ..
            })
            &&& reports(action, State::Captive) <==> (input matches InputView::Login {
                reply: Err(_),
                ..
            }) || (input matches InputView::Online { online, .. } && online != Ok::<
                bool,
                Seq<char>,
            >(true))
        }),
{
}

/// In every run, `Online` is reported only on a read that shows a covered,
/// active connection with the default route that NetworkManager assesses as
/// full, or on a connectivity check that succeeded.
pub proof fn online_is_never_guessed(start: ControllerView, run: Seq<Exchange>, i: int)
    requires
        proper(start, run),
        0 <= i < run.len(),
        reports(answer(start, run, i), State::Online),
    ensures
        ({
            ||| run[i].input matches InputView::Network {
                reading: Ok(
                    NetworkView::Connected {
                        ssid,
                        connection_uuid,
                        is_activated: true,
                        is_default: true,
                        connectivity: Connectivity::Full,
                    },
                ),
                ..
            } && run[i].config.covers(ssid, connection_uuid)
            ||| run[i].input matches InputView::Online { online: Ok(true), .. }
        }),
{
    reveal(next);
    assert(before(start, run, i).awaits(run[i].input));
}

/// In every run, a read that shows a covered, active connection with the
/// default route is reported as waiting where NetworkManager knows of no
/// connectivity, of none or of limited connectivity, whatever happened before.
pub proof fn unclear_connectivity_is_waited_for(
    start: ControllerView,
    run: Seq<Exchange>,
    i: int,
)
    requires
        proper(start, run),
        0 <= i < run.len(),
        run[i].input matches InputView::Network {
            reading: Ok(
                NetworkView::Connected {
                    ssid,
                    connection_uuid,
                    is_activated: true,
                    is_default: true,
                    connectivity,
                },
            ),
            ..
        } && run[i].config.covers(ssid, connection_uuid) && connectivity != Connectivity::Full
            && connectivity != Connectivity::Portal,
    ensures
        answer(start, run, i) matches ActionView::Report { snapshot, retry } && snapshot.state
            == State::WaitingForNetworkManager && retry is None,
{
    reveal(next);
    assert(before(start, run, i).awaits(run[i].input));
}

/// A finding names the network that it is about: none before one was read or
/// where there is none, the one that was read, or the one that the login is on.
pub proof fn findings_name_their_network(
    controller: ControllerView,
    config: ConfigView,
    input: InputView,
)
    requires
        controller.awaits(input),
    ensures
        controller.step(config, input).1 matches ActionView::Report { snapshot, .. }
            ==> snapshot.current_ssid == match input {
            InputView::Begin { .. } => None,
            InputView::Network { reading: Ok(NetworkView::Connected { ssid, .. }), .. } => Some(
                ssid,
            ),
            InputView::Network { .. } => None,
            _ => Some(connection_in(controller.phase).ssid),
        },
{
}

/// What went wrong stands in a finding exactly when it is captive, an error, or
/// about credentials: the reason of the retry, the failure, or that they are
/// missing or invalid.
pub proof fn findings_tell_what_went_wrong(
    controller: ControllerView,
    config: ConfigView,
    input: InputView,
)
    requires
        controller.awaits(input),
    ensures
        controller.step(config, input).1 matches ActionView::Report { snapshot, .. }
            ==> snapshot.last_error == match input {
            InputView::Begin { .. } => None,
            InputView::Network { reading: Err(error), .. } => Some(error),
            InputView::Network { .. } => if snapshot.state == State::Captive {
                Some(controller.retry->0.message)
            } else {
                None
            },
            InputView::Credentials { loaded: LoadView::Failed(CredsErrorView::Missing) } => Some(
                "credentials missing"@,
            ),
            InputView::Credentials {
                loaded: LoadView::Failed(CredsErrorView::Unreadable(error)),
            } => Some(error.message),
            InputView::Credentials { .. } => None,
            InputView::Login { reply: Err(error), .. } => Some("portal login failed: "@ + error),
            InputView::Login { .. } => Some("invalid credentials"@),
            InputView::Online { online: Ok(true), .. } => None,
            InputView::Online { online: Ok(false), .. } => Some(
                "portal login did not establish connectivity"@,
            ),
            InputView::Online { online: Err(error), .. } => Some(
                "could not verify portal login: "@ + error,
            ),
        },
{
}

/// What a finding says in words, state by state.
pub proof fn findings_say_so(controller: ControllerView, config: ConfigView, input: InputView)
    requires
        controller.awaits(input),
    ensures
        controller.step(config, input).1 matches ActionView::Report { snapshot, retry } ==> {
            let said = snapshot.message;
            match snapshot.state {
                State::Paused => said == "paused — run `wifilogin resume`"@,
                State::NoTargets => said
                    == "no target connections configured — the daemon will not act"@,
                State::Disconnected => said == "Wi-Fi disconnected — waiting for NetworkManager"@,
                State::OtherNetwork => said == "not an allowed NetworkManager connection"@,
                State::Connecting => said
                    == "target Wi-Fi is changing state — waiting for NetworkManager"@,
                State::TargetNotDefault => said
                    == "target Wi-Fi is not the default route — not submitting credentials"@,
                State::WaitingForNetworkManager => {
                    ||| said == "NetworkManager connectivity is "@ + "Unknown"@ + " — waiting"@
                        && (input matches InputView::Network {
                        reading: Ok(
                            NetworkView::Connected { connectivity: Connectivity::Unknown, .. },
                        ),
                        ..
                    })
                    ||| said == "NetworkManager connectivity is "@ + "None"@ + " — waiting"@ && (
                    input matches InputView::Network {
                        reading: Ok(
                            NetworkView::Connected { connectivity: Connectivity::Absent, .. },
                        ),
                        ..
                    })
                    ||| said == "NetworkManager connectivity is "@ + "Limited"@ + " — waiting"@
                        && (input matches InputView::Network {
                        reading: Ok(
                            NetworkView::Connected { connectivity: Connectivity::Limited, .. },
                        ),
                        ..
                    })
                },
                State::Online => said == if input is Network {
                    "NetworkManager reports full connectivity"@
                } else {
                    "portal login verified"@
                },
                State::Captive => (retry matches Some(delay) && snapshot.last_error matches Some(
                    reason,
                ) && said == reason + " — retrying in "@ + duration_text(delay)),
                State::CredentialsMissing => said
                    == "credentials missing — run `wifilogin creds set <username>`"@,
                State::BadCredentials => said
                    == "invalid portal credentials — update with `wifilogin creds set`"@,
                State::Error => (snapshot.last_error matches Some(error) && said == (
                if input is Network {
                    "could not read NetworkManager state: "@
                } else {
                    "could not load credentials: "@
                }) + error),
            }
        },
{
}

/// When another step is asked for, and after how long: until the deadline of
/// the retry that holds a connection back; after the delay of the backoff, which
/// follows an inconclusive answer; after three quarters of a second, which
/// follow the first failed read of the network or of the keyring; and never
/// else.
pub proof fn findings_ask_for_another_step(
    controller: ControllerView,
    config: ConfigView,
    input: InputView,
)
    requires
        controller.awaits(input),
    ensures
        controller.step(config, input).1 matches ActionView::Report { snapshot, retry }
            ==> retry == match input {
            InputView::Begin { .. } => None,
            InputView::Network { reading: Err(_), .. } => if controller.resync_pending {
                None
            } else {
                Some(750_000_000nat)
            },
            InputView::Network { now, .. } => if snapshot.state == State::Captive {
                Some((controller.retry->0.deadline - now) as nat)
            } else {
                None
            },
            InputView::Credentials {
                loaded: LoadView::Failed(CredsErrorView::Unreadable(_)),
            } => if controller.keyring_resync_pending {
                None
            } else {
                Some(750_000_000nat)
            },
            InputView::Credentials { .. } => None,
            InputView::Login { reply: Err(_), .. } => Some(retry_delay(controller.attempts)),
            InputView::Login { .. } => None,
            InputView::Online { online, .. } => if online == Ok::<bool, Seq<char>>(true) {
                None
            } else {
                Some(retry_delay(controller.attempts))
            },
        },
{
}

/// What is remembered of the portal retries. An inconclusive answer is counted
/// and leaves a retry for the connection of the login, due after the delay that
/// was told. A retry is dropped with its count where the network is anything
/// but held back behind its portal, where it was for another connection, after
/// rejected credentials and after success; it is dropped without its count when
/// its time has come. Everything else leaves both as they were.
pub proof fn retries_are_remembered(
    controller: ControllerView,
    config: ConfigView,
    input: InputView,
)
    requires
        controller.awaits(input),
    ensures
        ({
            let (after, action) = controller.step(config, input);
            let kept = after.attempts == controller.attempts && after.retry == controller.retry;
            let dropped = after.attempts == 0 && after.retry is None;
            let inconclusive = |now: nat|
                {
                    &&& after.attempts == counted(controller.attempts)
                    &&& after.retry matches Some(retry) && retry.connection == connection_in(
                        controller.phase,
                    ) && retry.deadline == now + retry_delay(controller.attempts) && (
                    action matches ActionView::Report { snapshot, .. } && snapshot.last_error
                        == Some(retry.message))
                };
            match input {
                InputView::Begin { .. } => kept,
                InputView::Network { reading: Err(_), .. } => kept,
                InputView::Network { .. } => if reports(action, State::Captive) {
                    kept
                } else if action is LoadCredentials {
                    &&& after.retry is None
                    &&& after.phase matches PhaseView::LoadingCredentials(connection)
                        && after.attempts == (if controller.retry matches Some(retry)
                        && retry.connection != connection {
                        0
                    } else {
                        controller.attempts
                    })
                } else {
                    dropped
                },
                InputView::Credentials { .. } => kept,
                InputView::Login { reply: Err(_), now } => inconclusive(now),
                InputView::Login { reply: Ok(login), .. } => if login.outcome
                    == Outcome::BadCredentials {
                    dropped
                } else {
                    kept
                },
                InputView::Online { online, now } => if online == Ok::<bool, Seq<char>>(true) {
                    dropped
                } else {
                    inconclusive(now)
                },
            }
        }),
{
}

/// What is remembered of failed reads, and what is waited for next: each read
/// clears or sets its own mark and no other, and a login stays with the
/// connection that the network was read with.
pub proof fn reads_are_remembered(
    controller: ControllerView,
    config: ConfigView,
    input: InputView,
)
    requires
        controller.awaits(input),
    ensures
        ({
            let (after, action) = controller.step(config, input);
            &&& after.resync_pending == match input {
                InputView::Network { reading, .. } => reading is Err,
                _ => controller.resync_pending,
            }
            &&& after.keyring_resync_pending == match input {
                InputView::Credentials { loaded: LoadView::Loaded { .. } } => false,
                InputView::Credentials {
                    loaded: LoadView::Failed(CredsErrorView::Unreadable(_)),
                } => true,
                _ => controller.keyring_resync_pending,
            }
            &&& match action {
                ActionView::Report { .. } => after.phase is Idle,
                ActionView::ReadNetwork => after.phase is ReadingNetwork,
                ActionView::LoadCredentials => (input matches InputView::Network {
                    reading: Ok(NetworkView::Connected { ssid, connection_uuid, .. }),
                    ..
                } && after.phase == PhaseView::LoadingCredentials(
                    ConnectionView { ssid, connection_uuid },
                )),
                ActionView::SubmitLogin { .. } => after.phase == PhaseView::LoggingIn(
                    connection_in(controller.phase),
                ),
                ActionView::CheckOnline => after.phase == PhaseView::Verifying(
                    connection_in(controller.phase),
                ),
            }
        }),
{
}

/// A controller begins with nothing counted, pending or under way.
pub proof fn controllers_begin_afresh()
    ensures
        ControllerView::initial().attempts == 0,
        ControllerView::initial().retry is None,
        !ControllerView::initial().resync_pending,
        !ControllerView::initial().keyring_resync_pending,
        ControllerView::initial().phase is Idle,
{
}

/// Delays in nanoseconds: thirty seconds at first, twice as long each time, and
/// five minutes at most. Each retry adds one to the count while it can.
pub proof fn delays_double_up_to_five_minutes(attempts: nat)
    ensures
        retry_delay(0) == 30_000_000_000,
        2 * retry_delay(attempts) <= 300_000_000_000 ==> retry_delay(attempts + 1) == 2
            * retry_delay(attempts),
        2 * retry_delay(attempts) > 300_000_000_000 ==> retry_delay(attempts + 1)
            == 300_000_000_000,
        attempts < u32::MAX ==> counted(attempts) == attempts + 1,
        attempts == u32::MAX ==> counted(attempts) == attempts,
{
    crate::runs::retry_delays(0);
    crate::runs::retry_delays(attempts);
    crate::runs::retry_delays(attempts + 1);
}

/// A duration is told in whole seconds of a thousand million nanoseconds, what
/// is left over being dropped, and in minutes where they come out even.
pub proof fn durations_are_told_in_minutes_or_seconds(minutes: nat, seconds: nat, left_over: nat)
    requires
        0 < seconds < 60,
        left_over < 1_000_000_000,
    ensures
        duration_text(60_000_000_000 * minutes + left_over) == text::decimal_text(minutes) + "m"@,
        duration_text(60_000_000_000 * minutes + 1_000_000_000 * seconds + left_over)
            == text::decimal_text(60 * minutes + seconds) + "s"@,
{
}

/// A step may begin at any time, and whatever the controller asks for, it then
/// takes the answer to it, whatever that is.
pub proof fn every_answer_is_taken(
    controller: ControllerView,
    config: ConfigView,
    input: InputView,
    settings: Settings,
    answered: InputView,
)
    requires
        controller.awaits(input),
    ensures
        controller.awaits(InputView::Begin { settings }),
        ({
            let (after, action) = controller.step(config, input);
            match action {
                ActionView::ReadNetwork => answered is Network ==> after.awaits(answered),
                ActionView::LoadCredentials => answered is Credentials ==> after.awaits(answered),
                ActionView::SubmitLogin { .. } => answered is Login ==> after.awaits(answered),
                ActionView::CheckOnline => answered is Online ==> after.awaits(answered),
                ActionView::Report { .. } => true,
            }
        }),
{
}

/// A clock that can still show the time in five minutes leaves room for every
/// answer.
pub proof fn five_minutes_are_room_enough(controller: ControllerView, input: InputView)
    requires
        input matches InputView::Login { now, .. } ==> now + 300_000_000_000 <= u64::MAX,
        input matches InputView::Online { now, .. } ==> now + 300_000_000_000 <= u64::MAX,
    ensures
        controller.has_room(input),
{
    crate::runs::retry_delays(controller.attempts);
}

/// Once a covered, active connection with the default route is behind a portal
/// and no retry holds it back, the step leads to a submission of the credentials
/// that are loaded, to one connectivity check, and by its success to `Online`.
pub proof fn portal_is_passed(
    controller: ControllerView,
    config: ConfigView,
    ssid: Seq<char>,
    connection_uuid: Seq<char>,
    username: Seq<char>,
    password: Seq<char>,
    login: crate::portal::LoginResult,
    now: nat,
)
    requires
        controller.phase is ReadingNetwork,
        config.covers(ssid, connection_uuid),
        controller.retry matches Some(retry) ==> retry.deadline <= now,
        login.outcome != Outcome::BadCredentials,
    ensures
        ({
            let network = NetworkView::Connected {
                ssid,
                connection_uuid,
                is_activated: true,
                is_default: true,
                connectivity: Connectivity::Portal,
            };
            let (loading, first) = controller.step(
                config,
                InputView::Network { reading: Ok(network), now },
            );
            let (submitted, second) = loading.step(
                config,
                InputView::Credentials { loaded: LoadView::Loaded { username, password } },
            );
            let (verifying, third) = submitted.step(
                config,
                InputView::Login { reply: Ok(login), now },
            );
            let (over, fourth) = verifying.step(
                config,
                InputView::Online { online: Ok(true), now },
            );
            &&& first is LoadCredentials
            &&& second == (ActionView::SubmitLogin { username, password })
            &&& third is CheckOnline
            &&& reports(fourth, State::Online)
            &&& over.attempts == 0 && over.retry is None && over.phase is Idle
        }),
{
}

} // verus!
