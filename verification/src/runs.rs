//! What holds of every run of the controller, whatever the network, the
//! keyring and the portal answer.

use vstd::arithmetic::power2::pow2;
use vstd::prelude::*;

use crate::config::ConfigView;
use crate::failure::FailureView;
use crate::keyring::{combined, CredsErrorView, LoadView};
use crate::portal::{LoginResult, Outcome};
use crate::session::{
    counted, retry_delay, ActionView, ConnectionView, ControllerView, InputView, PhaseView,
    RetryView, SnapshotView, State, RETRY_BASE, RETRY_MAX, SECOND, SNAPSHOT_RESYNC_DELAY,
};
use crate::settings::Settings;
use crate::wifi::{Connectivity, NetworkView};

verus! {

/// An input, and the configuration in force when it came.
pub struct Exchange {
    pub config: ConfigView,
    pub input: InputView,
}

/// What a controller makes of an exchange, which is what its step says. The
/// proofs about runs look into it only where they need to.
#[verifier::opaque]
pub open spec fn next(controller: ControllerView, exchange: Exchange) -> (
    ControllerView,
    ActionView,
) {
    controller.step(exchange.config, exchange.input)
}

/// The controller after a run that started from `start`.
pub open spec fn after(start: ControllerView, run: Seq<Exchange>) -> ControllerView
    decreases run.len(),
{
    if run.len() == 0 {
        start
    } else {
        next(after(start, run.drop_last()), run.last()).0
    }
}

/// The controller before the input number `i` of a run.
pub open spec fn before(start: ControllerView, run: Seq<Exchange>, i: int) -> ControllerView {
    after(start, run.take(i))
}

/// What the controller answers to the input number `i` of a run.
pub open spec fn answer(start: ControllerView, run: Seq<Exchange>, i: int) -> ActionView {
    next(before(start, run, i), run[i]).1
}

/// Every input of the run is one that the controller awaits when it comes.
pub open spec fn proper(start: ControllerView, run: Seq<Exchange>) -> bool {
    forall|i: int|
        0 <= i < run.len() ==> before(start, run, i).awaits((#[trigger] run[i]).input)
}

proof fn lemma_before_next(start: ControllerView, run: Seq<Exchange>, i: int)
    requires
        0 <= i < run.len(),
    ensures
        before(start, run, i + 1) == next(before(start, run, i), run[i]).0,
{
    assert(run.take(i + 1).drop_last() == run.take(i));
    assert(run.take(i + 1).last() == run[i]);
}

proof fn lemma_proper_start(start: ControllerView, run: Seq<Exchange>)
    requires
        run.len() > 0,
        proper(start, run),
    ensures
        proper(start, run.drop_last()),
{
    let shorter = run.drop_last();
    assert forall|i: int| 0 <= i < shorter.len() implies before(start, shorter, i).awaits(
        (#[trigger] shorter[i]).input,
    ) by {
        assert(shorter.take(i) == run.take(i));
        assert(shorter[i] == run[i]);
    }
}

/// A network that is associated, owned by a target, active, the default
/// route, and behind a portal.
pub open spec fn portal_ahead(
    config: ConfigView,
    network: NetworkView,
    connection: ConnectionView,
) -> bool {
    &&& network == NetworkView::Connected {
        ssid: connection.ssid,
        connection_uuid: connection.connection_uuid,
        is_activated: true,
        is_default: true,
        connectivity: Connectivity::Portal,
    }
    &&& config.covers(connection.ssid, connection.connection_uuid)
}

/// A retry that is pending for the connection is due.
pub open spec fn no_earlier_than_due(
    controller: ControllerView,
    connection: ConnectionView,
    now: nat,
) -> bool {
    controller.retry matches Some(retry) ==> retry.connection == connection ==> retry.deadline
        <= now
}

/// Credentials are looked up only in a step that began unpaused and with a
/// target, straight after a read of the network that shows a target
/// connection, active and the default route, behind a portal, and not before
/// the deadline of a retry that is pending for that connection.
pub proof fn lookup_needs_permission(start: ControllerView, run: Seq<Exchange>, i: int)
    requires
        start.phase is Idle,
        proper(start, run),
        0 <= i < run.len(),
        answer(start, run, i) is LoadCredentials,
    ensures
        i >= 1,
        run[i - 1].input matches InputView::Begin { settings } && settings.enabled,
        run[i - 1].config.targets.len() > 0,
        run[i].input matches InputView::Network { reading: Ok(network), now } && {
            let connection = before(start, run, i + 1).phase->LoadingCredentials_0;
            &&& portal_ahead(run[i].config, network, connection)
            &&& no_earlier_than_due(before(start, run, i), connection, now)
        },
        before(start, run, i + 1).phase is LoadingCredentials,
{
    reveal(next);
    assert(before(start, run, i).awaits(run[i].input));
    lemma_before_next(start, run, i);
    assert(run.take(0) == Seq::<Exchange>::empty());
    assert(i > 0);
    lemma_before_next(start, run, i - 1);
    assert(before(start, run, i - 1).awaits(run[i - 1].input));
}

/// Credentials are submitted only in a step that began unpaused and with a
/// target, after a read of the network that shows a target connection, active
/// and the default route, behind a portal, and only those that were then
/// loaded.
pub proof fn submission_needs_permission(start: ControllerView, run: Seq<Exchange>, i: int)
    requires
        start.phase is Idle,
        proper(start, run),
        0 <= i < run.len(),
        answer(start, run, i) is SubmitLogin,
    ensures
        i >= 2,
        run[i - 2].input matches InputView::Begin { settings } && settings.enabled,
        run[i - 2].config.targets.len() > 0,
        run[i - 1].input matches InputView::Network { reading: Ok(network), now } && {
            let connection = before(start, run, i + 1).phase->LoggingIn_0;
            &&& portal_ahead(run[i - 1].config, network, connection)
            &&& no_earlier_than_due(before(start, run, i - 1), connection, now)
        },
        run[i].input matches InputView::Credentials {
            loaded: LoadView::Loaded { username, password },
        } && answer(start, run, i) == (ActionView::SubmitLogin { username, password }),
{
    reveal(next);
    assert(before(start, run, i).awaits(run[i].input));
    lemma_before_next(start, run, i);
    assert(run.take(0) == Seq::<Exchange>::empty());
    assert(i > 0);
    lemma_before_next(start, run, i - 1);
    assert(before(start, run, i - 1).awaits(run[i - 1].input));
    lookup_needs_permission(start, run, i - 1);
}

/// Where the credentials that are handed in are what the configured username
/// and the keyring's answer come to, they are submitted only with the username
/// that is configured, and so never without one.
pub proof fn submission_uses_configured_username(
    start: ControllerView,
    run: Seq<Exchange>,
    i: int,
)
    requires
        start.phase is Idle,
        proper(start, run),
        0 <= i < run.len(),
        answer(start, run, i) is SubmitLogin,
        forall|k: int|
            0 <= k < run.len() ==> (#[trigger] run[k].input matches InputView::Credentials {
                loaded,
            } ==> exists|password: Result<Seq<char>, CredsErrorView>|
                loaded == #[trigger] combined(run[k].config.username, password)),
    ensures
        answer(start, run, i) matches ActionView::SubmitLogin { username, .. } && Some(username)
            == run[i].config.username,
{
    submission_needs_permission(start, run, i);
    assert(run[i].input matches InputView::Credentials { .. });
}

/// Connectivity is checked only straight after a login that was submitted and
/// that the portal answered without rejecting the credentials.
pub proof fn check_needs_submission(start: ControllerView, run: Seq<Exchange>, i: int)
    requires
        start.phase is Idle,
        proper(start, run),
        0 <= i < run.len(),
        answer(start, run, i) is CheckOnline,
    ensures
        i >= 1,
        answer(start, run, i - 1) is SubmitLogin,
        run[i].input matches InputView::Login { reply: Ok(login), .. } && login.outcome
            != Outcome::BadCredentials,
{
    reveal(next);
    assert(before(start, run, i).awaits(run[i].input));
    assert(run.take(0) == Seq::<Exchange>::empty());
    assert(i > 0);
    lemma_before_next(start, run, i - 1);
    assert(before(start, run, i - 1).awaits(run[i - 1].input));
}

/// Every network that the run reads is `connection` behind a portal, read
/// before `deadline`.
pub open spec fn sees_only(
    run: Seq<Exchange>,
    connection: ConnectionView,
    deadline: nat,
) -> bool {
    forall|i: int|
        0 <= i < run.len() ==> (#[trigger] run[i].input matches InputView::Network {
            reading: Ok(network),
            now,
        } ==> portal_ahead(run[i].config, network, connection) && now < deadline)
}

proof fn lemma_step_keeps_retry(
    controller: ControllerView,
    exchange: Exchange,
    retry: RetryView,
)
    requires
        controller.awaits(exchange.input),
        controller.retry == Some(retry),
        controller.phase is Idle || controller.phase is ReadingNetwork,
        exchange.input matches InputView::Network { reading: Ok(network), now } ==> portal_ahead(
            exchange.config,
            network,
            retry.connection,
        ) && now < retry.deadline,
    ensures
        ({
            let (after, action) = next(controller, exchange);
            &&& after.retry == Some(retry)
            &&& after.attempts == controller.attempts
            &&& after.phase is Idle || after.phase is ReadingNetwork
            &&& action is ReadNetwork || action is Report
        }),
{
    reveal(next);
}

/// While a retry is pending for a connection, steps that find that connection
/// behind its portal before the deadline submit nothing: the retry stays
/// pending, and neither credentials nor the portal nor the connectivity check
/// is asked for.
pub proof fn pending_retry_is_not_bypassed(
    start: ControllerView,
    run: Seq<Exchange>,
    retry: RetryView,
)
    requires
        start.phase is Idle,
        start.retry == Some(retry),
        proper(start, run),
        sees_only(run, retry.connection, retry.deadline),
    ensures
        after(start, run).retry == Some(retry),
        after(start, run).attempts == start.attempts,
        after(start, run).phase is Idle || after(start, run).phase is ReadingNetwork,
        forall|i: int|
            0 <= i < run.len() ==> (#[trigger] answer(start, run, i) is ReadNetwork || answer(
                start,
                run,
                i,
            ) is Report),
    decreases run.len(),
{
    if run.len() > 0 {
        let last = run.len() - 1;
        let shorter = run.drop_last();
        lemma_proper_start(start, run);
        assert forall|i: int| 0 <= i < shorter.len() implies (#[trigger] shorter[i].input matches InputView::Network {
            reading: Ok(network),
            now,
        } ==> portal_ahead(shorter[i].config, network, retry.connection) && now
            < retry.deadline) by {
            assert(shorter[i] == run[i]);
        }
        pending_retry_is_not_bypassed(start, shorter, retry);
        assert(run.take(last) == shorter);
        assert(before(start, run, last).awaits(run[last].input));
        assert(run[last].input == run.last().input);
        lemma_step_keeps_retry(after(start, shorter), run.last(), retry);
        assert forall|i: int| 0 <= i < run.len() implies (#[trigger] answer(start, run, i)
            is ReadNetwork || answer(start, run, i) is Report) by {
            if i < last {
                assert(shorter.take(i) == run.take(i));
                assert(answer(start, shorter, i) == answer(start, run, i));
            }
        }
    }
}

/// A step that finds a connection behind its portal before the deadline of
/// its pending retry reports the time that is left.
pub proof fn pending_retry_reports_remaining_time(
    controller: ControllerView,
    config: ConfigView,
    network: NetworkView,
    retry: RetryView,
    now: nat,
)
    requires
        controller.phase is ReadingNetwork,
        controller.retry == Some(retry),
        portal_ahead(config, network, retry.connection),
        now < retry.deadline,
    ensures
        controller.step(config, InputView::Network { reading: Ok(network), now }).1 matches ActionView::Report {
            snapshot,
            retry: Some(delay),
        } && snapshot.state == State::Captive && snapshot.current_ssid == Some(
            retry.connection.ssid,
        ) && snapshot.last_error == Some(retry.message) && delay == retry.deadline - now,
{
}

/// A retry that is pending for one connection does not hold back another: its
/// credentials are looked up and submitted at once, and if that is
/// inconclusive too, its own retry comes after the shortest delay.
pub proof fn another_connection_starts_over(
    controller: ControllerView,
    config: ConfigView,
    network: NetworkView,
    connection: ConnectionView,
    retry: RetryView,
    now: nat,
    username: Seq<char>,
    password: Seq<char>,
    error: Seq<char>,
    login: LoginResult,
    online: Result<bool, Seq<char>>,
    later: nat,
)
    requires
        controller.phase is ReadingNetwork,
        controller.retry == Some(retry),
        retry.connection != connection,
        portal_ahead(config, network, connection),
        login.outcome != Outcome::BadCredentials,
        online != Ok::<bool, Seq<char>>(true),
    ensures
        ({
            let (loading, first) = controller.step(
                config,
                InputView::Network { reading: Ok(network), now },
            );
            let (submitted, second) = loading.step(
                config,
                InputView::Credentials { loaded: LoadView::Loaded { username, password } },
            );
            let (_, unanswered) = submitted.step(
                config,
                InputView::Login { reply: Err(error), now: later },
            );
            let (verifying, third) = submitted.step(
                config,
                InputView::Login { reply: Ok(login), now: later },
            );
            let (_, unverified) = verifying.step(config, InputView::Online { online, now: later });
            &&& first is LoadCredentials
            &&& second == (ActionView::SubmitLogin { username, password })
            &&& unanswered matches ActionView::Report { retry, .. } && retry == Some(
                RETRY_BASE as nat,
            )
            &&& third is CheckOnline
            &&& unverified matches ActionView::Report { retry, .. } && retry == Some(
                RETRY_BASE as nat,
            )
        }),
{
    retry_delays(0);
}

/// After an inconclusive portal answer, the next portal retry for that
/// connection is due after the delay of the backoff.
pub proof fn inconclusive_answer_is_retried(
    controller: ControllerView,
    config: ConfigView,
    input: InputView,
    connection: ConnectionView,
    now: nat,
)
    requires
        ({
            ||| {
                &&& controller.phase == PhaseView::LoggingIn(connection)
                &&& input matches InputView::Login { reply: Err(_), now: at } && at == now
            }
            ||| {
                &&& controller.phase == PhaseView::Verifying(connection)
                &&& input matches InputView::Online { online, now: at } && at == now && online
                    != Ok::<bool, Seq<char>>(true)
            }
        }),
    ensures
        ({
            let (next, action) = controller.step(config, input);
            let delay = retry_delay(controller.attempts);
            &&& action matches ActionView::Report { snapshot, retry } && snapshot.state
                == State::Captive && retry == Some(delay)
            &&& next.retry matches Some(pending) && pending.connection == connection
                && pending.deadline == now + delay && (action matches ActionView::Report {
                snapshot,
                ..
            } && snapshot.last_error == Some(pending.message))
            &&& next.attempts == counted(controller.attempts)
            &&& RETRY_BASE <= delay <= RETRY_MAX
        }),
{
    retry_delay_grows(controller.attempts, controller.attempts);
}

/// Rejected credentials are final: no retry is asked for and none is pending.
pub proof fn bad_credentials_are_not_retried(
    controller: ControllerView,
    config: ConfigView,
    login: LoginResult,
    now: nat,
)
    requires
        controller.phase is LoggingIn,
        login.outcome == Outcome::BadCredentials,
    ensures
        ({
            let (next, action) = controller.step(
                config,
                InputView::Login { reply: Ok(login), now },
            );
            &&& action matches ActionView::Report { snapshot, retry } && snapshot.state
                == State::BadCredentials && retry is None
            &&& next.retry is None
            &&& next.attempts == 0
        }),
{
}

/// Missing credentials are final: no retry is asked for.
pub proof fn missing_credentials_are_not_retried(controller: ControllerView, config: ConfigView)
    requires
        controller.phase is LoadingCredentials,
    ensures
        controller.step(
            config,
            InputView::Credentials { loaded: LoadView::Failed(CredsErrorView::Missing) },
        ).1 matches ActionView::Report { snapshot, retry } && snapshot.state
            == State::CredentialsMissing && retry is None,
{
}

/// Another step is asked for only while captive or after a failed local read.
pub proof fn retry_needs_a_reason(
    controller: ControllerView,
    config: ConfigView,
    input: InputView,
)
    requires
        controller.awaits(input),
    ensures
        controller.step(config, input).1 matches ActionView::Report {
            snapshot,
            retry: Some(delay),
        } ==> {
            ||| snapshot.state == State::Captive
            ||| snapshot.state == State::Error && delay == SNAPSHOT_RESYNC_DELAY
        },
{
}

/// Every finding about the network other than a portal that still stands
/// forgets the backoff.
pub proof fn conclusive_findings_forget_backoff(
    controller: ControllerView,
    config: ConfigView,
    input: InputView,
)
    requires
        controller.awaits(input),
    ensures
        ({
            let (next, action) = controller.step(config, input);
            action matches ActionView::Report { snapshot, .. } ==> {
                ||| next.attempts == 0 && next.retry is None
                ||| snapshot.state == State::Paused
                ||| snapshot.state == State::NoTargets
                ||| snapshot.state == State::Error
                ||| snapshot.state == State::Captive
                ||| snapshot.state == State::CredentialsMissing
            }
        }),
{
}

/// A step may begin at any time, and what was under way leaves no trace: the
/// network is read anew, or the step is over.
pub proof fn a_new_step_abandons_the_old(
    controller: ControllerView,
    config: ConfigView,
    settings: Settings,
    phase: PhaseView,
)
    ensures
        controller.step(config, InputView::Begin { settings }) == controller.in_phase(phase).step(
            config,
            InputView::Begin { settings },
        ),
        controller.step(config, InputView::Begin { settings }).1 is ReadNetwork
            || controller.step(config, InputView::Begin { settings }).1 is Report,
{
}

/// While paused or without a target, nothing is read, looked up or sent.
pub proof fn paused_or_untargeted_does_nothing(
    controller: ControllerView,
    config: ConfigView,
    settings: Settings,
)
    requires
        !settings.enabled || config.targets.len() == 0,
    ensures
        ({
            let (next, action) = controller.step(config, InputView::Begin { settings });
            &&& action matches ActionView::Report { snapshot, retry } && retry is None
                && snapshot.state == (if settings.enabled {
                State::NoTargets
            } else {
                State::Paused
            })
            &&& next == controller.in_phase(PhaseView::Idle)
        }),
{
}

/// No network was read between the inputs `from` and `to`, both excluded.
pub open spec fn no_read_between(run: Seq<Exchange>, from: int, to: int) -> bool {
    forall|k: int|
        from < k < to ==> !(#[trigger] run[k].input matches InputView::Network {
            reading: Ok(_),
            ..
        })
}

proof fn lemma_step_resync(controller: ControllerView, exchange: Exchange)
    requires
        controller.awaits(exchange.input),
    ensures
        next(controller, exchange).0.resync_pending == match exchange.input {
            InputView::Network { reading: Ok(_), .. } => false,
            InputView::Network { reading: Err(_), .. } => true,
            _ => controller.resync_pending,
        },
{
    reveal(next);
}

proof fn lemma_resync_stays_pending(
    start: ControllerView,
    run: Seq<Exchange>,
    from: int,
    to: int,
)
    requires
        proper(start, run),
        0 <= from < to <= run.len(),
        run[from].input matches InputView::Network { reading: Err(_), .. },
        no_read_between(run, from, to),
    ensures
        before(start, run, to).resync_pending,
    decreases to - from,
{
    lemma_before_next(start, run, to - 1);
    assert(before(start, run, to - 1).awaits(run[to - 1].input));
    if to - 1 > from {
        lemma_resync_stays_pending(start, run, from, to - 1);
        assert(!(run[to - 1].input matches InputView::Network { reading: Ok(_), .. }));
    }
    lemma_step_resync(before(start, run, to - 1), run[to - 1]);
}

/// A failed read of the network is tried again once: after a failure that
/// followed another with no successful read between them, nothing is asked
/// for until the next event.
pub proof fn network_failures_get_one_resync(
    start: ControllerView,
    run: Seq<Exchange>,
    first: int,
    second: int,
)
    requires
        proper(start, run),
        0 <= first < second < run.len(),
        run[first].input matches InputView::Network { reading: Err(_), .. },
        run[second].input matches InputView::Network { reading: Err(_), .. },
        no_read_between(run, first, second),
    ensures
        answer(start, run, second) matches ActionView::Report { retry, .. } && retry is None,
{
    reveal(next);
    lemma_resync_stays_pending(start, run, first, second);
    assert(before(start, run, second).awaits(run[second].input));
}

/// The first failed read of the network after a successful one is tried again
/// after the resync delay.
pub proof fn first_network_failure_gets_a_resync(
    controller: ControllerView,
    config: ConfigView,
    error: Seq<char>,
    now: nat,
)
    requires
        controller.phase is ReadingNetwork,
        !controller.resync_pending,
    ensures
        controller.step(config, InputView::Network { reading: Err(error), now }).1 matches ActionView::Report {
            retry,
            ..
        } && retry == Some(SNAPSHOT_RESYNC_DELAY as nat),
{
}

/// The network could not be read at input `from`, and it was not read between
/// that input and the input `to`.
pub open spec fn network_failed_since(run: Seq<Exchange>, from: int, to: int) -> bool {
    &&& 0 <= from < to
    &&& run[from].input matches InputView::Network { reading: Err(_), .. }
    &&& no_read_between(run, from, to)
}

proof fn lemma_network_failed_since(run: Seq<Exchange>, last: int, to: int)
    requires
        0 <= last < run.len(),
        to == last + 1,
    ensures
        (exists|from: int| network_failed_since(run, from, to)) == match run[last].input {
            InputView::Network { reading: Ok(_), .. } => false,
            InputView::Network { reading: Err(_), .. } => true,
            _ => exists|from: int| network_failed_since(run, from, last),
        },
{
    if exists|from: int| network_failed_since(run, from, to) {
        let from = choose|from: int| network_failed_since(run, from, to);
        if from < last {
            assert(!(run[last].input matches InputView::Network { reading: Ok(_), .. }));
            assert(network_failed_since(run, from, last));
        }
    }
    match run[last].input {
        InputView::Network { reading: Ok(_), .. } => {},
        InputView::Network { reading: Err(_), .. } => {
            assert(network_failed_since(run, last, to));
        },
        _ => {
            if exists|from: int| network_failed_since(run, from, last) {
                let from = choose|from: int| network_failed_since(run, from, last);
                assert(network_failed_since(run, from, to));
            }
        },
    }
}

proof fn lemma_resync_pending(run: Seq<Exchange>, i: int)
    requires
        proper(ControllerView::initial(), run),
        0 <= i <= run.len(),
    ensures
        before(ControllerView::initial(), run, i).resync_pending == (exists|from: int|
            network_failed_since(run, from, i)),
    decreases i,
{
    let start = ControllerView::initial();
    assert(run.take(0) == Seq::<Exchange>::empty());
    if i > 0 {
        let last = i - 1;
        lemma_resync_pending(run, last);
        lemma_before_next(start, run, last);
        assert(before(start, run, last).awaits(run[last].input));
        lemma_step_resync(before(start, run, last), run[last]);
        lemma_network_failed_since(run, last, i);
    }
}

/// A failed read of the network ends the step with the failure, and another
/// read is asked for exactly when no earlier one failed since the network was
/// last read.
pub proof fn network_failure_is_reported(
    run: Seq<Exchange>,
    i: int,
    error: Seq<char>,
)
    requires
        proper(ControllerView::initial(), run),
        0 <= i < run.len(),
        run[i].input matches InputView::Network { reading: Err(failure), .. } && failure == error,
    ensures
        answer(ControllerView::initial(), run, i) == (ActionView::Report {
            snapshot: SnapshotView::idle(
                State::Error,
                "could not read NetworkManager state: "@ + error,
            ).with_error(error),
            retry: if exists|from: int| network_failed_since(run, from, i) {
                None
            } else {
                Some(SNAPSHOT_RESYNC_DELAY as nat)
            },
        }),
{
    reveal(next);
    assert(before(ControllerView::initial(), run, i).awaits(run[i].input));
    lemma_resync_pending(run, i);
}

/// No credentials were loaded between the inputs `from` and `to`, both
/// excluded.
pub open spec fn no_load_between(run: Seq<Exchange>, from: int, to: int) -> bool {
    forall|k: int|
        from < k < to ==> !(#[trigger] run[k].input matches InputView::Credentials {
            loaded: LoadView::Loaded { .. },
        })
}

proof fn lemma_step_keyring_resync(controller: ControllerView, exchange: Exchange)
    requires
        controller.awaits(exchange.input),
    ensures
        next(controller, exchange).0.keyring_resync_pending == match exchange.input {
            InputView::Credentials { loaded: LoadView::Loaded { .. } } => false,
            InputView::Credentials {
                loaded: LoadView::Failed(CredsErrorView::Unreadable(_)),
            } => true,
            _ => controller.keyring_resync_pending,
        },
{
    reveal(next);
}

proof fn lemma_keyring_resync_stays_pending(
    start: ControllerView,
    run: Seq<Exchange>,
    from: int,
    to: int,
)
    requires
        proper(start, run),
        0 <= from < to <= run.len(),
        run[from].input matches InputView::Credentials {
            loaded: LoadView::Failed(CredsErrorView::Unreadable(_)),
        },
        no_load_between(run, from, to),
    ensures
        before(start, run, to).keyring_resync_pending,
    decreases to - from,
{
    lemma_before_next(start, run, to - 1);
    assert(before(start, run, to - 1).awaits(run[to - 1].input));
    if to - 1 > from {
        lemma_keyring_resync_stays_pending(start, run, from, to - 1);
        assert(!(run[to - 1].input matches InputView::Credentials {
            loaded: LoadView::Loaded { .. },
        }));
    }
    lemma_step_keyring_resync(before(start, run, to - 1), run[to - 1]);
}

/// A failed read of the keyring is tried again once: after a failure that
/// followed another with no credentials loaded between them, nothing is asked
/// for until the next event.
pub proof fn keyring_failures_get_one_resync(
    start: ControllerView,
    run: Seq<Exchange>,
    first: int,
    second: int,
)
    requires
        proper(start, run),
        0 <= first < second < run.len(),
        run[first].input matches InputView::Credentials {
            loaded: LoadView::Failed(CredsErrorView::Unreadable(_)),
        },
        run[second].input matches InputView::Credentials {
            loaded: LoadView::Failed(CredsErrorView::Unreadable(_)),
        },
        no_load_between(run, first, second),
    ensures
        answer(start, run, second) matches ActionView::Report { retry, .. } && retry is None,
{
    reveal(next);
    lemma_keyring_resync_stays_pending(start, run, first, second);
    assert(before(start, run, second).awaits(run[second].input));
}

/// The first failed read of the keyring after a successful one is tried again
/// after the resync delay.
pub proof fn first_keyring_failure_gets_a_resync(
    controller: ControllerView,
    config: ConfigView,
    error: FailureView,
)
    requires
        controller.phase is LoadingCredentials,
        !controller.keyring_resync_pending,
    ensures
        controller.step(
            config,
            InputView::Credentials { loaded: LoadView::Failed(CredsErrorView::Unreadable(error)) },
        ).1 matches ActionView::Report { retry, .. } && retry == Some(
            SNAPSHOT_RESYNC_DELAY as nat,
        ),
{
}

/// The keyring could not be read at input `from`, and no credentials were
/// loaded between that input and the input `to`.
pub open spec fn keyring_failed_since(run: Seq<Exchange>, from: int, to: int) -> bool {
    &&& 0 <= from < to
    &&& run[from].input matches InputView::Credentials {
        loaded: LoadView::Failed(CredsErrorView::Unreadable(_)),
    }
    &&& no_load_between(run, from, to)
}

proof fn lemma_keyring_failed_since(run: Seq<Exchange>, last: int, to: int)
    requires
        0 <= last < run.len(),
        to == last + 1,
    ensures
        (exists|from: int| keyring_failed_since(run, from, to)) == match run[last].input {
            InputView::Credentials { loaded: LoadView::Loaded { .. } } => false,
            InputView::Credentials {
                loaded: LoadView::Failed(CredsErrorView::Unreadable(_)),
            } => true,
            _ => exists|from: int| keyring_failed_since(run, from, last),
        },
{
    if exists|from: int| keyring_failed_since(run, from, to) {
        let from = choose|from: int| keyring_failed_since(run, from, to);
        if from < last {
            assert(!(run[last].input matches InputView::Credentials {
                loaded: LoadView::Loaded { .. },
            }));
            assert(keyring_failed_since(run, from, last));
        }
    }
    match run[last].input {
        InputView::Credentials { loaded: LoadView::Loaded { .. } } => {},
        InputView::Credentials { loaded: LoadView::Failed(CredsErrorView::Unreadable(_)) } => {
            assert(keyring_failed_since(run, last, to));
        },
        _ => {
            if exists|from: int| keyring_failed_since(run, from, last) {
                let from = choose|from: int| keyring_failed_since(run, from, last);
                assert(keyring_failed_since(run, from, to));
            }
        },
    }
}

proof fn lemma_keyring_resync_pending(run: Seq<Exchange>, i: int)
    requires
        proper(ControllerView::initial(), run),
        0 <= i <= run.len(),
    ensures
        before(ControllerView::initial(), run, i).keyring_resync_pending == (exists|from: int|
            keyring_failed_since(run, from, i)),
    decreases i,
{
    let start = ControllerView::initial();
    assert(run.take(0) == Seq::<Exchange>::empty());
    if i > 0 {
        let last = i - 1;
        lemma_keyring_resync_pending(run, last);
        lemma_before_next(start, run, last);
        assert(before(start, run, last).awaits(run[last].input));
        lemma_step_keyring_resync(before(start, run, last), run[last]);
        lemma_keyring_failed_since(run, last, i);
    }
}

/// A failed read of the keyring ends the step with the failure, without a
/// request to the portal, and another step is asked for exactly when no
/// earlier read failed since credentials were last loaded.
pub proof fn keyring_failure_is_reported(
    run: Seq<Exchange>,
    i: int,
    error: FailureView,
)
    requires
        proper(ControllerView::initial(), run),
        0 <= i < run.len(),
        run[i].input == (InputView::Credentials {
            loaded: LoadView::Failed(CredsErrorView::Unreadable(error)),
        }),
    ensures
        before(ControllerView::initial(), run, i).phase matches PhaseView::LoadingCredentials(
            connection,
        ) && answer(ControllerView::initial(), run, i) == (ActionView::Report {
            snapshot: SnapshotView::on_network(
                State::Error,
                connection.ssid,
                "could not load credentials: "@ + error.message,
            ).with_error(error.message),
            retry: if exists|from: int| keyring_failed_since(run, from, i) {
                None
            } else {
                Some(SNAPSHOT_RESYNC_DELAY as nat)
            },
        }),
{
    reveal(next);
    assert(before(ControllerView::initial(), run, i).awaits(run[i].input));
    lemma_keyring_resync_pending(run, i);
}

/// A portal retry is pending only after an inconclusive portal answer that was
/// counted.
pub proof fn pending_retry_was_counted(run: Seq<Exchange>)
    requires
        proper(ControllerView::initial(), run),
    ensures
        after(ControllerView::initial(), run).retry is Some ==> after(
            ControllerView::initial(),
            run,
        ).attempts > 0,
    decreases run.len(),
{
    if run.len() > 0 {
        let start = ControllerView::initial();
        let last = run.len() - 1;
        let shorter = run.drop_last();
        lemma_proper_start(start, run);
        pending_retry_was_counted(shorter);
        assert(run.take(last) == shorter);
        assert(before(start, run, last).awaits(run[last].input));
        reveal(next);
    }
}

/// The portal retry delay never shrinks as retries add up, is never shorter
/// than [`RETRY_BASE`] and never longer than [`RETRY_MAX`].
pub proof fn retry_delay_grows(fewer: nat, more: nat)
    requires
        fewer <= more,
    ensures
        RETRY_BASE <= retry_delay(fewer) <= retry_delay(more) <= RETRY_MAX,
{
    vstd::arithmetic::power2::lemma2_to64();
    if 0 < fewer {
        vstd::arithmetic::power2::lemma_pow2_strictly_increases(0, fewer);
    }
    if fewer < more {
        vstd::arithmetic::power2::lemma_pow2_strictly_increases(fewer, more);
    }
    assert(RETRY_BASE * pow2(fewer) >= RETRY_BASE) by (nonlinear_arith)
        requires
            pow2(fewer) >= 1,
    ;
    assert(RETRY_BASE * pow2(fewer) <= RETRY_BASE * pow2(more)) by (nonlinear_arith)
        requires
            pow2(fewer) <= pow2(more),
    ;
}

/// The portal retry delays are half a minute, one, two and four minutes, and
/// five minutes from then on.
pub proof fn retry_delays(attempts: nat)
    ensures
        retry_delay(attempts) == (if attempts == 0 {
            30 * SECOND
        } else if attempts == 1 {
            60 * SECOND
        } else if attempts == 2 {
            120 * SECOND
        } else if attempts == 3 {
            240 * SECOND
        } else {
            300 * SECOND
        }),
{
    vstd::arithmetic::power2::lemma2_to64();
    if attempts > 4 {
        retry_delay_grows(4, attempts);
    }
}

} // verus!
