//! The daemon's loop and the state that it leaves for the status command.

use vstd::prelude::*;

use crate::config::Config;
use crate::session::{Snapshot, SnapshotView, State};
use crate::text;

verus! {

/// What wakes the daemon.
#[derive(Debug, Clone, Copy, PartialEq, Eq, Structural)]
pub enum Wake {
    /// It is told to end.
    Stopped,
    /// A control datagram came.
    Control,
    /// The control socket failed.
    ControlFailed,
    /// The network changed.
    NetworkChanged,
    /// No more changes of the network will be reported.
    NetworkClosed,
    /// A step is over. Another one is due at the deadline, where there is one.
    StepFinished { deadline: Option<u64> },
    /// The deadline has come.
    RetryDue,
}

/// What the daemon does when it is woken.
#[derive(Debug, Clone, Copy, PartialEq, Eq, Structural)]
pub enum Response {
    /// Go on.
    Continue,
    /// Reload configuration and settings, and go on.
    Reload,
    /// Clean up and end well.
    Stop,
    /// Clean up and fail: the event stream is closed.
    Fail,
    /// Fail at once: the control socket cannot be read.
    Abort,
}

/// What the daemon waits for besides events: the step that is under way, or
/// the deadline of the next one.
#[derive(Debug, Clone, Copy, PartialEq, Eq, Structural)]
pub struct Schedule {
    /// A step is to be taken, or taken up anew.
    pub should_step: bool,
    /// When the next step is due without an event.
    pub next_retry: Option<u64>,
}

impl Schedule {
    /// A daemon takes a step when it starts.
    pub open spec fn initial() -> Self {
        Schedule { should_step: true, next_retry: None }
    }

    /// The schedule after the daemon was woken, and what it does then.
    pub open spec fn woken(self, wake: Wake) -> (Self, Response) {
        match wake {
            Wake::Stopped => (self, Response::Stop),
            Wake::Control => (Schedule { should_step: true, ..self }, Response::Reload),
            Wake::ControlFailed => (self, Response::Abort),
            Wake::NetworkChanged => (Schedule { should_step: true, ..self }, Response::Continue),
            Wake::NetworkClosed => (self, Response::Fail),
            Wake::StepFinished { deadline } => (
                Schedule { should_step: false, next_retry: deadline },
                Response::Continue,
            ),
            Wake::RetryDue => (Schedule { should_step: true, ..self }, Response::Continue),
        }
    }

    /// A daemon takes a step when it starts.
    pub fn new() -> (schedule: Self)
        ensures
            schedule == Self::initial(),
    {
        Schedule { should_step: true, next_retry: None }
    }

    /// Takes note of what woke the daemon and says what it does.
    pub fn wake(&mut self, wake: Wake) -> (response: Response)
        ensures
            (*final(self), response) == old(self).woken(wake),
    {
        match wake {
            Wake::Stopped => Response::Stop,
            Wake::Control => {
                self.should_step = true;
                Response::Reload
            },
            Wake::ControlFailed => Response::Abort,
            Wake::NetworkChanged => {
                self.should_step = true;
                Response::Continue
            },
            Wake::NetworkClosed => Response::Fail,
            Wake::StepFinished { deadline } => {
                self.next_retry = deadline;
                self.should_step = false;
                Response::Continue
            },
            Wake::RetryDue => {
                self.should_step = true;
                Response::Continue
            },
        }
    }
}

/// The daemon never polls: once a step is over, it waits for an event or for
/// the deadline that the step asked for, and for nothing else.
pub proof fn daemon_waits_between_steps(schedule: Schedule, deadline: Option<u64>)
    ensures
        schedule.woken(Wake::StepFinished { deadline }).0 == (Schedule {
            should_step: false,
            next_retry: deadline,
        }),
{
}

/// Whatever happens and does not end the daemon, other than the end of a
/// step, makes it take a step: an event is never lost, and one that comes
/// during a step makes it start over.
pub proof fn events_lead_to_a_step(schedule: Schedule, wake: Wake)
    requires
        !(wake is StepFinished),
    ensures
        ({
            let (next, response) = schedule.woken(wake);
            response is Continue || response is Reload ==> next.should_step
        }),
{
}

/// When a delay that starts now is over.
pub fn deadline_after(now: u64, retry: Option<u64>) -> (deadline: Option<u64>)
    requires
        retry matches Some(delay) ==> now + delay <= u64::MAX,
    ensures
        deadline is Some <==> retry is Some,
        retry matches Some(delay) ==> deadline == Some((now + delay) as u64),
{
    match retry {
        Some(delay) => Some(now + delay),
        None => None,
    }
}

/// Whether a step found another state than the one before it.
pub fn state_changed(previous: Option<State>, state: State) -> (r: bool)
    ensures
        r == (previous != Some(state)),
{
    match previous {
        Some(previous) => previous != state,
        None => true,
    }
}

/// Takes a configuration that was loaded. A failure leaves the one in force,
/// and comes back.
pub fn reload(config: &mut Config, loaded: Result<Config, String>) -> (failure: Option<String>)
    ensures
        match loaded {
            Ok(new) => final(config)@ == new@ && failure is None,
            Err(error) => final(config)@ == old(config)@ && (failure matches Some(failure)
                && failure@ == error@),
        },
{
    match loaded {
        Ok(new) => {
            *config = new;
            None
        },
        Err(error) => Some(error),
    }
}

/// What the daemon leaves for the status command.
#[derive(Debug)]
pub struct DaemonState {
    pub pid: u32,
    pub state: String,
    pub message: String,
    pub ssid: Option<String>,
    pub online: bool,
    pub updated: u64,
    pub last_error: Option<String>,
}

/// What a [`DaemonState`] says.
pub struct DaemonStateView {
    pub pid: nat,
    pub state: Seq<char>,
    pub message: Seq<char>,
    pub ssid: Option<Seq<char>>,
    pub online: bool,
    pub updated: nat,
    pub last_error: Option<Seq<char>>,
}

impl View for DaemonState {
    type V = DaemonStateView;

    open spec fn view(&self) -> DaemonStateView {
        DaemonStateView {
            pid: self.pid as nat,
            state: self.state@,
            message: self.message@,
            ssid: text::opt_text(self.ssid),
            online: self.online,
            updated: self.updated as nat,
            last_error: text::opt_text(self.last_error),
        }
    }
}

/// What a process leaves after a step that found `snapshot` at the time `now`.
pub open spec fn recorded(pid: nat, snapshot: SnapshotView, now: nat) -> DaemonStateView {
    DaemonStateView {
        pid,
        state: snapshot.state.text(),
        message: snapshot.message,
        ssid: snapshot.current_ssid,
        online: snapshot.state == State::Online,
        updated: now,
        last_error: snapshot.last_error,
    }
}

fn clone_text(text: &Option<String>) -> (copy: Option<String>)
    ensures
        text::opt_text(copy) == text::opt_text(*text),
{
    match text {
        Some(text) => Some(text.clone()),
        None => None,
    }
}

impl DaemonState {
    /// What a process leaves after a step.
    pub fn record(pid: u32, snapshot: &Snapshot, now: u64) -> (state: Self)
        ensures
            state@ == recorded(pid as nat, snapshot@, now as nat),
    {
        DaemonState {
            pid,
            state: snapshot.state.name().to_string(),
            message: snapshot.message.clone(),
            ssid: clone_text(&snapshot.current_ssid),
            online: snapshot.is_online(),
            updated: now,
            last_error: clone_text(&snapshot.last_error),
        }
    }
}

/// The age of what was updated at `updated`, in seconds below a minute, in
/// minutes below an hour, and in hours from then on. What lies in the future
/// is new.
pub open spec fn age_text(now: nat, updated: nat) -> Seq<char> {
    let seconds = if now >= updated {
        (now - updated) as nat
    } else {
        0
    };
    if seconds < 60 {
        text::decimal_text(seconds) + "s"@
    } else if seconds < 3600 {
        text::decimal_text(seconds / 60) + "m"@
    } else {
        text::decimal_text(seconds / 3600) + "h"@
    }
}

/// The age of what was updated at `updated`, where both times are in seconds.
pub fn age(now: u64, updated: u64) -> (s: String)
    ensures
        s@ == age_text(now as nat, updated as nat),
{
    let seconds: u64 = now.saturating_sub(updated);
    if seconds < 60 {
        text::concat2(text::decimal(seconds).as_str(), "s")
    } else if seconds < 3600 {
        text::concat2(text::decimal(seconds / 60).as_str(), "m")
    } else {
        text::concat2(text::decimal(seconds / 3600).as_str(), "h")
    }
}

/// The directory that exists while a process lives.
pub fn process_path(pid: u32) -> (path: String)
    ensures
        path@ == "/proc/"@ + text::decimal_text(pid as nat),
{
    text::concat2("/proc/", text::decimal(pid as u64).as_str())
}

/// How binding the control socket goes on.
#[derive(Debug, Clone, Copy, PartialEq, Eq, Structural)]
pub enum BindStep {
    /// The socket is bound.
    Bound,
    /// Something has the address: send a probe to it.
    Probe,
    /// Nobody answers at the address: remove the socket and bind again.
    RemoveAndBind,
    /// Another daemon answers at the address: leave it alone and fail.
    AlreadyRunning,
    /// The socket cannot be bound.
    Fail,
}

/// What to do after the first attempt to bind: whether it went well, and
/// whether it failed because something has the address.
pub fn after_bind(bound: bool, address_in_use: bool) -> (step: BindStep)
    ensures
        step == (if bound {
            BindStep::Bound
        } else if address_in_use {
            BindStep::Probe
        } else {
            BindStep::Fail
        }),
{
    if bound {
        BindStep::Bound
    } else if address_in_use {
        BindStep::Probe
    } else {
        BindStep::Fail
    }
}

/// What to do after the probe. The socket of a live daemon is never removed.
pub fn after_probe(delivered: bool) -> (step: BindStep)
    ensures
        step is AlreadyRunning <==> delivered,
        step is RemoveAndBind <==> !delivered,
{
    if delivered {
        BindStep::AlreadyRunning
    } else {
        BindStep::RemoveAndBind
    }
}

/// What the daemon does when it is woken: it ends well when it is told to, fails
/// when no more changes will be reported or the control socket cannot be read,
/// reloads on a control datagram, and goes on after everything else.
pub proof fn each_wake_has_its_response(schedule: Schedule, wake: Wake)
    ensures
        ({
            let response = schedule.woken(wake).1;
            &&& response is Stop <==> wake is Stopped
            &&& response is Reload <==> wake is Control
            &&& response is Fail <==> wake is NetworkClosed
            &&& response is Abort <==> wake is ControlFailed
            &&& response is Continue <==> wake is NetworkChanged || wake is StepFinished
                || wake is RetryDue
        }),
{
}

/// A step that is due stays due until one is over, and only the end of a step
/// sets the deadline of the next, to what that step asked for.
pub proof fn only_a_finished_step_rests(schedule: Schedule, wake: Wake)
    ensures
        ({
            let next = schedule.woken(wake).0;
            &&& schedule.should_step && !next.should_step ==> wake is StepFinished
            &&& next.next_retry == (match wake {
                Wake::StepFinished { deadline } => deadline,
                _ => schedule.next_retry,
            })
            &&& wake is StepFinished ==> !next.should_step
        }),
        Schedule::initial().should_step,
        Schedule::initial().next_retry is None,
{
}

/// The record of a step holds the finding as it is, by the state's name, and
/// says online of no other state than `Online`.
pub proof fn record_holds_the_finding(pid: nat, snapshot: SnapshotView, now: nat)
    ensures
        ({
            let state = recorded(pid, snapshot, now);
            &&& state.pid == pid
            &&& state.state == snapshot.state.text()
            &&& state.message == snapshot.message
            &&& state.ssid == snapshot.current_ssid
            &&& state.online <==> snapshot.state == State::Online
            &&& state.updated == now
            &&& state.last_error == snapshot.last_error
        }),
{
}

/// An age is told in seconds below a minute, in whole minutes below an hour and
/// in whole hours from then on. What was updated in the future is new.
pub proof fn ages_are_told_in_one_unit(
    updated: nat,
    seconds: nat,
    minutes: nat,
    hours: nat,
    ahead: nat,
)
    requires
        seconds < 60,
        0 < minutes < 60,
        0 < hours,
    ensures
        age_text(updated + seconds, updated) == text::decimal_text(seconds) + "s"@,
        age_text(updated + 60 * minutes + seconds, updated) == text::decimal_text(minutes) + "m"@,
        age_text(updated + 3600 * hours + seconds, updated) == text::decimal_text(hours) + "h"@,
        age_text(updated + 3600 * hours + 60 * minutes + seconds, updated) == text::decimal_text(
            hours,
        ) + "h"@,
        age_text(updated, updated + ahead) == text::decimal_text(0) + "s"@,
{
}

} // verus!
