//! Installing the systemd user service, step by step.

use vstd::prelude::*;

use crate::failure::{Failure, FailureView};
use crate::service::{plan_unit, planned, unit_text, Systemctl};
use crate::text;

verus! {

/// What an installation is waiting for.
#[derive(Debug)]
pub enum Install {
    /// Whether systemctl is there.
    Checking,
    /// What the unit file holds.
    Reading,
    /// The unit file being written.
    Writing { line: String },
    /// The user's units being read again.
    Reloading,
    /// The service being enabled and started.
    Enabling,
    /// Nothing.
    Over,
}

/// What an [`Install`] says.
pub enum InstallView {
    Checking,
    Reading,
    Writing { line: Seq<char> },
    Reloading,
    Enabling,
    Over,
}

impl View for Install {
    type V = InstallView;

    open spec fn view(&self) -> InstallView {
        match *self {
            Install::Checking => InstallView::Checking,
            Install::Reading => InstallView::Reading,
            Install::Writing { line } => InstallView::Writing { line: line@ },
            Install::Reloading => InstallView::Reloading,
            Install::Enabling => InstallView::Enabling,
            Install::Over => InstallView::Over,
        }
    }
}

/// What an installation is told.
#[derive(Debug)]
pub enum InstallInput {
    /// Whether systemctl is there.
    Systemctl { found: bool },
    /// The running executable, and the unit file: its path, whether it exists,
    /// and what could be read of it.
    Unit { exe: String, path: String, existed: bool, present: Option<String> },
    /// The unit file was written, or why it was not.
    Written(Result<(), Failure>),
    /// A step with systemd ran, with its success and its error output.
    Ran { success: bool, stderr: Vec<u8> },
    /// A step with systemd could not be started.
    NotRun(Failure),
}

/// What an [`InstallInput`] says.
pub enum InstallInputView {
    Systemctl { found: bool },
    Unit { exe: Seq<char>, path: Seq<char>, existed: bool, present: Option<Seq<char>> },
    Written(Result<(), FailureView>),
    Ran { success: bool, stderr: Seq<u8> },
    NotRun(FailureView),
}

impl View for InstallInput {
    type V = InstallInputView;

    open spec fn view(&self) -> InstallInputView {
        match *self {
            InstallInput::Systemctl { found } => InstallInputView::Systemctl { found },
            InstallInput::Unit { exe, path, existed, present } => InstallInputView::Unit {
                exe: exe@,
                path: path@,
                existed,
                present: text::opt_text(present),
            },
            InstallInput::Written(Ok(())) => InstallInputView::Written(Ok(())),
            InstallInput::Written(Err(failure)) => InstallInputView::Written(Err(failure@)),
            InstallInput::Ran { success, stderr } => InstallInputView::Ran {
                success,
                stderr: stderr@,
            },
            InstallInput::NotRun(failure) => InstallInputView::NotRun(failure@),
        }
    }
}

/// What an installation asks for.
#[derive(Debug)]
pub enum InstallAction {
    /// Make the unit's directory, and look at the unit file.
    ReadUnit,
    /// Write the unit file.
    WriteUnit { contents: String },
    /// Say so, and take a step with systemd.
    Run { line: String, step: Systemctl },
    /// Say so, and end.
    Finish { line: String },
    /// Fail.
    Fail { failure: Failure },
}

/// What an [`InstallAction`] says.
pub enum InstallActionView {
    ReadUnit,
    WriteUnit { contents: Seq<char> },
    Run { line: Seq<char>, step: Systemctl },
    Finish { line: Seq<char> },
    Fail { failure: FailureView },
}

impl View for InstallAction {
    type V = InstallActionView;

    open spec fn view(&self) -> InstallActionView {
        match *self {
            InstallAction::ReadUnit => InstallActionView::ReadUnit,
            InstallAction::WriteUnit { contents } => InstallActionView::WriteUnit {
                contents: contents@,
            },
            InstallAction::Run { line, step } => InstallActionView::Run { line: line@, step },
            InstallAction::Finish { line } => InstallActionView::Finish { line: line@ },
            InstallAction::Fail { failure } => InstallActionView::Fail { failure: failure@ },
        }
    }
}

/// Why a step with systemd came to nothing, given what is told of it.
pub open spec fn step_failure(step: Systemctl, input: InstallInputView) -> Option<FailureView> {
    match input {
        InstallInputView::Ran { success: true, .. } => None,
        InstallInputView::Ran { stderr, .. } => Some(
            FailureView::plain(step.failure_text(text::lossy_text(stderr))),
        ),
        InstallInputView::NotRun(cause) => Some(cause.context(step.launch_failure_text())),
        _ => None,
    }
}

impl InstallView {
    /// The installation is over, without success.
    pub open spec fn fail(failure: FailureView) -> (Self, InstallActionView) {
        (Self::Over, InstallActionView::Fail { failure })
    }

    /// The input is what the installation is waiting for.
    pub open spec fn awaits(self, input: InstallInputView) -> bool {
        match input {
            InstallInputView::Systemctl { .. } => self is Checking,
            InstallInputView::Unit { .. } => self is Reading,
            InstallInputView::Written(_) => self is Writing,
            InstallInputView::Ran { .. } => self is Reloading || self is Enabling,
            InstallInputView::NotRun(_) => self is Reloading || self is Enabling,
        }
    }

    /// What the installation makes of an input that it awaits.
    pub open spec fn step(self, input: InstallInputView) -> (Self, InstallActionView) {
        match (self, input) {
            (Self::Checking, InstallInputView::Systemctl { found }) => if found {
                (Self::Reading, InstallActionView::ReadUnit)
            } else {
                Self::fail(
                    FailureView::plain(
                        "systemctl not found — `service` commands require a systemd user session"@,
                    ),
                )
            },
            (Self::Reading, InstallInputView::Unit { exe, path, existed, present }) => {
                let plan = planned(exe, path, existed, present);
                if plan.write {
                    (
                        Self::Writing { line: plan.line },
                        InstallActionView::WriteUnit { contents: plan.contents },
                    )
                } else {
                    (
                        Self::Reloading,
                        InstallActionView::Run { line: plan.line, step: Systemctl::Reload },
                    )
                }
            },
            (Self::Writing { line }, InstallInputView::Written(Ok(()))) => (
                Self::Reloading,
                InstallActionView::Run { line, step: Systemctl::Reload },
            ),
            (Self::Writing { .. }, InstallInputView::Written(Err(failure))) => Self::fail(failure),
            (Self::Reloading, input) => match step_failure(Systemctl::Reload, input) {
                Some(failure) => Self::fail(failure),
                None => (
                    Self::Enabling,
                    InstallActionView::Run {
                        line: "reloaded user units"@,
                        step: Systemctl::Enable,
                    },
                ),
            },
            (Self::Enabling, input) => match step_failure(Systemctl::Enable, input) {
                Some(failure) => Self::fail(failure),
                None => (
                    Self::Over,
                    InstallActionView::Finish { line: "enabled and started wifilogin.service"@ },
                ),
            },
            _ => arbitrary(),
        }
    }
}

fn fail(failure: Failure) -> (r: (Install, InstallAction))
    ensures
        (r.0@, r.1@) == InstallView::fail(failure@),
{
    (Install::Over, InstallAction::Fail { failure })
}

fn failure_of(step: Systemctl, input: InstallInput) -> (failure: Option<Failure>)
    requires
        input is Ran || input is NotRun,
    ensures
        match step_failure(step, input@) {
            Some(expected) => failure matches Some(failure) && failure@ == expected,
            None => failure is None,
        },
{
    match input {
        InstallInput::Ran { success, stderr } => match step.check(success, stderr.as_slice()) {
            Ok(()) => None,
            Err(message) => Some(Failure::plain(message)),
        },
        InstallInput::NotRun(cause) => Some(cause.context(step.launch_failure().as_str())),
        _ => None,
    }
}

impl Install {
    /// An installation that has not begun; systemctl is to be looked for first.
    pub fn new() -> (install: Self)
        ensures
            install@ == InstallView::Checking,
    {
        Install::Checking
    }

    /// Takes an input that the installation awaits and says what to do next.
    pub fn step(self, input: InstallInput) -> (r: (Install, InstallAction))
        requires
            self@.awaits(input@),
        ensures
            (r.0@, r.1@) == self@.step(input@),
    {
        match (self, input) {
            (Self::Checking, InstallInput::Systemctl { found }) => {
                if found {
                    return (Self::Reading, InstallAction::ReadUnit);
                }
                fail(
                    Failure::from(
                        "systemctl not found — `service` commands require a systemd user session",
                    ),
                )
            },
            (Self::Reading, InstallInput::Unit { exe, path, existed, present }) => {
                let present = match &present {
                    Some(present) => Some(present.as_str()),
                    None => None,
                };
                let plan = plan_unit(exe.as_str(), path.as_str(), existed, present);
                if plan.write {
                    return (
                        Self::Writing { line: plan.line },
                        InstallAction::WriteUnit { contents: plan.contents },
                    );
                }
                (
                    Self::Reloading,
                    InstallAction::Run { line: plan.line, step: Systemctl::Reload },
                )
            },
            (Self::Writing { line }, InstallInput::Written(Ok(()))) => (
                Self::Reloading,
                InstallAction::Run { line, step: Systemctl::Reload },
            ),
            (Self::Writing { .. }, InstallInput::Written(Err(failure))) => fail(failure),
            (Self::Reloading, input) => match failure_of(Systemctl::Reload, input) {
                Some(failure) => fail(failure),
                None => (
                    Self::Enabling,
                    InstallAction::Run {
                        line: "reloaded user units".to_string(),
                        step: Systemctl::Enable,
                    },
                ),
            },
            (Self::Enabling, input) => match failure_of(Systemctl::Enable, input) {
                Some(failure) => fail(failure),
                None => (
                    Self::Over,
                    InstallAction::Finish {
                        line: "enabled and started wifilogin.service".to_string(),
                    },
                ),
            },
            _ => fail(Failure::from("")),
        }
    }
}

/// What an installation asks for, one input after the other.
pub open spec fn actions(install: InstallView, inputs: Seq<InstallInputView>) -> Seq<
    InstallActionView,
>
    decreases inputs.len(),
{
    if inputs.len() == 0 {
        Seq::empty()
    } else {
        let (next, action) = install.step(inputs.first());
        seq![action] + actions(next, inputs.drop_first())
    }
}

/// Every input is one that the installation awaits when it comes.
pub open spec fn proper(install: InstallView, inputs: Seq<InstallInputView>) -> bool
    decreases inputs.len(),
{
    inputs.len() > 0 ==> install.awaits(inputs.first()) && proper(
        install.step(inputs.first()).0,
        inputs.drop_first(),
    )
}

/// The unit file after an installation that found `present` in it and then
/// asked for `asked`.
pub open spec fn unit_file(present: Option<Seq<char>>, asked: Seq<InstallActionView>) -> Option<
    Seq<char>,
>
    decreases asked.len(),
{
    if asked.len() == 0 {
        present
    } else {
        match asked.last() {
            InstallActionView::WriteUnit { contents } => Some(contents),
            _ => unit_file(present, asked.drop_last()),
        }
    }
}

/// A step with systemd that went well.
pub open spec fn went_well(input: InstallInputView) -> bool {
    input matches InstallInputView::Ran { success: true, .. }
}

proof fn lemma_step(install: InstallView, inputs: Seq<InstallInputView>)
    requires
        inputs.len() > 0,
        proper(install, inputs),
    ensures
        ({
            let (next, action) = install.step(inputs.first());
            let rest = inputs.drop_first();
            let asked = actions(install, inputs);
            &&& install.awaits(inputs.first())
            &&& proper(next, rest)
            &&& asked == seq![action] + actions(next, rest)
            &&& asked.len() == inputs.len()
            &&& actions(next, rest).len() == rest.len()
            &&& rest.len() > 0 ==> next.awaits(rest.first()) && asked.last() == actions(
                next,
                rest,
            ).last()
            &&& rest.len() == 0 ==> asked == seq![action]
        }),
    decreases inputs.len(),
{
    let (next, action) = install.step(inputs.first());
    let rest = inputs.drop_first();
    if rest.len() > 0 {
        lemma_step(next, rest);
    }
}

proof fn lemma_enabling(inputs: Seq<InstallInputView>)
    requires
        inputs.len() > 0,
        proper(InstallView::Enabling, inputs),
        actions(InstallView::Enabling, inputs).last() is Finish,
    ensures
        inputs.len() == 1,
        went_well(inputs[0]),
        actions(InstallView::Enabling, inputs) == seq![
            InstallActionView::Finish { line: "enabled and started wifilogin.service"@ },
        ],
{
    lemma_step(InstallView::Enabling, inputs);
}

proof fn lemma_reloading(inputs: Seq<InstallInputView>)
    requires
        inputs.len() > 0,
        proper(InstallView::Reloading, inputs),
        actions(InstallView::Reloading, inputs).last() is Finish,
    ensures
        inputs.len() == 2,
        went_well(inputs[0]),
        went_well(inputs[1]),
        actions(InstallView::Reloading, inputs) == seq![
            InstallActionView::Run { line: "reloaded user units"@, step: Systemctl::Enable },
            InstallActionView::Finish { line: "enabled and started wifilogin.service"@ },
        ],
{
    lemma_step(InstallView::Reloading, inputs);
    lemma_enabling(inputs.drop_first());
}

proof fn lemma_writing(line: Seq<char>, inputs: Seq<InstallInputView>)
    requires
        inputs.len() > 0,
        proper(InstallView::Writing { line }, inputs),
        actions(InstallView::Writing { line }, inputs).last() is Finish,
    ensures
        inputs.len() == 3,
        inputs[0] matches InstallInputView::Written(Ok(_)),
        went_well(inputs[1]),
        went_well(inputs[2]),
        actions(InstallView::Writing { line }, inputs) == seq![
            InstallActionView::Run { line, step: Systemctl::Reload },
            InstallActionView::Run { line: "reloaded user units"@, step: Systemctl::Enable },
            InstallActionView::Finish { line: "enabled and started wifilogin.service"@ },
        ],
{
    lemma_step(InstallView::Writing { line }, inputs);
    lemma_reloading(inputs.drop_first());
}

/// An installation that ends well found systemctl, left the rendered unit in
/// the unit file, had systemd read its units again, and then enabled and
/// started the service, in this order. It wrote the unit file only where that
/// did not hold the rendered unit already.
pub proof fn installation_ends_well_in_order(inputs: Seq<InstallInputView>)
    requires
        proper(InstallView::Checking, inputs),
        inputs.len() > 0,
        actions(InstallView::Checking, inputs).last() is Finish,
    ensures
        inputs.len() >= 4,
        inputs[0] == (InstallInputView::Systemctl { found: true }),
        inputs[1] matches InstallInputView::Unit { exe, path, existed, present } && {
            let asked = actions(InstallView::Checking, inputs);
            let line = planned(exe, path, existed, present).line;
            let tail = seq![
                InstallActionView::Run { line, step: Systemctl::Reload },
                InstallActionView::Run { line: "reloaded user units"@, step: Systemctl::Enable },
                InstallActionView::Finish { line: "enabled and started wifilogin.service"@ },
            ];
            &&& asked == if present == Some(unit_text(exe)) {
                seq![InstallActionView::ReadUnit] + tail
            } else {
                seq![
                    InstallActionView::ReadUnit,
                    InstallActionView::WriteUnit { contents: unit_text(exe) },
                ] + tail
            }
            &&& unit_file(present, asked) == Some(unit_text(exe))
            &&& present != Some(unit_text(exe)) ==> inputs[2] matches InstallInputView::Written(Ok(_))
        },
        went_well(inputs[inputs.len() - 2]),
        went_well(inputs[inputs.len() - 1]),
{
    let start = InstallView::Checking;
    let rest = inputs.drop_first();
    let reading = start.step(inputs.first()).0;
    lemma_step(start, inputs);
    lemma_step(reading, rest);
    let asked = actions(start, inputs);
    match rest.first() {
        InstallInputView::Unit { exe, path, existed, present } => {
            let plan = planned(exe, path, existed, present);
            if plan.write {
                lemma_writing(plan.line, rest.drop_first());
                reveal_with_fuel(unit_file, 5);
                assert(unit_file(present, asked) == Some(unit_text(exe)));
            } else {
                lemma_reloading(rest.drop_first());
                reveal_with_fuel(unit_file, 5);
                assert(unit_file(present, asked) == present);
            }
        },
        _ => {},
    }
}

/// Without systemctl an installation fails before anything is read or written.
pub proof fn installation_needs_systemctl(inputs: Seq<InstallInputView>)
    requires
        proper(InstallView::Checking, inputs),
        inputs.len() > 0,
        inputs[0] == (InstallInputView::Systemctl { found: false }),
    ensures
        inputs.len() == 1,
        actions(InstallView::Checking, inputs) == seq![
            InstallActionView::Fail {
                failure: FailureView::plain(
                    "systemctl not found — `service` commands require a systemd user session"@,
                ),
            },
        ],
{
    lemma_step(InstallView::Checking, inputs);
}

/// A step that does not go well ends an installation at once: with why the unit
/// file was not written, with what systemd wrote, or with why it was not run.
pub proof fn installation_stops_at_a_failure(
    line: Seq<char>,
    failure: FailureView,
    stderr: Seq<u8>,
)
    ensures
        (InstallView::Writing { line }).step(InstallInputView::Written(Err(failure))) == (
            InstallView::Over,
            InstallActionView::Fail { failure },
        ),
        forall|install: InstallView|
            install is Reloading || install is Enabling ==> {
                let (over, action) = #[trigger] install.step(
                    InstallInputView::Ran { success: false, stderr },
                );
                over is Over && action is Fail
            },
        forall|install: InstallView|
            install is Reloading || install is Enabling ==> {
                let (over, action) = #[trigger] install.step(InstallInputView::NotRun(failure));
                over is Over && (action matches InstallActionView::Fail { failure: told }
                    && told.causes == seq![failure.message] + failure.causes)
            },
{
}

/// Whatever an installation asks for, it then takes the answer to it.
pub proof fn every_answer_is_taken(
    install: InstallView,
    input: InstallInputView,
    answered: InstallInputView,
    found: bool,
)
    requires
        install.awaits(input),
    ensures
        InstallView::Checking.awaits(InstallInputView::Systemctl { found }),
        ({
            let (after, action) = install.step(input);
            match action {
                InstallActionView::ReadUnit => answered is Unit ==> after.awaits(answered),
                InstallActionView::WriteUnit { .. } => answered is Written ==> after.awaits(
                    answered,
                ),
                InstallActionView::Run { .. } => answered is Ran || answered is NotRun
                    ==> after.awaits(answered),
                _ => after is Over,
            }
        }),
{
}

} // verus!
