//! The systemd user service.
//!
//! The unit is rendered with the path of the running executable, so setup
//! always points at the binary that performed it.

use vstd::prelude::*;

use crate::paths::{self, Environment};
use crate::text;

verus! {

pub const UNIT_NAME: &'static str = "wifilogin.service";

/// The unit, with a placeholder where the executable's path belongs.
pub const UNIT_TEMPLATE: &'static str =
    "[Unit]\nDescription=Captive-portal login for NetworkManager\nAfter=dbus.socket\n\n[Service]\nType=simple\nExecStart=@EXE@ run\nRestart=on-failure\nRestartSec=5\n\n[Install]\nWantedBy=default.target\n";

/// The unit for an executable.
pub open spec fn unit_text(exe: Seq<char>) -> Seq<char> {
    text::replaced(UNIT_TEMPLATE@, "@EXE@"@, exe)
}

/// Renders the unit for an executable.
pub fn render_unit(exe: &str) -> (unit: String)
    ensures
        unit@ == unit_text(exe@),
{
    proof {
        reveal_strlit("@EXE@");
    }
    text::replace(UNIT_TEMPLATE, "@EXE@", exe)
}

/// Where the rendered unit lives.
pub fn unit_path(env: &Environment) -> (path: Result<Vec<u8>, String>)
    ensures
        paths::found(
            path,
            paths::two_below(paths::config_root(*env), "systemd/user"@, UNIT_NAME@),
        ),
{
    paths::below(paths::config_dir(env), "systemd/user", UNIT_NAME)
}

/// What the unit holds before the executable's path.
pub open spec fn unit_head() -> Seq<char> {
    "[Unit]\nDescription=Captive-portal login for NetworkManager\nAfter=dbus.socket\n\n[Service]\nType=simple\nExecStart="@
}

/// What the unit holds behind the executable's path.
pub open spec fn unit_tail() -> Seq<char> {
    " run\nRestart=on-failure\nRestartSec=5\n\n[Install]\nWantedBy=default.target\n"@
}

proof fn lemma_template()
    ensures
        UNIT_TEMPLATE@ == unit_head() + "@EXE@"@ + unit_tail(),
        "@EXE@"@.len() > 0,
        "@EXE@"@.first() == '@',
        !unit_head().contains('@'),
        !unit_tail().contains('@'),
{
    reveal_strlit("@EXE@");
    reveal_strlit(
        "[Unit]\nDescription=Captive-portal login for NetworkManager\nAfter=dbus.socket\n\n[Service]\nType=simple\nExecStart=",
    );
    reveal_strlit(
        " run\nRestart=on-failure\nRestartSec=5\n\n[Install]\nWantedBy=default.target\n",
    );
    reveal_strlit(
        "[Unit]\nDescription=Captive-portal login for NetworkManager\nAfter=dbus.socket\n\n[Service]\nType=simple\nExecStart=@EXE@ run\nRestart=on-failure\nRestartSec=5\n\n[Install]\nWantedBy=default.target\n",
    );
    assert(forall|i: int| 0 <= i < unit_head().len() ==> unit_head()[i] != '@');
    assert(forall|i: int| 0 <= i < unit_tail().len() ==> unit_tail()[i] != '@');
}

/// The unit runs the executable, whatever its path: the placeholder gives way
/// to it, and nothing else in the unit changes.
pub proof fn unit_runs_executable(exe: Seq<char>)
    ensures
        unit_text(exe) == unit_head() + exe + unit_tail(),
        text::has_substring(unit_text(exe), "ExecStart="@ + exe + " run"@),
{
    lemma_template();
    text::replaced_once(unit_head(), "@EXE@"@, unit_tail(), exe);
    let unit = unit_text(exe);
    let line = "ExecStart="@ + exe + " run"@;
    let at = unit_head().len() - "ExecStart="@.len();
    reveal_strlit("ExecStart=");
    reveal_strlit(" run");
    reveal_strlit(
        "[Unit]\nDescription=Captive-portal login for NetworkManager\nAfter=dbus.socket\n\n[Service]\nType=simple\nExecStart=",
    );
    reveal_strlit(
        " run\nRestart=on-failure\nRestartSec=5\n\n[Install]\nWantedBy=default.target\n",
    );
    assert(unit_head().subrange(at, unit_head().len() as int) == "ExecStart="@);
    assert(unit_tail().take(4) == " run"@);
    assert forall|i: int| 0 <= i < line.len() implies #[trigger] unit.subrange(
        at,
        at + line.len(),
    )[i] == line[i] by {
        if i < "ExecStart="@.len() {
            assert(unit_head().subrange(at, unit_head().len() as int)[i] == unit_head()[at + i]);
        } else if i >= "ExecStart="@.len() + exe.len() {
            let k = i - "ExecStart="@.len() - exe.len();
            assert(unit_tail().take(4)[k] == unit_tail()[k]);
        }
    }
    assert(unit.subrange(at, at + line.len()) == line);
    assert(text::occurs_at(unit, line, at));
}

/// No placeholder is left in the unit of an executable whose path has none of
/// its marks.
pub proof fn unit_keeps_no_placeholder(exe: Seq<char>)
    requires
        !exe.contains('@'),
    ensures
        !unit_text(exe).contains('@'),
        !text::has_substring(unit_text(exe), "@EXE@"@),
{
    lemma_template();
    unit_runs_executable(exe);
    let unit = unit_text(exe);
    assert forall|i: int| 0 <= i < unit.len() implies unit[i] != '@' by {
        if i < unit_head().len() {
            assert(unit[i] == unit_head()[i]);
        } else if i < unit_head().len() + exe.len() {
            assert(unit[i] == exe[i - unit_head().len()]);
        } else {
            assert(unit[i] == unit_tail()[i - unit_head().len() - exe.len()]);
        }
    }
    assert forall|at: int| !text::occurs_at(unit, "@EXE@"@, at) by {
        if text::occurs_at(unit, "@EXE@"@, at) {
            assert(unit.subrange(at, at + "@EXE@"@.len())[0] == unit[at]);
        }
    }
}

/// What installing the unit comes to.
#[derive(Debug)]
pub struct UnitPlan {
    /// The unit file.
    pub contents: String,
    /// Whether the unit file is to be written.
    pub write: bool,
    /// What to tell the user about the unit file.
    pub line: String,
}

/// What a [`UnitPlan`] says.
pub struct UnitPlanView {
    pub contents: Seq<char>,
    pub write: bool,
    pub line: Seq<char>,
}

impl View for UnitPlan {
    type V = UnitPlanView;

    open spec fn view(&self) -> UnitPlanView {
        UnitPlanView { contents: self.contents@, write: self.write, line: self.line@ }
    }
}

/// The unit file is written unless it holds the rendered unit already.
pub open spec fn planned(
    exe: Seq<char>,
    path: Seq<char>,
    existed: bool,
    present: Option<Seq<char>>,
) -> UnitPlanView {
    let contents = unit_text(exe);
    let write = present != Some(contents);
    let verb = if !write {
        "unit file already up to date:"@
    } else if existed {
        "updated"@
    } else {
        "created"@
    };
    UnitPlanView { contents, write, line: verb + " "@ + path }
}

/// Decides what becomes of the unit file at `path`, given whether it exists
/// and what could be read of it.
pub fn plan_unit(exe: &str, path: &str, existed: bool, present: Option<&str>) -> (plan: UnitPlan)
    ensures
        plan@ == planned(exe@, path@, existed, text::opt_str(present)),
{
    let contents = render_unit(exe);
    let write = match present {
        Some(present) => !text::same(present, contents.as_str()),
        None => true,
    };
    let verb = if !write {
        "unit file already up to date:"
    } else if existed {
        "updated"
    } else {
        "created"
    };
    UnitPlan { contents, write, line: text::concat3(verb, " ", path) }
}

/// Installing twice writes once: what was written is up to date.
pub proof fn installing_again_writes_nothing(exe: Seq<char>, path: Seq<char>, existed: bool)
    ensures
        !planned(exe, path, existed, Some(unit_text(exe))).write,
{
}

fn words1(a: &str) -> (words: Vec<String>)
    ensures
        text::texts(words@) == seq![a@],
{
    let mut words: Vec<String> = Vec::new();
    words.push(a.to_string());
    words
}

fn words2(a: &str, b: &str) -> (words: Vec<String>)
    ensures
        text::texts(words@) == seq![a@, b@],
{
    let mut words: Vec<String> = Vec::new();
    words.push(a.to_string());
    words.push(b.to_string());
    words
}

fn words3(a: &str, b: &str, c: &str) -> (words: Vec<String>)
    ensures
        text::texts(words@) == seq![a@, b@, c@],
{
    let mut words: Vec<String> = Vec::new();
    words.push(a.to_string());
    words.push(b.to_string());
    words.push(c.to_string());
    words
}

/// A step with the user's systemd.
#[derive(Debug, Clone, Copy, PartialEq, Eq, Structural)]
pub enum Systemctl {
    /// Read the units again.
    Reload,
    /// Enable and start the service.
    Enable,
    /// Disable and stop the service.
    Disable,
    /// Start the service.
    Start,
    /// Stop the service.
    Stop,
    /// Restart the service.
    Restart,
    /// Show how the service is doing.
    Status,
}

impl Systemctl {
    /// The arguments behind `systemctl --user`.
    pub open spec fn words(self) -> Seq<Seq<char>> {
        match self {
            Self::Reload => seq!["daemon-reload"@],
            Self::Enable => seq!["enable"@, "--now"@, UNIT_NAME@],
            Self::Disable => seq!["disable"@, "--now"@, UNIT_NAME@],
            Self::Start => seq!["start"@, UNIT_NAME@],
            Self::Stop => seq!["stop"@, UNIT_NAME@],
            Self::Restart => seq!["restart"@, UNIT_NAME@],
            Self::Status => seq!["status"@, UNIT_NAME@],
        }
    }

    /// Why the step could not be started.
    pub open spec fn launch_failure_text(self) -> Seq<char> {
        "run systemctl --user "@ + text::spaced(self.words())
    }

    /// Why the step failed, given what it wrote to its error output.
    pub open spec fn failure_text(self, stderr: Seq<char>) -> Seq<char> {
        "`systemctl --user "@ + text::spaced(self.words()) + "` failed: "@ + text::trimmed(stderr)
    }

    /// The arguments behind `systemctl --user`.
    pub fn args(&self) -> (args: Vec<String>)
        ensures
            text::texts(args@) == self.words(),
    {
        match self {
            Self::Reload => words1("daemon-reload"),
            Self::Enable => words3("enable", "--now", UNIT_NAME),
            Self::Disable => words3("disable", "--now", UNIT_NAME),
            Self::Start => words2("start", UNIT_NAME),
            Self::Stop => words2("stop", UNIT_NAME),
            Self::Restart => words2("restart", UNIT_NAME),
            Self::Status => words2("status", UNIT_NAME),
        }
    }

    /// Why the step could not be started.
    pub fn launch_failure(&self) -> (s: String)
        ensures
            s@ == self.launch_failure_text(),
    {
        text::concat2("run systemctl --user ", text::join_words(&self.args()).as_str())
    }

    /// Why the step failed, given what it wrote to its error output.
    pub fn failure(&self, stderr: &str) -> (s: String)
        ensures
            s@ == self.failure_text(stderr@),
    {
        "`systemctl --user ".to_string().concat(text::join_words(&self.args()).as_str()).concat(
            "` failed: ",
        ).concat(text::trim(stderr).as_str())
    }

    /// What the step came to: nothing to report, or why it failed.
    pub fn check(&self, success: bool, stderr: &[u8]) -> (r: Result<(), String>)
        ensures
            r is Ok <==> success,
            r matches Err(message) ==> message@ == self.failure_text(text::lossy_text(stderr@)),
    {
        if success {
            return Ok(());
        }
        Err(self.failure(text::utf8_lossy(stderr).as_str()))
    }
}

/// What to tell the user when the service could not be disabled, given what
/// systemd wrote about it.
pub fn disable_failure(stderr: &str) -> (note: String)
    ensures
        note@ == "note: could not disable service: "@ + text::trimmed(stderr@),
{
    text::concat2("note: could not disable service: ", text::trim(stderr).as_str())
}

/// What to tell the user when the service could not be disabled.
pub fn disable_note(success: bool, stderr: &[u8]) -> (note: Option<String>)
    ensures
        note is None <==> success,
        note matches Some(note) ==> note@ == "note: could not disable service: "@ + text::trimmed(
            text::lossy_text(stderr@),
        ),
{
    if success {
        return None;
    }
    Some(disable_failure(text::utf8_lossy(stderr).as_str()))
}

/// The unit file is written exactly when it does not hold the rendered unit,
/// also where it could not be read, and what is written is the rendered unit.
/// The user is told of a file that was made, changed or left alone.
pub proof fn unit_is_written_where_it_differs(
    exe: Seq<char>,
    path: Seq<char>,
    existed: bool,
    present: Seq<char>,
)
    ensures
        planned(exe, path, existed, None).write,
        planned(exe, path, existed, Some(present)).write <==> present != unit_text(exe),
        planned(exe, path, existed, Some(present)).contents == unit_text(exe),
        planned(exe, path, existed, None).contents == unit_text(exe),
        planned(exe, path, true, None).line == "updated"@ + " "@ + path,
        planned(exe, path, false, None).line == "created"@ + " "@ + path,
        planned(exe, path, existed, Some(unit_text(exe))).line == "unit file already up to date:"@
            + " "@ + path,
        present != unit_text(exe) ==> planned(exe, path, existed, Some(present)).line == planned(
            exe,
            path,
            existed,
            None,
        ).line,
{
}

} // verus!
