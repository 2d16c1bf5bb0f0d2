//! The error taxonomy: validation failures detected before any external
//! operation runs, failures of the two external tools (multiplexer and
//! version control), and the fatal environment corruption case, plus the
//! overall outcome of one command and its process exit code.

use vstd::prelude::*;
use vstd::string::StringExecFns;

verus! {

/// Which external system a tool failure came from.
#[derive(Clone, Copy, PartialEq, Eq, Structural, Debug)]
pub enum Source {
    /// The terminal multiplexer.
    Multiplexer,
    /// The version-control tool.
    VersionControl,
}

/// The tag under which a source is reported.
pub open spec fn spec_source_label(s: Source) -> Seq<char> {
    match s {
        Source::Multiplexer => "tmux"@,
        Source::VersionControl => "git"@,
    }
}

impl Source {
    /// The tag under which this source is reported.
    pub fn label(&self) -> (r: &'static str)
        ensures
            r@ == spec_source_label(*self),
    {
        match self {
            Source::Multiplexer => "tmux",
            Source::VersionControl => "git",
        }
    }
}

/// The decimal digit character for one digit value.
pub open spec fn digit_char(d: nat) -> char {
    if d == 0 {
        '0'
    } else if d == 1 {
        '1'
    } else if d == 2 {
        '2'
    } else if d == 3 {
        '3'
    } else if d == 4 {
        '4'
    } else if d == 5 {
        '5'
    } else if d == 6 {
        '6'
    } else if d == 7 {
        '7'
    } else if d == 8 {
        '8'
    } else {
        '9'
    }
}

/// The usual decimal rendering of a number, most significant digit first,
/// with no leading zeros (a lone zero for 0).
pub open spec fn spec_decimal(n: nat) -> Seq<char>
    decreases n,
{
    if n < 10 {
        seq![digit_char(n)]
    } else {
        spec_decimal(n / 10) + seq![digit_char(n % 10)]
    }
}

/// The one-character string for one digit value.
fn digit_str(d: usize) -> (r: &'static str)
    requires
        d < 10,
    ensures
        r@ == seq![digit_char(d as nat)],
{
    let r: &'static str = if d == 0 {
        "0"
    } else if d == 1 {
        "1"
    } else if d == 2 {
        "2"
    } else if d == 3 {
        "3"
    } else if d == 4 {
        "4"
    } else if d == 5 {
        "5"
    } else if d == 6 {
        "6"
    } else if d == 7 {
        "7"
    } else if d == 8 {
        "8"
    } else {
        "9"
    };
    proof {
        reveal_strlit("0");
        reveal_strlit("1");
        reveal_strlit("2");
        reveal_strlit("3");
        reveal_strlit("4");
        reveal_strlit("5");
        reveal_strlit("6");
        reveal_strlit("7");
        reveal_strlit("8");
        reveal_strlit("9");
        assert(r@ =~= seq![digit_char(d as nat)]);
    }
    r
}

/// Renders a number in decimal.
pub fn decimal_string(n: usize) -> (r: String)
    ensures
        r@ == spec_decimal(n as nat),
    decreases n,
{
    if n < 10 {
        String::from_str(digit_str(n))
    } else {
        let mut s = decimal_string(n / 10);
        s.append(digit_str(n % 10));
        s
    }
}

/// A failure of one external tool, normalized: the tool's numeric exit or
/// error status (or a sentinel when the tool could not be invoked at all),
/// a human-readable message, and the source system it came from.
#[derive(PartialEq, Debug)]
pub struct TaskError {
    /// The external tool's exit or error status; 100 when the tool itself
    /// could not be invoked.
    pub status: usize,
    /// A human-readable description, typically the tool's captured and
    /// trimmed standard-error text.
    pub message: String,
    /// Which external system failed.
    pub source: Source,
}

/// The status recorded for a tool that ran and exited: its exit code when
/// one is available and non-negative, 1 otherwise.
pub open spec fn spec_exit_status(code: Option<i32>) -> usize {
    match code {
        Some(c) => if 0 <= c {
            c as usize
        } else {
            1 as usize
        },
        None => 1 as usize,
    }
}

/// The rendering of a tool failure:
/// `<message> (exit-status: <status>, source: <source>)`.
pub open spec fn spec_render_task_error(e: TaskError) -> Seq<char> {
    e.message@ + " (exit-status: "@ + spec_decimal(e.status as nat) + ", source: "@
        + spec_source_label(e.source) + ")"@
}

impl TaskError {
    /// A failure of a tool that ran and exited with a failing status.
    pub fn tool_failure(source: Source, exit_code: Option<i32>, message: String) -> (e: TaskError)
        ensures
            e.source == source,
            e.message == message,
            e.status == spec_exit_status(exit_code),
    {
        let status: usize = match exit_code {
            Some(c) => if 0 <= c {
                c as usize
            } else {
                1
            },
            None => 1,
        };
        TaskError { status, message, source }
    }

    /// A failure to invoke the tool at all; the status is the sentinel 100.
    pub fn invocation_failure(source: Source, message: String) -> (e: TaskError)
        ensures
            e.source == source,
            e.message == message,
            e.status == 100,
    {
        TaskError { status: 100, message, source }
    }

    /// Renders this failure for the user.
    pub fn render(&self) -> (r: String)
        ensures
            r@ == spec_render_task_error(*self),
    {
        let mut r = self.message.clone();
        r.append(" (exit-status: ");
        let digits = decimal_string(self.status);
        r.append(digits.as_str());
        r.append(", source: ");
        r.append(self.source.label());
        r.append(")");
        proof {
            assert(r@ =~= spec_render_task_error(*self));
        }
        r
    }
}

/// A request refused before any external operation ran.
#[derive(Clone, Copy, PartialEq, Eq, Structural, Debug)]
pub enum ValidationError {
    /// A task of that name is already registered, so it cannot be created.
    DuplicateTask,
    /// The name cannot serve as a session and branch name.
    InvalidName,
    /// No task of that name is registered.
    UnknownTask,
}

/// The rendering of a validation failure for a given task name.
pub open spec fn spec_render_validation_error(e: ValidationError, name: Seq<char>) -> Seq<char> {
    match e {
        ValidationError::DuplicateTask => "Task '"@ + name + "' already exists"@,
        ValidationError::InvalidName => "Task '"@ + name + "' is not a usable task name"@,
        ValidationError::UnknownTask => "Task '"@ + name + "' not found"@,
    }
}

impl ValidationError {
    /// Renders this refusal for the user, naming the task it concerns.
    pub fn render(&self, name: &str) -> (r: String)
        ensures
            r@ == spec_render_validation_error(*self, name@),
    {
        let mut r = String::from_str("Task '");
        r.append(name);
        match self {
            ValidationError::DuplicateTask => r.append("' already exists"),
            ValidationError::InvalidName => r.append("' is not a usable task name"),
            ValidationError::UnknownTask => r.append("' not found"),
        }
        proof {
            assert(r@ =~= spec_render_validation_error(*self, name@));
        }
        r
    }
}

/// How one command of a run ended.
#[derive(PartialEq, Debug)]
pub enum CommandOutcome {
    /// The command did everything it set out to do.
    Completed,
    /// The user declined the confirmation prompt; nothing was done, and
    /// that is not an error.
    Declined,
    /// The command was refused before any external operation ran.
    Rejected(ValidationError),
    /// An external tool failed; earlier side effects of the same command
    /// are kept, not rolled back.
    Failed(TaskError),
}

/// The process exit code for an outcome: 0 for a completed command and for
/// a declined confirmation, 1 for every failure.
pub open spec fn spec_exit_code(o: CommandOutcome) -> i32 {
    match o {
        CommandOutcome::Completed => 0,
        CommandOutcome::Declined => 0,
        CommandOutcome::Rejected(_) => 1,
        CommandOutcome::Failed(_) => 1,
    }
}

/// The process exit code for an outcome.
pub fn exit_code(o: &CommandOutcome) -> (c: i32)
    ensures
        c == spec_exit_code(*o),
{
    match o {
        CommandOutcome::Completed => 0,
        CommandOutcome::Declined => 0,
        CommandOutcome::Rejected(_) => 1,
        CommandOutcome::Failed(_) => 1,
    }
}

} // verus!
