//! Policy for the environment probe: whether this process already runs inside
//! a multiplexer session, judged from one process environment variable. The
//! shell reads the variable and hands the reading over as a plain value; the
//! policy itself is decided here.

use vstd::prelude::*;
use vstd::string::StrSliceExecFns;
use vstd::string::StringExecFns;

verus! {

/// What the shell found when it looked the session variable up.
pub enum SessionVarReading {
    /// The variable is not set.
    Missing,
    /// The variable is set and its contents are valid text.
    Text(String),
    /// The variable is set but its contents are not valid text; the whole
    /// run must be aborted.
    Malformed,
}

/// The environment is corrupted: the session variable holds bytes that are
/// not text. This is fatal for the whole run, not a recoverable error.
#[derive(PartialEq, Eq, Structural, Debug)]
pub struct EnvironmentError {}

impl EnvironmentError {
    /// The diagnostic printed before aborting.
    pub fn render(&self) -> (r: String)
        ensures
            r@ == "Bailing, TMUX env var contains non-Unicode characters"@,
    {
        String::from_str("Bailing, TMUX env var contains non-Unicode characters")
    }
}

/// Decides whether the process is inside a multiplexer session.
///
/// A missing variable means no session; an empty value also means no
/// session; any non-empty text means the process is inside one. A value
/// that is not valid text aborts the run with an `EnvironmentError`.
pub fn in_tmux_session(reading: &SessionVarReading) -> (r: Result<bool, EnvironmentError>)
    ensures
        match *reading {
            SessionVarReading::Missing => r == Result::<bool, EnvironmentError>::Ok(false),
            SessionVarReading::Text(ref v) => r == Result::<bool, EnvironmentError>::Ok(
                v@.len() > 0,
            ),
            SessionVarReading::Malformed => r is Err,
        },
{
    match reading {
        SessionVarReading::Missing => Ok(false),
        SessionVarReading::Text(v) => Ok(v.as_str().unicode_len() > 0),
        SessionVarReading::Malformed => Err(EnvironmentError {}),
    }
}

} // verus!
