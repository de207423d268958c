//! The closed set of ways a script run can end, and the conventional process
//! exit code reserved for each of them.

use vstd::prelude::*;

verus! {

/// Exit code of a run that succeeded.
pub const EXIT_SUCCESS: i32 = 0;

/// Exit code reserved for a bad invocation or an unreadable input file.
pub const EXIT_USAGE: i32 = 64;

/// Exit code reserved for a script that fails to compile.
pub const EXIT_DATA: i32 = 65;

/// Exit code reserved for a script that compiles but fails while running.
pub const EXIT_RUNTIME: i32 = 1;

/// How a script run ended. Every failing variant carries the human-readable
/// description that is printed, once, on the error stream.
pub enum Outcome {
    /// The script compiled and ran to completion.
    Success,
    /// The environment or the invocation was at fault: the input file could
    /// not be read.
    UsageError(String),
    /// The script's content was at fault: it did not compile.
    DataError(String),
    /// The script compiled but raised a fault while running.
    RuntimeFault(String),
}

impl Outcome {
    /// The exit code that each outcome maps to: the whole mapping, consulted
    /// at a single point before process termination.
    pub open spec fn spec_exit_code(self) -> i32 {
        match self {
            Outcome::Success => EXIT_SUCCESS,
            Outcome::UsageError(_) => EXIT_USAGE,
            Outcome::DataError(_) => EXIT_DATA,
            Outcome::RuntimeFault(_) => EXIT_RUNTIME,
        }
    }

    /// The diagnostic carried by a failing outcome; a successful run has none.
    pub open spec fn spec_message(self) -> Option<Seq<char>> {
        match self {
            Outcome::Success => None,
            Outcome::UsageError(m) => Some(m@),
            Outcome::DataError(m) => Some(m@),
            Outcome::RuntimeFault(m) => Some(m@),
        }
    }

    /// The process exit code for this outcome.
    pub fn exit_code(&self) -> (code: i32)
        ensures
            code == self.spec_exit_code(),
    {
        match self {
            Outcome::Success => EXIT_SUCCESS,
            Outcome::UsageError(_) => EXIT_USAGE,
            Outcome::DataError(_) => EXIT_DATA,
            Outcome::RuntimeFault(_) => EXIT_RUNTIME,
        }
    }

    /// The diagnostic line to print on the error stream, if any.
    pub fn message(&self) -> (msg: Option<&String>)
        ensures
            match msg {
                None => self.spec_message() is None,
                Some(m) => self.spec_message() == Some(m@),
            },
    {
        match self {
            Outcome::Success => None,
            Outcome::UsageError(m) => Some(m),
            Outcome::DataError(m) => Some(m),
            Outcome::RuntimeFault(m) => Some(m),
        }
    }
}

/// The four exit codes are distinct, so a caller can branch on the failure
/// category from the exit code alone, without parsing the message: 0 is
/// success, 64 a usage error, 65 a compile failure, 1 a runtime fault, and
/// nothing else maps to any of them.
pub proof fn lemma_exit_code_classifies(o: Outcome)
    ensures
        o.spec_exit_code() == EXIT_SUCCESS <==> o is Success,
        o.spec_exit_code() == EXIT_USAGE <==> o is UsageError,
        o.spec_exit_code() == EXIT_DATA <==> o is DataError,
        o.spec_exit_code() == EXIT_RUNTIME <==> o is RuntimeFault,
{
}

/// A failing outcome always carries a diagnostic, and a successful one never
/// does: exactly one line is printed per failure, none on success.
pub proof fn lemma_failure_has_message(o: Outcome)
    ensures
        o.spec_message() is None <==> o.spec_exit_code() == EXIT_SUCCESS,
{
}

} // verus!
