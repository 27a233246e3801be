//! What becomes of a run of the `ollama` binary.

use crate::error::{Error, ErrorView};
use crate::text::{decimal, decimal_string};
use vstd::prelude::*;
use vstd::string::*;

verus! {

/// The program that manages the models.
pub const OLLAMA_BINARY: &'static str = "ollama";

/// The exit code reported for a run: its own, or -1 when it ended without
/// one, as a process does that a signal stopped.
pub open spec fn reported_code(code: Option<i32>) -> int {
    match code {
        Some(c) => c as int,
        None => -1,
    }
}

/// What is said of a run that failed.
pub open spec fn failure_text(code: Option<i32>) -> Seq<char> {
    "Ollama command failed with exit code "@ + decimal(reported_code(code))
}

/// Judges a finished run by its exit status: a successful one passes, any
/// other is a [`Error::Command`] that names the exit code.
pub fn command_outcome(success: bool, code: Option<i32>) -> (r: Result<(), Error>)
    ensures
        success ==> r is Ok,
        !success ==> r is Err && r->Err_0@ == ErrorView::Command(failure_text(code)),
{
    if success {
        Ok(())
    } else {
        let shown: i32 = match code {
            Some(c) => c,
            None => -1,
        };
        let text = String::from_str("Ollama command failed with exit code ").concat(
            decimal_string(shown).as_str(),
        );
        Err(Error::Command(text))
    }
}

} // verus!
