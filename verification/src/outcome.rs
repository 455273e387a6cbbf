//! How a run of the shell concludes: a clean shutdown when the event
//! loop returns without error, and an immediate fatal abort otherwise.

use vstd::prelude::*;
use vstd::string::StringExecFns;

verus! {

/// How the process ends once the event loop has returned. There is no
/// third possibility: the shell never keeps running after a failed
/// start.
#[derive(Debug, PartialEq, Eq)]
pub enum Termination {
    /// The event loop ended normally; the process exits cleanly.
    CleanShutdown,
    /// The runtime failed to start or run; the process aborts at once
    /// with this diagnostic.
    FatalAbort(String),
}

/// The fixed prefix of the fatal diagnostic.
pub open spec fn fatal_prefix() -> Seq<char> {
    "error while running Tauri application: "@
}

/// The diagnostic the process aborts with, given the runtime's error
/// rendered as text.
pub open spec fn fatal_diagnostic_of(e: Seq<char>) -> Seq<char> {
    fatal_prefix() + e
}

/// Decides how the process ends once the event loop has returned,
/// `run_error` being the runtime's error rendered as text, if there was
/// one. A reported error is never survived: it concludes in a fatal
/// abort carrying its diagnostic, and only an error-free return
/// concludes in a clean shutdown.
pub fn conclude_run(run_error: Option<String>) -> (r: Termination)
    ensures
        r == Termination::CleanShutdown <==> run_error is None,
        run_error matches Some(e) ==> (r matches Termination::FatalAbort(d) && d@
            == fatal_diagnostic_of(e@)),
{
    match run_error {
        Option::None => Termination::CleanShutdown,
        Option::Some(e) => {
            let mut d = String::from_str("error while running Tauri application: ");
            d.append(e.as_str());
            Termination::FatalAbort(d)
        },
    }
}

} // verus!
