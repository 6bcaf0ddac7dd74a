//! Error kinds of the dashboard core. Every one of them is fatal: the loop
//! driver tears the terminal down and returns the error to the process
//! boundary; there is no local retry.

use vstd::prelude::*;

verus! {

/// A fatal condition raised by the core or reported by one of its external
/// collaborators (metrics provider, terminal renderer).
#[derive(Clone, Copy, Debug, PartialEq, Eq, Structural)]
pub enum DashError {
    /// The initial metrics read failed; startup is aborted.
    ProviderUnavailable,
    /// A later metrics refresh failed; the loop terminates.
    ProviderReadFailed,
    /// The provider reported a different channel (core) count than the
    /// startup baseline; mid-run channel changes are unsupported.
    ChannelCountChanged,
    /// Entering raw mode or the alternate screen failed.
    TerminalSetupFailed,
    /// Restoring the terminal failed; reported, but never blocks exit.
    TerminalTeardownFailed,
}

impl DashError {
    /// A fixed human-readable description of the error kind.
    pub fn describe(&self) -> (text: &'static str)
        ensures
            self is ProviderUnavailable ==> text@ == "metrics provider unavailable at startup"@,
            self is ProviderReadFailed ==> text@ == "metrics refresh failed"@,
            self is ChannelCountChanged ==> text@ == "channel count changed mid-run"@,
            self is TerminalSetupFailed ==> text@ == "terminal setup failed"@,
            self is TerminalTeardownFailed ==> text@ == "terminal teardown failed"@,
    {
        match self {
            DashError::ProviderUnavailable => "metrics provider unavailable at startup",
            DashError::ProviderReadFailed => "metrics refresh failed",
            DashError::ChannelCountChanged => "channel count changed mid-run",
            DashError::TerminalSetupFailed => "terminal setup failed",
            DashError::TerminalTeardownFailed => "terminal teardown failed",
        }
    }
}

} // verus!
