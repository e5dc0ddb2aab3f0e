//! How much of the run is logged.

use vstd::prelude::*;

verus! {

/// The least severe kind of message that is still logged.
#[derive(Debug, Clone, Copy, PartialEq, Eq, Structural)]
pub enum LogLevel {
    /// Errors only.
    Error,
    /// Warnings and errors.
    Warn,
    /// Information, warnings and errors.
    Info,
    /// Everything.
    Trace,
}

/// The level that the command line asks for: quiet restricts the log to
/// errors whatever the verbosity is; otherwise no `-v` logs warnings, one logs
/// information and two or more log everything.
pub open spec fn log_level(quiet: bool, verbosity: nat) -> LogLevel {
    if quiet {
        LogLevel::Error
    } else if verbosity == 0 {
        LogLevel::Warn
    } else if verbosity == 1 {
        LogLevel::Info
    } else {
        LogLevel::Trace
    }
}

/// Selects the log level from the quiet flag and the number of `-v` given.
pub fn select_log_level(quiet: bool, verbosity: u64) -> (r: LogLevel)
    ensures
        r == log_level(quiet, verbosity as nat),
{
    if quiet {
        LogLevel::Error
    } else if verbosity == 0 {
        LogLevel::Warn
    } else if verbosity == 1 {
        LogLevel::Info
    } else {
        LogLevel::Trace
    }
}

/// Quiet overrides verbosity: with it the level is the same for every count.
pub proof fn lemma_quiet_overrides_verbosity(first: nat, second: nat)
    ensures
        log_level(true, first) == log_level(true, second),
        log_level(true, first) == LogLevel::Error,
{
}

} // verus!
