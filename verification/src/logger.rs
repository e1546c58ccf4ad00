use vstd::prelude::*;

verus! {

/// Severity threshold handed to the logging backend.
#[derive(Clone, Copy, Debug, PartialEq, Eq, Structural)]
pub enum LogLevel {
    Error,
    Info,
    Debug,
}

/// The threshold chosen for a given `debug` setting: with `debug` on the
/// level is Info, so only informational messages and worse are kept;
/// otherwise it is Debug, so debug messages are kept as well.
pub open spec fn spec_log_level(debug_enabled: bool) -> LogLevel {
    if debug_enabled {
        LogLevel::Info
    } else {
        LogLevel::Debug
    }
}

/// Picks the logging threshold for the terminal and file loggers.
pub fn log_level(debug_enabled: bool) -> (level: LogLevel)
    ensures
        level == spec_log_level(debug_enabled),
{
    if debug_enabled {
        LogLevel::Info
    } else {
        LogLevel::Debug
    }
}

} // verus!
