//! Log-level filtering: which message levels are emitted under a given
//! global level. The global level is explicit configuration handed in by
//! the caller rather than process-wide mutable state.

use vstd::prelude::*;
use crate::text::str_eq;

verus! {

/// Severity levels for log messages, least severe first.
#[derive(Debug, Clone, Copy, PartialEq, Eq, Structural)]
pub enum LogLevel {
    Debug,
    Info,
    Warn,
    Error,
}

/// Numeric severity of a level; higher means more severe.
pub open spec fn severity(level: LogLevel) -> int {
    match level {
        LogLevel::Debug => 0,
        LogLevel::Info => 1,
        LogLevel::Warn => 2,
        LogLevel::Error => 3,
    }
}

/// A message is logged exactly when it is at least as severe as the
/// configured global level.
pub fn should_log(global_level: LogLevel, message_level: LogLevel) -> (r: bool)
    ensures
        r == (severity(message_level) >= severity(global_level)),
{
    match global_level {
        LogLevel::Debug => true,
        LogLevel::Info => !(message_level == LogLevel::Debug),
        LogLevel::Warn => message_level == LogLevel::Warn || message_level == LogLevel::Error,
        LogLevel::Error => message_level == LogLevel::Error,
    }
}

/// The level an upper-case tag denotes; unknown tags mean Info.
pub open spec fn spec_level_of_name(name: Seq<char>) -> LogLevel {
    if name == "DEBUG"@ {
        LogLevel::Debug
    } else if name == "INFO"@ {
        LogLevel::Info
    } else if name == "WARN"@ {
        LogLevel::Warn
    } else if name == "ERROR"@ {
        LogLevel::Error
    } else {
        LogLevel::Info
    }
}

/// Resolves an upper-case level tag; unknown tags default to Info.
pub fn level_from_name(name: &str) -> (r: LogLevel)
    ensures
        r == spec_level_of_name(name@),
{
    if str_eq(name, "DEBUG") {
        LogLevel::Debug
    } else if str_eq(name, "INFO") {
        LogLevel::Info
    } else if str_eq(name, "WARN") {
        LogLevel::Warn
    } else if str_eq(name, "ERROR") {
        LogLevel::Error
    } else {
        LogLevel::Info
    }
}

} // verus!
