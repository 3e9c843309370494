//! The logging decisions: which level a verbosity selects, and which message
//! announces the logger.  Emitting the message and installing the subscriber
//! are left to the caller.

use vstd::prelude::*;
use vstd::string::*;

use crate::config::Verbosity;

verus! {

/// The maximum level the logger reports at.
#[derive(Debug, Clone, Copy, PartialEq, Eq, Structural)]
pub enum LogLevel {
    Trace,
    Debug,
    Info,
    Warn,
    Error,
}

/// The level each verbosity selects.
pub open spec fn spec_level_of(verbosity: Verbosity) -> LogLevel {
    match verbosity {
        Verbosity::Trace => LogLevel::Trace,
        Verbosity::Info => LogLevel::Info,
        Verbosity::Debug => LogLevel::Debug,
        Verbosity::Warn => LogLevel::Warn,
        Verbosity::Error => LogLevel::Error,
    }
}

/// Maps a configured verbosity to the logger's maximum level.
pub fn get_log_level_from_verbosity(verbosity: &Verbosity) -> (l: LogLevel)
    ensures
        l == spec_level_of(*verbosity),
{
    match verbosity {
        Verbosity::Trace => LogLevel::Trace,
        Verbosity::Info => LogLevel::Info,
        Verbosity::Debug => LogLevel::Debug,
        Verbosity::Warn => LogLevel::Warn,
        Verbosity::Error => LogLevel::Error,
    }
}

/// The message that announces the logger at each verbosity.
pub open spec fn spec_initialization_message(verbosity: Verbosity) -> Seq<char> {
    match verbosity {
        Verbosity::Trace => "Logger initialized with verbosity: Trace"@,
        Verbosity::Info => "Logger initialized with verbosity: Info"@,
        Verbosity::Debug => "Logger initialized with verbosity: Debug"@,
        Verbosity::Warn => "Logger initialized with verbosity: Warn"@,
        Verbosity::Error => "Logger initialized with verbosity: Error"@,
    }
}

/// Produces the message that announces the logger's verbosity; the caller
/// emits it at that verbosity's own level.
pub fn log_initialization_message(verbosity: &Verbosity) -> (m: String)
    ensures
        m@ == spec_initialization_message(*verbosity),
{
    match verbosity {
        Verbosity::Trace => String::from_str("Logger initialized with verbosity: Trace"),
        Verbosity::Info => String::from_str("Logger initialized with verbosity: Info"),
        Verbosity::Debug => String::from_str("Logger initialized with verbosity: Debug"),
        Verbosity::Warn => String::from_str("Logger initialized with verbosity: Warn"),
        Verbosity::Error => String::from_str("Logger initialized with verbosity: Error"),
    }
}

} // verus!
