//! Log levels and the logging capability interface.
//!
//! The library owns no log formatting, file handles, or rotation: a logging
//! backend implements [`Logger`] and receives level/message pairs.

use vstd::prelude::*;
use vstd::string::*;

verus! {

/// Urgency of a log line, in increasing order.
#[derive(Debug, Clone, PartialEq, Eq, PartialOrd, Ord)]
pub enum LogLevel {
    Debug,
    Info,
    Warn,
    Error,
    Critical,
}

impl LogLevel {
    /// The level's conventional upper-case name.
    pub fn label(&self) -> (r: String)
        ensures
            r@ == match *self {
                LogLevel::Debug => "DEBUG"@,
                LogLevel::Info => "INFO"@,
                LogLevel::Warn => "WARN"@,
                LogLevel::Error => "ERROR"@,
                LogLevel::Critical => "CRITICAL"@,
            },
    {
        match self {
            LogLevel::Debug => String::from_str("DEBUG"),
            LogLevel::Info => String::from_str("INFO"),
            LogLevel::Warn => String::from_str("WARN"),
            LogLevel::Error => String::from_str("ERROR"),
            LogLevel::Critical => String::from_str("CRITICAL"),
        }
    }
}

/// A logging sink.  The library only forwards level/message pairs to it;
/// backends decide formatting and destination.
pub trait Logger: Send + Sync {
    fn log(&self, level: LogLevel, message: &str);
}

} // verus!
