//! Names of the log verbosities.

use vstd::prelude::*;
use crate::text::same_text;

verus! {

/// A log verbosity.
#[derive(Debug, Clone, Copy, PartialEq, Eq, Structural)]
pub enum LogLevel {
    Off,
    Error,
    Warn,
    Info,
    Debug,
    Trace,
}

/// The name of a verbosity.
pub open spec fn level_name(level: LogLevel) -> Seq<char> {
    match level {
        LogLevel::Off => "Off"@,
        LogLevel::Error => "Error"@,
        LogLevel::Warn => "Warn"@,
        LogLevel::Info => "Info"@,
        LogLevel::Debug => "Debug"@,
        LogLevel::Trace => "Trace"@,
    }
}

/// The verbosity that a text names, if it names one.
pub open spec fn level_named(text: Seq<char>) -> Option<LogLevel> {
    if text == "Off"@ {
        Some(LogLevel::Off)
    } else if text == "Error"@ {
        Some(LogLevel::Error)
    } else if text == "Warn"@ {
        Some(LogLevel::Warn)
    } else if text == "Info"@ {
        Some(LogLevel::Info)
    } else if text == "Debug"@ {
        Some(LogLevel::Debug)
    } else if text == "Trace"@ {
        Some(LogLevel::Trace)
    } else {
        None
    }
}

/// Reads a verbosity from its name.
pub fn parse_log_level(text: &str) -> (level: Option<LogLevel>)
    ensures
        level == level_named(text@),
{
    if same_text(text, "Off") {
        Some(LogLevel::Off)
    } else if same_text(text, "Error") {
        Some(LogLevel::Error)
    } else if same_text(text, "Warn") {
        Some(LogLevel::Warn)
    } else if same_text(text, "Info") {
        Some(LogLevel::Info)
    } else if same_text(text, "Debug") {
        Some(LogLevel::Debug)
    } else if same_text(text, "Trace") {
        Some(LogLevel::Trace)
    } else {
        None
    }
}

/// The name of a verbosity.
pub fn log_level_name(level: LogLevel) -> (name: &'static str)
    ensures
        name@ == level_name(level),
{
    match level {
        LogLevel::Off => "Off",
        LogLevel::Error => "Error",
        LogLevel::Warn => "Warn",
        LogLevel::Info => "Info",
        LogLevel::Debug => "Debug",
        LogLevel::Trace => "Trace",
    }
}

/// The verbosity that is active after a request: the one that the request
/// names, or the one that was active where it names none.
pub fn logger_level(current: LogLevel, requested: Option<&str>) -> (active: LogLevel)
    ensures
        active == match requested {
            Some(text) => match level_named(text@) {
                Some(level) => level,
                None => current,
            },
            None => current,
        },
{
    match requested {
        Some(text) => match parse_log_level(text) {
            Some(level) => level,
            None => current,
        },
        None => current,
    }
}

/// Every verbosity is read back from its own name.
pub proof fn lemma_level_name_round_trip(level: LogLevel)
    ensures
        level_named(level_name(level)) == Some(level),
{
    reveal_strlit("Off");
    reveal_strlit("Error");
    reveal_strlit("Warn");
    reveal_strlit("Info");
    reveal_strlit("Debug");
    reveal_strlit("Trace");
    assert("Off"@.len() == 3 && "Warn"@.len() == 4 && "Info"@.len() == 4 && "Error"@.len() == 5
        && "Debug"@.len() == 5 && "Trace"@.len() == 5);
    assert("Warn"@[0] == 'W' && "Info"@[0] == 'I');
    assert("Error"@[0] == 'E' && "Debug"@[0] == 'D' && "Trace"@[0] == 'T');
}

} // verus!
