//! The log level that a `log` command chooses.
use vstd::prelude::*;
use crate::text::{ends_with, str_ends_with};

verus! {

/// A log level that the client can switch to.
#[derive(Clone, Copy, Debug, PartialEq, Eq, Structural)]
pub enum LogLevel {
    Trace,
    Debug,
    Info,
    Error,
}

/// The level that a `log` command names (as a suffix), if any.
pub open spec fn log_level_of(command: Seq<char>) -> Option<LogLevel> {
    if ends_with(command, "trace"@) {
        Some(LogLevel::Trace)
    } else if ends_with(command, "debug"@) {
        Some(LogLevel::Debug)
    } else if ends_with(command, "info"@) {
        Some(LogLevel::Info)
    } else if ends_with(command, "error"@) {
        Some(LogLevel::Error)
    } else {
        None
    }
}

/// The line that reports a `log` command.
pub open spec fn log_message(command: Seq<char>) -> Seq<char> {
    match log_level_of(command) {
        Some(LogLevel::Trace) => "set up log level trace"@,
        Some(LogLevel::Debug) => "set up log level debug"@,
        Some(LogLevel::Info) => "set up log level info"@,
        Some(LogLevel::Error) => "set up log level error"@,
        None => "usage: log [trace/debug/info/error]"@,
    }
}

/// The level that a `log` command switches to, and the line that reports it.
pub fn change_log_type(command: &str) -> (r: (Option<LogLevel>, String))
    ensures
        r.0 == log_level_of(command@),
        r.1@ == log_message(command@),
{
    if str_ends_with(command, "trace") {
        (Some(LogLevel::Trace), "set up log level trace".to_owned())
    } else if str_ends_with(command, "debug") {
        (Some(LogLevel::Debug), "set up log level debug".to_owned())
    } else if str_ends_with(command, "info") {
        (Some(LogLevel::Info), "set up log level info".to_owned())
    } else if str_ends_with(command, "error") {
        (Some(LogLevel::Error), "set up log level error".to_owned())
    } else {
        (None, "usage: log [trace/debug/info/error]".to_owned())
    }
}

} // verus!
