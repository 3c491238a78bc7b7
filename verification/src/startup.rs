use vstd::prelude::*;

verus! {

/// Severity of a log line, mirroring the usual five levels.
#[derive(Clone, Copy, PartialEq, Eq, Structural, Debug)]
pub enum LogLevel {
    Trace,
    Debug,
    Info,
    Warn,
    Error,
}

/// One line the process asks its logger to emit.
pub struct LogLine {
    pub level: LogLevel,
    pub text: String,
}

/// The least severity the logger should pass through: everything in a
/// debug build, informational and up otherwise.
pub fn startup_log_level(debug_build: bool) -> (r: LogLevel)
    ensures
        r == (if debug_build {
            LogLevel::Trace
        } else {
            LogLevel::Info
        }),
{
    if debug_build {
        LogLevel::Trace
    } else {
        LogLevel::Info
    }
}

/// Everything the process logs on startup: exactly one informational
/// greeting, and nothing else.
pub fn startup_lines() -> (r: Vec<LogLine>)
    ensures
        r@.len() == 1,
        r@[0].level == LogLevel::Info,
        r@[0].text@ == "greetings, stranger."@,
{
    let mut lines: Vec<LogLine> = Vec::new();
    lines.push(LogLine { level: LogLevel::Info, text: String::from_str("greetings, stranger.") });
    lines
}

} // verus!
