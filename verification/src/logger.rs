//! A logger that prints the records that matter to the console.

use vstd::prelude::*;

verus! {

/// How much a record matters, the weightiest first.
#[derive(Debug, Clone, Copy, PartialEq, Eq, Structural)]
pub enum LogLevel {
    Error,
    Warn,
    Info,
    Debug,
    Trace,
}

/// Prints the records at `Info` and above.
#[derive(Debug, Clone, Copy)]
pub struct SimpleLogger;

/// The name of a level, as it is printed.
pub open spec fn level_name(level: LogLevel) -> Seq<char> {
    match level {
        LogLevel::Error => "ERROR"@,
        LogLevel::Warn => "WARN"@,
        LogLevel::Info => "INFO"@,
        LogLevel::Debug => "DEBUG"@,
        LogLevel::Trace => "TRACE"@,
    }
}

/// Whether records of `level` are printed.
pub open spec fn is_enabled(level: LogLevel) -> bool {
    level == LogLevel::Error || level == LogLevel::Warn || level == LogLevel::Info
}

impl SimpleLogger {
    /// Whether records of `level` are printed: those at `Info` and above.
    pub fn enabled(&self, level: LogLevel) -> (b: bool)
        ensures
            b == is_enabled(level),
    {
        match level {
            LogLevel::Error | LogLevel::Warn | LogLevel::Info => true,
            _ => false,
        }
    }

    /// The line to print for a record: the level in brackets, a dash and
    /// the message; `None` for a record that is not printed.
    pub fn log(&self, level: LogLevel, message: &str) -> (line: Option<String>)
        ensures
            line is Some <==> is_enabled(level),
            line matches Some(l) ==> l@ == seq!['['] + level_name(level) + "] - "@ + message@,
    {
        if self.enabled(level) {
            let mut l = String::new();
            l.push('[');
            match level {
                LogLevel::Error => l.append("ERROR"),
                LogLevel::Warn => l.append("WARN"),
                LogLevel::Info => l.append("INFO"),
                LogLevel::Debug => l.append("DEBUG"),
                LogLevel::Trace => l.append("TRACE"),
            }
            l.append("] - ");
            l.append(message);
            assert(l@ =~= seq!['['] + level_name(level) + "] - "@ + message@);
            Some(l)
        } else {
            None
        }
    }
}

} // verus!
