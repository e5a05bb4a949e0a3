//! Log severities and the exact shape of a log line; opening, creating and
//! appending to the log file stay with the surrounding binary.

use vstd::prelude::*;

verus! {

/// Severity of a log line.
#[derive(Debug, Clone, Copy)]
pub enum LogLevel {
    INFO,
    ERROR,
    WARNING,
    DEBUG,
    CRITICAL,
}

impl LogLevel {
    /// The label a level prints as.
    pub open spec fn spec_label(self) -> Seq<char> {
        match self {
            LogLevel::INFO => "INFO"@,
            LogLevel::ERROR => "ERROR"@,
            LogLevel::WARNING => "WARNING"@,
            LogLevel::DEBUG => "DEBUG"@,
            LogLevel::CRITICAL => "CRITICAL"@,
        }
    }

    pub fn as_str(&self) -> (r: &'static str)
        ensures
            r@ == self.spec_label(),
    {
        match self {
            LogLevel::INFO => "INFO",
            LogLevel::ERROR => "ERROR",
            LogLevel::WARNING => "WARNING",
            LogLevel::DEBUG => "DEBUG",
            LogLevel::CRITICAL => "CRITICAL",
        }
    }
}

/// One log line: the level's label, the timestamp, and the message, each in
/// its fixed place, ended by a newline.
pub fn format_log_line(level: LogLevel, timestamp: &str, message: &str) -> (r: String)
    ensures
        r@ == level.spec_label() + ": "@ + timestamp@ + " - "@ + message@ + "\n"@,
{
    let mut s = level.as_str().to_owned();
    s.append(": ");
    s.append(timestamp);
    s.append(" - ");
    s.append(message);
    s.append("\n");
    s
}

/// The name of a day's log file: the date followed by the log extension.
pub fn log_file_name(date: &str) -> (r: String)
    ensures
        r@ == date@ + ".log"@,
{
    let mut s = date.to_owned();
    s.append(".log");
    s
}

} // verus!
