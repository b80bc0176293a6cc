//! The lines of the application's log.
use vstd::prelude::*;

use crate::text::{decimal, digits};

verus! {

/// A log line: the time in seconds since 1970, the level in brackets, the
/// message, and a line break.
pub open spec fn spec_log_line(timestamp: u64, level: Seq<char>, message: Seq<char>) -> Seq<char> {
    digits(timestamp as nat) + " ["@ + level + "] "@ + message + "\n"@
}

fn log_line(timestamp: u64, level: &str, message: &str) -> (line: String)
    ensures
        line@ == spec_log_line(timestamp, level@, message@),
{
    let mut line = decimal(timestamp as u128);
    line.append(" [");
    line.append(level);
    line.append("] ");
    line.append(message);
    line.append("\n");
    line
}

/// The log line that records `message` at level `info` at the given time.
pub fn info(message: &str, timestamp: u64) -> (line: String)
    ensures
        line@ == spec_log_line(timestamp, "info"@, message@),
{
    log_line(timestamp, "info", message)
}

/// The log line that records `message` at level `error` at the given time.
pub fn error(message: &str, timestamp: u64) -> (line: String)
    ensures
        line@ == spec_log_line(timestamp, "error"@, message@),
{
    log_line(timestamp, "error", message)
}

} // verus!
