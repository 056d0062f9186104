//! The shape of a log line.

use vstd::prelude::*;
use vstd::string::StringExecFns;

verus! {

/// The pattern of the time stamp that opens a log line: date and time of day, to the second.
pub const DATE_FORMAT: &'static str = "%Y-%m-%dT%H:%M:%S";

/// A log line: the time stamp, the level in square brackets, a dash, and the message.
pub open spec fn record_line(timestamp: Seq<char>, level: Seq<char>, message: Seq<char>) -> Seq<char> {
    timestamp + " ["@ + level + "] - "@ + message
}

/// Writes a log line from its three parts.
pub fn format_record(timestamp: &str, level: &str, message: &str) -> (line: String)
    ensures
        line@ == record_line(timestamp@, level@, message@),
{
    timestamp.to_owned().concat(" [").concat(level).concat("] - ").concat(message)
}

} // verus!
