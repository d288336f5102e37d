//! Timestamped log lines.
use vstd::prelude::*;

verus! {

/// `[<timestamp>] <message>` and a line break: one line of the log.
pub open spec fn log_text(timestamp: Seq<char>, message: Seq<char>) -> Seq<char> {
    "["@ + timestamp + "] "@ + message + "\n"@
}

/// The log line for `message`, stamped with `timestamp`: the line that the
/// monitor prints and appends to its log file.
pub fn log_line(timestamp: &str, message: &str) -> (line: String)
    ensures
        line@ == log_text(timestamp@, message@),
{
    let mut s = String::new();
    s.append("[");
    s.append(timestamp);
    s.append("] ");
    s.append(message);
    s.append("\n");
    s
}

} // verus!
