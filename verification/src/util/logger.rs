//! The client's log.
use vstd::prelude::*;
use crate::text::{append_str, concat2};

verus! {

broadcast use vstd::string::group_string_axioms;

/// A line of the log: the time in brackets, a space, the message.
pub open spec fn log_line_text(time: Seq<char>, message: Seq<char>) -> Seq<char> {
    "["@ + time + "] "@ + message
}

/// The log line for `message` written at `time` (formatted
/// "%Y-%m-%d %H:%M:%S").
pub fn log_line(time: &str, message: &str) -> (line: String)
    ensures
        line@ == log_line_text(time@, message@),
{
    let mut line = concat2("[", time);
    append_str(&mut line, "] ");
    append_str(&mut line, message);
    line
}

} // verus!
