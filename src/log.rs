//! The text of the line printed for each forwarded request.

use vstd::prelude::*;

verus! {

/// The three parts of a log line, each printed in its own colour.
#[derive(Clone, Debug)]
pub struct LogLine {
    /// The event's tag, ` proxy `.
    pub tag: String,
    /// The time of the event, in brackets.
    pub stamp: String,
    /// The upstream target, with a space on each side.
    pub content: String,
}

/// Lays out the log line for a request forwarded to `target` at the time
/// written `time`.
pub fn log_line(time: &str, target: &str) -> (r: LogLine)
    ensures
        r.tag@ == " proxy "@,
        r.stamp@ == "["@ + time@ + "]"@,
        r.content@ == " "@ + target@ + " "@,
{
    let tag = String::from_str(" proxy ");
    let stamp = String::from_str("[").concat(time).concat("]");
    let content = String::from_str(" ").concat(target).concat(" ");
    LogLine { tag, stamp, content }
}

impl LogLine {
    /// The line as plain text, without colours.
    pub fn to_plain(&self) -> (r: String)
        ensures
            r@ == self.tag@ + self.stamp@ + self.content@,
    {
        self.tag.clone().concat(self.stamp.as_str()).concat(self.content.as_str())
    }
}

} // verus!
