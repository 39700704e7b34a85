//! The text of the history pane, one line for each message.

use crate::networking::Message;
use vstd::prelude::*;
use vstd::string::StringExecFns;

verus! {

/// The three parts of a history line, in the order in which they are shown.
pub struct MessageLine {
    /// The time of day in brackets, with a space behind.
    pub time: String,
    /// The sender's name.
    pub sender: String,
    /// Whether this side sent the message, which decides how the name looks.
    pub sent_by_self: bool,
    /// The separator and the message's text.
    pub text: String,
}

/// The history pane.
pub struct MessageBox {}

impl MessageBox {
    /// The line for `message`, where `clock` is the message's time of day as
    /// it is to be shown.
    pub fn get_line(message: &Message, clock: &str) -> (line: MessageLine)
        ensures
            line.time@ == "["@ + clock@ + "] "@,
            line.sender@ == message.sender_name@,
            line.sent_by_self == message.sent_by_self,
            line.text@ == " :  "@ + message.content@,
    {
        let mut time = String::from_str("[");
        time.append(clock);
        time.append("] ");
        let mut text = String::from_str(" :  ");
        text.append(message.content.as_str());
        MessageLine {
            time,
            sender: message.sender_name.clone(),
            sent_by_self: message.sent_by_self,
            text,
        }
    }
}

} // verus!
