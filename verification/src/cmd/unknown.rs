//! A command the server does not know.

use vstd::prelude::*;

use crate::frame::{Frame, SpecFrame};

verus! {

/// A command the server does not know, kept by its (lowercase) name.
#[derive(Debug, PartialEq, Eq)]
pub struct Unknown {
    command_name: String,
}

impl View for Unknown {
    /// The command's name.
    type V = Seq<char>;

    closed spec fn view(&self) -> Seq<char> {
        self.command_name@
    }
}

/// The reply to an unknown command: an error naming it.
pub open spec fn unknown_reply(name: Seq<char>) -> SpecFrame {
    SpecFrame::Error("ERR unknown command '"@ + name + "'"@)
}

impl Unknown {
    /// An unknown command of the given name.
    pub fn new(key: String) -> (u: Unknown)
        ensures
            u@ == key@,
    {
        Unknown { command_name: key }
    }

    /// The command's name.
    pub fn get_name(&self) -> (name: &str)
        ensures
            name@ == self@,
    {
        self.command_name.as_str()
    }

    /// The frame to write in reply: an error naming the command.
    pub fn apply(self) -> (reply: Frame)
        ensures
            reply@ == unknown_reply(self@),
    {
        let mut msg = String::from_str("ERR unknown command '");
        msg.append(self.command_name.as_str());
        msg.append("'");
        Frame::Error(msg)
    }
}

} // verus!
