//! `ECHO [message]`: the server sends the message back.

use vstd::prelude::*;

use crate::error::{Error, ParseError, SpecError, SpecParseError, result_view};
use crate::frame::{Frame, SpecFrame, bulk_text};
use crate::parse::{Parse, read_bytes, skip_field};

verus! {

/// Returns the message a client sent.
///
/// `ECHO` is a command like `PING`, used for testing and debugging.
#[derive(Debug, PartialEq, Eq)]
pub struct Echo {
    msg: Vec<u8>,
}

impl View for Echo {
    /// The message.
    type V = Seq<u8>;

    closed spec fn view(&self) -> Seq<u8> {
        self.msg@
    }
}

/// Reading the fields of `ECHO`: an optional message, empty where there is none.
pub open spec fn read_echo(parts: Seq<SpecFrame>) -> (Result<Seq<u8>, SpecError>, Seq<SpecFrame>) {
    (
        match read_bytes(parts) {
            Ok(msg) => Ok(msg),
            Err(SpecParseError::EndOfStream) => Ok(Seq::empty()),
            Err(SpecParseError::Other(e)) => Err(e),
        },
        skip_field(parts),
    )
}

/// The frame a client sends for `ECHO`.
pub open spec fn echo_frame(msg: Seq<u8>) -> SpecFrame {
    SpecFrame::Array(seq![bulk_text("echo"@), SpecFrame::Bulk(msg)])
}

/// The reply to `ECHO`: the message.
pub open spec fn echo_reply(msg: Seq<u8>) -> SpecFrame {
    SpecFrame::Bulk(msg)
}

impl Echo {
    /// An `ECHO` of `msg`.
    pub fn new(msg: Vec<u8>) -> (e: Echo)
        ensures
            e@ == msg@,
    {
        Echo { msg }
    }

    /// Reads the fields of an `ECHO` frame after the command name: the
    /// message, if there is one.
    pub fn parse_frames(parse: &mut Parse) -> (r: Result<Echo, Error>)
        ensures
            result_view(r) == read_echo(old(parse)@).0,
            final(parse)@ == read_echo(old(parse)@).1,
    {
        match parse.next_bytes() {
            Ok(msg) => Ok(Echo::new(msg)),
            Err(ParseError::EndOfStream) => Ok(Echo::default()),
            Err(ParseError::Other(e)) => Err(e),
        }
    }

    /// The frame to write in reply: the message, whatever the server's role.
    pub fn apply(self) -> (reply: Frame)
        ensures
            reply@ == echo_reply(self@),
            reply@ == SpecFrame::Bulk(self@),
    {
        Frame::Bulk(self.msg)
    }

    /// The frame a client sends for this `ECHO`.
    pub fn into_frame(self) -> (f: Frame)
        ensures
            f@ == echo_frame(self@),
    {
        let mut frame = Frame::array();
        frame.push_bulk(vstd::slice::slice_to_vec("echo".as_bytes()));
        frame.push_bulk(self.msg);
        assert(frame@->Array_0 =~= echo_frame(self@)->Array_0);
        frame
    }
}

impl Default for Echo {
    /// An `ECHO` of the empty message.
    fn default() -> (e: Echo)
        ensures
            e@ == Seq::<u8>::empty(),
    {
        Echo { msg: Vec::new() }
    }
}

/// What a client sends for an `ECHO` the server reads back as the same
/// `ECHO`, with no field left over.
pub proof fn lemma_echo_roundtrip(msg: Seq<u8>)
    ensures
        read_echo(echo_frame(msg)->Array_0.drop_first()) == (Ok::<_, SpecError>(msg), Seq::<SpecFrame>::empty()),
{
    let fields = echo_frame(msg)->Array_0.drop_first();
    assert(fields[0] == SpecFrame::Bulk(msg));
    assert(skip_field(fields) =~= Seq::<SpecFrame>::empty());
}

} // verus!
