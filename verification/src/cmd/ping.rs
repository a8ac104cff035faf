//! `PING [message]`: the server answers `PONG`, or the message.

use vstd::prelude::*;

use crate::error::{Error, ParseError, SpecError, SpecParseError, result_view};
use crate::frame::{Frame, SpecFrame, bulk_text};
use crate::parse::{Parse, read_bytes, skip_field};

verus! {

/// Returns `PONG` where no message is given, else a copy of the message.
#[derive(Debug, PartialEq, Eq)]
pub struct Ping {
    msg: Option<Vec<u8>>,
}

impl View for Ping {
    /// The message, if any.
    type V = Option<Seq<u8>>;

    closed spec fn view(&self) -> Option<Seq<u8>> {
        match self.msg {
            Some(m) => Some(m@),
            None => None,
        }
    }
}

/// Reading the fields of `PING`: an optional message.
pub open spec fn read_ping(parts: Seq<SpecFrame>) -> (Result<Option<Seq<u8>>, SpecError>, Seq<SpecFrame>) {
    (
        match read_bytes(parts) {
            Ok(msg) => Ok(Some(msg)),
            Err(SpecParseError::EndOfStream) => Ok(None),
            Err(SpecParseError::Other(e)) => Err(e),
        },
        skip_field(parts),
    )
}

/// The frame a client sends for `PING`.
pub open spec fn ping_frame(msg: Option<Seq<u8>>) -> SpecFrame {
    match msg {
        Some(m) => SpecFrame::Array(seq![bulk_text("ping"@), SpecFrame::Bulk(m)]),
        None => SpecFrame::Array(seq![bulk_text("ping"@)]),
    }
}

/// The reply to `PING`: `PONG`, or the message.
pub open spec fn ping_reply(msg: Option<Seq<u8>>) -> SpecFrame {
    match msg {
        Some(m) => SpecFrame::Bulk(m),
        None => SpecFrame::Simple("PONG"@),
    }
}

impl Ping {
    /// A `PING`, with an optional message.
    pub fn new(msg: Option<Vec<u8>>) -> (p: Ping)
        ensures
            p@ == match msg {
                Some(m) => Some(m@),
                None => None::<Seq<u8>>,
            },
    {
        Ping { msg }
    }

    /// Reads the fields of a `PING` frame after the command name: the
    /// message, if there is one.
    pub fn parse_frames(parse: &mut Parse) -> (r: Result<Ping, Error>)
        ensures
            result_view(r) == read_ping(old(parse)@).0,
            final(parse)@ == read_ping(old(parse)@).1,
    {
        match parse.next_bytes() {
            Ok(msg) => Ok(Ping::new(Some(msg))),
            Err(ParseError::EndOfStream) => Ok(Ping::default()),
            Err(ParseError::Other(e)) => Err(e),
        }
    }

    /// The frame to write in reply.
    pub fn apply(self) -> (reply: Frame)
        ensures
            reply@ == ping_reply(self@),
    {
        match self.msg {
            None => Frame::Simple(String::from_str("PONG")),
            Some(msg) => Frame::Bulk(msg),
        }
    }

    /// The frame a client sends for this `PING`.
    pub fn into_frame(self) -> (f: Frame)
        ensures
            f@ == ping_frame(self@),
    {
        let mut frame = Frame::array();
        frame.push_bulk(vstd::slice::slice_to_vec("ping".as_bytes()));
        match self.msg {
            Some(msg) => {
                frame.push_bulk(msg);
            },
            None => {},
        }
        assert(frame@->Array_0 =~= ping_frame(self@)->Array_0);
        frame
    }
}

impl Default for Ping {
    /// A `PING` without a message.
    fn default() -> (p: Ping)
        ensures
            p@ == None::<Seq<u8>>,
    {
        Ping { msg: None }
    }
}

/// What a client sends for a `PING` the server reads back as the same
/// `PING`, with no field left over.
pub proof fn lemma_ping_roundtrip(msg: Option<Seq<u8>>)
    ensures
        read_ping(ping_frame(msg)->Array_0.drop_first()) == (Ok::<_, SpecError>(msg), Seq::<SpecFrame>::empty()),
{
    let fields = ping_frame(msg)->Array_0.drop_first();
    if let Some(m) = msg {
        assert(fields[0] == SpecFrame::Bulk(m));
        assert(skip_field(fields) =~= Seq::<SpecFrame>::empty());
    } else {
        assert(fields =~= Seq::<SpecFrame>::empty());
    }
}

} // verus!
