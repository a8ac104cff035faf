//! What a replica makes of its master's replies. The replica sends
//! `PING`, `REPLCONF` and `PSYNC` frames (see `Ping::into_frame`,
//! `ReplConf::into_frame`, `PSync::into_frame`) and reads one reply to each.

use vstd::prelude::*;
use vstd::utf8::*;

use crate::error::{Error, SpecError, result_view};
use crate::frame::{Frame, SpecFrame};
use crate::text::string_into_bytes;

verus! {

/// What reading a reply gives: the frame, an error reply as an error, and no
/// frame (the connection was closed) as a reset connection.
pub open spec fn response_of(response: Option<SpecFrame>) -> Result<SpecFrame, SpecError> {
    match response {
        Some(SpecFrame::Error(msg)) => Err(SpecError::Server(msg)),
        Some(f) => Ok(f),
        None => Err(SpecError::ConnectionReset),
    }
}

/// The payload of a reply: the text of a simple reply as UTF-8 bytes, or the
/// bytes of a bulk reply; any other reply is unexpected.
pub open spec fn reply_value(f: SpecFrame) -> Result<Seq<u8>, SpecError> {
    match f {
        SpecFrame::Simple(s) => Ok(encode_utf8(s)),
        SpecFrame::Bulk(b) => Ok(b),
        _ => Err(SpecError::UnexpectedFrame(f)),
    }
}

/// Reads the reply to a request from the frame read off the connection
/// (`None` where the connection was closed).
pub fn read_response(response: Option<Frame>) -> (r: Result<Frame, Error>)
    ensures
        result_view(r) == response_of(
            match response {
                Some(f) => Some(f@),
                None => None,
            },
        ),
{
    match response {
        Some(Frame::Error(msg)) => Err(Error::Server(msg)),
        Some(frame) => Ok(frame),
        None => Err(Error::ConnectionReset),
    }
}

/// The payload of a reply to `PING`, `REPLCONF` or `PSYNC`.
pub fn response_value(frame: Frame) -> (r: Result<Vec<u8>, Error>)
    ensures
        result_view(r) == reply_value(frame@),
{
    match frame {
        Frame::Simple(value) => Ok(string_into_bytes(value)),
        Frame::Bulk(value) => Ok(value),
        frame => Err(frame.to_error()),
    }
}

} // verus!
