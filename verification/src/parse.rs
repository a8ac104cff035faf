//! A cursor over the fields of a command frame.

use vstd::prelude::*;
use vstd::utf8::*;

use crate::error::{Error, ParseError, SpecError, SpecParseError, result_view};
use crate::frame::{Frame, SpecFrame, frames_view, lemma_frames_view, lemma_frames_view_ext};
use crate::text::{decimal_i64, parse_i64, string_from_utf8, string_into_bytes};

verus! {

/// A field read as a text: a simple frame, or a bulk frame of valid UTF-8.
pub open spec fn string_field(f: SpecFrame) -> Result<Seq<char>, SpecError> {
    match f {
        SpecFrame::Simple(s) => Ok(s),
        SpecFrame::Bulk(b) => if valid_utf8(b) {
            Ok(decode_utf8(b))
        } else {
            Err(SpecError::InvalidString)
        },
        _ => Err(SpecError::NotAString(f)),
    }
}

/// A field read as bytes: a bulk frame, or the UTF-8 bytes of a simple frame.
pub open spec fn bytes_field(f: SpecFrame) -> Result<Seq<u8>, SpecError> {
    match f {
        SpecFrame::Simple(s) => Ok(encode_utf8(s)),
        SpecFrame::Bulk(b) => Ok(b),
        _ => Err(SpecError::NotAString(f)),
    }
}

/// A field read as a number: an integer frame, or a text in decimal.
pub open spec fn int_field(f: SpecFrame) -> Result<i64, SpecError> {
    match f {
        SpecFrame::Simple(s) => match decimal_i64(encode_utf8(s)) {
            Some(v) => Ok(v),
            None => Err(SpecError::InvalidNumber),
        },
        SpecFrame::Bulk(b) => match decimal_i64(b) {
            Some(v) => Ok(v),
            None => Err(SpecError::InvalidNumber),
        },
        SpecFrame::Integer(v) => Ok(v),
        _ => Err(SpecError::NotAnInteger(f)),
    }
}

/// Lifts the result of reading a field into the result of reading from a
/// cursor: no field left is the end of the stream.
pub open spec fn field_result<T>(parts: Seq<SpecFrame>, r: Result<T, SpecError>) -> Result<T, SpecParseError> {
    if parts.len() == 0 {
        Err(SpecParseError::EndOfStream)
    } else {
        match r {
            Ok(v) => Ok(v),
            Err(e) => Err(SpecParseError::Other(e)),
        }
    }
}

/// Reading the next field as a text.
pub open spec fn read_string(parts: Seq<SpecFrame>) -> Result<Seq<char>, SpecParseError> {
    field_result(parts, string_field(parts[0]))
}

/// Reading the next field as bytes.
pub open spec fn read_bytes(parts: Seq<SpecFrame>) -> Result<Seq<u8>, SpecParseError> {
    field_result(parts, bytes_field(parts[0]))
}

/// Reading the next field as a number.
pub open spec fn read_int(parts: Seq<SpecFrame>) -> Result<i64, SpecParseError> {
    field_result(parts, int_field(parts[0]))
}

/// The fields left after reading one: the first is gone, if there was one.
pub open spec fn skip_field(parts: Seq<SpecFrame>) -> Seq<SpecFrame> {
    if parts.len() == 0 {
        parts
    } else {
        parts.drop_first()
    }
}

/// Puts `prefix` before the sequence a read gives, if it succeeded.
pub open spec fn with_prefix<T>(prefix: Seq<T>, r: Result<Seq<T>, SpecError>) -> Result<Seq<T>, SpecError> {
    match r {
        Ok(s) => Ok(prefix + s),
        Err(e) => Err(e),
    }
}

/// A cursor over the fields of an array frame.
pub struct Parse {
    parts: Vec<Frame>,
}

impl View for Parse {
    type V = Seq<SpecFrame>;

    /// The values of the fields not read yet, in order.
    closed spec fn view(&self) -> Seq<SpecFrame> {
        frames_view(self.parts@)
    }
}

impl Parse {
    /// A cursor at the first field of `frame`, which must be an array.
    pub fn new(frame: Frame) -> (r: Result<Parse, ParseError>)
        ensures
            match frame@ {
                SpecFrame::Array(items) => r matches Ok(p) && p@ == items,
                _ => result_view(r) == Err::<Seq<SpecFrame>, _>(
                    SpecParseError::Other(SpecError::NotAnArray(frame@)),
                ),
            },
    {
        match frame {
            Frame::Array(array) => Ok(Parse { parts: array }),
            frame => Err(ParseError::Other(Error::NotAnArray(frame))),
        }
    }

    fn next(&mut self) -> (r: Result<Frame, ParseError>)
        ensures
            old(self)@.len() == 0 ==> r matches Err(ParseError::EndOfStream),
            old(self)@.len() > 0 ==> (r matches Ok(f) && f@ == old(self)@[0]),
            final(self)@ == skip_field(old(self)@),
    {
        proof {
            lemma_frames_view(self.parts@);
        }
        if self.parts.len() == 0 {
            return Err(ParseError::EndOfStream);
        }
        let ghost before = self.parts@;
        let f = self.parts.remove(0);
        proof {
            lemma_frames_view_ext(self.parts@, frames_view(before).drop_first());
        }
        Ok(f)
    }

    /// Reads the next field as a text.
    pub fn next_string(&mut self) -> (r: Result<String, ParseError>)
        ensures
            result_view(r) == read_string(old(self)@),
            final(self)@ == skip_field(old(self)@),
    {
        match self.next() {
            Ok(Frame::Simple(s)) => Ok(s),
            Ok(Frame::Bulk(data)) => match string_from_utf8(data) {
                Some(s) => Ok(s),
                None => Err(ParseError::Other(Error::InvalidString)),
            },
            Ok(frame) => Err(ParseError::Other(Error::NotAString(frame))),
            Err(e) => Err(e),
        }
    }

    /// Reads the next field as bytes.
    pub fn next_bytes(&mut self) -> (r: Result<Vec<u8>, ParseError>)
        ensures
            result_view(r) == read_bytes(old(self)@),
            final(self)@ == skip_field(old(self)@),
    {
        match self.next() {
            Ok(Frame::Simple(s)) => Ok(string_into_bytes(s)),
            Ok(Frame::Bulk(data)) => Ok(data),
            Ok(frame) => Err(ParseError::Other(Error::NotAString(frame))),
            Err(e) => Err(e),
        }
    }

    /// Reads the next field as a number.
    pub fn next_int(&mut self) -> (r: Result<i64, ParseError>)
        ensures
            result_view(r) == read_int(old(self)@),
            final(self)@ == skip_field(old(self)@),
    {
        match self.next() {
            Ok(Frame::Simple(s)) => match parse_i64(s.as_str().as_bytes()) {
                Some(v) => Ok(v),
                None => Err(ParseError::Other(Error::InvalidNumber)),
            },
            Ok(Frame::Bulk(data)) => match parse_i64(data.as_slice()) {
                Some(v) => Ok(v),
                None => Err(ParseError::Other(Error::InvalidNumber)),
            },
            Ok(Frame::Integer(v)) => Ok(v),
            Ok(frame) => Err(ParseError::Other(Error::NotAnInteger(frame))),
            Err(e) => Err(e),
        }
    }

    /// Checks that no field is left.
    pub fn finish(&mut self) -> (r: Result<(), ParseError>)
        ensures
            old(self)@.len() == 0 <==> r is Ok,
            r is Err ==> r matches Err(ParseError::Other(Error::TrailingFields)),
            final(self)@ == skip_field(old(self)@),
    {
        match self.next() {
            Err(_) => Ok(()),
            Ok(_) => Err(ParseError::Other(Error::TrailingFields)),
        }
    }
}

} // verus!
