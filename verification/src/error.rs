//! The library's errors.

use vstd::prelude::*;

use crate::frame::{Frame, SpecFrame};

verus! {

/// What can go wrong while reading commands and replies.
#[derive(Debug, PartialEq, Eq)]
pub enum Error {
    /// A command frame that is not an array.
    NotAnArray(Frame),
    /// A field that should be a text but is neither a simple nor a bulk frame.
    NotAString(Frame),
    /// A bulk field that should be a text but is not valid UTF-8.
    InvalidString,
    /// A field that should be a number but is neither a text nor an integer frame.
    NotAnInteger(Frame),
    /// A text field that should be a number but is not a decimal `i64`.
    InvalidNumber,
    /// A command frame that ended before a field it needs.
    UnexpectedEndOfStream,
    /// A command frame with fields left over.
    TrailingFields,
    /// A reply of a kind that the request does not expect.
    UnexpectedFrame(Frame),
    /// An error reply of the server, with its message.
    Server(String),
    /// The server closed the connection.
    ConnectionReset,
    /// A command of the protocol that this library does not implement
    /// (`GET`, `SET`, `PUBLISH`, `SUBSCRIBE`, `UNSUBSCRIBE`), by its name.
    UnsupportedCommand(String),
}

/// What can go wrong while reading one field of a command frame.
#[derive(Debug, PartialEq, Eq)]
pub enum ParseError {
    /// There is no field left.
    EndOfStream,
    Other(Error),
}

impl ParseError {
    /// The error that a command reports for this field error.
    pub fn into_error(self) -> (e: Error)
        ensures
            e@ == command_error(self@),
    {
        match self {
            ParseError::EndOfStream => Error::UnexpectedEndOfStream,
            ParseError::Other(inner) => inner,
        }
    }
}

/// The value of an [`Error`]: frames and texts by their values.
pub enum SpecError {
    NotAnArray(SpecFrame),
    NotAString(SpecFrame),
    InvalidString,
    NotAnInteger(SpecFrame),
    InvalidNumber,
    UnexpectedEndOfStream,
    TrailingFields,
    UnexpectedFrame(SpecFrame),
    Server(Seq<char>),
    ConnectionReset,
    UnsupportedCommand(Seq<char>),
}

/// The value of a [`ParseError`].
pub enum SpecParseError {
    EndOfStream,
    Other(SpecError),
}

impl View for Error {
    type V = SpecError;

    open spec fn view(&self) -> SpecError {
        match self {
            Error::NotAnArray(f) => SpecError::NotAnArray(f@),
            Error::NotAString(f) => SpecError::NotAString(f@),
            Error::InvalidString => SpecError::InvalidString,
            Error::NotAnInteger(f) => SpecError::NotAnInteger(f@),
            Error::InvalidNumber => SpecError::InvalidNumber,
            Error::UnexpectedEndOfStream => SpecError::UnexpectedEndOfStream,
            Error::TrailingFields => SpecError::TrailingFields,
            Error::UnexpectedFrame(f) => SpecError::UnexpectedFrame(f@),
            Error::Server(s) => SpecError::Server(s@),
            Error::ConnectionReset => SpecError::ConnectionReset,
            Error::UnsupportedCommand(name) => SpecError::UnsupportedCommand(name@),
        }
    }
}

impl View for ParseError {
    type V = SpecParseError;

    open spec fn view(&self) -> SpecParseError {
        match self {
            ParseError::EndOfStream => SpecParseError::EndOfStream,
            ParseError::Other(e) => SpecParseError::Other(e@),
        }
    }
}

/// The error that a command reports for a field error.
pub open spec fn command_error(e: SpecParseError) -> SpecError {
    match e {
        SpecParseError::EndOfStream => SpecError::UnexpectedEndOfStream,
        SpecParseError::Other(inner) => inner,
    }
}

/// The value of a result: each side by its view.
pub open spec fn result_view<T: View, E: View>(r: Result<T, E>) -> Result<T::V, E::V> {
    match r {
        Ok(t) => Ok(t@),
        Err(e) => Err(e@),
    }
}

} // verus!
