use redis::error::{Error, ParseError};
use redis::frame::Frame;
use redis::parse::Parse;

fn bulk(s: &str) -> Frame {
    Frame::Bulk(s.as_bytes().to_vec())
}

#[test]
fn new_refuses_a_frame_that_is_not_an_array() {
    match Parse::new(Frame::Simple("ping".to_string())) {
        Err(e) => assert_eq!(e, ParseError::Other(Error::NotAnArray(Frame::Simple("ping".to_string())))),
        Ok(_) => panic!("expected an error"),
    }
}

#[test]
fn next_string_reads_simple_and_bulk_fields() {
    let mut p = Parse::new(Frame::Array(vec![Frame::Simple("a".to_string()), bulk("bé")])).unwrap();
    assert_eq!(p.next_string(), Ok("a".to_string()));
    assert_eq!(p.next_string(), Ok("bé".to_string()));
    assert_eq!(p.next_string(), Err(ParseError::EndOfStream));
    assert_eq!(p.finish(), Ok(()));
}

#[test]
fn next_string_refuses_invalid_utf8_and_other_frames() {
    let mut p = Parse::new(Frame::Array(vec![Frame::Bulk(vec![0xff, 0xfe]), Frame::Integer(3)])).unwrap();
    assert_eq!(p.next_string(), Err(ParseError::Other(Error::InvalidString)));
    assert_eq!(p.next_string(), Err(ParseError::Other(Error::NotAString(Frame::Integer(3)))));
}

#[test]
fn next_bytes_reads_simple_and_bulk_fields() {
    let mut p = Parse::new(Frame::Array(vec![Frame::Simple("hé".to_string()), Frame::Bulk(vec![0, 255]), Frame::Null])).unwrap();
    assert_eq!(p.next_bytes(), Ok("hé".as_bytes().to_vec()));
    assert_eq!(p.next_bytes(), Ok(vec![0, 255]));
    assert_eq!(p.next_bytes(), Err(ParseError::Other(Error::NotAString(Frame::Null))));
    assert_eq!(p.next_bytes(), Err(ParseError::EndOfStream));
}

#[test]
fn next_int_reads_numbers() {
    let mut p = Parse::new(Frame::Array(vec![
        Frame::Simple("-1".to_string()),
        bulk("42"),
        Frame::Integer(7),
        bulk("4x"),
        Frame::Null,
    ]))
    .unwrap();
    assert_eq!(p.next_int(), Ok(-1));
    assert_eq!(p.next_int(), Ok(42));
    assert_eq!(p.next_int(), Ok(7));
    assert_eq!(p.next_int(), Err(ParseError::Other(Error::InvalidNumber)));
    assert_eq!(p.next_int(), Err(ParseError::Other(Error::NotAnInteger(Frame::Null))));
    assert_eq!(p.next_int(), Err(ParseError::EndOfStream));
}

#[test]
fn finish_refuses_fields_left_over() {
    let mut p = Parse::new(Frame::Array(vec![bulk("x")])).unwrap();
    assert_eq!(p.finish(), Err(ParseError::Other(Error::TrailingFields)));
}

#[test]
fn parse_error_into_error() {
    assert_eq!(ParseError::EndOfStream.into_error(), Error::UnexpectedEndOfStream);
    assert_eq!(ParseError::Other(Error::InvalidNumber).into_error(), Error::InvalidNumber);
}

#[test]
fn frame_builders() {
    let mut f = Frame::array();
    assert_eq!(f, Frame::Array(vec![]));
    f.push_bulk(b"x".to_vec());
    assert_eq!(f, Frame::Array(vec![bulk("x")]));
    assert_eq!(Frame::Null.to_error(), Error::UnexpectedFrame(Frame::Null));
}
