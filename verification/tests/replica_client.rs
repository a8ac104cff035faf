use redis::clients::replica_client::{read_response, response_value};
use redis::error::Error;
use redis::frame::Frame;

#[test]
fn read_response_turns_error_replies_and_closed_connections_into_errors() {
    assert_eq!(read_response(None), Err(Error::ConnectionReset));
    assert_eq!(
        read_response(Some(Frame::Error("ERR nope".to_string()))),
        Err(Error::Server("ERR nope".to_string()))
    );
    assert_eq!(read_response(Some(Frame::Simple("OK".to_string()))), Ok(Frame::Simple("OK".to_string())));
}

#[test]
fn response_value_of_simple_and_bulk_replies() {
    assert_eq!(response_value(Frame::Simple("PONG".to_string())), Ok(b"PONG".to_vec()));
    assert_eq!(response_value(Frame::Bulk(vec![1, 2])), Ok(vec![1, 2]));
    assert_eq!(response_value(Frame::Integer(3)), Err(Error::UnexpectedFrame(Frame::Integer(3))));
    assert_eq!(response_value(Frame::Null), Err(Error::UnexpectedFrame(Frame::Null)));
}
