use fenster::ipc::{
    frame_line, malformed_message_detail, DecodeErrorKind, Response, ResponseContent, ResponseError,
};

#[test]
fn error_wraps_the_error() {
    match Response::error(ResponseError::MalformedMessage("x".to_string())) {
        Response::Error { error: ResponseError::MalformedMessage(d) } => assert_eq!(d, "x"),
        _ => panic!("expected an error response"),
    }
}

#[test]
fn success_wraps_the_content() {
    match Response::success(ResponseContent::Foo) {
        Response::Success { content } => assert_eq!(content, ResponseContent::Foo),
        _ => panic!("expected a success response"),
    }
}

#[test]
fn details_of_each_decode_error() {
    assert_eq!(malformed_message_detail(DecodeErrorKind::Io), "failed to read/write IO stream");
    assert_eq!(malformed_message_detail(DecodeErrorKind::Syntax), "messages contains invalid JSON");
    assert_eq!(malformed_message_detail(DecodeErrorKind::Data), "message JSON contain incorrect type data");
    assert_eq!(malformed_message_detail(DecodeErrorKind::Eof), "unexpected end of file");
}

#[test]
fn framing_appends_a_newline() {
    assert_eq!(frame_line(b"{}".to_vec()), b"{}\n".to_vec());
    assert_eq!(frame_line(Vec::new()), b"\n".to_vec());
}
