use fenster::ipc::{DecodeErrorKind, Message, Response, ResponseContent, ResponseError};
use fenster::session::{
    after_accept, after_bind, after_read_line, after_wait_readable, dispatched_response,
    pending_events_suffice, read_events_succeeded, reply_to, reply_to_decoded, IoFailure, LoopStep, ReadStep, Reply,
};

#[test]
fn reading_decisions() {
    assert_eq!(after_read_line(Ok(0)), ReadStep::Close);
    assert_eq!(after_read_line(Ok(12)), ReadStep::Decode);
    assert_eq!(after_read_line(Err(IoFailure::BrokenPipe)), ReadStep::Close);
    assert_eq!(after_read_line(Err(IoFailure::Other)), ReadStep::Fail);
    assert_eq!(after_read_line(Err(IoFailure::WouldBlock)), ReadStep::Fail);
}

#[test]
fn decoded_message_is_dispatched() {
    assert!(matches!(reply_to(Ok(Message::Foo)), Reply::Dispatch(Message::Foo)));
    assert!(matches!(
        dispatched_response(Message::Foo),
        Response::Success { content: ResponseContent::Foo }
    ));
}

#[test]
fn undecodable_line_is_answered_with_an_error() {
    match reply_to(Err(DecodeErrorKind::Syntax)) {
        Reply::Send(Response::Error { error: ResponseError::MalformedMessage(d) }) => {
            assert_eq!(d, "messages contains invalid JSON")
        }
        _ => panic!("expected a malformed message error"),
    }
}

#[test]
fn listening_decisions() {
    assert_eq!(after_accept(Ok(())), LoopStep::Proceed);
    assert_eq!(after_accept(Err(IoFailure::WouldBlock)), LoopStep::Retry);
    assert_eq!(after_accept(Err(IoFailure::Other)), LoopStep::Stop);
    assert_eq!(after_bind(Ok(())), LoopStep::Proceed);
    assert_eq!(after_bind(Err(IoFailure::AlreadyExists)), LoopStep::Stop);
    assert_eq!(after_bind(Err(IoFailure::Other)), LoopStep::Retry);
}

#[test]
fn event_pump_decisions() {
    assert!(pending_events_suffice(3));
    assert!(!pending_events_suffice(0));
    assert_eq!(after_wait_readable(Ok(())), LoopStep::Proceed);
    assert_eq!(after_wait_readable(Err(IoFailure::Interrupted)), LoopStep::Retry);
    assert_eq!(after_wait_readable(Err(IoFailure::Other)), LoopStep::Stop);
    assert!(read_events_succeeded(Ok(())));
    assert!(read_events_succeeded(Err(IoFailure::WouldBlock)));
    assert!(!read_events_succeeded(Err(IoFailure::Other)));
}

fn detail_of(reply: Reply) -> String {
    match reply {
        Reply::Send(Response::Error { error: ResponseError::MalformedMessage(d) }) => d,
        _ => panic!("expected a malformed message error"),
    }
}

#[test]
fn json_errors_are_answered_by_their_category() {
    let eof = serde_json::from_str::<serde_json::Value>("{").unwrap_err();
    assert_eq!(detail_of(reply_to_decoded(Err(eof))), "unexpected end of file");
    let syntax = serde_json::from_str::<serde_json::Value>("{]").unwrap_err();
    assert_eq!(detail_of(reply_to_decoded(Err(syntax))), "messages contains invalid JSON");
    let data = serde_json::from_str::<u8>("\"x\"").unwrap_err();
    assert_eq!(detail_of(reply_to_decoded(Err(data))), "message JSON contain incorrect type data");
    assert!(matches!(reply_to_decoded(Ok(Message::Foo)), Reply::Dispatch(Message::Foo)));
}
