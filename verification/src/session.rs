//! The decisions that the daemon takes while it serves its control socket
//! and while it waits for the compositor: each function takes what an
//! input or output operation reported and says how to go on.

use vstd::prelude::*;
use crate::ipc::{
    DecodeErrorKind, Message, Response, ResponseContent, ResponseError, is_malformed_response,
    malformed_message_detail,
};

verus! {

/// The kinds of input or output failure that the daemon tells apart.
#[derive(Debug, Clone, Copy, PartialEq, Eq, Structural)]
pub enum IoFailure {
    WouldBlock,
    BrokenPipe,
    AlreadyExists,
    Interrupted,
    /// Any other failure.
    Other,
}

/// How to go on after reading a request line from a client.
#[derive(Debug, Clone, Copy, PartialEq, Eq, Structural)]
pub enum ReadStep {
    /// Decode the line and answer it.
    Decode,
    /// The client has gone: end the connection without an error.
    Close,
    /// End the connection with the read error.
    Fail,
}

/// How to go on in a loop after an operation.
#[derive(Debug, Clone, Copy, PartialEq, Eq, Structural)]
pub enum LoopStep {
    /// The operation succeeded: use its result.
    Proceed,
    /// Try the operation again.
    Retry,
    /// Leave the loop.
    Stop,
}

/// How to answer a decoded request line.
#[derive(Debug, Clone)]
pub enum Reply {
    /// Let the compositor's pending events be handled, then answer the
    /// message with the response that [`dispatched_response`] gives.
    Dispatch(Message),
    /// Answer with this response at once.
    Send(Response),
}

/// What to do after reading a line of `len` bytes, or after the read
/// failed: a line of no bytes means that the client has closed the
/// connection, and so does a broken pipe.
pub fn after_read_line(read: Result<usize, IoFailure>) -> (step: ReadStep)
    ensures
        step == match read {
            Ok(len) => if len == 0 {
                ReadStep::Close
            } else {
                ReadStep::Decode
            },
            Err(IoFailure::BrokenPipe) => ReadStep::Close,
            Err(_) => ReadStep::Fail,
        },
{
    match read {
        Ok(len) => if len == 0 {
            ReadStep::Close
        } else {
            ReadStep::Decode
        },
        Err(IoFailure::BrokenPipe) => ReadStep::Close,
        Err(_) => ReadStep::Fail,
    }
}

/// How to answer a request line that decoded to a message or failed to
/// decode: a message is served after the pending compositor events are
/// handled; an undecodable line is answered with a malformed message
/// error that says why.
pub fn reply_to(decoded: Result<Message, DecodeErrorKind>) -> (reply: Reply)
    ensures
        match decoded {
            Ok(m) => reply == Reply::Dispatch(m),
            Err(kind) => match reply {
                Reply::Send(r) => is_malformed_response(r, kind),
                Reply::Dispatch(_) => false,
            },
        },
{
    match decoded {
        Ok(m) => Reply::Dispatch(m),
        Err(kind) => Reply::Send(
            Response::error(ResponseError::MalformedMessage(malformed_message_detail(kind))),
        ),
    }
}

/// serde_json's decoding error, carried through as it is.
#[verifier::external_type_specification]
#[verifier::external_body]
pub struct ExJsonError(serde_json::Error);

/// The category that `serde_json::Error::classify` gives an error, under
/// the library's name for it. `classify` reads the error's code and
/// nothing else, so the same error always has the same category.
pub uninterp spec fn json_error_category(e: serde_json::Error) -> DecodeErrorKind;

/// Calls `serde_json::Error::classify` and gives the category it returns
/// under the library's name for it, one variant for each; the contract
/// claims that the result is the error's category, [`json_error_category`].
#[verifier::external_body]
fn json_error_kind(e: &serde_json::Error) -> (k: DecodeErrorKind)
    ensures
        k == json_error_category(*e),
{
    match e.classify() {
        serde_json::error::Category::Io => DecodeErrorKind::Io,
        serde_json::error::Category::Syntax => DecodeErrorKind::Syntax,
        serde_json::error::Category::Data => DecodeErrorKind::Data,
        serde_json::error::Category::Eof => DecodeErrorKind::Eof,
    }
}

/// How to answer a request line that serde_json decoded to a message or
/// failed to decode: a message is served after the pending compositor
/// events are handled; an undecodable line is answered with a malformed
/// message error whose detail is that of the error's category.
pub fn reply_to_decoded(decoded: Result<Message, serde_json::Error>) -> (reply: Reply)
    ensures
        match decoded {
            Ok(m) => reply == Reply::Dispatch(m),
            Err(e) => match reply {
                Reply::Send(r) => is_malformed_response(r, json_error_category(e)),
                Reply::Dispatch(_) => false,
            },
        },
{
    match decoded {
        Ok(m) => reply_to(Ok(m)),
        Err(e) => {
            let kind = json_error_kind(&e);
            reply_to(Err(kind))
        },
    }
}

/// The answer to `message` once the pending compositor events have been
/// handled.
pub fn dispatched_response(message: Message) -> (r: Response)
    ensures
        r == (Response::Success { content: ResponseContent::Foo }),
{
    match message {
        Message::Foo => Response::success(ResponseContent::Foo),
    }
}

/// What to do after accepting a client: serve it, try again when the
/// listener would block, and stop listening on any other failure.
pub fn after_accept(accepted: Result<(), IoFailure>) -> (step: LoopStep)
    ensures
        step == match accepted {
            Ok(()) => LoopStep::Proceed,
            Err(IoFailure::WouldBlock) => LoopStep::Retry,
            Err(_) => LoopStep::Stop,
        },
{
    match accepted {
        Ok(()) => LoopStep::Proceed,
        Err(IoFailure::WouldBlock) => LoopStep::Retry,
        Err(_) => LoopStep::Stop,
    }
}

/// What to do after binding the control socket: listen on it, give up
/// when a socket already exists at the path, and try again on any other
/// failure.
pub fn after_bind(bound: Result<(), IoFailure>) -> (step: LoopStep)
    ensures
        step == match bound {
            Ok(()) => LoopStep::Proceed,
            Err(IoFailure::AlreadyExists) => LoopStep::Stop,
            Err(_) => LoopStep::Retry,
        },
{
    match bound {
        Ok(()) => LoopStep::Proceed,
        Err(IoFailure::AlreadyExists) => LoopStep::Stop,
        Err(_) => LoopStep::Retry,
    }
}

/// Whether the events already queued were enough: when some were
/// dispatched, the daemon does not wait for more.
pub fn pending_events_suffice(dispatched: usize) -> (r: bool)
    ensures
        r == (dispatched > 0),
{
    dispatched > 0
}

/// What to do after waiting for the compositor's socket to become
/// readable: go on, wait again when interrupted, fail otherwise.
pub fn after_wait_readable(waited: Result<(), IoFailure>) -> (step: LoopStep)
    ensures
        step == match waited {
            Ok(()) => LoopStep::Proceed,
            Err(IoFailure::Interrupted) => LoopStep::Retry,
            Err(_) => LoopStep::Stop,
        },
{
    match waited {
        Ok(()) => LoopStep::Proceed,
        Err(IoFailure::Interrupted) => LoopStep::Retry,
        Err(_) => LoopStep::Stop,
    }
}

/// Whether reading the compositor's events may go on to dispatching
/// them: yes when the read succeeded or would have blocked.
pub fn read_events_succeeded(read: Result<(), IoFailure>) -> (r: bool)
    ensures
        r == match read {
            Ok(()) => true,
            Err(IoFailure::WouldBlock) => true,
            Err(_) => false,
        },
{
    match read {
        Ok(()) => true,
        Err(IoFailure::WouldBlock) => true,
        Err(_) => false,
    }
}

} // verus!
