//! Messages and responses of the control socket protocol.
//!
//! Each request is one line of JSON holding a [`Message`]; the daemon
//! answers each line with one line of JSON holding a [`Response`].

use vstd::prelude::*;

verus! {

/// A request that a client sends to the daemon.
#[derive(Debug, Clone, Copy, PartialEq, Eq, Structural)]
pub enum Message {
    Foo,
}

/// What a successful request produced.
#[derive(Debug, Clone, Copy, PartialEq, Eq, Structural)]
pub enum ResponseContent {
    Foo,
}

/// Why a request was refused.
#[derive(Debug, Clone)]
pub enum ResponseError {
    /// The request line could not be decoded; the detail says why.
    MalformedMessage(String),
}

/// The daemon's answer to one request line.
#[derive(Debug, Clone)]
pub enum Response {
    Error { error: ResponseError },
    Success { content: ResponseContent },
}

impl Response {
    /// The response that reports `e`.
    pub fn error(e: ResponseError) -> (r: Self)
        ensures
            r == (Response::Error { error: e }),
    {
        Response::Error { error: e }
    }

    /// The response that carries `c`.
    pub fn success(c: ResponseContent) -> (r: Self)
        ensures
            r == (Response::Success { content: c }),
    {
        Response::Success { content: c }
    }
}

/// The ways in which decoding a request line can fail.
#[derive(Debug, Clone, Copy, PartialEq, Eq, Structural)]
pub enum DecodeErrorKind {
    /// Reading or writing the underlying stream failed.
    Io,
    /// The line is not JSON.
    Syntax,
    /// The line is JSON, but not a message.
    Data,
    /// The line ends before the JSON does.
    Eof,
}

/// The detail that the response to an undecodable line gives.
pub open spec fn malformed_detail(kind: DecodeErrorKind) -> Seq<char> {
    match kind {
        DecodeErrorKind::Io => "failed to read/write IO stream"@,
        DecodeErrorKind::Syntax => "messages contains invalid JSON"@,
        DecodeErrorKind::Data => "message JSON contain incorrect type data"@,
        DecodeErrorKind::Eof => "unexpected end of file"@,
    }
}

/// The detail that the response to an undecodable line gives.
pub fn malformed_message_detail(kind: DecodeErrorKind) -> (s: String)
    ensures
        s@ == malformed_detail(kind),
{
    let text: &str = match kind {
        DecodeErrorKind::Io => "failed to read/write IO stream",
        DecodeErrorKind::Syntax => "messages contains invalid JSON",
        DecodeErrorKind::Data => "message JSON contain incorrect type data",
        DecodeErrorKind::Eof => "unexpected end of file",
    };
    text.to_owned()
}

/// Whether `r` reports a malformed request with the detail for `kind`.
pub open spec fn is_malformed_response(r: Response, kind: DecodeErrorKind) -> bool {
    match r {
        Response::Error { error: ResponseError::MalformedMessage(detail) } => detail@
            == malformed_detail(kind),
        _ => false,
    }
}

/// The line that carries the JSON text `json`: its bytes and a newline.
pub fn frame_line(json: Vec<u8>) -> (line: Vec<u8>)
    ensures
        line@ == json@.push(10u8),
{
    let mut line = json;
    line.push(10u8);
    line
}

} // verus!
