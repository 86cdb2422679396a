//! Failures of the runtime, and the payload each one shows the client.
use crate::json::Json;
use vstd::prelude::*;

verus! {

/// Why an inbound frame is not a call envelope.
#[derive(Debug, Clone, Copy, PartialEq, Eq, Structural)]
pub enum EnvelopeError {
    /// The frame is not a JSON object.
    NotAnObject,
    /// `type` is missing, not a string, or names no known frame kind.
    UnknownKind,
    /// `headers` is missing or not an object.
    MissingHeaders,
    /// `headers.id` is missing or not an integer that fits in `u32`.
    InvalidId,
    /// `headers.method` is missing or not a string.
    InvalidMethod,
    /// `stream_id` is missing or not an integer that fits in `u32`.
    InvalidStreamId,
    /// `headers.result` is missing or is neither `"ok"` nor `"err"`.
    InvalidResult,
}

#[derive(Debug, PartialEq)]
pub enum LiRpcError {
    /// The frame's text is not JSON; the text parser's message.
    DeserializeError(String),
    /// The frame is JSON but not an envelope.
    InvalidEnvelope(EnvelopeError),
    /// The frame is not a text frame.
    UnableToParseWebsocketMessage,
    /// No method is registered under this name.
    HandlerNotFound(String),
    /// A parameter of the handler could not be produced; its error payload.
    ExtractorError(Json),
    /// The handler returned an error; its payload.
    HandlerError(Json),
    /// The client closed the stream this output belonged to.
    StreamClosed,
    /// The connection's outbound channel is gone.
    SendError,
    /// A transport failure; its message.
    IoError(String),
}

/// The code that stands as payload for an error that carries none of its own.
pub open spec fn error_code(e: LiRpcError) -> Seq<char> {
    match e {
        LiRpcError::DeserializeError(_) => "deserialize_error"@,
        LiRpcError::InvalidEnvelope(_) => "invalid_envelope"@,
        LiRpcError::UnableToParseWebsocketMessage => "not_a_text_frame"@,
        LiRpcError::HandlerNotFound(_) => "handler_not_found"@,
        LiRpcError::ExtractorError(_) => "extractor_error"@,
        LiRpcError::HandlerError(_) => "handler_error"@,
        LiRpcError::StreamClosed => "stream_closed"@,
        LiRpcError::SendError => "send_error"@,
        LiRpcError::IoError(_) => "io_error"@,
    }
}

/// `j` is `{"error": "handler_not_found", "method": method}`.
pub open spec fn is_not_found_payload(j: Json, method: String) -> bool {
    j matches Json::Object(members) && {
        &&& members@.len() == 2
        &&& members@[0].0@ == "error"@
        &&& members@[0].1 matches Json::Str(code) && code@ == "handler_not_found"@
        &&& members@[1].0@ == "method"@
        &&& members@[1].1 == Json::Str(method)
    }
}

/// `j` is what the client is shown for `e`: the payload an extractor or a
/// handler gave; for an unknown method, an object naming it; else the error's
/// code as a string.
pub open spec fn is_error_payload(e: LiRpcError, j: Json) -> bool {
    match e {
        LiRpcError::ExtractorError(p) => j == p,
        LiRpcError::HandlerError(p) => j == p,
        LiRpcError::HandlerNotFound(method) => is_not_found_payload(j, method),
        _ => j matches Json::Str(s) && s@ == error_code(e),
    }
}

impl LiRpcError {
    /// The payload of the error response that reports `self`.
    pub fn into_payload(self) -> (r: Json)
        ensures
            is_error_payload(self, r),
    {
        match self {
            LiRpcError::ExtractorError(p) => p,
            LiRpcError::HandlerError(p) => p,
            LiRpcError::DeserializeError(_) => Json::Str("deserialize_error".to_owned()),
            LiRpcError::InvalidEnvelope(_) => Json::Str("invalid_envelope".to_owned()),
            LiRpcError::UnableToParseWebsocketMessage => Json::Str("not_a_text_frame".to_owned()),
            LiRpcError::HandlerNotFound(method) => {
                let mut members: Vec<(String, Json)> = Vec::new();
                members.push(("error".to_owned(), Json::Str("handler_not_found".to_owned())));
                members.push(("method".to_owned(), Json::Str(method)));
                Json::Object(members)
            },
            LiRpcError::StreamClosed => Json::Str("stream_closed".to_owned()),
            LiRpcError::SendError => Json::Str("send_error".to_owned()),
            LiRpcError::IoError(_) => Json::Str("io_error".to_owned()),
        }
    }

    /// Whether the error is the expected end of a stream the client closed.
    pub fn is_stream_closed(&self) -> (r: bool)
        ensures
            r == (*self is StreamClosed),
    {
        match self {
            LiRpcError::StreamClosed => true,
            _ => false,
        }
    }
}

} // verus!
