//! The decisions of one connection's actor: what to do with each inbound frame,
//! how an outbound reply is framed, and when the connection winds down.
//!
//! The actor itself (reading, spawning a task per call, writing) runs around
//! these decisions; every call is dispatched on its own, and only the transport
//! failing ends a connection.
use crate::error::LiRpcError;
use crate::json::{from_text, json_text, parsed_json, to_text, Json};
use crate::lirpc_message::{
    call_of_json, is_close_stream_frame, is_response_frame, lemma_close_stream_round_trip,
    LiRpcCall, LiRpcMessage, LiRpcResponse, LiRpcResponseResult,
};
use crate::service::is_error_response;
use crate::stream_manager::{lemma_close_ends_stream, lemma_close_keeps_wf, table_close, table_live, table_wf, StreamTable};
use vstd::prelude::*;

verus! {

#[derive(Debug, Clone, Copy, PartialEq, Eq, Structural)]
pub enum ConnectionPhase {
    Open,
    Closing,
    Closed,
}

/// One event of the receive path.
#[derive(Debug, PartialEq)]
pub enum InboundFrame {
    /// A text frame whose text is this JSON value.
    Text(Json),
    /// A text frame whose text is not JSON; the text parser's message.
    Unparseable(String),
    /// A binary frame.
    Binary,
    /// A close, ping or pong frame.
    Control,
    /// Reading from the transport failed; the failure's message.
    ReceiveError(String),
    /// The transport has no more frames.
    Ended,
}

/// What the actor does about one inbound event.
#[derive(Debug, PartialEq)]
pub enum ConnectionAction {
    /// Start an independent task that runs this call.
    Dispatch(LiRpcMessage),
    /// Close this stream in the connection's registry, right away.
    CloseStream(u32),
    /// Drop the frame and report the error; the connection stays open.
    Discard(LiRpcError),
    /// Stop serving the connection.
    Stop,
}

/// The action an inbound event calls for.
pub open spec fn action_for(frame: InboundFrame) -> ConnectionAction {
    match frame {
        InboundFrame::Text(j) => match call_of_json(j) {
            Ok(LiRpcCall::FunctionCall(m)) => ConnectionAction::Dispatch(m),
            Ok(LiRpcCall::CloseStream { stream_id }) => ConnectionAction::CloseStream(stream_id),
            Err(e) => ConnectionAction::Discard(LiRpcError::InvalidEnvelope(e)),
        },
        InboundFrame::Unparseable(msg) => ConnectionAction::Discard(
            LiRpcError::DeserializeError(msg),
        ),
        InboundFrame::Binary => ConnectionAction::Discard(
            LiRpcError::UnableToParseWebsocketMessage,
        ),
        InboundFrame::Control => ConnectionAction::Stop,
        InboundFrame::ReceiveError(_) => ConnectionAction::Stop,
        InboundFrame::Ended => ConnectionAction::Stop,
    }
}

/// The state of one connection: `Open`, then `Closing` once the transport ends
/// or fails, then `Closed`.
pub struct Connection {
    phase: ConnectionPhase,
}

impl Connection {
    pub closed spec fn spec_phase(&self) -> ConnectionPhase {
        self.phase
    }

    pub fn new() -> (r: Self)
        ensures
            r.spec_phase() is Open,
    {
        Connection { phase: ConnectionPhase::Open }
    }

    pub fn phase(&self) -> (r: ConnectionPhase)
        ensures
            r == self.spec_phase(),
    {
        self.phase
    }

    /// Decides what to do with an inbound event. Only a control frame, a failed
    /// read or the end of the transport stop the connection; a frame that is not
    /// a valid envelope is dropped and the connection stays open.
    pub fn on_frame(&mut self, frame: InboundFrame) -> (r: ConnectionAction)
        requires
            old(self).spec_phase() is Open,
        ensures
            r == action_for(frame),
            r is Stop ==> final(self).spec_phase() is Closing,
            !(r is Stop) ==> final(self).spec_phase() is Open,
    {
        match frame {
            InboundFrame::Text(j) => match LiRpcCall::from_json(j) {
                Ok(LiRpcCall::FunctionCall(m)) => ConnectionAction::Dispatch(m),
                Ok(LiRpcCall::CloseStream { stream_id }) => ConnectionAction::CloseStream(
                    stream_id,
                ),
                Err(e) => ConnectionAction::Discard(LiRpcError::InvalidEnvelope(e)),
            },
            InboundFrame::Unparseable(msg) => ConnectionAction::Discard(
                LiRpcError::DeserializeError(msg),
            ),
            InboundFrame::Binary => ConnectionAction::Discard(
                LiRpcError::UnableToParseWebsocketMessage,
            ),
            _ => {
                self.phase = ConnectionPhase::Closing;
                ConnectionAction::Stop
            },
        }
    }

    /// Decides what to do with a text frame: its text is read as JSON first, and
    /// text that is not JSON is dropped with the reader's message.
    pub fn on_text(&mut self, text: &str) -> (r: ConnectionAction)
        requires
            old(self).spec_phase() is Open,
        ensures
            final(self).spec_phase() is Open,
            match parsed_json(text@) {
                Ok(j) => r == action_for(InboundFrame::Text(j)),
                Err(m) => r matches ConnectionAction::Discard(LiRpcError::DeserializeError(s))
                    && s@ == m,
            },
    {
        let frame = match from_text(text) {
            Ok(j) => InboundFrame::Text(j),
            Err(m) => InboundFrame::Unparseable(m),
        };
        self.on_frame(frame)
    }

    /// The text to write for a reply taken from the outbound channel.
    pub fn response_text(&self, response: LiRpcResponse) -> (r: String)
        ensures
            exists|j: Json| #[trigger] is_response_frame(j, response) && r@ == json_text(j),
    {
        let j = response.into_json();
        let r = to_text(&j);
        assert(is_response_frame(j, response) && r@ == json_text(j));
        r
    }

    /// The frame to write for a reply taken from the outbound channel.
    pub fn on_response(&self, response: LiRpcResponse) -> (j: Json)
        ensures
            is_response_frame(j, response),
    {
        response.into_json()
    }

    /// Writing to the transport failed: the connection winds down.
    pub fn on_write_failed(&mut self)
        ensures
            final(self).spec_phase() is Closing,
    {
        self.phase = ConnectionPhase::Closing;
    }

    /// The actor has stopped.
    pub fn finish(&mut self)
        ensures
            final(self).spec_phase() is Closed,
    {
        self.phase = ConnectionPhase::Closed;
    }
}

/// A call of a method that is not registered is dispatched like any other call,
/// so the connection stays open and later calls are dispatched too. Routing it
/// fails with `HandlerNotFound` naming the method, which is not the expected
/// end of a stream, so it gets exactly one reply: a failure result for the
/// call's id.
pub proof fn lemma_unknown_method_answered(j: Json, m: LiRpcMessage, next: Json, n: LiRpcMessage)
    requires
        call_of_json(j) == Ok::<LiRpcCall, crate::error::EnvelopeError>(LiRpcCall::FunctionCall(m)),
        call_of_json(next) == Ok::<LiRpcCall, crate::error::EnvelopeError>(
            LiRpcCall::FunctionCall(n),
        ),
    ensures
        action_for(InboundFrame::Text(j)) == ConnectionAction::Dispatch(m),
        !(LiRpcError::HandlerNotFound(m.headers.method) is StreamClosed),
        forall|resp: LiRpcResponse|
            is_error_response(resp, m.headers.id, LiRpcError::HandlerNotFound(m.headers.method))
                ==> resp.headers.id == m.headers.id && resp.headers.result
                == LiRpcResponseResult::Failure,
        action_for(InboundFrame::Text(next)) == ConnectionAction::Dispatch(n),
{
}

/// A request to close a registered stream is acted on at once without stopping
/// the connection; afterwards the stream's signal reads closed, so every later
/// send on it fails with `StreamClosed`, which gets no reply, while the other
/// open streams stay live.
pub proof fn lemma_closed_stream_goes_quiet(t: StreamTable, x: u32, j: Json)
    requires
        table_wf(t),
        t.streams.contains_key(x),
        is_close_stream_frame(j, x),
    ensures
        action_for(InboundFrame::Text(j)) == ConnectionAction::CloseStream(x),
        !table_live(table_close(t, x), t.streams[x]),
        table_wf(table_close(t, x)),
        forall|other: u32|
            #![trigger t.streams[other]]
            other != x && t.streams.contains_key(other) ==> table_live(
                table_close(t, x),
                t.streams[other],
            ),
{
    lemma_close_stream_round_trip(j, x);
    lemma_close_ends_stream(t, x);
    lemma_close_keeps_wf(t, x);
    assert forall|other: u32|
        #![trigger t.streams[other]]
        other != x && t.streams.contains_key(other) implies table_live(
        table_close(t, x),
        t.streams[other],
    ) by {
        assert(table_close(t, x).streams[other] == t.streams[other]);
    }
}

} // verus!
