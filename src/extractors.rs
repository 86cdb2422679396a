//! The built-in parameters a handler can declare: the process-wide state, the
//! connection-scoped state, a single reply, and a stream of replies.
use crate::error::LiRpcError;
use crate::json::Json;
use crate::lirpc_message::{
    LiRpcResponse, LiRpcResponseHeaders, LiRpcResponseResult, RawLiRpcMessagePayload,
};
use crate::stream_manager::{table_live, table_register, StreamManager, StreamSignal};
use vstd::prelude::*;

verus! {

/// The process-wide state, shared by every connection.
pub struct State<S>(pub S);

/// The state of the connection the call came in on.
pub struct ConnectionState<C>(pub C);

/// The reply `payload` to call `id`, marked as a success.
pub open spec fn ok_response(id: u32, payload: Json) -> LiRpcResponse {
    LiRpcResponse {
        headers: LiRpcResponseHeaders { id, result: LiRpcResponseResult::Success },
        payload: Some(RawLiRpcMessagePayload::Json(payload)),
    }
}

/// Sends the one reply of a call.
pub struct Output {
    id: u32,
}

impl Output {
    pub closed spec fn call_id(&self) -> u32 {
        self.id
    }

    pub fn new(id: u32) -> (r: Self)
        ensures
            r.call_id() == id,
    {
        Output { id }
    }

    /// The reply to hand to the connection's outbound channel. It consumes the
    /// output: a call has one reply.
    pub fn send(self, payload: Json) -> (r: LiRpcResponse)
        ensures
            r == ok_response(self.call_id(), payload),
    {
        LiRpcResponse {
            headers: LiRpcResponseHeaders { id: self.id, result: LiRpcResponseResult::Success },
            payload: Some(RawLiRpcMessagePayload::Json(payload)),
        }
    }
}

/// Sends any number of replies to one call, until the client closes the stream.
pub struct OutputStream {
    id: u32,
    signal: StreamSignal,
}

impl OutputStream {
    pub closed spec fn call_id(&self) -> u32 {
        self.id
    }

    pub closed spec fn signal(&self) -> StreamSignal {
        self.signal
    }

    /// Registers a stream for call `id` with the connection's registry.
    pub fn new(id: u32, streams: &mut StreamManager) -> (r: Self)
        requires
            old(streams).wf(),
            old(streams).table().signals.len() < usize::MAX,
        ensures
            final(streams).wf(),
            final(streams).table() == table_register(old(streams).table(), id),
            r.call_id() == id,
            r.signal() == (StreamSignal { stream_id: id, slot: old(streams).table().signals.len() as usize }),
    {
        let signal = streams.register_stream(id);
        OutputStream { id, signal }
    }

    /// The next reply to hand to the outbound channel, or `StreamClosed` once the
    /// client has closed the stream. The signal is read at this call.
    pub fn send(&self, streams: &StreamManager, payload: Json) -> (r: Result<
        LiRpcResponse,
        LiRpcError,
    >)
        ensures
            table_live(streams.table(), self.signal().slot) ==> r == Ok::<
                LiRpcResponse,
                LiRpcError,
            >(ok_response(self.call_id(), payload)),
            !table_live(streams.table(), self.signal().slot) ==> r == Err::<
                LiRpcResponse,
                LiRpcError,
            >(LiRpcError::StreamClosed),
    {
        if streams.is_open(&self.signal) {
            Ok(
                LiRpcResponse {
                    headers: LiRpcResponseHeaders {
                        id: self.id,
                        result: LiRpcResponseResult::Success,
                    },
                    payload: Some(RawLiRpcMessagePayload::Json(payload)),
                },
            )
        } else {
            Err(LiRpcError::StreamClosed)
        }
    }
}

} // verus!
