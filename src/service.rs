//! The method registry: which method names a server answers, and the reply a
//! failed call gets.
use crate::error::{is_error_payload, LiRpcError};
use crate::lirpc_message::{
    LiRpcMessage, LiRpcResponse, LiRpcResponseHeaders, LiRpcResponseResult, RawLiRpcMessagePayload,
};
use vstd::prelude::*;

verus! {

/// The registered method names. A name's position is the slot that holds its
/// handler; registering a name again keeps its slot, so the newer handler
/// replaces the older one.
pub struct MethodTable {
    names: Vec<String>,
}

impl View for MethodTable {
    type V = Seq<Seq<char>>;

    closed spec fn view(&self) -> Seq<Seq<char>> {
        self.names@.map_values(|s: String| s@)
    }
}

pub open spec fn names_unique(names: Seq<Seq<char>>) -> bool {
    forall|i: int, j: int|
        0 <= i < names.len() && 0 <= j < names.len() && i != j ==> #[trigger] names[i]
            != #[trigger] names[j]
}

impl MethodTable {
    pub open spec fn wf(&self) -> bool {
        names_unique(self@)
    }

    pub fn new() -> (r: Self)
        ensures
            r.wf(),
            r@ == Seq::<Seq<char>>::empty(),
    {
        let r = MethodTable { names: Vec::new() };
        assert(r@ =~= Seq::<Seq<char>>::empty());
        r
    }

    pub fn len(&self) -> (r: usize)
        ensures
            r == self@.len(),
    {
        self.names.len()
    }

    /// The slot of method `name`, if it is registered.
    pub fn lookup(&self, name: &String) -> (r: Option<usize>)
        ensures
            match r {
                Some(i) => i < self@.len() && self@[i as int] == name@,
                None => !self@.contains(name@),
            },
    {
        let mut i: usize = 0;
        while i < self.names.len()
            invariant
                i <= self.names@.len(),
                self@.len() == self.names@.len(),
                forall|j: int| 0 <= j < i ==> self@[j] != name@,
            decreases self.names@.len() - i,
        {
            if self.names[i] == *name {
                return Some(i);
            }
            i = i + 1;
        }
        None
    }

    /// Registers method `name` and gives the slot for its handler: the slot it
    /// had, if it was registered before, else a new one at the end.
    pub fn register(&mut self, name: String) -> (slot: usize)
        requires
            old(self).wf(),
        ensures
            final(self).wf(),
            slot < final(self)@.len(),
            final(self)@[slot as int] == name@,
            old(self)@.contains(name@) ==> final(self)@ == old(self)@,
            !old(self)@.contains(name@) ==> final(self)@ == old(self)@.push(name@),
    {
        match self.lookup(&name) {
            Some(i) => i,
            None => {
                let n = self.names.len();
                let ghost before = self@;
                self.names.push(name);
                assert(self@ =~= before.push(name@));
                n
            },
        }
    }

    /// The slot of the method that `call` names, or `HandlerNotFound` with that
    /// name.
    pub fn route(&self, call: &LiRpcMessage) -> (r: Result<usize, LiRpcError>)
        ensures
            match r {
                Ok(i) => i < self@.len() && self@[i as int] == call.headers.method@,
                Err(e) => !self@.contains(call.headers.method@) && e == LiRpcError::HandlerNotFound(
                    call.headers.method,
                ),
            },
    {
        match self.lookup(&call.headers.method) {
            Some(i) => Ok(i),
            None => Err(LiRpcError::HandlerNotFound(call.headers.method.clone())),
        }
    }
}

/// `r` is the error reply to call `id` that reports `e`.
pub open spec fn is_error_response(r: LiRpcResponse, id: u32, e: LiRpcError) -> bool {
    &&& r.headers == LiRpcResponseHeaders { id, result: LiRpcResponseResult::Failure }
    &&& r.payload matches Some(RawLiRpcMessagePayload::Json(p)) && is_error_payload(e, p)
}

/// The reply that a failed call `id` gets: an error result carrying the error's
/// payload; none where the failure is a stream the client itself closed.
pub fn error_response(id: u32, e: LiRpcError) -> (r: Option<LiRpcResponse>)
    ensures
        e is StreamClosed ==> r is None,
        !(e is StreamClosed) ==> (r matches Some(resp) && is_error_response(resp, id, e)),
{
    if e.is_stream_closed() {
        None
    } else {
        let payload = e.into_payload();
        Some(
            LiRpcResponse {
                headers: LiRpcResponseHeaders { id, result: LiRpcResponseResult::Failure },
                payload: Some(RawLiRpcMessagePayload::Json(payload)),
            },
        )
    }
}

} // verus!
