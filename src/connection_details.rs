//! What the runtime keeps for one accepted connection.
use vstd::prelude::*;

verus! {

pub struct ConnectionDetails<S> {
    pub connection_state: S,
}

impl<S> ConnectionDetails<S> {
    pub fn new(connection_state: S) -> (r: Self)
        ensures
            r.connection_state == connection_state,
    {
        ConnectionDetails { connection_state }
    }
}

} // verus!
