//! Per-connection registry of open server-push streams and their live/closed signals.
use std::collections::HashMap;
use vstd::prelude::*;

verus! {

broadcast use vstd::std_specs::hash::group_hash_axioms;

/// A request to the producer of one stream.
#[derive(Debug, Clone, Copy, PartialEq, Eq, Structural)]
pub enum StreamManagementMessage {
    CloseStream,
}

/// The registry as proofs see it: which slot each open stream id owns, and the
/// state (`true` = live) of every signal handed out so far, indexed by slot.
pub struct StreamTable {
    pub streams: Map<u32, usize>,
    pub signals: Seq<bool>,
}

/// Every open id owns a distinct slot whose signal is still live.
pub open spec fn table_wf(t: StreamTable) -> bool {
    &&& t.streams.dom().finite()
    &&& forall|id: u32|
        #![trigger t.streams[id]]
        t.streams.contains_key(id) ==> {
            &&& (t.streams[id] as int) < t.signals.len()
            &&& t.signals[t.streams[id] as int]
        }
    &&& forall|a: u32, b: u32|
        #![trigger t.streams[a], t.streams[b]]
        t.streams.contains_key(a) && t.streams.contains_key(b) && a != b ==> t.streams[a]
            != t.streams[b]
}

/// The table after `id` is registered: a fresh live signal, replacing any entry
/// the id had before (the older signal is left as it was).
pub open spec fn table_register(t: StreamTable, id: u32) -> StreamTable {
    StreamTable {
        streams: t.streams.insert(id, t.signals.len() as usize),
        signals: t.signals.push(true),
    }
}

/// The table after `id` is closed: its signal turns to closed and the entry goes;
/// an id that is not registered leaves the table as it is.
pub open spec fn table_close(t: StreamTable, id: u32) -> StreamTable {
    if t.streams.contains_key(id) {
        StreamTable {
            streams: t.streams.remove(id),
            signals: t.signals.update(t.streams[id] as int, false),
        }
    } else {
        t
    }
}

/// Whether the signal in `slot` is live.
pub open spec fn table_live(t: StreamTable, slot: usize) -> bool {
    (slot as int) < t.signals.len() && t.signals[slot as int]
}

/// The observer side of one stream's signal.
#[derive(Debug, Clone, Copy, PartialEq, Eq, Structural)]
pub struct StreamSignal {
    pub stream_id: u32,
    pub slot: usize,
}

/// Holds the open streams of one connection.
///
/// A method that produces a stream registers it here; when the client
/// unsubscribes, the stream is closed, and its producer sees the signal turn.
pub struct StreamManager {
    streams: HashMap<u32, usize>,
    signals: Vec<bool>,
}

impl StreamManager {
    pub closed spec fn table(&self) -> StreamTable {
        StreamTable { streams: self.streams@, signals: self.signals@ }
    }

    pub open spec fn wf(&self) -> bool {
        table_wf(self.table())
    }

    pub fn new() -> (r: Self)
        ensures
            r.wf(),
            r.table().streams.is_empty(),
            r.table().signals.len() == 0,
    {
        StreamManager { streams: HashMap::new(), signals: Vec::new() }
    }

    /// Opens a live signal for `stream_id`; the last registration of an id wins.
    pub fn register_stream(&mut self, stream_id: u32) -> (signal: StreamSignal)
        requires
            old(self).wf(),
            old(self).table().signals.len() < usize::MAX,
        ensures
            final(self).wf(),
            final(self).table() == table_register(old(self).table(), stream_id),
            signal.stream_id == stream_id,
            signal.slot == old(self).table().signals.len(),
    {
        let slot = self.signals.len();
        self.signals.push(true);
        self.streams.insert(stream_id, slot);
        let ghost t = self.table();
        assert(table_wf(t)) by {
            assert forall|id: u32| #![trigger t.streams[id]] t.streams.contains_key(id) implies {
                &&& (t.streams[id] as int) < t.signals.len()
                &&& t.signals[t.streams[id] as int]
            } by {
                if id != stream_id {
                    assert(old(self).table().streams.contains_key(id));
                }
            }
            assert forall|a: u32, b: u32|
                #![trigger t.streams[a], t.streams[b]]
                t.streams.contains_key(a) && t.streams.contains_key(b) && a != b implies t.streams[a]
                != t.streams[b] by {
                if a != stream_id && b != stream_id {
                    assert(old(self).table().streams.contains_key(a));
                    assert(old(self).table().streams.contains_key(b));
                } else if a == stream_id {
                    assert(old(self).table().streams.contains_key(b));
                    assert(old(self).table().streams[b] == t.streams[b]);
                } else {
                    assert(old(self).table().streams.contains_key(a));
                    assert(old(self).table().streams[a] == t.streams[a]);
                }
            }
        }
        StreamSignal { stream_id, slot }
    }

    /// Turns the signal of `stream_id` to closed and forgets the stream.
    /// Closing an id that is not registered changes nothing.
    pub fn close_stream(&mut self, stream_id: u32)
        requires
            old(self).wf(),
        ensures
            final(self).wf(),
            final(self).table() == table_close(old(self).table(), stream_id),
    {
        let ghost t0 = self.table();
        match self.streams.remove(&stream_id) {
            Some(slot) => {
                assert(t0.streams.contains_key(stream_id));
                self.signals.set(slot, false);
                let ghost t = self.table();
                assert(t.streams =~= table_close(t0, stream_id).streams);
                assert(table_wf(t)) by {
                    assert forall|id: u32| #![trigger t.streams[id]] t.streams.contains_key(id) implies {
                        &&& (t.streams[id] as int) < t.signals.len()
                        &&& t.signals[t.streams[id] as int]
                    } by {
                        assert(t0.streams.contains_key(id));
                        assert(t0.streams[id] != t0.streams[stream_id]);
                    }
                    assert forall|a: u32, b: u32|
                        #![trigger t.streams[a], t.streams[b]]
                        t.streams.contains_key(a) && t.streams.contains_key(b) && a != b implies t.streams[a]
                        != t.streams[b] by {
                        assert(t0.streams.contains_key(a));
                        assert(t0.streams.contains_key(b));
                    }
                }
            },
            None => {
                assert(self.table().streams =~= t0.streams);
            },
        }
    }

    /// How many signals this registry has handed out.
    pub fn signal_count(&self) -> (r: usize)
        ensures
            r == self.table().signals.len(),
    {
        self.signals.len()
    }

    /// Whether `signal` is still live; a signal this registry never handed out is
    /// not.
    pub fn is_open(&self, signal: &StreamSignal) -> (r: bool)
        ensures
            r == table_live(self.table(), signal.slot),
    {
        if signal.slot < self.signals.len() {
            self.signals[signal.slot]
        } else {
            false
        }
    }
}

/// Closing stream `id` turns the signal of its current registration from live to
/// closed, so the next send on that stream fails, while a send before the close
/// found it live; every other open stream stays live.
pub proof fn lemma_close_ends_stream(t: StreamTable, id: u32)
    requires
        table_wf(t),
        t.streams.contains_key(id),
    ensures
        table_live(t, t.streams[id]),
        !table_live(table_close(t, id), t.streams[id]),
        !table_close(t, id).streams.contains_key(id),
        forall|other: u32|
            #![trigger table_close(t, id).streams[other]]
            other != id && t.streams.contains_key(other) ==> table_live(
                table_close(t, id),
                t.streams[other],
            ),
{
    assert forall|other: u32|
        #![trigger table_close(t, id).streams[other]]
        other != id && t.streams.contains_key(other) implies table_live(
        table_close(t, id),
        t.streams[other],
    ) by {
        assert(t.streams[other] != t.streams[id]);
    }
}

/// Closing an id that was never registered (or is already closed) changes nothing.
pub proof fn lemma_close_unregistered(t: StreamTable, id: u32)
    requires
        !t.streams.contains_key(id),
    ensures
        table_close(t, id) == t,
{
}

/// A stream is live as soon as it is registered.
pub proof fn lemma_register_opens(t: StreamTable, id: u32)
    requires
        table_wf(t),
        t.signals.len() < usize::MAX,
    ensures
        table_register(t, id).streams[id] == t.signals.len(),
        table_live(table_register(t, id), t.signals.len() as usize),
{
}

/// Registering keeps the table well formed.
pub proof fn lemma_register_keeps_wf(t: StreamTable, id: u32)
    requires
        table_wf(t),
        t.signals.len() < usize::MAX,
    ensures
        table_wf(table_register(t, id)),
{
    let u = table_register(t, id);
    assert forall|k: u32| #![trigger u.streams[k]] u.streams.contains_key(k) implies {
        &&& (u.streams[k] as int) < u.signals.len()
        &&& u.signals[u.streams[k] as int]
    } by {
        if k != id {
            assert(t.streams.contains_key(k));
        }
    }
    assert forall|a: u32, b: u32|
        #![trigger u.streams[a], u.streams[b]]
        u.streams.contains_key(a) && u.streams.contains_key(b) && a != b implies u.streams[a]
        != u.streams[b] by {
        if a != id {
            assert(t.streams.contains_key(a));
        }
        if b != id {
            assert(t.streams.contains_key(b));
        }
    }
}

/// Closing keeps the table well formed.
pub proof fn lemma_close_keeps_wf(t: StreamTable, id: u32)
    requires
        table_wf(t),
    ensures
        table_wf(table_close(t, id)),
{
    if t.streams.contains_key(id) {
        let u = table_close(t, id);
        assert forall|k: u32| #![trigger u.streams[k]] u.streams.contains_key(k) implies {
            &&& (u.streams[k] as int) < u.signals.len()
            &&& u.signals[u.streams[k] as int]
        } by {
            assert(t.streams.contains_key(k));
            assert(t.streams[k] != t.streams[id]);
        }
        assert forall|a: u32, b: u32|
            #![trigger u.streams[a], u.streams[b]]
            u.streams.contains_key(a) && u.streams.contains_key(b) && a != b implies u.streams[a]
            != u.streams[b] by {
            assert(t.streams.contains_key(a));
            assert(t.streams.contains_key(b));
        }
    }
}

/// A stream registered under `id` is live until `id` is closed, and closed from
/// then on: a send before the close finds it open, the next send after it finds
/// it closed.
pub proof fn lemma_register_then_close(t: StreamTable, id: u32)
    requires
        table_wf(t),
        t.signals.len() < usize::MAX,
    ensures
        table_live(table_register(t, id), t.signals.len() as usize),
        !table_live(table_close(table_register(t, id), id), t.signals.len() as usize),
        table_wf(table_close(table_register(t, id), id)),
{
    lemma_register_keeps_wf(t, id);
    lemma_close_ends_stream(table_register(t, id), id);
    lemma_close_keeps_wf(table_register(t, id), id);
}

} // verus!
