//! Connection state: the liveness flag, the pending-request registry, and
//! the disconnect-notification protocol that resolves every outstanding
//! request exactly once when the link breaks.

use vstd::prelude::*;

verus! {

/// The registry of outstanding requests, modelled by their identifiers in
/// insertion order. The surrounding request layer inserts entries; this core
/// only drains them all when the connection is lost.
pub struct PendingMap {
    ids: Vec<u64>,
}

impl View for PendingMap {
    type V = Seq<u64>;

    closed spec fn view(&self) -> Seq<u64> {
        self.ids@
    }
}

impl PendingMap {
    /// An empty registry.
    pub fn new() -> (m: PendingMap)
        ensures
            m@ == Seq::<u64>::empty(),
    {
        PendingMap { ids: Vec::new() }
    }

    /// Record one outstanding request.
    pub fn insert(&mut self, id: u64)
        ensures
            final(self)@ == old(self)@.push(id),
    {
        self.ids.push(id);
    }

    /// How many requests are outstanding.
    pub fn len(&self) -> (n: usize)
        ensures
            n == self@.len(),
    {
        self.ids.len()
    }

    /// Remove and return every outstanding entry, in insertion order.
    fn drain_all(&mut self) -> (out: Vec<u64>)
        ensures
            final(self)@ == Seq::<u64>::empty(),
            out@ == old(self)@,
    {
        let mut out: Vec<u64> = Vec::new();
        let n = self.ids.len();
        let mut i: usize = 0;
        while i < n
            invariant
                0 <= i <= n,
                n == self.ids@.len(),
                self.ids@ == old(self).ids@,
                out@ == self.ids@.subrange(0, i as int),
            decreases n - i,
        {
            out.push(self.ids[i]);
            proof {
                assert(out@ =~= self.ids@.subrange(0, i + 1));
            }
            i = i + 1;
        }
        proof {
            assert(out@ =~= self.ids@);
        }
        self.ids = Vec::new();
        out
    }
}

/// The observable content of the connection state: the liveness flag and the
/// outstanding request identifiers.
pub struct ConnModel {
    pub live: bool,
    pub pending: Seq<u64>,
}

/// One invocation of the disconnect protocol, as a transition on the model:
/// on a live connection it clears the flag and completes every outstanding
/// entry; on a dead one it is a no-op and completes nothing.
pub open spec fn disconnect_transition(m: ConnModel) -> (ConnModel, Seq<u64>) {
    if m.live {
        (ConnModel { live: false, pending: Seq::empty() }, m.pending)
    } else {
        (m, Seq::empty())
    }
}

/// The single point of truth for "is this connection usable": the liveness
/// flag together with the pending-request registry, mutated as one atomic
/// step by the disconnect protocol. Concurrent callers share it behind one
/// lock, so each of them sees a whole transition or none.
pub struct ConnectionState {
    connected: bool,
    pending: PendingMap,
}

impl ConnectionState {
    /// The liveness flag.
    pub closed spec fn is_live(&self) -> bool {
        self.connected
    }

    /// The outstanding request identifiers, in insertion order.
    pub closed spec fn pending_ids(&self) -> Seq<u64> {
        self.pending@
    }

    /// The observable model of this state.
    pub open spec fn model(&self) -> ConnModel {
        ConnModel { live: self.is_live(), pending: self.pending_ids() }
    }

    /// The state of a just-established connection: live, nothing pending.
    pub fn new() -> (s: ConnectionState)
        ensures
            s.is_live(),
            s.pending_ids() == Seq::<u64>::empty(),
    {
        ConnectionState { connected: true, pending: PendingMap::new() }
    }

    /// Read the liveness flag.
    pub fn is_connected(&self) -> (b: bool)
        ensures
            b == self.is_live(),
    {
        self.connected
    }

    /// Record one outstanding request in the registry.
    pub fn register_request(&mut self, id: u64)
        ensures
            final(self).is_live() == old(self).is_live(),
            final(self).pending_ids() == old(self).pending_ids().push(id),
    {
        self.pending.insert(id);
    }

    /// How many requests are outstanding.
    pub fn pending_len(&self) -> (n: usize)
        ensures
            n == self.pending_ids().len(),
    {
        self.pending.len()
    }

    /// The disconnect protocol: if the connection is still live, clear the
    /// flag and return every outstanding entry so the caller can complete
    /// each with a disconnection error; if it is already down, change
    /// nothing and return nothing. Safe to invoke from every failure path.
    pub fn mark_disconnected(&mut self) -> (failed: Vec<u64>)
        ensures
            (final(self).model(), failed@) == disconnect_transition(old(self).model()),
            !final(self).is_live(),
    {
        if self.connected {
            self.connected = false;
            self.pending.drain_all()
        } else {
            Vec::new()
        }
    }
}

/// Law: the disconnect protocol is idempotent. After one invocation the
/// liveness flag is down; a second invocation changes nothing and completes
/// no entry, so across both invocations every entry outstanding at the first
/// is completed exactly once, and none is ever completed twice.
pub proof fn lemma_disconnect_idempotent(m: ConnModel)
    ensures
        ({
            let (m1, f1) = disconnect_transition(m);
            let (m2, f2) = disconnect_transition(m1);
            &&& !m1.live
            &&& m2 == m1
            &&& f2 == Seq::<u64>::empty()
            &&& f1 + f2 == if m.live {
                m.pending
            } else {
                Seq::<u64>::empty()
            }
        }),
{
    let (m1, f1) = disconnect_transition(m);
    let (m2, f2) = disconnect_transition(m1);
    assert(f1 + f2 =~= f1);
}

} // verus!
