//! Sequential model of the dispatch pipeline.
//!
//! The real conduit is a concurrent channel whose contents cannot be spoken
//! of directly (two observations of it may differ). This model states, in
//! verified form, the FIFO contract that the conduit is trusted to provide
//! to its single consumer: enqueueing appends, draining removes the oldest,
//! and nothing else touches the queue. The ordering and delivery laws of the
//! pipeline are proved here over the model's history.

use vstd::prelude::*;

use crate::snapshot::Snapshot;

verus! {

/// One producer's dispatch queue together with the full history of what has
/// been enqueued and what the consumer has replayed so far.
pub struct DispatchModel {
    pending_items: Vec<Snapshot>,
    replayed_history: Ghost<Seq<Snapshot>>,
}

impl DispatchModel {
    /// Everything the consumer has replayed so far, in replay order.
    pub closed spec fn replayed(self) -> Seq<Snapshot> {
        self.replayed_history@
    }

    /// Everything enqueued and not yet replayed, oldest first.
    pub closed spec fn pending(self) -> Seq<Snapshot> {
        self.pending_items@
    }

    /// Everything ever enqueued, oldest first.
    pub open spec fn enqueued(self) -> Seq<Snapshot> {
        self.replayed() + self.pending()
    }

    /// Creates a pipeline with an empty queue and an empty history.
    pub fn new() -> (m: DispatchModel)
        ensures
            m.replayed() == Seq::<Snapshot>::empty(),
            m.pending() == Seq::<Snapshot>::empty(),
    {
        DispatchModel { pending_items: Vec::new(), replayed_history: Ghost(Seq::empty()) }
    }

    /// Enqueues one snapshot: it joins the queue behind everything enqueued
    /// before it, and nothing already queued or replayed changes.
    pub fn enqueue(&mut self, snap: Snapshot)
        ensures
            final(self).pending() == old(self).pending().push(snap),
            final(self).replayed() == old(self).replayed(),
            final(self).enqueued() == old(self).enqueued().push(snap),
    {
        self.pending_items.push(snap);
        proof {
            assert(self.enqueued() =~= old(self).enqueued().push(snap));
        }
    }

    /// One consumer step: removes and returns the oldest pending snapshot,
    /// appending it to the replay history; returns `None`, changing nothing,
    /// when the queue is empty. Each snapshot is replayed at the moment it is
    /// removed, so it is replayed exactly once, and replay order is queue
    /// order.
    pub fn drain_next(&mut self) -> (next: Option<Snapshot>)
        ensures
            final(self).enqueued() == old(self).enqueued(),
            old(self).pending().len() == 0 ==> next is None,
            old(self).pending().len() == 0 ==> final(self).pending() == old(self).pending(),
            old(self).pending().len() == 0 ==> final(self).replayed() == old(self).replayed(),
            old(self).pending().len() > 0 ==> next == Some(old(self).pending()[0]),
            old(self).pending().len() > 0 ==> final(self).pending() == old(self).pending().skip(1),
            old(self).pending().len() > 0 ==> final(self).replayed() == old(self).replayed().push(
                old(self).pending()[0],
            ),
    {
        if self.pending_items.len() == 0 {
            None
        } else {
            let snap = self.pending_items.remove(0);
            self.replayed_history = Ghost(self.replayed_history@.push(snap));
            proof {
                assert(self.pending() =~= old(self).pending().skip(1));
                assert(self.enqueued() =~= old(self).enqueued());
            }
            Some(snap)
        }
    }
}

/// Delivery law: at every point, what has been replayed and what is still
/// pending together are exactly what was enqueued — no snapshot is lost, none
/// is duplicated — and once the queue is empty, every enqueued snapshot has
/// been replayed.
pub proof fn lemma_exactly_once(m: DispatchModel)
    ensures
        m.replayed() + m.pending() == m.enqueued(),
        m.pending().len() == 0 ==> m.replayed() == m.enqueued(),
{
    if m.pending().len() == 0 {
        assert(m.replayed() + m.pending() =~= m.replayed());
    }
}

/// Ordering law: at every point, the replay history is exactly the oldest
/// stretch of the enqueue history — the sink receives snapshots in precisely
/// the order the producer's calls enqueued them.
pub proof fn lemma_replay_order(m: DispatchModel)
    ensures
        m.replayed() == m.enqueued().take(m.replayed().len() as int),
{
    assert(m.replayed() =~= m.enqueued().take(m.replayed().len() as int));
}

} // verus!
