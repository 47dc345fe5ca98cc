//! The facade logger, the drain consumer, and one-time installation.
//!
//! Installation claims the sink slot exactly once; on success it sets the
//! process-wide severity filter and builds the dispatch channel, handing back
//! a [`FacadeLogger`] for the producer side and a [`DrainConsumer`] for the
//! single background consumer. On failure — the slot already occupied — it
//! returns [`ThreadedLoggerError`] and performs no further side effect: no
//! channel is built and the filter is left as it was.

use vstd::prelude::*;

use crate::ThreadedLoggerError;
use crate::channel::channel_unbounded;
use crate::channel::apply_global_filter;
use crate::channel::recv_snapshot;
use crate::channel::send_snapshot;
use crate::level::Level;
use crate::level::LevelFilter;
use crate::slot::SinkSlot;
use crate::slot::spec_set_succeeds;
use crate::slot::spec_slot_after;
use crate::snapshot::Snapshot;

verus! {

/// The producer side of the dispatch pipeline: captures each log event into
/// an owned snapshot and enqueues it, never blocking on sink execution.
pub struct FacadeLogger {
    sender: crossbeam::channel::Sender<Snapshot>,
}

/// The consumer side of the dispatch pipeline: hands out queued snapshots one
/// at a time, in the order they were enqueued, for replay into the sink.
pub struct DrainConsumer {
    receiver: crossbeam::channel::Receiver<Snapshot>,
}

impl FacadeLogger {
    /// Captures the given log event into an owned [`Snapshot`] — copying
    /// every borrowed field, so nothing of the caller's data is needed after
    /// this call returns — and pushes it onto the dispatch channel. Returns
    /// immediately, never waiting for the sink; the result says whether the
    /// channel accepted the snapshot, which it refuses only after the
    /// consumer side has shut down.
    pub fn log_event(
        &self,
        level: Level,
        target: &str,
        message: &str,
        module: Option<&str>,
        file: Option<&str>,
        line: Option<u32>,
    ) -> (accepted: bool) {
        let snap = Snapshot::capture(level, target, message, module, file, line);
        send_snapshot(&self.sender, snap)
    }
}

impl DrainConsumer {
    /// Waits for the next queued snapshot and returns it; returns `None` only
    /// once every producer handle has been dropped and the queue is empty,
    /// which is the clean shutdown of the pipeline.
    pub fn next_snapshot(&self) -> (next: Option<Snapshot>) {
        recv_snapshot(&self.receiver)
    }
}

/// One-time installation of the dispatch pipeline.
///
/// Claims `slot` for `sink`; the claim succeeds if and only if the slot was
/// still empty, and a failed claim leaves the slot untouched. On success the
/// process-wide severity filter is set to `max_level`, the dispatch channel
/// is built, and both ends of the pipeline are returned so the caller can
/// register the facade and start the consumer. On failure nothing but the
/// returned error happens: no filter change, no channel, no consumer to
/// start.
pub fn try_init<T>(
    slot: &mut SinkSlot<T>,
    sink: T,
    max_level: LevelFilter,
) -> (r: Result<(FacadeLogger, DrainConsumer), ThreadedLoggerError>)
    ensures
        final(slot).sink() == spec_slot_after(old(slot).sink(), sink),
        r is Ok <==> spec_set_succeeds(old(slot).sink()),
{
    match slot.set(sink) {
        Ok(()) => {
            apply_global_filter(max_level);
            let ends = channel_unbounded();
            Ok((FacadeLogger { sender: ends.0 }, DrainConsumer { receiver: ends.1 }))
        },
        Err(e) => Err(e),
    }
}

/// Installation for entry points that have not installed any logger yet:
/// exactly [`try_init`], for callers that know the slot is still empty and
/// would treat a second installation as fatal.
pub fn init<T>(
    slot: &mut SinkSlot<T>,
    sink: T,
    max_level: LevelFilter,
) -> (ends: (FacadeLogger, DrainConsumer))
    requires
        old(slot).sink() is None,
    ensures
        final(slot).sink() == Some(sink),
{
    match try_init(slot, sink, max_level) {
        Ok(ends) => ends,
        Err(_) => vstd::pervasive::unreached(),
    }
}

} // verus!
