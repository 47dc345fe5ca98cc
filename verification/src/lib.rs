//! A deferred log dispatch pipeline: call sites hand a log event to a facade
//! that captures it into an owned snapshot and enqueues it on an ordered,
//! unbounded channel; a single background consumer replays the snapshots into
//! a set-once sink, one at a time, in the order they were enqueued.

use vstd::prelude::*;

mod channel;
mod level;
mod model;
mod pipeline;
mod slot;
mod snapshot;

pub use level::Level;
pub use level::LevelFilter;
pub use level::level_passes;
pub use level::spec_level_passes;
pub use slot::SinkSlot;
pub use slot::lemma_install_once;
pub use slot::spec_set_succeeds;
pub use slot::spec_slot_after;
pub use model::DispatchModel;
pub use model::lemma_exactly_once;
pub use model::lemma_replay_order;
pub use pipeline::DrainConsumer;
pub use pipeline::FacadeLogger;
pub use pipeline::init;
pub use pipeline::try_init;
pub use snapshot::Snapshot;

verus! {

/// Returned when a second installation is attempted after a sink has already
/// been installed.
#[derive(Debug)]
pub struct ThreadedLoggerError(());

impl ThreadedLoggerError {
    pub(crate) fn new() -> ThreadedLoggerError {
        ThreadedLoggerError(())
    }

    /// A human-readable description of the error.
    pub fn message(&self) -> (m: &'static str)
        ensures
            m@ == "attempted to set a logger more than once"@,
    {
        "attempted to set a logger more than once"
    }
}

} // verus!
