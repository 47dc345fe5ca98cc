//! The trusted boundary around the dispatch channel and the global filter.
//!
//! The dispatch conduit is an unbounded, multi-producer single-consumer FIFO
//! channel of snapshots. Its internal synchronization is the only
//! atomic-coordination point shared between producers and the consumer, so
//! nothing about its contents can be stated here: two observations of the
//! same channel may differ. The verified code around these items therefore
//! states only what holds of every outcome.

use vstd::prelude::*;

use crate::level::LevelFilter;
use crate::snapshot::Snapshot;

verus! {

#[verifier::external_type_specification]
#[verifier::external_body]
#[verifier::reject_recursive_types(T)]
pub struct ExSender<T>(crossbeam::channel::Sender<T>);

#[verifier::external_type_specification]
#[verifier::external_body]
#[verifier::reject_recursive_types(T)]
pub struct ExReceiver<T>(crossbeam::channel::Receiver<T>);

/// Relies on crossbeam::channel::unbounded: creates a channel of unbounded
/// capacity whose receiver sees messages in an order consistent with each
/// sender's own send order.
#[verifier::external_body]
pub(crate) fn channel_unbounded() -> (ends: (
    crossbeam::channel::Sender<Snapshot>,
    crossbeam::channel::Receiver<Snapshot>,
))
{
    crossbeam::channel::unbounded()
}

/// Relies on crossbeam::channel::Sender::send: on an unbounded channel it
/// never blocks, and it fails — returning the message — only when every
/// receiver has been dropped. Returns whether the snapshot was accepted.
#[verifier::external_body]
pub(crate) fn send_snapshot(
    sender: &crossbeam::channel::Sender<Snapshot>,
    snap: Snapshot,
) -> (accepted: bool)
{
    sender.send(snap).is_ok()
}

/// Relies on crossbeam::channel::Receiver::recv: blocks until a message is
/// available, and fails only when the channel is empty and every sender has
/// been dropped. Returns the next snapshot, or `None` on that clean
/// disconnection.
#[verifier::external_body]
pub(crate) fn recv_snapshot(
    receiver: &crossbeam::channel::Receiver<Snapshot>,
) -> (next: Option<Snapshot>)
{
    receiver.recv().ok()
}

/// Relies on log::set_max_level: stores the given ceiling as the process-wide
/// maximum log level consulted by the log facade's enablement checks.
#[verifier::external_body]
pub(crate) fn apply_global_filter(filter: LevelFilter) {
    log::set_max_level(match filter {
        LevelFilter::Off => log::LevelFilter::Off,
        LevelFilter::Error => log::LevelFilter::Error,
        LevelFilter::Warn => log::LevelFilter::Warn,
        LevelFilter::Info => log::LevelFilter::Info,
        LevelFilter::Debug => log::LevelFilter::Debug,
        LevelFilter::Trace => log::LevelFilter::Trace,
    });
}

} // verus!
