//! The sink slot: a set-once holder for the installed sink.
//!
//! The slot is set at most once for its whole lifetime; every later attempt
//! to set it fails without altering the value already installed. Replay reads
//! the slot, it never rewrites it. Process-wide sharing of a slot (behind a
//! lock or a static cell) is the caller's concern; the set-once arbitration
//! itself is decided here.

use vstd::prelude::*;

use crate::ThreadedLoggerError;

verus! {

/// What a slot holds after an attempt to set it to `sink`: the sink if the
/// slot was still empty, the previously installed value otherwise.
pub open spec fn spec_slot_after<T>(pre: Option<T>, sink: T) -> Option<T> {
    if pre is None {
        Some(sink)
    } else {
        pre
    }
}

/// Whether an attempt to set a slot in state `pre` succeeds: exactly when the
/// slot is still empty.
pub open spec fn spec_set_succeeds<T>(pre: Option<T>) -> bool {
    pre is None
}

/// Set-once holder of the installed sink.
pub struct SinkSlot<T> {
    value: Option<T>,
}

impl<T> SinkSlot<T> {
    /// The installed sink, if any.
    pub closed spec fn sink(self) -> Option<T> {
        self.value
    }

    /// Creates an empty slot, ready for one installation.
    pub fn new() -> (slot: SinkSlot<T>)
        ensures
            slot.sink() is None,
    {
        SinkSlot { value: None }
    }

    /// Installs `sink` if the slot is still empty; fails, leaving the slot
    /// untouched, if a sink is already installed. Succeeds if and only if the
    /// slot was empty, so over any series of calls at most one succeeds.
    pub fn set(&mut self, sink: T) -> (r: Result<(), ThreadedLoggerError>)
        ensures
            final(self).sink() == spec_slot_after(old(self).sink(), sink),
            r is Ok <==> spec_set_succeeds(old(self).sink()),
    {
        if self.value.is_some() {
            Err(ThreadedLoggerError::new())
        } else {
            self.value = Some(sink);
            Ok(())
        }
    }

    /// Read access to the installed sink, for replay; never clears or
    /// replaces the value.
    pub fn get(&self) -> (r: Option<&T>)
        ensures
            r is Some <==> self.sink() is Some,
            r is Some ==> *r->0 == self.sink()->0,
    {
        self.value.as_ref()
    }
}

/// Install-once law: starting from an empty slot, of two installation
/// attempts — first `winner`, then `loser` — exactly the first succeeds, and
/// after both the slot holds `winner`. Two racing installs serialize into one
/// of the two orders, so instantiating this law with the sinks in either
/// order covers both outcomes of the race.
pub proof fn lemma_install_once<T>(winner: T, loser: T)
    ensures
        spec_set_succeeds(Option::<T>::None),
        !spec_set_succeeds(spec_slot_after(Option::<T>::None, winner)),
        spec_slot_after(spec_slot_after(Option::<T>::None, winner), loser) == Some(winner),
{
}

} // verus!
