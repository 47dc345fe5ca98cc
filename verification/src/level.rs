//! Severity levels and the process-wide severity filter.
//!
//! Levels form an ordered scale where more severe sorts first:
//! `Error < Warn < Info < Debug < Trace`.

use vstd::prelude::*;

verus! {

/// Severity of one log event; more severe sorts first.
#[derive(Clone, Copy, PartialEq, Eq, Structural, Debug)]
pub enum Level {
    Error,
    Warn,
    Info,
    Debug,
    Trace,
}

/// Process-wide severity ceiling consulted by enablement checks; `Off`
/// silences everything, `Trace` lets everything through.
#[derive(Clone, Copy, PartialEq, Eq, Structural, Debug)]
pub enum LevelFilter {
    Off,
    Error,
    Warn,
    Info,
    Debug,
    Trace,
}

impl Level {
    /// Position on the severity scale: `Error` is 0, the most severe.
    pub open spec fn rank(self) -> int {
        match self {
            Level::Error => 0,
            Level::Warn => 1,
            Level::Info => 2,
            Level::Debug => 3,
            Level::Trace => 4,
        }
    }
}

impl LevelFilter {
    /// How many levels the filter admits, counted from the most severe:
    /// 0 for `Off`, 5 for `Trace`.
    pub open spec fn admitted(self) -> int {
        match self {
            LevelFilter::Off => 0,
            LevelFilter::Error => 1,
            LevelFilter::Warn => 2,
            LevelFilter::Info => 3,
            LevelFilter::Debug => 4,
            LevelFilter::Trace => 5,
        }
    }
}

/// Whether an event at `level` passes the severity ceiling `filter`.
pub open spec fn spec_level_passes(level: Level, filter: LevelFilter) -> bool {
    level.rank() < filter.admitted()
}

/// Decides whether an event at `level` is admitted under the ceiling `filter`:
/// an event passes exactly when its level is at least as severe as the filter
/// allows, and nothing passes `Off`.
pub fn level_passes(level: Level, filter: LevelFilter) -> (enabled: bool)
    ensures
        enabled == spec_level_passes(level, filter),
{
    let rank: u8 = match level {
        Level::Error => 0,
        Level::Warn => 1,
        Level::Info => 2,
        Level::Debug => 3,
        Level::Trace => 4,
    };
    let admitted: u8 = match filter {
        LevelFilter::Off => 0,
        LevelFilter::Error => 1,
        LevelFilter::Warn => 2,
        LevelFilter::Info => 3,
        LevelFilter::Debug => 4,
        LevelFilter::Trace => 5,
    };
    rank < admitted
}

} // verus!
