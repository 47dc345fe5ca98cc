//! Owned snapshots of log events.
//!
//! A log event arrives with textual fields that may be borrowed from
//! caller-local data valid only for the duration of the logging call. Before
//! such an event can cross an execution-context boundary, every field is
//! copied into an owned [`Snapshot`], so the snapshot outlives the
//! originating call and carries no borrowed references.

use vstd::prelude::*;

use crate::level::Level;

verus! {

/// An owned, self-contained copy of one log event: safe to move across
/// execution contexts, never mutated after creation.
#[derive(Debug)]
pub struct Snapshot {
    /// Severity of the event.
    pub level: Level,
    /// Target of the event, typically the module path of the call site.
    pub target: String,
    /// The message, already rendered to plain text.
    pub message: String,
    /// Module path of the call site, if known.
    pub module: Option<String>,
    /// Source file of the call site, if known.
    pub file: Option<String>,
    /// Source line of the call site, if known.
    pub line: Option<u32>,
}

impl Snapshot {
    /// Captures a log event into an owned snapshot.
    ///
    /// The snapshot is field-for-field equal to the event it was captured
    /// from: level, target, rendered message, module path, file and line all
    /// carry over unchanged, so a later replay of the snapshot reconstructs
    /// exactly the record a direct synchronous call would have produced.
    pub fn capture(
        level: Level,
        target: &str,
        message: &str,
        module: Option<&str>,
        file: Option<&str>,
        line: Option<u32>,
    ) -> (snap: Snapshot)
        ensures
            snap.level == level,
            snap.target@ == target@,
            snap.message@ == message@,
            snap.module is Some <==> module is Some,
            module is Some ==> snap.module->0@ == module->0@,
            snap.file is Some <==> file is Some,
            file is Some ==> snap.file->0@ == file->0@,
            snap.line == line,
    {
        Snapshot {
            level,
            target: target.to_owned(),
            message: message.to_owned(),
            module: match module {
                Some(s) => Some(s.to_owned()),
                None => None,
            },
            file: match file {
                Some(s) => Some(s.to_owned()),
                None => None,
            },
            line,
        }
    }
}

} // verus!
