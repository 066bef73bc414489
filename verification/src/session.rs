//! What the session registry reports back when a client attaches.

use vstd::prelude::*;

verus! {

/// How the registry matched an attaching client against its sessions.
#[derive(Debug, Clone, Copy, PartialEq, Eq, Structural)]
pub enum AttachKind {
    /// No session existed for the client; one was created.
    Fresh,
    /// A session existed and its replay window covers the cursor.
    Resumed,
    /// A session existed but the cursor predates its replay window.
    DriftReload,
}

/// The registry's answer to an attach request.
#[derive(Debug, Clone, Copy, PartialEq, Eq, Structural)]
pub struct ResolvedAttach {
    pub kind: AttachKind,
    /// Highest sequence number the session has produced.
    pub current_seq: u64,
    /// Lowest sequence number still held for replay.
    pub floor_seq: u64,
    /// The cursor replay would start from.
    pub effective_last_seen: Option<u64>,
}

} // verus!
