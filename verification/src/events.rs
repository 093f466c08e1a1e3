//! The event taxonomy of the watch loop.
//!
//! Events fall into two classes. *Observed* events are produced only by the
//! dispatcher from raw filesystem or repository notifications; *derived*
//! events are produced only by the handler as a consequence of processing an
//! earlier event. Every variant is self-contained: it carries the paths and
//! content snapshots it needs, so handling never re-reads mutable external
//! state.

use vstd::prelude::*;

verus! {

/// One thing that happened (observed) or that must happen (derived).
///
/// The catalog is finite and rank-decreasing: handling an event only ever
/// emits events of strictly smaller rank, so a burst of observed events
/// quiesces after finitely many handling passes.
#[verifier::ext_equal]
#[derive(Clone, Debug)]
pub enum Event {
    /// Observed: a file under the project root has new content.
    FileChange { path: String, content: Vec<u8> },
    /// Observed: the repository's head moved; carries the raw content of
    /// the head reference file.
    HeadChange { head: Vec<u8> },
    /// Observed: an explicit or timer-driven request to close the
    /// current session at the next opportunity.
    Flush,
    /// Derived: the search index must record this content for this path.
    IndexContent { path: String, content: Vec<u8> },
    /// Derived: the currently open session must be closed and a fresh one
    /// opened in its place.
    SessionFlush,
}

/// Outward notification of a durable effect, forwarded to the owner's
/// application-wide channel after the corresponding handling succeeded.
#[derive(Clone, Debug)]
pub enum Notification {
    /// A delta was appended to the given session for the given path.
    DeltaRecorded { session: u64, path: String },
    /// The given session was closed.
    SessionClosed { session: u64 },
}

/// Cascade rank. Handling an event only emits events of strictly smaller
/// rank; events of rank zero emit nothing.
pub open spec fn rank(e: Event) -> nat {
    match e {
        Event::FileChange { .. } => 2,
        Event::HeadChange { .. } => 2,
        Event::Flush => 2,
        Event::IndexContent { .. } => 1,
        Event::SessionFlush => 1,
    }
}

/// True of the variants only the dispatcher produces.
pub open spec fn is_observed(e: Event) -> bool {
    match e {
        Event::FileChange { .. } => true,
        Event::HeadChange { .. } => true,
        Event::Flush => true,
        Event::IndexContent { .. } => false,
        Event::SessionFlush => false,
    }
}

/// True of the variants only the handler produces.
pub open spec fn is_derived(e: Event) -> bool {
    !is_observed(e)
}

} // verus!
