//! A per-project background core that turns raw filesystem mutations into a
//! durable history of edits: bounded recording periods ("sessions") made of
//! ordered incremental changes ("deltas").
//!
//! The library holds the verified logic: the event taxonomy, the per-event
//! handler with its modeled collaborator stores, the dispatcher's
//! classification of raw notifications, the single-consumer event loop, and
//! the archive path planning. The surrounding process (thread spawning,
//! actual disk access, waiting on the shared channels) stays outside and
//! feeds the library plain values.

use vstd::prelude::*;

pub mod channel;
pub mod deltas;
pub mod dispatchers;
pub mod events;
pub mod handlers;
pub mod kvlist;
pub mod projects;
pub mod watcher;
pub mod zip;

pub use events::Event;
pub use events::Notification;
pub use watcher::Watcher;

verus! {

/// The largest cascade rank any event carries; observed events carry it.
pub const TOP_RANK: u64 = 2;

/// Ranks are bounded, so a cascade of strictly rank-decreasing follow-up
/// events dies out after at most `TOP_RANK` passes per observed event.
pub proof fn lemma_rank_bounded(e: Event)
    ensures
        events::rank(e) <= TOP_RANK,
{
}

} // verus!
