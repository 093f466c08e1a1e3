//! Trusted declarations for the shared event channel.
//!
//! The loop's only shared resource is a pair of channels of the
//! `crossbeam_channel` crate: the unbounded event channel (the dispatcher's
//! task appends from outside the library, the loop drains and re-appends)
//! and the owner's stop channel. Another thread can append at any moment, so
//! nothing is assumed here about a channel's contents — only what holds of
//! every outcome of a call.

use vstd::prelude::*;

use crate::events::Event;

verus! {

#[verifier::external_type_specification]
#[verifier::external_body]
#[verifier::reject_recursive_types(T)]
pub struct ExSender<T>(crossbeam_channel::Sender<T>);

#[verifier::external_type_specification]
#[verifier::external_body]
#[verifier::reject_recursive_types(T)]
pub struct ExReceiver<T>(crossbeam_channel::Receiver<T>);

/// What a blocking wait on the two channels came back with.
pub enum Selected {
    /// An event arrived on the event channel.
    Incoming(Event),
    /// The event channel is disconnected: every sender is gone.
    EventsDown,
    /// The stop channel yielded a signal or is disconnected; either way the
    /// owner no longer drives this loop.
    Stop,
}

/// Relies on crossbeam_channel::Sender::send: on an unbounded channel it
/// returns promptly; it fails only when every receiver is gone, and then
/// hands the unsent message back inside the error.
#[verifier::external_body]
pub(crate) fn send_event(tx: &crossbeam_channel::Sender<Event>, e: Event) -> (r: Result<
    (),
    Event,
>)
    ensures
        r matches Err(back) ==> back == e,
{
    tx.send(e).map_err(|err| err.0)
}

/// Relies on crossbeam_channel::Select (new, recv, select) and
/// crossbeam_channel::SelectedOperation (index, recv): blocks until one of
/// the two channels is ready, picking fairly when both are, then completes
/// the receive on the ready one. A receive error means the channel is
/// disconnected. Every outcome is possible at any call, since other threads
/// feed both channels.
#[verifier::external_body]
pub(crate) fn next_selected(
    events: &crossbeam_channel::Receiver<Event>,
    stop: &crossbeam_channel::Receiver<()>,
) -> (r: Selected) {
    let mut sel = crossbeam_channel::Select::new();
    sel.recv(events);
    sel.recv(stop);
    let op = sel.select();
    if op.index() == 0 {
        match op.recv(events) {
            Ok(e) => Selected::Incoming(e),
            Err(_) => Selected::EventsDown,
        }
    } else {
        let _ = op.recv(stop);
        Selected::Stop
    }
}

} // verus!
