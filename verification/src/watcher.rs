//! The orchestrator: one dispatcher and one handler per project, one queue,
//! one consumer.
//!
//! Two state machine states: running and stopped, and the transition happens
//! at most once. While running, the loop takes one event at a time from the
//! front of the queue, hands it to the handler, and appends every follow-up
//! event to the back of the same queue, so a single filesystem change can
//! ripple through several handling passes before quiescing. A failed event
//! is dropped after being counted, never retried, and never terminates the
//! loop.
//!
//! `run_burst` drains a queue the library itself holds and is described
//! exactly by the spec-level `run_queue`. `poll` performs one iteration of
//! the live loop over the shared channels; since another thread feeds those
//! channels, its contract states what holds of every outcome. The owner
//! drives `poll` from its own loop and spawns the observation task itself:
//! waiting on a channel never returns by itself, so the library cannot
//! promise an end to it.

use vstd::prelude::*;

use crate::channel::Selected;
use crate::channel::next_selected;
use crate::channel::send_event;
use crate::dispatchers::Dispatcher;
use crate::events::Event;
use crate::events::is_derived;
use crate::events::is_observed;
use crate::events::rank;
use crate::handlers::Handler;
use crate::handlers::HandlerModel;
use crate::handlers::transition;

verus! {

/// The follow-up events one handling step feeds back into the queue:
/// what the handler emitted, or nothing when it failed.
pub open spec fn effective_out(m: HandlerModel, e: Event) -> Seq<Event> {
    if transition(m, e).err is None {
        transition(m, e).out
    } else {
        Seq::empty()
    }
}

/// The work a queue still costs: every queued event counts once, plus once
/// per rank for the follow-up events it can still spawn.
pub open spec fn qmeasure(q: Seq<Event>) -> nat
    decreases q.len(),
{
    if q.len() == 0 {
        0
    } else {
        1 + rank(q[0]) + qmeasure(q.drop_first())
    }
}

/// The measure adds up over concatenation.
pub proof fn lemma_qmeasure_concat(a: Seq<Event>, b: Seq<Event>)
    ensures
        qmeasure(a + b) == qmeasure(a) + qmeasure(b),
    decreases a.len(),
{
    if a.len() == 0 {
        assert(a + b =~= b);
    } else {
        assert((a + b).drop_first() =~= a.drop_first() + b);
        lemma_qmeasure_concat(a.drop_first(), b);
    }
}

/// Processing one queue element strictly shrinks the measure.
pub proof fn lemma_step_measure(m: HandlerModel, q: Seq<Event>)
    requires
        q.len() > 0,
    ensures
        qmeasure(q.drop_first() + effective_out(m, q[0])) < qmeasure(q),
{
    let out = effective_out(m, q[0]);
    crate::handlers::lemma_transition_cascade(m, q[0]);
    lemma_qmeasure_concat(q.drop_first(), out);
    if out.len() == 1 {
        assert(out.drop_first() =~= Seq::<Event>::empty());
        assert(qmeasure(Seq::<Event>::empty()) == 0);
        assert(qmeasure(out) == 1 + rank(out[0]));
        assert(rank(out[0]) < rank(q[0]));
    }
}

/// What draining a queue to quiescence does: the state it reaches, and the
/// events it handed to the handler, in order.
#[verifier::ext_equal]
pub struct Run {
    pub model: HandlerModel,
    pub handled: Seq<Event>,
}

/// The exact meaning of draining a queue: take the front event, handle it,
/// append its follow-up events to the back, repeat until empty. The measure
/// shrinks at every step, so a finite burst always quiesces.
pub open spec fn run_queue(m: HandlerModel, q: Seq<Event>) -> Run
    decreases qmeasure(q),
        via run_queue_decreases
{
    if q.len() == 0 {
        Run { model: m, handled: Seq::empty() }
    } else {
        let rest = run_queue(
            transition(m, q[0]).next,
            q.drop_first() + effective_out(m, q[0]),
        );
        Run { model: rest.model, handled: seq![q[0]] + rest.handled }
    }
}

#[via_fn]
proof fn run_queue_decreases(m: HandlerModel, q: Seq<Event>) {
    if q.len() > 0 {
        lemma_step_measure(m, q);
    }
}

/// The class test of the observed events, as a value.
pub open spec fn observed_pred() -> spec_fn(Event) -> bool {
    |e: Event| is_observed(e)
}

/// Cascade termination: a burst of observed events is always fully drained
/// after finitely many handling passes — at most one plus the top rank per
/// queued event.
pub proof fn lemma_finite_cascade(m: HandlerModel, q: Seq<Event>)
    ensures
        run_queue(m, q).handled.len() == qmeasure(q) - qmeasure_left(m, q),
        run_queue(m, q).handled.len() <= qmeasure(q),
        qmeasure(q) <= 3 * q.len(),
    decreases qmeasure(q),
{
    lemma_qmeasure_linear(q);
    if q.len() > 0 {
        lemma_step_measure(m, q);
        lemma_finite_cascade(
            transition(m, q[0]).next,
            q.drop_first() + effective_out(m, q[0]),
        );
    }
}

/// The measure left over when the queue has drained; only a bookkeeping
/// device for stating how many events were handled.
pub open spec fn qmeasure_left(m: HandlerModel, q: Seq<Event>) -> nat
    decreases qmeasure(q),
        via qmeasure_left_decreases
{
    if q.len() == 0 {
        0
    } else {
        let step_cost = qmeasure(q) - qmeasure(
            q.drop_first() + effective_out(m, q[0]),
        ) - 1;
        (step_cost + qmeasure_left(
            transition(m, q[0]).next,
            q.drop_first() + effective_out(m, q[0]),
        )) as nat
    }
}

#[via_fn]
proof fn qmeasure_left_decreases(m: HandlerModel, q: Seq<Event>) {
    if q.len() > 0 {
        lemma_step_measure(m, q);
    }
}

/// No event costs more than one plus the top rank.
pub proof fn lemma_qmeasure_linear(q: Seq<Event>)
    ensures
        qmeasure(q) <= 3 * q.len(),
    decreases q.len(),
{
    if q.len() > 0 {
        lemma_qmeasure_linear(q.drop_first());
    }
}

/// Every observed event in the queue is handled exactly once, and handling
/// order is arrival order: the observed events among what was handled are
/// exactly the observed events of the queue, in the queue's order. Derived
/// events are interleaved behind them, never in front.
pub proof fn lemma_arrival_order_preserved(m: HandlerModel, q: Seq<Event>)
    ensures
        run_queue(m, q).handled.filter(observed_pred()) == q.filter(observed_pred()),
    decreases qmeasure(q),
{
    let pred = observed_pred();
    if q.len() == 0 {
        assert(run_queue(m, q).handled.filter(pred) =~= q.filter(pred));
    } else {
        let head = seq![q[0]];
        let out = effective_out(m, q[0]);
        let q2 = q.drop_first() + out;
        lemma_step_measure(m, q);
        lemma_arrival_order_preserved(transition(m, q[0]).next, q2);
        Seq::filter_distributes_over_add(head, run_queue(transition(m, q[0]).next, q2).handled, pred);
        Seq::filter_distributes_over_add(q.drop_first(), out, pred);
        Seq::filter_distributes_over_add(head, q.drop_first(), pred);
        crate::handlers::lemma_transition_cascade(m, q[0]);
        assert(out.filter(pred) =~= Seq::<Event>::empty()) by {
            if out.len() == 1 {
                reveal_with_fuel(Seq::filter, 2);
                assert(out.drop_last() =~= Seq::<Event>::empty());
                assert(is_derived(out[0]));
            } else {
                assert(out =~= Seq::<Event>::empty());
                reveal_with_fuel(Seq::filter, 1);
            }
        }
        assert(head + q.drop_first() =~= q);
        assert(run_queue(m, q).handled =~= head + run_queue(transition(m, q[0]).next, q2).handled);
        assert(run_queue(m, q).handled.filter(pred) =~= q.filter(pred));
    }
}

/// Draining a queue keeps the session ledger consistent, whatever events
/// arrive and in whatever order: session identifiers are never reused.
pub proof fn lemma_run_keeps_ledger(m: HandlerModel, q: Seq<Event>)
    requires
        crate::handlers::session_ledger_invariant(m),
    ensures
        crate::handlers::session_ledger_invariant(run_queue(m, q).model),
    decreases qmeasure(q),
{
    if q.len() > 0 {
        lemma_step_measure(m, q);
        crate::handlers::lemma_session_ledger_preserved(m, q[0]);
        lemma_run_keeps_ledger(
            transition(m, q[0]).next,
            q.drop_first() + effective_out(m, q[0]),
        );
    }
}

/// Draining a queue keeps the recorded history lossless: at quiescence,
/// replaying any path's deltas in order still reproduces exactly its last
/// recorded content.
pub proof fn lemma_run_keeps_history(m: HandlerModel, q: Seq<Event>)
    requires
        crate::handlers::history_faithful(m),
    ensures
        crate::handlers::history_faithful(run_queue(m, q).model),
    decreases qmeasure(q),
{
    if q.len() > 0 {
        lemma_step_measure(m, q);
        crate::handlers::lemma_history_faithful_preserved(m, q[0]);
        lemma_run_keeps_history(
            transition(m, q[0]).next,
            q.drop_first() + effective_out(m, q[0]),
        );
    }
}

/// One watcher per project: the event loop's state, its dispatcher, its
/// handler, and the owner's stop channel.
pub struct Watcher {
    /// The project this watcher serves.
    pub project_id: String,
    /// The observation owner for this project.
    pub dispatcher: Dispatcher,
    /// The reactor for this project.
    pub handler: Handler,
    /// The owner's stop signal; one message or a disconnect ends the loop.
    pub stop: crossbeam_channel::Receiver<()>,
    /// Whether the loop reached its terminal state.
    pub stopped: bool,
    /// Every event handed to the handler so far, in handling order.
    pub handled: Ghost<Seq<Event>>,
}

impl Watcher {
    /// The handler's stores are well formed.
    pub open spec fn wf(&self) -> bool {
        self.handler.wf()
    }

    /// A running watcher for one project, with fresh collaborator state.
    pub fn new(project_id: String, project_path: String, stop: crossbeam_channel::Receiver<()>)
        -> (r: Watcher)
        ensures
            r.wf(),
            !r.stopped,
            r.handled@ == Seq::<Event>::empty(),
            r.project_id@ == project_id@,
            r.dispatcher.project_id@ == project_id@,
            r.dispatcher.project_path@ == project_path@,
            !r.dispatcher.stopped,
            r.dispatcher.stop_requests@ == 0,
            r.handler@.project_id == project_id@,
            r.handler@.next_session == 0,
            r.handler@.current is None,
            r.handler@.closed == Seq::<u64>::empty(),
            r.handler@.deltas.len() == 0,
            r.handler@.files == Map::<Seq<char>, Seq<u8>>::empty(),
            r.handler@.index == Map::<Seq<char>, Seq<u8>>::empty(),
            r.handler@.outbox.len() == 0,
    {
        let dispatcher_id = project_id.clone();
        let handler_id = project_id.clone();
        Watcher {
            project_id,
            dispatcher: Dispatcher::new(dispatcher_id, project_path),
            handler: Handler::new(handler_id),
            stop,
            stopped: false,
            handled: Ghost(Seq::empty()),
        }
    }

    /// Drains a burst of already-observed events to quiescence, follow-up
    /// events included, one at a time in arrival order: exactly what
    /// `run_queue` says. Terminates for every finite burst.
    pub fn run_burst(&mut self, observed: Vec<Event>)
        requires
            old(self).wf(),
            !old(self).stopped,
        ensures
            final(self).wf(),
            !final(self).stopped,
            final(self).project_id == old(self).project_id,
            final(self).dispatcher == old(self).dispatcher,
            final(self).handler@ == run_queue(old(self).handler@, observed@).model,
            final(self).handled@ == old(self).handled@ + run_queue(
                old(self).handler@,
                observed@,
            ).handled,
    {
        let ghost m0 = self.handler@;
        let ghost run = run_queue(m0, observed@);
        let mut queue = observed;
        proof {
            assert(self.handled@ + run_queue(self.handler@, queue@).handled =~= old(
                self,
            ).handled@ + run.handled);
        }
        while queue.len() > 0
            invariant
                self.wf(),
                !self.stopped,
                self.project_id == old(self).project_id,
                self.dispatcher == old(self).dispatcher,
                run == run_queue(m0, observed@),
                run_queue(self.handler@, queue@).model == run.model,
                self.handled@ + run_queue(self.handler@, queue@).handled == old(
                    self,
                ).handled@ + run.handled,
            decreases qmeasure(queue@),
        {
            let ghost q_pre = queue@;
            let ghost m_pre = self.handler@;
            let e = queue.remove(0);
            let ghost ge = e;
            proof {
                assert(q_pre[0] == ge);
                assert(queue@ =~= q_pre.drop_first());
                lemma_step_measure(m_pre, q_pre);
            }
            match self.handler.handle(e) {
                Ok(mut outs) => {
                    let ghost q_mid = queue@;
                    let ghost outs0 = outs@;
                    while outs.len() > 0
                        invariant
                            queue@ + outs@ == q_mid + outs0,
                        decreases outs@.len(),
                    {
                        let ev = outs.remove(0);
                        queue.push(ev);
                        proof {
                            assert(queue@ + outs@ =~= q_mid + outs0);
                        }
                    }
                    proof {
                        assert(queue@ =~= queue@ + outs@);
                        assert(queue@ =~= q_pre.drop_first() + effective_out(m_pre, ge));
                    }
                },
                Err(_) => {
                    proof {
                        assert(queue@ =~= q_pre.drop_first() + effective_out(m_pre, ge));
                    }
                },
            }
            proof {
                self.handled@ = self.handled@.push(ge);
                assert(run_queue(m_pre, q_pre).model == run_queue(self.handler@, queue@).model);
                assert(run_queue(m_pre, q_pre).handled =~= seq![ge] + run_queue(
                    self.handler@,
                    queue@,
                ).handled);
                assert(self.handled@ + run_queue(self.handler@, queue@).handled =~= old(
                    self,
                ).handled@ + run.handled);
            }
        }
        proof {
            assert(queue@ =~= Seq::<Event>::empty());
            assert(run_queue(self.handler@, queue@).handled =~= Seq::<Event>::empty());
            assert(self.handled@ + run_queue(self.handler@, queue@).handled =~= self.handled@);
            assert(final(self).handled@ =~= old(self).handled@ + run.handled);
        }
    }

    /// One iteration of the live loop: waits on the event and stop channels,
    /// handles what arrives, re-publishes follow-up events onto the event
    /// channel, and on the stop signal stops the dispatcher — exactly once —
    /// and reaches the terminal state. Returns whether the loop is done.
    ///
    /// Another thread feeds both channels, so which arm runs is not the
    /// library's choice; the contract states what holds of every outcome. A
    /// handling failure drops the failed event and keeps the loop alive; a
    /// transport failure on the event channel does the same.
    pub fn poll(
        &mut self,
        events_tx: &crossbeam_channel::Sender<Event>,
        events_rx: &crossbeam_channel::Receiver<Event>,
    ) -> (done: bool)
        requires
            old(self).wf(),
            !old(self).stopped,
        ensures
            final(self).wf(),
            done == final(self).stopped,
            final(self).project_id == old(self).project_id,
            final(self).stopped ==> (final(self).dispatcher.stopped
                && final(self).dispatcher.stop_requests@ == old(self).dispatcher.stop_requests@ + 1
                && final(self).handler == old(self).handler
                && final(self).handled@ == old(self).handled@),
            !final(self).stopped ==> final(self).dispatcher == old(self).dispatcher,
            !final(self).stopped ==> ((final(self).handler == old(self).handler
                && final(self).handled@ == old(self).handled@) || (exists|e: Event|
                final(self).handler@ == transition(old(self).handler@, e).next
                    && final(self).handled@ == old(self).handled@.push(e))),
    {
        match next_selected(events_rx, &self.stop) {
            Selected::Incoming(e) => {
                let ghost ge = e;
                match self.handler.handle(e) {
                    Ok(mut outs) => {
                        while outs.len() > 0
                            decreases outs@.len(),
                        {
                            let ev = outs.remove(0);
                            let _ = send_event(events_tx, ev);
                        }
                    },
                    Err(_) => {
                    },
                }
                proof {
                    self.handled@ = self.handled@.push(ge);
                }
                false
            },
            Selected::EventsDown => false,
            Selected::Stop => {
                self.dispatcher.stop();
                self.stopped = true;
                true
            },
        }
    }
}

} // verus!
