//! The per-project reactor: one event in, collaborator-store mutations and
//! zero or more follow-up events out.
//!
//! The handler owns modeled collaborator state — the session ledger, the
//! delta ledger, the last recorded content per path, the search index, and
//! the outward notification outbox. Every call is described exactly by the
//! spec-level `transition` function, so the loop's laws (idempotent replay of
//! derived events, failure isolation, finite cascades) are proved once over
//! `transition` and hold of the executable handler.

use vstd::prelude::*;

use crate::deltas::DeltaRecord;
use crate::deltas::apply_delta;
use crate::deltas::lemma_delta_reconstructs;
use crate::deltas::bytes_eq;
use crate::deltas::copy_bytes;
use crate::deltas::diff;
use crate::deltas::lcp;
use crate::events::Event;
use crate::events::Notification;
use crate::events::is_derived;
use crate::events::rank;
use crate::kvlist::KvStore;

verus! {

/// The currently open session: its identifier, and whether any delta has
/// been recorded in it yet.
#[derive(Clone, Copy, Debug, PartialEq, Eq, Structural)]
pub struct SessionHandle {
    pub id: u64,
    pub dirty: bool,
}

/// Which stage of handling failed.
#[derive(Clone, Copy, Debug, PartialEq, Eq, Structural)]
pub enum HandleError {
    /// The event names an empty path, which no store can key.
    MalformedPath,
    /// Every session identifier has been used; no new session can open.
    SessionExhausted,
}

/// A recorded delta, as the ledger remembers it.
#[verifier::ext_equal]
pub struct DeltaModel {
    pub session: u64,
    pub path: Seq<char>,
    pub keep: nat,
    pub insert: Seq<u8>,
}

/// An outward notification, as the outbox remembers it.
#[verifier::ext_equal]
pub enum NoteModel {
    DeltaRecorded { session: u64, path: Seq<char> },
    SessionClosed { session: u64 },
}

/// The abstract collaborator state one handler owns.
#[verifier::ext_equal]
pub struct HandlerModel {
    pub project_id: Seq<char>,
    pub next_session: u64,
    pub current: Option<SessionHandle>,
    pub closed: Seq<u64>,
    pub deltas: Seq<DeltaModel>,
    pub files: Map<Seq<char>, Seq<u8>>,
    pub index: Map<Seq<char>, Seq<u8>>,
    pub outbox: Seq<NoteModel>,
}

/// What one handling step does: the state it leaves, the follow-up events it
/// emits, and the failure it reports, if any. On failure the state is left
/// untouched and nothing is emitted.
#[verifier::ext_equal]
pub struct Transition {
    pub next: HandlerModel,
    pub out: Seq<Event>,
    pub err: Option<HandleError>,
}

/// The last recorded content for a path: what the file store holds, or empty
/// when the path was never recorded.
pub open spec fn recorded_content(m: HandlerModel, path: Seq<char>) -> Seq<u8> {
    if m.files.contains_key(path) {
        m.files[path]
    } else {
        Seq::<u8>::empty()
    }
}

/// The exact meaning of handling one event against one abstract state.
pub open spec fn transition(m: HandlerModel, e: Event) -> Transition {
    match e {
        Event::FileChange { path, content } => {
            if path@.len() == 0 {
                Transition { next: m, out: Seq::empty(), err: Some(HandleError::MalformedPath) }
            } else if recorded_content(m, path@) == content@ {
                Transition { next: m, out: Seq::empty(), err: None }
            } else if m.current is None && m.next_session == u64::MAX {
                Transition { next: m, out: Seq::empty(), err: Some(HandleError::SessionExhausted) }
            } else {
                let sid = if m.current is Some {
                    m.current->Some_0.id
                } else {
                    m.next_session
                };
                let next_session = if m.current is Some {
                    m.next_session
                } else {
                    (m.next_session + 1) as u64
                };
                let old_content = recorded_content(m, path@);
                let keep = lcp(old_content, content@);
                Transition {
                    next: HandlerModel {
                        next_session,
                        current: Some(SessionHandle { id: sid, dirty: true }),
                        deltas: m.deltas.push(
                            DeltaModel {
                                session: sid,
                                path: path@,
                                keep,
                                insert: content@.skip(keep as int),
                            },
                        ),
                        files: m.files.insert(path@, content@),
                        outbox: m.outbox.push(
                            NoteModel::DeltaRecorded { session: sid, path: path@ },
                        ),
                        ..m
                    },
                    out: seq![Event::IndexContent { path, content }],
                    err: None,
                }
            }
        },
        Event::HeadChange { .. } => {
            if m.current is Some {
                Transition { next: m, out: seq![Event::SessionFlush], err: None }
            } else {
                Transition { next: m, out: Seq::empty(), err: None }
            }
        },
        Event::Flush => {
            if m.current is Some {
                Transition { next: m, out: seq![Event::SessionFlush], err: None }
            } else {
                Transition { next: m, out: Seq::empty(), err: None }
            }
        },
        Event::IndexContent { path, content } => {
            Transition {
                next: HandlerModel { index: m.index.insert(path@, content@), ..m },
                out: Seq::empty(),
                err: None,
            }
        },
        Event::SessionFlush => {
            match m.current {
                Some(s) => {
                    if !s.dirty {
                        Transition { next: m, out: Seq::empty(), err: None }
                    } else if m.next_session == u64::MAX {
                        Transition {
                            next: m,
                            out: Seq::empty(),
                            err: Some(HandleError::SessionExhausted),
                        }
                    } else {
                        Transition {
                            next: HandlerModel {
                                next_session: (m.next_session + 1) as u64,
                                current: Some(
                                    SessionHandle { id: m.next_session, dirty: false },
                                ),
                                closed: m.closed.push(s.id),
                                outbox: m.outbox.push(
                                    NoteModel::SessionClosed { session: s.id },
                                ),
                                ..m
                            },
                            out: Seq::empty(),
                            err: None,
                        }
                    }
                },
                None => Transition { next: m, out: Seq::empty(), err: None },
            }
        },
    }
}

/// One handler per project, holding its modeled collaborator stores.
pub struct Handler {
    /// The project this handler serves.
    pub project_id: String,
    /// The next unused session identifier.
    pub next_session: u64,
    /// The currently open session, if any.
    pub current: Option<SessionHandle>,
    /// Identifiers of closed sessions, oldest first.
    pub closed: Vec<u64>,
    /// Every delta ever appended, oldest first.
    pub deltas: Vec<DeltaRecord>,
    /// The last recorded content per path.
    pub files: KvStore,
    /// The search index: the last indexed content per path.
    pub index: KvStore,
    /// Outward notifications of durable effects, oldest first.
    pub outbox: Vec<Notification>,
}

impl View for DeltaRecord {
    type V = DeltaModel;

    open spec fn view(&self) -> DeltaModel {
        DeltaModel {
            session: self.session,
            path: self.path@,
            keep: self.keep as nat,
            insert: self.insert@,
        }
    }
}

impl View for Notification {
    type V = NoteModel;

    open spec fn view(&self) -> NoteModel {
        match self {
            Notification::DeltaRecorded { session, path } => NoteModel::DeltaRecorded {
                session: *session,
                path: path@,
            },
            Notification::SessionClosed { session } => NoteModel::SessionClosed {
                session: *session,
            },
        }
    }
}

impl View for Handler {
    type V = HandlerModel;

    open spec fn view(&self) -> HandlerModel {
        HandlerModel {
            project_id: self.project_id@,
            next_session: self.next_session,
            current: self.current,
            closed: self.closed@,
            deltas: self.deltas@.map_values(|d: DeltaRecord| d@),
            files: self.files@,
            index: self.index@,
            outbox: self.outbox@.map_values(|n: Notification| n@),
        }
    }
}

impl Handler {
    /// The keyed stores hold at most one entry per key.
    pub open spec fn wf(&self) -> bool {
        self.files.wf() && self.index.wf()
    }

    /// A fresh handler with empty collaborator state.
    pub fn new(project_id: String) -> (r: Handler)
        ensures
            r.wf(),
            r@.project_id == project_id@,
            r@.next_session == 0,
            r@.current is None,
            r@.closed == Seq::<u64>::empty(),
            r@.deltas == Seq::<DeltaModel>::empty(),
            r@.files == Map::<Seq<char>, Seq<u8>>::empty(),
            r@.index == Map::<Seq<char>, Seq<u8>>::empty(),
            r@.outbox == Seq::<NoteModel>::empty(),
    {
        let r = Handler {
            project_id,
            next_session: 0,
            current: None,
            closed: Vec::new(),
            deltas: Vec::new(),
            files: KvStore::new(),
            index: KvStore::new(),
            outbox: Vec::new(),
        };
        proof {
            assert(r@.deltas =~= Seq::<DeltaModel>::empty());
            assert(r@.outbox =~= Seq::<NoteModel>::empty());
        }
        r
    }

    /// A handler resuming a project whose earlier sessions used every
    /// identifier below `next_session`.
    pub fn restore(project_id: String, next_session: u64) -> (r: Handler)
        ensures
            r.wf(),
            r@.project_id == project_id@,
            r@.next_session == next_session,
            r@.current is None,
            r@.closed == Seq::<u64>::empty(),
            r@.deltas == Seq::<DeltaModel>::empty(),
            r@.files == Map::<Seq<char>, Seq<u8>>::empty(),
            r@.index == Map::<Seq<char>, Seq<u8>>::empty(),
            r@.outbox == Seq::<NoteModel>::empty(),
    {
        let mut r = Handler::new(project_id);
        r.next_session = next_session;
        r
    }

    /// Handles one event: mutates the collaborator state and returns the
    /// follow-up events, exactly as `transition` describes.
    pub fn handle(&mut self, event: Event) -> (r: Result<Vec<Event>, HandleError>)
        requires
            old(self).wf(),
        ensures
            final(self).wf(),
            final(self)@ == transition(old(self)@, event).next,
            match r {
                Ok(v) => transition(old(self)@, event).err is None && v@ == transition(
                    old(self)@,
                    event,
                ).out,
                Err(err) => transition(old(self)@, event).err == Some(err),
            },
    {
        let ghost m = self@;
        match event {
            Event::FileChange { path, content } => {
                if path.as_str().is_empty() {
                    return Err(HandleError::MalformedPath);
                }
                let changed: Option<(usize, Vec<u8>)> = match self.files.get(&path) {
                    Some(v) => {
                        if bytes_eq(v, &content) {
                            None
                        } else {
                            Some(diff(v, &content))
                        }
                    },
                    None => {
                        if content.len() == 0 {
                            None
                        } else {
                            let empty_content: Vec<u8> = Vec::new();
                            Some(diff(&empty_content, &content))
                        }
                    },
                };
                match changed {
                    None => {
                        assert(recorded_content(m, path@) == content@);
                        Ok(Vec::new())
                    },
                    Some((keep, insert)) => {
                        assert(recorded_content(m, path@) != content@);
                        let sid: u64;
                        match self.current {
                            Some(s) => {
                                sid = s.id;
                                self.current = Some(SessionHandle { id: s.id, dirty: true });
                            },
                            None => {
                                if self.next_session == u64::MAX {
                                    return Err(HandleError::SessionExhausted);
                                }
                                sid = self.next_session;
                                self.current = Some(SessionHandle { id: sid, dirty: true });
                                self.next_session = self.next_session + 1;
                            },
                        }
                        let delta_path = path.clone();
                        let note_path = path.clone();
                        let store_path = path.clone();
                        let store_content = copy_bytes(&content);
                        self.deltas.push(DeltaRecord { session: sid, path: delta_path, keep, insert });
                        self.outbox.push(Notification::DeltaRecorded { session: sid, path: note_path });
                        self.files.set(store_path, store_content);
                        let mut out: Vec<Event> = Vec::new();
                        out.push(Event::IndexContent { path, content });
                        proof {
                            let t = transition(m, event);
                            assert(self@.deltas =~= t.next.deltas);
                            assert(self@.outbox =~= t.next.outbox);
                            assert(self@ =~~= t.next);
                            assert(out@ =~= t.out);
                        }
                        Ok(out)
                    },
                }
            },
            Event::HeadChange { .. } => {
                let mut out: Vec<Event> = Vec::new();
                if self.current.is_some() {
                    out.push(Event::SessionFlush);
                }
                proof {
                    assert(out@ =~= transition(m, event).out);
                }
                Ok(out)
            },
            Event::Flush => {
                let mut out: Vec<Event> = Vec::new();
                if self.current.is_some() {
                    out.push(Event::SessionFlush);
                }
                proof {
                    assert(out@ =~= transition(m, event).out);
                }
                Ok(out)
            },
            Event::IndexContent { path, content } => {
                self.index.set(path, content);
                proof {
                    assert(self@ =~~= transition(m, event).next);
                }
                Ok(Vec::new())
            },
            Event::SessionFlush => {
                match self.current {
                    Some(s) => {
                        if !s.dirty {
                            Ok(Vec::new())
                        } else if self.next_session == u64::MAX {
                            Err(HandleError::SessionExhausted)
                        } else {
                            self.closed.push(s.id);
                            self.current = Some(
                                SessionHandle { id: self.next_session, dirty: false },
                            );
                            self.next_session = self.next_session + 1;
                            self.outbox.push(Notification::SessionClosed { session: s.id });
                            proof {
                                let t = transition(m, event);
                                assert(self@.outbox =~= t.next.outbox);
                                assert(self@ =~~= t.next);
                            }
                            Ok(Vec::new())
                        }
                    },
                    None => Ok(Vec::new()),
                }
            },
        }
    }
}

/// A cascade dies out: one handling step emits at most one follow-up event,
/// every follow-up is of the derived class, and its rank is strictly below
/// the handled event's rank.
pub proof fn lemma_transition_cascade(m: HandlerModel, e: Event)
    ensures
        transition(m, e).out.len() <= 1,
        forall|i: int|
            0 <= i < transition(m, e).out.len() ==> rank(#[trigger] transition(m, e).out[i])
                < rank(e) && is_derived(transition(m, e).out[i]),
{
}

/// Failure isolation: a failed step leaves the collaborator state untouched
/// and emits nothing, so later events meet the same state they would have
/// met had the failing event never arrived.
pub proof fn lemma_failure_isolated(m: HandlerModel, e: Event)
    ensures
        transition(m, e).err is Some ==> transition(m, e).next == m && transition(
            m,
            e,
        ).out.len() == 0,
{
}

/// The content a path reaches after replaying, in order, every delta
/// recorded for it, starting from nothing.
pub open spec fn replay_deltas(deltas: Seq<DeltaModel>, path: Seq<char>) -> Seq<u8>
    decreases deltas.len(),
{
    if deltas.len() == 0 {
        Seq::empty()
    } else {
        let prefix = replay_deltas(deltas.drop_last(), path);
        let d = deltas.last();
        if d.path == path {
            apply_delta(prefix, d.keep as int, d.insert)
        } else {
            prefix
        }
    }
}

/// The recorded history is lossless: for every path, replaying its deltas in
/// order reproduces exactly the last recorded content.
pub open spec fn history_faithful(m: HandlerModel) -> bool {
    forall|p: Seq<char>| #[trigger] replay_deltas(m.deltas, p) == recorded_content(m, p)
}

/// A fresh handler's history is trivially faithful.
pub proof fn lemma_history_faithful_init(m: HandlerModel)
    requires
        m.deltas.len() == 0,
        m.files == Map::<Seq<char>, Seq<u8>>::empty(),
    ensures
        history_faithful(m),
{
    assert forall|p: Seq<char>| #[trigger] replay_deltas(m.deltas, p) == recorded_content(
        m,
        p,
    ) by {
        assert(replay_deltas(m.deltas, p) =~= Seq::<u8>::empty());
        assert(!m.files.contains_key(p));
    }
}

/// One handling step keeps the history faithful: every delta it appends is
/// exactly the difference between the last recorded content and the new one,
/// so nothing the handler ever saw is lost.
pub proof fn lemma_history_faithful_preserved(m: HandlerModel, e: Event)
    requires
        history_faithful(m),
    ensures
        history_faithful(transition(m, e).next),
{
    let m2 = transition(m, e).next;
    match e {
        Event::FileChange { path, content } => {
            if m2.deltas.len() == m.deltas.len() {
                assert(m2.deltas == m.deltas);
                assert(m2.files =~= m.files || recorded_content(m, path@) == content@);
            } else {
                let old_content = recorded_content(m, path@);
                let keep = lcp(old_content, content@);
                assert forall|p: Seq<char>| #[trigger] replay_deltas(m2.deltas, p)
                    == recorded_content(m2, p) by {
                    assert(m2.deltas.drop_last() =~= m.deltas);
                    if p == path@ {
                        lemma_delta_reconstructs(old_content, content@);
                        assert(replay_deltas(m2.deltas, p) == apply_delta(
                            replay_deltas(m.deltas, p),
                            keep as int,
                            content@.skip(keep as int),
                        ));
                        assert(recorded_content(m2, p) == content@);
                    } else {
                        assert(replay_deltas(m2.deltas, p) == replay_deltas(m.deltas, p));
                        assert(recorded_content(m2, p) == recorded_content(m, p));
                    }
                }
            }
        },
        _ => {
            assert(m2.deltas == m.deltas);
            assert forall|p: Seq<char>| #[trigger] replay_deltas(m2.deltas, p)
                == recorded_content(m2, p) by {
                assert(recorded_content(m2, p) == recorded_content(m, p));
            }
        },
    }
}

/// The session ledger is consistent: closed identifiers are strictly
/// increasing, all below the next unused identifier, and the open session is
/// newer than every closed one.
pub open spec fn session_ledger_invariant(m: HandlerModel) -> bool {
    &&& (forall|i: int, j: int| 0 <= i < j < m.closed.len() ==> m.closed[i] < m.closed[j])
    &&& (forall|i: int| 0 <= i < m.closed.len() ==> m.closed[i] < m.next_session)
    &&& (m.current matches Some(s) ==> (s.id < m.next_session && (forall|i: int|
        0 <= i < m.closed.len() ==> m.closed[i] < s.id)))
}

/// A fresh handler's ledger is consistent, and one handling step keeps it
/// so: a session identifier is never reused, so no session boundary is ever
/// recorded twice.
pub proof fn lemma_session_ledger_preserved(m: HandlerModel, e: Event)
    requires
        session_ledger_invariant(m),
    ensures
        session_ledger_invariant(transition(m, e).next),
{
}

/// Replaying a derived event against the state it produced changes nothing:
/// no duplicate delta entries, no duplicate session boundaries, no duplicate
/// index entries.
pub proof fn lemma_derived_replay_idempotent(m: HandlerModel, e: Event)
    requires
        is_derived(e),
    ensures
        transition(transition(m, e).next, e).next == transition(m, e).next,
{
    let t1 = transition(m, e);
    let t2 = transition(t1.next, e);
    match e {
        Event::IndexContent { path, content } => {
            assert(t2.next.index =~= t1.next.index);
            assert(t2.next =~~= t1.next);
        },
        _ => {
        },
    }
}

} // verus!
