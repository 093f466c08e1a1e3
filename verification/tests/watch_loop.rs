use watchcore::Event;
use watchcore::Notification;
use watchcore::Watcher;
use watchcore::dispatchers::Dispatcher;
use watchcore::handlers::HandleError;
use watchcore::handlers::Handler;

fn file_change(path: &str, content: &[u8]) -> Event {
    Event::FileChange { path: path.to_string(), content: content.to_vec() }
}

#[test]
fn file_change_yields_delta_and_index_event() {
    let mut h = Handler::new("proj".to_string());
    let first = h.handle(file_change("a.txt", b"x")).unwrap();
    assert_eq!(first.len(), 1);
    match &first[0] {
        Event::IndexContent { path, content } => {
            assert_eq!(path.as_str(), "a.txt");
            assert_eq!(content, &vec![b'x']);
        }
        _ => panic!("expected an index event"),
    }
    let out = h.handle(file_change("a.txt", b"xy")).unwrap();
    assert_eq!(h.deltas.len(), 2);
    assert_eq!(h.deltas[1].keep, 1);
    assert_eq!(h.deltas[1].insert, vec![b'y']);
    assert_eq!(h.deltas[1].path.as_str(), "a.txt");
    assert_eq!(out.len(), 1);
    match &out[0] {
        Event::IndexContent { path, content } => {
            assert_eq!(path.as_str(), "a.txt");
            assert_eq!(content, &vec![b'x', b'y']);
        }
        _ => panic!("expected an index event"),
    }
    // No boundary trigger fired: no session-flush event, no closed session.
    assert!(h.closed.is_empty());
    assert!(h.current.is_some());
}

#[test]
fn successive_changes_yield_ordered_deltas() {
    let mut h = Handler::new("proj".to_string());
    h.handle(file_change("a.txt", b"x")).unwrap();
    h.handle(file_change("a.txt", b"xy")).unwrap();
    h.handle(file_change("a.txt", b"xyz")).unwrap();
    assert_eq!(h.deltas.len(), 3);
    assert_eq!(h.deltas[0].keep, 0);
    assert_eq!(h.deltas[0].insert, b"x".to_vec());
    assert_eq!(h.deltas[1].keep, 1);
    assert_eq!(h.deltas[1].insert, b"y".to_vec());
    assert_eq!(h.deltas[2].keep, 2);
    assert_eq!(h.deltas[2].insert, b"z".to_vec());
    // All three deltas belong to the same session, in order.
    assert_eq!(h.deltas[0].session, 0);
    assert_eq!(h.deltas[1].session, 0);
    assert_eq!(h.deltas[2].session, 0);
}

#[test]
fn head_change_closes_open_session() {
    let mut h = Handler::new("proj".to_string());
    h.handle(file_change("a.txt", b"x")).unwrap();
    assert!(h.current.is_some());
    let out = h.handle(Event::HeadChange { head: b"ref: refs/heads/main".to_vec() }).unwrap();
    assert_eq!(out.len(), 1);
    assert!(matches!(out[0], Event::SessionFlush));
    // The next loop pass handles the derived event: the session closes and a
    // fresh one opens before any further file change is processed.
    let after = h.handle(Event::SessionFlush).unwrap();
    assert!(after.is_empty());
    assert_eq!(h.closed, vec![0u64]);
    let cur = h.current.unwrap();
    assert_eq!(cur.id, 1);
    assert!(!cur.dirty);
    assert!(matches!(h.outbox[1], Notification::SessionClosed { session: 0 }));
    // A further change lands in the new session.
    h.handle(file_change("a.txt", b"xy")).unwrap();
    assert_eq!(h.deltas[1].session, 1);
}

#[test]
fn content_shrink_records_truncation() {
    let mut h = Handler::new("proj".to_string());
    h.handle(file_change("a.txt", b"xy")).unwrap();
    h.handle(file_change("a.txt", b"x")).unwrap();
    assert_eq!(h.deltas.len(), 2);
    assert_eq!(h.deltas[1].keep, 1);
    assert!(h.deltas[1].insert.is_empty());
    assert_eq!(h.files.entries[0].value, b"x".to_vec());
}

#[test]
fn delta_notification_names_session_and_path() {
    let mut h = Handler::new("proj".to_string());
    h.handle(file_change("a.txt", b"x")).unwrap();
    assert_eq!(h.outbox.len(), 1);
    match &h.outbox[0] {
        Notification::DeltaRecorded { session, path } => {
            assert_eq!(*session, 0);
            assert_eq!(path.as_str(), "a.txt");
        }
        _ => panic!("expected a delta notification"),
    }
}

#[test]
fn derived_replay_is_idempotent() {
    let mut h = Handler::new("proj".to_string());
    h.handle(file_change("a.txt", b"x")).unwrap();
    let index_event = || Event::IndexContent { path: "a.txt".to_string(), content: b"x".to_vec() };
    h.handle(index_event()).unwrap();
    let entries_once = h.index.entries.len();
    h.handle(index_event()).unwrap();
    assert_eq!(h.index.entries.len(), entries_once);
    assert_eq!(h.index.entries[0].value, b"x".to_vec());

    h.handle(Event::SessionFlush).unwrap();
    let closed_once = h.closed.clone();
    let outbox_once = h.outbox.len();
    h.handle(Event::SessionFlush).unwrap();
    // No duplicate session boundary.
    assert_eq!(h.closed, closed_once);
    assert_eq!(h.outbox.len(), outbox_once);
}

#[test]
fn handler_error_isolated() {
    let mut h = Handler::new("proj".to_string());
    let err = h.handle(file_change("", b"x")).unwrap_err();
    assert_eq!(err, HandleError::MalformedPath);
    assert!(h.deltas.is_empty());
    assert!(h.current.is_none());
    // Subsequent events are handled normally.
    let out = h.handle(file_change("a.txt", b"x")).unwrap();
    assert_eq!(out.len(), 1);
    assert_eq!(h.deltas.len(), 1);
}

#[test]
fn session_identifiers_exhaust() {
    let mut h = Handler::restore("proj".to_string(), u64::MAX);
    let err = h.handle(file_change("a.txt", b"x")).unwrap_err();
    assert_eq!(err, HandleError::SessionExhausted);
    assert!(h.deltas.is_empty());
    // Events that need no new session still work.
    h.handle(Event::IndexContent { path: "a.txt".to_string(), content: b"x".to_vec() }).unwrap();
    assert_eq!(h.index.entries.len(), 1);
}

#[test]
fn unchanged_content_records_no_delta() {
    let mut h = Handler::new("proj".to_string());
    h.handle(file_change("a.txt", b"x")).unwrap();
    let out = h.handle(file_change("a.txt", b"x")).unwrap();
    assert!(out.is_empty());
    assert_eq!(h.deltas.len(), 1);
}

#[test]
fn flush_without_session_is_noop() {
    let mut h = Handler::new("proj".to_string());
    let out = h.handle(Event::Flush).unwrap();
    assert!(out.is_empty());
    let out = h.handle(Event::SessionFlush).unwrap();
    assert!(out.is_empty());
    assert!(h.closed.is_empty());
    assert!(h.current.is_none());
}

#[test]
fn run_burst_drains_cascade() {
    let (_stop_tx, stop_rx) = crossbeam_channel::unbounded::<()>();
    let mut w = Watcher::new("proj".to_string(), "work/proj".to_string(), stop_rx);
    w.run_burst(vec![
        file_change("a.txt", b"x"),
        file_change("a.txt", b"xy"),
        Event::HeadChange { head: b"ref: refs/heads/main".to_vec() },
    ]);
    // Both changes were recorded in arrival order, their index updates were
    // drained, and the head move closed the session.
    assert_eq!(w.handler.deltas.len(), 2);
    assert_eq!(w.handler.deltas[0].insert, b"x".to_vec());
    assert_eq!(w.handler.deltas[1].insert, b"y".to_vec());
    assert_eq!(w.handler.index.entries.len(), 1);
    assert_eq!(w.handler.index.entries[0].value, b"xy".to_vec());
    assert_eq!(w.handler.closed, vec![0u64]);
    assert!(!w.stopped);
}

#[test]
fn poll_loop_handles_and_stops() {
    let (stop_tx, stop_rx) = crossbeam_channel::unbounded::<()>();
    let (events_tx, events_rx) = crossbeam_channel::unbounded::<Event>();
    let mut w = Watcher::new("proj".to_string(), "work/proj".to_string(), stop_rx);

    events_tx.send(file_change("a.txt", b"x")).unwrap();
    // First pass: the observed change is handled and its index follow-up is
    // re-published onto the same channel.
    assert!(!w.poll(&events_tx, &events_rx));
    assert_eq!(w.handler.deltas.len(), 1);
    // Second pass: the re-published derived event is handled.
    assert!(!w.poll(&events_tx, &events_rx));
    assert_eq!(w.handler.index.entries.len(), 1);
    assert_eq!(w.handler.index.entries[0].value, b"x".to_vec());

    stop_tx.send(()).unwrap();
    assert!(w.poll(&events_tx, &events_rx));
    assert!(w.stopped);
    assert!(w.dispatcher.stopped);
}

#[test]
fn failed_event_keeps_loop_alive() {
    let (stop_tx, stop_rx) = crossbeam_channel::unbounded::<()>();
    let (events_tx, events_rx) = crossbeam_channel::unbounded::<Event>();
    let mut w = Watcher::new("proj".to_string(), "work/proj".to_string(), stop_rx);

    events_tx.send(file_change("", b"x")).unwrap();
    events_tx.send(file_change("a.txt", b"x")).unwrap();
    assert!(!w.poll(&events_tx, &events_rx));
    assert!(w.handler.deltas.is_empty());
    assert!(!w.poll(&events_tx, &events_rx));
    assert_eq!(w.handler.deltas.len(), 1);
    stop_tx.send(()).unwrap();
    // Drain the derived index event, then stop.
    assert!(!w.poll(&events_tx, &events_rx) || w.stopped);
    if !w.stopped {
        stop_tx.send(()).unwrap();
        while !w.poll(&events_tx, &events_rx) {}
    }
    assert!(w.stopped);
}

#[test]
fn dispatcher_classifies_paths() {
    let d = Dispatcher::new("proj".to_string(), "work/proj".to_string());
    match d.observe(".git/HEAD".to_string(), b"ref: refs/heads/main".to_vec()) {
        Some(Event::HeadChange { head }) => assert_eq!(head, b"ref: refs/heads/main".to_vec()),
        _ => panic!("expected a head-move event"),
    }
    assert!(d.observe(".git/index".to_string(), b"noise".to_vec()).is_none());
    assert!(d.observe(".git/objects/aa".to_string(), b"noise".to_vec()).is_none());
    match d.observe("src/main.rs".to_string(), b"fn main() {}".to_vec()) {
        Some(Event::FileChange { path, content }) => {
            assert_eq!(path.as_str(), "src/main.rs");
            assert_eq!(content, b"fn main() {}".to_vec());
        }
        _ => panic!("expected a file-change event"),
    }
    assert!(matches!(d.tick(), Some(Event::Flush)));
}

#[test]
fn dispatcher_stop_idempotent() {
    let mut d = Dispatcher::new("proj".to_string(), "work/proj".to_string());
    d.stop();
    assert!(d.stopped);
    d.stop();
    assert!(d.stopped);
    assert!(d.observe("a.txt".to_string(), b"x".to_vec()).is_none());
    assert!(d.tick().is_none());
}
