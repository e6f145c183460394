use watcher_logic::relevance::ChangeKind;
use watcher_logic::scheduler::{Incoming, Poll, Reaction, Scheduler, DEBOUNCE_WINDOW_MS};

fn change(kind: ChangeKind, parts: &[&str]) -> Incoming {
    let p: Vec<String> = parts.iter().map(|s| s.to_string()).collect();
    Incoming::Change { kind, paths: vec![Some(p)] }
}

#[test]
fn window_is_four_and_a_half_minutes() {
    assert_eq!(DEBOUNCE_WINDOW_MS, 270_000);
}

#[test]
fn idle_waits_forever() {
    let mut s = Scheduler::new();
    assert!(!s.is_pending());
    assert_eq!(s.poll(0), Poll::WaitForever);
    assert_eq!(s.poll(10_000_000), Poll::WaitForever);
}

#[test]
fn burst_rearms_on_last_change_and_fires_once() {
    let mut s = Scheduler::new();
    assert_eq!(s.poll(0), Poll::WaitForever);
    assert_eq!(s.handle(&change(ChangeKind::Create, &["a.txt"]), 0), Reaction::Armed);
    assert_eq!(s.pending, Some(0));
    assert_eq!(s.poll(0), Poll::WaitFor(270_000));
    assert_eq!(s.handle(&change(ChangeKind::Modify, &["logs", "x.log"]), 1_000), Reaction::Ignored);
    assert_eq!(s.pending, Some(0));
    assert_eq!(s.poll(1_000), Poll::WaitFor(269_000));
    assert_eq!(s.handle(&change(ChangeKind::Modify, &["b.txt"]), 2_000), Reaction::Armed);
    assert_eq!(s.pending, Some(2_000));
    assert_eq!(s.poll(2_000), Poll::WaitFor(270_000));
    assert_eq!(s.poll(271_999), Poll::WaitFor(1));
    assert_eq!(s.handle(&Incoming::TimedOut, 272_000), Reaction::Ignored);
    assert_eq!(s.poll(272_000), Poll::Fire);
    assert!(!s.is_pending());
    assert_eq!(s.poll(272_000), Poll::WaitForever);
}

#[test]
fn silence_after_fire_triggers_nothing() {
    let mut s = Scheduler::new();
    s.handle(&change(ChangeKind::Remove, &["c.txt"]), 5_000);
    assert_eq!(s.poll(5_000 + 300_000), Poll::Fire);
    assert_eq!(s.handle(&Incoming::TimedOut, 1_000_000), Reaction::Ignored);
    assert_eq!(s.poll(1_000_000), Poll::WaitForever);
    assert_eq!(s.poll(9_000_000), Poll::WaitForever);
    assert_eq!(s.pending, None);
}

#[test]
fn generated_artifact_alone_never_arms() {
    let mut s = Scheduler::new();
    assert_eq!(s.handle(&change(ChangeKind::Modify, &["index.html"]), 0), Reaction::Ignored);
    assert_eq!(s.poll(0), Poll::WaitForever);
    assert_eq!(s.poll(1_000_000), Poll::WaitForever);
    assert!(!s.is_pending());
}

#[test]
fn irrelevant_events_keep_idle() {
    let mut s = Scheduler::new();
    let events = vec![
        change(ChangeKind::Other, &["a.txt"]),
        change(ChangeKind::Modify, &["logs", "2024-01-01.log"]),
        change(ChangeKind::Create, &["contents.json"]),
        Incoming::Change { kind: ChangeKind::Modify, paths: vec![None] },
        Incoming::SourceError,
    ];
    let mut t: u64 = 0;
    for e in &events {
        assert_eq!(s.poll(t), Poll::WaitForever);
        let r = s.handle(e, t);
        assert!(r == Reaction::Ignored || r == Reaction::SourceErrorReported);
        t += 100_000;
    }
    assert_eq!(s.poll(t + 1_000_000), Poll::WaitForever);
}

#[test]
fn source_error_and_close_keep_state() {
    let mut s = Scheduler::new();
    s.handle(&change(ChangeKind::Create, &["a.txt"]), 10);
    assert_eq!(s.handle(&Incoming::SourceError, 20), Reaction::SourceErrorReported);
    assert_eq!(s.pending, Some(10));
    assert_eq!(s.handle(&Incoming::Closed, 30), Reaction::Shutdown);
    assert_eq!(s.pending, Some(10));
}

#[test]
fn clock_before_change_waits_full_window() {
    let mut s = Scheduler::new();
    s.handle(&change(ChangeKind::Create, &["a.txt"]), 1_000);
    assert_eq!(s.poll(500), Poll::WaitFor(270_000));
    assert_eq!(s.pending, Some(1_000));
}
