use gdrive_sync::debounce::{Debouncer, FileEventKind, RawEventKind, DEBOUNCE_WINDOW_SECS};

#[test]
fn burst_within_one_window_comes_out_as_one_batch() {
    let mut d = Debouncer::new();
    d.observe(RawEventKind::Create, "D/a.txt".to_string(), 100);
    d.observe(RawEventKind::Create, "D/b.txt".to_string(), 101);
    d.observe(RawEventKind::Create, "D/c.txt".to_string(), 102);
    // Nothing before the window's deadline.
    assert!(d.poll(100 + DEBOUNCE_WINDOW_SECS - 1).is_none());
    // One batch with all three paths, in arrival order.
    let ev = d.poll(100 + DEBOUNCE_WINDOW_SECS).expect("window closed");
    assert_eq!(ev.kind, FileEventKind::Created);
    assert_eq!(ev.paths, vec!["D/a.txt", "D/b.txt", "D/c.txt"]);
    // And only that one batch.
    assert!(d.poll(1000).is_none());
}

#[test]
fn non_create_events_are_dropped() {
    let mut d = Debouncer::new();
    d.observe(RawEventKind::Modify, "D/a.txt".to_string(), 100);
    d.observe(RawEventKind::Remove, "D/b.txt".to_string(), 100);
    d.observe(RawEventKind::Access, "D/c.txt".to_string(), 100);
    d.observe(RawEventKind::Other, "D/d.txt".to_string(), 100);
    assert!(d.poll(10_000).is_none());
}

#[test]
fn a_new_window_opens_after_emission() {
    let mut d = Debouncer::new();
    d.observe(RawEventKind::Create, "one".to_string(), 10);
    let ev = d.poll(10 + DEBOUNCE_WINDOW_SECS).expect("first window closed");
    assert_eq!(ev.paths, vec!["one"]);
    d.observe(RawEventKind::Create, "two".to_string(), 50);
    assert!(d.poll(51).is_none());
    let ev = d.poll(50 + DEBOUNCE_WINDOW_SECS).expect("second window closed");
    assert_eq!(ev.paths, vec!["two"]);
}

#[test]
fn late_create_joins_the_still_pending_batch() {
    let mut d = Debouncer::new();
    d.observe(RawEventKind::Create, "a".to_string(), 100);
    d.observe(RawEventKind::Create, "b".to_string(), 104);
    let ev = d.poll(105).expect("window closed");
    assert_eq!(ev.paths, vec!["a", "b"]);
}
