use gdrive_sync::rotation::{
    plan_cleanup, LogFileRecord, LogSinkState, MAX_LOG_FILES, MAX_LOG_SIZE,
};

fn record(name: &str, modified_secs: u64) -> LogFileRecord {
    LogFileRecord { name: name.to_string(), modified_secs }
}

#[test]
fn cleanup_under_the_bound_keeps_everything() {
    let files = vec![record("a", 10), record("b", 5), record("c", 7)];
    let (kept, evicted) = plan_cleanup(files);
    assert_eq!(kept.len(), 3);
    assert!(evicted.is_empty());
}

#[test]
fn cleanup_evicts_the_oldest_first() {
    // Six files, shuffled modification times: the bound is five, so the two
    // oldest go.
    let files = vec![
        record("d", 40),
        record("b", 20),
        record("f", 60),
        record("a", 10),
        record("e", 50),
        record("c", 30),
    ];
    let (kept, evicted) = plan_cleanup(files);
    assert_eq!(kept.len(), MAX_LOG_FILES - 1);
    assert_eq!(evicted.len(), 2);
    let mut evicted_names: Vec<&str> = evicted.iter().map(|r| r.name.as_str()).collect();
    evicted_names.sort();
    assert_eq!(evicted_names, vec!["a", "b"]);
    assert!(kept.iter().all(|r| r.modified_secs >= 30));
}

#[test]
fn cleanup_at_exactly_the_bound_evicts_one() {
    let files = vec![
        record("a", 1),
        record("b", 2),
        record("c", 3),
        record("d", 4),
        record("e", 5),
    ];
    let (kept, evicted) = plan_cleanup(files);
    assert_eq!(kept.len(), MAX_LOG_FILES - 1);
    assert_eq!(evicted.len(), 1);
    assert_eq!(evicted[0].name, "a");
}

#[test]
fn cleanup_of_an_empty_directory_does_nothing() {
    let (kept, evicted) = plan_cleanup(Vec::new());
    assert!(kept.is_empty());
    assert!(evicted.is_empty());
}

#[test]
fn cleanup_with_tied_times_still_evicts_the_oldest() {
    let files = vec![
        record("a", 10),
        record("b", 10),
        record("c", 20),
        record("d", 20),
        record("e", 30),
        record("f", 30),
    ];
    let (kept, evicted) = plan_cleanup(files);
    assert_eq!(kept.len(), MAX_LOG_FILES - 1);
    assert_eq!(evicted.len(), 2);
    // Both files carrying the earliest time go; no newer file goes first.
    let mut evicted_names: Vec<&str> = evicted.iter().map(|r| r.name.as_str()).collect();
    evicted_names.sort();
    assert_eq!(evicted_names, vec!["a", "b"]);
}

#[test]
fn small_writes_accumulate_without_rotation() {
    let (mut sink, evicted) = LogSinkState::init(Vec::new(), 1000);
    assert!(evicted.is_empty());
    assert_eq!(sink.active_size, 0);
    let r = sink.write_record("hello", 1001);
    assert!(r.is_none());
    // five bytes plus the newline
    assert_eq!(sink.active_size, 6);
    let r = sink.write_record("x", 1002);
    assert!(r.is_none());
    assert_eq!(sink.active_size, 8);
}

#[test]
fn size_invariant_at_the_boundary() {
    let (mut sink, _) = LogSinkState::init(Vec::new(), 1000);
    // Fills the active file to exactly the bound: no rotation yet.
    let fill = "a".repeat((MAX_LOG_SIZE - 1) as usize);
    let r = sink.write_record(&fill, 1001);
    assert!(r.is_none());
    assert_eq!(sink.active_size, MAX_LOG_SIZE);
    // One more byte would overflow: the sink rotates first.
    let r = sink.write_record("", 1002);
    assert!(r.is_some());
    assert_eq!(sink.active_size, 1);
}

#[test]
fn oversized_record_rotates_and_stands_alone() {
    let (mut sink, _) = LogSinkState::init(Vec::new(), 1000);
    let big = "b".repeat((MAX_LOG_SIZE + 5) as usize);
    let r = sink.write_record(&big, 1001);
    assert!(r.is_some());
    // The record went to a fresh file: its size is one record, never more
    // than the bound plus that record's length.
    assert_eq!(sink.active_size, MAX_LOG_SIZE + 6);
}

#[test]
fn six_rotations_keep_five_files_and_drop_the_first() {
    let (mut sink, evicted) = LogSinkState::init(Vec::new(), 1000);
    assert!(evicted.is_empty());
    let first_file = sink.active_name.clone();
    let big = "c".repeat(MAX_LOG_SIZE as usize);
    let mut gone: Vec<String> = Vec::new();
    for i in 0..6u64 {
        let now = 2000 + i * 1000;
        let evicted = sink.write_record(&big, now).expect("each big write rotates");
        gone.extend(evicted.into_iter().map(|r| r.name));
        // Retention holds after every rotation.
        assert!(sink.rotated.len() + 1 <= MAX_LOG_FILES);
    }
    let mut on_disk: Vec<String> = sink.rotated.iter().map(|r| r.name.clone()).collect();
    on_disk.push(sink.active_name.clone());
    assert!(on_disk.len() <= MAX_LOG_FILES);
    // The very first file created is no longer on disk: it was evicted.
    assert!(!on_disk.contains(&first_file));
    assert!(gone.contains(&first_file));
}
