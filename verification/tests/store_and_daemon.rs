use fnsd::daemon::options::watch_decision;
use fnsd::daemon::{next_retry_delay, Daemon, DaemonConfig, DaemonOptions, RetryStep, SessionOutcome, WatchDecision, WatchReceive};
use fnsd::store::keys::NumberTooLarge;
use fnsd::store::{
    all_resource_kinds, chunk_index_from_i64, hash_tree_moves, is_in_hash_tree, kind_key,
    records_pending_modify, records_pending_rename, renamed_path, size_from_i64,
    sync_time_from_stored, to_i64, HashEntry,
};
use fnsd::{ContentHash, CoreError, RemoteMillis, ResourceKind};

#[test]
fn kind_keys() {
    let keys: Vec<&str> = all_resource_kinds().iter().map(|k| kind_key(*k)).collect();
    assert_eq!(keys, vec!["note", "file", "folder", "setting"]);
}

#[test]
fn hash_tree_membership() {
    assert!(is_in_hash_tree("a", "a"));
    assert!(is_in_hash_tree("a/b", "a"));
    assert!(!is_in_hash_tree("ab", "a"));
    assert!(!is_in_hash_tree("b/a", "a"));
    assert!(!is_in_hash_tree("", "a"));
}

#[test]
fn renamed_paths() {
    assert_eq!(renamed_path("a", "a", "z"), "z");
    assert_eq!(renamed_path("a/b/c.md", "a", "x/y"), "x/y/b/c.md");
    let moved = renamed_path("old/n.md", "old", "new");
    assert_eq!(renamed_path(&moved, "new", "old"), "old/n.md");
}

#[test]
fn hash_tree_moves_selects_the_tree() {
    let paths: Vec<String> = ["a", "a/b", "ab", "c/a", "a/c/d"].iter().map(|s| s.to_string()).collect();
    let moves = hash_tree_moves(&paths, "a", "q");
    assert_eq!(
        moves,
        vec![(0, "q".to_string()), (1, "q/b".to_string()), (4, "q/c/d".to_string())]
    );
}

#[test]
fn pending_rules() {
    assert!(records_pending_modify(ResourceKind::Note));
    assert!(!records_pending_modify(ResourceKind::Folder));
    assert!(records_pending_rename(ResourceKind::File));
    assert!(!records_pending_rename(ResourceKind::Setting));
}

#[test]
fn stored_numbers() {
    assert_eq!(to_i64("size", 5), Ok(5));
    assert_eq!(to_i64("size", u64::MAX), Err(NumberTooLarge { name: "size", value: u64::MAX }));
    assert_eq!(size_from_i64(-1), None);
    assert_eq!(size_from_i64(10), Some(10));
    assert_eq!(chunk_index_from_i64(4_294_967_296), None);
    assert_eq!(chunk_index_from_i64(3), Some(3));
    assert_eq!(chunk_index_from_i64(-3), None);
}

#[test]
fn stored_sync_time() {
    assert_eq!(sync_time_from_stored(None).unwrap().as_i64(), 0);
    assert_eq!(sync_time_from_stored(Some(99)).unwrap().as_i64(), 99);
    assert_eq!(sync_time_from_stored(Some(-5)), Err(CoreError::InvalidTimestamp));
}

#[test]
fn hash_entry_reads_back_what_it_wrote() {
    let h = ContentHash::new("123".to_string()).unwrap();
    let m = RemoteMillis::new(77).unwrap();
    let e = HashEntry::new(Some(h.clone()), m, 5);
    assert_eq!(e.content_hash, Some("123".to_string()));
    assert_eq!(e.content_hash(), Ok(Some(h)));
    assert_eq!(e.mtime(), Ok(m));
    let folder = HashEntry::new(None, m, 0);
    assert_eq!(folder.content_hash(), Ok(None));
}

#[test]
fn hash_entry_refuses_corrupt_rows() {
    let bad = HashEntry { content_hash: Some(String::new()), mtime: -1, size: 0 };
    assert_eq!(bad.content_hash(), Err(CoreError::InvalidHash));
    assert_eq!(bad.mtime(), Err(CoreError::InvalidTimestamp));
}

#[test]
fn retry_delay_doubles_up_to_max() {
    assert_eq!(next_retry_delay(5, 300), 10);
    assert_eq!(next_retry_delay(200, 300), 300);
    assert_eq!(next_retry_delay(u64::MAX, u64::MAX), u64::MAX);
    assert_eq!(next_retry_delay(u64::MAX / 2 + 1, u64::MAX), u64::MAX);
}

#[test]
fn daemon_options_from_config() {
    let o = DaemonOptions::from_config(&DaemonConfig { watch_enabled: false, retry_min_seconds: 10, retry_max_seconds: 3 });
    assert_eq!(o, DaemonOptions { watch_enabled: false, retry_min: 10, retry_max: 10 });
    let d = DaemonOptions::default();
    assert_eq!(d, DaemonOptions { watch_enabled: true, retry_min: 5, retry_max: 300 });
    assert_eq!(d.initial_delay(), 5);
}

#[test]
fn daemon_steps_after_sessions() {
    let o = DaemonOptions::default();
    let mut delay = o.initial_delay();
    let mut sleeps = Vec::new();
    for _ in 0..8 {
        let step = o.after_session(delay, SessionOutcome::Failed);
        sleeps.push(step.sleep.unwrap());
        delay = step.next_delay;
    }
    assert_eq!(sleeps, vec![5, 10, 20, 40, 80, 160, 300, 300]);
    assert_eq!(o.after_session(delay, SessionOutcome::Closed), RetryStep { sleep: None, next_delay: 5 });
}

#[test]
fn watch_decisions() {
    assert_eq!(watch_decision(WatchReceive::Closed), WatchDecision::StopWatchTaskStopped);
    assert_eq!(watch_decision(WatchReceive::Error), WatchDecision::StopWithError);
    assert_eq!(watch_decision(WatchReceive::Event), WatchDecision::Forward);
}

#[test]
fn daemon_keeps_config_and_derived_options() {
    let config = DaemonConfig { watch_enabled: true, retry_min_seconds: 2, retry_max_seconds: 60 };
    let daemon = Daemon::new(config);
    assert_eq!(daemon.config(), config);
    assert_eq!(daemon.options(), DaemonOptions { watch_enabled: true, retry_min: 2, retry_max: 60 });
}

#[test]
fn timestamps_read_back_unchanged() {
    let m = RemoteMillis::new(1_700_000_000_000).unwrap();
    assert_eq!(RemoteMillis::new(m.as_i64()), Ok(m));
    assert_eq!(i64::from(m), m.as_i64());
    assert_eq!(HashEntry::new(None, m, 9).mtime(), Ok(m));
    let tampered = HashEntry { content_hash: None, mtime: -5, size: 0 };
    assert_eq!(tampered.mtime(), Err(CoreError::InvalidTimestamp));
}

#[test]
fn failure_run_sleeps_double_up_to_the_longest_delay() {
    let o = DaemonOptions::from_config(&DaemonConfig { watch_enabled: true, retry_min_seconds: 3, retry_max_seconds: 40 });
    let mut delay = o.initial_delay();
    let mut sleeps = Vec::new();
    for _ in 0..6 {
        let step = o.after_session(delay, SessionOutcome::Failed);
        sleeps.push(step.sleep.unwrap());
        delay = step.next_delay;
    }
    assert_eq!(sleeps, vec![3, 6, 12, 24, 40, 40]);
    assert_eq!(o.after_session(delay, SessionOutcome::Closed), RetryStep { sleep: None, next_delay: 3 });
}
