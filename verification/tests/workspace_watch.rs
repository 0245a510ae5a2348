use mendimaru::project_watcher::{Debounce, WatchedRoot, EVENT_DEBOUNCE_MS};

#[test]
fn watches_each_root_once_and_forgets_only_its_own_failure() {
    let mut watched = WatchedRoot::new();
    assert!(watched.needs_watch("/workspace"));
    watched.watching("/workspace".into());
    assert!(!watched.needs_watch("/workspace"));
    assert!(watched.needs_watch("/other"));
    watched.mark_failed("/other");
    assert!(!watched.needs_watch("/workspace"));
    watched.mark_failed("/workspace");
    assert!(watched.needs_watch("/workspace"));
}

#[test]
fn a_burst_of_events_notifies_once_for_the_last_root() {
    let mut burst = Debounce::start("/a".into(), 1000);
    assert_eq!(burst.wait_ms(1000), EVENT_DEBOUNCE_MS);
    assert_eq!(burst.wait_ms(1200), 300);
    burst.event("/b".into(), 1400);
    assert_eq!(burst.wait_ms(1500), 400);
    assert_eq!(burst.wait_ms(2000), 0);
    assert_eq!(burst.finish(), "/b");
    let late = Debounce::start("/c".into(), u64::MAX - 10);
    assert_eq!(late.wait_ms(u64::MAX - 10), 10);
}
