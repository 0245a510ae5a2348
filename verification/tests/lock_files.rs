use mendimaru::project_locks::{
    check_maintenance_lock, is_direct_lock, lock_is_removable, stop_lock_step,
    valid_lock_session_id, LockAttempt, LockCleanup, LockFileFacts, ProjectLock, StopLockStep,
    MAX_LOCKS_PER_CLEANUP,
};

fn lock(session_id: &str, process_id: u32) -> ProjectLock {
    ProjectLock { session_id: session_id.into(), process_id }
}

#[test]
fn removes_only_the_dead_processes_lock() {
    let dead = lock("f205dd03-790d-43fa-a77d-be3b6b7ff1b7", 4242);
    let live = lock("f205dd03-790d-43fa-a77d-be3b6b7ff1b8", 9000);
    let malformed = lock("not-a-uuid", 4242);
    assert!(lock_is_removable(&dead, 4242));
    assert!(!lock_is_removable(&live, 4242));
    assert!(!lock_is_removable(&malformed, 4242));
}

#[test]
fn preserves_links_and_unexpected_files() {
    assert!(is_direct_lock(true, false, 70, Some("dead.mpr.lock")));
    assert!(!is_direct_lock(true, true, 70, Some("linked.mpr.lock")));
    assert!(!is_direct_lock(true, false, 513, Some("large.mpr.lock")));
    assert!(!is_direct_lock(true, false, 70, Some(".mpr.lock")));
    assert!(!is_direct_lock(true, false, 70, Some("project.mpr")));
    assert!(!is_direct_lock(false, false, 70, Some("dir.mpr.lock")));
    assert!(!is_direct_lock(true, false, 70, None));
}

#[test]
fn accepts_only_hyphenated_uuid_session_ids() {
    assert!(valid_lock_session_id("F205DD03-790D-43FA-A77D-BE3B6B7FF1B7"));
    assert!(!valid_lock_session_id("f205dd03790d-43fa-a77d-be3b6b7ff1b7x"));
    assert!(!valid_lock_session_id("f205dd03-790d-43fa-a77d-be3b6b7ff1b"));
    assert!(!valid_lock_session_id("g205dd03-790d-43fa-a77d-be3b6b7ff1b7"));
}

#[test]
fn one_cleanup_removes_at_most_the_limit() {
    let mut cleanup = LockCleanup::new();
    while cleanup.may_continue() {
        cleanup.record_removed();
    }
    assert_eq!(cleanup.removed(), MAX_LOCKS_PER_CLEANUP);
}

#[test]
fn trusts_only_a_private_single_link_maintenance_lock() {
    let trusted = LockFileFacts { is_file: true, owned_by_caller: true, link_count: 1, mode: 0o600 };
    assert!(check_maintenance_lock(trusted));
    assert!(!check_maintenance_lock(LockFileFacts { mode: 0o640, ..trusted }));
    assert!(!check_maintenance_lock(LockFileFacts { link_count: 2, ..trusted }));
    assert!(!check_maintenance_lock(LockFileFacts { owned_by_caller: false, ..trusted }));
}

#[test]
fn stop_lock_wait_is_bounded_by_its_deadline() {
    assert_eq!(stop_lock_step(LockAttempt::Taken, 0, 0), StopLockStep::Acquired);
    assert_eq!(stop_lock_step(LockAttempt::Failed, 0, 100), StopLockStep::GiveUp);
    assert_eq!(stop_lock_step(LockAttempt::WouldBlock, 100, 100), StopLockStep::GiveUp);
    assert_eq!(stop_lock_step(LockAttempt::WouldBlock, 0, 75), StopLockStep::Retry(50));
    assert_eq!(stop_lock_step(LockAttempt::WouldBlock, 50, 75), StopLockStep::Retry(25));
}
