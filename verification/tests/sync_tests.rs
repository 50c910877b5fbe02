use savesync::sync::{decide, SyncAction};

#[test]
fn download_when_only_cloud_is_ahead() {
    assert_eq!(decide(100, 50, 200), SyncAction::Download);
}

#[test]
fn upload_when_only_local_is_ahead() {
    assert_eq!(decide(100, 150, 50), SyncAction::Upload);
}

#[test]
fn conflict_when_both_sides_are_ahead() {
    assert_eq!(decide(100, 150, 200), SyncAction::Conflict);
}

#[test]
fn noop_when_local_equals_synced() {
    assert_eq!(decide(100, 100, 200), SyncAction::NoOp);
    assert_eq!(decide(100, 100, 50), SyncAction::NoOp);
}

#[test]
fn noop_when_cloud_equals_synced() {
    assert_eq!(decide(100, 200, 100), SyncAction::NoOp);
    assert_eq!(decide(100, 50, 100), SyncAction::NoOp);
}

#[test]
fn noop_when_both_sides_are_behind() {
    assert_eq!(decide(100, 50, 60), SyncAction::NoOp);
}

#[test]
fn decision_is_deterministic() {
    for _ in 0..3 {
        assert_eq!(decide(100, 50, 200), SyncAction::Download);
        assert_eq!(decide(100, 150, 50), SyncAction::Upload);
        assert_eq!(decide(100, 150, 200), SyncAction::Conflict);
    }
}

#[test]
fn decision_depends_only_on_order() {
    // Same pairwise orders relative to synced, different magnitudes.
    assert_eq!(decide(100, 50, 200), decide(7, 3, 1000));
    assert_eq!(decide(100, 150, 50), decide(7, 1000, 3));
    assert_eq!(decide(100, 150, 200), decide(7, 8, 9));
}

#[test]
fn extremes_follow_the_table() {
    assert_eq!(decide(0, 0, 0), SyncAction::NoOp);
    assert_eq!(decide(0, u64::MAX, u64::MAX), SyncAction::Conflict);
    assert_eq!(decide(u64::MAX, 0, 0), SyncAction::NoOp);
    assert_eq!(decide(0, 0, u64::MAX), SyncAction::NoOp);
    assert_eq!(decide(1, 0, u64::MAX), SyncAction::Download);
}
