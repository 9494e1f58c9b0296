use auxin::conflict_detection::{ConflictCheckResult, ConflictDetector, ConflictRecommendation, LockHolder};

#[test]
fn test_conflict_detector_creation() {
    let _detector = ConflictDetector::new();
}

#[test]
fn test_conflict_check_result_no_conflicts() {
    let result = ConflictCheckResult {
        has_conflicts: false,
        local_ahead: 0,
        remote_ahead: 0,
        locked_by_other: false,
        lock_owner: None,
        recommendation: ConflictRecommendation::Safe,
    };

    assert!(!result.has_conflicts);
    assert_eq!(result.recommendation, ConflictRecommendation::Safe);
}

#[test]
fn test_conflict_check_result_with_divergence() {
    let result = ConflictCheckResult {
        has_conflicts: true,
        local_ahead: 3,
        remote_ahead: 2,
        locked_by_other: false,
        lock_owner: None,
        recommendation: ConflictRecommendation::ManualMergeRequired,
    };

    assert!(result.has_conflicts);
    assert_eq!(result.local_ahead, 3);
    assert_eq!(result.remote_ahead, 2);
    assert_eq!(result.recommendation, ConflictRecommendation::ManualMergeRequired);
}

#[test]
fn test_conflict_check_result_locked_by_other() {
    let result = ConflictCheckResult {
        has_conflicts: false,
        local_ahead: 0,
        remote_ahead: 0,
        locked_by_other: true,
        lock_owner: Some("other@user".to_string()),
        recommendation: ConflictRecommendation::AcquireLock,
    };

    assert!(result.locked_by_other);
    assert_eq!(result.lock_owner.as_deref(), Some("other@user"));
    assert_eq!(result.recommendation, ConflictRecommendation::AcquireLock);
}

#[test]
fn test_conflict_recommendation_variants() {
    assert_eq!(ConflictRecommendation::Safe, ConflictRecommendation::Safe);
    assert_ne!(ConflictRecommendation::Safe, ConflictRecommendation::AcquireLock);
}

#[test]
fn pull_and_push_recommendations_follow_the_lock() {
    let d = ConflictDetector::new();
    let mine = ConflictDetector::lock_status(Some(LockHolder { locked_by: "me@box".to_string(), owned_by_current_user: true }));
    let theirs = ConflictDetector::lock_status(Some(LockHolder { locked_by: "them@box".to_string(), owned_by_current_user: false }));
    let none = ConflictDetector::lock_status(None);

    assert_eq!(d.check_before_pull(mine.clone()).recommendation, ConflictRecommendation::Safe);
    assert_eq!(d.check_before_pull(none.clone()).recommendation, ConflictRecommendation::Safe);
    let r = d.check_before_pull(theirs.clone());
    assert_eq!(r.recommendation, ConflictRecommendation::AcquireLock);
    assert_eq!(r.lock_owner.as_deref(), Some("them@box"));
    assert!(r.locked_by_other);

    assert_eq!(d.check_before_push(mine).recommendation, ConflictRecommendation::Safe);
    assert_eq!(d.check_before_push(none).recommendation, ConflictRecommendation::AcquireLock);
    assert_eq!(d.check_before_push(theirs).recommendation, ConflictRecommendation::AcquireLock);
}
