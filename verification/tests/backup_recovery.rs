use auxin::backup_recovery::{BackupRecoveryManager, RecoveryHelper, Snapshot, SnapshotType, MAX_SNAPSHOTS};

#[test]
fn test_snapshot_creation() {
    let snapshot = Snapshot::new(SnapshotType::Manual, "/test/repo")
        .with_description("Test snapshot")
        .with_commit_id("abc123");

    assert_eq!(snapshot.snapshot_type, SnapshotType::Manual);
    assert_eq!(snapshot.description, "Test snapshot");
    assert_eq!(snapshot.commit_id, Some("abc123".to_string()));
}

#[test]
fn test_backup_recovery_manager_creation() {
    let manager = BackupRecoveryManager::new(Some("/home/user"));
    assert!(manager.snapshots_dir.contains(".auxin"));
}

#[test]
fn test_recovery_helper_guides() {
    let push_steps = RecoveryHelper::failed_push_recovery();
    assert!(!push_steps.is_empty());
    assert!(push_steps.iter().any(|s| s.contains("network")));

    let pull_steps = RecoveryHelper::failed_pull_recovery();
    assert!(!pull_steps.is_empty());
    assert!(pull_steps.iter().any(|s| s.contains("authentication")));

    let lock_steps = RecoveryHelper::lock_conflict_recovery();
    assert!(!lock_steps.is_empty());
    assert!(lock_steps.iter().any(|s| s.contains("lock")));
}

#[test]
fn test_list_snapshots_for_repo() {
    let snapshots = vec![
        Snapshot::new(SnapshotType::Manual, "/repo1"),
        Snapshot::new(SnapshotType::Manual, "/repo2"),
        Snapshot::new(SnapshotType::Manual, "/repo1"),
    ];
    let repo1 = BackupRecoveryManager::list_snapshots_for_repo(snapshots, "/repo1");
    assert_eq!(repo1.len(), 2);
}

#[test]
fn test_cleanup_old_snapshots() {
    let mut snapshots = Vec::new();
    for i in 0..(MAX_SNAPSHOTS + 10) {
        let mut s = Snapshot::new(SnapshotType::Manual, "/test/repo").with_description(&format!("Snapshot {}", i));
        s.created_at = auxin::clock::Timestamp { secs: i as i64, nanos: 0 };
        snapshots.push(s);
    }
    // Handed over oldest first; the cleanup keeps the newest.
    let gone = BackupRecoveryManager::cleanup_old_snapshots(snapshots);
    assert_eq!(gone.len(), 10);
    assert_eq!(gone[0].description, "Snapshot 9");
    assert_eq!(gone[9].description, "Snapshot 0");
    let few = vec![Snapshot::new(SnapshotType::Manual, "/test/repo")];
    assert!(BackupRecoveryManager::cleanup_old_snapshots(few).is_empty());
}

#[test]
fn test_get_restore_instructions() {
    let snapshot = Snapshot::new(SnapshotType::Manual, "/test/repo").with_commit_id("abc123").with_description("Test");
    let instructions = BackupRecoveryManager::get_restore_instructions(&snapshot, "5m ago");
    assert!(!instructions.is_empty());
    assert!(instructions.iter().any(|s| s.contains("commit")));
    assert_eq!(instructions.len(), 8);
    assert_eq!(instructions[3], "   cd /test/repo");
    assert_eq!(instructions[5], "   oxen checkout abc123");

    let bare = Snapshot::new(SnapshotType::Manual, "/test/repo");
    let steps = BackupRecoveryManager::get_restore_instructions(&bare, "1h ago");
    assert_eq!(steps.len(), 5);
    assert_eq!(steps[2], "1. Manual restore required (no commit ID stored)");
}

#[test]
fn paths_of_snapshots() {
    let manager = BackupRecoveryManager::new(None);
    assert_eq!(manager.snapshots_dir, "./.auxin/snapshots");
    assert_eq!(manager.snapshot_metadata_path("s1"), "./.auxin/snapshots/s1/snapshot.json");
    let custom = BackupRecoveryManager::with_snapshots_dir("/snaps".to_string());
    assert_eq!(custom.snapshot_metadata_path("/abs"), "/abs/snapshot.json");
}

#[test]
fn recovery_steps_by_scenario() {
    assert_eq!(RecoveryHelper::recovery_steps("push"), RecoveryHelper::failed_push_recovery());
    assert_eq!(RecoveryHelper::recovery_steps("pull"), RecoveryHelper::failed_pull_recovery());
    assert_eq!(RecoveryHelper::recovery_steps("lock"), RecoveryHelper::lock_conflict_recovery());
    assert_eq!(RecoveryHelper::recovery_steps("other"), vec!["Unknown scenario".to_string()]);
}

#[test]
fn snapshot_icons() {
    assert_eq!(SnapshotType::Manual.icon(), "📸");
    assert_eq!(SnapshotType::Scheduled.icon(), "⏰");
}

#[test]
fn recovery_guide_is_boxed() {
    let lines = RecoveryHelper::recovery_guide_lines("lock");
    assert_eq!(lines.len(), 9);
    assert!(lines[0].starts_with('\n'));
    assert!(lines[0].contains("┌─ Recovery Guide"));
    assert_eq!(lines[1], "│ Lock conflict recovery steps:");
    assert_eq!(lines[6], "│");
    assert!(lines[8].contains("└───"));
    assert!(lines[8].ends_with('\n'));
    assert_eq!(RecoveryHelper::recovery_guide_lines("x")[1], "│ Unknown scenario");
}

fn at(secs: i64) -> auxin::clock::Timestamp {
    auxin::clock::Timestamp { secs, nanos: 0 }
}

#[test]
fn snapshot_listing_shows_each_snapshot() {
    colored::control::set_override(false);
    let mut first = Snapshot::new(SnapshotType::AutoBeforePush, "/music/song")
        .with_description("Before push")
        .with_commit_id("0123456789abcdef");
    first.id = "abcdef12-3456-7890-abcd-ef1234567890".to_string();
    first.created_at = at(1_000_000);
    let mut second = Snapshot::new(SnapshotType::Manual, "/music/other");
    second.id = "fedcba98-7654-3210-fedc-ba9876543210".to_string();
    second.created_at = at(1_000_000 - 3 * 86_400);
    let now = at(1_000_000 + 7_200);

    let listing = BackupRecoveryManager::snapshot_listing(&vec![first, second], Some(1), now);
    assert_eq!(listing.len(), 3);
    assert_eq!(listing[0], vec![format!("\n{}", auxin::backup_recovery::SNAPSHOTS_TOP)]);
    assert_eq!(
        listing[1],
        vec![
            "│".to_string(),
            "│ ⬆ abcdef12 2h ago".to_string(),
            "│   Before push".to_string(),
            "│   Commit: 01234567".to_string(),
            "│   Path: /music/song".to_string(),
        ]
    );
    assert_eq!(listing[2].len(), 3);
    assert_eq!(listing[2][0], "│");
    assert!(listing[2][1].starts_with("└───"));
    assert_eq!(
        listing[2][2],
        "\n1 more snapshots available. Use 'auxin snapshots list --all' to see all.\n"
    );
}

#[test]
fn snapshot_listing_without_limit_or_snapshots() {
    colored::control::set_override(false);
    let none = BackupRecoveryManager::snapshot_listing(&Vec::new(), None, at(0));
    assert_eq!(none, vec![vec!["No snapshots found".to_string()]]);

    let mut s = Snapshot::new(SnapshotType::Scheduled, "/p");
    s.id = "12345678".to_string();
    s.created_at = at(100);
    let listing = BackupRecoveryManager::snapshot_listing(&vec![s], None, at(130));
    assert_eq!(listing.len(), 3);
    assert_eq!(listing[1], vec!["│".to_string(), "│ ⏰ 12345678 30s ago".to_string(), "│   Path: /p".to_string()]);
    assert_eq!(listing[2].len(), 2);
}

#[test]
fn test_snapshot_age() {
    let snapshot = Snapshot::new(SnapshotType::Manual, "/test/repo");
    assert_eq!(snapshot.age_hours(), 0);
}

#[test]
fn snapshot_age_in_whole_hours() {
    let mut s = Snapshot::new(SnapshotType::Manual, "/r");
    s.created_at = at(10_000);
    assert_eq!(s.age_hours_at(at(10_000 + 3 * 3600 + 3599)), 3);
    assert_eq!(s.age_hours_at(at(10_000 - 3599)), 0);
    assert_eq!(s.age_hours_at(at(10_000 - 3600)), -1);
    assert_eq!(s.age_hours_at(at(10_000 - 7201)), -2);
}

#[test]
fn snapshots_list_newest_first() {
    let make = |id: &str, secs: i64| {
        let mut s = Snapshot::new(SnapshotType::Manual, "/r");
        s.id = id.to_string();
        s.created_at = at(secs);
        s
    };
    let listed = auxin::sequences::newest_first(vec![
        make("a", 10),
        make("b", 30),
        make("c", 20),
        make("d", 30),
        make("e", 10),
    ]);
    let ids: Vec<&str> = listed.iter().map(|s| s.id.as_str()).collect();
    assert_eq!(ids, vec!["b", "d", "c", "a", "e"]);
}
