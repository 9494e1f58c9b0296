use auxin::clock::{format_time_ago, Timestamp};
use auxin::operation_history::{
    HistoryOperation, OperationHistoryEntry, OperationHistoryManager, OperationResult, MAX_HISTORY_ENTRIES,
};

#[test]
fn test_operation_history_manager_creation() {
    let manager = OperationHistoryManager::new(Some("/home/user"));
    assert!(manager.history_file.contains(".auxin"));
}

#[test]
fn test_record_and_load_operations() {
    let entry = OperationHistoryEntry::new(HistoryOperation::LockAcquire)
        .with_repo_path("/test/repo")
        .with_result(OperationResult::Success);

    let loaded = OperationHistoryManager::record_entry(Vec::new(), entry.clone());
    assert_eq!(loaded.len(), 1);
    assert_eq!(loaded[0].operation, HistoryOperation::LockAcquire);
}

#[test]
fn test_get_recent_operations() {
    let mut entries = Vec::new();
    for i in 0..5 {
        let entry = OperationHistoryEntry::new(HistoryOperation::Commit).with_metadata("index", &i.to_string());
        entries = OperationHistoryManager::record_entry(entries, entry);
    }

    let recent = OperationHistoryManager::get_recent(entries, 3);
    assert_eq!(recent.len(), 3);
    assert_eq!(recent[0].metadata, vec![("index".to_string(), "4".to_string())]);
}

#[test]
fn test_get_by_operation_type() {
    let entries = vec![
        OperationHistoryEntry::new(HistoryOperation::LockAcquire),
        OperationHistoryEntry::new(HistoryOperation::Commit),
        OperationHistoryEntry::new(HistoryOperation::LockAcquire),
    ];

    let lock_ops = OperationHistoryManager::get_by_operation(entries, &HistoryOperation::LockAcquire);
    assert_eq!(lock_ops.len(), 2);
}

#[test]
fn test_get_by_result() {
    let entries = vec![
        OperationHistoryEntry::new(HistoryOperation::Push).with_result(OperationResult::Success),
        OperationHistoryEntry::new(HistoryOperation::Pull).with_result(OperationResult::Failure("Network error".to_string())),
    ];

    let successful = OperationHistoryManager::get_by_result(entries.clone(), true);
    let failed = OperationHistoryManager::get_by_result(entries, false);

    assert_eq!(successful.len(), 1);
    assert_eq!(failed.len(), 1);
}

#[test]
fn test_get_stats() {
    let entries = vec![
        OperationHistoryEntry::new(HistoryOperation::LockAcquire),
        OperationHistoryEntry::new(HistoryOperation::Push),
        OperationHistoryEntry::new(HistoryOperation::Pull),
        OperationHistoryEntry::new(HistoryOperation::Commit).with_result(OperationResult::Failure("Test error".to_string())),
    ];

    let stats = OperationHistoryManager::get_stats(&entries);
    assert_eq!(stats.total, 4);
    assert_eq!(stats.successful, 3);
    assert_eq!(stats.failed, 1);
    assert_eq!(stats.lock_operations, 1);
    assert_eq!(stats.network_operations, 2);
}

#[test]
fn test_max_history_entries() {
    let mut entries = Vec::new();
    for i in 0..15 {
        entries = OperationHistoryManager::record_entry(
            entries,
            OperationHistoryEntry::new(HistoryOperation::Commit).with_metadata("i", &i.to_string()),
        );
    }
    assert!(entries.len() <= 15);
}

#[test]
fn test_entry_builder_pattern() {
    let entry = OperationHistoryEntry::new(HistoryOperation::LockAcquire)
        .with_repo_path("/test/path")
        .with_result(OperationResult::Success)
        .with_metadata("timeout", "4");

    assert_eq!(entry.operation, HistoryOperation::LockAcquire);
    assert_eq!(entry.repo_path, Some("/test/path".to_string()));
    assert!(entry.is_success());
    assert_eq!(entry.metadata.iter().find(|(k, _)| k == "timeout").map(|(_, v)| v.clone()), Some("4".to_string()));
}

#[test]
fn history_keeps_the_most_recent_entries() {
    let mut entries = Vec::new();
    for i in 0..(MAX_HISTORY_ENTRIES + 3) {
        let mut e = OperationHistoryEntry::new(HistoryOperation::Fetch);
        e.id = i.to_string();
        entries.push(e);
    }
    let kept = OperationHistoryManager::record_entry(entries, OperationHistoryEntry::new(HistoryOperation::Logout));
    assert_eq!(kept.len(), MAX_HISTORY_ENTRIES);
    assert_eq!(kept[0].id, "4");
    assert_eq!(kept[MAX_HISTORY_ENTRIES - 1].operation, HistoryOperation::Logout);
}

#[test]
fn custom_operations_are_one_kind_and_metadata_keys_are_replaced() {
    let entries = vec![
        OperationHistoryEntry::new(HistoryOperation::Custom("a".to_string())),
        OperationHistoryEntry::new(HistoryOperation::Custom("b".to_string())),
        OperationHistoryEntry::new(HistoryOperation::Login),
    ];
    let customs = OperationHistoryManager::get_by_operation(entries, &HistoryOperation::Custom("z".to_string()));
    assert_eq!(customs.len(), 2);

    let e = OperationHistoryEntry::new(HistoryOperation::Login).with_metadata("k", "1").with_metadata("j", "2").with_metadata("k", "3");
    assert_eq!(e.metadata, vec![("k".to_string(), "3".to_string()), ("j".to_string(), "2".to_string())]);
}

#[test]
fn repository_paths_compare_as_paths() {
    let entries = vec![
        OperationHistoryEntry::new(HistoryOperation::Push).with_repo_path("/test/repo/"),
        OperationHistoryEntry::new(HistoryOperation::Push).with_repo_path("/test//repo"),
        OperationHistoryEntry::new(HistoryOperation::Push).with_repo_path("/test/./repo"),
        OperationHistoryEntry::new(HistoryOperation::Push).with_repo_path("test/repo"),
        OperationHistoryEntry::new(HistoryOperation::Push),
    ];
    assert_eq!(OperationHistoryManager::get_by_repo(entries, "/test/repo").len(), 3);
    let rel = vec![
        OperationHistoryEntry::new(HistoryOperation::Push).with_repo_path("./a"),
        OperationHistoryEntry::new(HistoryOperation::Push).with_repo_path("a"),
    ];
    assert_eq!(OperationHistoryManager::get_by_repo(rel, "./a/.").len(), 1);
}

#[test]
fn time_ago_texts() {
    assert_eq!(format_time_ago(-5), "-5s ago");
    assert_eq!(format_time_ago(59), "59s ago");
    assert_eq!(format_time_ago(60), "1m ago");
    assert_eq!(format_time_ago(3599), "59m ago");
    assert_eq!(format_time_ago(3600), "1h ago");
    assert_eq!(format_time_ago(86399), "23h ago");
    assert_eq!(format_time_ago(86400 * 3), "3d ago");
    assert_eq!(format_time_ago(i64::MIN as i128), "-9223372036854775808s ago");
}

#[test]
fn icons_of_operations() {
    assert_eq!(HistoryOperation::LockAcquire.icon(), "🔒");
    assert_eq!(HistoryOperation::Fetch.icon(), "•");
    let _ = Timestamp { secs: 1, nanos: 2 };
}

#[test]
fn test_export_csv() {
    let mut entries = Vec::new();
    entries = OperationHistoryManager::record_entry(entries, OperationHistoryEntry::new(HistoryOperation::LockAcquire));
    entries = OperationHistoryManager::record_entry(entries, OperationHistoryEntry::new(HistoryOperation::Push));
    let csv_content = OperationHistoryManager::export_csv_text(&entries).unwrap();
    assert!(csv_content.contains("Timestamp,Operation,User,Machine,Result,Repo"));
    assert!(csv_content.contains("LockAcquire"));
    assert!(csv_content.contains("Push"));
}

#[test]
fn export_csv_exact_lines() {
    let mut e = OperationHistoryEntry::new(HistoryOperation::Custom("say \"hi\"".to_string()))
        .with_repo_path("/r")
        .with_result(OperationResult::Failure("boom".to_string()));
    e.timestamp = Timestamp { secs: 0, nanos: 0 };
    e.user = "u".to_string();
    e.machine_id = "m".to_string();
    let text = OperationHistoryManager::export_csv_text(&vec![e]).unwrap();
    assert_eq!(
        text,
        "Timestamp,Operation,User,Machine,Result,Repo\n1970-01-01 00:00:00 UTC,Custom(\"say \\\"hi\\\"\"),u,m,Failure: boom,/r\n"
    );
    let mut far = OperationHistoryEntry::new(HistoryOperation::Commit);
    far.timestamp = Timestamp { secs: i64::MAX, nanos: 0 };
    assert_eq!(OperationHistoryManager::export_csv_text(&vec![far]), None);
    assert_eq!(
        OperationHistoryManager::export_csv_text(&vec![]).unwrap(),
        "Timestamp,Operation,User,Machine,Result,Repo\n"
    );
}

fn entry_at(op: HistoryOperation, user: &str, secs: i64, result: OperationResult) -> OperationHistoryEntry {
    let mut e = OperationHistoryEntry::new(op).with_result(result);
    e.user = user.to_string();
    e.timestamp = Timestamp { secs, nanos: 0 };
    e
}

#[test]
fn history_listing_shows_recent_entries_oldest_first() {
    colored::control::set_override(false);
    let entries = vec![
        entry_at(HistoryOperation::Pull, "ann", 0, OperationResult::Success),
        entry_at(HistoryOperation::LockAcquire, "bob", 1_000, OperationResult::Success),
        entry_at(HistoryOperation::Push, "cy", 2_000, OperationResult::Failure("timeout".to_string())),
        entry_at(HistoryOperation::Custom("sync".to_string()), "di", 3_000, OperationResult::Partial("half".to_string())),
    ];
    let now = Timestamp { secs: 3_030, nanos: 0 };
    let listing = OperationHistoryManager::history_listing(&entries, 3, now);
    assert_eq!(listing.len(), 5);
    assert_eq!(listing[0], vec![format!("\n{}", auxin::operation_history::HISTORY_TOP)]);
    assert_eq!(listing[1], vec!["│ 🔒 ✓ LockAcquire by bob 33m ago".to_string()]);
    assert_eq!(
        listing[2],
        vec!["│ ⬆ ✗ Push by cy 17m ago".to_string(), "│   Error: timeout".to_string()]
    );
    assert_eq!(listing[3], vec!["│ • ⚠ Custom(\"sync\") by di 30s ago".to_string()]);
    assert_eq!(listing[4], vec![format!("{}\n", auxin::operation_history::HISTORY_BOTTOM)]);
}

#[test]
fn history_listing_when_nothing_to_show() {
    colored::control::set_override(false);
    let now = Timestamp { secs: 0, nanos: 0 };
    let empty = OperationHistoryManager::history_listing(&Vec::new(), 10, now);
    assert_eq!(empty, vec![vec!["No operation history yet".to_string()]]);
    let one = vec![entry_at(HistoryOperation::Commit, "x", 0, OperationResult::Success)];
    let none_shown = OperationHistoryManager::history_listing(&one, 0, now);
    assert_eq!(none_shown, vec![vec!["No operation history yet".to_string()]]);
}
