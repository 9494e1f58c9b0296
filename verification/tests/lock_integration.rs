use auxin::lock_integration::{get_user_identifier, truncate, user_identifier};
use auxin::lock_integration::{
    lock_acquired_box, lock_status_box, lock_status_notices, NoticeKind, LOCK_ACQUIRED_TOP, LOCK_BOX_BLANK,
    LOCK_BOX_BOTTOM, LOCK_STATUS_TOP,
};

#[test]
fn test_truncate() {
    assert_eq!(truncate("short", 10), "short");
    assert_eq!(truncate("this is a very long string", 10), "this is...");
    assert_eq!(truncate("exact", 5), "exact");
}

#[test]
fn test_get_user_identifier() {
    let id = get_user_identifier(Some("tester"));
    assert!(id.contains('@'));
}

#[test]
fn test_user_identifier_format() {
    let id = get_user_identifier(Some("tester"));

    assert!(id.contains('@'), "User identifier should contain @");

    let parts: Vec<&str> = id.split('@').collect();
    assert_eq!(parts.len(), 2, "Should have exactly one @ separator");
    assert!(!parts[0].is_empty(), "Username part should not be empty");
    assert!(!parts[1].is_empty(), "Hostname part should not be empty");
}

#[test]
fn unknown_parts_are_named_unknown() {
    assert_eq!(user_identifier(Some("ann"), Some("studio")), "ann@studio");
    assert_eq!(user_identifier(None, Some("studio")), "unknown@studio");
    assert_eq!(user_identifier(Some("ann"), None), "ann@unknown");
    assert!(get_user_identifier(None).starts_with("unknown@"));
}

fn report(expired: bool, stale: bool, remaining_secs: i64, owned: bool) -> auxin::lock_integration::LockReport {
    auxin::lock_integration::LockReport {
        locked_by: "alice@studio".to_string(),
        acquired_at: auxin::clock::Timestamp { secs: 0, nanos: 0 },
        expires_at: auxin::clock::Timestamp { secs: 4 * 3600, nanos: 0 },
        expired,
        stale,
        remaining_secs,
        owned_by_current_user: owned,
    }
}

#[test]
fn lock_status_box_of_a_held_lock() {
    colored::control::set_override(false);
    let lines = lock_status_box(Some(&report(false, false, 3 * 3600 + 125, true))).unwrap();
    let expected = vec![
        String::new(),
        LOCK_STATUS_TOP.to_string(),
        LOCK_BOX_BLANK.to_string(),
        format!("│  Status: {} Locked{:<42} │", "●", ""),
        LOCK_BOX_BLANK.to_string(),
        format!("│  Holder:    {:<45} │", "alice@studio"),
        format!("│  Acquired:  {}{:<27} │", "1970-01-01 00:00 UTC", ""),
        format!("│  Expires:   {}{:<27} │", "1970-01-01 04:00 UTC", ""),
        format!("│  Remaining: {}h {}m{:<38} │", 3, 2, ""),
        LOCK_BOX_BLANK.to_string(),
        LOCK_BOX_BOTTOM.to_string(),
        String::new(),
    ];
    assert_eq!(lines, expected);
}

#[test]
fn lock_status_box_of_expired_stale_and_missing_locks() {
    colored::control::set_override(false);
    let expired = lock_status_box(Some(&report(true, true, 0, false))).unwrap();
    assert_eq!(expired.len(), 13);
    assert_eq!(expired[3], format!("│  Status: {} Expired{:<42} │", "○", ""));
    assert_eq!(expired[4], LOCK_BOX_BLANK);
    assert_eq!(expired[5], "│  This lock has expired and can be overwritten           │");
    let stale = lock_status_box(Some(&report(false, true, -5, false))).unwrap();
    assert_eq!(stale[3], format!("│  Status: {} Stale{:<44} │", "◐", ""));
    assert_eq!(stale[5], "│  No heartbeat for >1 hour (may be abandoned)            │");
    assert_eq!(stale.len(), 13);
    let none = lock_status_box(None).unwrap();
    assert_eq!(none.len(), 9);
    assert_eq!(none[3], format!("│  Status: {} Unlocked{:<40} │", "●", ""));
    assert_eq!(none[5], "│  The project is available for editing                    │");
    let mut far = report(false, false, 10, true);
    far.expires_at = auxin::clock::Timestamp { secs: i64::MAX, nanos: 0 };
    assert!(lock_status_box(Some(&far)).is_none());
    let mut long = report(false, false, 10, true);
    long.locked_by = "a-very-long-user-name-that-goes-on@a-machine-with-a-long-name".to_string();
    let lines = lock_status_box(Some(&long)).unwrap();
    assert_eq!(lines[5], format!("│  Holder:    {:<45} │", "a-very-long-user-name-that-goes-on@a-machi..."));
}

#[test]
fn lock_status_notices_by_owner() {
    assert_eq!(
        lock_status_notices(Some(&report(false, false, 1, true))),
        vec![
            (NoticeKind::Success, "You own this lock".to_string()),
            (NoticeKind::Info, "Release with: auxin lock release".to_string()),
        ]
    );
    assert_eq!(
        lock_status_notices(Some(&report(false, false, 1, false))),
        vec![
            (NoticeKind::Warning, "Locked by another user".to_string()),
            (NoticeKind::Info, "Wait for expiration or contact lock holder".to_string()),
        ]
    );
    assert_eq!(
        lock_status_notices(None),
        vec![(NoticeKind::Info, "Acquire lock with: auxin lock acquire".to_string())]
    );
}

#[test]
fn lock_acquired_box_lines() {
    let lines = lock_acquired_box("lock-1234", 4, auxin::clock::Timestamp { secs: 86_400 + 90, nanos: 0 }).unwrap();
    let expected = vec![
        String::new(),
        LOCK_ACQUIRED_TOP.to_string(),
        LOCK_BOX_BLANK.to_string(),
        "│  ✓ You now have exclusive editing rights                │".to_string(),
        LOCK_BOX_BLANK.to_string(),
        format!("│  Lock ID: {:<44} │", "lock-1234"),
        format!("│  Expires in: {} hours{:<36} │", 4, ""),
        format!("│  Expires at: {}{:<27} │", "1970-01-02 00:01 UTC", ""),
        LOCK_BOX_BLANK.to_string(),
        LOCK_BOX_BOTTOM.to_string(),
        String::new(),
    ];
    assert_eq!(lines, expected);
    assert!(lock_acquired_box("x", 1, auxin::clock::Timestamp { secs: i64::MIN, nanos: 0 }).is_none());
}
