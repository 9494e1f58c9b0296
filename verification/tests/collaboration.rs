use auxin::clock::Timestamp;
use auxin::collaboration::{
    extract_author_from_message, parse_metadata_line, Activity, ActivityFeed, ActivityType, CommentManager,
    TeamManager, TeamMember,
};

fn pair(k: &str, v: &str) -> Option<(String, String)> {
    Some((k.to_string(), v.to_string()))
}

#[test]
fn test_activity_type_icon() {
    assert_eq!(ActivityType::Commit.icon(), "●");
    assert_eq!(ActivityType::LockAcquired.icon(), "🔒");
    assert_eq!(ActivityType::Comment.icon(), "💬");
}

#[test]
fn test_activity_type_label() {
    assert_eq!(ActivityType::Commit.label(), "Commit");
    assert_eq!(ActivityType::LockReleased.label(), "Lock Released");
}

#[test]
fn test_parse_metadata_line() {
    assert_eq!(parse_metadata_line("BPM: 120"), pair("BPM", "120"));
    assert_eq!(parse_metadata_line("Sample Rate: 48000Hz"), pair("Sample Rate", "48000Hz"));
    assert_eq!(parse_metadata_line("Not metadata"), None);
}

#[test]
fn test_extract_author_from_message() {
    let message = "Commit message\n\nAuthor: john@laptop";
    assert_eq!(extract_author_from_message(message), Some("john@laptop".to_string()));

    assert_eq!(extract_author_from_message("No author here"), None);
}

#[test]
fn test_activity_feed_creation() {
    let _feed = ActivityFeed::new();
}

#[test]
fn test_team_manager_creation() {
    let _manager = TeamManager::new();
}

#[test]
fn test_comment_manager_creation() {
    let manager = CommentManager::new();
    assert_eq!(manager.comments_dir, ".oxen/comments");
}

#[test]
fn test_activity_creation_from_metadata() {
    let activity = Activity {
        id: "abc123".to_string(),
        activity_type: ActivityType::Commit,
        author: "john@laptop".to_string(),
        timestamp: Timestamp { secs: 0, nanos: 0 },
        message: "Added drums track".to_string(),
        metadata: vec![
            ("BPM".to_string(), "128".to_string()),
            ("Sample Rate".to_string(), "48000Hz".to_string()),
        ],
    };

    assert_eq!(activity.activity_type.icon(), "●");
    assert_eq!(activity.metadata.iter().find(|(k, _)| k == "BPM").unwrap().1, "128");
    assert!(activity.message.contains("drums"));
}

#[test]
fn test_team_member_stats() {
    let member = TeamMember {
        name: "alice@studio".to_string(),
        commit_count: 15,
        last_active: Timestamp { secs: 0, nanos: 0 },
    };

    assert_eq!(member.name, "alice@studio");
    assert_eq!(member.commit_count, 15);
}

#[test]
fn test_parse_metadata_empty_line() {
    assert_eq!(parse_metadata_line(""), None);
    assert_eq!(parse_metadata_line("   "), None);
}

#[test]
fn test_extract_author_multiline() {
    let message = "First line\nSecond line\n\nAuthor: bob@machine\nSome other text";
    assert_eq!(extract_author_from_message(message), Some("bob@machine".to_string()));
}

#[test]
fn test_comment_id_uniqueness() {
    let manager = CommentManager::new();
    let comment1 = manager.new_comment("test123", "user@host", "Comment 1");
    let comment2 = manager.new_comment("test123", "user@host", "Comment 2");
    assert_ne!(comment1.id, comment2.id);
    assert_eq!(comment1.id.len(), 36);
}

#[test]
fn metadata_keys_in_capitals_or_known() {
    assert_eq!(parse_metadata_line("  KEY SIG :  F# minor "), pair("KEY SIG", "F# minor"));
    assert_eq!(parse_metadata_line("Tempo: 90"), pair("Tempo", "90"));
    assert_eq!(parse_metadata_line("Time Signature: 3/4"), pair("Time Signature", "3/4"));
    assert_eq!(parse_metadata_line("Mixed Case: x"), None);
    assert_eq!(parse_metadata_line(": value"), pair("", "value"));
}

#[test]
fn commit_message_splits_into_message_and_metadata() {
    let feed = ActivityFeed::new();
    let (message, metadata) = feed.parse_commit_message("\n  Drums take 3  \nBPM: 120\nSecond line\nBPM: 124\nKey: C");
    assert_eq!(message, "Drums take 3");
    assert_eq!(metadata, vec![("BPM".to_string(), "124".to_string()), ("Key".to_string(), "C".to_string())]);
}

#[test]
fn commit_becomes_an_activity() {
    let feed = ActivityFeed::new();
    let a = feed.commit_to_activity("c0ffee", "Mix\nAuthor: ann@mac\nBPM: 100");
    assert_eq!(a.id, "c0ffee");
    assert_eq!(a.activity_type, ActivityType::Commit);
    assert_eq!(a.author, "ann@mac");
    assert_eq!(a.message, "Mix");
    let b = feed.commit_to_activity("c1", "No author");
    assert_eq!(b.author, "unknown");
}

#[test]
fn activity_since_keeps_later_or_equal_timestamps() {
    let mk = |id: &str, secs: i64, nanos: u32| Activity {
        id: id.to_string(),
        activity_type: ActivityType::Commit,
        author: "a".to_string(),
        timestamp: Timestamp { secs, nanos },
        message: String::new(),
        metadata: vec![],
    };
    let kept = ActivityFeed::get_activity_since(
        vec![mk("a", 10, 0), mk("b", 20, 5), mk("c", 20, 4), mk("d", 30, 0)],
        Timestamp { secs: 20, nanos: 5 },
    );
    let ids: Vec<String> = kept.into_iter().map(|a| a.id).collect();
    assert_eq!(ids, vec!["b".to_string(), "d".to_string()]);
}

#[test]
fn comment_file_lives_under_the_repository() {
    let manager = CommentManager::new();
    assert_eq!(manager.comment_file("/repo", "abc"), "/repo/.oxen/comments/abc.json");
}

#[test]
fn team_members_most_active_first() {
    let messages = vec![
        "Fix mix\nAuthor: bob@studio".to_string(),
        "Vocals\n  Author:   alice@home  ".to_string(),
        "No author here".to_string(),
        "Drums\nAuthor: bob@studio".to_string(),
        "Keys\nAuthor: carol@x".to_string(),
        "Bass\nAuthor: carol@x".to_string(),
        "Pads\nAuthor: carol@x".to_string(),
    ];
    let now = Timestamp { secs: 1_700_000_000, nanos: 0 };
    let members = TeamManager::new().discover_team_members(&messages, now);
    let got: Vec<(String, usize)> = members.iter().map(|m| (m.name.clone(), m.commit_count)).collect();
    assert_eq!(
        got,
        vec![
            ("carol@x".to_string(), 3),
            ("bob@studio".to_string(), 2),
            ("alice@home".to_string(), 1),
        ]
    );
    assert!(members.iter().all(|m| m.last_active == now));
    assert!(TeamManager::new().discover_team_members(&vec![], now).is_empty());
}

#[test]
fn comments_list_newest_first() {
    let manager = CommentManager::new();
    let make = |text: &str, secs: i64| {
        let mut c = manager.new_comment("abc", "u@h", text);
        c.created_at = Timestamp { secs, nanos: 0 };
        c
    };
    let listed = auxin::sequences::newest_first(vec![make("old", 1), make("new", 9), make("mid", 5), make("new too", 9)]);
    let texts: Vec<&str> = listed.iter().map(|c| c.text.as_str()).collect();
    assert_eq!(texts, vec!["new", "new too", "mid", "old"]);
}
