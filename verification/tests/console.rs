use std::time::UNIX_EPOCH;
use auxin::console::{
    commit_entry, format_clock, format_timestamp, poll_is_due, CommitEntry, CompareState, Console,
    ConsoleAction, ConsoleMode, DaemonStatus, HooksState, KeyCode, KeyModifiers, LogLevel,
    RepoOutcome, SearchState, MAX_LOG_ENTRIES,
};
use auxin::hooks::HookType;

#[test]
fn test_compare_state_default() {
    let state = CompareState::default();
    assert_eq!(state.commits.len(), 0);
    assert_eq!(state.selected_a, 0);
    assert_eq!(state.selected_b, 0);
    assert_eq!(state.active_selector, 0);
    assert!(state.diff_result.is_none());
}

#[test]
fn test_search_state_default() {
    let state = SearchState::default();
    assert_eq!(state.query, "");
    assert_eq!(state.results.len(), 0);
    assert_eq!(state.selected_index, 0);
}

#[test]
fn test_hooks_state_default() {
    let state = HooksState::default();
    assert_eq!(state.hooks.len(), 0);
    assert_eq!(state.selected_index, 0);
}

#[test]
fn test_commit_entry_creation() {
    let entry = CommitEntry {
        id: "abc123def456".to_string(),
        short_id: "abc123d".to_string(),
        message: "Test commit".to_string(),
        timestamp: "2 hours ago".to_string(),
    };

    assert_eq!(entry.id, "abc123def456");
    assert_eq!(entry.short_id, "abc123d");
    assert_eq!(entry.message, "Test commit");
    assert_eq!(entry.timestamp, "2 hours ago");
}

#[test]
fn test_format_timestamp() {
    let time = UNIX_EPOCH + std::time::Duration::from_secs(3661);
    let formatted = format_timestamp(time);
    assert_eq!(formatted, "01:01:01");
}

#[test]
fn test_format_timestamp_zero() {
    let formatted = format_timestamp(UNIX_EPOCH);
    assert_eq!(formatted, "00:00:00");
}

#[test]
fn clock_wraps_at_midnight() {
    assert_eq!(format_clock(86399), "23:59:59");
    assert_eq!(format_clock(86400), "00:00:00");
    assert_eq!(format_clock(90061), "01:01:01");
}

fn entry(id: &str, message: &str) -> CommitEntry {
    CommitEntry {
        id: id.to_string(),
        short_id: id.to_string(),
        message: message.to_string(),
        timestamp: "now".to_string(),
    }
}

#[test]
fn test_console_creation() {
    let console = Console::new("/test/project.logicx");
    assert_eq!(console.activity_log.len(), 0);
    assert_eq!(console.daemon_status, DaemonStatus::Unknown);
    assert!(console.repo_status.is_none());
    assert!(!console.should_quit);
}

#[test]
fn test_log_entry() {
    let mut console = Console::new("/test/project.logicx");
    console.log(LogLevel::Info, "Test message");
    assert_eq!(console.activity_log.len(), 1);
    assert_eq!(console.activity_log[0].message, "Test message");
    assert_eq!(console.activity_log[0].level, LogLevel::Info);
}

#[test]
fn test_log_pruning() {
    let mut console = Console::new("/test/project.logicx");
    for i in 0..150 {
        console.log(LogLevel::Info, &format!("Message {}", i));
    }
    assert_eq!(console.activity_log.len(), MAX_LOG_ENTRIES);
    assert_eq!(console.activity_log[0].message, "Message 149");
}

#[test]
fn test_daemon_status_update() {
    let mut console = Console::new("/test/project.logicx");
    console.set_daemon_status(DaemonStatus::Running);
    assert_eq!(console.daemon_status, DaemonStatus::Running);
    assert_eq!(console.activity_log.len(), 1);
    assert!(console.activity_log[0].message.contains("connected"));
}

#[test]
fn test_repo_status_update() {
    let mut console = Console::new("/test/project.logicx");
    console.set_repo_status(2, 3, 1);
    assert!(console.repo_status.is_some());
    let status = console.repo_status.unwrap();
    assert_eq!(status.staged, 2);
    assert_eq!(status.modified, 3);
    assert_eq!(status.untracked, 1);
}

#[test]
fn test_compare_mode_initialization() {
    let console = Console::new("/test/project.logicx");
    assert_eq!(console.compare_state.commits.len(), 0);
    assert_eq!(console.compare_state.active_selector, 0);
}

#[test]
fn test_compare_state_selector_switching() {
    let mut console = Console::new("/test/project.logicx");
    console.mode = ConsoleMode::Compare;
    assert_eq!(console.compare_state.active_selector, 0);
    console.handle_compare_mode_key(KeyCode::Tab, KeyModifiers::empty());
    assert_eq!(console.compare_state.active_selector, 1);
    console.handle_compare_mode_key(KeyCode::Tab, KeyModifiers::empty());
    assert_eq!(console.compare_state.active_selector, 0);
}

#[test]
fn test_compare_mode_navigation() {
    let mut console = Console::new("/test/project.logicx");
    console.mode = ConsoleMode::Compare;
    console.compare_state.commits = vec![
        entry("abc123", "Commit 1"),
        entry("def456", "Commit 2"),
        entry("ghi789", "Commit 3"),
    ];
    console.compare_state.active_selector = 0;
    console.compare_state.selected_a = 0;
    console.handle_compare_mode_key(KeyCode::Down, KeyModifiers::empty());
    assert_eq!(console.compare_state.selected_a, 1);
    console.handle_compare_mode_key(KeyCode::Up, KeyModifiers::empty());
    assert_eq!(console.compare_state.selected_a, 0);
    console.compare_state.active_selector = 1;
    console.compare_state.selected_b = 0;
    console.handle_compare_mode_key(KeyCode::Down, KeyModifiers::empty());
    assert_eq!(console.compare_state.selected_b, 1);
}

#[test]
fn test_compare_mode_navigation_boundaries() {
    let mut console = Console::new("/test/project.logicx");
    console.mode = ConsoleMode::Compare;
    console.compare_state.commits = vec![entry("abc123", "Commit 1"), entry("def456", "Commit 2")];
    console.compare_state.active_selector = 0;
    console.compare_state.selected_a = 0;
    console.handle_compare_mode_key(KeyCode::Up, KeyModifiers::empty());
    assert_eq!(console.compare_state.selected_a, 0);
    console.compare_state.selected_a = 1;
    console.handle_compare_mode_key(KeyCode::Down, KeyModifiers::empty());
    assert_eq!(console.compare_state.selected_a, 1);
}

#[test]
fn test_compare_mode_exit() {
    let mut console = Console::new("/test/project.logicx");
    console.mode = ConsoleMode::Compare;
    console.handle_compare_mode_key(KeyCode::Esc, KeyModifiers::empty());
    assert_eq!(console.mode, ConsoleMode::Normal);
}

#[test]
fn test_search_mode_initialization() {
    let console = Console::new("/test/project.logicx");
    assert_eq!(console.search_state.query, "");
    assert_eq!(console.search_state.results.len(), 0);
}

#[test]
fn test_search_mode_query_input() {
    let mut console = Console::new("/test/project.logicx");
    console.mode = ConsoleMode::Search;
    console.handle_search_mode_key(KeyCode::Char('b'), KeyModifiers::empty());
    console.handle_search_mode_key(KeyCode::Char('p'), KeyModifiers::empty());
    console.handle_search_mode_key(KeyCode::Char('m'), KeyModifiers::empty());
    assert_eq!(console.search_state.query, "bpm");
}

#[test]
fn test_search_mode_backspace() {
    let mut console = Console::new("/test/project.logicx");
    console.mode = ConsoleMode::Search;
    for c in ['t', 'e', 's', 't'] {
        console.handle_search_mode_key(KeyCode::Char(c), KeyModifiers::empty());
    }
    assert_eq!(console.search_state.query, "test");
    console.handle_search_mode_key(KeyCode::Backspace, KeyModifiers::empty());
    assert_eq!(console.search_state.query, "tes");
    console.handle_search_mode_key(KeyCode::Backspace, KeyModifiers::empty());
    assert_eq!(console.search_state.query, "te");
}

#[test]
fn test_search_mode_results_navigation() {
    let mut console = Console::new("/test/project.logicx");
    console.mode = ConsoleMode::Search;
    console.search_state.results = vec![
        entry("abc123", "Result 1"),
        entry("def456", "Result 2"),
        entry("ghi789", "Result 3"),
    ];
    console.search_state.selected_index = 0;
    console.handle_search_mode_key(KeyCode::Down, KeyModifiers::empty());
    assert_eq!(console.search_state.selected_index, 1);
    console.handle_search_mode_key(KeyCode::Down, KeyModifiers::empty());
    assert_eq!(console.search_state.selected_index, 2);
    console.handle_search_mode_key(KeyCode::Up, KeyModifiers::empty());
    assert_eq!(console.search_state.selected_index, 1);
}

#[test]
fn test_search_mode_navigation_boundaries() {
    let mut console = Console::new("/test/project.logicx");
    console.mode = ConsoleMode::Search;
    console.search_state.results = vec![entry("abc123", "Result 1")];
    console.search_state.selected_index = 0;
    console.handle_search_mode_key(KeyCode::Up, KeyModifiers::empty());
    assert_eq!(console.search_state.selected_index, 0);
    console.handle_search_mode_key(KeyCode::Down, KeyModifiers::empty());
    assert_eq!(console.search_state.selected_index, 0);
}

#[test]
fn test_search_mode_exit() {
    let mut console = Console::new("/test/project.logicx");
    console.mode = ConsoleMode::Search;
    console.handle_search_mode_key(KeyCode::Esc, KeyModifiers::empty());
    assert_eq!(console.mode, ConsoleMode::Normal);
}

#[test]
fn test_search_mode_clears_results_on_query_change() {
    let mut console = Console::new("/test/project.logicx");
    console.mode = ConsoleMode::Search;
    console.search_state.results = vec![entry("abc123", "Result 1")];
    console.handle_search_mode_key(KeyCode::Char('a'), KeyModifiers::empty());
    assert_eq!(console.search_state.results.len(), 0);
    console.search_state.results = vec![entry("abc123", "Result 1")];
    console.handle_search_mode_key(KeyCode::Backspace, KeyModifiers::empty());
    assert_eq!(console.search_state.results.len(), 0);
}

#[test]
fn test_hooks_mode_initialization() {
    let console = Console::new("/test/project.logicx");
    assert_eq!(console.hooks_state.hooks.len(), 0);
    assert_eq!(console.hooks_state.selected_index, 0);
}

#[test]
fn test_hooks_mode_navigation() {
    let mut console = Console::new("/test/project.logicx");
    console.mode = ConsoleMode::Hooks;
    console.hooks_state.hooks = vec![
        ("pre-commit".to_string(), "validate-metadata".to_string()),
        ("post-commit".to_string(), "notify".to_string()),
        ("pre-commit".to_string(), "check-file-sizes".to_string()),
    ];
    console.hooks_state.selected_index = 0;
    console.handle_hooks_mode_key(KeyCode::Down, KeyModifiers::empty());
    assert_eq!(console.hooks_state.selected_index, 1);
    console.handle_hooks_mode_key(KeyCode::Down, KeyModifiers::empty());
    assert_eq!(console.hooks_state.selected_index, 2);
    console.handle_hooks_mode_key(KeyCode::Up, KeyModifiers::empty());
    assert_eq!(console.hooks_state.selected_index, 1);
}

#[test]
fn test_hooks_mode_navigation_boundaries() {
    let mut console = Console::new("/test/project.logicx");
    console.mode = ConsoleMode::Hooks;
    console.hooks_state.hooks = vec![
        ("pre-commit".to_string(), "hook1".to_string()),
        ("post-commit".to_string(), "hook2".to_string()),
    ];
    console.hooks_state.selected_index = 0;
    console.handle_hooks_mode_key(KeyCode::Up, KeyModifiers::empty());
    assert_eq!(console.hooks_state.selected_index, 0);
    console.hooks_state.selected_index = 1;
    console.handle_hooks_mode_key(KeyCode::Down, KeyModifiers::empty());
    assert_eq!(console.hooks_state.selected_index, 1);
}

#[test]
fn test_hooks_mode_exit() {
    let mut console = Console::new("/test/project.logicx");
    console.mode = ConsoleMode::Hooks;
    console.handle_hooks_mode_key(KeyCode::Esc, KeyModifiers::empty());
    assert_eq!(console.mode, ConsoleMode::Normal);
}

#[test]
fn test_mode_transition_to_compare() {
    let mut console = Console::new("/test/project.logicx");
    assert_eq!(console.mode, ConsoleMode::Normal);
    console.handle_normal_mode_key(KeyCode::Char('d'), KeyModifiers::empty());
    assert_eq!(console.mode, ConsoleMode::Compare);
}

#[test]
fn test_mode_transition_to_search() {
    let mut console = Console::new("/test/project.logicx");
    assert_eq!(console.mode, ConsoleMode::Normal);
    console.handle_normal_mode_key(KeyCode::Char('s'), KeyModifiers::empty());
    assert_eq!(console.mode, ConsoleMode::Search);
}

#[test]
fn test_mode_transition_to_hooks() {
    let mut console = Console::new("/test/project.logicx");
    assert_eq!(console.mode, ConsoleMode::Normal);
    console.handle_normal_mode_key(KeyCode::Char('k'), KeyModifiers::empty());
    assert_eq!(console.mode, ConsoleMode::Hooks);
}

#[test]
fn test_mode_transition_resets_state() {
    let mut console = Console::new("/test/project.logicx");
    console.handle_normal_mode_key(KeyCode::Char('s'), KeyModifiers::empty());
    console.search_state.query = "old query".to_string();
    console.handle_search_mode_key(KeyCode::Esc, KeyModifiers::empty());
    console.handle_normal_mode_key(KeyCode::Char('s'), KeyModifiers::empty());
    assert_eq!(console.search_state.query, "");
}

#[test]
fn test_quit_keyboard_shortcut() {
    let mut console = Console::new("/test/project.logicx");
    assert!(!console.should_quit);
    console.handle_normal_mode_key(KeyCode::Char('q'), KeyModifiers::empty());
    assert!(console.should_quit);
}

#[test]
fn test_ctrl_c_keyboard_shortcut() {
    let mut console = Console::new("/test/project.logicx");
    assert!(!console.should_quit);
    console.handle_normal_mode_key(KeyCode::Char('c'), KeyModifiers::control());
    assert!(console.should_quit);
}

#[test]
fn test_help_mode_transitions() {
    let mut console = Console::new("/test/project.logicx");
    console.handle_normal_mode_key(KeyCode::Char('?'), KeyModifiers::empty());
    assert_eq!(console.mode, ConsoleMode::Help);
    console.handle_help_mode_key(KeyCode::Char('x'), KeyModifiers::empty());
    assert_eq!(console.mode, ConsoleMode::Normal);
    console.handle_normal_mode_key(KeyCode::Char('h'), KeyModifiers::empty());
    assert_eq!(console.mode, ConsoleMode::Help);
}

#[test]
fn plain_c_clears_the_log() {
    let mut console = Console::new("/p");
    console.log(LogLevel::Info, "one");
    console.log(LogLevel::Info, "two");
    let a = console.handle_key_event(KeyCode::Char('c'), KeyModifiers::empty());
    assert_eq!(a, ConsoleAction::Nothing);
    assert!(!console.should_quit);
    assert_eq!(console.activity_log.len(), 1);
    assert_eq!(console.activity_log[0].message, "Log cleared");
}

#[test]
fn keys_ask_for_outside_work() {
    let mut console = Console::new("/p");
    assert_eq!(console.handle_key_event(KeyCode::Char('r'), KeyModifiers::empty()), ConsoleAction::RefreshStatus);
    assert_eq!(console.activity_log[0].message, "Refreshing status...");
    assert_eq!(console.handle_key_event(KeyCode::Char('l'), KeyModifiers::empty()), ConsoleAction::LoadCommits);
    assert_eq!(console.mode, ConsoleMode::RestoreBrowser);
    // an empty browser: Enter does nothing
    assert_eq!(console.handle_key_event(KeyCode::Enter, KeyModifiers::empty()), ConsoleAction::Nothing);
    console.restore_browser.commits = vec![entry("abc", "m")];
    assert_eq!(console.handle_key_event(KeyCode::Enter, KeyModifiers::empty()), ConsoleAction::ExecuteRestore);
    assert_eq!(console.mode, ConsoleMode::Normal);
    assert_eq!(console.handle_key_event(KeyCode::Char('k'), KeyModifiers::empty()), ConsoleAction::LoadHooks);
    assert_eq!(console.handle_key_event(KeyCode::Char('d'), KeyModifiers::empty()), ConsoleAction::Nothing);
    assert_eq!(console.handle_key_event(KeyCode::Char('r'), KeyModifiers::empty()), ConsoleAction::LoadHooks);
}

#[test]
fn commit_dialog_editing() {
    let mut console = Console::new("/p");
    console.handle_key_event(KeyCode::Char('i'), KeyModifiers::empty());
    assert_eq!(console.mode, ConsoleMode::CommitDialog);
    // an empty message is refused
    assert_eq!(console.handle_key_event(KeyCode::Enter, KeyModifiers::empty()), ConsoleAction::Nothing);
    assert_eq!(console.activity_log[0].level, LogLevel::Warning);
    assert_eq!(console.activity_log[0].message, "Commit message is required");
    for c in "Mix".chars() {
        console.handle_key_event(KeyCode::Char(c), KeyModifiers::empty());
    }
    console.handle_key_event(KeyCode::Tab, KeyModifiers::empty());
    console.handle_key_event(KeyCode::Char('9'), KeyModifiers::empty());
    console.handle_key_event(KeyCode::Char('x'), KeyModifiers::empty());
    console.handle_key_event(KeyCode::Backspace, KeyModifiers::empty());
    console.handle_key_event(KeyCode::BackTab, KeyModifiers::empty());
    console.handle_key_event(KeyCode::BackTab, KeyModifiers::empty());
    assert_eq!(console.commit_dialog.active_field, 4);
    for c in " drums , bass,".chars() {
        console.handle_key_event(KeyCode::Char(c), KeyModifiers::empty());
    }
    console.handle_key_event(KeyCode::BackTab, KeyModifiers::empty());
    console.handle_key_event(KeyCode::BackTab, KeyModifiers::empty());
    for c in "48000".chars() {
        console.handle_key_event(KeyCode::Char(c), KeyModifiers::empty());
    }
    assert_eq!(console.commit_dialog.message, "Mix");
    assert_eq!(console.commit_dialog.bpm, "9");
    let request = console.commit_request();
    assert_eq!(request.message, "Mix");
    assert_eq!(request.bpm, Some("9".to_string()));
    assert_eq!(request.sample_rate, Some(48000));
    assert_eq!(request.key, None);
    assert_eq!(request.tags, vec!["drums".to_string(), "bass".to_string(), "".to_string()]);
    assert_eq!(console.handle_key_event(KeyCode::Enter, KeyModifiers::empty()), ConsoleAction::ExecuteCommit);
    assert_eq!(console.mode, ConsoleMode::Normal);
}

#[test]
fn outcomes_are_logged() {
    let mut console = Console::new("/p");
    console.finish_refresh_status(RepoOutcome::Done((2, 13, 0)));
    assert_eq!(console.activity_log[0].message, "Status: 2 staged, 13 modified, 0 untracked");
    assert_eq!(console.repo_status.unwrap().modified, 13);
    console.finish_refresh_status(RepoOutcome::NotRepository);
    assert_eq!(console.activity_log[0].level, LogLevel::Warning);
    assert_eq!(console.activity_log[0].message, "Not an Oxen repository");
    console.finish_refresh_status(RepoOutcome::Failed("boom".to_string()));
    assert_eq!(console.activity_log[0].level, LogLevel::Error);
    assert_eq!(console.activity_log[0].message, "Failed to get status: boom");

    let a = console.finish_commit(RepoOutcome::Done("0123456789abcdef".to_string()));
    assert_eq!(a, ConsoleAction::RefreshStatus);
    assert_eq!(console.activity_log[0].message, "Commit created: 0123456");
    assert_eq!(console.activity_log[1].message, "Creating commit...");
    assert_eq!(console.finish_commit(RepoOutcome::NotRepository), ConsoleAction::Nothing);
    assert_eq!(console.activity_log[0].level, LogLevel::Error);
}

#[test]
fn loaded_commits_are_listed() {
    let mut console = Console::new("/p");
    let history = vec![
        ("0123456789".to_string(), "First line\nmore".to_string()),
        ("abc".to_string(), "".to_string()),
    ];
    console.finish_load_commits(RepoOutcome::Done(history));
    assert_eq!(console.restore_browser.commits.len(), 2);
    assert_eq!(console.restore_browser.commits[0].short_id, "0123456");
    assert_eq!(console.restore_browser.commits[0].message, "First line");
    assert_eq!(console.restore_browser.commits[1].short_id, "abc");
    assert_eq!(console.restore_browser.commits[1].timestamp, "now");
    assert_eq!(console.activity_log[0].message, "Loaded 2 commits");
    console.restore_browser.selected_index = 0;
    let a = console.finish_restore(RepoOutcome::Done(()));
    assert_eq!(a, ConsoleAction::RefreshStatus);
    assert_eq!(console.activity_log[1].message, "Restoring to commit 0123456...");
    assert_eq!(console.activity_log[0].message, "Restored to commit: 0123456");
    console.finish_load_commits(RepoOutcome::Failed("offline".to_string()));
    assert_eq!(console.restore_browser.commits.len(), 0);
    assert_eq!(console.activity_log[0].message, "Failed to load commits: offline");
}

#[test]
fn compare_and_search_outcomes() {
    let mut console = Console::new("/p");
    console.mode = ConsoleMode::Compare;
    assert_eq!(console.handle_key_event(KeyCode::Enter, KeyModifiers::empty()), ConsoleAction::Nothing);
    assert_eq!(console.activity_log[0].message, "No commits available to compare");
    console.finish_load_compare_commits(RepoOutcome::Done(vec![
        ("aaaaaaaaa".to_string(), "A".to_string()),
        ("bbbbbbbbb".to_string(), "B".to_string()),
    ]));
    assert_eq!(console.activity_log[0].message, "Loaded 2 commits for comparison");
    console.compare_state.selected_b = 1;
    assert_eq!(console.handle_key_event(KeyCode::Enter, KeyModifiers::empty()), ConsoleAction::ExecuteCompare);
    console.finish_compare("diff".to_string());
    assert_eq!(console.compare_state.diff_result, Some("diff".to_string()));
    assert_eq!(console.activity_log[0].message, "Compared aaaaaaa vs bbbbbbb");

    console.mode = ConsoleMode::Search;
    assert_eq!(console.handle_key_event(KeyCode::Enter, KeyModifiers::empty()), ConsoleAction::Nothing);
    assert_eq!(console.activity_log[0].message, "Search query is empty");
    console.handle_key_event(KeyCode::Char('x'), KeyModifiers::empty());
    assert_eq!(console.handle_key_event(KeyCode::Enter, KeyModifiers::empty()), ConsoleAction::ExecuteSearch);
    console.finish_search(RepoOutcome::Done(vec![("1234567890".to_string(), "x".to_string())]));
    assert_eq!(console.search_state.results.len(), 1);
    assert_eq!(console.activity_log[1].message, "Searching: x");
    assert_eq!(console.activity_log[0].message, "Found 1 matching commits");
}

#[test]
fn hook_deletion_steps() {
    let mut console = Console::new("/p");
    console.finish_load_hooks(RepoOutcome::Done(vec![
        (HookType::PreCommit, "a".to_string()),
        (HookType::PostCommit, "b".to_string()),
    ]));
    assert_eq!(console.hooks_state.hooks[1], ("post-commit".to_string(), "b".to_string()));
    assert_eq!(console.activity_log[0].message, "Loaded 2 hooks");
    console.hooks_state.selected_index = 1;
    assert_eq!(console.hook_to_delete(), Some((HookType::PostCommit, "b".to_string())));
    assert_eq!(console.finish_delete_hook("b", Ok(())), ConsoleAction::LoadHooks);
    assert_eq!(console.activity_log[0].message, "Deleted hook: b");
    console.finish_load_hooks(RepoOutcome::Done(vec![(HookType::PreCommit, "a".to_string())]));
    console.clamp_hook_selection();
    assert_eq!(console.hooks_state.selected_index, 0);
    console.hooks_state.hooks[0].0 = "weird".to_string();
    assert_eq!(console.hook_to_delete(), None);
    assert_eq!(console.activity_log[0].message, "Invalid hook type");
}

#[test]
fn daemon_polls() {
    let mut console = Console::new("/p");
    assert!(!poll_is_due(1999));
    assert!(poll_is_due(2000));
    console.apply_daemon_poll(Some(true));
    assert_eq!(console.daemon_status, DaemonStatus::Running);
    assert_eq!(console.activity_log[0].message, "Daemon started");
    console.apply_daemon_poll(Some(true));
    assert_eq!(console.activity_log.len(), 1);
    console.apply_daemon_poll(None);
    assert_eq!(console.daemon_status, DaemonStatus::Unknown);
    assert_eq!(console.activity_log[0].message, "Unable to reach daemon");
    console.apply_daemon_poll(Some(false));
    assert_eq!(console.activity_log[0].level, LogLevel::Warning);
    assert_eq!(console.activity_log[0].message, "Daemon stopped");
}

#[test]
fn commit_entries_take_short_ids_and_first_lines() {
    let e = commit_entry("abcdefgh", "line one\r\nline two");
    assert_eq!(e.short_id, "abcdefg");
    assert_eq!(e.message, "line one");
}

#[test]
fn short_ids_count_bytes() {
    // Five one-byte letters and a two-byte letter make seven bytes.
    let e = commit_entry("abcdeéz0", "m");
    assert_eq!(e.short_id, "abcdeé");
    let e = commit_entry("éé", "m");
    assert_eq!(e.short_id, "éé");
    let e = commit_entry("abc", "m");
    assert_eq!(e.short_id, "abc");
}

#[test]
fn log_entries_keep_their_times() {
    let mut console = Console::new("/test/project.logicx");
    let first = UNIX_EPOCH + std::time::Duration::from_secs(3600);
    let second = UNIX_EPOCH + std::time::Duration::from_secs(7200);
    console.log_at(LogLevel::Info, "one", first);
    console.log_at(LogLevel::Warning, "two", second);
    assert_eq!(console.activity_log.len(), 2);
    assert_eq!(console.activity_log[0].timestamp, second);
    assert_eq!(console.activity_log[0].message, "two");
    assert_eq!(console.activity_log[1].timestamp, first);
    assert_eq!(console.activity_log[1].message, "one");
}

#[test]
fn activity_lines_show_each_entry_time() {
    let mut console = Console::new("/test/project.logicx");
    console.log_at(LogLevel::Info, "one", UNIX_EPOCH + std::time::Duration::from_secs(3600 + 62));
    console.log_at(LogLevel::Info, "two", UNIX_EPOCH + std::time::Duration::from_secs(86400 + 7325));
    let lines = console.activity_lines();
    assert_eq!(lines.len(), 2);
    assert_eq!(lines[0][0].text, "02:02:05");
    assert_eq!(lines[0][4].text, "two");
    assert_eq!(lines[1][0].text, "01:01:02");
    assert_eq!(lines[1][4].text, "one");
}

#[test]
fn times_before_the_epoch_show_midnight() {
    let before = UNIX_EPOCH - std::time::Duration::from_secs(5);
    assert_eq!(format_timestamp(before), "00:00:00");
    assert_eq!(format_timestamp(UNIX_EPOCH + std::time::Duration::from_millis(45_296_999)), "12:34:56");
}
