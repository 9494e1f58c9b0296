use auxin::daemon_client::{extract_pid_from_launchctl_output, launchctl_output_readable, DaemonClient, DaemonStatus};

#[test]
fn test_extract_pid() {
    let output = r#"{
    "Label" = "com.auxin.agent";
    "LimitLoadToSessionType" = "Aqua";
    "OnDemand" = false;
    "LastExitStatus" = 0;
    "PID" = 12345;
    "Program" = "/usr/local/bin/auxin-daemon";
};"#;

    let pid = extract_pid_from_launchctl_output(output);
    assert_eq!(pid, Some(12345));
}

#[test]
fn test_extract_pid_not_running() {
    let output = r#"{
    "Label" = "com.auxin.agent";
    "LimitLoadToSessionType" = "Aqua";
    "OnDemand" = false;
    "LastExitStatus" = 0;
};"#;

    let pid = extract_pid_from_launchctl_output(output);
    assert_eq!(pid, None);
}

#[test]
fn test_daemon_client_creation() {
    let _client = DaemonClient::new();
}

#[test]
fn pid_line_must_end_with_a_semicolon_and_parse() {
    assert_eq!(extract_pid_from_launchctl_output("\"PID\" = 77"), None);
    assert_eq!(extract_pid_from_launchctl_output("\"PID\" = seven;"), None);
    assert_eq!(extract_pid_from_launchctl_output("x\n   \"PID\" =   42 ;\n\"PID\" = 43;"), Some(42));
}

#[test]
fn test_is_installed() {
    let client = DaemonClient::new();
    let plist = client.plist_path(Some("/Users/me")).unwrap();
    assert_eq!(plist, "/Users/me/Library/LaunchAgents/com.auxin.agent.plist");
    assert_eq!(client.plist_path(None), Err("HOME environment variable not set".to_string()));
}

#[test]
fn test_log_path() {
    let client = DaemonClient::new();
    if let Ok(path) = client.log_path(Some("/Users/me")) {
        assert!(path.contains("Library/Logs/Auxin"));
    }
    assert_eq!(client.log_path(Some("/h")).unwrap(), "/h/Library/Logs/Auxin/daemon.log");
}

#[test]
fn daemon_status_and_lifecycle_outcomes() {
    let client = DaemonClient::new();
    let out = "{\n    \"PID\" = 12345;\n};";
    assert!(launchctl_output_readable(out));
    assert!(!launchctl_output_readable("\"PID\" ; = 3"));
    assert_eq!(client.status_from_launchctl(true, out), DaemonStatus { is_running: true, pid: Some(12345) });
    assert_eq!(client.status_from_launchctl(true, "{}"), DaemonStatus { is_running: false, pid: None });
    assert_eq!(client.status_from_launchctl(false, out), DaemonStatus { is_running: false, pid: None });
    assert_eq!(
        client.check_plist("/p.plist", false),
        Err("LaunchAgent plist not found at: /p.plist\nPlease run the installer first.".to_string())
    );
    assert_eq!(client.check_plist("/p.plist", true), Ok(()));
    assert_eq!(client.load_outcome(false, "denied"), Err("Failed to start daemon: denied".to_string()));
    assert_eq!(
        client.started_outcome(&DaemonStatus { is_running: false, pid: None }),
        Err("Daemon loaded but not running. Check system logs for errors.".to_string())
    );
    assert_eq!(client.stop_outcome(false, "Could not find specified service"), Ok(()));
    assert_eq!(client.stop_outcome(false, "boom"), Err("Failed to stop daemon: boom".to_string()));
}
