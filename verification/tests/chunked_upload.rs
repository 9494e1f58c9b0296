use auxin::chunked_upload::{UploadConfig, DEFAULT_CHUNK_SIZE, MIN_CHUNKED_SIZE};
use auxin::chunked_upload::{bytes_string, eta_string, staged_files, FileUploadState, UploadResult, UploadSession, UploadStatus};
use auxin::clock::Timestamp;

#[test]
fn test_upload_config_default() {
    let config = UploadConfig::default();
    assert_eq!(config.chunk_size, DEFAULT_CHUNK_SIZE);
    assert_eq!(config.min_chunked_size, MIN_CHUNKED_SIZE);
    assert_eq!(config.max_retries, 3);
}

#[test]
fn test_session_file_path() {
    let config = UploadConfig { state_dir: "/tmp/state".to_string(), ..UploadConfig::default() };
    let session_file = config.session_file_path("/test/repo");

    assert!(session_file.contains(".json"));
    assert!(session_file.starts_with("/tmp/state"));
}

#[test]
fn session_file_is_named_by_the_md5_of_the_path() {
    let config = UploadConfig::default_for_home(Some("/home/u"));
    assert_eq!(config.state_dir, "/home/u/.auxin/uploads");
    assert_eq!(
        config.session_file_path(""),
        "/home/u/.auxin/uploads/d41d8cd98f00b204e9800998ecf8427e.json"
    );
    assert_eq!(UploadConfig::default_for_home(None).state_dir, "./.auxin/uploads");
}

#[test]
fn test_upload_session_new() {
    let session = UploadSession::new("/test/repo", "origin", "main");
    assert_eq!(session.remote, "origin");
    assert_eq!(session.branch, "main");
    assert_eq!(session.status, UploadStatus::Pending);
    assert!(session.files.is_empty());
}

#[test]
fn test_file_upload_state() {
    let now = Timestamp { secs: 1, nanos: 0 };
    let state = FileUploadState {
        path: "test.file".to_string(),
        size: 1000,
        bytes_uploaded: 500,
        status: UploadStatus::InProgress,
        last_error: None,
        started_at: now,
        last_activity: now,
    };
    assert_eq!(state.path, "test.file");
    assert_eq!(state.status, UploadStatus::InProgress);
}

fn file(path: &str, size: u64, status: UploadStatus) -> FileUploadState {
    let t = Timestamp { secs: 1, nanos: 0 };
    FileUploadState { path: path.to_string(), size, bytes_uploaded: 0, status, last_error: None, started_at: t, last_activity: t }
}

#[test]
fn sessions_resume_abort_and_complete() {
    let mut s = UploadSession::new("/r", "origin", "main");
    assert!(s.resumes("origin", "main"));
    assert!(!s.resumes("origin", "dev"));
    s.files = vec![
        file("a", 10, UploadStatus::Completed),
        file("b", 20, UploadStatus::InProgress),
        file("c", 30, UploadStatus::Pending),
    ];
    s.total_bytes = 60;
    assert_eq!(s.files_completed(), 1);
    assert_eq!(s.current_file(), Some("b".to_string()));
    let later = Timestamp { secs: 99, nanos: 5 };
    s.abort(later);
    assert_eq!(s.status, UploadStatus::Aborted);
    assert_eq!(s.last_activity, later);
    assert_eq!(s.files[1].status, UploadStatus::Aborted);
    assert_eq!(s.files[2].status, UploadStatus::Pending);
    assert_eq!(s.current_file(), None);
    assert!(s.is_resumable());
    s.complete_all(later);
    assert_eq!(s.bytes_uploaded, 60);
    assert!(s.files.iter().all(|f| f.status == UploadStatus::Completed && f.bytes_uploaded == f.size));
    assert_eq!(s.files_completed(), 3);
    s.status = UploadStatus::Completed;
    assert!(!s.resumes("origin", "main"));
    assert!(!s.is_resumable());
}

#[test]
fn staged_files_and_eta() {
    let out = "On branch main\n  new file:   audio/kick.wav\n\tmodified: project.logicx\nmodified:\nrenamed: x\nmodified: a:b\n";
    assert_eq!(staged_files(out), vec!["audio/kick.wav".to_string(), "project.logicx".to_string(), "a".to_string()]);
    assert_eq!(eta_string(Some(3661)), "1h 1m");
    assert_eq!(eta_string(Some(61)), "1m 1s");
    assert_eq!(eta_string(Some(59)), "59s");
    assert_eq!(eta_string(None), "calculating...");
}

/// The byte count figured in binary floating point: the library must print
/// the same text.
fn floating_point_bytes(bytes: u64) -> String {
    if bytes >= 1_000_000_000 {
        format!("{:.2} GB", bytes as f64 / 1_000_000_000.0)
    } else if bytes >= 1_000_000 {
        format!("{:.1} MB", bytes as f64 / 1_000_000.0)
    } else if bytes >= 1_000 {
        format!("{:.1} KB", bytes as f64 / 1_000.0)
    } else {
        format!("{} B", bytes)
    }
}

#[test]
fn bytes_string_values() {
    assert_eq!(bytes_string(500_000_000), "500.0 MB");
    assert_eq!(bytes_string(0), "0 B");
    assert_eq!(bytes_string(999), "999 B");
    assert_eq!(bytes_string(1_000), "1.0 KB");
    assert_eq!(bytes_string(2_500), "2.5 KB");
    assert_eq!(bytes_string(1_050_000), "1.1 MB");
    assert_eq!(bytes_string(1_150_000), "1.1 MB");
    assert_eq!(bytes_string(1_250_000), "1.2 MB");
    assert_eq!(bytes_string(1_000_000_000), "1.00 GB");
    assert_eq!(bytes_string(2_345_000_000), "2.35 GB");
}

#[test]
fn bytes_string_agrees_with_floating_point() {
    for k in 0..20000u64 {
        for base in [k * 50, k * 50_000, k * 5_000_000, 1_000_000_000 + k * 5_000_000].iter() {
            for n in [base.saturating_sub(1), *base, base + 1].iter() {
                assert_eq!(bytes_string(*n), floating_point_bytes(*n), "bytes {}", n);
            }
        }
    }
    let mut x: u64 = 0x9E3779B97F4A7C15;
    for _ in 0..50000 {
        x ^= x << 13;
        x ^= x >> 7;
        x ^= x << 17;
        for n in [x >> 12, x >> 30, x >> 44].iter() {
            assert_eq!(bytes_string(*n), floating_point_bytes(*n), "bytes {}", n);
        }
    }
}

#[test]
fn failed_push_marks_files_in_progress() {
    let mut s = UploadSession::new("/r", "origin", "main");
    s.files = vec![
        file("a", 10, UploadStatus::Completed),
        file("b", 20, UploadStatus::InProgress),
        file("c", 30, UploadStatus::Pending),
    ];
    let later = Timestamp { secs: 50, nanos: 0 };
    s.fail("network down", later);
    assert_eq!(s.status, UploadStatus::Failed);
    assert_eq!(s.last_activity, later);
    assert_eq!(s.files[0].status, UploadStatus::Completed);
    assert_eq!(s.files[0].last_error, None);
    assert_eq!(s.files[1].status, UploadStatus::Failed);
    assert_eq!(s.files[1].last_error, Some("network down".to_string()));
    assert_eq!(s.files[2].status, UploadStatus::Pending);
}

#[test]
fn circuit_breaker_opens_and_waits_its_timeout() {
    let mut cb = auxin::network_resilience::CircuitBreaker::with_thresholds(1, 2, 60);
    cb.record_failure();
    assert_eq!(cb.state(), auxin::network_resilience::CircuitState::Open);
    assert!(!cb.allow_request_at(Some(59_999_999_999)));
    assert_eq!(cb.state(), auxin::network_resilience::CircuitState::Open);
    assert!(!cb.allow_request_at(None));
    assert!(cb.allow_request_at(Some(60_000_000_000)));
    assert_eq!(cb.state(), auxin::network_resilience::CircuitState::HalfOpen);
    assert_eq!(cb.success_count, 0);
    assert!(cb.allow_request_at(None));
}

#[test]
fn test_upload_result() {
    let result = UploadResult {
        success: true,
        files_uploaded: 5,
        bytes_uploaded: 1_000_000,
        duration: std::time::Duration::from_secs(10),
        error: None,
    };

    assert!(result.success);
    assert_eq!(result.files_uploaded, 5);
}

#[test]
fn upload_results_of_pushes() {
    let mut s = UploadSession::new("/r", "origin", "main");
    s.files = vec![
        file("a", 10, UploadStatus::Completed),
        file("b", 20, UploadStatus::InProgress),
        file("c", 30, UploadStatus::Pending),
    ];
    s.total_bytes = 60;
    s.bytes_uploaded = 25;
    let took = std::time::Duration::from_secs(3);

    let failed = UploadResult::of_push(Some(&s), took, Some("network down".to_string()));
    assert!(!failed.success);
    assert_eq!(failed.files_uploaded, 0);
    assert_eq!(failed.bytes_uploaded, 25);
    assert_eq!(failed.duration, took);
    assert_eq!(failed.error, Some("network down".to_string()));

    s.complete_all(Timestamp { secs: 7, nanos: 0 });
    let done = UploadResult::of_push(Some(&s), took, None);
    assert!(done.success);
    assert_eq!(done.files_uploaded, 3);
    assert_eq!(done.bytes_uploaded, 60);
    assert_eq!(done.error, None);

    let none = UploadResult::of_push(None, took, None);
    assert!(none.success);
    assert_eq!(none.files_uploaded, 0);
    assert_eq!(none.bytes_uploaded, 0);
}
