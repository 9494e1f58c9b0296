use auxin::network_resilience::{
    bandwidth_mbps_for_latency, check_connectivity, estimate_transfer_time, is_transient_error, ping_latency_candidates,
    AdaptiveRetryPolicy, CircuitBreaker, CircuitState, ConnectivityState, NetworkQuality,
    NetworkResilienceManager, OperationData, OperationType, QueuedOperation, RetryPolicy, RetryStep,
    INITIAL_BACKOFF_MS, MAX_BACKOFF_MS, MAX_RETRIES,
};
use auxin::clock::Timestamp;

fn queued(id: &str, operation_type: OperationType, repo: &str, data: OperationData) -> QueuedOperation {
    QueuedOperation {
        id: id.to_string(),
        operation_type,
        repo_path: repo.to_string(),
        data,
        queued_at: Timestamp { secs: 0, nanos: 0 },
        attempt_count: 0,
        last_error: None,
    }
}

/// Runs `operation` under `policy` the way the command line does, without
/// sleeping between attempts.
fn execute<T>(policy: &mut AdaptiveRetryPolicy, mut operation: impl FnMut() -> anyhow::Result<T>) -> anyhow::Result<T> {
    if !policy.begin() {
        return Err(anyhow::Error::msg("Circuit breaker is open. Too many recent failures."));
    }
    let mut attempt: u32 = 0;
    let mut backoff = policy.base_policy.initial_backoff_ms;
    loop {
        match operation() {
            Ok(r) => {
                policy.after_success();
                return Ok(r);
            }
            Err(e) => {
                attempt += 1;
                let transient = is_transient_error(&e);
                let lower = e.to_string().to_lowercase();
                match policy.after_failure(attempt, transient, &lower, backoff) {
                    RetryStep::GiveUp => return Err(e),
                    RetryStep::RetryAfter { wait_ms: _, next_backoff_ms } => backoff = next_backoff_ms,
                }
            }
        }
    }
}

/// The average latency of a ping, as the command line reads it: the first
/// candidate that is a number of milliseconds, truncated.
fn parse_ping_latency(output: &str) -> Option<u64> {
    for text in ping_latency_candidates(output) {
        if let Ok(ms) = text.parse::<f64>() {
            return Some(ms as u64);
        }
    }
    None
}

#[test]
fn test_network_resilience_manager_creation() {
    let manager = NetworkResilienceManager::new(Some("/home/user"));
    assert_eq!(manager.queue_size(), 0);
    assert_eq!(manager.queue_file, "/home/user/.auxin/operation_queue.json");
}

#[test]
fn test_enqueue_and_dequeue() {
    let mut manager = NetworkResilienceManager::with_queue_path("/tmp/queue.json");
    let op = queued("test-1", OperationType::Push, "/test/repo", OperationData::new().with_branch("main"));

    manager.enqueue(op.clone());
    assert_eq!(manager.queue_size(), 1);

    let dequeued = manager.dequeue().unwrap();
    assert_eq!(dequeued.id, "test-1");
    assert_eq!(manager.queue_size(), 0);
}

#[test]
fn test_queue_persistence() {
    let saved: Vec<QueuedOperation> = {
        let mut manager = NetworkResilienceManager::with_queue_path("/tmp/queue.json");
        let op = queued("persist-test", OperationType::LockAcquire, "/test", OperationData::new().with_timeout(4));
        manager.enqueue(op);
        manager.operations.iter().cloned().collect()
    };

    let mut manager = NetworkResilienceManager::with_queue_path("/tmp/queue.json");
    manager.load_operations(saved);
    assert_eq!(manager.queue_size(), 1);
    let op = manager.peek().unwrap();
    assert_eq!(op.id, "persist-test");
}

#[test]
fn test_mark_failed_retry_logic() {
    let mut manager = NetworkResilienceManager::with_queue_path("/tmp/queue.json");
    let op = queued("retry-test", OperationType::Push, "/test", OperationData::new());

    let will_retry = manager.mark_failed(op.clone(), "Network error".to_string());
    assert!(will_retry);
    assert_eq!(manager.queue_size(), 1);

    let mut op_max = op.clone();
    op_max.attempt_count = MAX_RETRIES - 1;
    let will_retry = manager.mark_failed(op_max, "Network error".to_string());
    assert!(!will_retry);
}

#[test]
fn test_is_transient_error() {
    let timeout_err = anyhow::Error::msg("Connection timeout");
    assert!(is_transient_error(&timeout_err));

    let refused_err = anyhow::Error::msg("Connection refused");
    assert!(is_transient_error(&refused_err));

    let auth_err = anyhow::Error::msg("Authentication failed");
    assert!(!is_transient_error(&auth_err));
}

#[test]
fn test_operation_data_builder() {
    let data = OperationData::new().with_branch("main").with_message("Test commit").with_timeout(4);

    assert_eq!(data.branch, Some("main".to_string()));
    assert_eq!(data.message, Some("Test commit".to_string()));
    assert_eq!(data.timeout_hours, Some(4));
}

#[test]
fn test_clear_queue() {
    let mut manager = NetworkResilienceManager::with_queue_path("/tmp/queue.json");
    for i in 0..5 {
        manager.enqueue(queued(&format!("op-{}", i), OperationType::Push, "/test", OperationData::new()));
    }
    assert_eq!(manager.queue_size(), 5);

    manager.clear_queue();
    assert_eq!(manager.queue_size(), 0);
}

#[test]
fn test_circuit_breaker_initial_state() {
    let cb = CircuitBreaker::from_settings(None, None);
    assert_eq!(cb.state(), CircuitState::Closed);
}

#[test]
fn test_circuit_breaker_opens_after_failures() {
    let mut cb = CircuitBreaker::with_thresholds(3, 2, 60);

    assert!(cb.allow_request());

    cb.record_failure();
    cb.record_failure();
    assert_eq!(cb.state(), CircuitState::Closed);

    cb.record_failure();
    assert_eq!(cb.state(), CircuitState::Open);

    assert!(!cb.allow_request());
}

#[test]
fn test_circuit_breaker_success_reduces_failures() {
    let mut cb = CircuitBreaker::with_thresholds(5, 2, 60);

    cb.record_failure();
    cb.record_failure();
    assert_eq!(cb.failure_count, 2);

    cb.record_success();
    assert_eq!(cb.failure_count, 1);
}

#[test]
fn test_circuit_breaker_recovery() {
    let mut cb = CircuitBreaker::with_thresholds(2, 2, 0);

    cb.record_failure();
    cb.record_failure();
    assert_eq!(cb.state(), CircuitState::Open);

    assert!(cb.allow_request());
    assert_eq!(cb.state(), CircuitState::HalfOpen);

    cb.record_success();
    assert_eq!(cb.state(), CircuitState::HalfOpen);
    cb.record_success();
    assert_eq!(cb.state(), CircuitState::Closed);
}

#[test]
fn test_circuit_breaker_half_open_failure() {
    let mut cb = CircuitBreaker::with_thresholds(2, 2, 0);

    cb.record_failure();
    cb.record_failure();
    cb.allow_request();
    assert_eq!(cb.state(), CircuitState::HalfOpen);

    cb.record_failure();
    assert_eq!(cb.state(), CircuitState::Open);
}

#[test]
fn test_circuit_breaker_reset() {
    let mut cb = CircuitBreaker::with_thresholds(2, 2, 60);

    cb.record_failure();
    cb.record_failure();
    assert_eq!(cb.state(), CircuitState::Open);

    cb.reset();
    assert_eq!(cb.state(), CircuitState::Closed);
    assert_eq!(cb.failure_count, 0);
}

#[test]
fn test_circuit_breaker_stats() {
    let mut cb = CircuitBreaker::with_thresholds(5, 3, 60);

    cb.record_failure();
    cb.record_failure();

    let stats = cb.stats();
    assert_eq!(stats.state, CircuitState::Closed);
    assert_eq!(stats.failure_count, 2);
    assert_eq!(stats.failure_threshold, 5);
    assert_eq!(stats.success_threshold, 3);
}

#[test]
fn test_adaptive_retry_policy_success() {
    let mut policy = AdaptiveRetryPolicy::new(CircuitBreaker::from_settings(None, None));
    let result = execute(&mut policy, || Ok(42));
    assert_eq!(result.unwrap(), 42);
}

#[test]
fn test_adaptive_retry_policy_eventual_success() {
    let mut policy = AdaptiveRetryPolicy::with_policy(RetryPolicy::new(3, 10, 100), CircuitBreaker::from_settings(None, None));

    let mut attempt = 0;
    let result = execute(&mut policy, || {
        attempt += 1;
        if attempt < 3 {
            Err(anyhow::Error::msg("Connection timeout"))
        } else {
            Ok(42)
        }
    });

    assert_eq!(result.unwrap(), 42);
    assert_eq!(attempt, 3);
}

#[test]
fn test_adaptive_retry_policy_max_retries() {
    let mut policy = AdaptiveRetryPolicy::with_policy(RetryPolicy::new(2, 10, 100), CircuitBreaker::from_settings(None, None));

    let mut attempt = 0;
    let result: anyhow::Result<i32> = execute(&mut policy, || {
        attempt += 1;
        Err(anyhow::Error::msg("Connection refused"))
    });

    assert!(result.is_err());
    assert_eq!(attempt, 3);
}

#[test]
fn test_adaptive_retry_policy_non_retryable_error() {
    let mut policy = AdaptiveRetryPolicy::new(CircuitBreaker::from_settings(None, None));

    let mut attempt = 0;
    let result: anyhow::Result<i32> = execute(&mut policy, || {
        attempt += 1;
        Err(anyhow::Error::msg("Permission denied"))
    });

    assert!(result.is_err());
    assert_eq!(attempt, 1);
}

#[test]
fn test_adaptive_retry_policy_circuit_breaker_integration() {
    let mut policy = AdaptiveRetryPolicy::with_policy(RetryPolicy::new(1, 10, 100), CircuitBreaker::from_settings(None, None));

    for _ in 0..5 {
        let _result: anyhow::Result<i32> = execute(&mut policy, || Err(anyhow::Error::msg("Network error")));
    }

    let stats = policy.circuit_stats();
    assert_eq!(stats.state, CircuitState::Open);

    let result: anyhow::Result<i32> = execute(&mut policy, || Ok(42));
    assert!(result.is_err());
    assert!(result.unwrap_err().to_string().contains("Circuit breaker"));
}

#[test]
fn test_adaptive_retry_policy_reset_circuit() {
    let mut policy = AdaptiveRetryPolicy::new(CircuitBreaker::from_settings(None, None));

    for _ in 0..5 {
        let _: anyhow::Result<i32> = execute(&mut policy, || Err(anyhow::Error::msg("timeout")));
    }

    assert_eq!(policy.circuit_stats().state, CircuitState::Open);

    policy.reset_circuit();
    assert_eq!(policy.circuit_stats().state, CircuitState::Closed);
}

#[test]
fn test_parse_ping_latency_linux_format() {
    let output = "rtt min/avg/max/mdev = 10.123/15.456/20.789/3.456 ms";
    assert_eq!(parse_ping_latency(output), Some(15));
}

#[test]
fn test_parse_ping_latency_macos_format() {
    let output = "round-trip min/avg/max/stddev = 10.123/15.456/20.789/3.456 ms";
    assert_eq!(parse_ping_latency(output), Some(15));
}

#[test]
fn test_parse_ping_latency_time_format() {
    let output = "64 bytes from 1.2.3.4: icmp_seq=1 ttl=54 time=25.6 ms";
    assert_eq!(parse_ping_latency(output), Some(25));
}

#[test]
fn test_parse_ping_latency_no_match() {
    let output = "no latency info here";
    assert_eq!(parse_ping_latency(output), None);
}

#[test]
fn test_estimate_transfer_time_small_file() {
    let estimate = estimate_transfer_time(1_000_000, Some(50));
    assert!(estimate.contains("s"));
}

#[test]
fn test_estimate_transfer_time_large_file() {
    let estimate = estimate_transfer_time(1_000_000_000, Some(200));
    assert!(estimate.contains("m") || estimate.contains("h"));
}

#[test]
fn test_network_quality_display() {
    assert_eq!(NetworkQuality::Excellent.to_string(), "Excellent");
    assert_eq!(NetworkQuality::Good.to_string(), "Good");
    assert_eq!(NetworkQuality::Fair.to_string(), "Fair");
    assert_eq!(NetworkQuality::Poor.to_string(), "Poor");
    assert_eq!(NetworkQuality::Offline.to_string(), "Offline");
}

#[test]
fn test_connectivity_state() {
    assert_eq!(check_connectivity(true), ConnectivityState::Online);
    assert_eq!(check_connectivity(false), ConnectivityState::Offline);
}

#[test]
fn test_retry_policy_builder() {
    let policy = RetryPolicy::new(5, 1000, 10000).set_verbose(true);
    assert_eq!(policy.max_retries, 5);
    assert_eq!(policy.initial_backoff_ms, 1000);
    assert_eq!(policy.max_backoff_ms, 10000);
    assert!(policy.verbose);
}

#[test]
fn ping_candidates_keep_every_summary_before_reply_times() {
    let output = "64 bytes: time=9.9 ms\nrtt min/avg/max/mdev = x/abc/y/z ms\nround-trip min/avg/max = 1/2.5/3 ms";
    assert_eq!(
        ping_latency_candidates(output),
        vec!["abc".to_string(), "2.5".to_string(), "9.9".to_string()]
    );
    assert_eq!(parse_ping_latency(output), Some(2));
}

#[test]
fn quality_and_bandwidth_follow_the_latency_tiers() {
    assert_eq!(NetworkQuality::for_latency(Some(49)), NetworkQuality::Excellent);
    assert_eq!(NetworkQuality::for_latency(Some(50)), NetworkQuality::Good);
    assert_eq!(NetworkQuality::for_latency(Some(149)), NetworkQuality::Good);
    assert_eq!(NetworkQuality::for_latency(Some(150)), NetworkQuality::Fair);
    assert_eq!(NetworkQuality::for_latency(Some(300)), NetworkQuality::Poor);
    assert_eq!(NetworkQuality::for_latency(None), NetworkQuality::Offline);
    assert_eq!(bandwidth_mbps_for_latency(Some(0)), 100);
    assert_eq!(bandwidth_mbps_for_latency(Some(100)), 50);
    assert_eq!(bandwidth_mbps_for_latency(Some(299)), 20);
    assert_eq!(bandwidth_mbps_for_latency(Some(1000)), 5);
    assert_eq!(bandwidth_mbps_for_latency(None), 1);
}

#[test]
fn queue_backoff_doubles_up_to_the_cap() {
    assert_eq!(NetworkResilienceManager::retry_backoff_ms(1), INITIAL_BACKOFF_MS);
    assert_eq!(NetworkResilienceManager::retry_backoff_ms(2), 4000);
    assert_eq!(NetworkResilienceManager::retry_backoff_ms(3), 8000.min(MAX_BACKOFF_MS));
}

#[test]
fn queue_is_first_in_first_out() {
    let mut manager = NetworkResilienceManager::with_queue_path("/tmp/q.json");
    manager.enqueue(queued("a", OperationType::Pull, "/r", OperationData::new()));
    manager.enqueue(queued("b", OperationType::Push, "/r", OperationData::new()));
    assert_eq!(manager.peek().unwrap().id, "a");
    assert_eq!(manager.dequeue().unwrap().id, "a");
    assert_eq!(manager.dequeue().unwrap().id, "b");
    assert!(manager.dequeue().is_none());
}

#[test]
fn retry_delays_grow_and_cap() {
    let policy = RetryPolicy::new(5, 1000, 10000);
    assert_eq!(policy.delay_ms_for_attempt(0), 0);
    assert_eq!(policy.delay_ms_for_attempt(1), 1000);
    assert_eq!(policy.delay_ms_for_attempt(2), 2000);
    assert_eq!(policy.delay_ms_for_attempt(4), 8000);
    assert_eq!(policy.delay_ms_for_attempt(5), 10000);
    assert_eq!(policy.delay_ms_for_attempt(40), 10000);
}

/// The estimate figured in binary floating point, the way a shell script or a
/// quick calculation would: the library must print the same text.
fn floating_point_estimate(file_size_bytes: u64, latency_ms: Option<u64>) -> String {
    let bytes_per_second = bandwidth_mbps_for_latency(latency_ms) as f64 * 1_000_000.0 / 8.0;
    let seconds = file_size_bytes as f64 / bytes_per_second;
    if seconds < 60.0 {
        format!("{:.0}s", seconds)
    } else if seconds < 3600.0 {
        format!("{:.1}m", seconds / 60.0)
    } else {
        format!("{:.1}h", seconds / 3600.0)
    }
}

#[test]
fn transfer_time_exact_values() {
    // 100 Mbps: 12.5 MB per second.
    assert_eq!(estimate_transfer_time(0, Some(10)), "0s");
    assert_eq!(estimate_transfer_time(12_500_000, Some(10)), "1s");
    assert_eq!(estimate_transfer_time(6_250_000, Some(10)), "0s");
    assert_eq!(estimate_transfer_time(18_750_000, Some(10)), "2s");
    assert_eq!(estimate_transfer_time(750_000_000, Some(10)), "1.0m");
    // 1 Mbps: 125 kB per second; 1 GB is 8000 s.
    assert_eq!(estimate_transfer_time(1_000_000_000, None), "2.2h");
    // 20 Mbps: 2.5 MB per second; 1 GB is 400 s.
    assert_eq!(estimate_transfer_time(1_000_000_000, Some(200)), "6.7m");
    // 69 s is 1.15 minutes, stored just below 1.15.
    assert_eq!(estimate_transfer_time(69 * 125_000, None), "1.1m");
    // 63 s is 1.05 minutes, stored just above 1.05.
    assert_eq!(estimate_transfer_time(63 * 125_000, None), "1.1m");
    // 75 s is 1.25 minutes exactly.
    assert_eq!(estimate_transfer_time(75 * 125_000, None), "1.2m");
}

#[test]
fn transfer_time_agrees_with_floating_point() {
    let latencies = [Some(10u64), Some(100), Some(200), Some(500), None];
    for latency in latencies.iter() {
        let bps = bandwidth_mbps_for_latency(*latency) * 125_000;
        for k in 0..3000u64 {
            let candidates = [
                k * bps / 2,
                k * 3 * bps,
                k * 180 * bps,
                k * 1_800 * bps,
                k * 37 * bps / 4,
            ];
            for c in candidates.iter() {
                for size in [c.saturating_sub(1), *c, c + 1].iter() {
                    assert_eq!(
                        estimate_transfer_time(*size, *latency),
                        floating_point_estimate(*size, *latency),
                        "size {} latency {:?}",
                        size,
                        latency
                    );
                }
            }
        }
        let mut x: u64 = 88172645463325252;
        for _ in 0..20000 {
            x ^= x << 13;
            x ^= x >> 7;
            x ^= x << 17;
            let size = x >> 14;
            assert_eq!(estimate_transfer_time(size, *latency), floating_point_estimate(size, *latency));
        }
    }
}

#[test]
fn retry_policy_decisions() {
    let p = RetryPolicy::new(3, 100, 1_000);
    assert!(p.should_retry(3));
    assert!(!p.should_retry(4));
    assert_eq!(p.max_attempts(), 3);
    assert_eq!(p.base_delay_ms(), 100);
    assert_eq!(p.max_delay_ms(), 1_000);
    assert_eq!(p.delay_for_attempt(1).as_millis(), 100);
    assert_eq!(p.delay_for_attempt(3).as_millis(), 400);
    assert_eq!(p.delay_for_attempt(5).as_millis(), 1_000);
    assert!(p.is_retryable("Connection TIMED OUT"));
    assert!(!p.is_retryable("Authentication failed: connection refused"));
    assert_eq!(p.step_after_failure(4, 100), RetryStep::GiveUp);
    assert_eq!(
        p.step_after_failure(1, 600),
        RetryStep::RetryAfter { wait_ms: 600, next_backoff_ms: 1_000 }
    );
    assert_eq!(
        p.step_after_failure(2, 300),
        RetryStep::RetryAfter { wait_ms: 300, next_backoff_ms: 600 }
    );
}

#[test]
fn success_eases_the_circuit_breaker() {
    let mut policy = AdaptiveRetryPolicy::new(CircuitBreaker::from_settings(None, None));
    policy.circuit_breaker.failure_count = 2;
    policy.after_success();
    assert_eq!(policy.circuit_breaker.failure_count, 1);
    assert_eq!(policy.circuit_breaker.state, CircuitState::Closed);
}

#[test]
fn failure_restarts_the_retry_wait() {
    let mut cb = CircuitBreaker::with_thresholds(3, 2, 60);
    assert_eq!(cb.time_until_retry_at(0), None);
    let start = std::time::Instant::now();
    cb.record_failure_at(start);
    cb.record_failure_at(start);
    assert_eq!(cb.state(), CircuitState::Closed);
    assert_eq!(cb.last_failure_time, None);
    cb.record_failure_at(start);
    assert_eq!(cb.state(), CircuitState::Open);
    assert_eq!(cb.last_failure_time, Some(start));
    assert_eq!(cb.time_until_retry_at(0), Some(std::time::Duration::from_secs(60)));
    assert_eq!(cb.time_until_retry_at(10_500_000_000), Some(std::time::Duration::new(49, 500_000_000)));
    assert_eq!(cb.time_until_retry_at(70_000_000_000), Some(std::time::Duration::ZERO));

    // A later failure while open moves the failure time and keeps the counts.
    let later = start + std::time::Duration::from_secs(5);
    cb.record_failure_at(later);
    assert_eq!(cb.state(), CircuitState::Open);
    assert_eq!(cb.last_failure_time, Some(later));
    assert_eq!(cb.failure_count, 3);
    assert_eq!(cb.failure_threshold, 3);
    assert_eq!(cb.success_threshold, 2);
    assert_eq!(cb.timeout_secs, 60);
    assert!(!cb.allow_request_at(Some(59_999_999_999)));
    assert!(cb.allow_request_at(Some(60_000_000_000)));
    assert_eq!(cb.state(), CircuitState::HalfOpen);

    // A failure while half-open opens the circuit again with the new time.
    let again = later + std::time::Duration::from_secs(61);
    cb.record_failure_at(again);
    assert_eq!(cb.state(), CircuitState::Open);
    assert_eq!(cb.success_count, 0);
    assert_eq!(cb.last_failure_time, Some(again));
}
