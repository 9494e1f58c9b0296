//! Retry policies, error classification and the circuit breaker that guard
//! network operations.
//!
//! The loops that call an operation, sleep and call it again live with the
//! caller; this module decides, after each outcome, whether to try again and
//! how long to wait first.
use vstd::prelude::*;
use crate::text::{
    chars_of, contains_seq, contains_str, find_char, find_str, first_index_of, first_occurrence, lines_of, lines_seq,
    lowercase, parse_u32, parse_u32_spec, parse_u64, parse_u64_spec, string_from_chars, sub_chars, to_lowercase_chars,
    trim_chars, trim_seq, views,
};
use crate::clock::{utc_now, Timestamp};
use crate::text::{join_path, path_join};
use crate::text::{decimal, push_decimal};
use crate::printed_numbers::{
    lemma_quotient_fits, push_tenths, round_half_even, round_printed, rounded_half_even, rounded_printed, tenths_text,
};
use std::collections::VecDeque;
use std::time::Duration;
use std::time::Instant;

verus! {

/// Maximum number of retry attempts for network operations.
pub const MAX_RETRIES: u32 = 4;

/// Initial backoff duration in milliseconds.
pub const INITIAL_BACKOFF_MS: u64 = 2000;

/// Maximum backoff duration in milliseconds.
pub const MAX_BACKOFF_MS: u64 = 16000;

// ---------------------------------------------------------------------------
// Time
// ---------------------------------------------------------------------------

#[verifier::external_type_specification]
#[verifier::external_body]
pub struct ExInstant(Instant);

/// `Instant::now`: the current instant. Nothing is stated of it: it depends
/// on the clock.
#[verifier::external_body]
fn instant_now() -> Instant {
    Instant::now()
}

/// `Instant::elapsed`, in nanoseconds: the time since `t`. Nothing is stated
/// of it: it depends on the clock.
#[verifier::external_body]
fn elapsed_nanos(t: &Instant) -> u128 {
    t.elapsed().as_nanos()
}

/// The length of a duration in whole seconds plus nanoseconds.
pub open spec fn duration_nanos(secs: u64, nanos: u32) -> nat {
    secs as nat * 1_000_000_000 + nanos as nat
}

/// The duration of `secs` seconds and `nanos` nanoseconds, as
/// `Duration::new` makes it. `Duration` is opaque here, so nothing more of it
/// is known; the same seconds and nanoseconds always give the same duration.
pub uninterp spec fn seconds_duration(secs: u64, nanos: u32) -> Duration;

/// `Duration::new(secs, nanos)`: the duration of `secs` seconds and `nanos`
/// nanoseconds. It panics when the nanoseconds carry into seconds past
/// `u64::MAX`, which `nanos < 1_000_000_000` rules out.
#[verifier::external_body]
fn duration_new(secs: u64, nanos: u32) -> (d: Duration)
    requires
        nanos < 1_000_000_000,
    ensures
        d == seconds_duration(secs, nanos),
{
    Duration::new(secs, nanos)
}

/// The duration of `ms` milliseconds, as `Duration::from_millis` makes it.
/// `Duration` is opaque here, so nothing more of it is known; the same
/// number of milliseconds always gives the same duration.
pub uninterp spec fn millis_duration(ms: u64) -> Duration;

/// `Duration::from_millis(ms)`: the duration of `ms` milliseconds.
#[verifier::external_body]
fn duration_from_millis(ms: u64) -> (d: Duration)
    ensures
        d == millis_duration(ms),
{
    Duration::from_millis(ms)
}

// ---------------------------------------------------------------------------
// Connectivity
// ---------------------------------------------------------------------------

/// Connectivity state for network checks.
#[derive(Debug, Clone, Copy, PartialEq, Eq, Structural)]
pub enum ConnectivityState {
    Online,
    Offline,
    Unknown,
}

/// The connectivity state given whether the network could be reached.
pub fn check_connectivity(network_available: bool) -> (s: ConnectivityState)
    ensures
        s == (if network_available { ConnectivityState::Online } else { ConnectivityState::Offline }),
{
    if network_available {
        ConnectivityState::Online
    } else {
        ConnectivityState::Offline
    }
}

// ---------------------------------------------------------------------------
// Retry policy
// ---------------------------------------------------------------------------

/// Retry policy for network operations.
#[derive(Debug, Clone)]
pub struct RetryPolicy {
    pub max_retries: u32,
    pub initial_backoff_ms: u64,
    pub max_backoff_ms: u64,
    pub verbose: bool,
}

/// `2^n`.
pub open spec fn pow2(n: nat) -> nat
    decreases n,
{
    if n == 0 {
        1
    } else {
        2 * pow2((n - 1) as nat)
    }
}

/// The smaller of two numbers.
pub open spec fn min_nat(a: nat, b: nat) -> nat {
    if a <= b {
        a
    } else {
        b
    }
}

/// The delay before retry number `attempt` (counted from 1): the initial
/// backoff doubled for each earlier retry, at most ten times, and capped at
/// the maximum backoff. No delay before attempt 0.
pub open spec fn delay_ms_spec(initial: u64, max: u64, attempt: nat) -> nat {
    if attempt == 0 {
        0
    } else {
        min_nat(initial as nat * pow2(min_nat((attempt - 1) as nat, 10)), max as nat)
    }
}

proof fn lemma_pow2_le_1024(n: nat)
    requires
        n <= 10,
    ensures
        1 <= pow2(n) <= 1024,
    decreases 10 - n,
{
    reveal_with_fuel(pow2, 11);
    if n < 10 {
        lemma_pow2_le_1024(n + 1);
        assert(pow2(n + 1) == 2 * pow2(n));
    }
}

/// Retry delays grow exponentially: none before attempt 0; the first retry
/// waits the initial backoff (up to the maximum); each later retry, up to
/// the eleventh, waits twice the one before, up to the maximum; from then
/// on the delay stays the same. No delay exceeds the maximum, and delays
/// never shrink.
pub proof fn lemma_delays_double(initial: u64, max: u64, a: nat)
    ensures
        delay_ms_spec(initial, max, 0) == 0,
        delay_ms_spec(initial, max, 1) == (if initial <= max { initial as nat } else { max as nat }),
        a >= 1 ==> delay_ms_spec(initial, max, a) <= max,
        (1 <= a <= 10 && delay_ms_spec(initial, max, a) < max) ==> delay_ms_spec(initial, max, a + 1) == (if 2
            * delay_ms_spec(initial, max, a) <= max {
            2 * delay_ms_spec(initial, max, a)
        } else {
            max as nat
        }),
        (1 <= a <= 10 && delay_ms_spec(initial, max, a) == max) ==> delay_ms_spec(initial, max, a + 1) == max,
        a >= 11 ==> delay_ms_spec(initial, max, a + 1) == delay_ms_spec(initial, max, a),
        a >= 1 ==> delay_ms_spec(initial, max, a) <= delay_ms_spec(initial, max, a + 1),
{
    assert(pow2(0) == 1);
    assert(min_nat(0nat, 10) == 0);
    assert(initial as nat * pow2(0) == initial as nat);
    if a >= 1 {
        let n = min_nat((a - 1) as nat, 10);
        let n1 = min_nat(a as nat, 10);
        let p = pow2(n);
        let p1 = pow2(n1);
        if a <= 10 {
            assert(n1 == n + 1);
            assert(p1 == 2 * p);
            assert(initial as nat * p1 == 2 * (initial as nat * p)) by (nonlinear_arith)
                requires p1 == 2 * p;
        } else {
            assert(n1 == n);
        }
        assert(initial as nat * p <= initial as nat * p1) by (nonlinear_arith)
            requires p1 >= p;
    }
}

/// The doubled backoff, capped at `max` (the backoff of the next retry).
pub open spec fn next_backoff_spec(backoff: u64, max: u64) -> nat {
    min_nat(2 * backoff as nat, max as nat)
}

/// What the retry loop does after a failed attempt.
#[derive(Debug, Clone, Copy, PartialEq, Eq, Structural)]
pub enum RetryStep {
    /// Give up and return the last error.
    GiveUp,
    /// Wait `wait_ms`, then try again; the backoff after that is `next_backoff_ms`.
    RetryAfter { wait_ms: u64, next_backoff_ms: u64 },
}

impl RetryPolicy {
    /// Creates a retry policy (not verbose).
    pub fn new(max_retries: u32, initial_backoff_ms: u64, max_backoff_ms: u64) -> (p: Self)
        ensures
            p.max_retries == max_retries,
            p.initial_backoff_ms == initial_backoff_ms,
            p.max_backoff_ms == max_backoff_ms,
            !p.verbose,
    {
        RetryPolicy { max_retries, initial_backoff_ms, max_backoff_ms, verbose: false }
    }

    /// The default policy: 4 retries, 2 s initial backoff, 16 s maximum.
    pub fn default_policy() -> (p: Self)
        ensures
            p.max_retries == MAX_RETRIES,
            p.initial_backoff_ms == INITIAL_BACKOFF_MS,
            p.max_backoff_ms == MAX_BACKOFF_MS,
            !p.verbose,
    {
        Self::new(MAX_RETRIES, INITIAL_BACKOFF_MS, MAX_BACKOFF_MS)
    }

    /// Enables or disables verbose logging.
    pub fn set_verbose(self, verbose: bool) -> (p: Self)
        ensures
            p.verbose == verbose,
            p.max_retries == self.max_retries,
            p.initial_backoff_ms == self.initial_backoff_ms,
            p.max_backoff_ms == self.max_backoff_ms,
    {
        let mut p = self;
        p.verbose = verbose;
        p
    }

    /// The delay in milliseconds before retry number `attempt` (1-indexed).
    pub fn delay_ms_for_attempt(&self, attempt: usize) -> (ms: u64)
        requires
            attempt > 0 ==> self.initial_backoff_ms * pow2(min_nat((attempt - 1) as nat, 10))
                <= u64::MAX,
        ensures
            ms == delay_ms_spec(self.initial_backoff_ms, self.max_backoff_ms, attempt as nat),
    {
        if attempt == 0 {
            return 0;
        }
        let shift: usize = if attempt - 1 < 10 { attempt - 1 } else { 10 };
        let mut factor: u64 = 1;
        let mut k: usize = 0;
        while k < shift
            invariant
                shift <= 10,
                k <= shift,
                factor == pow2(k as nat),
            decreases shift - k,
        {
            proof {
                lemma_pow2_le_1024(k as nat);
            }
            factor = factor * 2;
            k += 1;
        }
        proof {
            lemma_pow2_le_1024(shift as nat);
            assert(shift as nat == min_nat((attempt - 1) as nat, 10));
        }
        let delay = self.initial_backoff_ms * factor;
        if delay < self.max_backoff_ms {
            delay
        } else {
            self.max_backoff_ms
        }
    }

    /// The delay before retry number `attempt` (1-indexed), as a duration of
    /// `delay_ms_for_attempt(attempt)` milliseconds.
    pub fn delay_for_attempt(&self, attempt: usize) -> (d: Duration)
        requires
            attempt > 0 ==> self.initial_backoff_ms * pow2(min_nat((attempt - 1) as nat, 10))
                <= u64::MAX,
        ensures
            d == millis_duration(
                delay_ms_spec(self.initial_backoff_ms, self.max_backoff_ms, attempt as nat) as u64,
            ),
    {
        let ms = self.delay_ms_for_attempt(attempt);
        duration_from_millis(ms)
    }

    /// Whether retry number `attempt` is still allowed.
    pub fn should_retry(&self, attempt: usize) -> (r: bool)
        ensures
            r == (attempt <= self.max_retries),
    {
        attempt as u64 <= self.max_retries as u64
    }

    /// Whether an error message (already lowercased) indicates a retryable
    /// error: it names no authentication or permission failure and names a
    /// network failure.
    pub fn is_retryable_message(&self, error_lower: &str) -> (r: bool)
        ensures
            r == retryable_message(error_lower@),
    {
        let m = chars_of(error_lower);
        if non_retryable_exec(&m) {
            return false;
        }
        retryable_exec(&m)
    }

    /// Whether an error message indicates a retryable error, ignoring case.
    pub fn is_retryable(&self, error: &str) -> (r: bool)
        ensures
            r == retryable_message(lowercase(error@)),
    {
        let lower = to_lowercase_chars(error);
        let s = string_from_chars(&lower);
        self.is_retryable_message(s.as_str())
    }

    /// Maximum number of retries.
    pub fn max_attempts(&self) -> (r: u32)
        ensures
            r == self.max_retries,
    {
        self.max_retries
    }

    /// Initial backoff in milliseconds.
    pub fn base_delay_ms(&self) -> (r: u64)
        ensures
            r == self.initial_backoff_ms,
    {
        self.initial_backoff_ms
    }

    /// Maximum backoff in milliseconds.
    pub fn max_delay_ms(&self) -> (r: u64)
        ensures
            r == self.max_backoff_ms,
    {
        self.max_backoff_ms
    }

    /// The decision of the retry loop after a failed attempt: `attempt` is the
    /// number of failures so far and `backoff_ms` the current backoff. It gives
    /// up once the failures exceed the number of retries; otherwise it waits
    /// the current backoff, and doubles it up to the maximum for next time.
    pub fn step_after_failure(&self, attempt: u32, backoff_ms: u64) -> (s: RetryStep)
        ensures
            attempt > self.max_retries ==> s == RetryStep::GiveUp,
            attempt <= self.max_retries ==> s == (RetryStep::RetryAfter {
                wait_ms: backoff_ms,
                next_backoff_ms: next_backoff_spec(backoff_ms, self.max_backoff_ms) as u64,
            }),
    {
        if attempt > self.max_retries {
            return RetryStep::GiveUp;
        }
        let next = if backoff_ms >= self.max_backoff_ms / 2 + 1 {
            self.max_backoff_ms
        } else {
            let d = backoff_ms * 2;
            if d < self.max_backoff_ms { d } else { self.max_backoff_ms }
        };
        RetryStep::RetryAfter { wait_ms: backoff_ms, next_backoff_ms: next }
    }
}

// ---------------------------------------------------------------------------
// Error classification
// ---------------------------------------------------------------------------

/// The message names an authentication or permission failure.
pub open spec fn non_retryable_message(m: Seq<char>) -> bool {
    ||| contains_seq(m, "unauthorized"@)
    ||| contains_seq(m, "forbidden"@)
    ||| contains_seq(m, "invalid credentials"@)
    ||| contains_seq(m, "authentication"@)
    ||| contains_seq(m, "permission denied"@)
    ||| contains_seq(m, "not found"@)
    ||| contains_seq(m, "404"@)
    ||| contains_seq(m, "401"@)
    ||| contains_seq(m, "403"@)
    ||| contains_seq(m, "eacces"@)
    ||| contains_seq(m, "eperm"@)
}

/// The message names a network failure.
pub open spec fn network_failure_message(m: Seq<char>) -> bool {
    ||| contains_seq(m, "connection refused"@)
    ||| contains_seq(m, "connection reset"@)
    ||| contains_seq(m, "connection timed out"@)
    ||| contains_seq(m, "network"@)
    ||| contains_seq(m, "timeout"@)
    ||| contains_seq(m, "dns"@)
    ||| contains_seq(m, "temporary failure"@)
    ||| contains_seq(m, "try again"@)
    ||| contains_seq(m, "rate limit"@)
    ||| contains_seq(m, "too many requests"@)
    ||| contains_seq(m, "503"@)
    ||| contains_seq(m, "502"@)
    ||| contains_seq(m, "504"@)
    ||| contains_seq(m, "econnrefused"@)
    ||| contains_seq(m, "etimedout"@)
    ||| contains_seq(m, "enotfound"@)
    ||| contains_seq(m, "enetunreach"@)
}

/// A lowercased error message that a retry may cure.
pub open spec fn retryable_message(m: Seq<char>) -> bool {
    !non_retryable_message(m) && network_failure_message(m)
}

fn non_retryable_exec(m: &[char]) -> (r: bool)
    ensures
        r == non_retryable_message(m@),
{
    contains_str(m, "unauthorized") || contains_str(m, "forbidden") || contains_str(
        m,
        "invalid credentials",
    ) || contains_str(m, "authentication") || contains_str(m, "permission denied")
        || contains_str(m, "not found") || contains_str(m, "404") || contains_str(m, "401")
        || contains_str(m, "403") || contains_str(m, "eacces") || contains_str(m, "eperm")
}

fn retryable_exec(m: &[char]) -> (r: bool)
    ensures
        r == network_failure_message(m@),
{
    contains_str(m, "connection refused") || contains_str(m, "connection reset") || contains_str(
        m,
        "connection timed out",
    ) || contains_str(m, "network") || contains_str(m, "timeout") || contains_str(m, "dns")
        || contains_str(m, "temporary failure") || contains_str(m, "try again") || contains_str(
        m,
        "rate limit",
    ) || contains_str(m, "too many requests") || contains_str(m, "503") || contains_str(m, "502")
        || contains_str(m, "504") || contains_str(m, "econnrefused") || contains_str(m, "etimedout")
        || contains_str(m, "enotfound") || contains_str(m, "enetunreach")
}

/// A lowercased error message of a transient failure.
pub open spec fn transient_message(m: Seq<char>) -> bool {
    ||| contains_seq(m, "timeout"@)
    ||| contains_seq(m, "connection refused"@)
    ||| contains_seq(m, "connection reset"@)
    ||| contains_seq(m, "broken pipe"@)
    ||| contains_seq(m, "network unreachable"@)
    ||| contains_seq(m, "temporary failure"@)
    ||| contains_seq(m, "502"@)
    ||| contains_seq(m, "503"@)
    ||| contains_seq(m, "504"@)
    ||| contains_seq(m, "try again"@)
}

/// Whether a lowercased error message names a transient failure.
pub fn is_transient_message(error_lower: &str) -> (r: bool)
    ensures
        r == transient_message(error_lower@),
{
    let m = chars_of(error_lower);
    contains_str(&m, "timeout") || contains_str(&m, "connection refused") || contains_str(
        &m,
        "connection reset",
    ) || contains_str(&m, "broken pipe") || contains_str(&m, "network unreachable")
        || contains_str(&m, "temporary failure") || contains_str(&m, "502") || contains_str(
        &m,
        "503",
    ) || contains_str(&m, "504") || contains_str(&m, "try again")
}

#[verifier::external_type_specification]
#[verifier::external_body]
pub struct ExAnyhowError(anyhow::Error);

/// The message of an error, as its `Display` writes it. The error is
/// opaque here; the same error always shows the same message.
pub uninterp spec fn error_text(e: anyhow::Error) -> Seq<char>;

/// `anyhow::Error`'s `to_string`: the error's message.
#[verifier::external_body]
fn error_message(e: &anyhow::Error) -> (s: String)
    ensures
        s@ == error_text(*e),
{
    e.to_string()
}

/// Whether an error is transient (retryable): its message, lowercased,
/// names a transient failure.
pub fn is_transient_error(error: &anyhow::Error) -> (r: bool)
    ensures
        r == transient_message(lowercase(error_text(*error))),
{
    let msg = error_message(error);
    let lower = to_lowercase_chars(msg.as_str());
    let s = string_from_chars(&lower);
    is_transient_message(s.as_str())
}

// ---------------------------------------------------------------------------
// Operation data
// ---------------------------------------------------------------------------

/// Kinds of queued operations.
#[derive(Debug, Clone, Copy, PartialEq, Eq, Structural)]
pub enum OperationType {
    Push,
    Pull,
    LockAcquire,
    LockRelease,
    LockRenew,
    CommentSync,
}

/// Operation-specific data of a queued operation.
#[derive(Debug, Clone)]
pub struct OperationData {
    /// Branch name (for push/pull).
    pub branch: Option<String>,
    /// Commit message (for commits).
    pub message: Option<String>,
    /// Lock timeout (for lock operations).
    pub timeout_hours: Option<u32>,
    /// Additional key-value data.
    pub extra: Vec<(String, String)>,
}

impl OperationData {
    /// Empty operation data.
    pub fn new() -> (d: Self)
        ensures
            d.branch is None,
            d.message is None,
            d.timeout_hours is None,
            d.extra@.len() == 0,
    {
        OperationData { branch: None, message: None, timeout_hours: None, extra: Vec::new() }
    }

    /// Sets the branch.
    pub fn with_branch(self, branch: &str) -> (d: Self)
        ensures
            d.branch matches Some(b) && b@ == branch@,
            d.message == self.message,
            d.timeout_hours == self.timeout_hours,
            d.extra == self.extra,
    {
        let mut d = self;
        d.branch = Some(branch.to_owned());
        d
    }

    /// Sets the message.
    pub fn with_message(self, message: &str) -> (d: Self)
        ensures
            d.message matches Some(m) && m@ == message@,
            d.branch == self.branch,
            d.timeout_hours == self.timeout_hours,
            d.extra == self.extra,
    {
        let mut d = self;
        d.message = Some(message.to_owned());
        d
    }

    /// Sets the lock timeout.
    pub fn with_timeout(self, hours: u32) -> (d: Self)
        ensures
            d.timeout_hours == Some(hours),
            d.branch == self.branch,
            d.message == self.message,
            d.extra == self.extra,
    {
        let mut d = self;
        d.timeout_hours = Some(hours);
        d
    }
}

// ---------------------------------------------------------------------------
// Circuit breaker
// ---------------------------------------------------------------------------

/// Circuit breaker states.
#[derive(Debug, Clone, Copy, PartialEq, Eq, Structural)]
pub enum CircuitState {
    /// Normal operation: requests allowed.
    Closed,
    /// Failing: requests rejected.
    Open,
    /// Testing recovery: requests allowed until it closes or opens again.
    HalfOpen,
}

/// Circuit breaker that stops requests after repeated failures and lets
/// them through again after a timeout.
#[derive(Debug, Clone)]
pub struct CircuitBreaker {
    pub state: CircuitState,
    pub failure_count: u32,
    pub success_count: u32,
    pub failure_threshold: u32,
    pub success_threshold: u32,
    pub last_failure_time: Option<Instant>,
    /// Time the circuit stays open before a trial request, in seconds.
    pub timeout_secs: u64,
}

/// Statistics about a circuit breaker.
#[derive(Debug, Clone)]
pub struct CircuitBreakerStats {
    pub state: CircuitState,
    pub failure_count: u32,
    pub success_count: u32,
    pub failure_threshold: u32,
    pub success_threshold: u32,
    pub time_until_retry: Option<Duration>,
}

/// The time left before an open circuit allows a trial request, in
/// nanoseconds: the timeout less the time elapsed, and none once elapsed.
pub open spec fn remaining_nanos_spec(timeout_secs: u64, elapsed: nat) -> nat {
    let t = timeout_secs as nat * 1_000_000_000;
    if elapsed < t {
        (t - elapsed) as nat
    } else {
        0
    }
}

/// The time left before a trial request, split into whole seconds and
/// nanoseconds.
pub fn remaining_time(timeout_secs: u64, elapsed_nanos: u128) -> (r: (u64, u32))
    ensures
        r.1 < 1_000_000_000,
        duration_nanos(r.0, r.1) == remaining_nanos_spec(timeout_secs, elapsed_nanos as nat),
        r.0 == remaining_nanos_spec(timeout_secs, elapsed_nanos as nat) / 1_000_000_000,
        r.1 == remaining_nanos_spec(timeout_secs, elapsed_nanos as nat) % 1_000_000_000,
{
    let t: u128 = timeout_secs as u128 * 1_000_000_000;
    let rem: u128 = if elapsed_nanos < t { t - elapsed_nanos } else { 0 };
    let secs = rem / 1_000_000_000;
    let nanos = rem % 1_000_000_000;
    assert(secs <= timeout_secs);
    (secs as u64, nanos as u32)
}

/// The state and counts of a circuit breaker.
pub ghost struct BreakerCounts {
    pub state: CircuitState,
    pub failures: int,
    pub successes: int,
}

/// The counts after a failure, with the given failure threshold.
pub open spec fn failure_step(c: BreakerCounts, failure_threshold: int) -> BreakerCounts {
    match c.state {
        CircuitState::Closed => if c.failures + 1 >= failure_threshold {
            BreakerCounts { state: CircuitState::Open, failures: c.failures + 1, ..c }
        } else {
            BreakerCounts { failures: c.failures + 1, ..c }
        },
        CircuitState::HalfOpen => BreakerCounts { state: CircuitState::Open, successes: 0, ..c },
        CircuitState::Open => c,
    }
}

/// The counts after a success, with the given success threshold.
pub open spec fn success_step(c: BreakerCounts, success_threshold: int) -> BreakerCounts {
    match c.state {
        CircuitState::HalfOpen => if c.successes + 1 >= success_threshold {
            BreakerCounts { state: CircuitState::Closed, failures: 0, successes: 0 }
        } else {
            BreakerCounts { successes: c.successes + 1, ..c }
        },
        CircuitState::Closed => BreakerCounts {
            failures: if c.failures > 0 {
                c.failures - 1
            } else {
                0
            },
            ..c
        },
        CircuitState::Open => c,
    }
}

/// The counts after `n` failures in a row.
pub open spec fn failures_in_a_row(c: BreakerCounts, failure_threshold: int, n: nat) -> BreakerCounts
    decreases n,
{
    if n == 0 {
        c
    } else {
        failure_step(failures_in_a_row(c, failure_threshold, (n - 1) as nat), failure_threshold)
    }
}

/// The counts after `n` successes in a row.
pub open spec fn successes_in_a_row(c: BreakerCounts, success_threshold: int, n: nat) -> BreakerCounts
    decreases n,
{
    if n == 0 {
        c
    } else {
        success_step(successes_in_a_row(c, success_threshold, (n - 1) as nat), success_threshold)
    }
}

/// From a closed breaker with no failures, failures in a row keep it closed,
/// counting them, until as many as the failure threshold have come; then it
/// is open.
pub proof fn lemma_failures_open_circuit(c: BreakerCounts, failure_threshold: int, n: nat)
    requires
        c.state == CircuitState::Closed,
        c.failures == 0,
        n >= 1,
    ensures
        failures_in_a_row(c, failure_threshold, n).state == (if n >= failure_threshold {
            CircuitState::Open
        } else {
            CircuitState::Closed
        }),
        n <= failure_threshold ==> failures_in_a_row(c, failure_threshold, n).failures == n,
    decreases n,
{
    assert(failures_in_a_row(c, failure_threshold, 0) == c);
    if n > 1 {
        lemma_failures_open_circuit(c, failure_threshold, (n - 1) as nat);
    }
}

/// From a half-open breaker with no successes, successes in a row keep it
/// half-open, counting them, until as many as the success threshold have
/// come; then it is closed with no failures and no successes counted.
pub proof fn lemma_successes_close_circuit(c: BreakerCounts, success_threshold: int, n: nat)
    requires
        c.state == CircuitState::HalfOpen,
        c.successes == 0,
        n >= 1,
    ensures
        n < success_threshold ==> successes_in_a_row(c, success_threshold, n) == (BreakerCounts {
            successes: n as int,
            ..c
        }),
        n >= success_threshold ==> successes_in_a_row(c, success_threshold, n) == (BreakerCounts {
            state: CircuitState::Closed,
            failures: 0,
            successes: 0,
        }),
    decreases n,
{
    assert(successes_in_a_row(c, success_threshold, 0) == c);
    if n > 1 {
        lemma_successes_close_circuit(c, success_threshold, (n - 1) as nat);
    }
}

impl CircuitBreaker {
    /// The state and counts of this breaker.
    pub open spec fn counts(&self) -> BreakerCounts {
        BreakerCounts {
            state: self.state,
            failures: self.failure_count as int,
            successes: self.success_count as int,
        }
    }
}

/// The breaker after a failure at the instant `now`: closed, one more
/// failure, opening (with `now` as the last failure's time) at the failure
/// threshold; half-open, open again with `now` and no successes; open,
/// still open with `now`. Thresholds and timeout are kept.
pub open spec fn failure_recorded(cb: CircuitBreaker, now: Instant) -> CircuitBreaker {
    match cb.state {
        CircuitState::Closed => if cb.failure_count + 1 >= cb.failure_threshold {
            CircuitBreaker {
                state: CircuitState::Open,
                failure_count: (cb.failure_count + 1) as u32,
                last_failure_time: Some(now),
                ..cb
            }
        } else {
            CircuitBreaker { failure_count: (cb.failure_count + 1) as u32, ..cb }
        },
        CircuitState::HalfOpen => CircuitBreaker {
            state: CircuitState::Open,
            success_count: 0,
            last_failure_time: Some(now),
            ..cb
        },
        CircuitState::Open => CircuitBreaker { last_failure_time: Some(now), ..cb },
    }
}

/// The wait before an open breaker with a recorded failure lets a trial
/// request through, `elapsed` nanoseconds after that failure: the duration
/// of the timeout less the time elapsed (zero once elapsed), in whole
/// seconds and nanoseconds. None for a breaker that is not open or has no
/// recorded failure.
pub open spec fn retry_wait(cb: CircuitBreaker, elapsed: u128) -> Option<Duration> {
    if cb.state == CircuitState::Open && cb.last_failure_time is Some {
        let rem = remaining_nanos_spec(cb.timeout_secs, elapsed as nat);
        Some(seconds_duration((rem / 1_000_000_000) as u64, (rem % 1_000_000_000) as u32))
    } else {
        None
    }
}

/// A failure that leaves the breaker open restarts the wait for a trial
/// request in full: the failure's instant becomes the last failure's time,
/// no request goes through until the whole timeout has elapsed from it, and
/// right after the failure the wait is the whole timeout. The thresholds and
/// the timeout never change.
pub proof fn lemma_failure_restarts_retry_wait(cb: CircuitBreaker, now: Instant, elapsed: u128)
    requires
        failure_recorded(cb, now).state == CircuitState::Open,
    ensures
        failure_recorded(cb, now).last_failure_time == Some(now),
        request_allowed(failure_recorded(cb, now), Some(elapsed)) <==> elapsed >= cb.timeout_secs
            * 1_000_000_000,
        retry_wait(failure_recorded(cb, now), 0) == Some(seconds_duration(cb.timeout_secs, 0)),
        failure_recorded(cb, now).failure_threshold == cb.failure_threshold,
        failure_recorded(cb, now).success_threshold == cb.success_threshold,
        failure_recorded(cb, now).timeout_secs == cb.timeout_secs,
{
    let t = cb.timeout_secs as nat * 1_000_000_000;
    assert(remaining_nanos_spec(cb.timeout_secs, 0) == t);
    assert(t / 1_000_000_000 == cb.timeout_secs as nat) by (nonlinear_arith)
        requires t == cb.timeout_secs as nat * 1_000_000_000;
    assert(t % 1_000_000_000 == 0) by (nonlinear_arith)
        requires t == cb.timeout_secs as nat * 1_000_000_000;
}

/// Whether a breaker lets a request through, `elapsed` nanoseconds after
/// its last recorded failure (none when there is none): always unless open;
/// when open, once the timeout has elapsed.
pub open spec fn request_allowed(cb: CircuitBreaker, elapsed: Option<u128>) -> bool {
    cb.state != CircuitState::Open || (elapsed matches Some(e) && e >= cb.timeout_secs * 1_000_000_000)
}

/// The breaker after asking whether a request may go through: an open one
/// that lets it through turns half-open with its success count reset;
/// otherwise nothing changes.
pub open spec fn after_request(cb: CircuitBreaker, elapsed: Option<u128>) -> CircuitBreaker {
    if cb.state == CircuitState::Open && request_allowed(cb, elapsed) {
        CircuitBreaker { state: CircuitState::HalfOpen, success_count: 0, ..cb }
    } else {
        cb
    }
}

impl CircuitBreaker {
    /// A closed circuit breaker with the given thresholds and timeout.
    pub fn with_thresholds(failure_threshold: u32, success_threshold: u32, timeout_secs: u64) -> (cb:
        Self)
        ensures
            cb.state == CircuitState::Closed,
            cb.failure_count == 0,
            cb.success_count == 0,
            cb.failure_threshold == failure_threshold,
            cb.success_threshold == success_threshold,
            cb.last_failure_time is None,
            cb.timeout_secs == timeout_secs,
    {
        CircuitBreaker {
            state: CircuitState::Closed,
            failure_count: 0,
            success_count: 0,
            failure_threshold,
            success_threshold,
            last_failure_time: None,
            timeout_secs,
        }
    }

    /// The default circuit breaker, configured by the values of the
    /// environment variables `AUXIN_CIRCUIT_BREAKER_THRESHOLD` (failures before
    /// opening, default 5) and `AUXIN_CIRCUIT_BREAKER_TIMEOUT` (seconds open,
    /// default 60); a value that does not parse gives the default. Three
    /// successes are asked for before a half-open circuit closes.
    pub fn from_settings(threshold: Option<&str>, timeout: Option<&str>) -> (cb: Self)
        ensures
            cb.state == CircuitState::Closed,
            cb.failure_count == 0,
            cb.success_count == 0,
            cb.success_threshold == 3,
            cb.last_failure_time is None,
            cb.failure_threshold == match threshold {
                Some(t) => match parse_u32_spec(t@) {
                    Some(v) => v,
                    None => 5u32,
                },
                None => 5u32,
            },
            cb.timeout_secs == match timeout {
                Some(t) => match parse_u64_spec(t@) {
                    Some(v) => v,
                    None => 60u64,
                },
                None => 60u64,
            },
    {
        let failure_threshold: u32 = match threshold {
            Some(t) => {
                let c = chars_of(t);
                match parse_u32(&c) {
                    Some(v) => v,
                    None => 5,
                }
            },
            None => 5,
        };
        let timeout_secs: u64 = match timeout {
            Some(t) => {
                let c = chars_of(t);
                match parse_u64(&c) {
                    Some(v) => v,
                    None => 60,
                }
            },
            None => 60,
        };
        Self::with_thresholds(failure_threshold, 3, timeout_secs)
    }

    /// The current state.
    pub fn state(&self) -> (s: CircuitState)
        ensures
            s == self.state,
    {
        self.state
    }

    /// Whether a request may go through, `elapsed_nanos` after the last
    /// recorded failure (none when no failure is recorded). A closed or
    /// half-open circuit lets it through. An open circuit lets it through
    /// once its timeout has elapsed, turning half-open with its success
    /// count reset; otherwise it stays open (see [`request_allowed`] and
    /// [`after_request`]).
    pub fn allow_request_at(&mut self, elapsed_nanos: Option<u128>) -> (r: bool)
        ensures
            r == request_allowed(*old(self), elapsed_nanos),
            *final(self) == after_request(*old(self), elapsed_nanos),
    {
        match self.state {
            CircuitState::Closed => true,
            CircuitState::HalfOpen => true,
            CircuitState::Open => {
                let timeout_nanos: u128 = self.timeout_secs as u128 * 1_000_000_000;
                let elapsed_ok = match elapsed_nanos {
                    Some(e) => e >= timeout_nanos,
                    None => false,
                };
                if elapsed_ok {
                    self.state = CircuitState::HalfOpen;
                    self.success_count = 0;
                    true
                } else {
                    false
                }
            },
        }
    }

    /// Whether a request may go through now: [`allow_request_at`] with the
    /// time elapsed since the last recorded failure, as the clock gives it.
    pub fn allow_request(&mut self) -> (r: bool)
        ensures
            exists|e: Option<u128>|
                (e is Some <==> old(self).last_failure_time is Some) && r == request_allowed(*old(self), e)
                    && *final(self) == after_request(*old(self), e),
    {
        let elapsed = match &self.last_failure_time {
            Some(t) => Some(elapsed_nanos(t)),
            None => None,
        };
        self.allow_request_at(elapsed)
    }

    /// Records a successful operation. Half-open: one more success, and the
    /// circuit closes (counts reset) once the success threshold is reached.
    /// Closed: one failure fewer (down to zero). Open: nothing changes.
    pub fn record_success(&mut self)
        requires
            old(self).state == CircuitState::HalfOpen ==> old(self).success_count < u32::MAX,
        ensures
            old(self).state == CircuitState::Open ==> *final(self) == *old(self),
            final(self).counts() == success_step(old(self).counts(), old(self).success_threshold as int),
            final(self).failure_threshold == old(self).failure_threshold,
            final(self).success_threshold == old(self).success_threshold,
            final(self).timeout_secs == old(self).timeout_secs,
            final(self).last_failure_time == old(self).last_failure_time,
            old(self).state == CircuitState::HalfOpen ==> if old(self).success_count + 1
                >= old(self).success_threshold {
                final(self).state == CircuitState::Closed && final(self).failure_count == 0
                    && final(self).success_count == 0
            } else {
                final(self).state == CircuitState::HalfOpen && final(self).success_count
                    == old(self).success_count + 1 && final(self).failure_count
                    == old(self).failure_count
            },
            old(self).state == CircuitState::Closed ==> final(self).state == CircuitState::Closed
                && final(self).success_count == old(self).success_count && final(self).failure_count
                == (if old(self).failure_count > 0 { old(self).failure_count - 1 } else { 0 }),
            old(self).state == CircuitState::Open ==> final(self).state == CircuitState::Open
                && final(self).success_count == old(self).success_count && final(self).failure_count
                == old(self).failure_count,
    {
        match self.state {
            CircuitState::HalfOpen => {
                self.success_count = self.success_count + 1;
                if self.success_count >= self.success_threshold {
                    self.state = CircuitState::Closed;
                    self.failure_count = 0;
                    self.success_count = 0;
                }
            },
            CircuitState::Closed => {
                if self.failure_count > 0 {
                    self.failure_count = self.failure_count - 1;
                }
            },
            CircuitState::Open => {},
        }
    }

    /// Records a failed operation at the instant `now`. Closed: one more
    /// failure, and the circuit opens once the failure threshold is reached.
    /// Half-open: the circuit opens again (success count reset). Open: it
    /// stays open. Whenever the circuit is or becomes open, `now` becomes the
    /// time of the last failure, from which the timeout runs again (see
    /// [`failure_recorded`]).
    pub fn record_failure_at(&mut self, now: Instant)
        requires
            old(self).state == CircuitState::Closed ==> old(self).failure_count < u32::MAX,
        ensures
            *final(self) == failure_recorded(*old(self), now),
            final(self).counts() == failure_step(old(self).counts(), old(self).failure_threshold as int),
    {
        match self.state {
            CircuitState::Closed => {
                self.failure_count = self.failure_count + 1;
                if self.failure_count >= self.failure_threshold {
                    self.state = CircuitState::Open;
                    self.last_failure_time = Some(now);
                }
            },
            CircuitState::HalfOpen => {
                self.state = CircuitState::Open;
                self.last_failure_time = Some(now);
                self.success_count = 0;
            },
            CircuitState::Open => {
                self.last_failure_time = Some(now);
            },
        }
    }

    /// Records a failed operation. Closed: one more failure, and the circuit
    /// opens once the failure threshold is reached. Half-open: the circuit
    /// opens again (success count reset). Open: it stays open. Whenever the
    /// circuit is or becomes open, the time of this failure is kept.
    pub fn record_failure(&mut self)
        requires
            old(self).state == CircuitState::Closed ==> old(self).failure_count < u32::MAX,
        ensures
            exists|now: Instant| *final(self) == failure_recorded(*old(self), now),
            final(self).counts() == failure_step(old(self).counts(), old(self).failure_threshold as int),
            final(self).failure_threshold == old(self).failure_threshold,
            final(self).success_threshold == old(self).success_threshold,
            final(self).timeout_secs == old(self).timeout_secs,
            old(self).state == CircuitState::Closed ==> {
                &&& final(self).failure_count == old(self).failure_count + 1
                &&& final(self).success_count == old(self).success_count
                &&& if old(self).failure_count + 1 >= old(self).failure_threshold {
                    final(self).state == CircuitState::Open && final(self).last_failure_time is Some
                } else {
                    final(self).state == CircuitState::Closed && final(self).last_failure_time
                        == old(self).last_failure_time
                }
            },
            old(self).state == CircuitState::HalfOpen ==> final(self).state == CircuitState::Open
                && final(self).success_count == 0 && final(self).failure_count
                == old(self).failure_count && final(self).last_failure_time is Some,
            old(self).state == CircuitState::Open ==> final(self).state == CircuitState::Open
                && final(self).success_count == old(self).success_count && final(self).failure_count
                == old(self).failure_count && final(self).last_failure_time is Some,
    {
        let now = instant_now();
        self.record_failure_at(now);
    }

    /// Resets the breaker: closed, no counts, no recorded failure.
    pub fn reset(&mut self)
        ensures
            final(self).state == CircuitState::Closed,
            final(self).failure_count == 0,
            final(self).success_count == 0,
            final(self).last_failure_time is None,
            final(self).failure_threshold == old(self).failure_threshold,
            final(self).success_threshold == old(self).success_threshold,
            final(self).timeout_secs == old(self).timeout_secs,
    {
        self.state = CircuitState::Closed;
        self.failure_count = 0;
        self.success_count = 0;
        self.last_failure_time = None;
    }

    /// The time until an open circuit allows a trial request,
    /// `elapsed_nanos` after its last recorded failure: none unless open
    /// with a recorded failure; else the timeout less the time elapsed, and
    /// zero once it has elapsed (see [`retry_wait`]).
    pub fn time_until_retry_at(&self, elapsed_nanos: u128) -> (r: Option<Duration>)
        ensures
            r == retry_wait(*self, elapsed_nanos),
    {
        if self.state == CircuitState::Open && self.last_failure_time.is_some() {
            let (secs, nanos) = remaining_time(self.timeout_secs, elapsed_nanos);
            Some(duration_new(secs, nanos))
        } else {
            None
        }
    }

    /// The time until an open circuit allows a trial request:
    /// [`time_until_retry_at`] with the time elapsed since the last recorded
    /// failure, as the clock gives it.
    pub fn time_until_retry(&self) -> (r: Option<Duration>)
        ensures
            r is Some <==> (self.state == CircuitState::Open && self.last_failure_time is Some),
            exists|e: u128| r == retry_wait(*self, e),
    {
        match &self.last_failure_time {
            Some(t) => {
                let e = elapsed_nanos(t);
                self.time_until_retry_at(e)
            },
            None => {
                let r = self.time_until_retry_at(0);
                assert(r == retry_wait(*self, 0u128));
                r
            },
        }
    }

    /// Statistics about the breaker.
    pub fn stats(&self) -> (s: CircuitBreakerStats)
        ensures
            s.state == self.state,
            s.failure_count == self.failure_count,
            s.success_count == self.success_count,
            s.failure_threshold == self.failure_threshold,
            s.success_threshold == self.success_threshold,
            s.time_until_retry is Some <==> (self.state == CircuitState::Open
                && self.last_failure_time is Some),
    {
        CircuitBreakerStats {
            state: self.state,
            failure_count: self.failure_count,
            success_count: self.success_count,
            failure_threshold: self.failure_threshold,
            success_threshold: self.success_threshold,
            time_until_retry: self.time_until_retry(),
        }
    }
}

// ---------------------------------------------------------------------------
// Adaptive retry policy
// ---------------------------------------------------------------------------

/// Retry policy that adapts its waits to the kind of error and stops
/// requests through a circuit breaker after repeated failures.
#[derive(Debug, Clone)]
pub struct AdaptiveRetryPolicy {
    pub base_policy: RetryPolicy,
    pub circuit_breaker: CircuitBreaker,
    pub verbose: bool,
}

/// The backoff adjusted to the error: tripled for rate limiting, doubled for
/// timeouts, unchanged otherwise.
pub open spec fn adjusted_backoff_spec(msg: Seq<char>, backoff: u64) -> nat {
    if contains_seq(msg, "rate limit"@) || contains_seq(msg, "429"@) {
        3 * backoff as nat
    } else if contains_seq(msg, "timeout"@) {
        2 * backoff as nat
    } else {
        backoff as nat
    }
}

/// The adjusted backoff with a jitter of up to a tenth of it either way,
/// chosen by the attempt number.
pub open spec fn jittered_spec(adjusted: nat, attempt: nat) -> nat {
    let j = adjusted / 10;
    let k = attempt % (2 * j + 1);
    adjusted + if k >= j { (k - j) as nat } else { 0 }
}

/// The wait of an adaptive retry, for a backoff `b` and a maximum `max`:
/// never above the maximum; for an error naming rate limiting ("rate limit"
/// or "429") at least three times the backoff (or the maximum, if that is
/// less) and at most a tenth more; for a timeout at least twice the backoff
/// and at most a tenth more; otherwise at least the backoff and at most a
/// tenth more. The next backoff is the backoff doubled, up to the maximum.
pub proof fn lemma_adaptive_wait(msg: Seq<char>, b: u64, attempt: nat, max: u64)
    ensures
        ({
            let w = min_nat(jittered_spec(adjusted_backoff_spec(msg, b), attempt), max as nat);
            let rate_limited = contains_seq(msg, "rate limit"@) || contains_seq(msg, "429"@);
            let timed_out = contains_seq(msg, "timeout"@);
            &&& w <= max
            &&& rate_limited ==> (if 3 * b <= max { 3 * b } else { max as int }) <= w <= 3 * b + (3 * b) / 10
            &&& (!rate_limited && timed_out) ==> (if 2 * b <= max { 2 * b } else { max as int }) <= w <= 2 * b
                + (2 * b) / 10
            &&& (!rate_limited && !timed_out) ==> (if b <= max { b as int } else { max as int }) <= w <= b + b / 10
            &&& next_backoff_spec(b, max) == (if 2 * b <= max { 2 * b } else { max as int })
        }),
{
    let a = adjusted_backoff_spec(msg, b);
    let j = a / 10;
    let k = attempt % (2 * j + 1);
    assert(k < 2 * j + 1) by (nonlinear_arith)
        requires k == attempt % (2 * j + 1), j >= 0;
    assert(jittered_spec(a, attempt) <= a + j);
    assert(jittered_spec(a, attempt) >= a);
}

impl AdaptiveRetryPolicy {
    /// An adaptive policy with the default retry policy and the given
    /// circuit breaker.
    pub fn new(circuit_breaker: CircuitBreaker) -> (p: Self)
        ensures
            p.base_policy.max_retries == MAX_RETRIES,
            p.base_policy.initial_backoff_ms == INITIAL_BACKOFF_MS,
            p.base_policy.max_backoff_ms == MAX_BACKOFF_MS,
            !p.base_policy.verbose,
            p.circuit_breaker == circuit_breaker,
            !p.verbose,
    {
        AdaptiveRetryPolicy { base_policy: RetryPolicy::default_policy(), circuit_breaker, verbose: false }
    }

    /// An adaptive policy with a custom retry policy and the given circuit
    /// breaker.
    pub fn with_policy(policy: RetryPolicy, circuit_breaker: CircuitBreaker) -> (p: Self)
        ensures
            p.base_policy == policy,
            p.circuit_breaker == circuit_breaker,
            !p.verbose,
    {
        AdaptiveRetryPolicy { base_policy: policy, circuit_breaker, verbose: false }
    }

    /// Enables or disables verbose logging, here and in the base policy.
    pub fn set_verbose(self, verbose: bool) -> (p: Self)
        ensures
            p.verbose == verbose,
            p.base_policy.verbose == verbose,
            p.base_policy.max_retries == self.base_policy.max_retries,
            p.base_policy.initial_backoff_ms == self.base_policy.initial_backoff_ms,
            p.base_policy.max_backoff_ms == self.base_policy.max_backoff_ms,
            p.circuit_breaker == self.circuit_breaker,
    {
        let AdaptiveRetryPolicy { base_policy, circuit_breaker, verbose: _ } = self;
        AdaptiveRetryPolicy { base_policy: base_policy.set_verbose(verbose), circuit_breaker, verbose }
    }

    /// Statistics of the circuit breaker.
    pub fn circuit_stats(&self) -> (s: CircuitBreakerStats)
        ensures
            s.state == self.circuit_breaker.state,
            s.failure_count == self.circuit_breaker.failure_count,
            s.success_count == self.circuit_breaker.success_count,
            s.failure_threshold == self.circuit_breaker.failure_threshold,
            s.success_threshold == self.circuit_breaker.success_threshold,
            s.time_until_retry is Some <==> (self.circuit_breaker.state == CircuitState::Open
                && self.circuit_breaker.last_failure_time is Some),
    {
        self.circuit_breaker.stats()
    }

    /// Resets the circuit breaker.
    pub fn reset_circuit(&mut self)
        ensures
            final(self).circuit_breaker.state == CircuitState::Closed,
            final(self).circuit_breaker.failure_count == 0,
            final(self).circuit_breaker.success_count == 0,
            final(self).circuit_breaker.last_failure_time is None,
            final(self).circuit_breaker.failure_threshold == old(self).circuit_breaker.failure_threshold,
            final(self).circuit_breaker.success_threshold == old(self).circuit_breaker.success_threshold,
            final(self).circuit_breaker.timeout_secs == old(self).circuit_breaker.timeout_secs,
            final(self).base_policy == old(self).base_policy,
            final(self).verbose == old(self).verbose,
    {
        self.circuit_breaker.reset();
    }

    /// Before the first attempt: whether the circuit breaker lets the
    /// operation run at all.
    pub fn begin(&mut self) -> (allowed: bool)
        ensures
            final(self).base_policy == old(self).base_policy,
            final(self).verbose == old(self).verbose,
            exists|e: Option<u128>|
                (e is Some <==> old(self).circuit_breaker.last_failure_time is Some) && allowed
                    == request_allowed(old(self).circuit_breaker, e) && final(self).circuit_breaker
                    == after_request(old(self).circuit_breaker, e),
    {
        self.circuit_breaker.allow_request()
    }

    /// After a successful attempt: the circuit breaker records the success.
    pub fn after_success(&mut self)
        requires
            old(self).circuit_breaker.state == CircuitState::HalfOpen
                ==> old(self).circuit_breaker.success_count < u32::MAX,
        ensures
            final(self).base_policy == old(self).base_policy,
            final(self).verbose == old(self).verbose,
            final(self).circuit_breaker.counts() == success_step(
                old(self).circuit_breaker.counts(),
                old(self).circuit_breaker.success_threshold as int,
            ),
            final(self).circuit_breaker.failure_threshold == old(self).circuit_breaker.failure_threshold,
            final(self).circuit_breaker.success_threshold == old(self).circuit_breaker.success_threshold,
            final(self).circuit_breaker.timeout_secs == old(self).circuit_breaker.timeout_secs,
            final(self).circuit_breaker.last_failure_time == old(self).circuit_breaker.last_failure_time,
    {
        self.circuit_breaker.record_success();
    }

    /// After failed attempt number `attempt` (counted from 1), with the
    /// lowercased error message, whether the error is transient, and the
    /// current backoff. A permanent error, or one past the last retry, gives
    /// up and is recorded by the circuit breaker; otherwise the wait is the
    /// backoff adjusted to the error, jittered, and capped at the maximum,
    /// and the next backoff is the doubled one, capped.
    pub fn after_failure(&mut self, attempt: u32, transient: bool, error_lower: &str, backoff_ms: u64)
        -> (s: RetryStep)
        requires
            backoff_ms <= u64::MAX / 4,
            old(self).circuit_breaker.state == CircuitState::Closed
                ==> old(self).circuit_breaker.failure_count < u32::MAX,
        ensures
            final(self).base_policy == old(self).base_policy,
            final(self).verbose == old(self).verbose,
            (!transient || attempt > old(self).base_policy.max_retries) ==> {
                &&& s == RetryStep::GiveUp
                &&& old(self).circuit_breaker.state == CircuitState::Closed ==> final(self).circuit_breaker.failure_count == old(self).circuit_breaker.failure_count + 1
                &&& old(self).circuit_breaker.state == CircuitState::HalfOpen ==> final(self).circuit_breaker.state == CircuitState::Open
            },
            (transient && attempt <= old(self).base_policy.max_retries) ==> {
                &&& final(self).circuit_breaker == old(self).circuit_breaker
                &&& s == RetryStep::RetryAfter {
                    wait_ms: min_nat(
                        jittered_spec(adjusted_backoff_spec(error_lower@, backoff_ms), attempt as nat),
                        old(self).base_policy.max_backoff_ms as nat,
                    ) as u64,
                    next_backoff_ms: next_backoff_spec(
                        backoff_ms,
                        old(self).base_policy.max_backoff_ms,
                    ) as u64,
                }
            },
    {
        if !transient || attempt > self.base_policy.max_retries {
            self.circuit_breaker.record_failure();
            return RetryStep::GiveUp;
        }
        let m = chars_of(error_lower);
        let adjusted: u64 = if contains_str(&m, "rate limit") || contains_str(&m, "429") {
            backoff_ms * 3
        } else if contains_str(&m, "timeout") {
            backoff_ms * 2
        } else {
            backoff_ms
        };
        let jitter = adjusted / 10;
        let k = (attempt as u64) % (2 * jitter + 1);
        let extra = if k >= jitter { k - jitter } else { 0 };
        let jittered = adjusted + extra;
        let max = self.base_policy.max_backoff_ms;
        let wait = if jittered < max { jittered } else { max };
        let next = if backoff_ms >= max / 2 + 1 {
            max
        } else {
            let d = backoff_ms * 2;
            if d < max { d } else { max }
        };
        RetryStep::RetryAfter { wait_ms: wait, next_backoff_ms: next }
    }
}

// ---------------------------------------------------------------------------
// Network health
// ---------------------------------------------------------------------------

/// Quality of the connection, rated by latency.
#[derive(Debug, Clone, Copy, PartialEq, Eq, Structural)]
pub enum NetworkQuality {
    /// Under 50 ms.
    Excellent,
    /// 50 to 150 ms.
    Good,
    /// 150 to 300 ms.
    Fair,
    /// 300 ms or more.
    Poor,
    /// No connection.
    Offline,
}

/// The quality of a connection with this latency (none: offline).
pub open spec fn quality_spec(latency_ms: Option<u64>) -> NetworkQuality {
    match latency_ms {
        Some(ms) => if ms < 50 {
            NetworkQuality::Excellent
        } else if ms < 150 {
            NetworkQuality::Good
        } else if ms < 300 {
            NetworkQuality::Fair
        } else {
            NetworkQuality::Poor
        },
        None => NetworkQuality::Offline,
    }
}

impl NetworkQuality {
    /// The quality of a connection with this latency.
    pub fn for_latency(latency_ms: Option<u64>) -> (q: Self)
        ensures
            q == quality_spec(latency_ms),
    {
        match latency_ms {
            Some(ms) => if ms < 50 {
                NetworkQuality::Excellent
            } else if ms < 150 {
                NetworkQuality::Good
            } else if ms < 300 {
                NetworkQuality::Fair
            } else {
                NetworkQuality::Poor
            },
            None => NetworkQuality::Offline,
        }
    }

    /// The quality's name.
    pub fn to_string(&self) -> (s: String)
        ensures
            s@ == match *self {
                NetworkQuality::Excellent => "Excellent"@,
                NetworkQuality::Good => "Good"@,
                NetworkQuality::Fair => "Fair"@,
                NetworkQuality::Poor => "Poor"@,
                NetworkQuality::Offline => "Offline"@,
            },
    {
        match self {
            NetworkQuality::Excellent => "Excellent".to_owned(),
            NetworkQuality::Good => "Good".to_owned(),
            NetworkQuality::Fair => "Fair".to_owned(),
            NetworkQuality::Poor => "Poor".to_owned(),
            NetworkQuality::Offline => "Offline".to_owned(),
        }
    }
}

/// The bandwidth, in Mbps, assumed for a connection with this latency when
/// estimating transfer times: 100 under 50 ms, 50 under 150 ms, 20 under
/// 300 ms, 5 beyond, and 1 when the latency is unknown.
pub open spec fn bandwidth_mbps_spec(latency_ms: Option<u64>) -> nat {
    match latency_ms {
        Some(ms) => if ms < 50 {
            100
        } else if ms < 150 {
            50
        } else if ms < 300 {
            20
        } else {
            5
        },
        None => 1,
    }
}

/// The bandwidth, in Mbps, assumed for a connection with this latency.
pub fn bandwidth_mbps_for_latency(latency_ms: Option<u64>) -> (mbps: u64)
    ensures
        mbps == bandwidth_mbps_spec(latency_ms),
{
    match latency_ms {
        Some(ms) => if ms < 50 {
            100
        } else if ms < 150 {
            50
        } else if ms < 300 {
            20
        } else {
            5
        },
        None => 1,
    }
}

// ---------------------------------------------------------------------------
// Transfer time estimates
// ---------------------------------------------------------------------------

/// The time a file of `size` bytes takes at `mbps` megabits per second:
/// whole seconds under a minute (`42s`), else minutes with one decimal under
/// an hour (`2.5m`), else hours with one decimal (`1.2h`), each rounded as
/// [`rounded_printed`] says.
pub open spec fn transfer_time_text(size: nat, mbps: nat) -> Seq<char> {
    let bytes_per_second = mbps * 125000;
    if size < 60 * bytes_per_second {
        decimal(rounded_half_even(size, bytes_per_second)) + seq!['s']
    } else if size < 3600 * bytes_per_second {
        tenths_text(rounded_printed(size, 6 * bytes_per_second, 20)) + seq!['m']
    } else {
        tenths_text(rounded_printed(size, 360 * bytes_per_second, 20)) + seq!['h']
    }
}

/// A rough estimate of how long a file of `file_size_bytes` bytes takes to
/// transfer over a connection with this latency, from the bandwidth that
/// [`bandwidth_mbps_for_latency`] assumes.
pub fn estimate_transfer_time(file_size_bytes: u64, latency_ms: Option<u64>) -> (s: String)
    ensures
        s@ == transfer_time_text(file_size_bytes as nat, bandwidth_mbps_spec(latency_ms)),
{
    let mbps = bandwidth_mbps_for_latency(latency_ms);
    let bytes_per_second: u64 = mbps * 125000;
    let mut text: Vec<char> = Vec::new();
    if file_size_bytes < 60 * bytes_per_second {
        push_decimal(&mut text, round_half_even(file_size_bytes, bytes_per_second));
        text.push('s');
    } else if file_size_bytes < 3600 * bytes_per_second {
        let d: u64 = 6 * bytes_per_second;
        proof {
            lemma_quotient_fits(file_size_bytes, d, 750000, 20);
        }
        push_tenths(&mut text, round_printed(file_size_bytes, d, 20));
        text.push('m');
    } else {
        let d: u64 = 360 * bytes_per_second;
        proof {
            lemma_quotient_fits(file_size_bytes, d, 750000, 20);
        }
        push_tenths(&mut text, round_printed(file_size_bytes, d, 20));
        text.push('h');
    }
    string_from_chars(&text)
}

/// Health of the network connection.
#[derive(Debug, Clone)]
pub struct NetworkHealth {
    /// Whether the network is reachable.
    pub available: bool,
    /// Average latency in milliseconds, if measured.
    pub latency_ms: Option<u64>,
    /// Estimated bandwidth, if measured.
    pub bandwidth_estimate: Option<String>,
    /// When the check was made.
    pub last_checked: Timestamp,
    /// Rating of the connection.
    pub quality: NetworkQuality,
}

impl NetworkHealth {
    /// The health found by a check made now that reached the network or
    /// not and measured this latency.
    pub fn from_check(available: bool, latency_ms: Option<u64>) -> (h: Self)
        ensures
            h.available == available,
            h.latency_ms == latency_ms,
            h.bandwidth_estimate is None,
            h.quality == quality_spec(latency_ms),
    {
        NetworkHealth {
            available,
            latency_ms,
            bandwidth_estimate: None,
            last_checked: utc_now(),
            quality: NetworkQuality::for_latency(latency_ms),
        }
    }
}

/// The average of a ping summary line, as text: on a line that mentions
/// `avg` or `average`, after its first `'='` and trimmed, the part between
/// the first and second `'/'` (as in `min/avg/max/mdev = 10.1/15.4/20.7/3.4
/// ms`).
pub open spec fn average_text(line: Seq<char>) -> Option<Seq<char>> {
    if contains_seq(line, "avg"@) || contains_seq(line, "average"@) {
        match first_index_of(line, '=') {
            Some(e) => {
                let after_eq = trim_seq(line.skip(e + 1));
                match first_index_of(after_eq, '/') {
                    Some(a) => {
                        let rest = after_eq.skip(a + 1);
                        match first_index_of(rest, '/') {
                            Some(b) => Some(rest.take(b)),
                            None => None,
                        }
                    },
                    None => None,
                }
            },
            None => None,
        }
    } else {
        None
    }
}

/// `char::is_numeric`, named: whether `c` is in one of Unicode's numeric
/// categories.
pub uninterp spec fn numeric_char(c: char) -> bool;

/// `char::is_numeric`.
#[verifier::external_body]
fn is_numeric(c: char) -> (r: bool)
    ensures
        r == numeric_char(c),
{
    c.is_numeric()
}

/// The longest start of `s` made of numeric characters and `'.'`.
#[verifier::opaque]
pub open spec fn numeric_prefix(s: Seq<char>) -> Seq<char>
    decreases s.len(),
{
    if s.len() > 0 && (numeric_char(s[0]) || s[0] == '.') {
        seq![s[0]] + numeric_prefix(s.drop_first())
    } else {
        Seq::empty()
    }
}

/// The time of a ping reply line, as text: the numeric characters and dots
/// right after its first `time=` (as in `time=14.2 ms`).
pub open spec fn reply_time_text(line: Seq<char>) -> Option<Seq<char>> {
    match first_occurrence(line, "time="@) {
        Some(t) => Some(numeric_prefix(line.skip(t + 5))),
        None => None,
    }
}

/// The texts that `lines` yield under `f`, in order.
pub open spec fn texts_of(lines: Seq<Seq<char>>, f: spec_fn(Seq<char>) -> Option<Seq<char>>) -> Seq<Seq<char>>
    decreases lines.len(),
{
    if lines.len() == 0 {
        Seq::empty()
    } else {
        let r = texts_of(lines.drop_last(), f);
        match f(lines.last()) {
            Some(t) => r.push(t),
            None => r,
        }
    }
}

fn average_text_exec(line: &[char]) -> (r: Option<Vec<char>>)
    ensures
        match average_text(line@) {
            Some(t) => r matches Some(v) && v@ == t,
            None => r is None,
        },
{
    if !(contains_str(line, "avg") || contains_str(line, "average")) {
        return None;
    }
    let e = match find_char(line, '=') {
        Some(e) => e,
        None => return None,
    };
    let after_eq = trim_chars(&sub_chars(line, e + 1, line.len()));
    assert(line@.subrange(e + 1, line@.len() as int) =~= line@.skip(e + 1));
    let a = match find_char(&after_eq, '/') {
        Some(a) => a,
        None => return None,
    };
    let rest = sub_chars(&after_eq, a + 1, after_eq.len());
    assert(after_eq@.subrange(a + 1, after_eq@.len() as int) =~= after_eq@.skip(a + 1));
    let b = match find_char(&rest, '/') {
        Some(b) => b,
        None => return None,
    };
    let t = sub_chars(&rest, 0, b);
    assert(rest@.subrange(0, b as int) =~= rest@.take(b as int));
    Some(t)
}

/// A start of `s` made of numeric characters and dots, followed by the end
/// or by another character, is its numeric prefix.
proof fn lemma_numeric_prefix(s: Seq<char>, k: int)
    requires
        0 <= k <= s.len(),
        forall|j: int| 0 <= j < k ==> numeric_char(#[trigger] s[j]) || s[j] == '.',
        k < s.len() ==> !(numeric_char(s[k]) || s[k] == '.'),
    ensures
        numeric_prefix(s) == s.take(k),
    decreases k,
{
    reveal(numeric_prefix);
    if k == 0 {
        assert(s.take(0) =~= Seq::<char>::empty());
    } else {
        let t = s.drop_first();
        assert forall|j: int| 0 <= j < k - 1 implies numeric_char(#[trigger] t[j]) || t[j] == '.' by {
            assert(t[j] == s[j + 1]);
        }
        if k - 1 < t.len() {
            assert(t[k - 1] == s[k]);
        }
        lemma_numeric_prefix(t, k - 1);
        assert(numeric_char(s[0]) || s[0] == '.');
        assert(seq![s[0]] + t.take(k - 1) =~= s.take(k));
    }
}

fn reply_time_text_exec(line: &[char]) -> (r: Option<Vec<char>>)
    ensures
        match reply_time_text(line@) {
            Some(t) => r matches Some(v) && v@ == t,
            None => r is None,
        },
{
    let len = line.len();
    let t = match find_str(line, "time=") {
        Some(t) => t,
        None => return None,
    };
    assert("time="@.len() == 5) by {
        reveal_strlit("time=");
    }
    let start = t + 5;
    let v = numeric_run(line, start);
    proof {
        lemma_numeric_run(line@, start as int, start + v@.len());
        assert(v@ =~= line@.subrange(start as int, start + v@.len()));
    }
    Some(v)
}

/// The characters of `line` from `start` on while they are numeric or dots.
fn numeric_run(line: &[char], start: usize) -> (v: Vec<char>)
    requires
        start <= line@.len(),
    ensures
        start + v@.len() <= line@.len(),
        forall|j: int| 0 <= j < v@.len() ==> v@[j] == line@[start + j],
        forall|j: int| start <= j < start + v@.len() ==> numeric_char(#[trigger] line@[j]) || line@[j] == '.',
        start + v@.len() < line@.len() ==> !(numeric_char(line@[start + v@.len()]) || line@[start + v@.len()] == '.'),
{
    let mut v: Vec<char> = Vec::new();
    let mut i: usize = start;
    while i < line.len() && (is_numeric(line[i]) || line[i] == '.')
        invariant
            start <= i <= line.len(),
            v@.len() == i - start,
            forall|j: int| 0 <= j < v@.len() ==> v@[j] == line@[start + j],
            forall|j: int| start <= j < i ==> numeric_char(#[trigger] line@[j]) || line@[j] == '.',
        decreases line.len() - i,
    {
        v.push(line[i]);
        i += 1;
    }
    v
}

/// The numeric prefix after `start` runs up to `end` when every character
/// in between is numeric or a dot and the one at `end` (if any) is not.
proof fn lemma_numeric_run(line: Seq<char>, start: int, end: int)
    requires
        0 <= start <= end <= line.len(),
        forall|j: int| start <= j < end ==> numeric_char(#[trigger] line[j]) || line[j] == '.',
        end < line.len() ==> !(numeric_char(line[end]) || line[end] == '.'),
    ensures
        numeric_prefix(line.skip(start)) == line.subrange(start, end),
{
    let s = line.skip(start);
    let k = end - start;
    assert forall|j: int| 0 <= j < k implies numeric_char(#[trigger] s[j]) || s[j] == '.' by {
        assert(s[j] == line[start + j]);
    }
    if k < s.len() {
        assert(s[k] == line[end]);
    }
    lemma_numeric_prefix(s, k);
    assert(s.take(k) =~= line.subrange(start, end));
}

/// The candidate latencies in a ping's output, as texts, in the order in
/// which they are tried: the averages of the summary lines, then the times
/// of the reply lines. The first that reads as a number of milliseconds is
/// the latency.
pub fn ping_latency_candidates(output: &str) -> (v: Vec<String>)
    ensures
        v@.map_values(|s: String| s@) == texts_of(lines_seq(output@), |l: Seq<char>| average_text(l))
            + texts_of(lines_seq(output@), |l: Seq<char>| reply_time_text(l)),
{
    let chars = chars_of(output);
    let lines = lines_of(&chars);
    let ghost ls = views(lines@);
    let ghost fa = |l: Seq<char>| average_text(l);
    let ghost ft = |l: Seq<char>| reply_time_text(l);
    let mut avg: Vec<String> = Vec::new();
    let mut times: Vec<String> = Vec::new();
    let mut i: usize = 0;
    assert(ls.take(0) =~= Seq::<Seq<char>>::empty());
    while i < lines.len()
        invariant
            i <= lines.len(),
            ls == views(lines@),
            fa == (|l: Seq<char>| average_text(l)),
            ft == (|l: Seq<char>| reply_time_text(l)),
            avg@.map_values(|s: String| s@) == texts_of(ls.take(i as int), fa),
            times@.map_values(|s: String| s@) == texts_of(ls.take(i as int), ft),
        decreases lines.len() - i,
    {
        let line = lines[i].as_slice();
        assert(ls.take(i + 1).drop_last() =~= ls.take(i as int));
        assert(ls.take(i + 1).last() == line@);
        let ghost a0 = avg@;
        let ghost t0 = times@;
        match average_text_exec(line) {
            Some(t) => {
                avg.push(string_from_chars(&t));
                assert(avg@.map_values(|s: String| s@) =~= a0.map_values(|s: String| s@).push(t@));
            },
            None => {},
        }
        match reply_time_text_exec(line) {
            Some(t) => {
                times.push(string_from_chars(&t));
                assert(times@.map_values(|s: String| s@) =~= t0.map_values(|s: String| s@).push(t@));
            },
            None => {},
        }
        i += 1;
    }
    assert(ls.take(lines.len() as int) =~= ls);
    let ghost a_all = avg@.map_values(|s: String| s@);
    let ghost t_all = times@.map_values(|s: String| s@);
    let mut k: usize = 0;
    while k < times.len()
        invariant
            k <= times.len(),
            avg@.map_values(|s: String| s@) == a_all + t_all.take(k as int),
            t_all == times@.map_values(|s: String| s@),
        decreases times.len() - k,
    {
        let ghost before = avg@;
        let next = string_from_chars(&chars_of(times[k].as_str()));
        assert(next@ == t_all[k as int]);
        avg.push(next);
        assert(t_all.take(k + 1) =~= t_all.take(k as int).push(t_all[k as int]));
        assert(avg@.map_values(|s: String| s@) =~= before.map_values(|s: String| s@).push(next@));
        assert(avg@.map_values(|s: String| s@) =~= a_all + t_all.take(k + 1));
        k += 1;
    }
    assert(t_all.take(times.len() as int) =~= t_all);
    avg
}

// ---------------------------------------------------------------------------
// The queue of operations that failed for want of a network
// ---------------------------------------------------------------------------

/// An operation that failed for want of a network, waiting to be retried.
#[derive(Debug, Clone)]
pub struct QueuedOperation {
    /// Unique identifier of the operation.
    pub id: String,
    /// Kind of operation.
    pub operation_type: OperationType,
    /// Repository path.
    pub repo_path: String,
    /// Operation-specific data.
    pub data: OperationData,
    /// When the operation was queued.
    pub queued_at: Timestamp,
    /// How many times the operation has been tried.
    pub attempt_count: u32,
    /// The last error, if any.
    pub last_error: Option<String>,
}

/// The queue of operations to retry, oldest first, and the file it is kept
/// in (reading and writing the file is the caller's part).
pub struct NetworkResilienceManager {
    pub queue_file: String,
    pub operations: VecDeque<QueuedOperation>,
}

/// The default queue file: `<home>/.auxin/operation_queue.json`, with the
/// current directory when there is no home.
pub open spec fn default_queue_path(home: Option<Seq<char>>) -> Seq<char> {
    path_join(
        path_join(
            match home {
                Some(h) => h,
                None => "."@,
            },
            ".auxin"@,
        ),
        "operation_queue.json"@,
    )
}

/// The wait before retry `attempt` (counted from one) of a queued
/// operation: doubling from `INITIAL_BACKOFF_MS`, at most `MAX_BACKOFF_MS`.
pub open spec fn queue_backoff_spec(attempt: nat) -> nat {
    min_nat((INITIAL_BACKOFF_MS as nat) * pow2((attempt - 1) as nat), MAX_BACKOFF_MS as nat)
}

impl NetworkResilienceManager {
    /// An empty queue kept in the default file under `home`.
    pub fn new(home: Option<&str>) -> (m: Self)
        ensures
            m.queue_file@ == default_queue_path(
                match home {
                    Some(h) => Some(h@),
                    None => None,
                },
            ),
            m.operations@.len() == 0,
    {
        let base = match home {
            Some(h) => h,
            None => ".",
        };
        let a = join_path(base, ".auxin");
        NetworkResilienceManager {
            queue_file: join_path(a.as_str(), "operation_queue.json"),
            operations: VecDeque::new(),
        }
    }

    /// An empty queue kept in `queue_file`.
    pub fn with_queue_path(queue_file: &str) -> (m: Self)
        ensures
            m.queue_file@ == queue_file@,
            m.operations@.len() == 0,
    {
        NetworkResilienceManager { queue_file: queue_file.to_owned(), operations: VecDeque::new() }
    }

    /// Puts the operations read from the queue file in the queue, in order.
    pub fn load_operations(&mut self, ops: Vec<QueuedOperation>)
        ensures
            final(self).operations@ == ops@,
            final(self).queue_file == old(self).queue_file,
    {
        let mut q: VecDeque<QueuedOperation> = VecDeque::new();
        let ghost s = ops@;
        let n = ops.len();
        let mut rest = crate::sequences::reversed(ops);
        let mut i: usize = 0;
        while rest.len() > 0
            invariant
                n == s.len(),
                rest@.len() + i == s.len(),
                forall|j: int| 0 <= j < rest@.len() ==> rest@[j] == s[s.len() - 1 - j],
                q@ == s.take(i as int),
            decreases rest@.len(),
        {
            match rest.pop() {
                Some(x) => {
                    assert(x == s[i as int]);
                    q.push_back(x);
                    assert(q@ =~= s.take(i + 1));
                    i += 1;
                },
                None => {},
            }
        }
        assert(s.take(s.len() as int) =~= s);
        self.operations = q;
    }

    /// Adds an operation at the back of the queue, stamped now, with no
    /// attempt made yet.
    pub fn enqueue(&mut self, operation: QueuedOperation)
        ensures
            final(self).operations@.len() == old(self).operations@.len() + 1,
            final(self).operations@.drop_last() == old(self).operations@,
            final(self).operations@.last().attempt_count == 0,
            final(self).operations@.last().id == operation.id,
            final(self).operations@.last().operation_type == operation.operation_type,
            final(self).operations@.last().repo_path == operation.repo_path,
            final(self).operations@.last().last_error == operation.last_error,
            final(self).queue_file == old(self).queue_file,
    {
        let mut operation = operation;
        operation.queued_at = utc_now();
        operation.attempt_count = 0;
        self.operations.push_back(operation);
        assert(self.operations@.drop_last() =~= old(self).operations@);
    }

    /// Takes the operation at the front of the queue, if any.
    pub fn dequeue(&mut self) -> (op: Option<QueuedOperation>)
        ensures
            old(self).operations@.len() == 0 ==> op is None && final(self).operations@ == old(self).operations@,
            old(self).operations@.len() > 0 ==> op == Some(old(self).operations@[0])
                && final(self).operations@ == old(self).operations@.drop_first(),
            final(self).queue_file == old(self).queue_file,
    {
        self.operations.pop_front()
    }

    /// The operation at the front of the queue, if any.
    pub fn peek(&self) -> (op: Option<&QueuedOperation>)
        ensures
            self.operations@.len() == 0 ==> op is None,
            self.operations@.len() > 0 ==> op == Some(&self.operations@[0]),
    {
        if self.operations.len() > 0 {
            Some(&self.operations[0])
        } else {
            None
        }
    }

    /// How many operations are queued.
    pub fn queue_size(&self) -> (n: usize)
        ensures
            n == self.operations@.len(),
    {
        self.operations.len()
    }

    /// Empties the queue.
    pub fn clear_queue(&mut self)
        ensures
            final(self).operations@.len() == 0,
            final(self).queue_file == old(self).queue_file,
    {
        self.operations.clear();
    }

    /// Records a failed attempt of `operation` with `error`: the attempt is
    /// counted and the error kept, and the operation goes back at the end of
    /// the queue while it has made fewer than `MAX_RETRIES` attempts. Says
    /// whether it will be retried.
    pub fn mark_failed(&mut self, operation: QueuedOperation, error: String) -> (retry: bool)
        requires
            operation.attempt_count < u32::MAX,
        ensures
            retry == (operation.attempt_count + 1 < MAX_RETRIES),
            retry ==> final(self).operations@.len() == old(self).operations@.len() + 1
                && final(self).operations@.drop_last() == old(self).operations@
                && final(self).operations@.last().attempt_count == operation.attempt_count + 1
                && final(self).operations@.last().last_error == Some(error)
                && final(self).operations@.last().id == operation.id,
            !retry ==> final(self).operations@ == old(self).operations@,
            final(self).queue_file == old(self).queue_file,
    {
        let mut operation = operation;
        operation.attempt_count = operation.attempt_count + 1;
        operation.last_error = Some(error);
        if operation.attempt_count < MAX_RETRIES {
            self.operations.push_back(operation);
            assert(self.operations@.drop_last() =~= old(self).operations@);
            true
        } else {
            false
        }
    }

    /// The wait before retry `attempt` of an operation run with retries:
    /// doubling from `INITIAL_BACKOFF_MS`, at most `MAX_BACKOFF_MS`.
    pub fn retry_backoff_ms(attempt: u32) -> (ms: u64)
        requires
            1 <= attempt < MAX_RETRIES,
        ensures
            ms == queue_backoff_spec(attempt as nat),
    {
        let mut b: u64 = INITIAL_BACKOFF_MS;
        let mut k: u32 = 1;
        while k < attempt
            invariant
                1 <= k <= attempt < MAX_RETRIES,
                b == INITIAL_BACKOFF_MS * pow2((k - 1) as nat),
            decreases attempt - k,
        {
            assert(pow2(k as nat) == 2 * pow2((k - 1) as nat));
            proof {
                lemma_pow2_le_1024((k - 1) as nat);
            }
            b = b * 2;
            k = k + 1;
        }
        if b < MAX_BACKOFF_MS {
            b
        } else {
            MAX_BACKOFF_MS
        }
    }
}

} // verus!
