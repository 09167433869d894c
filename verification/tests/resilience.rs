use transnet::ports::clock::{Duration, UtcTimestamp};
use transnet::resilience::{
    AttemptDecision, CircuitState, ProviderAttemptError, ProviderCallError, ProviderPolicy,
    ProviderPolicyError, ProviderResilience, parse_u64, response_failure, retry_after,
    status_failure, transport_failure,
};

fn policy() -> ProviderPolicy {
    ProviderPolicy::new(
        Duration::from_secs(1),
        1,
        Duration::from_millis(25),
        Duration::from_secs(1),
        1,
        2,
        Duration::from_millis(25),
    )
    .unwrap()
}

/// Runs one logical call at the monotonic instant `now`, with the bulkhead always granting a
/// permit, feeding the attempt outcomes of `outcomes` in turn, and returns what the caller gets.
fn run_call(
    resilience: &mut ProviderResilience,
    now: Duration,
    outcomes: &[Option<ProviderAttemptError>],
) -> Result<(), ProviderCallError> {
    let mut admission = resilience.begin_call(now)?;
    let mut attempt_number: u32 = 0;
    loop {
        resilience.begin_attempt(&mut admission, true, now)?;
        let outcome = outcomes[attempt_number as usize];
        match resilience.finish_attempt(&mut admission, attempt_number, outcome, now) {
            AttemptDecision::Succeeded => return Ok(()),
            AttemptDecision::Failed => return Err(ProviderCallError::RequestFailed),
            AttemptDecision::Retry(_) => attempt_number += 1,
        }
    }
}

#[test]
fn classifies_only_selected_transient_statuses_for_retries() {
    assert!(status_failure(429, None).is_retryable());
    assert!(status_failure(500, None).is_retryable());
    assert!(status_failure(502, None).is_retryable());
    assert!(status_failure(503, None).is_retryable());
    assert!(status_failure(504, None).is_retryable());
    assert!(!status_failure(400, None).is_retryable());
    assert!(!status_failure(501, None).is_retryable());
}

#[test]
fn retry_after_accepts_seconds_and_http_dates() {
    let now = UtcTimestamp::from_unix_seconds(1_700_000_000);
    assert_eq!(retry_after(Some("3"), now), Some(Duration::from_secs(3)));
    assert_eq!(
        retry_after(Some("Sun, 06 Nov 1994 08:49:37 GMT"), now),
        Some(Duration::zero())
    );
}

#[test]
fn circuit_opens_after_configured_transient_failures() {
    let mut resilience = ProviderResilience::new("test_provider", policy());
    let now = Duration::from_millis(1);
    let timeout = Some(ProviderAttemptError::Timeout);
    for _ in 0..2 {
        assert_eq!(
            run_call(&mut resilience, now, &[timeout, timeout]),
            Err(ProviderCallError::RequestFailed)
        );
    }

    assert_eq!(
        run_call(&mut resilience, now, &[None]),
        Err(ProviderCallError::CircuitOpen)
    );
    assert_eq!(resilience.metrics().circuit_open, 1);
}

#[test]
fn successful_half_open_probe_closes_the_circuit() {
    let policy = ProviderPolicy::new(
        Duration::from_secs(1),
        0,
        Duration::zero(),
        Duration::from_secs(1),
        1,
        1,
        Duration::from_millis(10),
    )
    .unwrap();
    let mut resilience = ProviderResilience::new("test_provider", policy);
    let start = Duration::from_millis(1);
    assert_eq!(
        run_call(&mut resilience, start, &[Some(ProviderAttemptError::Timeout)]),
        Err(ProviderCallError::RequestFailed)
    );

    let later = Duration::from_millis(16);
    assert_eq!(run_call(&mut resilience, later, &[None]), Ok(()));
    assert_eq!(run_call(&mut resilience, later, &[None]), Ok(()));
}

#[test]
fn open_circuit_rejects_until_its_retry_instant() {
    let mut resilience = ProviderResilience::new("test_provider", policy());
    let timeout = Some(ProviderAttemptError::Timeout);
    let start = Duration::from_millis(100);
    run_call(&mut resilience, start, &[timeout, timeout]).unwrap_err();
    run_call(&mut resilience, start, &[timeout, timeout]).unwrap_err();
    assert_eq!(
        resilience.circuit(),
        CircuitState::Open { retry_at: Duration::from_millis(125) }
    );
    assert_eq!(
        run_call(&mut resilience, Duration::from_millis(124), &[None]),
        Err(ProviderCallError::CircuitOpen)
    );
    assert_eq!(run_call(&mut resilience, Duration::from_millis(125), &[None]), Ok(()));
    assert_eq!(
        resilience.circuit(),
        CircuitState::Closed { consecutive_failures: 0 }
    );
}

#[test]
fn failed_probe_reopens_and_second_probe_is_rejected() {
    let mut resilience = ProviderResilience::new("test_provider", policy());
    let timeout = Some(ProviderAttemptError::Timeout);
    let start = Duration::from_millis(100);
    run_call(&mut resilience, start, &[timeout, timeout]).unwrap_err();
    run_call(&mut resilience, start, &[timeout, timeout]).unwrap_err();

    let probe_time = Duration::from_millis(200);
    let probe = resilience.begin_call(probe_time).unwrap();
    assert!(probe.half_open_probe());
    assert_eq!(resilience.circuit(), CircuitState::HalfOpen);
    assert_eq!(
        resilience.begin_call(probe_time).unwrap_err(),
        ProviderCallError::CircuitOpen
    );
    resilience.release(probe, probe_time);
    assert_eq!(
        resilience.circuit(),
        CircuitState::Open { retry_at: Duration::from_millis(225) }
    );
}

#[test]
fn bulkhead_rejection_is_counted_and_ends_the_call() {
    let mut resilience = ProviderResilience::new("test_provider", policy());
    let now = Duration::from_millis(5);
    let mut admission = resilience.begin_call(now).unwrap();
    assert_eq!(
        resilience.begin_attempt(&mut admission, false, now),
        Err(ProviderCallError::BulkheadFull)
    );
    assert!(admission.completed());
    assert_eq!(resilience.metrics().bulkhead_rejected, 1);
    assert_eq!(resilience.metrics().requests_started, 1);
    assert_eq!(resilience.metrics().attempts, 0);
}

#[test]
fn retry_delay_prefers_retry_after_and_is_capped() {
    let resilience = ProviderResilience::new("test_provider", policy());
    assert_eq!(
        resilience.retry_delay(ProviderAttemptError::Timeout),
        Duration::from_millis(25)
    );
    assert_eq!(
        resilience.retry_delay(status_failure(429, Some(Duration::from_millis(300)))),
        Duration::from_millis(300)
    );
    assert_eq!(
        resilience.retry_delay(status_failure(503, Some(Duration::from_secs(30)))),
        Duration::from_secs(1)
    );
}

#[test]
fn non_retryable_failures_do_not_count_toward_the_circuit() {
    let mut resilience = ProviderResilience::new("test_provider", policy());
    let now = Duration::from_millis(5);
    for _ in 0..3 {
        assert_eq!(
            run_call(&mut resilience, now, &[Some(status_failure(400, None))]),
            Err(ProviderCallError::RequestFailed)
        );
    }
    assert_eq!(
        resilience.circuit(),
        CircuitState::Closed { consecutive_failures: 0 }
    );
    assert_eq!(resilience.metrics().failed, 3);
    assert_eq!(resilience.metrics().retried, 0);
}

#[test]
fn counters_follow_one_retried_rate_limited_call() {
    let mut resilience = ProviderResilience::new("test_provider", policy());
    let now = Duration::from_millis(5);
    assert_eq!(
        run_call(&mut resilience, now, &[Some(status_failure(429, None)), None]),
        Ok(())
    );
    let metrics = resilience.metrics();
    assert_eq!(metrics.requests_started, 1);
    assert_eq!(metrics.attempts, 2);
    assert_eq!(metrics.rate_limited, 1);
    assert_eq!(metrics.retried, 1);
    assert_eq!(metrics.succeeded, 1);
    assert_eq!(metrics.failed, 0);
}

#[test]
fn policy_refuses_each_zero_bound() {
    let ok = Duration::from_secs(1);
    assert_eq!(
        ProviderPolicy::new(Duration::zero(), 1, ok, ok, 1, 1, ok).unwrap_err(),
        ProviderPolicyError::ZeroTimeout
    );
    assert_eq!(
        ProviderPolicy::new(ok, 1, ok, ok, 0, 1, ok).unwrap_err(),
        ProviderPolicyError::ZeroConcurrency
    );
    assert_eq!(
        ProviderPolicy::new(ok, 1, ok, ok, 1, 0, ok).unwrap_err(),
        ProviderPolicyError::ZeroCircuitFailureThreshold
    );
    assert_eq!(
        ProviderPolicy::new(ok, 1, ok, ok, 1, 1, Duration::zero()).unwrap_err(),
        ProviderPolicyError::ZeroCircuitOpenDuration
    );
}

#[test]
fn classifies_transport_and_response_failures() {
    assert_eq!(transport_failure(true, false), ProviderAttemptError::Timeout);
    assert_eq!(transport_failure(false, true), ProviderAttemptError::Connect);
    assert_eq!(transport_failure(false, false), ProviderAttemptError::Transport);
    assert_eq!(response_failure(true), ProviderAttemptError::Timeout);
    assert_eq!(response_failure(false), ProviderAttemptError::InvalidEnvelope);
}

#[test]
fn parses_decimal_seconds_like_the_standard_library() {
    assert_eq!(parse_u64("0"), Some(0));
    assert_eq!(parse_u64("+42"), Some(42));
    assert_eq!(parse_u64("18446744073709551615"), Some(u64::MAX));
    assert_eq!(parse_u64("18446744073709551616"), None);
    assert_eq!(parse_u64(""), None);
    assert_eq!(parse_u64("-1"), None);
    assert_eq!(parse_u64(" 1"), None);
}

#[test]
fn retry_after_reads_future_http_dates_and_rejects_garbage() {
    let now = UtcTimestamp::from_unix_seconds(784_111_770);
    assert_eq!(
        retry_after(Some("Sun, 06 Nov 1994 08:49:37 GMT"), now),
        Some(Duration::from_secs(7))
    );
    assert_eq!(retry_after(Some("soon"), now), None);
    assert_eq!(retry_after(None, now), None);
}
