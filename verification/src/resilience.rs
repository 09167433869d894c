//! Bounded, redacted resilience controls for outbound model providers.
//!
//! The circuit breaker, the retry classification and delays, the bulkhead admission and the
//! provider counters are decided here, one event at a time, by verified transitions. Running a
//! provider attempt, waiting, holding the bulkhead permits and logging are left to the caller,
//! which reports each outcome back.

use crate::ports::clock::{duration_limit, Duration, UtcTimestamp};
use crate::text::{chars_of, trimmed_chars, trim};
use vstd::prelude::*;

verus! {

/// Name of the counter for logical provider calls that passed circuit admission.
pub const PROVIDER_REQUESTS_STARTED_METRIC: &'static str = "transnet_provider_requests_started_total";

/// Name of the counter for HTTP attempts made to a provider.
pub const PROVIDER_ATTEMPTS_METRIC: &'static str = "transnet_provider_attempts_total";

/// Name of the counter for completed logical provider calls by outcome.
pub const PROVIDER_REQUESTS_COMPLETED_METRIC: &'static str = "transnet_provider_requests_completed_total";

/// Name of the counter for retries scheduled after a classified transient failure.
pub const PROVIDER_RETRIES_METRIC: &'static str = "transnet_provider_retries_total";

/// Name of the counter for calls rejected because the provider circuit is open.
pub const PROVIDER_CIRCUIT_OPEN_METRIC: &'static str = "transnet_provider_circuit_open_total";

/// Name of the counter for calls rejected because the provider bulkhead is full.
pub const PROVIDER_BULKHEAD_REJECTED_METRIC: &'static str = "transnet_provider_bulkhead_rejected_total";

/// Invalid provider resilience policy.
#[derive(Debug, Clone, Copy, PartialEq, Eq, Structural)]
pub enum ProviderPolicyError {
    /// The configured per-attempt deadline is zero.
    ZeroTimeout,
    /// The configured provider concurrency bound is zero.
    ZeroConcurrency,
    /// The circuit cannot open without a positive failure threshold.
    ZeroCircuitFailureThreshold,
    /// The circuit cannot open for a zero-length interval.
    ZeroCircuitOpenDuration,
}

impl ProviderPolicyError {
    /// Human-readable description of the failure.
    pub fn message(&self) -> (r: &'static str)
        ensures
            r@ == match *self {
                ProviderPolicyError::ZeroTimeout => "provider timeout must be greater than zero"@,
                ProviderPolicyError::ZeroConcurrency => "provider max_concurrent_requests must be greater than zero"@,
                ProviderPolicyError::ZeroCircuitFailureThreshold => "provider circuit_failure_threshold must be greater than zero"@,
                ProviderPolicyError::ZeroCircuitOpenDuration => "provider circuit_open_ms must be greater than zero"@,
            },
    {
        match self {
            ProviderPolicyError::ZeroTimeout => "provider timeout must be greater than zero",
            ProviderPolicyError::ZeroConcurrency => "provider max_concurrent_requests must be greater than zero",
            ProviderPolicyError::ZeroCircuitFailureThreshold => "provider circuit_failure_threshold must be greater than zero",
            ProviderPolicyError::ZeroCircuitOpenDuration => "provider circuit_open_ms must be greater than zero",
        }
    }
}

/// Runtime policy for one outbound provider.
#[derive(Debug, Clone, Copy, PartialEq, Eq, Structural)]
pub struct ProviderPolicy {
    timeout: Duration,
    max_retries: u32,
    retry_delay: Duration,
    max_retry_delay: Duration,
    max_concurrent_requests: usize,
    circuit_failure_threshold: u32,
    circuit_open_for: Duration,
}

/// The error a policy is refused with, if any, in the order the checks run.
pub open spec fn policy_error(timeout: Duration, max_concurrent_requests: usize, circuit_failure_threshold: u32, circuit_open_for: Duration) -> Option<ProviderPolicyError> {
    if timeout.total_nanos() == 0 {
        Some(ProviderPolicyError::ZeroTimeout)
    } else if max_concurrent_requests == 0 {
        Some(ProviderPolicyError::ZeroConcurrency)
    } else if circuit_failure_threshold == 0 {
        Some(ProviderPolicyError::ZeroCircuitFailureThreshold)
    } else if circuit_open_for.total_nanos() == 0 {
        Some(ProviderPolicyError::ZeroCircuitOpenDuration)
    } else {
        None
    }
}

impl ProviderPolicy {
    #[verifier::type_invariant]
    spec fn inv(self) -> bool {
        policy_error(self.timeout, self.max_concurrent_requests, self.circuit_failure_threshold, self.circuit_open_for) is None
    }

    /// The per-attempt deadline.
    pub closed spec fn spec_timeout(self) -> Duration {
        self.timeout
    }

    /// The number of retries after the first attempt.
    pub closed spec fn spec_max_retries(self) -> u32 {
        self.max_retries
    }

    /// The default delay before a retry.
    pub closed spec fn spec_retry_delay(self) -> Duration {
        self.retry_delay
    }

    /// The longest delay before a retry.
    pub closed spec fn spec_max_retry_delay(self) -> Duration {
        self.max_retry_delay
    }

    /// The bulkhead size.
    pub closed spec fn spec_max_concurrent_requests(self) -> usize {
        self.max_concurrent_requests
    }

    /// The consecutive counted failures that open the circuit.
    pub closed spec fn spec_circuit_failure_threshold(self) -> u32 {
        self.circuit_failure_threshold
    }

    /// How long an opened circuit rejects calls.
    pub closed spec fn spec_circuit_open_for(self) -> Duration {
        self.circuit_open_for
    }

    /// Creates a validated policy for one provider boundary; a zero timeout, concurrency bound,
    /// circuit threshold or circuit-open duration is refused, in that order.
    pub fn new(
        timeout: Duration,
        max_retries: u32,
        retry_delay: Duration,
        max_retry_delay: Duration,
        max_concurrent_requests: usize,
        circuit_failure_threshold: u32,
        circuit_open_for: Duration,
    ) -> (r: Result<Self, ProviderPolicyError>)
        ensures
            match policy_error(timeout, max_concurrent_requests, circuit_failure_threshold, circuit_open_for) {
                Some(e) => r == Err::<Self, _>(e),
                None => r matches Ok(p) && {
                    &&& p.spec_timeout() == timeout
                    &&& p.spec_max_retries() == max_retries
                    &&& p.spec_retry_delay() == retry_delay
                    &&& p.spec_max_retry_delay() == max_retry_delay
                    &&& p.spec_max_concurrent_requests() == max_concurrent_requests
                    &&& p.spec_circuit_failure_threshold() == circuit_failure_threshold
                    &&& p.spec_circuit_open_for() == circuit_open_for
                },
            },
    {
        if timeout.is_zero() {
            return Err(ProviderPolicyError::ZeroTimeout);
        }
        if max_concurrent_requests == 0 {
            return Err(ProviderPolicyError::ZeroConcurrency);
        }
        if circuit_failure_threshold == 0 {
            return Err(ProviderPolicyError::ZeroCircuitFailureThreshold);
        }
        if circuit_open_for.is_zero() {
            return Err(ProviderPolicyError::ZeroCircuitOpenDuration);
        }
        Ok(ProviderPolicy {
            timeout,
            max_retries,
            retry_delay,
            max_retry_delay,
            max_concurrent_requests,
            circuit_failure_threshold,
            circuit_open_for,
        })
    }

    /// Returns the deadline for one HTTP provider attempt.
    pub fn timeout(&self) -> (r: Duration)
        ensures
            r == self.spec_timeout(),
            r.total_nanos() != 0,
    {
        proof {
            use_type_invariant(self);
        }
        self.timeout
    }

    /// Returns the number of retries allowed after the first attempt.
    pub fn max_retries(&self) -> (r: u32)
        ensures
            r == self.spec_max_retries(),
    {
        self.max_retries
    }

    /// Returns the number of attempts that may run at once, which is never zero.
    pub fn max_concurrent_requests(&self) -> (r: usize)
        ensures
            r == self.spec_max_concurrent_requests(),
            r > 0,
    {
        proof {
            use_type_invariant(self);
        }
        self.max_concurrent_requests
    }

    /// Returns how long an opened circuit rejects calls, which is never zero.
    pub fn circuit_open_for(&self) -> (r: Duration)
        ensures
            r == self.spec_circuit_open_for(),
            r.total_nanos() != 0,
    {
        proof {
            use_type_invariant(self);
        }
        self.circuit_open_for
    }
}

/// A redacted snapshot of one provider's in-process counters.
///
/// The fields correspond to the metric names exported by the constants of this module. They
/// never include request text, generated text, provider response bodies, credentials, or
/// identity data. Each counter wraps around to zero after its largest value, as an atomic
/// counter does.
#[derive(Debug, Clone, Copy, PartialEq, Eq, Structural)]
pub struct ProviderMetricsSnapshot {
    /// Number of logical calls admitted by the circuit.
    pub requests_started: u64,
    /// Number of HTTP attempts that entered the provider bulkhead.
    pub attempts: u64,
    /// Number of logical calls that produced a usable response.
    pub succeeded: u64,
    /// Number of logical calls that failed after admission.
    pub failed: u64,
    /// Number of retry delays scheduled after classified transient failures.
    pub retried: u64,
    /// Number of provider attempts that saw a `429` response.
    pub rate_limited: u64,
    /// Number of provider attempts that timed out.
    pub timed_out: u64,
    /// Number of calls rejected while the circuit was open or half-open.
    pub circuit_open: u64,
    /// Number of calls rejected because all bulkhead permits were in use.
    pub bulkhead_rejected: u64,
}

impl Default for ProviderMetricsSnapshot {
    fn default() -> (r: Self)
        ensures
            r == zero_metrics(),
    {
        ProviderMetricsSnapshot {
            requests_started: 0,
            attempts: 0,
            succeeded: 0,
            failed: 0,
            retried: 0,
            rate_limited: 0,
            timed_out: 0,
            circuit_open: 0,
            bulkhead_rejected: 0,
        }
    }
}

/// Counters that have counted nothing yet.
pub open spec fn zero_metrics() -> ProviderMetricsSnapshot {
    ProviderMetricsSnapshot {
        requests_started: 0,
        attempts: 0,
        succeeded: 0,
        failed: 0,
        retried: 0,
        rate_limited: 0,
        timed_out: 0,
        circuit_open: 0,
        bulkhead_rejected: 0,
    }
}

/// `x` counted once more, wrapping to zero after the largest value.
pub open spec fn bump(x: u64) -> u64 {
    if x == u64::MAX {
        0
    } else {
        (x + 1) as u64
    }
}

fn bumped(x: u64) -> (r: u64)
    ensures
        r == bump(x),
{
    if x == u64::MAX {
        0
    } else {
        x + 1
    }
}

/// A provider response or transport outcome safe to classify for resilience behavior.
#[derive(Debug, Clone, Copy, PartialEq, Eq, Structural)]
pub enum ProviderAttemptError {
    /// The HTTP client timed out while sending or reading the response.
    Timeout,
    /// The provider explicitly rate limited the request.
    RateLimited {
        /// Provider-supplied delay, when a valid `Retry-After` header was present.
        retry_after: Option<Duration>,
    },
    /// A selected transient server status was returned.
    ServerError {
        /// HTTP status code from the provider.
        status: u16,
        /// Provider-supplied delay, when a valid `Retry-After` header was present.
        retry_after: Option<Duration>,
    },
    /// The provider returned a successful status with no usable expected envelope.
    InvalidEnvelope,
    /// Connection establishment failed before a provider request was sent.
    Connect,
    /// A transport failure that was not a timeout.
    Transport,
    /// A non-retryable HTTP status from the provider.
    NonRetryableStatus {
        /// HTTP status code from the provider.
        status: u16,
    },
}

/// Whether a failed attempt with `e` may be retried: timeouts, rate limits, selected server
/// errors, unusable envelopes and connection failures.
pub open spec fn attempt_retryable(e: ProviderAttemptError) -> bool {
    match e {
        ProviderAttemptError::Timeout | ProviderAttemptError::RateLimited { .. } | ProviderAttemptError::ServerError { .. }
        | ProviderAttemptError::InvalidEnvelope | ProviderAttemptError::Connect => true,
        _ => false,
    }
}

/// The provider-supplied delay carried by `e`, if any.
pub open spec fn attempt_retry_after(e: ProviderAttemptError) -> Option<Duration> {
    match e {
        ProviderAttemptError::RateLimited { retry_after } => retry_after,
        ProviderAttemptError::ServerError { retry_after, .. } => retry_after,
        _ => None,
    }
}

impl ProviderAttemptError {
    /// Whether the failed attempt may be retried.
    pub fn is_retryable(self) -> (b: bool)
        ensures
            b == attempt_retryable(self),
    {
        match self {
            ProviderAttemptError::Timeout | ProviderAttemptError::RateLimited { .. } | ProviderAttemptError::ServerError { .. }
            | ProviderAttemptError::InvalidEnvelope | ProviderAttemptError::Connect => true,
            _ => false,
        }
    }

    /// Whether the failure counts toward opening the circuit: exactly the retryable ones.
    pub fn counts_toward_circuit(self) -> (b: bool)
        ensures
            b == attempt_retryable(self),
    {
        self.is_retryable()
    }

    /// The provider-supplied delay, for rate limits and server errors that carried one.
    pub fn retry_after(self) -> (r: Option<Duration>)
        ensures
            r == attempt_retry_after(self),
    {
        match self {
            ProviderAttemptError::RateLimited { retry_after } => retry_after,
            ProviderAttemptError::ServerError { retry_after, .. } => retry_after,
            _ => None,
        }
    }

    /// The redacted outcome label used in telemetry.
    pub fn outcome(self) -> (r: &'static str)
        ensures
            r@ == match self {
                ProviderAttemptError::Timeout => "timeout"@,
                ProviderAttemptError::RateLimited { .. } => "rate_limited"@,
                ProviderAttemptError::ServerError { .. } => "server_error"@,
                ProviderAttemptError::InvalidEnvelope => "invalid_envelope"@,
                ProviderAttemptError::Connect => "connect"@,
                ProviderAttemptError::Transport => "transport"@,
                ProviderAttemptError::NonRetryableStatus { .. } => "non_retryable_status"@,
            },
    {
        match self {
            ProviderAttemptError::Timeout => "timeout",
            ProviderAttemptError::RateLimited { .. } => "rate_limited",
            ProviderAttemptError::ServerError { .. } => "server_error",
            ProviderAttemptError::InvalidEnvelope => "invalid_envelope",
            ProviderAttemptError::Connect => "connect",
            ProviderAttemptError::Transport => "transport",
            ProviderAttemptError::NonRetryableStatus { .. } => "non_retryable_status",
        }
    }

    /// The HTTP status, for server errors and non-retryable statuses.
    pub fn status(self) -> (r: Option<u16>)
        ensures
            r == match self {
                ProviderAttemptError::ServerError { status, .. } => Some(status),
                ProviderAttemptError::NonRetryableStatus { status } => Some(status),
                _ => None::<u16>,
            },
    {
        match self {
            ProviderAttemptError::ServerError { status, .. } => Some(status),
            ProviderAttemptError::NonRetryableStatus { status } => Some(status),
            _ => None,
        }
    }
}

/// Result of a rejected or exhausted provider call.
#[derive(Debug, Clone, Copy, PartialEq, Eq, Structural)]
pub enum ProviderCallError {
    /// The provider circuit is open or permits only a different half-open probe.
    CircuitOpen,
    /// The provider's bounded-concurrency bulkhead is full.
    BulkheadFull,
    /// The provider did not produce a usable response.
    RequestFailed,
}

impl ProviderCallError {
    /// Human-readable description of the failure.
    pub fn message(&self) -> (r: &'static str)
        ensures
            r@ == match *self {
                ProviderCallError::CircuitOpen => "provider circuit is open"@,
                ProviderCallError::BulkheadFull => "provider bulkhead is full"@,
                ProviderCallError::RequestFailed => "provider request failed"@,
            },
    {
        match self {
            ProviderCallError::CircuitOpen => "provider circuit is open",
            ProviderCallError::BulkheadFull => "provider bulkhead is full",
            ProviderCallError::RequestFailed => "provider request failed",
        }
    }
}

/// The failure an HTTP status is classified as.
pub open spec fn status_failure_kind(status: u16, retry_after: Option<Duration>) -> ProviderAttemptError {
    if status == 429 {
        ProviderAttemptError::RateLimited { retry_after }
    } else if status == 500 || status == 502 || status == 503 || status == 504 {
        ProviderAttemptError::ServerError { status, retry_after }
    } else {
        ProviderAttemptError::NonRetryableStatus { status }
    }
}

/// The failure a transport error is classified as.
pub open spec fn transport_failure_kind(is_timeout: bool, is_connect: bool) -> ProviderAttemptError {
    if is_timeout {
        ProviderAttemptError::Timeout
    } else if is_connect {
        ProviderAttemptError::Connect
    } else {
        ProviderAttemptError::Transport
    }
}

/// Transient failures are retried while retries remain, and count toward opening the circuit
/// once they run out: a transport error that timed out or failed to connect, a rate limit, a
/// transient server status (500, 502, 503 or 504) and an unusable envelope. A transport error
/// in mid-transfer and every other status end the call at once. Only those two kinds are
/// final.
pub proof fn lemma_transient_failures_are_retried(
    is_timeout: bool,
    is_connect: bool,
    status: u16,
    retry_after: Option<Duration>,
    e: ProviderAttemptError,
)
    ensures
        attempt_retryable(transport_failure_kind(is_timeout, is_connect)) <==> (is_timeout || is_connect),
        attempt_retryable(status_failure_kind(status, retry_after)) <==> (status == 429 || status == 500
            || status == 502 || status == 503 || status == 504),
        attempt_retryable(e) <==> !(e is Transport || e is NonRetryableStatus),
{
}

/// Classifies an HTTP failure status: `429` is a rate limit, `500`, `502`, `503` and `504` are
/// transient server errors, and every other status is not retried. `retry_after` is the
/// provider's `Retry-After` delay, when it sent a valid one.
pub fn status_failure(status: u16, retry_after: Option<Duration>) -> (r: ProviderAttemptError)
    ensures
        r == status_failure_kind(status, retry_after),
        r == if status == 429 {
            ProviderAttemptError::RateLimited { retry_after }
        } else if status == 500 || status == 502 || status == 503 || status == 504 {
            ProviderAttemptError::ServerError { status, retry_after }
        } else {
            ProviderAttemptError::NonRetryableStatus { status }
        },
{
    if status == 429 {
        ProviderAttemptError::RateLimited { retry_after }
    } else if status == 500 || status == 502 || status == 503 || status == 504 {
        ProviderAttemptError::ServerError { status, retry_after }
    } else {
        ProviderAttemptError::NonRetryableStatus { status }
    }
}

/// Classifies a transport failure by whether the client reported a timeout or a connection
/// failure.
pub fn transport_failure(is_timeout: bool, is_connect: bool) -> (r: ProviderAttemptError)
    ensures
        r == transport_failure_kind(is_timeout, is_connect),
        r == if is_timeout {
            ProviderAttemptError::Timeout
        } else if is_connect {
            ProviderAttemptError::Connect
        } else {
            ProviderAttemptError::Transport
        },
{
    if is_timeout {
        ProviderAttemptError::Timeout
    } else if is_connect {
        ProviderAttemptError::Connect
    } else {
        ProviderAttemptError::Transport
    }
}

/// Classifies a failure to read a response body: a timeout, or else an unusable envelope.
pub fn response_failure(is_timeout: bool) -> (r: ProviderAttemptError)
    ensures
        r == if is_timeout {
            ProviderAttemptError::Timeout
        } else {
            ProviderAttemptError::InvalidEnvelope
        },
{
    if is_timeout {
        ProviderAttemptError::Timeout
    } else {
        ProviderAttemptError::InvalidEnvelope
    }
}


/// Outcome of one failed attempt's retry decision, or of a successful attempt.
#[derive(Debug, Clone, Copy, PartialEq, Eq, Structural)]
pub enum AttemptDecision {
    /// The attempt produced a usable response; the call succeeded.
    Succeeded,
    /// The attempt failed transiently; wait for the delay, then attempt again.
    Retry(Duration),
    /// The call failed and is over.
    Failed,
}

/// Nanoseconds to wait before retrying after `error` under `policy`: the provider's
/// `Retry-After` delay when it sent one, else the policy's retry delay, but never longer than
/// the policy's longest delay.
pub open spec fn retry_delay_nanos(policy: ProviderPolicy, error: ProviderAttemptError) -> int {
    let wanted = match attempt_retry_after(error) {
        Some(x) => x.total_nanos(),
        None => policy.spec_retry_delay().total_nanos(),
    };
    let cap = policy.spec_max_retry_delay().total_nanos();
    if wanted <= cap {
        wanted
    } else {
        cap
    }
}

/// State of one provider's circuit breaker.
#[derive(Debug, Clone, Copy, PartialEq, Eq, Structural)]
pub enum CircuitState {
    /// Calls are admitted; the count of consecutive counted failures so far.
    Closed {
        /// Consecutive failures that count toward opening the circuit.
        consecutive_failures: u32,
    },
    /// Calls are rejected until the monotonic instant `retry_at`.
    Open {
        /// Monotonic instant, as a span since the clock's origin, from which one probe may run.
        retry_at: Duration,
    },
    /// One probe call is running; every other call is rejected.
    HalfOpen,
}

/// Whether `s` is open until the instant `t` nanoseconds after the clock's origin.
pub open spec fn open_until(s: CircuitState, t: int) -> bool {
    s matches CircuitState::Open { retry_at } && retry_at.total_nanos() == t
}

/// The circuit after a counted failure of a call with the given probe flag, when a reopened
/// circuit would retry at `reopen_at`: a failed probe reopens it; a failure in a closed circuit
/// opens it once the consecutive failures reach `threshold` and otherwise counts one more; an
/// open or half-open circuit stays as it is.
pub open spec fn circuit_after_failure(before: CircuitState, after: CircuitState, probe: bool, threshold: u32, reopen_at: int) -> bool {
    if probe {
        open_until(after, reopen_at)
    } else {
        match before {
            CircuitState::Closed { consecutive_failures: n } => if n + 1 >= threshold {
                open_until(after, reopen_at)
            } else {
                after == CircuitState::Closed { consecutive_failures: (n + 1) as u32 }
            },
            _ => after == before,
        }
    }
}

/// The circuit after a successful call with the given probe flag: a probe, or a call in a
/// closed circuit, closes it with no failures; otherwise it stays as it is.
pub open spec fn circuit_after_success(before: CircuitState, probe: bool) -> CircuitState {
    if probe || before is Closed {
        CircuitState::Closed { consecutive_failures: 0 }
    } else {
        before
    }
}

/// The admission of one logical call through the circuit.
///
/// A probe admission was granted by a half-open circuit; it must end in success, failure,
/// abandonment or release, and a probe released unfinished reopens the circuit.
#[derive(Debug, Clone, Copy, PartialEq, Eq, Structural)]
pub struct CircuitAdmission {
    half_open_probe: bool,
    completed: bool,
}

impl CircuitAdmission {
    /// Whether this admission is the half-open probe.
    pub closed spec fn spec_half_open_probe(self) -> bool {
        self.half_open_probe
    }

    /// Whether this admission has completed.
    pub closed spec fn spec_completed(self) -> bool {
        self.completed
    }

    /// Returns whether this admission is the half-open probe.
    pub fn half_open_probe(&self) -> (b: bool)
        ensures
            b == self.spec_half_open_probe(),
    {
        self.half_open_probe
    }

    /// Returns whether this admission has completed.
    pub fn completed(&self) -> (b: bool)
        ensures
            b == self.spec_completed(),
    {
        self.completed
    }
}

/// Circuit, retry, bulkhead-admission and counter state for one provider.
///
/// The bulkhead permits themselves, the clock, the attempts and the waits belong to the caller,
/// which reports each event here and follows the decision it gets back.
#[derive(Debug, Clone, Copy)]
pub struct ProviderResilience {
    provider: &'static str,
    policy: ProviderPolicy,
    circuit: CircuitState,
    metrics: ProviderMetricsSnapshot,
}

impl ProviderResilience {
    /// The provider name.
    pub closed spec fn spec_provider(&self) -> &'static str {
        self.provider
    }

    /// The policy.
    pub closed spec fn spec_policy(&self) -> ProviderPolicy {
        self.policy
    }

    /// The circuit state.
    pub closed spec fn spec_circuit(&self) -> CircuitState {
        self.circuit
    }

    /// The counters.
    pub closed spec fn spec_metrics(&self) -> ProviderMetricsSnapshot {
        self.metrics
    }

    /// Whether reopening the circuit at `now` gives a representable instant.
    pub open spec fn reopen_fits(&self, now: Duration) -> bool {
        now.total_nanos() + self.spec_policy().spec_circuit_open_for().total_nanos() < duration_limit()
    }

    /// Creates independent resilience state for one named provider boundary: a closed circuit
    /// with no failures and counters at zero.
    pub fn new(provider: &'static str, policy: ProviderPolicy) -> (r: Self)
        ensures
            r.spec_provider() == provider,
            r.spec_policy() == policy,
            r.spec_circuit() == (CircuitState::Closed { consecutive_failures: 0 }),
            r.spec_metrics() == zero_metrics(),
    {
        ProviderResilience {
            provider,
            policy,
            circuit: CircuitState::Closed { consecutive_failures: 0 },
            metrics: ProviderMetricsSnapshot::default(),
        }
    }

    /// Returns the provider name used in telemetry.
    pub fn provider(&self) -> (r: &'static str)
        ensures
            r == self.spec_provider(),
    {
        self.provider
    }

    /// Returns the policy.
    pub fn policy(&self) -> (r: ProviderPolicy)
        ensures
            r == self.spec_policy(),
    {
        self.policy
    }

    /// Returns the circuit state.
    pub fn circuit(&self) -> (r: CircuitState)
        ensures
            r == self.spec_circuit(),
    {
        self.circuit
    }

    /// Returns a point-in-time, redacted copy of the provider counters.
    pub fn metrics(&self) -> (r: ProviderMetricsSnapshot)
        ensures
            r == self.spec_metrics(),
    {
        self.metrics
    }

    /// Asks the circuit to admit one call at the monotonic instant `now`.
    ///
    /// A closed circuit admits it. An open circuit whose retry instant has come turns half-open
    /// and admits it as the one probe; an open circuit before that instant, and a half-open
    /// circuit, admit nothing.
    pub fn try_admit(&mut self, now: Duration) -> (r: Option<CircuitAdmission>)
        ensures
            final(self).spec_provider() == old(self).spec_provider(),
            final(self).spec_policy() == old(self).spec_policy(),
            final(self).spec_metrics() == old(self).spec_metrics(),
            match old(self).spec_circuit() {
                CircuitState::Closed { .. } => final(self).spec_circuit() == old(self).spec_circuit() && (r matches Some(a)
                    && !a.spec_half_open_probe() && !a.spec_completed()),
                CircuitState::Open { retry_at } => if now.total_nanos() >= retry_at.total_nanos() {
                    final(self).spec_circuit() == CircuitState::HalfOpen && (r matches Some(a) && a.spec_half_open_probe()
                        && !a.spec_completed())
                } else {
                    final(self).spec_circuit() == old(self).spec_circuit() && r is None
                },
                CircuitState::HalfOpen => final(self).spec_circuit() == old(self).spec_circuit() && r is None,
            },
    {
        match self.circuit {
            CircuitState::Closed { .. } => Some(CircuitAdmission { half_open_probe: false, completed: false }),
            CircuitState::Open { retry_at } => {
                if now.is_shorter_than(&retry_at) {
                    None
                } else {
                    self.circuit = CircuitState::HalfOpen;
                    Some(CircuitAdmission { half_open_probe: true, completed: false })
                }
            },
            CircuitState::HalfOpen => None,
        }
    }

    /// Starts one logical call at `now`: the circuit admits it and the started counter grows,
    /// or it is rejected with `CircuitOpen` and the circuit-open counter grows.
    pub fn begin_call(&mut self, now: Duration) -> (r: Result<CircuitAdmission, ProviderCallError>)
        ensures
            final(self).spec_provider() == old(self).spec_provider(),
            final(self).spec_policy() == old(self).spec_policy(),
            match old(self).spec_circuit() {
                CircuitState::Closed { .. } => final(self).spec_circuit() == old(self).spec_circuit() && (r matches Ok(a)
                    && !a.spec_half_open_probe() && !a.spec_completed()),
                CircuitState::Open { retry_at } => if now.total_nanos() >= retry_at.total_nanos() {
                    final(self).spec_circuit() == CircuitState::HalfOpen && (r matches Ok(a) && a.spec_half_open_probe()
                        && !a.spec_completed())
                } else {
                    final(self).spec_circuit() == old(self).spec_circuit() && r == Err::<CircuitAdmission, _>(
                        ProviderCallError::CircuitOpen,
                    )
                },
                CircuitState::HalfOpen => final(self).spec_circuit() == old(self).spec_circuit() && r == Err::<
                    CircuitAdmission,
                    _,
                >(ProviderCallError::CircuitOpen),
            },
            r is Ok ==> final(self).spec_metrics() == (ProviderMetricsSnapshot {
                requests_started: bump(old(self).spec_metrics().requests_started),
                ..old(self).spec_metrics()
            }),
            r is Err ==> final(self).spec_metrics() == (ProviderMetricsSnapshot {
                circuit_open: bump(old(self).spec_metrics().circuit_open),
                ..old(self).spec_metrics()
            }),
    {
        match self.try_admit(now) {
            Some(admission) => {
                self.metrics.requests_started = bumped(self.metrics.requests_started);
                Ok(admission)
            },
            None => {
                self.metrics.circuit_open = bumped(self.metrics.circuit_open);
                Err(ProviderCallError::CircuitOpen)
            },
        }
    }

    /// The instant `now` plus the circuit-open duration.
    fn reopen_at(&self, now: Duration) -> (r: Duration)
        requires
            self.reopen_fits(now),
        ensures
            r.total_nanos() == now.total_nanos() + self.spec_policy().spec_circuit_open_for().total_nanos(),
    {
        match now.checked_add(self.policy.circuit_open_for) {
            Some(d) => d,
            None => now,
        }
    }

    /// Completes an admission whose call succeeded: a probe, or a call in a closed circuit,
    /// closes the circuit with no failures.
    fn succeed(&mut self, admission: &mut CircuitAdmission)
        ensures
            final(self).provider == old(self).provider,
            final(self).policy == old(self).policy,
            final(self).metrics == old(self).metrics,
            final(self).circuit == circuit_after_success(old(self).circuit, old(admission).half_open_probe),
            *final(admission) == (CircuitAdmission { completed: true, ..*old(admission) }),
    {
        if admission.half_open_probe || matches!(self.circuit, CircuitState::Closed { .. }) {
            self.circuit = CircuitState::Closed { consecutive_failures: 0 };
        }
        admission.completed = true;
    }

    /// Completes an admission whose call failed in a way that counts toward the circuit, at
    /// `now`: a probe reopens the circuit; a closed circuit counts one more consecutive failure
    /// and opens once the threshold is reached.
    fn fail(&mut self, admission: &mut CircuitAdmission, now: Duration)
        requires
            old(self).reopen_fits(now),
        ensures
            final(self).provider == old(self).provider,
            final(self).policy == old(self).policy,
            final(self).metrics == old(self).metrics,
            circuit_after_failure(
                old(self).circuit,
                final(self).circuit,
                old(admission).half_open_probe,
                old(self).policy.spec_circuit_failure_threshold(),
                now.total_nanos() + old(self).policy.spec_circuit_open_for().total_nanos(),
            ),
            *final(admission) == (CircuitAdmission { completed: true, ..*old(admission) }),
    {
        proof {
            use_type_invariant(&self.policy);
        }
        if admission.half_open_probe {
            self.circuit = CircuitState::Open { retry_at: self.reopen_at(now) };
        } else {
            match self.circuit {
                CircuitState::Closed { consecutive_failures } => {
                    let failures = consecutive_failures.saturating_add(1);
                    if failures >= self.policy.circuit_failure_threshold {
                        self.circuit = CircuitState::Open { retry_at: self.reopen_at(now) };
                    } else {
                        self.circuit = CircuitState::Closed { consecutive_failures: failures };
                    }
                },
                _ => {},
            }
        }
        admission.completed = true;
    }

    /// Completes an admission whose call failed in a way that does not count toward the
    /// circuit: a probe closes the circuit; otherwise it is unchanged.
    fn complete_without_circuit_failure(&mut self, admission: &mut CircuitAdmission)
        ensures
            final(self).provider == old(self).provider,
            final(self).policy == old(self).policy,
            final(self).metrics == old(self).metrics,
            final(self).circuit == (if old(admission).half_open_probe {
                CircuitState::Closed { consecutive_failures: 0 }
            } else {
                old(self).circuit
            }),
            *final(admission) == (CircuitAdmission { completed: true, ..*old(admission) }),
    {
        if admission.half_open_probe {
            self.circuit = CircuitState::Closed { consecutive_failures: 0 };
        }
        admission.completed = true;
    }

    /// Completes an admission whose call was given up before it ran, at `now`: a probe reopens
    /// the circuit; otherwise it is unchanged.
    fn abandon(&mut self, admission: &mut CircuitAdmission, now: Duration)
        requires
            old(self).reopen_fits(now),
        ensures
            final(self).provider == old(self).provider,
            final(self).policy == old(self).policy,
            final(self).metrics == old(self).metrics,
            if old(admission).half_open_probe {
                open_until(final(self).circuit, now.total_nanos() + old(self).policy.spec_circuit_open_for().total_nanos())
            } else {
                final(self).circuit == old(self).circuit
            },
            *final(admission) == (CircuitAdmission { completed: true, ..*old(admission) }),
    {
        if admission.half_open_probe {
            self.circuit = CircuitState::Open { retry_at: self.reopen_at(now) };
        }
        admission.completed = true;
    }

    /// Starts one attempt of an admitted call at `now`, given whether a bulkhead permit was
    /// acquired for it.
    ///
    /// Without a permit the call is rejected with `BulkheadFull`: the bulkhead counter grows,
    /// the admission completes, and a probe reopens the circuit. With one the attempt counter
    /// grows.
    pub fn begin_attempt(&mut self, admission: &mut CircuitAdmission, permit_acquired: bool, now: Duration) -> (r: Result<(), ProviderCallError>)
        requires
            old(self).reopen_fits(now),
        ensures
            final(self).spec_provider() == old(self).spec_provider(),
            final(self).spec_policy() == old(self).spec_policy(),
            permit_acquired ==> r is Ok && *final(admission) == *old(admission) && final(self).spec_circuit()
                == old(self).spec_circuit() && final(self).spec_metrics() == (ProviderMetricsSnapshot {
                attempts: bump(old(self).spec_metrics().attempts),
                ..old(self).spec_metrics()
            }),
            !permit_acquired ==> r == Err::<(), _>(ProviderCallError::BulkheadFull) && final(admission).spec_completed()
                && final(admission).spec_half_open_probe() == old(admission).spec_half_open_probe() && (if old(
                admission,
            ).spec_half_open_probe() {
                open_until(
                    final(self).spec_circuit(),
                    now.total_nanos() + old(self).spec_policy().spec_circuit_open_for().total_nanos(),
                )
            } else {
                final(self).spec_circuit() == old(self).spec_circuit()
            }) && final(self).spec_metrics() == (ProviderMetricsSnapshot {
                bulkhead_rejected: bump(old(self).spec_metrics().bulkhead_rejected),
                ..old(self).spec_metrics()
            }),
    {
        if !permit_acquired {
            self.metrics.bulkhead_rejected = bumped(self.metrics.bulkhead_rejected);
            self.abandon(admission, now);
            return Err(ProviderCallError::BulkheadFull);
        }
        self.metrics.attempts = bumped(self.metrics.attempts);
        Ok(())
    }

    /// The delay before retrying after `error`: the provider's `Retry-After` delay when it sent
    /// one, else the policy's retry delay, but never longer than the policy's longest delay.
    pub fn retry_delay(&self, error: ProviderAttemptError) -> (d: Duration)
        ensures
            d.total_nanos() == retry_delay_nanos(self.spec_policy(), error),
    {
        let wanted = match error.retry_after() {
            Some(x) => x,
            None => self.policy.retry_delay,
        };
        wanted.shorter_of(self.policy.max_retry_delay)
    }

    /// Reports how attempt number `attempt_number` (from zero) of an admitted call ended at
    /// `now`: `None` for a usable response, or the classified failure.
    ///
    /// A success completes the admission, updates the circuit as `circuit_after_success` says
    /// and counts a succeeded call. A rate limit and a timeout are counted. A retryable failure
    /// with retries left counts a retry and asks for one after `retry_delay`; any other failure
    /// completes the admission, updates the circuit as `circuit_after_failure` says when it
    /// counts toward the circuit (a probe otherwise closes it), and counts a failed call.
    pub fn finish_attempt(&mut self, admission: &mut CircuitAdmission, attempt_number: u32, result: Option<ProviderAttemptError>, now: Duration) -> (r: AttemptDecision)
        requires
            old(self).reopen_fits(now),
        ensures
            final(self).spec_provider() == old(self).spec_provider(),
            final(self).spec_policy() == old(self).spec_policy(),
            ({
                let o = old(self).spec_metrics();
                let policy = old(self).spec_policy();
                let probe = old(admission).spec_half_open_probe();
                match result {
                    None => r == AttemptDecision::Succeeded && final(admission).spec_completed()
                        && final(admission).spec_half_open_probe() == probe && final(self).spec_circuit()
                        == circuit_after_success(old(self).spec_circuit(), probe) && final(self).spec_metrics() == (
                    ProviderMetricsSnapshot { succeeded: bump(o.succeeded), ..o }),
                    Some(e) => {
                        let rate_limited = if e is RateLimited { bump(o.rate_limited) } else { o.rate_limited };
                        let timed_out = if e is Timeout { bump(o.timed_out) } else { o.timed_out };
                        if attempt_retryable(e) && attempt_number < policy.spec_max_retries() {
                            (r matches AttemptDecision::Retry(d) && d.total_nanos() == retry_delay_nanos(policy, e))
                                && *final(admission) == *old(admission)
                                && final(self).spec_circuit() == old(self).spec_circuit() && final(self).spec_metrics() == (
                            ProviderMetricsSnapshot { rate_limited, timed_out, retried: bump(o.retried), ..o })
                        } else {
                            &&& r == AttemptDecision::Failed
                            &&& final(admission).spec_completed()
                            &&& final(admission).spec_half_open_probe() == probe
                            &&& if attempt_retryable(e) {
                                circuit_after_failure(
                                    old(self).spec_circuit(),
                                    final(self).spec_circuit(),
                                    probe,
                                    policy.spec_circuit_failure_threshold(),
                                    now.total_nanos() + policy.spec_circuit_open_for().total_nanos(),
                                )
                            } else if probe {
                                final(self).spec_circuit() == (CircuitState::Closed { consecutive_failures: 0 })
                            } else {
                                final(self).spec_circuit() == old(self).spec_circuit()
                            }
                            &&& final(self).spec_metrics() == (ProviderMetricsSnapshot {
                                rate_limited,
                                timed_out,
                                failed: bump(o.failed),
                                ..o
                            })
                        }
                    },
                }
            }),
    {
        proof {
            use_type_invariant(&self.policy);
        }
        match result {
            None => {
                self.succeed(admission);
                self.metrics.succeeded = bumped(self.metrics.succeeded);
                AttemptDecision::Succeeded
            },
            Some(error) => {
                if matches!(error, ProviderAttemptError::RateLimited { .. }) {
                    self.metrics.rate_limited = bumped(self.metrics.rate_limited);
                }
                if matches!(error, ProviderAttemptError::Timeout) {
                    self.metrics.timed_out = bumped(self.metrics.timed_out);
                }
                let retryable = error.is_retryable();
                if retryable && attempt_number < self.policy.max_retries {
                    let delay = self.retry_delay(error);
                    self.metrics.retried = bumped(self.metrics.retried);
                    return AttemptDecision::Retry(delay);
                }
                if error.counts_toward_circuit() {
                    self.fail(admission, now);
                } else {
                    self.complete_without_circuit_failure(admission);
                }
                self.metrics.failed = bumped(self.metrics.failed);
                AttemptDecision::Failed
            },
        }
    }

    /// Releases an admission at `now`, as dropping it does: a probe that never completed
    /// reopens a still half-open circuit; anything else changes nothing.
    pub fn release(&mut self, admission: CircuitAdmission, now: Duration)
        requires
            old(self).reopen_fits(now),
        ensures
            final(self).spec_provider() == old(self).spec_provider(),
            final(self).spec_policy() == old(self).spec_policy(),
            final(self).spec_metrics() == old(self).spec_metrics(),
            if !admission.spec_completed() && admission.spec_half_open_probe() && old(self).spec_circuit() is HalfOpen {
                open_until(final(self).spec_circuit(), now.total_nanos() + old(self).spec_policy().spec_circuit_open_for().total_nanos())
            } else {
                final(self).spec_circuit() == old(self).spec_circuit()
            },
    {
        if admission.completed || !admission.half_open_probe {
            return;
        }
        if matches!(self.circuit, CircuitState::HalfOpen) {
            self.circuit = CircuitState::Open { retry_at: self.reopen_at(now) };
        }
    }
}


/// The value of the decimal digits `s`, most significant first.
pub open spec fn decimal_value(s: Seq<char>) -> nat
    decreases s.len(),
{
    if s.len() == 0 {
        0
    } else {
        decimal_value(s.drop_last()) * 10 + (s.last() as u32 - '0' as u32) as nat
    }
}

/// The unsigned integer that `s` spells, as `u64::from_str` reads it: an optional `+`, then
/// one or more ASCII digits, with a value that fits in 64 bits.
pub open spec fn parse_u64_text(s: Seq<char>) -> Option<u64> {
    let digits = unsigned_digits(s);
    if digits.len() > 0 && all_ascii_digits(digits) && decimal_value(digits) <= u64::MAX {
        Some(decimal_value(digits) as u64)
    } else {
        None
    }
}

/// `s` without one leading `+`.
pub open spec fn unsigned_digits(s: Seq<char>) -> Seq<char> {
    if s.len() > 0 && s[0] == '+' {
        s.drop_first()
    } else {
        s
    }
}

/// Whether every character of `s` is an ASCII digit.
pub open spec fn all_ascii_digits(s: Seq<char>) -> bool {
    forall|i: int| 0 <= i < s.len() ==> crate::text::is_ascii_digit(#[trigger] s[i])
}

proof fn lemma_decimal_value_monotone(s: Seq<char>, k: int)
    requires
        0 <= k <= s.len(),
        forall|i: int| 0 <= i < s.len() ==> crate::text::is_ascii_digit(#[trigger] s[i]),
    ensures
        decimal_value(s.take(k)) <= decimal_value(s),
    decreases s.len() - k,
{
    if k < s.len() {
        lemma_decimal_value_monotone(s, k + 1);
        assert(s.take(k + 1).drop_last() =~= s.take(k));
    } else {
        assert(s.take(k) =~= s);
    }
}

/// Reads an unsigned decimal integer as `u64::from_str` does.
pub fn parse_u64(text: &str) -> (r: Option<u64>)
    ensures
        r == parse_u64_text(text@),
{
    let v = chars_of(text);
    let start: usize = if v.len() > 0 && v[0] == '+' {
        1
    } else {
        0
    };
    let ghost digits = unsigned_digits(text@);
    assert(v@.skip(start as int) =~= digits);
    if start >= v.len() {
        return None;
    }
    let mut value: u128 = 0;
    let mut i: usize = start;
    while i < v.len()
        invariant
            start <= i <= v.len(),
            v@ == text@,
            v@.skip(start as int) == digits,
            digits == unsigned_digits(text@),
            value == decimal_value(digits.take(i - start)),
            value <= u64::MAX,
            forall|j: int| 0 <= j < i - start ==> crate::text::is_ascii_digit(#[trigger] digits[j]),
        decreases v.len() - i,
    {
        let c = v[i];
        if !('0' <= c && c <= '9') {
            assert(!crate::text::is_ascii_digit(digits[i - start]));
            assert(!all_ascii_digits(digits));
            return None;
        }
        proof {
            assert(digits.take(i - start + 1).drop_last() =~= digits.take(i - start));
            assert(digits.take(i - start + 1).last() == c);
        }
        value = value * 10 + (c as u32 - '0' as u32) as u128;
        if value > u64::MAX as u128 {
            proof {
                if all_ascii_digits(digits) {
                    lemma_decimal_value_monotone(digits, i - start + 1);
                }
            }
            return None;
        }
        i += 1;
    }
    assert(digits.take(i - start) =~= digits);
    Some(value as u64)
}


/// Whole seconds since the Unix epoch of the date that `httpdate::parse_http_date` reads from
/// `text`, or `None` when it reads none.
pub uninterp spec fn http_date_seconds(text: Seq<char>) -> Option<u64>;

/// Calls `httpdate::parse_http_date` on `text` and converts the `SystemTime` it returns to
/// whole seconds since the Unix epoch. The crate accepts only dates from 1970 to 9999, so the
/// seconds are below those of the year 10000; which date a given text denotes is left to the
/// crate.
#[verifier::external_body]
fn parse_http_date_seconds(text: &str) -> (r: Option<u64>)
    ensures
        r == http_date_seconds(text@),
        r matches Some(secs) ==> secs < 253_402_300_800,
{
    match httpdate::parse_http_date(text) {
        Ok(t) => t.duration_since(std::time::UNIX_EPOCH).ok().map(|d| d.as_secs()),
        Err(_) => None,
    }
}

/// The delay, in nanoseconds, that a `Retry-After` value asks for at `now`: whole seconds when
/// the trimmed value is an unsigned integer, else the time until the HTTP date it names (zero
/// when that date has passed), and none when it is neither.
pub open spec fn retry_after_nanos(value: Seq<char>, now: UtcTimestamp) -> Option<int> {
    let v = trim(value);
    match parse_u64_text(v) {
        Some(secs) => Some(secs * 1_000_000_000),
        None => match http_date_seconds(v) {
            Some(secs) => Some(
                if secs * 1_000_000_000 > now.epoch_nanos() {
                    secs * 1_000_000_000 - now.epoch_nanos()
                } else {
                    0
                },
            ),
            None => None,
        },
    }
}

/// Reads the provider's `Retry-After` header value, if one was present, at the wall-clock
/// instant `now`, as `retry_after_nanos` says.
pub fn retry_after(header: Option<&str>, now: UtcTimestamp) -> (r: Option<Duration>)
    ensures
        match header {
            None => r is None,
            Some(h) => match retry_after_nanos(h@, now) {
                None => r is None,
                Some(n) => r matches Some(d) && d.total_nanos() == n,
            },
        },
{
    let value = match header {
        Some(v) => v,
        None => return None,
    };
    let trimmed = crate::text::trimmed_string(value);
    if let Some(secs) = parse_u64(trimmed.as_str()) {
        return Some(Duration::from_secs(secs));
    }
    match parse_http_date_seconds(trimmed.as_str()) {
        Some(secs) => {
            let retry_at = UtcTimestamp::from_unix_seconds(secs as i64);
            Some(retry_at.saturating_duration_since(&now))
        },
        None => None,
    }
}


/// A closed circuit with no failures, after a run of counted failures of ordinary (non-probe)
/// calls, stays closed and counts them while fewer than `threshold` have happened, and is open
/// after the failure that reaches `threshold`.
///
/// `states[i + 1]` is the circuit after the failure that follows `states[i]`, and
/// `reopen_at[i + 1]` is the retry instant that failure would give an opened circuit.
pub proof fn lemma_consecutive_failures_open_circuit(states: Seq<CircuitState>, reopen_at: Seq<int>, threshold: u32)
    requires
        threshold > 0,
        states.len() >= 1,
        reopen_at.len() == states.len(),
        states[0] == (CircuitState::Closed { consecutive_failures: 0 }),
        forall|i: int| 0 <= i < states.len() - 1 ==> circuit_after_failure(#[trigger] states[i], states[i + 1], false, threshold, reopen_at[i + 1]),
    ensures
        forall|k: int| 0 <= k < states.len() && k < threshold ==> #[trigger] states[k] == (CircuitState::Closed { consecutive_failures: k as u32 }),
        states.len() > threshold ==> open_until(states[threshold as int], reopen_at[threshold as int]),
    decreases states.len(),
{
    if states.len() > 1 {
        let shorter = states.drop_last();
        lemma_consecutive_failures_open_circuit(shorter, reopen_at.drop_last(), threshold);
        let last = states.len() - 1;
        assert(shorter[last - 1] == states[last - 1]);
        assert(circuit_after_failure(states[last - 1], states[last], false, threshold, reopen_at[last]));
        assert forall|k: int| 0 <= k < states.len() && k < threshold implies #[trigger] states[k] == (CircuitState::Closed { consecutive_failures: k as u32 }) by {
            if k < last {
                assert(shorter[k] == states[k]);
            } else {
                assert(shorter[k - 1] == states[k - 1]);
            }
        }
        if states.len() > threshold && last == threshold {
            assert(shorter[last - 1] == states[last - 1]);
        } else if states.len() > threshold {
            assert(shorter[threshold as int] == states[threshold as int]);
        }
    }
}

} // verus!
