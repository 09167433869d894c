//! Leased durable-work values shared by API and worker processes.
//!
//! A queue persists submissions, leases them to workers, retries them within a bounded attempt
//! budget, dead-letters them and replays them on request; the queue itself lives outside this
//! crate and exchanges these values with it.

use crate::ports::clock::UtcTimestamp;
use crate::ports::public_id::{PublicId, PublicIdGenerationError};
use crate::text::{check_graphic_token, chars_of, is_bounded_graphic_token, utf8_len};
use vstd::prelude::*;

verus! {

/// Whether `c` may appear in a machine label: a lowercase ASCII letter, a digit, `.`, `-` or
/// `_`.
pub open spec fn is_label_char(c: char) -> bool {
    ('a' <= c && c <= 'z') || ('0' <= c && c <= '9') || c == '.' || c == '-' || c == '_'
}

/// Whether `s` is a bounded lowercase machine label: one to 64 label characters.
pub open spec fn is_machine_label(s: Seq<char>) -> bool {
    &&& 0 < s.len() <= 64
    &&& forall|i: int| 0 <= i < s.len() ==> is_label_char(#[trigger] s[i])
}

fn check_machine_label(value: &str) -> (b: bool)
    ensures
        b == is_machine_label(value@),
{
    let v = chars_of(value);
    if v.len() == 0 || v.len() > 64 {
        return false;
    }
    let mut i: usize = 0;
    while i < v.len()
        invariant
            i <= v.len(),
            v@ == value@,
            forall|k: int| 0 <= k < i ==> is_label_char(#[trigger] v@[k]),
        decreases v.len() - i,
    {
        let c = v[i];
        if !(('a' <= c && c <= 'z') || ('0' <= c && c <= '9') || c == '.' || c == '-' || c == '_') {
            assert(!is_label_char(v@[i as int]));
            return false;
        }
        i += 1;
    }
    true
}

/// Validation failure for a durable-job kind.
#[derive(Debug, Clone, Copy, PartialEq, Eq, Structural)]
pub enum JobKindError {
    /// The job kind was not a bounded lowercase machine label.
    InvalidFormat,
}

impl JobKindError {
    /// Human-readable description of the failure.
    pub fn message(&self) -> (r: &'static str)
        ensures
            r@ == "job kind must be a bounded lowercase machine label"@,
    {
        "job kind must be a bounded lowercase machine label"
    }
}

/// A machine-readable durable-job kind.
#[derive(Debug, PartialEq, Eq, PartialOrd, Ord, Hash)]
pub struct JobKind(String);

impl View for JobKind {
    type V = Seq<char>;

    closed spec fn view(&self) -> Seq<char> {
        self.0@
    }
}

impl Clone for JobKind {
    fn clone(&self) -> (r: Self)
        ensures
            r@ == self@,
    {
        JobKind(self.0.clone())
    }
}

impl JobKind {
    /// Validates a job kind of one to 64 lowercase ASCII letters, digits, dots, dashes, or
    /// underscores.
    pub fn new(value: &str) -> (r: Result<Self, JobKindError>)
        ensures
            match r {
                Ok(k) => is_machine_label(value@) && k@ == value@,
                Err(e) => !is_machine_label(value@) && e == JobKindError::InvalidFormat,
            },
    {
        if !check_machine_label(value) {
            return Err(JobKindError::InvalidFormat);
        }
        Ok(JobKind(value.to_string()))
    }

    /// Returns the stable machine-readable job kind.
    pub fn as_str(&self) -> (r: &str)
        ensures
            r@ == self@,
    {
        self.0.as_str()
    }
}

/// Validation failure for a durable-job failure category.
#[derive(Debug, Clone, Copy, PartialEq, Eq, Structural)]
pub enum JobFailureCodeError {
    /// The failure category was not a bounded lowercase machine label.
    InvalidFormat,
}

impl JobFailureCodeError {
    /// Human-readable description of the failure.
    pub fn message(&self) -> (r: &'static str)
        ensures
            r@ == "job failure code must be a bounded lowercase machine label"@,
    {
        "job failure code must be a bounded lowercase machine label"
    }
}

/// A redacted, machine-readable failure category for a durable job.
#[derive(Debug, PartialEq, Eq, PartialOrd, Ord, Hash)]
pub struct JobFailureCode(String);

impl View for JobFailureCode {
    type V = Seq<char>;

    closed spec fn view(&self) -> Seq<char> {
        self.0@
    }
}

impl Clone for JobFailureCode {
    fn clone(&self) -> (r: Self)
        ensures
            r@ == self@,
    {
        JobFailureCode(self.0.clone())
    }
}

impl JobFailureCode {
    /// Validates a bounded lowercase machine-label failure category.
    pub fn new(value: &str) -> (r: Result<Self, JobFailureCodeError>)
        ensures
            match r {
                Ok(k) => is_machine_label(value@) && k@ == value@,
                Err(e) => !is_machine_label(value@) && e == JobFailureCodeError::InvalidFormat,
            },
    {
        if !check_machine_label(value) {
            return Err(JobFailureCodeError::InvalidFormat);
        }
        Ok(JobFailureCode(value.to_string()))
    }

    /// Returns the stable failure category without an unredacted error message.
    pub fn as_str(&self) -> (r: &str)
        ensures
            r@ == self@,
    {
        self.0.as_str()
    }
}

/// Validation failure for a worker identifier.
#[derive(Debug, Clone, Copy, PartialEq, Eq, Structural)]
pub enum WorkerIdError {
    /// The worker identifier was not bounded printable ASCII.
    InvalidFormat,
}

impl WorkerIdError {
    /// Human-readable description of the failure.
    pub fn message(&self) -> (r: &'static str)
        ensures
            r@ == "worker ID must be bounded printable ASCII"@,
    {
        "worker ID must be bounded printable ASCII"
    }
}

/// Identifies the worker that claimed a durable job.
#[derive(Debug, PartialEq, Eq, PartialOrd, Ord, Hash)]
pub struct WorkerId(String);

impl View for WorkerId {
    type V = Seq<char>;

    closed spec fn view(&self) -> Seq<char> {
        self.0@
    }
}

impl Clone for WorkerId {
    fn clone(&self) -> (r: Self)
        ensures
            r@ == self@,
    {
        WorkerId(self.0.clone())
    }
}

impl WorkerId {
    /// Validates a worker identifier of one to 128 printable ASCII characters.
    pub fn new(value: &str) -> (r: Result<Self, WorkerIdError>)
        ensures
            match r {
                Ok(w) => is_bounded_graphic_token(value@, 128) && w@ == value@,
                Err(e) => !is_bounded_graphic_token(value@, 128) && e == WorkerIdError::InvalidFormat,
            },
    {
        if !check_graphic_token(value, 128) {
            return Err(WorkerIdError::InvalidFormat);
        }
        Ok(WorkerId(value.to_string()))
    }

    /// Returns the worker identifier for durable-store audit fields.
    pub fn as_str(&self) -> (r: &str)
        ensures
            r@ == self@,
    {
        self.0.as_str()
    }
}

/// One submission to a durable queue.
///
/// It has no `Debug` form, as its payload is confidential.
#[derive(Clone, PartialEq, Eq)]
pub struct JobSubmission {
    kind: JobKind,
    payload: Vec<u8>,
    payload_version: u16,
    available_at: UtcTimestamp,
    max_attempts: u32,
}

impl JobSubmission {
    /// The `kind` field.
    pub closed spec fn spec_kind(&self) -> Seq<char> {
        self.kind@
    }

    /// The `payload` field.
    pub closed spec fn spec_payload(&self) -> Seq<u8> {
        self.payload@
    }

    /// The `payload_version` field.
    pub closed spec fn spec_payload_version(&self) -> u16 {
        self.payload_version
    }

    /// The `available_at` field.
    pub closed spec fn spec_available_at(&self) -> UtcTimestamp {
        self.available_at
    }

    /// The `max_attempts` field.
    pub closed spec fn spec_max_attempts(&self) -> u32 {
        self.max_attempts
    }

    /// Returns the stable job kind.
    pub fn kind(&self) -> (r: &JobKind)
        ensures
            r@ == self.spec_kind(),
    {
        &self.kind
    }

    /// Returns the opaque versioned payload.
    pub fn payload(&self) -> (r: &[u8])
        ensures
            r@ == self.spec_payload(),
    {
        self.payload.as_slice()
    }

    /// Returns the schema version required to decode the payload.
    pub fn payload_version(&self) -> (r: u16)
        ensures
            r == self.spec_payload_version(),
    {
        self.payload_version
    }

    /// Returns the first UTC instant at which the job may be claimed.
    pub fn available_at(&self) -> (r: UtcTimestamp)
        ensures
            r == self.spec_available_at(),
    {
        self.available_at
    }

    /// Returns the maximum number of claims before the job becomes dead, which is never zero.
    pub fn max_attempts(&self) -> (r: u32)
        ensures
            r == self.spec_max_attempts(),
    {
        self.max_attempts
    }

    /// Creates a versioned job that becomes eligible at `available_at` and may be claimed at
    /// most `max_attempts` times, which is never zero.
    ///
    /// The payload is opaque here. Stores never log it; callers encrypt and redact it when it
    /// can contain learner or identity data.
    pub fn new(kind: JobKind, payload: Vec<u8>, payload_version: u16, available_at: UtcTimestamp, max_attempts: u32) -> (r: Self)
        requires
            max_attempts > 0,
        ensures
            r.spec_kind() == kind@,
            r.spec_payload() == payload@,
            r.spec_payload_version() == payload_version,
            r.spec_available_at() == available_at,
            r.spec_max_attempts() == max_attempts,
    {
        JobSubmission { kind, payload, payload_version, available_at, max_attempts }
    }

}

/// Persisted lifecycle state for a durable job.
#[derive(Debug, Clone, Copy, PartialEq, Eq, Structural)]
pub enum JobStatus {
    /// The job is eligible now or at its scheduled availability time.
    Queued,
    /// A worker holds a non-expired lease for the job.
    Running,
    /// A worker completed the job successfully.
    Completed,
    /// The job reached a permanent failure or its bounded attempt limit.
    Dead,
}

/// Non-sensitive status information available for polling and operations.
#[derive(Debug, Clone, PartialEq, Eq)]
pub struct JobSnapshot {
    id: PublicId,
    kind: JobKind,
    payload_version: u16,
    status: JobStatus,
    attempts: u32,
    max_attempts: u32,
    available_at: UtcTimestamp,
    lease_expires_at: Option<UtcTimestamp>,
    failure_code: Option<JobFailureCode>,
}

impl JobSnapshot {
    /// The `id` field.
    pub closed spec fn spec_id(&self) -> Seq<char> {
        self.id@
    }

    /// The `kind` field.
    pub closed spec fn spec_kind(&self) -> Seq<char> {
        self.kind@
    }

    /// The `payload_version` field.
    pub closed spec fn spec_payload_version(&self) -> u16 {
        self.payload_version
    }

    /// The `status` field.
    pub closed spec fn spec_status(&self) -> JobStatus {
        self.status
    }

    /// The `attempts` field.
    pub closed spec fn spec_attempts(&self) -> u32 {
        self.attempts
    }

    /// The `max_attempts` field.
    pub closed spec fn spec_max_attempts(&self) -> u32 {
        self.max_attempts
    }

    /// The `available_at` field.
    pub closed spec fn spec_available_at(&self) -> UtcTimestamp {
        self.available_at
    }

    /// The `lease_expires_at` field.
    pub closed spec fn spec_lease_expires_at(&self) -> Option<UtcTimestamp> {
        self.lease_expires_at
    }

    /// The `failure_code` field.
    pub closed spec fn spec_failure_code(&self) -> Option<JobFailureCode> {
        self.failure_code
    }

    /// Returns the job's stable public ID.
    pub fn id(&self) -> (r: &PublicId)
        ensures
            r@ == self.spec_id(),
    {
        &self.id
    }

    /// Returns the stable machine-readable job kind.
    pub fn kind(&self) -> (r: &JobKind)
        ensures
            r@ == self.spec_kind(),
    {
        &self.kind
    }

    /// Returns the schema version required to decode the opaque payload.
    pub fn payload_version(&self) -> (r: u16)
        ensures
            r == self.spec_payload_version(),
    {
        self.payload_version
    }

    /// Returns the current durable-job lifecycle state.
    pub fn status(&self) -> (r: JobStatus)
        ensures
            r == self.spec_status(),
    {
        self.status
    }

    /// Returns the number of times workers have claimed the job.
    pub fn attempts(&self) -> (r: u32)
        ensures
            r == self.spec_attempts(),
    {
        self.attempts
    }

    /// Returns the maximum number of claims permitted for the job.
    pub fn max_attempts(&self) -> (r: u32)
        ensures
            r == self.spec_max_attempts(),
    {
        self.max_attempts
    }

    /// Returns the next UTC instant at which a queued job may be claimed.
    pub fn available_at(&self) -> (r: UtcTimestamp)
        ensures
            r == self.spec_available_at(),
    {
        self.available_at
    }

    /// Returns the current lease expiry when the job is running.
    pub fn lease_expires_at(&self) -> (r: Option<UtcTimestamp>)
        ensures
            r == self.spec_lease_expires_at(),
    {
        self.lease_expires_at
    }

    /// Returns the redacted terminal or retry failure category, when one exists.
    pub fn failure_code(&self) -> (r: Option<&JobFailureCode>)
        ensures
            r == match self.spec_failure_code() {
                Some(x) => Some(&x),
                None => None::<&JobFailureCode>,
            },
    {
        match &self.failure_code {
            Some(x) => Some(x),
            None => None,
        }
    }

    /// Creates the status information a queue reports for one job.
    pub fn new(
        id: PublicId,
        kind: JobKind,
        payload_version: u16,
        status: JobStatus,
        attempts: u32,
        max_attempts: u32,
        available_at: UtcTimestamp,
        lease_expires_at: Option<UtcTimestamp>,
        failure_code: Option<JobFailureCode>,
    ) -> (r: Self)
        ensures
            r.spec_id() == id@,
            r.spec_kind() == kind@,
            r.spec_payload_version() == payload_version,
            r.spec_status() == status,
            r.spec_attempts() == attempts,
            r.spec_max_attempts() == max_attempts,
            r.spec_available_at() == available_at,
            r.spec_lease_expires_at() == lease_expires_at,
            r.spec_failure_code() == failure_code,
    {
        JobSnapshot { id, kind, payload_version, status, attempts, max_attempts, available_at, lease_expires_at, failure_code }
    }

}

/// A worker-owned lease and the opaque job payload it may process.
///
/// It has no `Debug` form, as its payload and lease are confidential.
#[derive(Clone, PartialEq, Eq)]
pub struct ClaimedJob {
    id: PublicId,
    lease_id: PublicId,
    worker: WorkerId,
    kind: JobKind,
    payload: Vec<u8>,
    payload_version: u16,
    attempt: u32,
    lease_expires_at: UtcTimestamp,
}

impl ClaimedJob {
    /// The `id` field.
    pub closed spec fn spec_id(&self) -> Seq<char> {
        self.id@
    }

    /// The `lease_id` field.
    pub closed spec fn spec_lease_id(&self) -> Seq<char> {
        self.lease_id@
    }

    /// The `worker` field.
    pub closed spec fn spec_worker(&self) -> Seq<char> {
        self.worker@
    }

    /// The `kind` field.
    pub closed spec fn spec_kind(&self) -> Seq<char> {
        self.kind@
    }

    /// The `payload` field.
    pub closed spec fn spec_payload(&self) -> Seq<u8> {
        self.payload@
    }

    /// The `payload_version` field.
    pub closed spec fn spec_payload_version(&self) -> u16 {
        self.payload_version
    }

    /// The `attempt` field.
    pub closed spec fn spec_attempt(&self) -> u32 {
        self.attempt
    }

    /// The `lease_expires_at` field.
    pub closed spec fn spec_lease_expires_at(&self) -> UtcTimestamp {
        self.lease_expires_at
    }

    /// Returns the stable public ID for the claimed job.
    pub fn id(&self) -> (r: &PublicId)
        ensures
            r@ == self.spec_id(),
    {
        &self.id
    }

    /// Returns the lease identifier that a store checks on heartbeat, completion and failure.
    pub fn lease_id(&self) -> (r: &PublicId)
        ensures
            r@ == self.spec_lease_id(),
    {
        &self.lease_id
    }

    /// Returns the worker identity that owns this lease.
    pub fn worker(&self) -> (r: &WorkerId)
        ensures
            r@ == self.spec_worker(),
    {
        &self.worker
    }

    /// Returns the stable job kind.
    pub fn kind(&self) -> (r: &JobKind)
        ensures
            r@ == self.spec_kind(),
    {
        &self.kind
    }

    /// Returns the opaque, versioned payload assigned to the worker.
    pub fn payload(&self) -> (r: &[u8])
        ensures
            r@ == self.spec_payload(),
    {
        self.payload.as_slice()
    }

    /// Returns the schema version required to decode the payload.
    pub fn payload_version(&self) -> (r: u16)
        ensures
            r == self.spec_payload_version(),
    {
        self.payload_version
    }

    /// Returns this claim's one-based attempt number.
    pub fn attempt(&self) -> (r: u32)
        ensures
            r == self.spec_attempt(),
    {
        self.attempt
    }

    /// Returns the UTC instant at which the worker must renew or stop processing.
    pub fn lease_expires_at(&self) -> (r: UtcTimestamp)
        ensures
            r == self.spec_lease_expires_at(),
    {
        self.lease_expires_at
    }

    /// Creates the lease a queue hands to a worker.
    pub fn new(
        id: PublicId,
        lease_id: PublicId,
        worker: WorkerId,
        kind: JobKind,
        payload: Vec<u8>,
        payload_version: u16,
        attempt: u32,
        lease_expires_at: UtcTimestamp,
    ) -> (r: Self)
        ensures
            r.spec_id() == id@,
            r.spec_lease_id() == lease_id@,
            r.spec_worker() == worker@,
            r.spec_kind() == kind@,
            r.spec_payload() == payload@,
            r.spec_payload_version() == payload_version,
            r.spec_attempt() == attempt,
            r.spec_lease_expires_at() == lease_expires_at,
    {
        ClaimedJob { id, lease_id, worker, kind, payload, payload_version, attempt, lease_expires_at }
    }

}

/// Failure reported by a worker after it holds a valid lease.
#[derive(Debug, Clone, PartialEq, Eq)]
pub enum JobFailure {
    /// Retry at the supplied UTC instant if the attempt budget remains.
    Retryable {
        /// A stable redacted category suitable for metrics and operations.
        code: JobFailureCode,
        /// The next UTC instant at which this retry may be claimed.
        available_at: UtcTimestamp,
    },
    /// Stop processing immediately and place the job in the dead state.
    Permanent {
        /// A stable redacted category suitable for metrics and operations.
        code: JobFailureCode,
    },
}

/// State selected by the queue after a worker reports a failure.
#[derive(Debug, Clone, Copy, PartialEq, Eq, Structural)]
pub enum JobFailureOutcome {
    /// The job was returned to the queue for a bounded future retry.
    RetryScheduled,
    /// The job became dead and requires operator-controlled replay to run again.
    Dead,
}

/// Failure returned by durable queue operations.
#[derive(Debug, Clone, Copy, PartialEq, Eq, Structural)]
pub enum JobQueueError {
    /// The queue could not create a new opaque job or lease ID.
    IdGeneration(PublicIdGenerationError),
    /// The requested lease duration was zero or could not produce a future UTC expiry.
    InvalidLeaseDuration,
    /// The requested job does not exist.
    NotFound,
    /// The worker no longer holds a current lease for the job.
    LeaseLost,
    /// Replay is valid only for a job already in the dead state.
    NotReplayable,
    /// The queue dependency cannot currently serve the operation.
    Unavailable,
}

impl JobQueueError {
    /// Human-readable description of the failure.
    pub fn message(&self) -> (r: &'static str)
        ensures
            r@ == match *self {
                JobQueueError::IdGeneration(_) => "could not generate durable-job ID"@,
                JobQueueError::InvalidLeaseDuration => "durable-job lease duration is invalid"@,
                JobQueueError::NotFound => "durable job does not exist"@,
                JobQueueError::LeaseLost => "durable-job lease was lost"@,
                JobQueueError::NotReplayable => "durable job is not replayable"@,
                JobQueueError::Unavailable => "durable queue is unavailable"@,
            },
    {
        match self {
            JobQueueError::IdGeneration(_) => "could not generate durable-job ID",
            JobQueueError::InvalidLeaseDuration => "durable-job lease duration is invalid",
            JobQueueError::NotFound => "durable job does not exist",
            JobQueueError::LeaseLost => "durable-job lease was lost",
            JobQueueError::NotReplayable => "durable job is not replayable",
            JobQueueError::Unavailable => "durable queue is unavailable",
        }
    }
}

impl From<PublicIdGenerationError> for JobQueueError {
    fn from(e: PublicIdGenerationError) -> (r: Self) {
        JobQueueError::IdGeneration(e)
    }
}

impl vstd::std_specs::convert::FromSpecImpl<PublicIdGenerationError> for JobQueueError {
    open spec fn obeys_from_spec() -> bool {
        true
    }

    open spec fn from_spec(e: PublicIdGenerationError) -> Self {
        JobQueueError::IdGeneration(e)
    }
}

} // verus!
