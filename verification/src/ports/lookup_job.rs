//! Private lookup-job lifecycle and polling values.
//!
//! These values describe a job's lifecycle and how it is polled. They do not schedule a durable
//! queue entry or claim transactionality with the durable-job queue.

use crate::ports::clock::{Duration, UtcTimestamp};
use crate::ports::durable_job::JobFailureCode;
use crate::text::{check_graphic_token, chars_of, is_bounded_graphic_token};
use vstd::prelude::*;

verus! {

/// A JSON value as `serde_json` holds it; carried through unread.
#[verifier::external_type_specification]
#[verifier::external_body]
pub struct ExJsonValue(serde_json::Value);

/// Validation failure for an opaque lookup-job owner reference.
#[derive(Debug, Clone, Copy, PartialEq, Eq, Structural)]
pub enum LookupJobOwnerError {
    /// The owner reference was not bounded printable ASCII.
    InvalidFormat,
}

impl LookupJobOwnerError {
    /// Human-readable description of the failure.
    pub fn message(&self) -> (r: &'static str)
        ensures
            r@ == "lookup-job owner must be bounded printable ASCII"@,
    {
        "lookup-job owner must be bounded printable ASCII"
    }
}

/// An opaque reference to the authenticated owner of a lookup job.
///
/// Callers derive it from an authenticated principal using a non-reversible internal
/// representation; it is not a display name, email address, or other identity field. It has no
/// `Debug` form: `redacted_debug` stands in for one.
#[derive(PartialEq, Eq, PartialOrd, Ord, Hash)]
pub struct LookupJobOwner(String);

impl View for LookupJobOwner {
    type V = Seq<char>;

    closed spec fn view(&self) -> Seq<char> {
        self.0@
    }
}

impl Clone for LookupJobOwner {
    fn clone(&self) -> (r: Self)
        ensures
            r@ == self@,
    {
        LookupJobOwner(self.0.clone())
    }
}

impl LookupJobOwner {
    /// Creates an opaque owner reference of one to 256 printable ASCII characters, suitable for
    /// equality checks and durable storage keys.
    pub fn new(value: &str) -> (r: Result<Self, LookupJobOwnerError>)
        ensures
            match r {
                Ok(o) => is_bounded_graphic_token(value@, 256) && o@ == value@,
                Err(e) => !is_bounded_graphic_token(value@, 256) && e == LookupJobOwnerError::InvalidFormat,
            },
    {
        if !check_graphic_token(value, 256) {
            return Err(LookupJobOwnerError::InvalidFormat);
        }
        Ok(LookupJobOwner(value.to_string()))
    }

    /// Returns the opaque owner value for an equality-preserving persistence implementation;
    /// it never belongs in logs or telemetry.
    pub fn as_str(&self) -> (r: &str)
        ensures
            r@ == self@,
    {
        self.0.as_str()
    }

    /// A debug rendering that never shows the owner reference.
    pub fn redacted_debug(&self) -> (r: &'static str)
        ensures
            r@ == "LookupJobOwner([redacted])"@,
    {
        "LookupJobOwner([redacted])"
    }
}

/// Validation failure for an anonymous lookup-job capability.
#[derive(Debug, Clone, Copy, PartialEq, Eq, Structural)]
pub enum LookupJobCapabilityError {
    /// The capability was not a sufficiently long URL-safe bearer token.
    InvalidFormat,
}

impl LookupJobCapabilityError {
    /// Human-readable description of the failure.
    pub fn message(&self) -> (r: &'static str)
        ensures
            r@ == "lookup-job capability must be a high-entropy URL-safe token"@,
    {
        "lookup-job capability must be a high-entropy URL-safe token"
    }
}

/// Whether `c` belongs to the unpadded URL-safe token alphabet: ASCII letters, digits, `-` and
/// `_`.
pub open spec fn is_url_safe(c: char) -> bool {
    ('a' <= c && c <= 'z') || ('A' <= c && c <= 'Z') || ('0' <= c && c <= '9') || c == '-' || c == '_'
}

/// Whether `s` is an unpadded URL-safe token of 32 to 512 characters.
pub open spec fn is_capability_token(s: Seq<char>) -> bool {
    &&& 32 <= s.len() <= 512
    &&& forall|i: int| 0 <= i < s.len() ==> is_url_safe(#[trigger] s[i])
}

/// A high-entropy anonymous lookup-job capability.
///
/// It is a bearer secret, carried only in its dedicated request header and never in a URL, log,
/// trace, or error response. The type checks a conservative URL-safe token shape but does not
/// generate, hash, encrypt, or persist the secret. It has no `Debug` form: `redacted_debug`
/// stands in for one.
#[derive(PartialEq, Eq, Hash)]
pub struct LookupJobCapability(String);

impl View for LookupJobCapability {
    type V = Seq<char>;

    closed spec fn view(&self) -> Seq<char> {
        self.0@
    }
}

impl Clone for LookupJobCapability {
    fn clone(&self) -> (r: Self)
        ensures
            r@ == self@,
    {
        LookupJobCapability(self.0.clone())
    }
}

impl LookupJobCapability {
    /// Parses a header-safe anonymous lookup-job capability: 32 to 512 ASCII letters, digits,
    /// dashes or underscores.
    pub fn parse(value: &str) -> (r: Result<Self, LookupJobCapabilityError>)
        ensures
            match r {
                Ok(c) => is_capability_token(value@) && c@ == value@,
                Err(e) => !is_capability_token(value@) && e == LookupJobCapabilityError::InvalidFormat,
            },
    {
        let v = chars_of(value);
        if v.len() < 32 || v.len() > 512 {
            return Err(LookupJobCapabilityError::InvalidFormat);
        }
        let mut i: usize = 0;
        while i < v.len()
            invariant
                i <= v.len(),
                v@ == value@,
                forall|k: int| 0 <= k < i ==> is_url_safe(#[trigger] v@[k]),
            decreases v.len() - i,
        {
            let c = v[i];
            if !(('a' <= c && c <= 'z') || ('A' <= c && c <= 'Z') || ('0' <= c && c <= '9') || c == '-' || c == '_') {
                assert(!is_url_safe(v@[i as int]));
                return Err(LookupJobCapabilityError::InvalidFormat);
            }
            i += 1;
        }
        Ok(LookupJobCapability(value.to_string()))
    }

    /// Returns the bearer secret only for comparison or writing its dedicated header; it never
    /// belongs in a URL, log message, trace field, or error response.
    pub fn as_str(&self) -> (r: &str)
        ensures
            r@ == self@,
    {
        self.0.as_str()
    }

    /// A debug rendering that never shows the secret.
    pub fn redacted_debug(&self) -> (r: &'static str)
        ensures
            r@ == "LookupJobCapability([redacted])"@,
    {
        "LookupJobCapability([redacted])"
    }
}

/// A caller credential accepted for lookup-job access.
#[derive(Clone, PartialEq, Eq)]
pub enum LookupJobAccess {
    /// Access derived from an authenticated owner principal.
    Owner(LookupJobOwner),
    /// Access derived from an anonymous bearer capability.
    Capability(LookupJobCapability),
}

impl LookupJobAccess {
    /// Creates owner-based access from a previously authenticated opaque owner reference.
    pub fn owner(owner: LookupJobOwner) -> (r: Self)
        ensures
            r == LookupJobAccess::Owner(owner),
    {
        LookupJobAccess::Owner(owner)
    }

    /// Creates anonymous capability-based access from a bearer capability.
    pub fn capability(capability: LookupJobCapability) -> (r: Self)
        ensures
            r == LookupJobAccess::Capability(capability),
    {
        LookupJobAccess::Capability(capability)
    }

    /// A debug rendering that names the credential class but never its value.
    pub fn redacted_debug(&self) -> (r: &'static str)
        ensures
            r@ == match *self {
                LookupJobAccess::Owner(_) => "LookupJobAccess::Owner([redacted])"@,
                LookupJobAccess::Capability(_) => "LookupJobAccess::Capability([redacted])"@,
            },
    {
        match self {
            LookupJobAccess::Owner(_) => "LookupJobAccess::Owner([redacted])",
            LookupJobAccess::Capability(_) => "LookupJobAccess::Capability([redacted])",
        }
    }
}

/// Metadata required to create a private lookup job.
#[derive(Clone)]
pub struct LookupJobCreation {
    access: LookupJobAccess,
    expires_at: UtcTimestamp,
}

impl LookupJobCreation {
    /// The credential.
    pub closed spec fn spec_access(&self) -> LookupJobAccess {
        self.access
    }

    /// The expiry.
    pub closed spec fn spec_expires_at(&self) -> UtcTimestamp {
        self.expires_at
    }

    /// Creates metadata for an owner-bound or anonymous-capability-bound lookup job.
    pub fn new(access: LookupJobAccess, expires_at: UtcTimestamp) -> (r: Self)
        ensures
            r.spec_access() == access,
            r.spec_expires_at() == expires_at,
    {
        LookupJobCreation { access, expires_at }
    }

    /// Returns the sole credential class permitted to poll this job.
    pub fn access(&self) -> (r: &LookupJobAccess)
        ensures
            *r == self.spec_access(),
    {
        &self.access
    }

    /// Returns the UTC instant after which the job is no longer pollable.
    pub fn expires_at(&self) -> (r: UtcTimestamp)
        ensures
            r == self.spec_expires_at(),
    {
        self.expires_at
    }
}

/// A non-terminal lookup-job state visible to an authorized polling client.
#[derive(Debug, Clone, Copy, PartialEq, Eq, Structural)]
pub enum LookupJobPendingState {
    /// The lookup work has been recorded but no worker currently owns it.
    Queued,
    /// A worker currently owns the lookup work.
    Running,
}

impl LookupJobPendingState {
    /// Returns the stable lower-case transport status name.
    pub fn as_str(self) -> (r: &'static str)
        ensures
            r == match self {
                LookupJobPendingState::Queued => "queued",
                LookupJobPendingState::Running => "running",
            },
    {
        match self {
            LookupJobPendingState::Queued => "queued",
            LookupJobPendingState::Running => "running",
        }
    }
}

/// A completed lookup response retained for an authorized polling client.
///
/// The value is the already-validated public lookup envelope. It can contain a learner query, so
/// it has no `Debug` form and stores never log it.
#[derive(PartialEq)]
pub struct LookupJobResult(serde_json::Value);

impl LookupJobResult {
    /// The envelope.
    pub closed spec fn spec_value(&self) -> serde_json::Value {
        self.0
    }

    /// Wraps an already-validated lookup response envelope.
    pub fn new(value: serde_json::Value) -> (r: Self)
        ensures
            r.spec_value() == value,
    {
        LookupJobResult(value)
    }

    /// Returns the completed lookup response envelope for its authorized response.
    pub fn as_value(&self) -> (r: &serde_json::Value)
        ensures
            *r == self.spec_value(),
    {
        &self.0
    }

    /// Consumes the result and returns the completed lookup response envelope.
    pub fn into_value(self) -> (r: serde_json::Value)
        ensures
            r == self.spec_value(),
    {
        self.0
    }

    /// A debug rendering that never shows the envelope.
    pub fn redacted_debug(&self) -> (r: &'static str)
        ensures
            r@ == "LookupJobResult([redacted])"@,
    {
        "LookupJobResult([redacted])"
    }
}

/// A redacted terminal lookup-job failure visible to an authorized client.
#[derive(Debug, Clone, PartialEq, Eq)]
pub struct LookupJobFailure {
    code: JobFailureCode,
}

impl LookupJobFailure {
    /// The failure category.
    pub closed spec fn spec_code(&self) -> Seq<char> {
        self.code@
    }

    /// Creates a terminal failure from a stable, redacted category.
    pub fn new(code: JobFailureCode) -> (r: Self)
        ensures
            r.spec_code() == code@,
    {
        LookupJobFailure { code }
    }

    /// Returns the stable failure category without an underlying provider message.
    pub fn code(&self) -> (r: &JobFailureCode)
        ensures
            r@ == self.spec_code(),
    {
        &self.code
    }
}

/// Authorized polling state for one lookup job.
#[derive(PartialEq)]
pub enum LookupJobPoll {
    /// Work is still pending; clients wait at least `retry_after` before polling again.
    Pending {
        /// The non-terminal lifecycle state.
        state: LookupJobPendingState,
        /// The minimum server-selected delay before the next poll.
        retry_after: Duration,
    },
    /// Work completed and can return the stored public lookup envelope.
    Completed(LookupJobResult),
    /// Work reached a terminal redacted failure.
    Failed(LookupJobFailure),
    /// The authorized job is known but has passed its retention window.
    Expired,
}

/// Failure returned by lookup-job lifecycle storage.
#[derive(Debug, Clone, Copy, PartialEq, Eq, Structural)]
pub enum LookupJobStoreError {
    /// A caller attempted to create a job with a public ID already in use.
    AlreadyExists,
    /// A worker attempted to update a job that does not exist.
    NotFound,
    /// A worker attempted a transition that is no longer valid for the stored state.
    InvalidTransition,
    /// The backing lookup-job dependency cannot currently serve the operation.
    Unavailable,
}

impl LookupJobStoreError {
    /// Human-readable description of the failure.
    pub fn message(&self) -> (r: &'static str)
        ensures
            r@ == match *self {
                LookupJobStoreError::AlreadyExists => "lookup job already exists"@,
                LookupJobStoreError::NotFound => "lookup job does not exist"@,
                LookupJobStoreError::InvalidTransition => "lookup job lifecycle transition is invalid"@,
                LookupJobStoreError::Unavailable => "lookup-job store is unavailable"@,
            },
    {
        match self {
            LookupJobStoreError::AlreadyExists => "lookup job already exists",
            LookupJobStoreError::NotFound => "lookup job does not exist",
            LookupJobStoreError::InvalidTransition => "lookup job lifecycle transition is invalid",
            LookupJobStoreError::Unavailable => "lookup-job store is unavailable",
        }
    }
}

} // verus!
