//! Scoped idempotency reservation and response-storage values.

use crate::ports::clock::UtcTimestamp;
use crate::ports::public_id::{PublicId, PublicIdGenerationError};
use crate::text::{check_graphic_token, is_bounded_graphic_token};
use vstd::prelude::*;

verus! {

/// Validation failure for an idempotency scope.
#[derive(Debug, Clone, Copy, PartialEq, Eq, Structural)]
pub enum IdempotencyScopeError {
    /// The scope was not bounded printable ASCII.
    InvalidFormat,
}

impl IdempotencyScopeError {
    /// Human-readable description of the failure.
    pub fn message(&self) -> (r: &'static str)
        ensures
            r@ == "idempotency scope must be bounded printable ASCII"@,
    {
        "idempotency scope must be bounded printable ASCII"
    }
}

/// An opaque scope derived from an authorized principal and mutation route.
///
/// It has no `Debug` form: `redacted_debug` stands in for one.
#[derive(PartialEq, Eq, PartialOrd, Ord, Hash)]
pub struct IdempotencyScope(String);

impl View for IdempotencyScope {
    type V = Seq<char>;

    closed spec fn view(&self) -> Seq<char> {
        self.0@
    }
}

impl Clone for IdempotencyScope {
    fn clone(&self) -> (r: Self)
        ensures
            r@ == self@,
    {
        IdempotencyScope(self.0.clone())
    }
}

impl IdempotencyScope {
    /// Validates an opaque scope token of one to 256 printable ASCII characters.
    ///
    /// The caller uses a non-reversible principal representation rather than an identity
    /// display field. Route and tenant components belong in this scope so keys cannot cross
    /// mutation boundaries.
    pub fn new(value: &str) -> (r: Result<Self, IdempotencyScopeError>)
        ensures
            match r {
                Ok(s) => is_bounded_graphic_token(value@, 256) && s@ == value@,
                Err(e) => !is_bounded_graphic_token(value@, 256) && e == IdempotencyScopeError::InvalidFormat,
            },
    {
        if !check_graphic_token(value, 256) {
            return Err(IdempotencyScopeError::InvalidFormat);
        }
        Ok(IdempotencyScope(value.to_string()))
    }

    /// Returns the opaque scope token for a durable implementation's lookup key.
    pub fn as_str(&self) -> (r: &str)
        ensures
            r@ == self@,
    {
        self.0.as_str()
    }

    /// A debug rendering that never shows the scope.
    pub fn redacted_debug(&self) -> (r: &'static str)
        ensures
            r@ == "IdempotencyScope([redacted])"@,
    {
        "IdempotencyScope([redacted])"
    }
}


/// A 32-byte HMAC or equivalent digest of a client-supplied idempotency key.
///
/// It has no `Debug` form: `redacted_debug` stands in for one.
#[derive(Clone, PartialEq, Eq, Hash)]
pub struct IdempotencyKeyDigest([u8; 32]);

impl IdempotencyKeyDigest {
    /// The digest bytes.
    pub closed spec fn spec_bytes(&self) -> [u8; 32] {
        self.0
    }

    /// Creates an opaque key digest from an application-owned cryptographic operation.
    pub fn new(value: [u8; 32]) -> (r: Self)
        ensures
            r.spec_bytes() == value,
    {
        IdempotencyKeyDigest(value)
    }

    /// Returns the digest bytes for a durable implementation's key lookup.
    pub fn as_bytes(&self) -> (r: &[u8; 32])
        ensures
            *r == self.spec_bytes(),
    {
        &self.0
    }

    /// A debug rendering that never shows the bytes.
    pub fn redacted_debug(&self) -> (r: &'static str)
        ensures
            r@ == "IdempotencyKeyDigest([redacted])"@,
    {
        "IdempotencyKeyDigest([redacted])"
    }
}

/// A 32-byte cryptographic fingerprint of the normalized mutation request.
///
/// It has no `Debug` form: `redacted_debug` stands in for one.
#[derive(Clone, PartialEq, Eq, Hash)]
pub struct RequestFingerprint([u8; 32]);

impl RequestFingerprint {
    /// The digest bytes.
    pub closed spec fn spec_bytes(&self) -> [u8; 32] {
        self.0
    }

    /// Creates a request fingerprint from an application-owned cryptographic operation.
    pub fn new(value: [u8; 32]) -> (r: Self)
        ensures
            r.spec_bytes() == value,
    {
        RequestFingerprint(value)
    }

    /// Returns the fingerprint bytes for comparison within the same idempotency scope.
    pub fn as_bytes(&self) -> (r: &[u8; 32])
        ensures
            *r == self.spec_bytes(),
    {
        &self.0
    }

    /// A debug rendering that never shows the bytes.
    pub fn redacted_debug(&self) -> (r: &'static str)
        ensures
            r@ == "RequestFingerprint([redacted])"@,
    {
        "RequestFingerprint([redacted])"
    }
}

/// An idempotency reservation request for one scoped mutation.
///
/// It has no `Debug` form: `redacted_debug` stands in for one.
#[derive(Clone)]
pub struct IdempotencyRequest {
    scope: IdempotencyScope,
    key_digest: IdempotencyKeyDigest,
    request_fingerprint: RequestFingerprint,
    expires_at: UtcTimestamp,
}

impl IdempotencyRequest {
    /// The `scope` field.
    pub closed spec fn spec_scope(&self) -> Seq<char> {
        self.scope@
    }

    /// The `key_digest` field.
    pub closed spec fn spec_key_digest(&self) -> IdempotencyKeyDigest {
        self.key_digest
    }

    /// The `request_fingerprint` field.
    pub closed spec fn spec_request_fingerprint(&self) -> RequestFingerprint {
        self.request_fingerprint
    }

    /// The `expires_at` field.
    pub closed spec fn spec_expires_at(&self) -> UtcTimestamp {
        self.expires_at
    }

    /// Returns the opaque route-and-principal scope.
    pub fn scope(&self) -> (r: &IdempotencyScope)
        ensures
            r@ == self.spec_scope(),
    {
        &self.scope
    }

    /// Returns the key digest without exposing a raw client-supplied key.
    pub fn key_digest(&self) -> (r: &IdempotencyKeyDigest)
        ensures
            *r == self.spec_key_digest(),
    {
        &self.key_digest
    }

    /// Returns the normalized request fingerprint for conflict detection.
    pub fn request_fingerprint(&self) -> (r: &RequestFingerprint)
        ensures
            *r == self.spec_request_fingerprint(),
    {
        &self.request_fingerprint
    }

    /// Returns the UTC expiry of the reservation and stored response.
    pub fn expires_at(&self) -> (r: UtcTimestamp)
        ensures
            r == self.spec_expires_at(),
    {
        self.expires_at
    }

    /// Creates a reservation that expires at `expires_at`.
    pub fn new(scope: IdempotencyScope, key_digest: IdempotencyKeyDigest, request_fingerprint: RequestFingerprint, expires_at: UtcTimestamp) -> (r: Self)
        ensures
            r.spec_scope() == scope@,
            r.spec_key_digest() == key_digest,
            r.spec_request_fingerprint() == request_fingerprint,
            r.spec_expires_at() == expires_at,
    {
        IdempotencyRequest { scope, key_digest, request_fingerprint, expires_at }
    }

    /// A debug rendering in which the scope, key digest and fingerprint are redacted.
    pub fn redacted_debug(&self) -> (r: &'static str)
        ensures
            r@ == "IdempotencyRequest { scope: IdempotencyScope([redacted]), key_digest: IdempotencyKeyDigest([redacted]), request_fingerprint: RequestFingerprint([redacted]), .. }"@,
    {
        "IdempotencyRequest { scope: IdempotencyScope([redacted]), key_digest: IdempotencyKeyDigest([redacted]), request_fingerprint: RequestFingerprint([redacted]), .. }"
    }

}

/// Opaque encoded response retained for an idempotent replay.
///
/// Stores never log its bytes, because a mutation response can contain private resource
/// identifiers or learner-owned state; it has no `Debug` form.
#[derive(Clone, PartialEq, Eq)]
pub struct IdempotencyResponse(Vec<u8>);

impl View for IdempotencyResponse {
    type V = Seq<u8>;

    closed spec fn view(&self) -> Seq<u8> {
        self.0@
    }
}

impl IdempotencyResponse {
    /// Creates a response representation owned by the application codec.
    pub fn new(value: Vec<u8>) -> (r: Self)
        ensures
            r@ == value@,
    {
        IdempotencyResponse(value)
    }

    /// Returns the opaque encoded response.
    pub fn as_bytes(&self) -> (r: &[u8])
        ensures
            r@ == self@,
    {
        self.0.as_slice()
    }

    /// Consumes the response and returns the application-encoded bytes.
    pub fn into_bytes(self) -> (r: Vec<u8>)
        ensures
            r@ == self@,
    {
        self.0
    }
}

/// An opaque reservation capability returned only to the matching idempotency store.
///
/// It has no `Debug` form, as its identifier and digests are confidential.
#[derive(Clone, PartialEq, Eq)]
pub struct IdempotencyLease {
    id: PublicId,
    scope: IdempotencyScope,
    key_digest: IdempotencyKeyDigest,
    request_fingerprint: RequestFingerprint,
}

impl IdempotencyLease {
    /// The `id` field.
    pub closed spec fn spec_id(&self) -> Seq<char> {
        self.id@
    }

    /// The `scope` field.
    pub closed spec fn spec_scope(&self) -> Seq<char> {
        self.scope@
    }

    /// The `key_digest` field.
    pub closed spec fn spec_key_digest(&self) -> IdempotencyKeyDigest {
        self.key_digest
    }

    /// The `request_fingerprint` field.
    pub closed spec fn spec_request_fingerprint(&self) -> RequestFingerprint {
        self.request_fingerprint
    }

    /// Returns the reservation identifier, which a store checks on completion and abandonment.
    pub fn id(&self) -> (r: &PublicId)
        ensures
            r@ == self.spec_id(),
    {
        &self.id
    }

    /// Returns the reserved scope.
    pub fn scope(&self) -> (r: &IdempotencyScope)
        ensures
            r@ == self.spec_scope(),
    {
        &self.scope
    }

    /// Returns the reserved key digest.
    pub fn key_digest(&self) -> (r: &IdempotencyKeyDigest)
        ensures
            *r == self.spec_key_digest(),
    {
        &self.key_digest
    }

    /// Returns the fingerprint of the reserved request.
    pub fn request_fingerprint(&self) -> (r: &RequestFingerprint)
        ensures
            *r == self.spec_request_fingerprint(),
    {
        &self.request_fingerprint
    }

    /// Creates the reservation capability a store hands to the caller that reserved a key.
    pub fn new(id: PublicId, scope: IdempotencyScope, key_digest: IdempotencyKeyDigest, request_fingerprint: RequestFingerprint) -> (r: Self)
        ensures
            r.spec_id() == id@,
            r.spec_scope() == scope@,
            r.spec_key_digest() == key_digest,
            r.spec_request_fingerprint() == request_fingerprint,
    {
        IdempotencyLease { id, scope, key_digest, request_fingerprint }
    }

}

/// Result of atomically attempting to reserve an idempotent mutation.
#[derive(Clone, PartialEq, Eq)]
pub enum IdempotencyBegin {
    /// This caller owns the newly created pending reservation.
    Started(IdempotencyLease),
    /// A matching mutation is still executing under another valid reservation.
    InProgress,
    /// A matching completed mutation can return the retained response without executing again.
    Replayed(IdempotencyResponse),
    /// The same scope and key were used for a different normalized request.
    Conflict,
}

/// Failure returned by an idempotency store.
#[derive(Debug, Clone, Copy, PartialEq, Eq, Structural)]
pub enum IdempotencyError {
    /// The store could not create a new opaque reservation ID.
    IdGeneration(PublicIdGenerationError),
    /// The requested expiry is not in the future according to the store clock.
    Expired,
    /// The caller no longer owns the pending reservation.
    LeaseLost,
    /// The backing idempotency dependency cannot currently serve the operation.
    Unavailable,
}

impl IdempotencyError {
    /// Human-readable description of the failure.
    pub fn message(&self) -> (r: &'static str)
        ensures
            r@ == match *self {
                IdempotencyError::IdGeneration(_) => "could not generate idempotency reservation ID"@,
                IdempotencyError::Expired => "idempotency reservation is already expired"@,
                IdempotencyError::LeaseLost => "idempotency reservation was lost"@,
                IdempotencyError::Unavailable => "idempotency store is unavailable"@,
            },
    {
        match self {
            IdempotencyError::IdGeneration(_) => "could not generate idempotency reservation ID",
            IdempotencyError::Expired => "idempotency reservation is already expired",
            IdempotencyError::LeaseLost => "idempotency reservation was lost",
            IdempotencyError::Unavailable => "idempotency store is unavailable",
        }
    }
}

impl From<PublicIdGenerationError> for IdempotencyError {
    fn from(e: PublicIdGenerationError) -> (r: Self) {
        IdempotencyError::IdGeneration(e)
    }
}

impl vstd::std_specs::convert::FromSpecImpl<PublicIdGenerationError> for IdempotencyError {
    open spec fn obeys_from_spec() -> bool {
        true
    }

    open spec fn from_spec(e: PublicIdGenerationError) -> Self {
        IdempotencyError::IdGeneration(e)
    }
}

} // verus!
