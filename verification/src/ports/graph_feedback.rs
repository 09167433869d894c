//! Values for validating and persisting private graph-feedback events.
//!
//! Canonical-edge eligibility is kept apart from mutable private learner state. Neither can
//! publish, retype, rank, or otherwise change canonical graph facts. Community aggregation,
//! moderation, encryption, authentication, and retention policy are outside this crate.

use crate::domain::feedback::{
    FeedbackIdempotencyKey, FeedbackProjectionError, FeedbackRequestFingerprint, GraphFeedbackEvent, GraphFeedbackTarget,
    PersonalGraphFeedback,
};
use crate::domain::graph::{GraphFeedbackCapability, GraphFeedbackCapabilitySet};
use crate::domain::learner::LearnerId;
use vstd::prelude::*;

verus! {

/// Canonical feedback eligibility for one currently published stored graph relation.
///
/// A catalog returns only canonical stored relations; derived scale and visual-only edges are
/// never returned, even if their public identifiers resemble stored edge identifiers.
#[derive(Debug, Clone, PartialEq, Eq)]
pub struct GraphFeedbackEdge {
    /// Exact current stored-relation target, including immutable relation version.
    pub target: GraphFeedbackTarget,
    /// Feedback dimensions explicitly enabled for this relation version.
    pub capabilities: GraphFeedbackCapabilitySet,
}

impl GraphFeedbackEdge {
    /// Creates feedback eligibility for one canonical stored relation version.
    pub fn new(target: GraphFeedbackTarget, capabilities: GraphFeedbackCapabilitySet) -> (r: Self)
        ensures
            r == (GraphFeedbackEdge { target, capabilities }),
    {
        GraphFeedbackEdge { target, capabilities }
    }

    /// Returns whether this edge version accepts `capability`.
    pub fn accepts(&self, capability: GraphFeedbackCapability) -> (b: bool)
        ensures
            b == self.capabilities.spec_contains(capability),
    {
        self.capabilities.contains(capability)
    }
}

/// Failure from the canonical graph-feedback eligibility dependency.
#[derive(Debug, Clone, Copy, PartialEq, Eq, Structural)]
pub enum GraphFeedbackCatalogError {
    /// The canonical graph dependency could not complete the eligibility read.
    Unavailable,
    /// Canonical edge metadata was internally inconsistent.
    InconsistentData,
}

impl GraphFeedbackCatalogError {
    /// Human-readable description of the failure.
    pub fn message(&self) -> (r: &'static str)
        ensures
            r@ == match *self {
                GraphFeedbackCatalogError::Unavailable => "graph-feedback catalog is unavailable"@,
                GraphFeedbackCatalogError::InconsistentData => "graph-feedback catalog returned inconsistent data"@,
            },
    {
        match self {
            GraphFeedbackCatalogError::Unavailable => "graph-feedback catalog is unavailable",
            GraphFeedbackCatalogError::InconsistentData => "graph-feedback catalog returned inconsistent data",
        }
    }
}

/// One private, idempotent event write prepared by the feedback application service.
///
/// The event ID is fresh for a first attempt. On a matching retry, stores return the prior
/// receipt and ignore this new candidate ID and timestamp. It has no `Debug` form, as its owner
/// and digests have none.
#[derive(Clone)]
pub struct GraphFeedbackWrite {
    owner: LearnerId,
    idempotency_key: FeedbackIdempotencyKey,
    request_fingerprint: FeedbackRequestFingerprint,
    event: GraphFeedbackEvent,
}

impl GraphFeedbackWrite {
    /// The owner.
    pub closed spec fn spec_owner(&self) -> Seq<char> {
        self.owner@
    }

    /// The idempotency-key digest.
    pub closed spec fn spec_idempotency_key(&self) -> FeedbackIdempotencyKey {
        self.idempotency_key
    }

    /// The request fingerprint.
    pub closed spec fn spec_request_fingerprint(&self) -> FeedbackRequestFingerprint {
        self.request_fingerprint
    }

    /// The event.
    pub closed spec fn spec_event(&self) -> GraphFeedbackEvent {
        self.event
    }

    /// Creates an accepted event write that a store applies atomically.
    pub fn new(owner: LearnerId, idempotency_key: FeedbackIdempotencyKey, request_fingerprint: FeedbackRequestFingerprint, event: GraphFeedbackEvent) -> (r: Self)
        ensures
            r.spec_owner() == owner@,
            r.spec_idempotency_key() == idempotency_key,
            r.spec_request_fingerprint() == request_fingerprint,
            r.spec_event() == event,
    {
        GraphFeedbackWrite { owner, idempotency_key, request_fingerprint, event }
    }

    /// Returns the private owner for an equality-preserving storage key; it never leaves a
    /// protected persistence boundary.
    pub fn owner(&self) -> (r: &LearnerId)
        ensures
            r@ == self.spec_owner(),
    {
        &self.owner
    }

    /// Returns the opaque idempotency-key digest for an owner-scoped lookup.
    pub fn idempotency_key(&self) -> (r: &FeedbackIdempotencyKey)
        ensures
            *r == self.spec_idempotency_key(),
    {
        &self.idempotency_key
    }

    /// Returns the normalized-request fingerprint used for conflict detection.
    pub fn request_fingerprint(&self) -> (r: &FeedbackRequestFingerprint)
        ensures
            *r == self.spec_request_fingerprint(),
    {
        &self.request_fingerprint
    }

    /// Returns the immutable event to append if this is not a replay or conflict.
    pub fn event(&self) -> (r: &GraphFeedbackEvent)
        ensures
            *r == self.spec_event(),
    {
        &self.event
    }
}

/// Receipt returned for a recorded or replayed private feedback write.
#[derive(Debug, Clone, PartialEq, Eq)]
pub struct GraphFeedbackReceipt {
    /// Immutable event that was appended exactly once.
    pub event: GraphFeedbackEvent,
    /// Current private projection after this event was applied.
    pub current: PersonalGraphFeedback,
}

impl GraphFeedbackReceipt {
    /// Creates the event-and-projection receipt retained for idempotent replay.
    pub fn new(event: GraphFeedbackEvent, current: PersonalGraphFeedback) -> (r: Self)
        ensures
            r == (GraphFeedbackReceipt { event, current }),
    {
        GraphFeedbackReceipt { event, current }
    }
}

/// Result of checking an owner-scoped graph-feedback idempotency key.
#[derive(Debug, Clone, PartialEq, Eq)]
pub enum GraphFeedbackIdempotencyResult {
    /// No prior accepted request owns this key for this owner.
    Absent,
    /// A matching accepted request can return its original receipt without revalidating the
    /// graph.
    Replayed(GraphFeedbackReceipt),
    /// This key belongs to a different normalized request for the same owner.
    Conflict,
}

/// Result of atomically appending one private feedback event and updating its projection.
#[derive(Debug, Clone, PartialEq, Eq)]
pub enum GraphFeedbackWriteResult {
    /// The store appended the new immutable event and advanced the current projection.
    Recorded(GraphFeedbackReceipt),
    /// A concurrent or later matching request already completed and returned its original
    /// receipt.
    Replayed(GraphFeedbackReceipt),
    /// The owner reused the same idempotency key for a different normalized request.
    Conflict,
}

/// Failure from private graph-feedback persistence.
#[derive(Debug, Clone, Copy, PartialEq, Eq, Structural)]
pub enum GraphFeedbackStoreError {
    /// A fresh event identifier collided with an existing immutable event.
    EventIdConflict,
    /// A current projection could not represent another accepted event.
    Projection(FeedbackProjectionError),
    /// The private feedback dependency could not complete the operation.
    Unavailable,
}

impl GraphFeedbackStoreError {
    /// Human-readable description of the failure.
    pub fn message(&self) -> (r: &'static str)
        ensures
            r@ == match *self {
                GraphFeedbackStoreError::EventIdConflict => "graph-feedback event identifier already exists"@,
                GraphFeedbackStoreError::Projection(e) => match e {
                    FeedbackProjectionError::TargetMismatch => "feedback event target does not match the current projection"@,
                    FeedbackProjectionError::VersionExhausted => "feedback projection version is exhausted"@,
                },
                GraphFeedbackStoreError::Unavailable => "graph-feedback store is unavailable"@,
            },
    {
        match self {
            GraphFeedbackStoreError::EventIdConflict => "graph-feedback event identifier already exists",
            GraphFeedbackStoreError::Projection(e) => e.message(),
            GraphFeedbackStoreError::Unavailable => "graph-feedback store is unavailable",
        }
    }
}

impl From<FeedbackProjectionError> for GraphFeedbackStoreError {
    fn from(e: FeedbackProjectionError) -> (r: Self) {
        GraphFeedbackStoreError::Projection(e)
    }
}

impl vstd::std_specs::convert::FromSpecImpl<FeedbackProjectionError> for GraphFeedbackStoreError {
    open spec fn obeys_from_spec() -> bool {
        true
    }

    open spec fn from_spec(e: FeedbackProjectionError) -> Self {
        GraphFeedbackStoreError::Projection(e)
    }
}

} // verus!
