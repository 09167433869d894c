//! Version-pinned personal graph-feedback events and projections.
//!
//! Only private, per-owner feedback is modelled here. There is no community score, trust policy,
//! moderation decision, canonical-content mutation, transport form, encryption, or
//! authentication. A caller derives `LearnerId` from an authenticated principal before using a
//! feedback store.

use crate::domain::graph::{GraphEdgeId, GraphFeedbackCapability, RelationVersion};
use crate::ports::clock::UtcTimestamp;
use crate::ports::public_id::PublicId;
use crate::text::str_eq;
use vstd::prelude::*;

verus! {

/// A 32-byte digest of a client idempotency key scoped to one feedback mutation route and
/// owner.
///
/// The API boundary derives this digest with an application-held HMAC or equivalent; raw client
/// keys are never stored or logged by feedback code. It has no `Debug` form: `redacted_debug`
/// stands in for one.
#[derive(Clone, PartialEq, Eq, PartialOrd, Ord, Hash)]
pub struct FeedbackIdempotencyKey([u8; 32]);

impl FeedbackIdempotencyKey {
    /// The digest bytes.
    pub closed spec fn spec_bytes(&self) -> [u8; 32] {
        self.0
    }

    /// Wraps an application-derived opaque idempotency-key digest.
    pub fn new(value: [u8; 32]) -> (r: Self)
        ensures
            r.spec_bytes() == value,
    {
        FeedbackIdempotencyKey(value)
    }

    /// Returns the opaque digest bytes for an equality-preserving storage lookup.
    pub fn as_bytes(&self) -> (r: &[u8; 32])
        ensures
            *r == self.spec_bytes(),
    {
        &self.0
    }

    /// A debug rendering that never shows the digest.
    pub fn redacted_debug(&self) -> (r: &'static str)
        ensures
            r@ == "FeedbackIdempotencyKey([redacted])"@,
    {
        "FeedbackIdempotencyKey([redacted])"
    }
}

/// A 32-byte fingerprint of the normalized semantic feedback request.
///
/// The application includes the target edge ID, relation version, feedback dimension, and value
/// when computing it. A different fingerprint under the same idempotency key is a conflict
/// rather than a second mutation. It has no `Debug` form: `redacted_debug` stands in for one.
#[derive(Clone, PartialEq, Eq, Hash)]
pub struct FeedbackRequestFingerprint([u8; 32]);

impl FeedbackRequestFingerprint {
    /// The fingerprint bytes.
    pub closed spec fn spec_bytes(&self) -> [u8; 32] {
        self.0
    }

    /// Wraps an application-derived fingerprint of the normalized feedback request.
    pub fn new(value: [u8; 32]) -> (r: Self)
        ensures
            r.spec_bytes() == value,
    {
        FeedbackRequestFingerprint(value)
    }

    /// Returns the opaque fingerprint bytes for a same-request comparison.
    pub fn as_bytes(&self) -> (r: &[u8; 32])
        ensures
            *r == self.spec_bytes(),
    {
        &self.0
    }

    /// A debug rendering that never shows the fingerprint.
    pub fn redacted_debug(&self) -> (r: &'static str)
        ensures
            r@ == "FeedbackRequestFingerprint([redacted])"@,
    {
        "FeedbackRequestFingerprint([redacted])"
    }
}

/// One relation edge and immutable version to which personal feedback is pinned.
#[derive(Debug, PartialEq, Eq, PartialOrd, Ord, Hash)]
pub struct GraphFeedbackTarget {
    edge_id: GraphEdgeId,
    relation_version: RelationVersion,
}

impl View for GraphFeedbackTarget {
    type V = (Seq<char>, RelationVersion);

    closed spec fn view(&self) -> (Seq<char>, RelationVersion) {
        (self.edge_id@, self.relation_version)
    }
}

impl Clone for GraphFeedbackTarget {
    fn clone(&self) -> (r: Self)
        ensures
            r@ == self@,
    {
        GraphFeedbackTarget { edge_id: self.edge_id.clone(), relation_version: self.relation_version }
    }
}

impl GraphFeedbackTarget {
    /// Creates a target for exactly one canonical stored relation version.
    pub fn new(edge_id: GraphEdgeId, relation_version: RelationVersion) -> (r: Self)
        ensures
            r@ == (edge_id@, relation_version),
    {
        GraphFeedbackTarget { edge_id, relation_version }
    }

    /// Returns the stable public identifier of the canonical stored relation.
    pub fn edge_id(&self) -> (r: &GraphEdgeId)
        ensures
            r@ == self@.0,
    {
        &self.edge_id
    }

    /// Returns the immutable relation version that owns this feedback.
    pub fn relation_version(&self) -> (r: RelationVersion)
        ensures
            r == self@.1,
    {
        self.relation_version
    }

    /// Whether both targets name the same edge and relation version.
    pub fn same(&self, other: &GraphFeedbackTarget) -> (b: bool)
        ensures
            b == (self@ == other@),
    {
        self.relation_version == other.relation_version && str_eq(self.edge_id.as_str(), other.edge_id.as_str())
    }
}

/// A learner's current usefulness judgment for one graph-relation version.
#[derive(Debug, Clone, Copy, PartialEq, Eq, PartialOrd, Ord, Hash, Structural)]
pub enum PersonalUsefulness {
    /// The relation is more useful to this learner.
    More,
    /// The relation is less useful to this learner.
    Less,
}

/// A usefulness event action, including removal of the current usefulness judgment.
#[derive(Debug, Clone, Copy, PartialEq, Eq, PartialOrd, Ord, Hash, Structural)]
pub enum UsefulnessFeedback {
    /// Sets this learner's current usefulness judgment to more useful.
    More,
    /// Sets this learner's current usefulness judgment to less useful.
    Less,
    /// Removes this learner's current usefulness judgment without deleting the audit event.
    Reset,
}

/// The current usefulness that action `a` leaves.
pub open spec fn usefulness_after(a: UsefulnessFeedback) -> Option<PersonalUsefulness> {
    match a {
        UsefulnessFeedback::More => Some(PersonalUsefulness::More),
        UsefulnessFeedback::Less => Some(PersonalUsefulness::Less),
        UsefulnessFeedback::Reset => None,
    }
}

impl UsefulnessFeedback {
    /// Returns the current usefulness value represented by this action, if any.
    pub fn current(self) -> (r: Option<PersonalUsefulness>)
        ensures
            r == usefulness_after(self),
    {
        match self {
            UsefulnessFeedback::More => Some(PersonalUsefulness::More),
            UsefulnessFeedback::Less => Some(PersonalUsefulness::Less),
            UsefulnessFeedback::Reset => None,
        }
    }
}

/// Position of a usefulness judgment in declaration order, the order its derived `Ord` uses.
pub open spec fn usefulness_position(u: PersonalUsefulness) -> int {
    match u {
        PersonalUsefulness::More => 0,
        PersonalUsefulness::Less => 1,
    }
}

/// Position of a usefulness action in declaration order, the order its derived `Ord` uses.
pub open spec fn usefulness_action_position(a: UsefulnessFeedback) -> int {
    match a {
        UsefulnessFeedback::More => 0,
        UsefulnessFeedback::Less => 1,
        UsefulnessFeedback::Reset => 2,
    }
}

/// The usefulness a feedback action leaves is the one the learner chose: a reset leaves none,
/// and every other action leaves the judgment declared at its own position, so different
/// actions leave different judgments.
pub proof fn lemma_usefulness_is_the_chosen_one(a: UsefulnessFeedback, b: UsefulnessFeedback)
    ensures
        usefulness_after(a) is None <==> a == UsefulnessFeedback::Reset,
        usefulness_after(a) matches Some(u) ==> usefulness_position(u) == usefulness_action_position(a),
        a != b && a != UsefulnessFeedback::Reset ==> usefulness_after(a) != usefulness_after(b),
{
}

/// A learner's current accuracy report for one graph-relation version.
///
/// `Unsure` is an abstention. It is not a negative or positive vote.
#[derive(Debug, Clone, Copy, PartialEq, Eq, PartialOrd, Ord, Hash, Structural)]
pub enum PersonalAccuracy {
    /// This learner believes the relation is accurate.
    Accurate,
    /// This learner believes the relation connects the wrong sense.
    WrongSense,
    /// This learner believes the relation type is wrong.
    WrongType,
    /// This learner believes the relation scope is too broad.
    TooBroad,
    /// This learner believes the relation lacks a necessary restriction.
    MissingRestriction,
    /// This learner believes the relation is not supported by adequate evidence.
    Unsupported,
    /// This learner abstains from an accuracy judgment.
    Unsure,
}

/// An accuracy event action, including removal of the current accuracy report.
#[derive(Debug, Clone, Copy, PartialEq, Eq, PartialOrd, Ord, Hash, Structural)]
pub enum AccuracyFeedback {
    /// Sets this learner's current report to accurate.
    Accurate,
    /// Sets this learner's current report to wrong sense.
    WrongSense,
    /// Sets this learner's current report to wrong relation type.
    WrongType,
    /// Sets this learner's current report to too broad.
    TooBroad,
    /// Sets this learner's current report to missing a restriction.
    MissingRestriction,
    /// Sets this learner's current report to unsupported.
    Unsupported,
    /// Records an abstention rather than a positive or negative report.
    Unsure,
    /// Removes this learner's current accuracy report without deleting the audit event.
    Reset,
}

/// The current accuracy report that action `a` leaves.
pub open spec fn accuracy_after(a: AccuracyFeedback) -> Option<PersonalAccuracy> {
    match a {
        AccuracyFeedback::Accurate => Some(PersonalAccuracy::Accurate),
        AccuracyFeedback::WrongSense => Some(PersonalAccuracy::WrongSense),
        AccuracyFeedback::WrongType => Some(PersonalAccuracy::WrongType),
        AccuracyFeedback::TooBroad => Some(PersonalAccuracy::TooBroad),
        AccuracyFeedback::MissingRestriction => Some(PersonalAccuracy::MissingRestriction),
        AccuracyFeedback::Unsupported => Some(PersonalAccuracy::Unsupported),
        AccuracyFeedback::Unsure => Some(PersonalAccuracy::Unsure),
        AccuracyFeedback::Reset => None,
    }
}

/// Position of an accuracy report in declaration order, the order its derived `Ord` uses.
pub open spec fn accuracy_position(r: PersonalAccuracy) -> int {
    match r {
        PersonalAccuracy::Accurate => 0,
        PersonalAccuracy::WrongSense => 1,
        PersonalAccuracy::WrongType => 2,
        PersonalAccuracy::TooBroad => 3,
        PersonalAccuracy::MissingRestriction => 4,
        PersonalAccuracy::Unsupported => 5,
        PersonalAccuracy::Unsure => 6,
    }
}

/// Position of an accuracy action in declaration order, the order its derived `Ord` uses.
pub open spec fn accuracy_action_position(a: AccuracyFeedback) -> int {
    match a {
        AccuracyFeedback::Accurate => 0,
        AccuracyFeedback::WrongSense => 1,
        AccuracyFeedback::WrongType => 2,
        AccuracyFeedback::TooBroad => 3,
        AccuracyFeedback::MissingRestriction => 4,
        AccuracyFeedback::Unsupported => 5,
        AccuracyFeedback::Unsure => 6,
        AccuracyFeedback::Reset => 7,
    }
}

/// The accuracy report a feedback action leaves is the one the learner chose: a reset leaves
/// none, and every other action, an abstention included, leaves the report declared at its own
/// position, so different actions leave different reports.
pub proof fn lemma_accuracy_is_the_chosen_one(a: AccuracyFeedback, b: AccuracyFeedback)
    ensures
        accuracy_after(a) is None <==> a == AccuracyFeedback::Reset,
        accuracy_after(a) matches Some(r) ==> accuracy_position(r) == accuracy_action_position(a),
        a != b && a != AccuracyFeedback::Reset ==> accuracy_after(a) != accuracy_after(b),
{
}

impl AccuracyFeedback {
    /// Returns the current accuracy value represented by this action, if any.
    pub fn current(self) -> (r: Option<PersonalAccuracy>)
        ensures
            r == accuracy_after(self),
    {
        match self {
            AccuracyFeedback::Accurate => Some(PersonalAccuracy::Accurate),
            AccuracyFeedback::WrongSense => Some(PersonalAccuracy::WrongSense),
            AccuracyFeedback::WrongType => Some(PersonalAccuracy::WrongType),
            AccuracyFeedback::TooBroad => Some(PersonalAccuracy::TooBroad),
            AccuracyFeedback::MissingRestriction => Some(PersonalAccuracy::MissingRestriction),
            AccuracyFeedback::Unsupported => Some(PersonalAccuracy::Unsupported),
            AccuracyFeedback::Unsure => Some(PersonalAccuracy::Unsure),
            AccuracyFeedback::Reset => None,
        }
    }
}

/// One typed personal feedback action for a graph-relation version.
#[derive(Debug, Clone, Copy, PartialEq, Eq, PartialOrd, Ord, Hash, Structural)]
pub enum GraphFeedback {
    /// A usefulness action that affects only the submitting learner's projection.
    Usefulness(UsefulnessFeedback),
    /// An accuracy report that remains private.
    Accuracy(AccuracyFeedback),
}

impl GraphFeedback {
    /// Returns the graph capability required to accept this action.
    pub fn capability(self) -> (r: GraphFeedbackCapability)
        ensures
            r == match self {
                GraphFeedback::Usefulness(_) => GraphFeedbackCapability::Usefulness,
                GraphFeedback::Accuracy(_) => GraphFeedbackCapability::Accuracy,
            },
    {
        match self {
            GraphFeedback::Usefulness(_) => GraphFeedbackCapability::Usefulness,
            GraphFeedback::Accuracy(_) => GraphFeedbackCapability::Accuracy,
        }
    }
}

/// Immutable audit event for one accepted personal graph-feedback action.
///
/// Ownership is carried by the storage command rather than this outward-facing event value, so
/// an owner reference cannot leak through a receipt or log.
#[derive(Debug, Clone, PartialEq, Eq)]
pub struct GraphFeedbackEvent {
    /// Stable public identifier assigned to this immutable event.
    pub id: PublicId,
    /// Exact canonical relation version evaluated by the learner.
    pub target: GraphFeedbackTarget,
    /// Typed usefulness or accuracy action accepted for this target.
    pub feedback: GraphFeedback,
    /// Server-side UTC instant at which the event was accepted.
    pub recorded_at: UtcTimestamp,
}

impl GraphFeedbackEvent {
    /// Creates an immutable event after graph capability validation has completed.
    pub fn new(id: PublicId, target: GraphFeedbackTarget, feedback: GraphFeedback, recorded_at: UtcTimestamp) -> (r: Self)
        ensures
            r == (GraphFeedbackEvent { id, target, feedback, recorded_at }),
    {
        GraphFeedbackEvent { id, target, feedback, recorded_at }
    }
}

/// Failure while applying an immutable feedback event to a current projection.
#[derive(Debug, Clone, Copy, PartialEq, Eq, Structural)]
pub enum FeedbackProjectionError {
    /// The event was pinned to another relation edge or version.
    TargetMismatch,
    /// The projection version cannot represent another accepted event.
    VersionExhausted,
}

impl FeedbackProjectionError {
    /// Human-readable description of the failure.
    pub fn message(&self) -> (r: &'static str)
        ensures
            r@ == match *self {
                FeedbackProjectionError::TargetMismatch => "feedback event target does not match the current projection"@,
                FeedbackProjectionError::VersionExhausted => "feedback projection version is exhausted"@,
            },
    {
        match self {
            FeedbackProjectionError::TargetMismatch => "feedback event target does not match the current projection",
            FeedbackProjectionError::VersionExhausted => "feedback projection version is exhausted",
        }
    }
}

/// Current private feedback projection for one owner and relation version.
///
/// `version` counts accepted events, resets included. It supports private ETags or optimistic
/// writes but is not a canonical graph-version field.
#[derive(Debug, Clone, PartialEq, Eq)]
pub struct PersonalGraphFeedback {
    /// Exact canonical relation version evaluated by this owner.
    pub target: GraphFeedbackTarget,
    /// Current usefulness judgment, or `None` after no action or a reset.
    pub usefulness: Option<PersonalUsefulness>,
    /// Current accuracy report, or `None` after no action or a reset.
    pub accuracy: Option<PersonalAccuracy>,
    /// Latest immutable event applied to this projection.
    pub latest_event_id: PublicId,
    /// Server-side UTC instant of the latest accepted event.
    pub updated_at: UtcTimestamp,
    /// Monotonic per-owner-and-target projection version.
    pub version: u64,
}

impl PersonalGraphFeedback {
    /// Creates the initial current projection, at version one, from one accepted event: the
    /// event's dimension takes the value its action leaves, and the other dimension is unset.
    pub fn from_event(event: &GraphFeedbackEvent) -> (r: Self)
        ensures
            r.target@ == event.target@,
            r.usefulness == match event.feedback {
                GraphFeedback::Usefulness(a) => usefulness_after(a),
                GraphFeedback::Accuracy(_) => None,
            },
            r.accuracy == match event.feedback {
                GraphFeedback::Usefulness(_) => None,
                GraphFeedback::Accuracy(a) => accuracy_after(a),
            },
            r.latest_event_id@ == event.id@,
            r.updated_at == event.recorded_at,
            r.version == 1,
    {
        let (usefulness, accuracy) = match event.feedback {
            GraphFeedback::Usefulness(action) => (action.current(), None),
            GraphFeedback::Accuracy(action) => (None, action.current()),
        };
        PersonalGraphFeedback {
            target: event.target.clone(),
            usefulness,
            accuracy,
            latest_event_id: event.id.clone(),
            updated_at: event.recorded_at,
            version: 1,
        }
    }

    /// Applies a later event for the same target to this private current projection.
    ///
    /// The version grows by one, the event's dimension takes the value its action leaves, the
    /// other dimension stays, and the latest event and instant become the event's. An event for
    /// another edge or relation version is refused with `TargetMismatch`, and a version that
    /// cannot grow with `VersionExhausted`; a refused event changes nothing.
    pub fn apply(&mut self, event: &GraphFeedbackEvent) -> (r: Result<(), FeedbackProjectionError>)
        ensures
            old(self).target@ != event.target@ ==> r == Err::<(), _>(FeedbackProjectionError::TargetMismatch) && *final(self)
                == *old(self),
            old(self).target@ == event.target@ && old(self).version == u64::MAX ==> r == Err::<(), _>(
                FeedbackProjectionError::VersionExhausted,
            ) && *final(self) == *old(self),
            old(self).target@ == event.target@ && old(self).version < u64::MAX ==> r is Ok && {
                &&& final(self).target == old(self).target
                &&& final(self).version == old(self).version + 1
                &&& final(self).usefulness == match event.feedback {
                    GraphFeedback::Usefulness(a) => usefulness_after(a),
                    GraphFeedback::Accuracy(_) => old(self).usefulness,
                }
                &&& final(self).accuracy == match event.feedback {
                    GraphFeedback::Usefulness(_) => old(self).accuracy,
                    GraphFeedback::Accuracy(a) => accuracy_after(a),
                }
                &&& final(self).latest_event_id@ == event.id@
                &&& final(self).updated_at == event.recorded_at
            },
    {
        if !self.target.same(&event.target) {
            return Err(FeedbackProjectionError::TargetMismatch);
        }
        let version = match self.version.checked_add(1) {
            Some(v) => v,
            None => return Err(FeedbackProjectionError::VersionExhausted),
        };
        self.version = version;
        match event.feedback {
            GraphFeedback::Usefulness(action) => self.usefulness = action.current(),
            GraphFeedback::Accuracy(action) => self.accuracy = action.current(),
        }
        self.latest_event_id = event.id.clone();
        self.updated_at = event.recorded_at;
        Ok(())
    }
}

} // verus!
