//! Private scheduler-neutral practice-state persistence values.
//!
//! A store applies owner checks, idempotency, one-outstanding-item claims, one-time
//! submissions, attempt recording, and counter updates atomically. It persists no raw learner
//! answer or accepted answer, and it does not authenticate an owner, encrypt raw input, select a
//! scheduler, evaluate a response, or provide durable storage.

use crate::domain::learner::LearnerId;
use crate::domain::practice::{
    FrozenPracticeExercise, PracticeAttempt, PracticeAttemptResolution, PracticeClaimOutcome,
    PracticeIdempotencyKey, PracticeMasteryState, PracticeRequestFingerprint, PracticeSession,
    PracticeValidationError, ResponseTimeInfluence,
};
use crate::ports::clock::UtcTimestamp;
use crate::ports::public_id::PublicId;
use vstd::prelude::*;

verus! {

/// Failure returned by a private practice-state storage dependency.
#[derive(Debug, Clone, Copy, PartialEq, Eq, Structural)]
pub enum PracticeStateStoreError {
    /// A frozen exercise's generated public ID already exists.
    ExerciseIdConflict,
    /// An accepted attempt's generated public ID already exists.
    AttemptIdConflict,
    /// A mastery counter transition violated a pure practice invariant.
    Validation(PracticeValidationError),
    /// The private practice-state dependency cannot currently serve the operation.
    Unavailable,
}

impl PracticeStateStoreError {
    /// Human-readable description of the failure.
    pub fn message(&self) -> (r: &'static str)
        ensures
            r@ == match *self {
                PracticeStateStoreError::ExerciseIdConflict => "practice exercise identifier already exists"@,
                PracticeStateStoreError::AttemptIdConflict => "practice attempt identifier already exists"@,
                PracticeStateStoreError::Validation(e) => match e {
                    PracticeValidationError::SessionLimitOutOfRange => "practice session item limit must be between one and 50"@,
                    PracticeValidationError::ItemSlotOutOfRange => "practice item slot must be between one and 50"@,
                    PracticeValidationError::TooManySecondaryTargets => "practice exercise contains too many secondary targets"@,
                    PracticeValidationError::FocusTargetRepeated => "practice exercise secondary targets must not repeat the focus target"@,
                    PracticeValidationError::DuplicateSecondaryTarget => "practice exercise contains duplicate secondary targets"@,
                    PracticeValidationError::BlankVersion => "practice version must not be blank"@,
                    PracticeValidationError::VersionTooLong => "practice version exceeds the supported length"@,
                    PracticeValidationError::BlankPrompt => "practice prompt must not be blank"@,
                    PracticeValidationError::PromptTooLong => "practice prompt exceeds the supported length"@,
                    PracticeValidationError::EnglishDialectRequired => "practice dialect must be an English language tag"@,
                    PracticeValidationError::ResponseTimeTooLong => "practice response time exceeds the supported duration"@,
                    PracticeValidationError::CounterOverflow => "practice mastery counters are exhausted"@,
                },
                PracticeStateStoreError::Unavailable => "practice state store is unavailable"@,
            },
    {
        match self {
            PracticeStateStoreError::ExerciseIdConflict => "practice exercise identifier already exists",
            PracticeStateStoreError::AttemptIdConflict => "practice attempt identifier already exists",
            PracticeStateStoreError::Validation(e) => e.message(),
            PracticeStateStoreError::Unavailable => "practice state store is unavailable",
        }
    }
}

impl From<PracticeValidationError> for PracticeStateStoreError {
    fn from(e: PracticeValidationError) -> (r: Self) {
        PracticeStateStoreError::Validation(e)
    }
}

impl vstd::std_specs::convert::FromSpecImpl<PracticeValidationError> for PracticeStateStoreError {
    open spec fn obeys_from_spec() -> bool {
        true
    }

    open spec fn from_spec(e: PracticeValidationError) -> Self {
        PracticeStateStoreError::Validation(e)
    }
}

/// Result of atomically creating a private bounded practice session.
#[derive(Clone, PartialEq, Eq)]
pub enum PracticeSessionCreateResult {
    /// The session was stored for the first time.
    Created(PracticeSession),
    /// The generated public session ID already exists, so no session was written.
    IdConflict,
}

/// Result of atomically freezing an exercise for one owned bounded session.
#[derive(Clone, PartialEq, Eq)]
pub enum FreezePracticeExerciseResult {
    /// The fully validated frozen exercise was stored.
    Frozen(Box<FrozenPracticeExercise>),
    /// The session is absent or belongs to another learner.
    MissingSession,
    /// The exercise slot is beyond this session's configured item limit.
    SlotOutsideSessionLimit,
    /// Another frozen exercise already occupies this session slot.
    SlotAlreadyFrozen,
}

/// One private claim mutation prepared by practice-state application logic.
///
/// The raw client idempotency key and request input never reach this value. It has no `Debug`
/// form, as its owner and digests have none.
#[derive(Clone)]
pub struct PracticeClaimWrite {
    owner: LearnerId,
    session_id: PublicId,
    idempotency_key: PracticeIdempotencyKey,
    request_fingerprint: PracticeRequestFingerprint,
    claimed_at: UtcTimestamp,
}

impl PracticeClaimWrite {
    /// The `owner` field.
    pub closed spec fn spec_owner(&self) -> Seq<char> {
        self.owner@
    }

    /// The `session_id` field.
    pub closed spec fn spec_session_id(&self) -> Seq<char> {
        self.session_id@
    }

    /// The `idempotency_key` field.
    pub closed spec fn spec_idempotency_key(&self) -> PracticeIdempotencyKey {
        self.idempotency_key
    }

    /// The `request_fingerprint` field.
    pub closed spec fn spec_request_fingerprint(&self) -> PracticeRequestFingerprint {
        self.request_fingerprint
    }

    /// The `claimed_at` field.
    pub closed spec fn spec_claimed_at(&self) -> UtcTimestamp {
        self.claimed_at
    }

    /// Returns the protected owner reference for an equality-preserving storage key.
    pub fn owner(&self) -> (r: &LearnerId)
        ensures
            r@ == self.spec_owner(),
    {
        &self.owner
    }

    /// Returns the requested bounded practice session identifier.
    pub fn session_id(&self) -> (r: &PublicId)
        ensures
            r@ == self.spec_session_id(),
    {
        &self.session_id
    }

    /// Returns the redacted idempotency-key digest.
    pub fn idempotency_key(&self) -> (r: &PracticeIdempotencyKey)
        ensures
            *r == self.spec_idempotency_key(),
    {
        &self.idempotency_key
    }

    /// Returns the redacted normalized-request fingerprint.
    pub fn request_fingerprint(&self) -> (r: &PracticeRequestFingerprint)
        ensures
            *r == self.spec_request_fingerprint(),
    {
        &self.request_fingerprint
    }

    /// Returns the server-side instant at which a new item would be claimed.
    pub fn claimed_at(&self) -> (r: UtcTimestamp)
        ensures
            r == self.spec_claimed_at(),
    {
        self.claimed_at
    }

    /// Creates a claim-or-return request with application-derived idempotency material.
    pub fn new(
        owner: LearnerId,
        session_id: PublicId,
        idempotency_key: PracticeIdempotencyKey,
        request_fingerprint: PracticeRequestFingerprint,
        claimed_at: UtcTimestamp,
    ) -> (r: Self)
        ensures
            r.spec_owner() == owner@,
            r.spec_session_id() == session_id@,
            r.spec_idempotency_key() == idempotency_key,
            r.spec_request_fingerprint() == request_fingerprint,
            r.spec_claimed_at() == claimed_at,
    {
        PracticeClaimWrite { owner, session_id, idempotency_key, request_fingerprint, claimed_at }
    }

}

/// Receipt retained for a recorded or replayed private claim request.
#[derive(Clone, PartialEq, Eq)]
pub struct PracticeClaimReceipt {
    outcome: PracticeClaimOutcome,
}

impl PracticeClaimReceipt {
    /// The `outcome` field.
    pub closed spec fn spec_outcome(&self) -> PracticeClaimOutcome {
        self.outcome
    }

    /// Returns the exact claimed, outstanding, or exhausted outcome.
    pub fn outcome(&self) -> (r: &PracticeClaimOutcome)
        ensures
            *r == self.spec_outcome(),
    {
        &self.outcome
    }

    /// Creates an idempotent claim receipt from an exact claim-or-return outcome.
    pub fn new(outcome: PracticeClaimOutcome) -> (r: Self)
        ensures
            r.spec_outcome() == outcome,
    {
        PracticeClaimReceipt { outcome }
    }

}

/// Result of atomically recording or replaying one owner-scoped claim mutation.
#[derive(Clone, PartialEq, Eq)]
pub enum PracticeClaimWriteResult {
    /// The claim request was applied exactly once and its receipt was retained.
    Recorded(PracticeClaimReceipt),
    /// A matching owner-scoped retry returned its original retained receipt.
    Replayed(PracticeClaimReceipt),
    /// The same owner reused this claim key for a different normalized request.
    IdempotencyConflict,
    /// The requested session is absent or belongs to another learner.
    MissingSession,
}

/// One private submit-once mutation prepared by practice-state application logic.
///
/// `resolution` is already redacted and contains no raw answer, accepted answer, correction, or
/// evaluator input. A store applies ownership, outstanding state, idempotency, attempt
/// persistence, and mastery counters in one atomic transaction. It has no `Debug` form, as its
/// owner and digests have none.
#[derive(Clone)]
pub struct PracticeSubmissionWrite {
    owner: LearnerId,
    exercise_id: PublicId,
    idempotency_key: PracticeIdempotencyKey,
    request_fingerprint: PracticeRequestFingerprint,
    attempt_id: PublicId,
    resolution: PracticeAttemptResolution,
    response_time: ResponseTimeInfluence,
    submitted_at: UtcTimestamp,
}

impl PracticeSubmissionWrite {
    /// The `owner` field.
    pub closed spec fn spec_owner(&self) -> Seq<char> {
        self.owner@
    }

    /// The `exercise_id` field.
    pub closed spec fn spec_exercise_id(&self) -> Seq<char> {
        self.exercise_id@
    }

    /// The `idempotency_key` field.
    pub closed spec fn spec_idempotency_key(&self) -> PracticeIdempotencyKey {
        self.idempotency_key
    }

    /// The `request_fingerprint` field.
    pub closed spec fn spec_request_fingerprint(&self) -> PracticeRequestFingerprint {
        self.request_fingerprint
    }

    /// The `attempt_id` field.
    pub closed spec fn spec_attempt_id(&self) -> Seq<char> {
        self.attempt_id@
    }

    /// The `resolution` field.
    pub closed spec fn spec_resolution(&self) -> PracticeAttemptResolution {
        self.resolution
    }

    /// The `response_time` field.
    pub closed spec fn spec_response_time(&self) -> ResponseTimeInfluence {
        self.response_time
    }

    /// The `submitted_at` field.
    pub closed spec fn spec_submitted_at(&self) -> UtcTimestamp {
        self.submitted_at
    }

    /// Returns the protected owner reference for an equality-preserving storage key.
    pub fn owner(&self) -> (r: &LearnerId)
        ensures
            r@ == self.spec_owner(),
    {
        &self.owner
    }

    /// Returns the frozen exercise that may be submitted exactly once.
    pub fn exercise_id(&self) -> (r: &PublicId)
        ensures
            r@ == self.spec_exercise_id(),
    {
        &self.exercise_id
    }

    /// Returns the redacted idempotency-key digest.
    pub fn idempotency_key(&self) -> (r: &PracticeIdempotencyKey)
        ensures
            *r == self.spec_idempotency_key(),
    {
        &self.idempotency_key
    }

    /// Returns the redacted normalized-request fingerprint.
    pub fn request_fingerprint(&self) -> (r: &PracticeRequestFingerprint)
        ensures
            *r == self.spec_request_fingerprint(),
    {
        &self.request_fingerprint
    }

    /// Returns the generated stable identifier for a first accepted immutable attempt.
    pub fn attempt_id(&self) -> (r: &PublicId)
        ensures
            r@ == self.spec_attempt_id(),
    {
        &self.attempt_id
    }

    /// Returns the redacted evaluator outcome that must be recorded exactly once.
    pub fn resolution(&self) -> (r: PracticeAttemptResolution)
        ensures
            r == self.spec_resolution(),
    {
        self.resolution
    }

    /// Returns the capped or disabled response-time treatment.
    pub fn response_time(&self) -> (r: ResponseTimeInfluence)
        ensures
            r == self.spec_response_time(),
    {
        self.response_time
    }

    /// Returns the server-side instant at which the attempt would be accepted.
    pub fn submitted_at(&self) -> (r: UtcTimestamp)
        ensures
            r == self.spec_submitted_at(),
    {
        self.submitted_at
    }

    /// Creates a one-time submission request from redacted evaluator and accessibility-safe
    /// inputs.
    pub fn new(
        owner: LearnerId,
        exercise_id: PublicId,
        idempotency_key: PracticeIdempotencyKey,
        request_fingerprint: PracticeRequestFingerprint,
        attempt_id: PublicId,
        resolution: PracticeAttemptResolution,
        response_time: ResponseTimeInfluence,
        submitted_at: UtcTimestamp,
    ) -> (r: Self)
        ensures
            r.spec_owner() == owner@,
            r.spec_exercise_id() == exercise_id@,
            r.spec_idempotency_key() == idempotency_key,
            r.spec_request_fingerprint() == request_fingerprint,
            r.spec_attempt_id() == attempt_id@,
            r.spec_resolution() == resolution,
            r.spec_response_time() == response_time,
            r.spec_submitted_at() == submitted_at,
    {
        PracticeSubmissionWrite {
            owner,
            exercise_id,
            idempotency_key,
            request_fingerprint,
            attempt_id,
            resolution,
            response_time,
            submitted_at,
        }
    }

}

/// Receipt returned for a first or replayed private one-time practice submission.
#[derive(Debug, Clone, PartialEq, Eq)]
pub struct PracticeSubmissionReceipt {
    attempt: PracticeAttempt,
    mastery: PracticeMasteryState,
}

impl PracticeSubmissionReceipt {
    /// The `attempt` field.
    pub closed spec fn spec_attempt(&self) -> PracticeAttempt {
        self.attempt
    }

    /// The `mastery` field.
    pub closed spec fn spec_mastery(&self) -> PracticeMasteryState {
        self.mastery
    }

    /// Returns the immutable one-time attempt with no answer material.
    pub fn attempt(&self) -> (r: &PracticeAttempt)
        ensures
            *r == self.spec_attempt(),
    {
        &self.attempt
    }

    /// Returns the owner-scoped focus-target mastery counters after the atomic transition.
    pub fn mastery(&self) -> (r: &PracticeMasteryState)
        ensures
            *r == self.spec_mastery(),
    {
        &self.mastery
    }

    /// Creates the immutable attempt and resulting private mastery-counter receipt.
    pub fn new(attempt: PracticeAttempt, mastery: PracticeMasteryState) -> (r: Self)
        ensures
            r.spec_attempt() == attempt,
            r.spec_mastery() == mastery,
    {
        PracticeSubmissionReceipt { attempt, mastery }
    }

}

/// Result of checking an owner-scoped private submission idempotency key.
#[derive(Debug, Clone, PartialEq, Eq)]
pub enum PracticeSubmissionIdempotencyResult {
    /// No prior accepted submission owns this key for this learner.
    Absent,
    /// A matching accepted request can return its original receipt without allocating another ID.
    Replayed(Box<PracticeSubmissionReceipt>),
    /// This key belongs to another normalized submission request for the same learner.
    Conflict,
}

/// Result of atomically recording or replaying one owner-scoped submit-once mutation.
#[derive(Debug, Clone, PartialEq, Eq)]
pub enum PracticeSubmissionWriteResult {
    /// The outstanding item was submitted once and the receipt was retained.
    Recorded(PracticeSubmissionReceipt),
    /// A matching owner-scoped retry returned its original retained receipt.
    Replayed(PracticeSubmissionReceipt),
    /// The same owner reused this submission key for a different normalized request.
    IdempotencyConflict,
    /// The exercise is absent or belongs to another learner.
    MissingExercise,
    /// The owned exercise has not been claimed, so it cannot be submitted.
    NotOutstanding,
    /// The owned exercise already has a distinct accepted attempt.
    AlreadySubmitted,
}

} // verus!
