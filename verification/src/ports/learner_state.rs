//! Private learner-owned state persistence values.
//!
//! A store answers a query through the wrong `LearnerId` exactly as it answers one for an
//! absent record. Nothing here authenticates callers, hashes owner references, encrypts source
//! text or notes, provides cross-resource transactions, or runs durable privacy workflows.

use crate::domain::learner::{
    HistoryEntry, LearnerProfile, LearnerProfileError, SavedSenseMutationOutcome, SavedSenseState,
    SavedVocabularyEntry, SavedVocabularyError,
};
use crate::ports::clock::UtcTimestamp;
use crate::ports::public_id::PublicId;
use vstd::prelude::*;

verus! {

/// Largest number of private history records one page may request.
pub const MAX_HISTORY_PAGE_SIZE: u8 = 100;

/// Largest number of saved vocabulary entries one page may request.
pub const MAX_SAVED_VOCABULARY_PAGE_SIZE: u8 = 100;

/// Failure returned by a learner-state storage dependency.
#[derive(Debug, Clone, Copy, PartialEq, Eq, Structural)]
pub enum LearnerStateStoreError {
    /// The private-state dependency cannot currently serve the operation.
    Unavailable,
    /// An atomic storage operation conflicted with existing private state.
    Conflict,
    /// A profile transition violated a pure profile invariant before it could be stored.
    Profile(LearnerProfileError),
    /// A saved-vocabulary transition violated a pure lifecycle or successor invariant.
    SavedVocabulary(SavedVocabularyError),
}

impl LearnerStateStoreError {
    /// Human-readable description of the failure.
    pub fn message(&self) -> (r: &'static str)
        ensures
            r@ == match *self {
                LearnerStateStoreError::Unavailable => "learner state store is unavailable"@,
                LearnerStateStoreError::Conflict => "learner state store operation conflicted"@,
                LearnerStateStoreError::Profile(e) => match e {
                    LearnerProfileError::TimeMovedBackwards => "learner profile timestamp moved backwards"@,
                    LearnerProfileError::RevisionExhausted => "learner profile revision is exhausted"@,
                },
                LearnerStateStoreError::SavedVocabulary(e) => match e {
                    SavedVocabularyError::TooManySuccessors => "too many sense successor candidates"@,
                    SavedVocabularyError::DuplicateSuccessor => "sense successor candidates must be distinct"@,
                    SavedVocabularyError::SuccessorMatchesRetiredSense => "a retired sense cannot be its own successor"@,
                    SavedVocabularyError::SuccessorChoiceRequired => "a successor choice is required before active study can resume"@,
                    SavedVocabularyError::NotPendingSuccessor => "selected sense is not a pending successor"@,
                    SavedVocabularyError::TimeMovedBackwards => "saved vocabulary timestamp moved backwards"@,
                    SavedVocabularyError::RevisionExhausted => "saved vocabulary revision is exhausted"@,
                },
            },
    {
        match self {
            LearnerStateStoreError::Unavailable => "learner state store is unavailable",
            LearnerStateStoreError::Conflict => "learner state store operation conflicted",
            LearnerStateStoreError::Profile(e) => e.message(),
            LearnerStateStoreError::SavedVocabulary(e) => e.message(),
        }
    }
}

impl From<LearnerProfileError> for LearnerStateStoreError {
    fn from(e: LearnerProfileError) -> (r: Self) {
        LearnerStateStoreError::Profile(e)
    }
}

impl vstd::std_specs::convert::FromSpecImpl<LearnerProfileError> for LearnerStateStoreError {
    open spec fn obeys_from_spec() -> bool {
        true
    }

    open spec fn from_spec(e: LearnerProfileError) -> Self {
        LearnerStateStoreError::Profile(e)
    }
}

impl From<SavedVocabularyError> for LearnerStateStoreError {
    fn from(e: SavedVocabularyError) -> (r: Self) {
        LearnerStateStoreError::SavedVocabulary(e)
    }
}

impl vstd::std_specs::convert::FromSpecImpl<SavedVocabularyError> for LearnerStateStoreError {
    open spec fn obeys_from_spec() -> bool {
        true
    }

    open spec fn from_spec(e: SavedVocabularyError) -> Self {
        LearnerStateStoreError::SavedVocabulary(e)
    }
}

/// Opaque history pagination position ordered by occurrence time descending and ID
/// descending.
#[derive(Debug, PartialEq, Eq, PartialOrd, Ord)]
pub struct HistoryCursor {
    occurred_at: UtcTimestamp,
    id: PublicId,
}

impl Clone for HistoryCursor {
    fn clone(&self) -> (r: Self)
        ensures
            r == *self,
    {
        HistoryCursor { occurred_at: self.occurred_at, id: self.id.clone() }
    }
}

impl HistoryCursor {
    /// The occurrence instant.
    pub closed spec fn spec_occurred_at(&self) -> UtcTimestamp {
        self.occurred_at
    }

    /// The entry identifier.
    pub closed spec fn spec_id(&self) -> Seq<char> {
        self.id@
    }

    /// Creates a cursor positioned immediately after the supplied history ordering key.
    pub fn new(occurred_at: UtcTimestamp, id: PublicId) -> (r: Self)
        ensures
            r.spec_occurred_at() == occurred_at,
            r.spec_id() == id@,
    {
        HistoryCursor { occurred_at, id }
    }

    /// Returns the occurrence instant used in the deterministic history ordering.
    pub fn occurred_at(&self) -> (r: UtcTimestamp)
        ensures
            r == self.spec_occurred_at(),
    {
        self.occurred_at
    }

    /// Returns the stable history ID used to break same-instant ordering ties.
    pub fn id(&self) -> (r: &PublicId)
        ensures
            r@ == self.spec_id(),
    {
        &self.id
    }
}

/// Invalid history-page request.
#[derive(Debug, Clone, Copy, PartialEq, Eq, Structural)]
pub enum HistoryPageRequestError {
    /// The requested history page would exceed the bounded contract.
    LimitTooLarge,
}

impl HistoryPageRequestError {
    /// Human-readable description of the failure.
    pub fn message(&self) -> (r: &'static str)
        ensures
            r@ == "history page limit is too large"@,
    {
        "history page limit is too large"
    }
}

/// Validated bounded page request for private history metadata.
#[derive(Debug, Clone, PartialEq, Eq)]
pub struct HistoryPageRequest {
    before: Option<HistoryCursor>,
    limit: u8,
}

impl HistoryPageRequest {
    /// The cursor.
    pub closed spec fn spec_before(&self) -> Option<HistoryCursor> {
        self.before
    }

    /// The page size.
    pub closed spec fn spec_limit(&self) -> u8 {
        self.limit
    }

    /// Creates a history page request for a nonzero number of records; more than 100 is
    /// refused with `LimitTooLarge`.
    pub fn new(before: Option<HistoryCursor>, limit: u8) -> (r: Result<Self, HistoryPageRequestError>)
        requires
            limit > 0,
        ensures
            limit > 100 ==> r == Err::<Self, _>(HistoryPageRequestError::LimitTooLarge),
            limit <= 100 ==> (r matches Ok(p) && p.spec_before() == before && p.spec_limit() == limit),
    {
        if limit > MAX_HISTORY_PAGE_SIZE {
            return Err(HistoryPageRequestError::LimitTooLarge);
        }
        Ok(HistoryPageRequest { before, limit })
    }

    /// Returns the exclusive previous-page cursor, when one was supplied.
    pub fn before(&self) -> (r: Option<&HistoryCursor>)
        ensures
            r == match self.spec_before() {
                Some(c) => Some(&c),
                None => None::<&HistoryCursor>,
            },
    {
        match &self.before {
            Some(c) => Some(c),
            None => None,
        }
    }

    /// Returns the bounded number of records requested.
    pub fn limit(&self) -> (r: u8)
        ensures
            r == self.spec_limit(),
    {
        self.limit
    }
}

/// One bounded page of owned, unexpired history metadata.
#[derive(Clone, PartialEq, Eq)]
pub struct HistoryPage {
    entries: Vec<HistoryEntry>,
    next_cursor: Option<HistoryCursor>,
}

impl HistoryPage {
    /// The `entries` field.
    pub closed spec fn spec_entries(&self) -> Seq<HistoryEntry> {
        self.entries@
    }

    /// The `next_cursor` field.
    pub closed spec fn spec_next_cursor(&self) -> Option<HistoryCursor> {
        self.next_cursor
    }

    /// Returns history entries in occurrence-descending, ID-descending order.
    pub fn entries(&self) -> (r: &[HistoryEntry])
        ensures
            r@ == self.spec_entries(),
    {
        self.entries.as_slice()
    }

    /// Returns the exclusive cursor for the next older page, when more records exist.
    pub fn next_cursor(&self) -> (r: Option<&HistoryCursor>)
        ensures
            r == match self.spec_next_cursor() {
                Some(x) => Some(&x),
                None => None::<&HistoryCursor>,
            },
    {
        match &self.next_cursor {
            Some(x) => Some(x),
            None => None,
        }
    }

    /// Creates one page from ordered entries and an optional next cursor.
    pub fn new(entries: Vec<HistoryEntry>, next_cursor: Option<HistoryCursor>) -> (r: Self)
        ensures
            r.spec_entries() == entries@,
            r.spec_next_cursor() == next_cursor,
    {
        HistoryPage { entries, next_cursor }
    }

}

/// Opaque saved-vocabulary pagination position ordered by stable entry ID.
#[derive(Debug, Clone, PartialEq, Eq, PartialOrd, Ord)]
pub struct SavedVocabularyCursor {
    id: PublicId,
}

impl SavedVocabularyCursor {
    /// The `id` field.
    pub closed spec fn spec_id(&self) -> Seq<char> {
        self.id@
    }

    /// Returns the stable entry ID used for deterministic pagination.
    pub fn id(&self) -> (r: &PublicId)
        ensures
            r@ == self.spec_id(),
    {
        &self.id
    }

    /// Creates a cursor positioned immediately after the supplied saved vocabulary entry ID.
    pub fn new(id: PublicId) -> (r: Self)
        ensures
            r.spec_id() == id@,
    {
        SavedVocabularyCursor { id }
    }

}

/// Invalid saved-vocabulary page request.
#[derive(Debug, Clone, Copy, PartialEq, Eq, Structural)]
pub enum SavedVocabularyPageRequestError {
    /// The requested saved-vocabulary page would exceed the bounded contract.
    LimitTooLarge,
}

impl SavedVocabularyPageRequestError {
    /// Human-readable description of the failure.
    pub fn message(&self) -> (r: &'static str)
        ensures
            r@ == "saved vocabulary page limit is too large"@,
    {
        "saved vocabulary page limit is too large"
    }
}

/// Validated bounded page request for owned saved vocabulary entries.
#[derive(Debug, Clone, PartialEq, Eq)]
pub struct SavedVocabularyPageRequest {
    after: Option<SavedVocabularyCursor>,
    limit: u8,
    state: Option<SavedSenseState>,
}

impl SavedVocabularyPageRequest {
    /// The cursor.
    pub closed spec fn spec_after(&self) -> Option<SavedVocabularyCursor> {
        self.after
    }

    /// The page size.
    pub closed spec fn spec_limit(&self) -> u8 {
        self.limit
    }

    /// The lifecycle-state filter.
    pub closed spec fn spec_state(&self) -> Option<SavedSenseState> {
        self.state
    }

    /// Creates a saved-vocabulary page request for a nonzero number of entries, with an
    /// optional lifecycle-state filter; more than 100 is refused with `LimitTooLarge`.
    pub fn new(after: Option<SavedVocabularyCursor>, limit: u8, state: Option<SavedSenseState>) -> (r: Result<Self, SavedVocabularyPageRequestError>)
        requires
            limit > 0,
        ensures
            limit > 100 ==> r == Err::<Self, _>(SavedVocabularyPageRequestError::LimitTooLarge),
            limit <= 100 ==> (r matches Ok(p) && p.spec_after() == after && p.spec_limit() == limit && p.spec_state() == state),
    {
        if limit > MAX_SAVED_VOCABULARY_PAGE_SIZE {
            return Err(SavedVocabularyPageRequestError::LimitTooLarge);
        }
        Ok(SavedVocabularyPageRequest { after, limit, state })
    }

    /// Returns the exclusive prior-page cursor, when one was supplied.
    pub fn after(&self) -> (r: Option<&SavedVocabularyCursor>)
        ensures
            r == match self.spec_after() {
                Some(c) => Some(&c),
                None => None::<&SavedVocabularyCursor>,
            },
    {
        match &self.after {
            Some(c) => Some(c),
            None => None,
        }
    }

    /// Returns the bounded number of entries requested.
    pub fn limit(&self) -> (r: u8)
        ensures
            r == self.spec_limit(),
    {
        self.limit
    }

    /// Returns the optional lifecycle-state filter.
    pub fn state(&self) -> (r: Option<SavedSenseState>)
        ensures
            r == self.spec_state(),
    {
        self.state
    }
}

/// One bounded page of owned saved vocabulary entries.
#[derive(Clone, PartialEq, Eq)]
pub struct SavedVocabularyPage {
    entries: Vec<SavedVocabularyEntry>,
    next_cursor: Option<SavedVocabularyCursor>,
}

impl SavedVocabularyPage {
    /// The `entries` field.
    pub closed spec fn spec_entries(&self) -> Seq<SavedVocabularyEntry> {
        self.entries@
    }

    /// The `next_cursor` field.
    pub closed spec fn spec_next_cursor(&self) -> Option<SavedVocabularyCursor> {
        self.next_cursor
    }

    /// Returns saved vocabulary entries in stable entry-ID order.
    pub fn entries(&self) -> (r: &[SavedVocabularyEntry])
        ensures
            r@ == self.spec_entries(),
    {
        self.entries.as_slice()
    }

    /// Returns the exclusive cursor for the next page, when more entries exist.
    pub fn next_cursor(&self) -> (r: Option<&SavedVocabularyCursor>)
        ensures
            r == match self.spec_next_cursor() {
                Some(x) => Some(&x),
                None => None::<&SavedVocabularyCursor>,
            },
    {
        match &self.next_cursor {
            Some(x) => Some(x),
            None => None,
        }
    }

    /// Creates one page from entries in entry-ID order and an optional next cursor.
    pub fn new(entries: Vec<SavedVocabularyEntry>, next_cursor: Option<SavedVocabularyCursor>) -> (r: Self)
        ensures
            r.spec_entries() == entries@,
            r.spec_next_cursor() == next_cursor,
    {
        SavedVocabularyPage { entries, next_cursor }
    }

}

/// Result of trying to create a private learner profile.
#[derive(Clone, PartialEq, Eq)]
pub enum ProfileCreateResult {
    /// The private profile was stored for the first time.
    Created(LearnerProfile),
    /// A profile for the same opaque owner already exists.
    AlreadyExists,
}

/// Ownership-safe result of an optimistic private state update.
///
/// `Missing` covers both absent resources and resources owned by a different learner.
#[derive(Debug, Clone, PartialEq, Eq)]
pub enum PrivateUpdate<Value> {
    /// The owned record was updated and its resulting snapshot is returned.
    Updated(Value),
    /// The record is absent or not owned by the supplied opaque learner.
    Missing,
    /// The owned record exists but its current revision differs from the caller's expected
    /// revision.
    VersionConflict {
        /// Current revision visible only after a successful ownership match.
        current_revision: u64,
    },
}

/// Result of atomically saving one vocabulary sense for an owner.
#[derive(Clone, PartialEq, Eq)]
pub enum SavedVocabularyWrite {
    /// A new stable entry was created.
    Created(SavedVocabularyEntry),
    /// An existing current-sense entry was refreshed without allocating a duplicate entry.
    Updated(SavedVocabularyEntry),
}

/// Result of atomically mutating one owned saved vocabulary entry.
#[derive(Clone, PartialEq, Eq)]
pub enum SavedVocabularyMutationResult {
    /// The owned entry was mutated and its resulting snapshot is returned.
    Updated {
        /// Stored entry after the mutation.
        entry: Box<SavedVocabularyEntry>,
        /// Domain-level effect of the mutation.
        outcome: SavedSenseMutationOutcome,
    },
    /// The entry is absent or owned by a different learner.
    Missing,
    /// The owned entry exists but was modified after the caller's expected revision.
    VersionConflict {
        /// Current revision visible only after a successful ownership match.
        current_revision: u64,
    },
}

} // verus!
