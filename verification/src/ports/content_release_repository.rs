//! Atomic content-release staging, publication, rollback, and source-quarantine values.

use crate::domain::content_release::ContentReleaseValidationError;
use vstd::prelude::*;

verus! {

/// Failure returned by atomic content-release storage.
#[derive(Debug, Clone, Copy, PartialEq, Eq, Structural)]
pub enum ContentReleaseRepositoryError {
    /// A release with the same identifier already exists.
    AlreadyExists,
    /// The release does not exist.
    NotFound,
    /// The store holds inconsistent lifecycle state.
    InconsistentState,
    /// The source is not tracked by any content release.
    SourceNotTracked,
    /// The release contains a quarantined source.
    SourceQuarantined,
    /// Active content is unsafe because one of its sources was quarantined.
    ActiveContentUnsafe,
    /// The release is not the active release's rollback predecessor.
    InvalidRollbackTarget,
    /// The repository cannot currently serve the operation.
    Unavailable,
    /// A lifecycle transition violated a pure release invariant.
    Validation(ContentReleaseValidationError),
}

impl ContentReleaseRepositoryError {
    /// Human-readable description of the failure.
    pub fn message(&self) -> (r: &'static str)
        ensures
            r@ == match *self {
                ContentReleaseRepositoryError::AlreadyExists => "content release already exists"@,
                ContentReleaseRepositoryError::NotFound => "content release does not exist"@,
                ContentReleaseRepositoryError::InconsistentState => "content release store contains inconsistent lifecycle state"@,
                ContentReleaseRepositoryError::SourceNotTracked => "source is not tracked by a content release"@,
                ContentReleaseRepositoryError::SourceQuarantined => "content release contains a quarantined source"@,
                ContentReleaseRepositoryError::ActiveContentUnsafe => "active content is unsafe because a source was quarantined"@,
                ContentReleaseRepositoryError::InvalidRollbackTarget => "content release is not the active release's rollback predecessor"@,
                ContentReleaseRepositoryError::Unavailable => "content release repository unavailable"@,
                ContentReleaseRepositoryError::Validation(e) => match e {
                    ContentReleaseValidationError::BlankSourceManifestHash => "content release source manifest hash must not be blank"@,
                    ContentReleaseValidationError::BlankSchemaVersion => "content release schema version must not be blank"@,
                    ContentReleaseValidationError::BlankRankingVersion => "content release ranking version must not be blank"@,
                    ContentReleaseValidationError::ReleaseIdMismatch => "staged release ID must match the pinned active content release ID"@,
                    ContentReleaseValidationError::NoSources => "content release must declare at least one source"@,
                    ContentReleaseValidationError::NoRequiredGates => "content release must require at least one validation gate"@,
                    ContentReleaseValidationError::GateNotRequired => "content release gate is not required by this release"@,
                    ContentReleaseValidationError::ReleaseNotStaging => "content release is no longer in staging"@,
                    ContentReleaseValidationError::ReleaseNotRetired => "content release is not a retained rollback target"@,
                    ContentReleaseValidationError::ReleaseNotPublished => "content release is not the published active release"@,
                    ContentReleaseValidationError::VectorBuildAlreadyStarted => "content release already has a vector build"@,
                    ContentReleaseValidationError::VectorBuildNotStarted => "content release does not have a vector build"@,
                    ContentReleaseValidationError::VectorBuildAlreadyReady => "content release vector build is already ready"@,
                    ContentReleaseValidationError::VectorBindingMismatch => "vector build does not match the staged active content version"@,
                    ContentReleaseValidationError::ZeroExpectedVectorRecords => "vector build must expect at least one record"@,
                    ContentReleaseValidationError::VectorReconciliationMismatch { .. } => "vector reconciliation mismatch"@,
                    ContentReleaseValidationError::RequiredGatesPending => "content release still has pending validation gates"@,
                    ContentReleaseValidationError::RequiredGateFailed => "content release has a failed validation gate"@,
                    ContentReleaseValidationError::VectorBuildNotReady => "content release vector build is not ready"@,
                },
            },
    {
        match self {
            ContentReleaseRepositoryError::AlreadyExists => "content release already exists",
            ContentReleaseRepositoryError::NotFound => "content release does not exist",
            ContentReleaseRepositoryError::InconsistentState => "content release store contains inconsistent lifecycle state",
            ContentReleaseRepositoryError::SourceNotTracked => "source is not tracked by a content release",
            ContentReleaseRepositoryError::SourceQuarantined => "content release contains a quarantined source",
            ContentReleaseRepositoryError::ActiveContentUnsafe => "active content is unsafe because a source was quarantined",
            ContentReleaseRepositoryError::InvalidRollbackTarget => "content release is not the active release's rollback predecessor",
            ContentReleaseRepositoryError::Unavailable => "content release repository unavailable",
            ContentReleaseRepositoryError::Validation(e) => e.message(),
        }
    }
}

impl From<ContentReleaseValidationError> for ContentReleaseRepositoryError {
    fn from(e: ContentReleaseValidationError) -> (r: Self) {
        ContentReleaseRepositoryError::Validation(e)
    }
}

impl vstd::std_specs::convert::FromSpecImpl<ContentReleaseValidationError> for ContentReleaseRepositoryError {
    open spec fn obeys_from_spec() -> bool {
        true
    }

    open spec fn from_spec(e: ContentReleaseValidationError) -> Self {
        ContentReleaseRepositoryError::Validation(e)
    }
}

} // verus!
