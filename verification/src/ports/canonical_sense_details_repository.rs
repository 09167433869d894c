//! Release-pinned canonical sense-details repository values.

use crate::domain::canonical::{EvidenceUse, ReleaseId, SenseId};
use vstd::prelude::*;

verus! {

/// Failure returned by a canonical sense-details repository.
#[derive(Debug, Clone, Copy, PartialEq, Eq, Structural)]
pub enum CanonicalSenseDetailsRepositoryError {
    /// The repository cannot currently serve the read.
    Unavailable,
    /// The repository returned inconsistent data.
    InconsistentData,
}

impl CanonicalSenseDetailsRepositoryError {
    /// Human-readable description of the failure.
    pub fn message(&self) -> (r: &'static str)
        ensures
            r@ == match *self {
                CanonicalSenseDetailsRepositoryError::Unavailable => "canonical sense-details repository unavailable"@,
                CanonicalSenseDetailsRepositoryError::InconsistentData => "canonical sense-details repository returned inconsistent data"@,
            },
    {
        match self {
            CanonicalSenseDetailsRepositoryError::Unavailable => "canonical sense-details repository unavailable",
            CanonicalSenseDetailsRepositoryError::InconsistentData => "canonical sense-details repository returned inconsistent data",
        }
    }
}

/// Release-pinned read of the canonical details of one sense for one evidence use.
#[derive(Debug, Clone, PartialEq, Eq)]
pub struct CanonicalSenseDetailsReadRequest {
    release_id: ReleaseId,
    sense_id: SenseId,
    evidence_use: EvidenceUse,
}

impl CanonicalSenseDetailsReadRequest {
    /// The release.
    pub closed spec fn spec_release_id(&self) -> Seq<char> {
        self.release_id@
    }

    /// The sense.
    pub closed spec fn spec_sense_id(&self) -> Seq<char> {
        self.sense_id@
    }

    /// The evidence use.
    pub closed spec fn spec_evidence_use(&self) -> EvidenceUse {
        self.evidence_use
    }

    /// Creates a read of `sense_id` in `release_id` for `evidence_use`.
    pub fn new(release_id: ReleaseId, sense_id: SenseId, evidence_use: EvidenceUse) -> (r: Self)
        ensures
            r.spec_release_id() == release_id@,
            r.spec_sense_id() == sense_id@,
            r.spec_evidence_use() == evidence_use,
    {
        CanonicalSenseDetailsReadRequest { release_id, sense_id, evidence_use }
    }

    /// Returns the immutable release to read.
    pub fn release_id(&self) -> (r: &ReleaseId)
        ensures
            r@ == self.spec_release_id(),
    {
        &self.release_id
    }

    /// Returns the sense whose details are read.
    pub fn sense_id(&self) -> (r: &SenseId)
        ensures
            r@ == self.spec_sense_id(),
    {
        &self.sense_id
    }

    /// Returns the evidence use the details must permit.
    pub fn evidence_use(&self) -> (r: EvidenceUse)
        ensures
            r == self.spec_evidence_use(),
    {
        self.evidence_use
    }
}

} // verus!
