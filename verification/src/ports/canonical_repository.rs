//! Canonical lexical repository values.

use vstd::prelude::*;

verus! {

/// Failure returned by a canonical lexical repository.
#[derive(Debug, Clone, Copy, PartialEq, Eq, Structural)]
pub enum CanonicalRepositoryError {
    /// The repository cannot currently serve the operation.
    Unavailable,
    /// The repository returned inconsistent data.
    InconsistentData,
}

impl CanonicalRepositoryError {
    /// Human-readable description of the failure.
    pub fn message(&self) -> (r: &'static str)
        ensures
            r@ == match *self {
                CanonicalRepositoryError::Unavailable => "canonical repository unavailable"@,
                CanonicalRepositoryError::InconsistentData => "canonical repository returned inconsistent data"@,
            },
    {
        match self {
            CanonicalRepositoryError::Unavailable => "canonical repository unavailable",
            CanonicalRepositoryError::InconsistentData => "canonical repository returned inconsistent data",
        }
    }
}

} // verus!
