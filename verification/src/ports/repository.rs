//! Generic keyed repository values.

use vstd::prelude::*;

verus! {

/// Failure returned by a keyed repository.
#[derive(Debug, Clone, Copy, PartialEq, Eq, Structural)]
pub enum RepositoryError {
    /// The repository is unavailable.
    Unavailable,
    /// The repository operation conflicted.
    Conflict,
}

impl RepositoryError {
    /// Human-readable description of the failure.
    pub fn message(&self) -> (r: &'static str)
        ensures
            r@ == match *self {
                RepositoryError::Unavailable => "repository is unavailable"@,
                RepositoryError::Conflict => "repository operation conflicted"@,
            },
    {
        match self {
            RepositoryError::Unavailable => "repository is unavailable",
            RepositoryError::Conflict => "repository operation conflicted",
        }
    }
}

} // verus!
