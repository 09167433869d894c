//! Generic ranked-candidate retrieval values.

use vstd::prelude::*;

verus! {

/// Failure returned by a retrieval dependency.
#[derive(Debug, Clone, Copy, PartialEq, Eq, Structural)]
pub enum RetrievalError {
    /// The retrieval dependency is unavailable.
    Unavailable,
}

impl RetrievalError {
    /// Human-readable description of the failure.
    pub fn message(&self) -> (r: &'static str)
        ensures
            r@ == match *self {
                RetrievalError::Unavailable => "retrieval dependency is unavailable"@,
            },
    {
        match self {
            RetrievalError::Unavailable => "retrieval dependency is unavailable",
        }
    }
}

} // verus!
