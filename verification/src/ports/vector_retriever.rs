//! Versioned vector-retrieval values.

use vstd::prelude::*;

verus! {

/// Failure returned by a vector retriever.
#[derive(Debug, Clone, Copy, PartialEq, Eq, Structural)]
pub enum VectorRetrieverError {
    /// The vector retriever cannot currently serve the request.
    Unavailable,
    /// The vector retriever returned invalid metadata.
    InvalidResponse,
}

impl VectorRetrieverError {
    /// Human-readable description of the failure.
    pub fn message(&self) -> (r: &'static str)
        ensures
            r@ == match *self {
                VectorRetrieverError::Unavailable => "vector retriever unavailable"@,
                VectorRetrieverError::InvalidResponse => "vector retriever returned invalid metadata"@,
            },
    {
        match self {
            VectorRetrieverError::Unavailable => "vector retriever unavailable",
            VectorRetrieverError::InvalidResponse => "vector retriever returned invalid metadata",
        }
    }
}

} // verus!
