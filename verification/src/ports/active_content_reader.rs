//! Narrow reader of the active immutable canonical-content tuple.

use vstd::prelude::*;

verus! {

/// Failure returned while reading the active content tuple.
#[derive(Debug, Clone, Copy, PartialEq, Eq, Structural)]
pub enum ActiveContentReaderError {
    /// The reader cannot currently serve the operation.
    Unavailable,
    /// The reader returned inconsistent data.
    InconsistentData,
}

impl ActiveContentReaderError {
    /// Human-readable description of the failure.
    pub fn message(&self) -> (r: &'static str)
        ensures
            r@ == match *self {
                ActiveContentReaderError::Unavailable => "active content reader unavailable"@,
                ActiveContentReaderError::InconsistentData => "active content reader returned inconsistent data"@,
            },
    {
        match self {
            ActiveContentReaderError::Unavailable => "active content reader unavailable",
            ActiveContentReaderError::InconsistentData => "active content reader returned inconsistent data",
        }
    }
}

} // verus!
