//! Private saved graph-layout store values.

use crate::domain::graph_view::GraphViewValidationError;
use vstd::prelude::*;

verus! {

/// Failure returned by a saved graph-view store.
#[derive(Debug, Clone, Copy, PartialEq, Eq, Structural)]
pub enum GraphViewStoreError {
    /// A saved-view transition violated a pure layout invariant.
    Validation(GraphViewValidationError),
    /// The saved graph view store is unavailable.
    Unavailable,
}

impl GraphViewStoreError {
    /// Human-readable description of the failure.
    pub fn message(&self) -> (r: &'static str)
        ensures
            r@ == match *self {
                GraphViewStoreError::Validation(e) => match e {
                    GraphViewValidationError::TooManyPositions => "saved graph view contains too many node positions"@,
                    GraphViewValidationError::DuplicateNodePosition => "saved graph view contains duplicate node positions"@,
                    GraphViewValidationError::NonFiniteCoordinate => "saved graph position coordinates must be finite"@,
                    GraphViewValidationError::CoordinateOutOfBounds => "saved graph position coordinates exceed the supported range"@,
                    GraphViewValidationError::ReusedEtag => "saved graph view replacement must issue a fresh ETag"@,
                },
                GraphViewStoreError::Unavailable => "saved graph view store is unavailable"@,
            },
    {
        match self {
            GraphViewStoreError::Validation(e) => e.message(),
            GraphViewStoreError::Unavailable => "saved graph view store is unavailable",
        }
    }
}

impl From<GraphViewValidationError> for GraphViewStoreError {
    fn from(e: GraphViewValidationError) -> (r: Self) {
        GraphViewStoreError::Validation(e)
    }
}

impl vstd::std_specs::convert::FromSpecImpl<GraphViewValidationError> for GraphViewStoreError {
    open spec fn obeys_from_spec() -> bool {
        true
    }

    open spec fn from_spec(e: GraphViewValidationError) -> Self {
        GraphViewStoreError::Validation(e)
    }
}

} // verus!
