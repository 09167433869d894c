//! Read-only canonical graph topology values.

use crate::domain::graph::{GraphContentVersion, GraphEdge, GraphEdgeOrderingKey, GraphFilter, GraphNodeKey, SemanticScale, StoredGraphRelation};
use vstd::prelude::*;

verus! {

/// Failure returned by the read-only canonical graph repository.
#[derive(Debug, Clone, Copy, PartialEq, Eq, Structural)]
pub enum GraphRepositoryError {
    /// The repository cannot currently serve the read.
    Unavailable,
    /// The repository returned inconsistent data.
    InconsistentData,
}

impl GraphRepositoryError {
    /// Human-readable description of the failure.
    pub fn message(&self) -> (r: &'static str)
        ensures
            r@ == match *self {
                GraphRepositoryError::Unavailable => "graph repository unavailable"@,
                GraphRepositoryError::InconsistentData => "graph repository returned inconsistent data"@,
            },
    {
        match self {
            GraphRepositoryError::Unavailable => "graph repository unavailable",
            GraphRepositoryError::InconsistentData => "graph repository returned inconsistent data",
        }
    }
}

/// Bounded read of the stored relations and scales adjacent to one node.
#[derive(Debug, Clone, PartialEq, Eq)]
pub struct GraphAdjacencyRequest {
    /// Immutable graph content to read.
    pub content: GraphContentVersion,
    /// Node whose adjacency is read.
    pub node: GraphNodeKey,
    /// Relation families to include.
    pub filter: GraphFilter,
    /// Largest number of records to return.
    pub record_limit: usize,
}

/// Stored relations and scales adjacent to one node.
#[derive(Debug, Clone, PartialEq, Eq)]
pub struct GraphAdjacency {
    /// Stored relations touching the node.
    pub relations: Vec<StoredGraphRelation>,
    /// Semantic scales the node belongs to.
    pub scales: Vec<SemanticScale>,
}

impl Default for GraphAdjacency {
    fn default() -> (r: Self)
        ensures
            r.relations@.len() == 0,
            r.scales@.len() == 0,
    {
        GraphAdjacency { relations: Vec::new(), scales: Vec::new() }
    }
}

/// Keyset-paginated read of the edges adjacent to one node.
#[derive(Debug, Clone, PartialEq, Eq)]
pub struct GraphNeighborPageRequest {
    /// Immutable graph content to read.
    pub content: GraphContentVersion,
    /// Node whose neighbors are read.
    pub node: GraphNodeKey,
    /// Relation families to include.
    pub filter: GraphFilter,
    /// Exclusive position after which the page starts.
    pub after: Option<GraphEdgeOrderingKey>,
    /// Largest number of edges to return.
    pub edge_limit: usize,
}

/// One page of edges adjacent to a node.
#[derive(Debug, Clone, PartialEq, Eq)]
pub struct GraphNeighborPage {
    /// Edges in deterministic order.
    pub edges: Vec<GraphEdge>,
    /// Whether more edges follow this page.
    pub has_more: bool,
}

impl Default for GraphNeighborPage {
    fn default() -> (r: Self)
        ensures
            r.edges@.len() == 0,
            !r.has_more,
    {
        GraphNeighborPage { edges: Vec::new(), has_more: false }
    }
}

} // verus!
