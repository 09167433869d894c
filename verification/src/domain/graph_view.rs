//! Private saved graph-layout values and optimistic replacement invariants.
//!
//! A saved view stores only a bounded set of typed node identifiers and three-dimensional
//! presentation coordinates. It contains no graph topology, adjacency, node labels, filters,
//! ranking components, feedback, camera state, force-layout output, or semantic evidence.
//! Positions are private presentation hints: they cannot change a graph read or rank result.
//!
//! The coordinates themselves are floating-point values and are held by the application; what is
//! decided here is which node keys a saved view may hold, in which order, and when a
//! replacement may proceed.

use crate::domain::graph::{node_key_lt, GraphNodeKey, GraphNodeKind};
use crate::keyed::{lemma_text_lt_irreflexive, lemma_text_lt_total, lemma_text_lt_transitive};
use crate::ports::public_id::PublicId;
use vstd::prelude::*;

verus! {

/// Largest number of saved node positions in one private graph view.
pub const MAX_SAVED_GRAPH_VIEW_POSITIONS: usize = crate::domain::graph::MAX_GRAPH_NODE_LIMIT;

/// Validation failure for a private saved graph-layout value.
#[derive(Debug, Clone, Copy, PartialEq, Eq, Structural)]
pub enum GraphViewValidationError {
    /// A saved view would retain more positions than the bounded contract permits.
    TooManyPositions,
    /// A saved view attempted to store more than one position for the same typed node.
    DuplicateNodePosition,
    /// A coordinate was `NaN` or infinite.
    NonFiniteCoordinate,
    /// A finite coordinate exceeded the supported presentation-only range.
    CoordinateOutOfBounds,
    /// A successful replacement did not issue a fresh opaque entity tag.
    ReusedEtag,
}

impl GraphViewValidationError {
    /// Human-readable description of the failure.
    pub fn message(&self) -> (r: &'static str)
        ensures
            r@ == match *self {
                GraphViewValidationError::TooManyPositions => "saved graph view contains too many node positions"@,
                GraphViewValidationError::DuplicateNodePosition => "saved graph view contains duplicate node positions"@,
                GraphViewValidationError::NonFiniteCoordinate => "saved graph position coordinates must be finite"@,
                GraphViewValidationError::CoordinateOutOfBounds => "saved graph position coordinates exceed the supported range"@,
                GraphViewValidationError::ReusedEtag => "saved graph view replacement must issue a fresh ETag"@,
            },
    {
        match self {
            GraphViewValidationError::TooManyPositions => "saved graph view contains too many node positions",
            GraphViewValidationError::DuplicateNodePosition => "saved graph view contains duplicate node positions",
            GraphViewValidationError::NonFiniteCoordinate => "saved graph position coordinates must be finite",
            GraphViewValidationError::CoordinateOutOfBounds => "saved graph position coordinates exceed the supported range",
            GraphViewValidationError::ReusedEtag => "saved graph view replacement must issue a fresh ETag",
        }
    }
}

/// No node key is below itself.
pub proof fn lemma_node_key_lt_irreflexive(a: (GraphNodeKind, Seq<char>))
    ensures
        !node_key_lt(a, a),
{
    lemma_text_lt_irreflexive(a.1);
}

/// The node-key order is transitive.
pub proof fn lemma_node_key_lt_transitive(a: (GraphNodeKind, Seq<char>), b: (GraphNodeKind, Seq<char>), c: (GraphNodeKind, Seq<char>))
    requires
        node_key_lt(a, b),
        node_key_lt(b, c),
    ensures
        node_key_lt(a, c),
{
    if a.0 == b.0 && b.0 == c.0 {
        lemma_text_lt_transitive(a.1, b.1, c.1);
    }
}

/// Two different node keys are ordered one way or the other.
pub proof fn lemma_node_key_lt_total(a: (GraphNodeKind, Seq<char>), b: (GraphNodeKind, Seq<char>))
    ensures
        a == b || node_key_lt(a, b) || node_key_lt(b, a),
{
    lemma_text_lt_total(a.1, b.1);
    if crate::domain::graph::node_kind_rank(a.0) == crate::domain::graph::node_kind_rank(b.0) {
        assert(a.0 == b.0);
    }
}

/// The keys of `nodes`, in order.
pub open spec fn node_views(nodes: Seq<GraphNodeKey>) -> Seq<(GraphNodeKind, Seq<char>)> {
    nodes.map_values(|k: GraphNodeKey| k@)
}

/// Whether `order` lists positions of `nodes` whose keys strictly increase.
pub open spec fn is_key_order(order: Seq<usize>, nodes: Seq<GraphNodeKey>) -> bool {
    &&& forall|k: int| 0 <= k < order.len() ==> #[trigger] order[k] < nodes.len()
    &&& forall|a: int, b: int| 0 <= a < b < order.len() ==> node_key_lt(nodes[#[trigger] order[a] as int]@, nodes[#[trigger] order[b] as int]@)
}

/// The error a saved view's node keys are refused with, if any: more than the bounded number
/// of positions, or a node that appears twice.
pub open spec fn positions_error(nodes: Seq<GraphNodeKey>) -> Option<GraphViewValidationError> {
    if nodes.len() > 75 {
        Some(GraphViewValidationError::TooManyPositions)
    } else if !node_views(nodes).no_duplicates() {
        Some(GraphViewValidationError::DuplicateNodePosition)
    } else {
        None
    }
}

/// Checks the node keys of a saved view and gives the order in which its positions are kept.
///
/// Fails with `TooManyPositions` for more than 75 positions and with `DuplicateNodePosition`
/// when a typed node appears twice. Otherwise it returns every position of `nodes` once, in
/// increasing node-key order.
pub fn position_order(nodes: &Vec<GraphNodeKey>) -> (r: Result<Vec<usize>, GraphViewValidationError>)
    ensures
        match positions_error(nodes@) {
            Some(e) => r == Err::<Vec<usize>, _>(e),
            None => r matches Ok(order) && order@.len() == nodes@.len() && is_key_order(order@, nodes@),
        },
{
    if nodes.len() > MAX_SAVED_GRAPH_VIEW_POSITIONS {
        return Err(GraphViewValidationError::TooManyPositions);
    }
    let ghost views = node_views(nodes@);
    let mut a: usize = 0;
    while a < nodes.len()
        invariant
            a <= nodes.len() <= 75,
            views == node_views(nodes@),
            forall|p: int, q: int| 0 <= p < q < views.len() && p < a ==> #[trigger] views[p] != #[trigger] views[q],
        decreases nodes.len() - a,
    {
        let mut b: usize = a + 1;
        while b < nodes.len()
            invariant
                a < nodes.len() <= 75,
                a + 1 <= b <= nodes.len(),
                views == node_views(nodes@),
                forall|p: int, q: int| 0 <= p < q < views.len() && p < a ==> #[trigger] views[p] != #[trigger] views[q],
                forall|q: int| a < q < b ==> views[a as int] != #[trigger] views[q],
            decreases nodes.len() - b,
        {
            if nodes[a].same(&nodes[b]) {
                assert(views[a as int] == views[b as int]);
                assert(!views.no_duplicates());
                return Err(GraphViewValidationError::DuplicateNodePosition);
            }
            b += 1;
        }
        a += 1;
    }
    assert(views.no_duplicates());
    let mut order: Vec<usize> = Vec::new();
    let mut i: usize = 0;
    while i < nodes.len()
        invariant
            i <= nodes.len() <= 75,
            views == node_views(nodes@),
            views.no_duplicates(),
            order@.len() == i,
            is_key_order(order@, nodes@),
            forall|k: int| 0 <= k < order@.len() ==> #[trigger] order@[k] < i,
        decreases nodes.len() - i,
    {
        let mut p: usize = 0;
        while p < order.len() && nodes[order[p]].is_before(&nodes[i])
            invariant
                p <= order@.len() == i < nodes.len(),
                is_key_order(order@, nodes@),
                forall|k: int| 0 <= k < order@.len() ==> #[trigger] order@[k] < i,
                forall|k: int| 0 <= k < p ==> node_key_lt(nodes@[#[trigger] order@[k] as int]@, nodes@[i as int]@),
            decreases order@.len() - p,
        {
            p += 1;
        }
        let ghost before = order@;
        proof {
            if p < before.len() {
                let j = before[p as int] as int;
                assert(views[j] == nodes@[j]@);
                assert(views[i as int] == nodes@[i as int]@);
                assert(j != i);
                lemma_node_key_lt_total(nodes@[j]@, nodes@[i as int]@);
            }
        }
        order.insert(p, i);
        proof {
            let now = order@;
            assert forall|k: int| 0 <= k < now.len() implies #[trigger] now[k] == (if k < p {
                before[k]
            } else if k == p {
                i
            } else {
                before[k - 1]
            }) by {}
            assert forall|a2: int, b2: int| 0 <= a2 < b2 < now.len() implies node_key_lt(
                nodes@[#[trigger] now[a2] as int]@,
                nodes@[#[trigger] now[b2] as int]@,
            ) by {
                if b2 < p {
                } else if b2 == p {
                } else if a2 == p {
                    if b2 - 1 > p {
                        lemma_node_key_lt_transitive(
                            nodes@[i as int]@,
                            nodes@[before[p as int] as int]@,
                            nodes@[before[b2 - 1] as int]@,
                        );
                    }
                } else if a2 < p {
                } else {
                }
            }
        }
        i += 1;
    }
    Ok(order)
}

/// Opaque strong entity tag for one exact private saved-view revision.
///
/// A transport boundary can emit it as a quoted `ETag` header and require an exact value in
/// `If-Match`. It is compared only for equality: it is not a topology, ranking, graph content,
/// or numeric revision value. Each successful replacement uses a freshly generated tag.
#[derive(Debug, PartialEq, Eq, PartialOrd, Ord, Hash)]
pub struct GraphViewEtag(PublicId);

impl View for GraphViewEtag {
    type V = Seq<char>;

    closed spec fn view(&self) -> Seq<char> {
        self.0@
    }
}

impl Clone for GraphViewEtag {
    fn clone(&self) -> (r: Self)
        ensures
            r@ == self@,
    {
        GraphViewEtag(self.0.clone())
    }
}

impl GraphViewEtag {
    /// Wraps a generated public identifier as an opaque view-revision tag.
    pub fn new(value: PublicId) -> (r: Self)
        ensures
            r@ == value@,
    {
        GraphViewEtag(value)
    }

    /// Returns the opaque token for exact comparison or HTTP header serialization.
    pub fn as_str(&self) -> (r: &str)
        ensures
            r@ == self@,
    {
        self.0.as_str()
    }

    /// Whether both tags are the same token.
    pub fn same(&self, other: &GraphViewEtag) -> (b: bool)
        ensures
            b == (self@ == other@),
    {
        self.0.same(&other.0)
    }
}

/// Exact optimistic precondition supplied when replacing one saved graph view.
///
/// It is the typed equivalent of a single strong `If-Match` value. Wildcards and weak tags are
/// not representable, so a replacement can proceed only from a snapshot's exact current tag.
#[derive(Debug, Clone, PartialEq, Eq)]
pub struct GraphViewIfMatch(GraphViewEtag);

impl GraphViewIfMatch {
    /// Creates an exact replace precondition from the view's last observed entity tag.
    pub fn new(etag: GraphViewEtag) -> (r: Self)
        ensures
            r.etag_view() == etag@,
    {
        GraphViewIfMatch(etag)
    }

    /// The required tag.
    pub closed spec fn etag_view(&self) -> Seq<char> {
        self.0@
    }

    /// Returns the exact entity tag that must still be current for a replacement to proceed.
    pub fn etag(&self) -> (r: &GraphViewEtag)
        ensures
            r@ == self.etag_view(),
    {
        &self.0
    }
}

/// Checks that a replacement of a saved view whose current tag is `current` issues a fresh tag
/// `next`; reusing the current tag is refused with `ReusedEtag`.
pub fn check_fresh_etag(current: &GraphViewEtag, next: &GraphViewEtag) -> (r: Result<(), GraphViewValidationError>)
    ensures
        current@ == next@ ==> r == Err::<(), _>(GraphViewValidationError::ReusedEtag),
        current@ != next@ ==> r is Ok,
{
    if current.same(next) {
        return Err(GraphViewValidationError::ReusedEtag);
    }
    Ok(())
}

} // verus!
