use transnet::domain::canonical::CanonicalId;
use transnet::domain::graph::{GraphNodeKey, GraphNodeKind};
use transnet::domain::graph_view::{
    check_fresh_etag, position_order, GraphViewEtag, GraphViewValidationError, MAX_SAVED_GRAPH_VIEW_POSITIONS,
};
use transnet::ports::public_id::PublicId;
use ulid::Ulid;

fn public_id(random: u128) -> PublicId {
    PublicId::from_ulid(Ulid::from_parts(1_700_000_000_000, random).0)
}

fn node(value: &str) -> GraphNodeKey {
    GraphNodeKey::new(GraphNodeKind::Sense, CanonicalId::new(value).unwrap())
}

#[test]
fn position_collections_are_bounded_unique_and_deterministically_ordered() {
    assert_eq!(
        position_order(&vec![node("b"), node("b")]),
        Err(GraphViewValidationError::DuplicateNodePosition)
    );

    let nodes = (0..=MAX_SAVED_GRAPH_VIEW_POSITIONS)
        .map(|index| node(&format!("node-{index}")))
        .collect();
    assert_eq!(position_order(&nodes), Err(GraphViewValidationError::TooManyPositions));

    let unordered = vec![node("z"), node("a")];
    let order = position_order(&unordered).unwrap();
    assert_eq!(unordered[order[0]].id.as_str(), "a");
    assert_eq!(unordered[order[1]].id.as_str(), "z");
}

#[test]
fn replacement_requires_a_fresh_opaque_etag() {
    let etag = GraphViewEtag::new(public_id(1));
    assert_eq!(check_fresh_etag(&etag, &etag.clone()), Err(GraphViewValidationError::ReusedEtag));
    let next = GraphViewEtag::new(public_id(3));
    assert_eq!(check_fresh_etag(&etag, &next), Ok(()));
    assert_ne!(next.as_str(), etag.as_str());
}

#[test]
fn position_order_keeps_kinds_before_identifiers() {
    let nodes = vec![
        GraphNodeKey::new(GraphNodeKind::Scale, CanonicalId::new("a").unwrap()),
        node("b"),
        node("a"),
    ];
    let order = position_order(&nodes).unwrap();
    let kept: Vec<(GraphNodeKind, &str)> = order.iter().map(|&i| (nodes[i].kind, nodes[i].id.as_str())).collect();
    assert_eq!(kept.len(), 3);
    assert!(kept.windows(2).all(|pair| pair[0] < pair[1]));
}
