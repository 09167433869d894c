use transnet::domain::canonical::{CanonicalId, EvidenceConfidence};
use transnet::domain::graph::{DEFAULT_GRAPH_EDGE_LIMIT, DEFAULT_GRAPH_NODE_LIMIT, GraphEdgeId, GraphEdgeOrigin, GraphEvidence, GraphFeedbackCapability, GraphFeedbackCapabilitySet, GraphFilter, GraphNeighborRequest, GraphNodeKey, GraphNodeKind, GraphRanking, GraphReadRequest, GraphRelationType, GraphScope, GraphScore, GraphScoreComponents, MAX_GRAPH_DEPTH, MAX_GRAPH_EDGE_LIMIT, MAX_GRAPH_NODE_LIMIT, RelationVersion, SemanticScale, SemanticScaleMember, StoredGraphRelation, compare_graph_edges};

fn id(value: &str) -> CanonicalId {
    CanonicalId::new(value).unwrap()
}

fn key(value: &str) -> GraphNodeKey {
    GraphNodeKey::new(GraphNodeKind::Sense, id(value))
}

fn evidence() -> GraphEvidence {
    GraphEvidence::new(vec![id("evidence-1")], EvidenceConfidence::High).unwrap()
}

fn ranking(score: u16) -> GraphRanking {
    GraphRanking {
        display_rank: GraphScore::new(score).unwrap(),
        components: GraphScoreComponents {
            evidence: GraphScore::new(score).unwrap(),
            community: None,
            pedagogical: None,
        },
        ranking_version: "graph-rank-v1".to_string(),
    }
}

fn relation(relation_type: GraphRelationType) -> StoredGraphRelation {
    StoredGraphRelation {
        edge_id: GraphEdgeId::stored(id("edge-1")),
        relation_version: RelationVersion::new(1).unwrap(),
        source: key("sense-a"),
        target: key("sense-b"),
        relation_type,
        evidence: evidence(),
        scope: GraphScope::default(),
        feedback_capabilities: GraphFeedbackCapabilitySet::from_capabilities(&[GraphFeedbackCapability::Accuracy]),
        ranking: ranking(9_000),
    }
}

#[test]
fn edge_id_parsing_accepts_stored_and_derived_public_identifiers() {
    assert_eq!(
        GraphEdgeId::parse("derived:scale:release-1:temperature:warm:hot")
            .unwrap()
            .as_str(),
        "derived:scale:release-1:temperature:warm:hot"
    );
    assert!(GraphEdgeId::parse("   ").is_err());
}

#[test]
fn inverse_projection_preserves_relation_version_and_feedback_capability() {
    let edge = relation(GraphRelationType::Hypernym)
        .project_from(&key("sense-b"))
        .unwrap();

    assert_eq!(edge.source, key("sense-b"));
    assert_eq!(edge.target, key("sense-a"));
    assert_eq!(edge.relation_type, GraphRelationType::Hyponym);
    assert_eq!(
        edge.relation_version,
        Some(RelationVersion::new(1).unwrap())
    );
    assert!(edge.accepts_feedback());
    assert_eq!(edge.origin, GraphEdgeOrigin::InverseProjection);
}

#[test]
fn scale_projection_is_derived_and_never_feedback_enabled() {
    let scale = SemanticScale {
        id: id("temperature"),
        release_id: id("release-1"),
        label: "temperature".to_string(),
        scope: GraphScope::default(),
        evidence: evidence(),
        members: vec![
            SemanticScaleMember {
                sense: key("warm"),
                ordinal: 1,
                evidence: evidence(),
            },
            SemanticScaleMember {
                sense: key("hot"),
                ordinal: 2,
                evidence: evidence(),
            },
        ],
        ranking: ranking(8_000),
    };

    let edge = scale.project_from(&key("warm")).pop().unwrap();

    assert_eq!(edge.relation_type, GraphRelationType::HigherDegree);
    assert_eq!(edge.relation_version, None);
    assert!(edge.feedback_capabilities.is_empty());
    assert!(!edge.accepts_feedback());
    assert!(matches!(
        edge.origin,
        GraphEdgeOrigin::ScaleAdjacency { .. }
    ));
}

#[test]
fn scale_root_projects_ordered_non_feedback_memberships() {
    let scale = SemanticScale {
        id: id("temperature"),
        release_id: id("release-1"),
        label: "temperature".to_string(),
        scope: GraphScope::default(),
        evidence: evidence(),
        members: vec![
            SemanticScaleMember {
                sense: key("hot"),
                ordinal: 2,
                evidence: evidence(),
            },
            SemanticScaleMember {
                sense: key("warm"),
                ordinal: 1,
                evidence: evidence(),
            },
        ],
        ranking: ranking(8_000),
    };
    let root = GraphNodeKey::new(GraphNodeKind::Scale, id("temperature"));
    let edges = scale.project_from(&root);

    assert_eq!(edges.len(), 2);
    assert_eq!(edges[0].target, key("warm"));
    assert_eq!(edges[1].target, key("hot"));
    assert!(edges.iter().all(|edge| {
        edge.source == root
            && edge.relation_type == GraphRelationType::ScaleContains
            && edge.relation_version.is_none()
            && !edge.accepts_feedback()
            && matches!(&edge.origin, GraphEdgeOrigin::ScaleMembership { .. })
    }));
}

#[test]
fn graph_request_rejects_unbounded_values() {
    assert!(GraphReadRequest::new(
        key("root"),
        MAX_GRAPH_DEPTH + 1,
        DEFAULT_GRAPH_NODE_LIMIT,
        DEFAULT_GRAPH_EDGE_LIMIT,
        GraphFilter::default(),
    )
    .is_err());
    assert!(GraphReadRequest::new(
        key("root"),
        1,
        MAX_GRAPH_NODE_LIMIT + 1,
        DEFAULT_GRAPH_EDGE_LIMIT,
        GraphFilter::default(),
    )
    .is_err());
    assert!(GraphNeighborRequest::new(
        key("root"),
        1,
        DEFAULT_GRAPH_EDGE_LIMIT,
        GraphFilter::default(),
        None,
    )
    .is_err());
    assert!(GraphNeighborRequest::new(
        key("root"),
        DEFAULT_GRAPH_NODE_LIMIT,
        MAX_GRAPH_EDGE_LIMIT + 1,
        GraphFilter::default(),
        None,
    )
    .is_err());
}

#[test]
fn edge_ordering_is_descending_then_stable() {
    let mut later = relation(GraphRelationType::Hypernym)
        .project_from(&key("sense-a"))
        .unwrap();
    later.id = GraphEdgeId::stored(id("edge-z"));
    let earlier = relation(GraphRelationType::Hypernym)
        .project_from(&key("sense-a"))
        .unwrap();
    let mut edges = [later, earlier];

    edges.sort_by(compare_graph_edges);

    assert_eq!(edges[0].id.as_str(), "edge-1");
}
