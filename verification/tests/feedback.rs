use transnet::ports::clock::UtcTimestamp;
use ulid::Ulid;
use transnet::domain::canonical::{CanonicalId};
use transnet::domain::feedback::{AccuracyFeedback, FeedbackIdempotencyKey, FeedbackRequestFingerprint, GraphFeedback, GraphFeedbackEvent, GraphFeedbackTarget, PersonalAccuracy, PersonalGraphFeedback, PersonalUsefulness, UsefulnessFeedback};
use transnet::domain::graph::{GraphEdgeId, RelationVersion};
use transnet::domain::learner::{LearnerId};
use transnet::ports::public_id::{PublicId};

fn event(id_random: u128, feedback: GraphFeedback) -> GraphFeedbackEvent {
    GraphFeedbackEvent::new(
        PublicId::from_ulid(Ulid::from_parts(1_700_000_000_000, id_random).0),
        GraphFeedbackTarget::new(
            GraphEdgeId::stored(CanonicalId::new("edge-1").unwrap()),
            RelationVersion::new(1).unwrap(),
        ),
        feedback,
        UtcTimestamp::from_unix_seconds(id_random as i64),
    )
}

#[test]
fn current_projection_retains_an_unsure_abstention_and_reset_history() {
    let first = event(1, GraphFeedback::Accuracy(AccuracyFeedback::Unsure));
    let mut projection = PersonalGraphFeedback::from_event(&first);
    assert_eq!(projection.accuracy, Some(PersonalAccuracy::Unsure));
    assert_eq!(projection.version, 1);

    let second = event(2, GraphFeedback::Usefulness(UsefulnessFeedback::More));
    projection.apply(&second).unwrap();
    assert_eq!(projection.usefulness, Some(PersonalUsefulness::More));
    assert_eq!(projection.accuracy, Some(PersonalAccuracy::Unsure));
    assert_eq!(projection.version, 2);

    let reset = event(3, GraphFeedback::Accuracy(AccuracyFeedback::Reset));
    projection.apply(&reset).unwrap();
    assert_eq!(projection.accuracy, None);
    assert_eq!(projection.usefulness, Some(PersonalUsefulness::More));
    assert_eq!(projection.version, 3);
}

#[test]
fn learner_owner_and_idempotency_debug_values_are_redacted() {
    let owner = LearnerId::new("principal-hash:learner-1").unwrap();
    let key = FeedbackIdempotencyKey::new([1; 32]);
    let fingerprint = FeedbackRequestFingerprint::new([2; 32]);

    assert!(!owner.redacted_debug().contains("learner-1"));
    assert!(!key.redacted_debug().contains("1"));
    assert!(!fingerprint.redacted_debug().contains("2"));
}
