use transnet::domain::canonical::{ActiveContentVersion, CanonicalId};
use transnet::domain::content_release::{ContentReleaseDraft, ContentReleaseGate, ContentReleaseGatePolicy, ContentReleaseGateResult, ContentReleaseValidationError, ContentReleaseValidationState, VectorCollectionBuild};

fn id(value: &str) -> CanonicalId {
    CanonicalId::new(value).unwrap()
}

fn content(release_id: &str, vector_collection_id: &str) -> ActiveContentVersion {
    ActiveContentVersion {
        release_id: id(release_id),
        vector_collection_id: id(vector_collection_id),
        schema_version: "canonical-v1".to_string(),
        ranking_version: "lookup-rank-v1".to_string(),
    }
}

fn draft(release_id: &str) -> ContentReleaseDraft {
    ContentReleaseDraft::new(
        id(release_id),
        "manifest-sha256",
        content(release_id, "vectors-1"),
        vec![id("source-1")],
        ContentReleaseGatePolicy::strict(),
    )
    .unwrap()
}

#[test]
fn draft_rejects_mismatched_content_tuple_and_empty_policy() {
    let mismatched = ContentReleaseDraft::new(
        id("release-1"),
        "manifest-sha256",
        content("release-2", "vectors-1"),
        vec![id("source-1")],
        ContentReleaseGatePolicy::strict(),
    );
    assert_eq!(
        mismatched.unwrap_err(),
        ContentReleaseValidationError::ReleaseIdMismatch
    );

    assert_eq!(
        ContentReleaseGatePolicy::new(vec![]).unwrap_err(),
        ContentReleaseValidationError::NoRequiredGates
    );
}

#[test]
fn release_requires_all_gates_and_an_expected_vector_record_count() {
    let mut release = draft("release-1").into_release();
    assert_eq!(
        release.ensure_publishable(),
        Err(ContentReleaseValidationError::RequiredGatesPending)
    );

    for gate in release.gate_policy().required_gates().clone() {
        release
            .record_gate_result(gate, ContentReleaseGateResult::Passed)
            .unwrap();
    }
    let build = VectorCollectionBuild::new(content("release-1", "vectors-1"), 4).unwrap();
    release.begin_vector_build(build).unwrap();
    assert_eq!(
        release.reconcile_vector_build(3),
        Err(
            ContentReleaseValidationError::VectorReconciliationMismatch {
                expected: 4,
                indexed: 3,
            }
        )
    );
    assert_eq!(
        release.ensure_publishable(),
        Err(ContentReleaseValidationError::VectorBuildNotReady)
    );

    release.reconcile_vector_build(4).unwrap();
    assert_eq!(
        release.validation_state(),
        ContentReleaseValidationState::Passed
    );
    assert_eq!(release.ensure_publishable(), Ok(()));
}

#[test]
fn published_release_refuses_staging_mutations() {
    let mut release = draft("release-1").into_release();
    for gate in release.gate_policy().required_gates().clone() {
        release
            .record_gate_result(gate, ContentReleaseGateResult::Passed)
            .unwrap();
    }
    release
        .begin_vector_build(VectorCollectionBuild::new(content("release-1", "vectors-1"), 1).unwrap())
        .unwrap();
    release.reconcile_vector_build(1).unwrap();
    release.mark_published(None).unwrap();

    assert_eq!(
        release.record_gate_result(ContentReleaseGate::Safety, ContentReleaseGateResult::Passed,),
        Err(ContentReleaseValidationError::ReleaseNotStaging)
    );
}

#[test]
fn staged_release_starts_pending_with_no_results() {
    let staged = draft("release-1");
    let release = staged.clone().into_release();
    assert_eq!(release.id(), staged.release_id());
    assert_eq!(release.active_content_version(), staged.active_content_version());
    assert_eq!(release.source_ids(), staged.source_ids());
    assert_eq!(release.gate_policy(), staged.gate_policy());
    assert_eq!(release.release().status, transnet::domain::canonical::ReleaseStatus::Staging);
    assert!(release.release().rollback_predecessor.is_none());
    for gate in [
        ContentReleaseGate::StructuralIntegrity,
        ContentReleaseGate::SourcePermissions,
        ContentReleaseGate::VectorReconciliation,
        ContentReleaseGate::RetrievalEvaluation,
        ContentReleaseGate::HumanReview,
        ContentReleaseGate::Safety,
    ] {
        assert_eq!(release.gate_result(gate), None);
    }
    assert!(release.vector_build().is_none());
    assert_eq!(release.validation_state(), ContentReleaseValidationState::Pending);

    let single = ContentReleaseDraft::new(
        id("release-2"),
        "manifest-sha256",
        content("release-2", "vectors-1"),
        vec![id("source-1")],
        ContentReleaseGatePolicy::new(vec![ContentReleaseGate::Safety]).unwrap(),
    )
    .unwrap()
    .into_release();
    assert_eq!(single.validation_state(), ContentReleaseValidationState::Pending);
}

#[test]
fn cloned_policy_requires_the_same_gates() {
    let policy = ContentReleaseGatePolicy::new(vec![ContentReleaseGate::Safety, ContentReleaseGate::HumanReview]).unwrap();
    let copy = policy.clone();
    assert_eq!(copy, policy);
    assert_eq!(copy.required_gates(), &vec![ContentReleaseGate::HumanReview, ContentReleaseGate::Safety]);
}
