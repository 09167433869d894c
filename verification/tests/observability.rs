use transnet::domain::observability::{FeedbackOperation, GraphOperation, JobKind, JobLifecycleOutcome, LookupStage, MetricEvent, MetricOutcome, ModelValidationOutcome, PracticeOperation, VectorLagBucket};

fn all_metric_events() -> Vec<MetricEvent> {
    vec![
        MetricEvent::LookupStage {
            stage: LookupStage::RequestValidation,
            outcome: MetricOutcome::Succeeded,
        },
        MetricEvent::LookupStage {
            stage: LookupStage::ContentResolution,
            outcome: MetricOutcome::Degraded,
        },
        MetricEvent::LookupStage {
            stage: LookupStage::CandidateRetrieval,
            outcome: MetricOutcome::Rejected,
        },
        MetricEvent::LookupStage {
            stage: LookupStage::ResponseAssembly,
            outcome: MetricOutcome::Failed,
        },
        MetricEvent::ModelValidation {
            outcome: ModelValidationOutcome::Accepted,
        },
        MetricEvent::ModelValidation {
            outcome: ModelValidationOutcome::Repaired,
        },
        MetricEvent::ModelValidation {
            outcome: ModelValidationOutcome::Rejected,
        },
        MetricEvent::JobLifecycle {
            job: JobKind::Lookup,
            outcome: JobLifecycleOutcome::Enqueued,
        },
        MetricEvent::JobLifecycle {
            job: JobKind::ContentRelease,
            outcome: JobLifecycleOutcome::Leased,
        },
        MetricEvent::JobLifecycle {
            job: JobKind::VectorReconciliation,
            outcome: JobLifecycleOutcome::Completed,
        },
        MetricEvent::JobLifecycle {
            job: JobKind::Lookup,
            outcome: JobLifecycleOutcome::Failed,
        },
        MetricEvent::JobLifecycle {
            job: JobKind::Lookup,
            outcome: JobLifecycleOutcome::Expired,
        },
        MetricEvent::VectorLag {
            bucket: VectorLagBucket::InSync,
        },
        MetricEvent::VectorLag {
            bucket: VectorLagBucket::UnderFiveMinutes,
        },
        MetricEvent::VectorLag {
            bucket: VectorLagBucket::UnderOneHour,
        },
        MetricEvent::VectorLag {
            bucket: VectorLagBucket::OneHourOrMore,
        },
        MetricEvent::VectorLag {
            bucket: VectorLagBucket::Unavailable,
        },
        MetricEvent::GraphOperation {
            operation: GraphOperation::NodeRead,
            outcome: MetricOutcome::Succeeded,
        },
        MetricEvent::GraphOperation {
            operation: GraphOperation::NeighborExpansion,
            outcome: MetricOutcome::Degraded,
        },
        MetricEvent::GraphOperation {
            operation: GraphOperation::Traversal,
            outcome: MetricOutcome::Failed,
        },
        MetricEvent::FeedbackOperation {
            operation: FeedbackOperation::Submission,
            outcome: MetricOutcome::Succeeded,
        },
        MetricEvent::FeedbackOperation {
            operation: FeedbackOperation::ProjectionRead,
            outcome: MetricOutcome::Rejected,
        },
        MetricEvent::PracticeOperation {
            operation: PracticeOperation::ItemClaim,
            outcome: MetricOutcome::Succeeded,
        },
        MetricEvent::PracticeOperation {
            operation: PracticeOperation::AttemptSubmission,
            outcome: MetricOutcome::Rejected,
        },
        MetricEvent::PracticeOperation {
            operation: PracticeOperation::Scheduling,
            outcome: MetricOutcome::Failed,
        },
    ]
}

#[test]
fn covers_every_required_metric_series_with_stable_names() {
    let names = all_metric_events()
        .into_iter()
        .map(|event| event.metric_name().as_str())
        .collect::<std::collections::BTreeSet<_>>();

    assert_eq!(
        names,
        std::collections::BTreeSet::from([
            "transnet_feedback_operation_total",
            "transnet_graph_operation_total",
            "transnet_job_lifecycle_total",
            "transnet_lookup_stage_total",
            "transnet_model_validation_total",
            "transnet_practice_operation_total",
            "transnet_vector_lag_state_total",
        ])
    );
}

#[test]
fn emits_only_closed_static_labels_without_private_content() {
    let protected_values = [
        "private lookup query",
        "private surrounding context",
        "private learner answer",
        "private bearer token",
        "private learner identity",
    ];
    let protected_label_terms = ["query", "context", "answer", "token", "identity", "user"];

    let mut emitted = Vec::new();
    for event in all_metric_events() {
        emitted.push(("metric", event.metric_name().as_str()));
        let attributes = event.attributes();
        emitted.extend(
            attributes
                .labels()
                .iter()
                .map(|label| (label.key(), label.value())),
        );
    }

    assert!(emitted.iter().all(|(key, value)| {
        protected_values
            .iter()
            .all(|protected| !key.contains(protected) && !value.contains(protected))
    }));
    assert!(emitted.iter().all(|(key, _)| {
        protected_label_terms
            .iter()
            .all(|protected| !key.contains(protected))
    }));
    assert!(emitted.iter().all(|(_, value)| {
        protected_label_terms
            .iter()
            .all(|protected| !value.contains(protected))
    }));
}

#[test]
fn debug_output_cannot_include_values_that_events_do_not_accept() {
    let protected_values = [
        "query=water",
        "context=private sentence",
        "answer=private response",
        "token=credential",
        "identity=learner-123",
    ];
    let output = all_metric_events()
        .into_iter()
        .map(|event| format!("{event:?}{:?}", event.attributes()))
        .collect::<String>();

    assert!(protected_values
        .iter()
        .all(|protected| !output.contains(protected)));
}
