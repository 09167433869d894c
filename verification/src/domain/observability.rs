//! Closed, redacted metric events for backend observability.
//!
//! This catalog names the operational signals of the backend without defining an exporter,
//! trace backend, retention policy, or alert thresholds. Metric events carry only fixed enum
//! dimensions. They cannot carry raw queries, contexts, answers, credentials or other tokens,
//! identities, or free-form attribute keys and values.

use vstd::prelude::*;

verus! {

/// Stable metric names for backend operational signals.
///
/// Names are exporter-neutral Prometheus-compatible identifiers. Counter and state names are
/// separated so an adapter cannot mistake a categorical state for a numeric measurement.
#[derive(Debug, Clone, Copy, PartialEq, Eq, PartialOrd, Ord, Hash, Structural)]
pub enum MetricName {
    /// Count of bounded lookup-stage outcomes.
    LookupStageTotal,
    /// Count of learning-model contract-validation outcomes.
    ModelValidationTotal,
    /// Count of durable-job lifecycle transitions.
    JobLifecycleTotal,
    /// Count of categorical vector-reconciliation lag observations.
    VectorLagStateTotal,
    /// Count of graph-read operation outcomes.
    GraphOperationTotal,
    /// Count of private feedback operation outcomes without owner labels.
    FeedbackOperationTotal,
    /// Count of practice operation outcomes without learner labels.
    PracticeOperationTotal,
}

/// The fixed text of `x`.
pub open spec fn metric_name_text(x: MetricName) -> &'static str {
    match x {
        MetricName::LookupStageTotal => "transnet_lookup_stage_total",
        MetricName::ModelValidationTotal => "transnet_model_validation_total",
        MetricName::JobLifecycleTotal => "transnet_job_lifecycle_total",
        MetricName::VectorLagStateTotal => "transnet_vector_lag_state_total",
        MetricName::GraphOperationTotal => "transnet_graph_operation_total",
        MetricName::FeedbackOperationTotal => "transnet_feedback_operation_total",
        MetricName::PracticeOperationTotal => "transnet_practice_operation_total",
    }
}

impl MetricName {
    /// Returns the fixed exporter-facing metric identifier.
    pub fn as_str(self) -> (r: &'static str)
        ensures
            r == metric_name_text(self),
    {
        match self {
            MetricName::LookupStageTotal => "transnet_lookup_stage_total",
            MetricName::ModelValidationTotal => "transnet_model_validation_total",
            MetricName::JobLifecycleTotal => "transnet_job_lifecycle_total",
            MetricName::VectorLagStateTotal => "transnet_vector_lag_state_total",
            MetricName::GraphOperationTotal => "transnet_graph_operation_total",
            MetricName::FeedbackOperationTotal => "transnet_feedback_operation_total",
            MetricName::PracticeOperationTotal => "transnet_practice_operation_total",
        }
    }
}

/// A bounded stage in a lookup attempt.
#[derive(Debug, Clone, Copy, PartialEq, Eq, PartialOrd, Ord, Hash, Structural)]
pub enum LookupStage {
    /// Request parsing and bounded input validation.
    RequestValidation,
    /// Selection of the immutable canonical content version.
    ContentResolution,
    /// Canonical lexical and vector candidate retrieval.
    CandidateRetrieval,
    /// Public-card or response assembly from retrieved candidates.
    ResponseAssembly,
}

/// The fixed text of `x`.
pub open spec fn lookup_stage_label(x: LookupStage) -> &'static str {
    match x {
        LookupStage::RequestValidation => "request_validation",
        LookupStage::ContentResolution => "content_resolution",
        LookupStage::CandidateRetrieval => "candidate_retrieval",
        LookupStage::ResponseAssembly => "response_assembly",
    }
}

impl LookupStage {
    /// Returns the fixed label value.
    fn as_label(self) -> (r: &'static str)
        ensures
            r == lookup_stage_label(self),
    {
        match self {
            LookupStage::RequestValidation => "request_validation",
            LookupStage::ContentResolution => "content_resolution",
            LookupStage::CandidateRetrieval => "candidate_retrieval",
            LookupStage::ResponseAssembly => "response_assembly",
        }
    }
}

/// A safe categorical outcome shared by bounded backend operations.
#[derive(Debug, Clone, Copy, PartialEq, Eq, PartialOrd, Ord, Hash, Structural)]
pub enum MetricOutcome {
    /// The operation completed with its normal contract.
    Succeeded,
    /// The operation returned a documented reduced-capability result.
    Degraded,
    /// Validation or policy rejected the operation before it completed.
    Rejected,
    /// A dependency or internal failure prevented completion.
    Failed,
}

/// The fixed text of `x`.
pub open spec fn outcome_label(x: MetricOutcome) -> &'static str {
    match x {
        MetricOutcome::Succeeded => "succeeded",
        MetricOutcome::Degraded => "degraded",
        MetricOutcome::Rejected => "rejected",
        MetricOutcome::Failed => "failed",
    }
}

impl MetricOutcome {
    /// Returns the fixed label value.
    fn as_label(self) -> (r: &'static str)
        ensures
            r == outcome_label(self),
    {
        match self {
            MetricOutcome::Succeeded => "succeeded",
            MetricOutcome::Degraded => "degraded",
            MetricOutcome::Rejected => "rejected",
            MetricOutcome::Failed => "failed",
        }
    }
}

/// A bounded result of validating a structured learning-model response.
#[derive(Debug, Clone, Copy, PartialEq, Eq, PartialOrd, Ord, Hash, Structural)]
pub enum ModelValidationOutcome {
    /// The first model response satisfied the typed contract.
    Accepted,
    /// A bounded repair path produced a valid typed response.
    Repaired,
    /// The response remained invalid after permitted validation and repair work.
    Rejected,
}

/// The fixed text of `x`.
pub open spec fn model_validation_label(x: ModelValidationOutcome) -> &'static str {
    match x {
        ModelValidationOutcome::Accepted => "accepted",
        ModelValidationOutcome::Repaired => "repaired",
        ModelValidationOutcome::Rejected => "rejected",
    }
}

impl ModelValidationOutcome {
    /// Returns the fixed label value.
    fn as_label(self) -> (r: &'static str)
        ensures
            r == model_validation_label(self),
    {
        match self {
            ModelValidationOutcome::Accepted => "accepted",
            ModelValidationOutcome::Repaired => "repaired",
            ModelValidationOutcome::Rejected => "rejected",
        }
    }
}

/// A durable job family with operationally safe names.
#[derive(Debug, Clone, Copy, PartialEq, Eq, PartialOrd, Ord, Hash, Structural)]
pub enum JobKind {
    /// A private asynchronous lookup job.
    Lookup,
    /// An immutable content-release workflow job.
    ContentRelease,
    /// A derived vector reconciliation job.
    VectorReconciliation,
}

/// The fixed text of `x`.
pub open spec fn job_kind_label(x: JobKind) -> &'static str {
    match x {
        JobKind::Lookup => "lookup",
        JobKind::ContentRelease => "content_release",
        JobKind::VectorReconciliation => "vector_reconciliation",
    }
}

impl JobKind {
    /// Returns the fixed label value.
    fn as_label(self) -> (r: &'static str)
        ensures
            r == job_kind_label(self),
    {
        match self {
            JobKind::Lookup => "lookup",
            JobKind::ContentRelease => "content_release",
            JobKind::VectorReconciliation => "vector_reconciliation",
        }
    }
}

/// A durable job lifecycle outcome.
#[derive(Debug, Clone, Copy, PartialEq, Eq, PartialOrd, Ord, Hash, Structural)]
pub enum JobLifecycleOutcome {
    /// The job was accepted for later processing.
    Enqueued,
    /// A worker obtained a bounded lease for the job.
    Leased,
    /// The job completed successfully.
    Completed,
    /// The job ended with a recoverable or terminal failure.
    Failed,
    /// The job became unavailable because its deadline or lease expired.
    Expired,
}

/// The fixed text of `x`.
pub open spec fn job_outcome_label(x: JobLifecycleOutcome) -> &'static str {
    match x {
        JobLifecycleOutcome::Enqueued => "enqueued",
        JobLifecycleOutcome::Leased => "leased",
        JobLifecycleOutcome::Completed => "completed",
        JobLifecycleOutcome::Failed => "failed",
        JobLifecycleOutcome::Expired => "expired",
    }
}

impl JobLifecycleOutcome {
    /// Returns the fixed label value.
    fn as_label(self) -> (r: &'static str)
        ensures
            r == job_outcome_label(self),
    {
        match self {
            JobLifecycleOutcome::Enqueued => "enqueued",
            JobLifecycleOutcome::Leased => "leased",
            JobLifecycleOutcome::Completed => "completed",
            JobLifecycleOutcome::Failed => "failed",
            JobLifecycleOutcome::Expired => "expired",
        }
    }
}

/// A bounded categorical bucket for vector-index reconciliation lag.
///
/// The catalog uses a bucket rather than a raw release identifier, collection identifier, query,
/// or embedding payload. An exporter may map these categories to its own safe numeric monitoring
/// model later.
#[derive(Debug, Clone, Copy, PartialEq, Eq, PartialOrd, Ord, Hash, Structural)]
pub enum VectorLagBucket {
    /// The active vector collection is reconciled with the active content release.
    InSync,
    /// Reconciliation is behind but within a short operational window.
    UnderFiveMinutes,
    /// Reconciliation is behind beyond the short window but below an hour.
    UnderOneHour,
    /// Reconciliation is behind by at least an hour.
    OneHourOrMore,
    /// Reconciliation could not be assessed or failed safely.
    Unavailable,
}

/// The fixed text of `x`.
pub open spec fn lag_bucket_label(x: VectorLagBucket) -> &'static str {
    match x {
        VectorLagBucket::InSync => "in_sync",
        VectorLagBucket::UnderFiveMinutes => "under_five_minutes",
        VectorLagBucket::UnderOneHour => "under_one_hour",
        VectorLagBucket::OneHourOrMore => "one_hour_or_more",
        VectorLagBucket::Unavailable => "unavailable",
    }
}

impl VectorLagBucket {
    /// Returns the fixed label value.
    fn as_label(self) -> (r: &'static str)
        ensures
            r == lag_bucket_label(self),
    {
        match self {
            VectorLagBucket::InSync => "in_sync",
            VectorLagBucket::UnderFiveMinutes => "under_five_minutes",
            VectorLagBucket::UnderOneHour => "under_one_hour",
            VectorLagBucket::OneHourOrMore => "one_hour_or_more",
            VectorLagBucket::Unavailable => "unavailable",
        }
    }
}

/// A read-only graph operation.
#[derive(Debug, Clone, Copy, PartialEq, Eq, PartialOrd, Ord, Hash, Structural)]
pub enum GraphOperation {
    /// Read one graph node by its public identifier.
    NodeRead,
    /// Read bounded neighboring edges and nodes.
    NeighborExpansion,
    /// Perform a bounded breadth-first traversal.
    Traversal,
}

/// The fixed text of `x`.
pub open spec fn graph_operation_label(x: GraphOperation) -> &'static str {
    match x {
        GraphOperation::NodeRead => "node_read",
        GraphOperation::NeighborExpansion => "neighbor_expansion",
        GraphOperation::Traversal => "traversal",
    }
}

impl GraphOperation {
    /// Returns the fixed label value.
    fn as_label(self) -> (r: &'static str)
        ensures
            r == graph_operation_label(self),
    {
        match self {
            GraphOperation::NodeRead => "node_read",
            GraphOperation::NeighborExpansion => "neighbor_expansion",
            GraphOperation::Traversal => "traversal",
        }
    }
}

/// A private graph-feedback operation without an owner or edge identifier label.
#[derive(Debug, Clone, Copy, PartialEq, Eq, PartialOrd, Ord, Hash, Structural)]
pub enum FeedbackOperation {
    /// Validate and append one private feedback event.
    Submission,
    /// Read one private current projection.
    ProjectionRead,
}

/// The fixed text of `x`.
pub open spec fn feedback_operation_label(x: FeedbackOperation) -> &'static str {
    match x {
        FeedbackOperation::Submission => "submission",
        FeedbackOperation::ProjectionRead => "projection_read",
    }
}

impl FeedbackOperation {
    /// Returns the fixed label value.
    fn as_label(self) -> (r: &'static str)
        ensures
            r == feedback_operation_label(self),
    {
        match self {
            FeedbackOperation::Submission => "submission",
            FeedbackOperation::ProjectionRead => "projection_read",
        }
    }
}

/// A future private practice operation without learner or answer labels.
#[derive(Debug, Clone, Copy, PartialEq, Eq, PartialOrd, Ord, Hash, Structural)]
pub enum PracticeOperation {
    /// Claim one outstanding or scheduled practice item.
    ItemClaim,
    /// Submit one already-owned practice attempt.
    AttemptSubmission,
    /// Schedule or reschedule a private practice item.
    Scheduling,
}

/// The fixed text of `x`.
pub open spec fn practice_operation_label(x: PracticeOperation) -> &'static str {
    match x {
        PracticeOperation::ItemClaim => "item_claim",
        PracticeOperation::AttemptSubmission => "attempt_submission",
        PracticeOperation::Scheduling => "scheduling",
    }
}

impl PracticeOperation {
    /// Returns the fixed label value.
    fn as_label(self) -> (r: &'static str)
        ensures
            r == practice_operation_label(self),
    {
        match self {
            PracticeOperation::ItemClaim => "item_claim",
            PracticeOperation::AttemptSubmission => "attempt_submission",
            PracticeOperation::Scheduling => "scheduling",
        }
    }
}
/// One closed metric event accepted by the metrics port.
///
/// Every variant contains only typed categorical values. There is no generic constructor, label
/// map, `String`, byte payload, number, owner, request, answer, or token field, so callers cannot
/// attach private text or identity data to ordinary telemetry.
#[derive(Debug, Clone, Copy, PartialEq, Eq, PartialOrd, Ord, Hash, Structural)]
pub enum MetricEvent {
    /// One bounded lookup-stage outcome.
    LookupStage {
        /// Stage completed or attempted.
        stage: LookupStage,
        /// Safe categorical result.
        outcome: MetricOutcome,
    },
    /// One structured learning-model validation outcome.
    ModelValidation {
        /// Safe categorical validation result.
        outcome: ModelValidationOutcome,
    },
    /// One durable job lifecycle transition.
    JobLifecycle {
        /// Operational job family.
        job: JobKind,
        /// Safe lifecycle transition.
        outcome: JobLifecycleOutcome,
    },
    /// One vector-release reconciliation lag bucket.
    VectorLag {
        /// Safe lag category rather than a raw release or collection identifier.
        bucket: VectorLagBucket,
    },
    /// One bounded graph-read outcome.
    GraphOperation {
        /// Read-only graph operation.
        operation: GraphOperation,
        /// Safe categorical result.
        outcome: MetricOutcome,
    },
    /// One private graph-feedback operation outcome.
    FeedbackOperation {
        /// Private operation family without owner or target labels.
        operation: FeedbackOperation,
        /// Safe categorical result.
        outcome: MetricOutcome,
    },
    /// One private practice operation outcome.
    PracticeOperation {
        /// Private operation family without learner or answer labels.
        operation: PracticeOperation,
        /// Safe categorical result.
        outcome: MetricOutcome,
    },
}

/// The metric series of `e`.
pub open spec fn event_metric_name(e: MetricEvent) -> MetricName {
    match e {
        MetricEvent::LookupStage { .. } => MetricName::LookupStageTotal,
        MetricEvent::ModelValidation { .. } => MetricName::ModelValidationTotal,
        MetricEvent::JobLifecycle { .. } => MetricName::JobLifecycleTotal,
        MetricEvent::VectorLag { .. } => MetricName::VectorLagStateTotal,
        MetricEvent::GraphOperation { .. } => MetricName::GraphOperationTotal,
        MetricEvent::FeedbackOperation { .. } => MetricName::FeedbackOperationTotal,
        MetricEvent::PracticeOperation { .. } => MetricName::PracticeOperationTotal,
    }
}

/// The fixed label pairs of `e`, keys first, in order.
pub open spec fn event_labels(e: MetricEvent) -> Seq<(&'static str, &'static str)> {
    match e {
        MetricEvent::LookupStage { stage, outcome } => seq![("stage", lookup_stage_label(stage)), ("outcome", outcome_label(outcome))],
        MetricEvent::ModelValidation { outcome } => seq![("outcome", model_validation_label(outcome))],
        MetricEvent::JobLifecycle { job, outcome } => seq![("job", job_kind_label(job)), ("outcome", job_outcome_label(outcome))],
        MetricEvent::VectorLag { bucket } => seq![("lag_bucket", lag_bucket_label(bucket))],
        MetricEvent::GraphOperation { operation, outcome } => seq![("operation", graph_operation_label(operation)), ("outcome", outcome_label(outcome))],
        MetricEvent::FeedbackOperation { operation, outcome } => seq![("operation", feedback_operation_label(operation)), ("outcome", outcome_label(outcome))],
        MetricEvent::PracticeOperation { operation, outcome } => seq![("operation", practice_operation_label(operation)), ("outcome", outcome_label(outcome))],
    }
}

/// One fixed metric label pair.
#[derive(Debug, Clone, Copy, PartialEq, Eq, PartialOrd, Ord, Hash)]
pub struct MetricLabel {
    key: &'static str,
    value: &'static str,
}

impl View for MetricLabel {
    type V = (&'static str, &'static str);

    closed spec fn view(&self) -> (&'static str, &'static str) {
        (self.key, self.value)
    }
}

impl MetricLabel {
    fn new(key: &'static str, value: &'static str) -> (r: Self)
        ensures
            r@ == (key, value),
    {
        MetricLabel { key, value }
    }

    /// Returns the fixed label key.
    pub fn key(self) -> (r: &'static str)
        ensures
            r == self@.0,
    {
        self.key
    }

    /// Returns the fixed categorical label value.
    pub fn value(self) -> (r: &'static str)
        ensures
            r == self@.1,
    {
        self.value
    }
}

/// Fixed labels emitted with one metric event.
///
/// The label list can only be created by `MetricEvent::attributes`. Its values are static enum
/// labels, never caller-provided data.
#[derive(Debug, Clone, PartialEq, Eq)]
pub struct MetricAttributes {
    labels: Vec<MetricLabel>,
}

impl MetricAttributes {
    /// The label pairs, in order.
    pub closed spec fn spec_labels(&self) -> Seq<(&'static str, &'static str)> {
        self.labels@.map_values(|l: MetricLabel| l@)
    }

    /// Returns the fixed label pairs for exporter adaptation or deterministic inspection.
    pub fn labels(&self) -> (r: &[MetricLabel])
        ensures
            r@.map_values(|l: MetricLabel| l@) == self.spec_labels(),
    {
        self.labels.as_slice()
    }
}

impl MetricEvent {
    /// Returns the metric series to which this event belongs.
    pub fn metric_name(self) -> (r: MetricName)
        ensures
            r == event_metric_name(self),
    {
        match self {
            MetricEvent::LookupStage { .. } => MetricName::LookupStageTotal,
            MetricEvent::ModelValidation { .. } => MetricName::ModelValidationTotal,
            MetricEvent::JobLifecycle { .. } => MetricName::JobLifecycleTotal,
            MetricEvent::VectorLag { .. } => MetricName::VectorLagStateTotal,
            MetricEvent::GraphOperation { .. } => MetricName::GraphOperationTotal,
            MetricEvent::FeedbackOperation { .. } => MetricName::FeedbackOperationTotal,
            MetricEvent::PracticeOperation { .. } => MetricName::PracticeOperationTotal,
        }
    }

    /// Returns only the fixed metric labels of this event.
    ///
    /// The returned value has no public constructor and its labels have private fields, so
    /// callers cannot add free-form query, context, answer, token, identity, or credential
    /// values.
    pub fn attributes(self) -> (r: MetricAttributes)
        ensures
            r.spec_labels() == event_labels(self),
    {
        let mut labels: Vec<MetricLabel> = Vec::new();
        match self {
            MetricEvent::LookupStage { stage, outcome } => {
                labels.push(MetricLabel::new("stage", stage.as_label()));
                labels.push(MetricLabel::new("outcome", outcome.as_label()));
            },
            MetricEvent::ModelValidation { outcome } => {
                labels.push(MetricLabel::new("outcome", outcome.as_label()));
            },
            MetricEvent::JobLifecycle { job, outcome } => {
                labels.push(MetricLabel::new("job", job.as_label()));
                labels.push(MetricLabel::new("outcome", outcome.as_label()));
            },
            MetricEvent::VectorLag { bucket } => {
                labels.push(MetricLabel::new("lag_bucket", bucket.as_label()));
            },
            MetricEvent::GraphOperation { operation, outcome } => {
                labels.push(MetricLabel::new("operation", operation.as_label()));
                labels.push(MetricLabel::new("outcome", outcome.as_label()));
            },
            MetricEvent::FeedbackOperation { operation, outcome } => {
                labels.push(MetricLabel::new("operation", operation.as_label()));
                labels.push(MetricLabel::new("outcome", outcome.as_label()));
            },
            MetricEvent::PracticeOperation { operation, outcome } => {
                labels.push(MetricLabel::new("operation", operation.as_label()));
                labels.push(MetricLabel::new("outcome", outcome.as_label()));
            },
        }
        let r = MetricAttributes { labels };
        assert(r.spec_labels() =~= event_labels(self));
        r
    }
}

} // verus!
