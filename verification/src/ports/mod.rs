//! Values exchanged between the application logic and external systems.

/// UTC instants and durations.
pub mod clock;
/// Opaque, application-generated public identifiers.
pub mod public_id;
/// Private scheduler-neutral practice-state persistence values.
pub mod practice_state;
/// Leased durable-work values shared by API and worker processes.
pub mod durable_job;
/// Private learner-owned state persistence values.
pub mod learner_state;
/// Scoped idempotency reservation and response-storage values.
pub mod idempotency;
/// Private lookup-job lifecycle and polling values.
pub mod lookup_job;
/// Values for validating and persisting private graph-feedback events.
pub mod graph_feedback;
/// Narrow reader of the active immutable canonical-content tuple.
pub mod active_content_reader;
/// Shared cache values for rebuildable application results.
pub mod cache;
/// Canonical lexical repository values.
pub mod canonical_repository;
/// Release-pinned canonical sense-details repository values.
pub mod canonical_sense_details_repository;
/// Atomic content-release staging, publication, rollback, and source-quarantine values.
pub mod content_release_repository;
/// Read-only canonical graph topology values.
pub mod graph_repository;
/// Private saved graph-layout store values.
pub mod graph_view;
/// Structured learning-model values.
pub mod learning_model;
/// Generic keyed repository values.
pub mod repository;
/// Generic ranked-candidate retrieval values.
pub mod retriever;
/// Request-local connected-text and lexical-draft model values.
pub mod translation_model;
/// Versioned vector-retrieval values.
pub mod vector_retriever;
