//! Domain values and the rules they keep.

/// Canonical lexical entities and provenance invariants.
pub mod canonical;
/// Bounded canonical lexical-detail values with factual-evidence safeguards.
pub mod canonical_content;
/// Private learner-owned state values and invariants.
pub mod learner;
/// Scheduler-neutral private practice values and safety invariants.
pub mod practice;
/// Typed, evidence-backed graph topology and bounded traversal values.
pub mod graph;
/// Immutable content-release staging, validation, publication, and rollback invariants.
pub mod content_release;
/// Deterministic canonical-retrieval requests, candidates, and fusion.
pub mod retrieval;
/// Independence of fusion from the order of adapter results.
pub mod fusion_order;
/// Public-only canonical lookup snapshot cache keys, values, and privacy boundaries.
pub mod canonical_lookup_cache;
/// Request-local unified translation values, normalization, and deterministic response
/// projection.
pub mod translation_turn;
/// Closed, redacted metric events for backend observability.
pub mod observability;
/// Version-pinned personal graph-feedback events and projections.
pub mod feedback;
/// Private saved graph-layout values and optimistic replacement invariants.
pub mod graph_view;
/// Domain model for an English learning translation.
pub mod translation;
/// Typed, evidence-backed canonical lookup-card presentation values.
pub mod lookup_card;
