use transnet::domain::canonical_lookup_cache::CanonicalLookupCacheValidationError;
use transnet::domain::retrieval::RetrievalValidationError;
use transnet::domain::canonical::{ActiveContentVersion, CanonicalId, CanonicalStatus, EvidenceConfidence, EvidenceFragment, EvidenceKind, FormKind, LanguageTag, Lexeme, LexicalPartOfSpeech, Sense, SourcePermissions};
use transnet::domain::canonical_lookup_cache::{CanonicalCardPolicyVersions, CanonicalLookupCacheEligibility, CanonicalLookupSnapshot, CanonicalLookupSnapshotKey, PublicCanonicalLookupRequest};
use transnet::domain::retrieval::{CandidateFeatures, RankedCandidate, RetrievalPath};
use transnet::domain::canonical::WordForm;
use transnet::domain::retrieval::CanonicalCandidate;

fn id(value: &str) -> CanonicalId {
    CanonicalId::new(value).unwrap()
}

fn language() -> LanguageTag {
    LanguageTag::parse("en").unwrap()
}

fn content() -> ActiveContentVersion {
    ActiveContentVersion {
        release_id: id("release-1"),
        vector_collection_id: id("vectors-1"),
        schema_version: "canonical-v1".to_string(),
        ranking_version: "lookup-rank-v1".to_string(),
    }
}

fn policies() -> CanonicalCardPolicyVersions {
    CanonicalCardPolicyVersions::new("retrieval-v1", "presentation-v1").unwrap()
}

fn request() -> PublicCanonicalLookupRequest {
    PublicCanonicalLookupRequest::new("  hotter  ", language(), 4, policies()).unwrap()
}

fn candidate() -> RankedCandidate {
    let release_id = id("release-1");
    let lexeme_id = id("lexeme-hot");
    let evidence_id = id("evidence-hot");
    RankedCandidate {
        candidate: CanonicalCandidate {
            lexeme: Lexeme {
                id: lexeme_id.clone(),
                release_id: release_id.clone(),
                language: language(),
                lemma: "hot".to_string(),
                normalized_lemma: "hot".to_string(),
                part_of_speech: LexicalPartOfSpeech::Adjective,
                status: CanonicalStatus::Active,
            },
            sense: Sense {
                id: id("sense-hot"),
                lexeme_id: lexeme_id.clone(),
                release_id: release_id.clone(),
                sense_key: "temperature".to_string(),
                definition: "private-looking definition must not appear in debug output".to_string(),
                definition_evidence_ids: vec![evidence_id.clone()],
                status: CanonicalStatus::Active,
            },
            forms: vec![WordForm {
                id: id("form-hotter"),
                lexeme_id,
                release_id: release_id.clone(),
                form: "hotter".to_string(),
                normalized_form: "hotter".to_string(),
                kind: FormKind::Inflection,
                morphology: None,
                evidence_ids: vec![evidence_id.clone()],
                status: CanonicalStatus::Active,
            }],
            evidence: vec![
                EvidenceFragment {
                    id: evidence_id,
                    source_id: id("source-public"),
                    source_reference: "public-definition".to_string(),
                    release_id: release_id.clone(),
                    language: language(),
                    kind: EvidenceKind::Definition,
                    confidence: EvidenceConfidence::High,
                    text: "public evidence".to_string(),
                    content_hash: "hash-public".to_string(),
                    permissions: SourcePermissions {
                        storage: true,
                        display: true,
                        embedding: true,
                        model_processing: true,
                        api_redistribution: true,
                    },
                    status: CanonicalStatus::Active,
                },
                EvidenceFragment {
                    id: id("evidence-private-extra"),
                    source_id: id("source-private"),
                    source_reference: "private-extra".to_string(),
                    release_id,
                    language: language(),
                    kind: EvidenceKind::Other,
                    confidence: EvidenceConfidence::Low,
                    text: "private extra evidence".to_string(),
                    content_hash: "hash-private".to_string(),
                    permissions: SourcePermissions {
                        storage: true,
                        display: true,
                        embedding: false,
                        model_processing: false,
                        api_redistribution: false,
                    },
                    status: CanonicalStatus::Active,
                },
            ],
        },
        features: CandidateFeatures::default(),
        rank: 1,
        fusion_score: 0,
    }
}

#[test]
fn key_changes_for_every_content_request_and_policy_input() {
    let request = request();
    let base = CanonicalLookupSnapshotKey::new(&request, content()).unwrap();

    let changed_release = CanonicalLookupSnapshotKey::new(
        &request,
        ActiveContentVersion {
            release_id: id("release-2"),
            ..content()
        },
    )
    .unwrap();
    let changed_vector = CanonicalLookupSnapshotKey::new(
        &request,
        ActiveContentVersion {
            vector_collection_id: id("vectors-2"),
            ..content()
        },
    )
    .unwrap();
    let changed_schema = CanonicalLookupSnapshotKey::new(
        &request,
        ActiveContentVersion {
            schema_version: "canonical-v2".to_string(),
            ..content()
        },
    )
    .unwrap();
    let changed_ranking = CanonicalLookupSnapshotKey::new(
        &request,
        ActiveContentVersion {
            ranking_version: "lookup-rank-v2".to_string(),
            ..content()
        },
    )
    .unwrap();
    let changed_retrieval_policy = CanonicalLookupSnapshotKey::new(
        &PublicCanonicalLookupRequest::new(
            "hotter",
            language(),
            4,
            CanonicalCardPolicyVersions::new("retrieval-v2", "presentation-v1").unwrap(),
        )
        .unwrap(),
        content(),
    )
    .unwrap();
    let changed_presentation_policy = CanonicalLookupSnapshotKey::new(
        &PublicCanonicalLookupRequest::new(
            "hotter",
            language(),
            4,
            CanonicalCardPolicyVersions::new("retrieval-v1", "presentation-v2").unwrap(),
        )
        .unwrap(),
        content(),
    )
    .unwrap();
    let changed_query = CanonicalLookupSnapshotKey::new(
        &PublicCanonicalLookupRequest::new("cold", language(), 4, policies()).unwrap(),
        content(),
    )
    .unwrap();
    let changed_language = CanonicalLookupSnapshotKey::new(
        &PublicCanonicalLookupRequest::new(
            "hotter",
            LanguageTag::parse("en-GB").unwrap(),
            4,
            policies(),
        )
        .unwrap(),
        content(),
    )
    .unwrap();
    let changed_limit = CanonicalLookupSnapshotKey::new(
        &PublicCanonicalLookupRequest::new("hotter", language(), 5, policies()).unwrap(),
        content(),
    )
    .unwrap();

    for changed in [
        changed_release,
        changed_vector,
        changed_schema,
        changed_ranking,
        changed_retrieval_policy,
        changed_presentation_policy,
        changed_query,
        changed_language,
        changed_limit,
    ] {
        assert!(base != changed);
    }
}

#[test]
fn debug_output_redacts_query_and_card_text() {
    let request =
        PublicCanonicalLookupRequest::new("private query text", language(), 4, policies()).unwrap();
    let key = CanonicalLookupSnapshotKey::new(&request, content()).unwrap();
    let snapshot =
        CanonicalLookupSnapshot::new(&key, vec![candidate()], RetrievalPath::Hybrid).unwrap();

    let debug = format!(
        "{} {} {}",
        request.redacted_debug(),
        key.redacted_debug(),
        snapshot.redacted_debug()
    );

    assert!(!debug.contains("private query text"));
    assert!(!debug.contains("private-looking definition"));
    assert!(!debug.contains("private extra evidence"));
    assert!(debug.contains("[redacted]"));
}

#[test]
fn snapshot_removes_unredistributable_extra_evidence() {
    let key = CanonicalLookupSnapshotKey::new(&request(), content()).unwrap();
    let snapshot =
        CanonicalLookupSnapshot::new(&key, vec![candidate()], RetrievalPath::Hybrid).unwrap();

    assert_eq!(snapshot.candidates()[0].candidate.evidence.len(), 1);
    assert_eq!(
        snapshot.candidates()[0].candidate.evidence[0].id.as_str(),
        "evidence-hot"
    );
}

#[test]
fn snapshot_rejects_a_value_keyed_for_a_different_public_query() {
    let key = CanonicalLookupSnapshotKey::new(&request(), content()).unwrap();
    let different_key = CanonicalLookupSnapshotKey::new(
        &PublicCanonicalLookupRequest::new("cold", language(), 4, policies()).unwrap(),
        content(),
    )
    .unwrap();
    let snapshot =
        CanonicalLookupSnapshot::new(&key, vec![candidate()], RetrievalPath::Hybrid).unwrap();

    assert!(!snapshot.matches_key(&different_key));
}

#[test]
fn private_influences_have_explicit_bypasses() {
    let bypasses = [
        CanonicalLookupCacheEligibility::with_context(),
        CanonicalLookupCacheEligibility::with_identity(),
        CanonicalLookupCacheEligibility::with_history(),
        CanonicalLookupCacheEligibility::incognito(),
        CanonicalLookupCacheEligibility::with_mature_content_choice(),
        CanonicalLookupCacheEligibility::with_private_feedback(),
        CanonicalLookupCacheEligibility::with_personal_projection(),
    ];

    assert!(bypasses
        .iter()
        .all(|eligibility| { matches!(eligibility, CanonicalLookupCacheEligibility::Bypass(_)) }));
}

#[test]
fn public_lookup_refuses_a_whitespace_only_query() {
    let refused = PublicCanonicalLookupRequest::new("   ", language(), 4, policies());
    assert!(matches!(
        refused,
        Err(CanonicalLookupCacheValidationError::Retrieval(RetrievalValidationError::BlankQuery))
    ));
}
