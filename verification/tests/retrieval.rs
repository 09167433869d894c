use transnet::domain::retrieval::{RetrievalRequest, RetrievalValidationError};
use transnet::domain::canonical::{ActiveContentVersion, CanonicalId, CanonicalStatus, EvidenceConfidence, EvidenceFragment, EvidenceKind, EvidenceUse, FormKind, LanguageTag, Lexeme, LexicalPartOfSpeech, Sense, SourcePermissions, normalize_lookup_key};
use transnet::domain::retrieval::{CanonicalCandidate, HydratedVectorMatch, LexicalMatchKind, RepositoryMatch, RetrievalScore, VectorMatch, VectorPurpose, VectorSearchRequest, VectorTarget, fuse_candidates};
use transnet::domain::canonical::WordForm;


fn id(value: &str) -> CanonicalId {
    CanonicalId::new(value).unwrap()
}

fn language() -> LanguageTag {
    LanguageTag::parse("en").unwrap()
}

fn content() -> ActiveContentVersion {
    ActiveContentVersion {
        release_id: id("release-1"),
        vector_collection_id: id("vectors-1"),
        schema_version: "canonical-v1".to_string(),
        ranking_version: "lookup-rank-v1".to_string(),
    }
}

fn permissions() -> SourcePermissions {
    SourcePermissions {
        storage: true,
        display: true,
        embedding: true,
        model_processing: true,
        api_redistribution: true,
    }
}

fn candidate(sense_id: &str, lemma: &str) -> CanonicalCandidate {
    let release_id = id("release-1");
    let lexeme_id = id(&format!("lexeme-{sense_id}"));
    let evidence_id = id(&format!("evidence-{sense_id}"));
    CanonicalCandidate {
        lexeme: Lexeme {
            id: lexeme_id.clone(),
            release_id: release_id.clone(),
            language: language(),
            lemma: lemma.to_string(),
            normalized_lemma: normalize_lookup_key(lemma),
            part_of_speech: LexicalPartOfSpeech::Adjective,
            status: CanonicalStatus::Active,
        },
        sense: Sense {
            id: id(sense_id),
            lexeme_id,
            release_id: release_id.clone(),
            sense_key: format!("{lemma}-1"),
            definition: format!("definition for {lemma}"),
            definition_evidence_ids: vec![evidence_id.clone()],
            status: CanonicalStatus::Active,
        },
        forms: vec![WordForm {
            id: id(&format!("form-{sense_id}")),
            lexeme_id: id(&format!("lexeme-{sense_id}")),
            release_id: release_id.clone(),
            form: format!("{lemma}er"),
            normalized_form: format!("{lemma}er"),
            kind: FormKind::Inflection,
            morphology: Some("comparative".to_string()),
            evidence_ids: vec![evidence_id.clone()],
            status: CanonicalStatus::Active,
        }],
        evidence: vec![EvidenceFragment {
            id: evidence_id,
            source_id: id("source-1"),
            source_reference: "item-1".to_string(),
            release_id,
            language: language(),
            kind: EvidenceKind::Definition,
            confidence: EvidenceConfidence::High,
            text: format!("definition evidence for {lemma}"),
            content_hash: "hash-1".to_string(),
            permissions: permissions(),
            status: CanonicalStatus::Active,
        }],
    }
}

fn vector_match(candidate: CanonicalCandidate, score: u16) -> HydratedVectorMatch {
    HydratedVectorMatch {
        vector: VectorMatch {
            target: VectorTarget::Sense(candidate.sense.id.clone()),
            score: RetrievalScore::new(score).unwrap(),
            release_id: id("release-1"),
            vector_collection_id: id("vectors-1"),
            purpose: VectorPurpose::LocalizedGloss,
            content_language: language(),
        },
        candidate,
    }
}

#[test]
fn fusion_deduplicates_by_sense_and_retains_signals() {
    let hot = candidate("sense-hot", "hot");
    let warm = candidate("sense-warm", "warm");
    let ranked = fuse_candidates(
        &content(),
        EvidenceUse::ApiRedistribution,
        vec![
            RepositoryMatch {
                candidate: hot.clone(),
                kind: LexicalMatchKind::Morphology,
                score: RetrievalScore::new(7_500).unwrap(),
            },
            RepositoryMatch {
                candidate: hot.clone(),
                kind: LexicalMatchKind::FullText,
                score: RetrievalScore::new(2_000).unwrap(),
            },
            RepositoryMatch {
                candidate: warm,
                kind: LexicalMatchKind::FullText,
                score: RetrievalScore::new(9_000).unwrap(),
            },
        ],
        vec![vector_match(hot, 9_200)],
    );

    assert_eq!(ranked.len(), 2);
    assert_eq!(ranked[0].candidate.sense.id.as_str(), "sense-hot");
    assert_eq!(ranked[0].features.morphology.unwrap().basis_points(), 7_500);
    assert_eq!(
        ranked[0].features.vector_similarity.unwrap().basis_points(),
        9_200
    );
    assert_eq!(ranked[0].rank, 1);
}

#[test]
fn fusion_is_stable_when_adapter_order_changes() {
    let first = candidate("sense-a", "a");
    let second = candidate("sense-b", "b");
    let match_for = |candidate: CanonicalCandidate| RepositoryMatch {
        candidate,
        kind: LexicalMatchKind::FullText,
        score: RetrievalScore::new(5_000).unwrap(),
    };
    let forward = fuse_candidates(
        &content(),
        EvidenceUse::ApiRedistribution,
        vec![match_for(first.clone()), match_for(second.clone())],
        vec![],
    );
    let reverse = fuse_candidates(
        &content(),
        EvidenceUse::ApiRedistribution,
        vec![match_for(second), match_for(first)],
        vec![],
    );

    assert_eq!(forward, reverse);
    assert_eq!(forward[0].candidate.sense.id.as_str(), "sense-a");
}

#[test]
fn fusion_excludes_evidence_that_cannot_be_redistributed() {
    let mut blocked = candidate("sense-blocked", "blocked");
    blocked.evidence[0].permissions.api_redistribution = false;
    let ranked = fuse_candidates(
        &content(),
        EvidenceUse::ApiRedistribution,
        vec![RepositoryMatch {
            candidate: blocked,
            kind: LexicalMatchKind::ExactForm,
            score: RetrievalScore::exact(),
        }],
        vec![],
    );

    assert!(ranked.is_empty());
}

#[test]
fn vector_match_requires_exact_release_and_collection_filters() {
    let candidate = candidate("sense-hot", "hot");
    let request = VectorSearchRequest {
        query: "hot".to_string(),
        release_id: id("release-1"),
        vector_collection_id: id("vectors-1"),
        purpose: VectorPurpose::LocalizedGloss,
        content_language: language(),
        limit: 4,
    };
    let mut matched = vector_match(candidate, 9_000).vector;

    assert!(matched.matches_request(&request));
    matched.vector_collection_id = id("vectors-2");
    assert!(!matched.matches_request(&request));
}

#[test]
fn fusion_does_not_treat_evidence_vectors_as_sense_candidates() {
    let candidate = candidate("sense-hot", "hot");
    let mut vector = vector_match(candidate, 9_000);
    vector.vector.target = VectorTarget::Evidence(id("evidence-other"));
    vector.vector.purpose = VectorPurpose::EvidenceFragment;

    let ranked = fuse_candidates(&content(), EvidenceUse::ApiRedistribution, vec![], vec![vector]);

    assert!(ranked.is_empty());
}

#[test]
fn in_memory_matching_exposes_a_bounded_full_text_signal() {
    let matched = candidate("sense-hot", "hot")
        .in_memory_match("definition")
        .unwrap();

    assert_eq!(matched.0, LexicalMatchKind::FullText);
    assert_eq!(matched.1.basis_points(), 2_500);
}

#[test]
fn whitespace_only_query_is_refused_as_blank() {
    assert_eq!(
        RetrievalRequest::new(" \t\n ", language(), EvidenceUse::ApiRedistribution, 5).unwrap_err(),
        RetrievalValidationError::BlankQuery
    );
    assert_eq!(
        RetrievalRequest::for_public_api("\u{3000}", language()).unwrap_err(),
        RetrievalValidationError::BlankQuery
    );
    let accepted = RetrievalRequest::new("  Cafe\u{301}  ", language(), EvidenceUse::ApiRedistribution, 5).unwrap();
    assert_eq!(accepted.query, "caf\u{e9}");
}
