use transnet::domain::canonical::{
    ActiveContentVersion, CanonicalId, CanonicalStatus, EvidenceConfidence, EvidenceFragment, EvidenceKind,
    EvidenceUse, FormKind, LanguageTag, Lexeme, LexicalPartOfSpeech, Sense, SourcePermissions, WordForm,
    normalize_lookup_key,
};
use transnet::domain::practice::{
    MasteryTransition, NeedsReviewReason, PracticeAttemptResolution, PracticeMasteryState, PracticeSkill,
    PracticeTarget, PracticeVersion, ResolvedPracticeAttempt, ResolvedPracticeOutcome,
};
use transnet::domain::canonical::SenseId;
use transnet::domain::retrieval::{
    CanonicalCandidate, HydratedVectorMatch, LexicalMatchKind, RepositoryMatch, RetrievalScore, VectorMatch,
    VectorPurpose, VectorTarget, fuse_candidates,
};
use transnet::ports::clock::UtcTimestamp;
use transnet::ports::public_id::PublicId;
use ulid::Ulid;

fn id(value: &str) -> CanonicalId {
    CanonicalId::new(value).unwrap()
}

fn language() -> LanguageTag {
    LanguageTag::parse("en").unwrap()
}

fn content() -> ActiveContentVersion {
    ActiveContentVersion {
        release_id: id("release-1"),
        vector_collection_id: id("vectors-1"),
        schema_version: "canonical-v1".to_string(),
        ranking_version: "lookup-rank-v1".to_string(),
    }
}

fn candidate(sense_id: &str, lemma: &str) -> CanonicalCandidate {
    let release_id = id("release-1");
    let lexeme_id = id(&format!("lexeme-{sense_id}"));
    let evidence_id = id(&format!("evidence-{sense_id}"));
    CanonicalCandidate {
        lexeme: Lexeme {
            id: lexeme_id.clone(),
            release_id: release_id.clone(),
            language: language(),
            lemma: lemma.to_string(),
            normalized_lemma: normalize_lookup_key(lemma),
            part_of_speech: LexicalPartOfSpeech::Adjective,
            status: CanonicalStatus::Active,
        },
        sense: Sense {
            id: id(sense_id),
            lexeme_id: lexeme_id.clone(),
            release_id: release_id.clone(),
            sense_key: format!("{lemma}-1"),
            definition: format!("definition for {lemma}"),
            definition_evidence_ids: vec![evidence_id.clone()],
            status: CanonicalStatus::Active,
        },
        forms: vec![WordForm {
            id: id(&format!("form-{sense_id}")),
            lexeme_id,
            release_id: release_id.clone(),
            form: format!("{lemma}er"),
            normalized_form: format!("{lemma}er"),
            kind: FormKind::Inflection,
            morphology: None,
            evidence_ids: vec![evidence_id.clone()],
            status: CanonicalStatus::Active,
        }],
        evidence: vec![EvidenceFragment {
            id: evidence_id,
            source_id: id("source-1"),
            source_reference: "item-1".to_string(),
            release_id,
            language: language(),
            kind: EvidenceKind::Definition,
            confidence: EvidenceConfidence::High,
            text: format!("definition evidence for {lemma}"),
            content_hash: "hash-1".to_string(),
            permissions: SourcePermissions {
                storage: true,
                display: true,
                embedding: true,
                model_processing: true,
                api_redistribution: true,
            },
            status: CanonicalStatus::Active,
        }],
    }
}

fn lexical(candidate: &CanonicalCandidate, kind: LexicalMatchKind, score: u16) -> RepositoryMatch {
    RepositoryMatch { candidate: candidate.clone(), kind, score: RetrievalScore::new(score).unwrap() }
}

fn vector(candidate: &CanonicalCandidate, score: u16, purpose: VectorPurpose) -> HydratedVectorMatch {
    HydratedVectorMatch {
        vector: VectorMatch {
            target: VectorTarget::Sense(candidate.sense.id.clone()),
            score: RetrievalScore::new(score).unwrap(),
            release_id: id("release-1"),
            vector_collection_id: id("vectors-1"),
            purpose,
            content_language: language(),
        },
        candidate: candidate.clone(),
    }
}

#[test]
fn fusion_with_vectors_and_repeated_senses_ignores_match_order() {
    let hot = candidate("sense-hot", "hot");
    let warm = candidate("sense-warm", "warm");
    let cold = candidate("sense-cold", "cold");
    let lexical_matches = vec![
        lexical(&hot, LexicalMatchKind::FullText, 2_000),
        lexical(&warm, LexicalMatchKind::Lemma, 9_000),
        lexical(&hot, LexicalMatchKind::Lemma, 9_000),
        lexical(&cold, LexicalMatchKind::FullText, 2_000),
    ];
    let vector_matches = vec![
        vector(&cold, 9_500, VectorPurpose::LocalizedGloss),
        vector(&hot, 4_000, VectorPurpose::CanonicalEnglishSense),
        vector(&hot, 6_000, VectorPurpose::LocalizedGloss),
    ];
    let mut reversed_lexical = lexical_matches.clone();
    reversed_lexical.reverse();
    let mut reversed_vectors = vector_matches.clone();
    reversed_vectors.reverse();

    let forward = fuse_candidates(&content(), EvidenceUse::ApiRedistribution, lexical_matches, vector_matches);
    let backward = fuse_candidates(&content(), EvidenceUse::ApiRedistribution, reversed_lexical, reversed_vectors);

    assert_eq!(forward, backward);
    assert_eq!(forward.len(), 3);
    assert_eq!(forward[0].candidate.sense.id.as_str(), "sense-hot");
    assert_eq!(forward[0].features.lemma.unwrap().basis_points(), 9_000);
    assert_eq!(forward[0].features.full_text.unwrap().basis_points(), 2_000);
    assert_eq!(forward[0].features.vector_similarity.unwrap().basis_points(), 6_000);
    assert_eq!(forward[0].fusion_score, 9_000 * 800 + 2_000 * 300 + 6_000 * 300);
    assert_eq!(forward.iter().map(|ranked| ranked.rank).collect::<Vec<_>>(), vec![1, 2, 3]);
}

#[test]
fn public_id_from_ulid_spells_the_ulid() {
    let ulid = Ulid::from_parts(1_700_000_000_000, 42);
    assert_eq!(PublicId::from_ulid(ulid.0).as_str(), ulid.to_string());
}

fn target() -> PracticeTarget {
    PracticeTarget::new(SenseId::new("sense-a").unwrap(), PracticeSkill::Recognition)
}

fn version() -> PracticeVersion {
    PracticeVersion::new("scheduler-v1").unwrap()
}

#[test]
fn mastery_counters_follow_each_resolution() {
    let mut mastery = PracticeMasteryState::initial(target(), version(), UtcTimestamp::unix_epoch());
    let at = UtcTimestamp::from_unix_seconds(10);
    mastery
        .record(
            PracticeAttemptResolution::Resolved(ResolvedPracticeAttempt::new(
                ResolvedPracticeOutcome::Correct,
                MasteryTransition::Advance,
            )),
            version(),
            at,
        )
        .unwrap();
    mastery
        .record(
            PracticeAttemptResolution::Resolved(ResolvedPracticeAttempt::new(
                ResolvedPracticeOutcome::Incorrect,
                MasteryTransition::Hold,
            )),
            version(),
            at,
        )
        .unwrap();
    mastery
        .record(
            PracticeAttemptResolution::Resolved(ResolvedPracticeAttempt::new(
                ResolvedPracticeOutcome::Skipped,
                MasteryTransition::Hold,
            )),
            version(),
            at,
        )
        .unwrap();
    mastery
        .record(PracticeAttemptResolution::NeedsReview(NeedsReviewReason::EvaluatorUncertain), version(), at)
        .unwrap();

    assert_eq!(mastery.submitted_attempts(), 4);
    assert_eq!(mastery.correct_attempts(), 1);
    assert_eq!(mastery.incorrect_attempts(), 1);
    assert_eq!(mastery.skipped_attempts(), 1);
    assert_eq!(mastery.needs_review_attempts(), 1);
    assert_eq!(mastery.mastery_advancements(), 1);
}
