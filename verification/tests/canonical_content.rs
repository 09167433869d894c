use transnet::domain::canonical::{CanonicalId, CanonicalStatus, EvidenceConfidence, EvidenceFragment, EvidenceKind, EvidenceUse, LanguageTag, Lexeme, LexicalPartOfSpeech, LexicalSource, ReleaseId, Sense, SourceId, SourcePermissions};
use transnet::domain::canonical_content::{CanonicalContentValidationError, CanonicalDetailKind, CanonicalEvidenceLineage, CanonicalEvidenceOrigin, CanonicalFactualAssertion, CanonicalSenseDetails, CanonicalSenseDetailsInput, Collocation, CollocationConstruction, CollocationRole, CollocationTerm, GeneratedEvidenceReview, LearnerPitfall, LearnerPitfallKind, LocalizedGloss, MAX_DETAILS_PER_KIND, SenseContentTarget, SenseEvolutionKind, SenseEvolutionMapping, SenseEvolutionMappingInput};

fn canonical_id(value: &str) -> CanonicalId {
    CanonicalId::new(value).unwrap()
}

fn release(value: &str) -> ReleaseId {
    canonical_id(value)
}

fn language(value: &str) -> LanguageTag {
    LanguageTag::parse(value).unwrap()
}

fn permissions(api_redistribution: bool) -> SourcePermissions {
    SourcePermissions {
        storage: true,
        display: true,
        embedding: false,
        model_processing: false,
        api_redistribution,
    }
}

fn source(source_id: SourceId, source_permissions: SourcePermissions) -> LexicalSource {
    LexicalSource {
        id: source_id,
        name: "Licensed source".to_string(),
        version: "2026.09".to_string(),
        license: "LicenseRef-Test".to_string(),
        attribution: None,
        permissions: source_permissions,
    }
}

fn fragment(
    id: &str,
    release_id: ReleaseId,
    kind: EvidenceKind,
    status: CanonicalStatus,
    source_id: SourceId,
    source_permissions: SourcePermissions,
) -> EvidenceFragment {
    EvidenceFragment {
        id: canonical_id(id),
        source_id,
        source_reference: format!("reference:{id}"),
        release_id,
        language: language("en-US"),
        kind,
        confidence: EvidenceConfidence::High,
        text: "Source-backed text".to_string(),
        content_hash: format!("hash:{id}"),
        permissions: source_permissions,
        status,
    }
}

fn evidence_kind(kind: CanonicalDetailKind) -> EvidenceKind {
    match kind {
        CanonicalDetailKind::LocalizedGloss => EvidenceKind::LocalizedGloss,
        CanonicalDetailKind::Pronunciation => EvidenceKind::Pronunciation,
        CanonicalDetailKind::UsageLabel
        | CanonicalDetailKind::GrammarPattern
        | CanonicalDetailKind::Collocation
        | CanonicalDetailKind::Pitfall => EvidenceKind::Usage,
        CanonicalDetailKind::Example => EvidenceKind::Example,
        CanonicalDetailKind::Etymology | CanonicalDetailKind::SenseHistory => EvidenceKind::Etymology,
        CanonicalDetailKind::SenseEvolution => EvidenceKind::Other,
    }
}

fn licensed_lineage(
    id: &str,
    release_id: ReleaseId,
    kind: EvidenceKind,
    status: CanonicalStatus,
    api_redistribution: bool,
) -> CanonicalEvidenceLineage {
    let source_id = canonical_id("source-a");
    let source_permissions = permissions(api_redistribution);
    CanonicalEvidenceLineage::new(
        source(source_id.clone(), source_permissions),
        fragment(id, release_id, kind, status, source_id, source_permissions),
        CanonicalEvidenceOrigin::LicensedSource,
    )
    .unwrap()
}

fn assertion(
    kind: CanonicalDetailKind,
    release_id: ReleaseId,
    status: CanonicalStatus,
) -> CanonicalFactualAssertion {
    CanonicalFactualAssertion::new(
        kind,
        release_id.clone(),
        status,
        "Reviewed factual text".to_string(),
        vec![licensed_lineage(
            "evidence-a",
            release_id,
            evidence_kind(kind),
            status,
            true,
        )],
    )
    .unwrap()
}

fn target(status: CanonicalStatus) -> SenseContentTarget {
    let release_id = release("release-a");
    let lexeme = Lexeme {
        id: canonical_id("lexeme-a"),
        release_id: release_id.clone(),
        language: language("en-US"),
        lemma: "run".to_string(),
        normalized_lemma: "run".to_string(),
        part_of_speech: LexicalPartOfSpeech::Verb,
        status,
    };
    let sense = Sense {
        id: canonical_id("sense-a"),
        lexeme_id: lexeme.id.clone(),
        release_id,
        sense_key: "run-1".to_string(),
        definition: "move quickly".to_string(),
        definition_evidence_ids: vec![canonical_id("definition-evidence")],
        status,
    };
    SenseContentTarget::new(&lexeme, &sense).unwrap()
}

#[test]
fn unreviewed_generated_material_cannot_become_factual_evidence() {
    let release_id = release("release-a");
    let source_id = canonical_id("source-a");
    let source_permissions = permissions(true);
    let result = CanonicalEvidenceLineage::new(
        source(source_id.clone(), source_permissions),
        fragment(
            "generated-evidence",
            release_id,
            EvidenceKind::Example,
            CanonicalStatus::Draft,
            source_id,
            source_permissions,
        ),
        CanonicalEvidenceOrigin::Generated {
            generation_id: canonical_id("generation-a"),
            review: GeneratedEvidenceReview::Unreviewed,
        },
    );

    assert_eq!(
        result,
        Err(CanonicalContentValidationError::GeneratedMaterialNotPromoted)
    );
}

#[test]
fn promoted_generated_material_still_requires_source_permissions() {
    let release_id = release("release-a");
    let source_id = canonical_id("source-a");
    let source_permissions = permissions(false);
    let lineage = CanonicalEvidenceLineage::new(
        source(source_id.clone(), source_permissions),
        fragment(
            "promoted-evidence",
            release_id.clone(),
            EvidenceKind::Example,
            CanonicalStatus::Active,
            source_id,
            source_permissions,
        ),
        CanonicalEvidenceOrigin::Generated {
            generation_id: canonical_id("generation-a"),
            review: GeneratedEvidenceReview::ReviewedAndPromoted {
                review_id: canonical_id("review-a"),
            },
        },
    )
    .unwrap();
    let factual = CanonicalFactualAssertion::new(
        CanonicalDetailKind::Example,
        release_id,
        CanonicalStatus::Active,
        "A reviewed generated example.".to_string(),
        vec![lineage],
    )
    .unwrap();

    assert!(factual.permits(EvidenceUse::Display));
    assert!(!factual.permits(EvidenceUse::ApiRedistribution));
}

#[test]
fn source_permission_escalation_is_rejected() {
    let release_id = release("release-a");
    let source_id = canonical_id("source-a");
    let source_permissions = permissions(false);
    let result = CanonicalEvidenceLineage::new(
        source(source_id.clone(), source_permissions),
        fragment(
            "escalated-evidence",
            release_id,
            EvidenceKind::Usage,
            CanonicalStatus::Active,
            source_id,
            permissions(true),
        ),
        CanonicalEvidenceOrigin::LicensedSource,
    );

    assert_eq!(
        result,
        Err(CanonicalContentValidationError::EvidencePermissionEscalation)
    );
}

#[test]
fn typed_details_require_matching_release_status_and_evidence_kind() {
    let target = target(CanonicalStatus::Active);
    let wrong_release = LocalizedGloss::new(
        canonical_id("gloss-a"),
        target.clone(),
        language("zh-CN"),
        assertion(
            CanonicalDetailKind::LocalizedGloss,
            release("release-other"),
            CanonicalStatus::Active,
        ),
    );
    assert_eq!(
        wrong_release,
        Err(CanonicalContentValidationError::DetailReleaseMismatch)
    );

    let wrong_kind = LocalizedGloss::new(
        canonical_id("gloss-a"),
        target.clone(),
        language("zh-CN"),
        assertion(
            CanonicalDetailKind::Pronunciation,
            target.release_id().clone(),
            CanonicalStatus::Active,
        ),
    );
    assert_eq!(
        wrong_kind,
        Err(CanonicalContentValidationError::DetailKindMismatch)
    );

    let unsupported = CanonicalFactualAssertion::new(
        CanonicalDetailKind::LocalizedGloss,
        target.release_id().clone(),
        CanonicalStatus::Active,
        "跑".to_string(),
        vec![licensed_lineage(
            "wrong-kind-evidence",
            target.release_id().clone(),
            EvidenceKind::Example,
            CanonicalStatus::Active,
            true,
        )],
    );
    assert_eq!(
        unsupported,
        Err(CanonicalContentValidationError::IncompatibleEvidenceKind)
    );
}

#[test]
fn collocations_and_pitfalls_keep_explicit_roles_and_corrections() {
    let target = target(CanonicalStatus::Active);
    let head = CollocationTerm::new(
        "run",
        Some(target.lexeme_id().clone()),
        Some(target.sense_id().clone()),
    )
    .unwrap();
    let dependent = CollocationTerm::new("quickly", None, None).unwrap();
    let collocation = Collocation::new(
        canonical_id("collocation-a"),
        target.clone(),
        CollocationRole::Head,
        CollocationConstruction::AdverbModifier,
        head,
        dependent,
        assertion(
            CanonicalDetailKind::Collocation,
            target.release_id().clone(),
            CanonicalStatus::Active,
        ),
    );
    assert!(collocation.is_ok());

    let same = assertion(
        CanonicalDetailKind::Pitfall,
        target.release_id().clone(),
        CanonicalStatus::Active,
    );
    let pitfall = LearnerPitfall::new(
        canonical_id("pitfall-a"),
        target,
        language("zh-CN"),
        LearnerPitfallKind::LiteralTranslation,
        same.clone(),
        same,
    );
    assert_eq!(
        pitfall,
        Err(CanonicalContentValidationError::IdenticalPitfallForms)
    );
}

#[test]
fn detail_collection_is_bounded_and_preserves_explicit_absence() {
    let target = target(CanonicalStatus::Active);
    let gloss = LocalizedGloss::new(
        canonical_id("gloss-a"),
        target.clone(),
        language("zh-CN"),
        assertion(
            CanonicalDetailKind::LocalizedGloss,
            target.release_id().clone(),
            CanonicalStatus::Active,
        ),
    )
    .unwrap();
    let empty =
        CanonicalSenseDetails::new(CanonicalSenseDetailsInput::empty(target.clone())).unwrap();
    assert!(empty.examples().is_empty());

    let oversized = CanonicalSenseDetails::new(CanonicalSenseDetailsInput {
        target,
        localized_glosses: vec![gloss; MAX_DETAILS_PER_KIND + 1],
        pronunciations: Vec::new(),
        usage_labels: Vec::new(),
        grammar_patterns: Vec::new(),
        collocations: Vec::new(),
        examples: Vec::new(),
        pitfalls: Vec::new(),
        etymologies: Vec::new(),
        history: Vec::new(),
    });
    assert_eq!(
        oversized,
        Err(CanonicalContentValidationError::TooManyDetails)
    );
}

#[test]
fn detail_aggregate_requires_its_pinned_target_and_every_evidence_permission() {
    let target = target(CanonicalStatus::Active);
    let assertion = CanonicalFactualAssertion::new(
        CanonicalDetailKind::LocalizedGloss,
        target.release_id().clone(),
        CanonicalStatus::Active,
        "跑".to_string(),
        vec![licensed_lineage(
            "gloss-evidence",
            target.release_id().clone(),
            EvidenceKind::LocalizedGloss,
            CanonicalStatus::Active,
            false,
        )],
    )
    .unwrap();
    let details = CanonicalSenseDetails::new(CanonicalSenseDetailsInput {
        target: target.clone(),
        localized_glosses: vec![LocalizedGloss::new(
            canonical_id("gloss-a"),
            target.clone(),
            language("zh-CN"),
            assertion,
        )
        .unwrap()],
        pronunciations: Vec::new(),
        usage_labels: Vec::new(),
        grammar_patterns: Vec::new(),
        collocations: Vec::new(),
        examples: Vec::new(),
        pitfalls: Vec::new(),
        etymologies: Vec::new(),
        history: Vec::new(),
    })
    .unwrap();

    assert!(details.is_eligible_for(target.release_id(), target.sense_id(), EvidenceUse::Display));
    assert!(!details.is_eligible_for(
        target.release_id(),
        target.sense_id(),
        EvidenceUse::ApiRedistribution
    ));
    assert!(!details.is_eligible_for(
        &release("other-release"),
        target.sense_id(),
        EvidenceUse::Display
    ));
}

#[test]
fn evolution_mappings_enforce_release_scoped_split_and_merge_shapes() {
    let evolution_assertion = assertion(
        CanonicalDetailKind::SenseEvolution,
        release("release-b"),
        CanonicalStatus::Active,
    );
    let split = SenseEvolutionMapping::new(SenseEvolutionMappingInput {
        id: canonical_id("evolution-a"),
        from_release_id: release("release-a"),
        to_release_id: release("release-b"),
        kind: SenseEvolutionKind::Split,
        status: CanonicalStatus::Active,
        retired_sense_ids: vec![canonical_id("old-sense")],
        successor_sense_ids: vec![canonical_id("new-sense-a"), canonical_id("new-sense-b")],
        assertion: evolution_assertion,
    });
    assert!(split.is_ok());

    let invalid_merge = SenseEvolutionMapping::new(SenseEvolutionMappingInput {
        id: canonical_id("evolution-b"),
        from_release_id: release("release-a"),
        to_release_id: release("release-b"),
        kind: SenseEvolutionKind::Merge,
        status: CanonicalStatus::Active,
        retired_sense_ids: vec![canonical_id("old-sense")],
        successor_sense_ids: vec![canonical_id("new-sense")],
        assertion: assertion(
            CanonicalDetailKind::SenseEvolution,
            release("release-b"),
            CanonicalStatus::Active,
        ),
    });
    assert_eq!(
        invalid_merge,
        Err(CanonicalContentValidationError::InvalidSenseEvolutionShape)
    );
}

#[test]
fn inactive_details_are_not_servable_even_with_valid_lineage() {
    let release_id = release("release-a");
    let factual = CanonicalFactualAssertion::new(
        CanonicalDetailKind::Example,
        release_id.clone(),
        CanonicalStatus::Draft,
        "A staging example.".to_string(),
        vec![licensed_lineage(
            "draft-example",
            release_id,
            EvidenceKind::Example,
            CanonicalStatus::Draft,
            true,
        )],
    )
    .unwrap();

    assert!(!factual.permits(EvidenceUse::Display));
}

#[test]
fn sense_targets_reject_unrelated_ownership_and_release_lineage() {
    let lexeme = Lexeme {
        id: canonical_id("lexeme-a"),
        release_id: release("release-a"),
        language: language("en-US"),
        lemma: "run".to_string(),
        normalized_lemma: "run".to_string(),
        part_of_speech: LexicalPartOfSpeech::Verb,
        status: CanonicalStatus::Active,
    };
    let unrelated_sense = Sense {
        id: canonical_id("sense-a"),
        lexeme_id: canonical_id("other-lexeme"),
        release_id: release("release-a"),
        sense_key: "run-1".to_string(),
        definition: "move quickly".to_string(),
        definition_evidence_ids: vec![],
        status: CanonicalStatus::Active,
    };
    assert_eq!(
        SenseContentTarget::new(&lexeme, &unrelated_sense),
        Err(CanonicalContentValidationError::SenseLexemeMismatch)
    );
}
