use transnet::ports::clock::UtcTimestamp;
use ulid::Ulid;
use transnet::domain::canonical::{CanonicalId, LanguageTag, SenseId};
use transnet::domain::learner::{AccessibilityPreferences, EnglishLevel};
use transnet::domain::practice::{FrozenPracticeExercise, NeedsReviewReason, PracticeAttemptResolution, PracticeExerciseKind, PracticeIdempotencyKey, PracticeItemSlot, PracticeMasteryState, PracticePrompt, PracticeRequestFingerprint, PracticeSkill, PracticeTarget, PracticeValidationError, PracticeVersion, PracticeVersionMetadata, ResponseTimeInfluence, max_response_time_influence, ResponseTimeInput};
use transnet::ports::clock::{Duration};
use transnet::ports::public_id::{PublicId};

fn public_id(random: u128) -> PublicId {
    PublicId::from_ulid(Ulid::from_parts(1_700_000_000_000, random).0)
}

fn target(value: &str) -> PracticeTarget {
    PracticeTarget::new(SenseId::new(value).unwrap(), PracticeSkill::Recognition)
}

fn versions() -> PracticeVersionMetadata {
    PracticeVersionMetadata::new(
        LanguageTag::parse("zh-CN").unwrap(),
        LanguageTag::parse("en-US").unwrap(),
        EnglishLevel::B1,
        CanonicalId::new("release-1").unwrap(),
        PracticeVersion::new("model-v1").unwrap(),
        PracticeVersion::new("prompt-v1").unwrap(),
        PracticeVersion::new("normalization-v1").unwrap(),
        PracticeVersion::new("rubric-v1").unwrap(),
        PracticeVersion::new("evaluator-v1").unwrap(),
        PracticeVersion::new("scheduler-v1").unwrap(),
    )
    .unwrap()
}

#[test]
fn frozen_exercises_reject_duplicate_or_focus_secondary_targets() {
    let focus = target("sense-focus");
    let duplicate = FrozenPracticeExercise::new(
        public_id(1),
        public_id(2),
        PracticeItemSlot::new(1).unwrap(),
        PracticeExerciseKind::Recognition,
        focus.clone(),
        vec![target("sense-secondary"), target("sense-secondary")],
        PracticePrompt::new("Choose the matching meaning.").unwrap(),
        versions(),
        UtcTimestamp::unix_epoch(),
    );
    assert!(matches!(
        duplicate,
        Err(PracticeValidationError::DuplicateSecondaryTarget)
    ));

    let repeats_focus = FrozenPracticeExercise::new(
        public_id(1),
        public_id(2),
        PracticeItemSlot::new(1).unwrap(),
        PracticeExerciseKind::Recognition,
        focus.clone(),
        vec![focus],
        PracticePrompt::new("Choose the matching meaning.").unwrap(),
        versions(),
        UtcTimestamp::unix_epoch(),
    );
    assert!(matches!(
        repeats_focus,
        Err(PracticeValidationError::FocusTargetRepeated)
    ));
}

#[test]
fn needs_review_never_advances_mastery_and_response_time_respects_accessibility() {
    let mut mastery = PracticeMasteryState::initial(
        target("sense-a"),
        PracticeVersion::new("scheduler-v1").unwrap(),
        UtcTimestamp::unix_epoch(),
    );
    mastery
        .record(
            PracticeAttemptResolution::NeedsReview(NeedsReviewReason::EvaluatorUncertain),
            PracticeVersion::new("scheduler-v1").unwrap(),
            UtcTimestamp::unix_epoch(),
        )
        .unwrap();

    assert_eq!(mastery.needs_review_attempts(), 1);
    assert_eq!(mastery.mastery_advancements(), 0);
    let response = ResponseTimeInput::new(Duration::from_secs(600)).unwrap();
    assert!(ResponseTimeInfluence::from_input(
        Some(response),
        AccessibilityPreferences::new(false, false, true),
    )
    .is_disabled_by_accessibility());
    assert_eq!(
        ResponseTimeInfluence::from_input(Some(response), AccessibilityPreferences::default())
            .capped_duration(),
        Some(max_response_time_influence())
    );
}

#[test]
fn sensitive_practice_values_are_redacted_in_debug_output() {
    let prompt = PracticePrompt::new("private learner context").unwrap();
    let idempotency = PracticeIdempotencyKey::new([9; 32]);
    let fingerprint = PracticeRequestFingerprint::new([7; 32]);

    assert!(!prompt.redacted_debug().contains("private learner context"));
    assert!(!idempotency.redacted_debug().contains('9'));
    assert!(!fingerprint.redacted_debug().contains('7'));
}
