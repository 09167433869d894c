use transnet::ports::clock::UtcTimestamp;
use ulid::Ulid;
use transnet::domain::canonical::{LanguageTag, SenseId};
use transnet::domain::learner::{AccessibilityPreferences, AccountDeletionPlan, AccountDeletionStep, EnglishLevel, ExportPlan, HistoryDecision, HistoryEntry, HistoryEntryError, HistoryMode, HistoryPreference, HistoryRetention, HistorySuppressionReason, LearnerDataInventory, LearnerId, LearnerPreferences, MatureContentMode, SavedSenseMutation, SavedSenseMutationOutcome, SavedSenseSource, SavedSenseState, SavedVocabularyEntry, SavedVocabularyError, SenseEvolutionOutcome, SenseSuccessors};
use transnet::ports::clock::{Duration};
use transnet::ports::public_id::{PublicId};

fn sense(value: &str) -> SenseId {
    SenseId::new(value).unwrap()
}

fn public_id(random: u128) -> PublicId {
    PublicId::from_ulid(Ulid::from_parts(1_700_000_000_000, random).0)
}

fn preferences(history: HistoryPreference) -> LearnerPreferences {
    LearnerPreferences::new(
        LanguageTag::parse("zh-CN").unwrap(),
        LanguageTag::parse("zh-CN").unwrap(),
        LanguageTag::parse("en-US").unwrap(),
        vec![LanguageTag::parse("zh-CN").unwrap()],
        EnglishLevel::B1,
        12,
        history,
        true,
        MatureContentMode::Warn,
        AccessibilityPreferences::default(),
    )
    .unwrap()
}

#[test]
fn learner_owner_debug_is_redacted_and_format_is_bounded() {
    let owner = LearnerId::new("private-owner-equality-token").unwrap();

    assert!(!owner.redacted_debug().contains("private-owner-equality-token"));
    assert!(LearnerId::new("contains whitespace").is_err());
    assert!(LearnerId::new(&"".to_owned()).is_err());
}

#[test]
fn history_decision_respects_opt_in_and_incognito_before_id_allocation() {
    let now = UtcTimestamp::from_unix_seconds(1_000);
    let opted_in = preferences(HistoryPreference::OptedIn(
        HistoryRetention::new(90).unwrap(),
    ));

    assert!(matches!(
        opted_in.history_decision(HistoryMode::Default, now).unwrap(),
        HistoryDecision::Record { expires_at } if expires_at == now.checked_add(Duration::from_secs(90 * 86_400)).unwrap()
    ));
    assert_eq!(
        opted_in
            .history_decision(HistoryMode::Incognito, now)
            .unwrap(),
        HistoryDecision::Suppress {
            reason: HistorySuppressionReason::Incognito,
        }
    );
    assert_eq!(
        preferences(HistoryPreference::Disabled)
            .history_decision(HistoryMode::Default, now)
            .unwrap(),
        HistoryDecision::Suppress {
            reason: HistorySuppressionReason::HistoryDisabled,
        }
    );
}

#[test]
fn history_entries_reject_duplicate_references_and_expire_at_the_boundary() {
    let now = UtcTimestamp::from_unix_seconds(2_000);
    assert_eq!(
        HistoryEntry::new(
            public_id(1),
            LearnerId::new("owner-token").unwrap(),
            None,
            vec![sense("sense-a"), sense("sense-a")],
            now,
            now.checked_add(Duration::from_secs(1)).unwrap(),
        )
        .err(),
        Some(HistoryEntryError::DuplicateSenseReference)
    );

    let entry = HistoryEntry::new(
        public_id(2),
        LearnerId::new("owner-token").unwrap(),
        None,
        vec![sense("sense-a")],
        now,
        now.checked_add(Duration::from_secs(1)).unwrap(),
    )
    .unwrap();
    assert!(entry.is_expired_at(now.checked_add(Duration::from_secs(1)).unwrap()));
}

#[test]
fn successor_migration_is_safe_for_one_to_one_and_pauses_ambiguous_splits() {
    let now = UtcTimestamp::from_unix_seconds(3_000);
    let owner = LearnerId::new("owner-token").unwrap();
    let mut entry = SavedVocabularyEntry::new(
        public_id(3),
        owner,
        sense("retired-sense"),
        SavedSenseState::Learning,
        SavedSenseSource::Lookup,
        now,
    );

    let split = SenseSuccessors::new(
        sense("retired-sense"),
        vec![sense("successor-a"), sense("successor-b")],
    )
    .unwrap();
    assert!(matches!(
        entry
            .mutate(
                SavedSenseMutation::ApplySuccessors(split),
                now.checked_add(Duration::from_secs(1)).unwrap(),
            )
            .unwrap(),
        SavedSenseMutationOutcome::Evolution(SenseEvolutionOutcome::AwaitingSelection { .. })
    ));
    assert_eq!(entry.state(), SavedSenseState::Paused);
    assert_eq!(
        entry.mutate(
            SavedSenseMutation::SetState(SavedSenseState::Learning),
            now.checked_add(Duration::from_secs(2)).unwrap(),
        ),
        Err(SavedVocabularyError::SuccessorChoiceRequired)
    );
    assert!(matches!(
        entry
            .mutate(
                SavedSenseMutation::SelectSuccessor(sense("successor-b")),
                now.checked_add(Duration::from_secs(2)).unwrap(),
            )
            .unwrap(),
        SavedSenseMutationOutcome::SuccessorSelected { .. }
    ));
    assert_eq!(entry.current_sense_id(), &sense("successor-b"));
    assert_eq!(entry.state(), SavedSenseState::Paused);

    let mut one_to_one = SavedVocabularyEntry::new(
        public_id(4),
        LearnerId::new("owner-other").unwrap(),
        sense("old-sense"),
        SavedSenseState::Known,
        SavedSenseSource::Saved,
        now,
    );
    assert!(matches!(
        one_to_one
            .mutate(
                SavedSenseMutation::ApplySuccessors(
                    SenseSuccessors::new(sense("old-sense"), vec![sense("new-sense")]).unwrap(),
                ),
                now.checked_add(Duration::from_secs(1)).unwrap(),
            )
            .unwrap(),
        SavedSenseMutationOutcome::Evolution(SenseEvolutionOutcome::Migrated { .. })
    ));
    assert_eq!(one_to_one.current_sense_id(), &sense("new-sense"));

    let mut no_successor = SavedVocabularyEntry::new(
        public_id(5),
        LearnerId::new("owner-third").unwrap(),
        sense("removed-sense"),
        SavedSenseState::Learning,
        SavedSenseSource::Practice,
        now,
    );
    assert!(matches!(
        no_successor
            .mutate(
                SavedSenseMutation::ApplySuccessors(
                    SenseSuccessors::new(sense("removed-sense"), vec![]).unwrap(),
                ),
                now.checked_add(Duration::from_secs(1)).unwrap(),
            )
            .unwrap(),
        SavedSenseMutationOutcome::Evolution(SenseEvolutionOutcome::RetiredWithoutSuccessor { .. })
    ));
    assert_eq!(no_successor.state(), SavedSenseState::Paused);
}

#[test]
fn privacy_plans_are_manifest_only_and_include_external_deletion_steps() {
    let owner = LearnerId::new("owner-token").unwrap();
    let inventory = LearnerDataInventory::new(true, 2, 3);
    let export = ExportPlan::for_inventory(owner.clone(), inventory);
    let deletion = AccountDeletionPlan::for_inventory(owner, inventory);

    assert_eq!(export.categories().len(), 3);
    assert_eq!(
        deletion.steps().first(),
        Some(&AccountDeletionStep::BlockNewPersonalizationWrites)
    );
    assert!(deletion
        .steps()
        .contains(&AccountDeletionStep::RevokeSessions));
    assert!(deletion
        .steps()
        .contains(&AccountDeletionStep::EraseLookupJobs));
}
