//! Private learner-owned state values and invariants.
//!
//! This module stores only opaque ownership references and canonical identifiers. It never
//! models raw lookup queries, contexts, notes, credentials, encryption keys, or identity-provider
//! claims.

use crate::domain::canonical::{primary_subtag, LanguageTag, SenseId};
use crate::keyed::{
    collect_sorted, contains_key, distinct_key_count, has_key, keys_distinct, keys_of, keys_sorted,
    no_duplicate_keys,
};
use crate::ports::clock::{timestamp_limit, Duration, UtcTimestamp};
use crate::ports::public_id::PublicId;
use crate::text::{check_graphic_token, is_bounded_graphic_token};
use vstd::prelude::*;

verus! {

/// Largest number of known languages retained in one learner preference document.
pub const MAX_KNOWN_LANGUAGES: usize = 32;

/// Smallest supported daily learning goal.
pub const MIN_DAILY_GOAL: u16 = 1;

/// Largest supported daily learning goal.
pub const MAX_DAILY_GOAL: u16 = 500;

/// Smallest supported history retention period in days.
pub const MIN_HISTORY_RETENTION_DAYS: u16 = 1;

/// Largest supported history retention period in days.
pub const MAX_HISTORY_RETENTION_DAYS: u16 = 3_650;

/// Largest number of canonical senses referenced by a history event.
pub const MAX_HISTORY_SENSE_REFERENCES: usize = 16;

/// Largest number of successor candidates retained for one retired sense.
pub const MAX_SENSE_SUCCESSORS: usize = 16;

/// Longest accepted learner owner reference, in bytes.
pub const MAX_LEARNER_ID_LENGTH: usize = 256;

/// Opaque equality-preserving reference to one authenticated learner.
///
/// The value is derived from an authenticated principal by an identity adapter. It is not an
/// identity-provider subject, email address, display name, or bearer credential, and it has no
/// `Debug` form: `redacted_debug` stands in for one.
#[derive(PartialEq, Eq, PartialOrd, Ord, Hash)]
pub struct LearnerId(String);

impl View for LearnerId {
    type V = Seq<char>;

    closed spec fn view(&self) -> Seq<char> {
        self.0@
    }
}

impl Clone for LearnerId {
    fn clone(&self) -> (r: Self)
        ensures
            r == *self,
    {
        LearnerId(self.0.clone())
    }
}

/// Validation failure for an opaque learner owner reference.
#[derive(Debug, Clone, Copy, PartialEq, Eq, Structural)]
pub enum LearnerIdError {
    /// The owner reference was not bounded printable ASCII.
    InvalidFormat,
}

impl LearnerIdError {
    /// Human-readable description of the failure.
    pub fn message(&self) -> (r: &'static str)
        ensures
            r@ == "learner ID must be bounded printable ASCII"@,
    {
        "learner ID must be bounded printable ASCII"
    }
}

impl LearnerId {
    /// Creates a bounded opaque owner reference suitable for equality checks and storage keys.
    ///
    /// Returns `LearnerIdError::InvalidFormat` when `value` is blank, longer than 256 bytes, or
    /// not printable ASCII.
    pub fn new(value: &str) -> (r: Result<Self, LearnerIdError>)
        ensures
            match r {
                Ok(id) => is_bounded_graphic_token(value@, 256) && id@ == value@,
                Err(e) => !is_bounded_graphic_token(value@, 256) && e == LearnerIdError::InvalidFormat,
            },
    {
        if !check_graphic_token(value, MAX_LEARNER_ID_LENGTH) {
            return Err(LearnerIdError::InvalidFormat);
        }
        Ok(LearnerId(value.to_string()))
    }

    /// Returns the opaque equality token for keyed persistence implementations.
    ///
    /// Callers must never put this value in logs, traces, URLs, or user-visible responses.
    pub fn as_str(&self) -> (r: &str)
        ensures
            r@ == self@,
    {
        self.0.as_str()
    }

    /// Whether both references name the same learner.
    pub fn same(&self, other: &LearnerId) -> (b: bool)
        ensures
            b == (self@ == other@),
    {
        self.0 == other.0
    }

    /// The redacted debug form of the reference, which never shows the token.
    pub fn redacted_debug(&self) -> (r: &'static str)
        ensures
            r@ == "LearnerId([redacted])"@,
    {
        "LearnerId([redacted])"
    }
}

/// A learner's self-reported English proficiency.
#[derive(Debug, Clone, Copy, PartialEq, Eq, PartialOrd, Ord, Hash, Structural)]
pub enum EnglishLevel {
    /// Beginning proficiency.
    A1,
    /// Elementary proficiency.
    A2,
    /// Intermediate proficiency.
    B1,
    /// Upper-intermediate proficiency.
    B2,
    /// Advanced proficiency.
    C1,
    /// Proficient proficiency.
    C2,
    /// The learner has not selected a level.
    Unknown,
}

/// Learner-controlled handling of mature content in shared canonical results.
#[derive(Debug, Clone, Copy, PartialEq, Eq, PartialOrd, Ord, Hash, Structural)]
pub enum MatureContentMode {
    /// Exclude mature content from the learner projection.
    Hide,
    /// Include a warning before mature content is shown.
    Warn,
    /// Permit mature content without an additional warning.
    Show,
}

/// Accessibility preferences that affect a private learner projection.
#[derive(Debug, Clone, Copy, PartialEq, Eq, PartialOrd, Ord, Hash, Structural)]
pub struct AccessibilityPreferences {
    reduce_motion: bool,
    high_contrast: bool,
    disable_response_time_influence: bool,
}

impl AccessibilityPreferences {
    /// The reduce-motion control.
    pub closed spec fn spec_reduce_motion(self) -> bool {
        self.reduce_motion
    }

    /// The high-contrast control.
    pub closed spec fn spec_high_contrast(self) -> bool {
        self.high_contrast
    }

    /// The control that keeps response time out of practice scoring and scheduling.
    pub closed spec fn spec_disable_response_time_influence(self) -> bool {
        self.disable_response_time_influence
    }

    /// Creates accessibility preferences with explicit values for every supported control.
    pub fn new(reduce_motion: bool, high_contrast: bool, disable_response_time_influence: bool) -> (r: Self)
        ensures
            r.spec_reduce_motion() == reduce_motion,
            r.spec_high_contrast() == high_contrast,
            r.spec_disable_response_time_influence() == disable_response_time_influence,
    {
        AccessibilityPreferences { reduce_motion, high_contrast, disable_response_time_influence }
    }

    /// Returns whether animated learner-facing behavior should be reduced.
    pub fn reduce_motion(self) -> (b: bool)
        ensures
            b == self.spec_reduce_motion(),
    {
        self.reduce_motion
    }

    /// Returns whether high-contrast presentation is preferred.
    pub fn high_contrast(self) -> (b: bool)
        ensures
            b == self.spec_high_contrast(),
    {
        self.high_contrast
    }

    /// Returns whether response time must not influence practice scoring or scheduling.
    pub fn disable_response_time_influence(self) -> (b: bool)
        ensures
            b == self.spec_disable_response_time_influence(),
    {
        self.disable_response_time_influence
    }
}

impl Default for AccessibilityPreferences {
    fn default() -> (r: Self)
        ensures
            !r.spec_reduce_motion(),
            !r.spec_high_contrast(),
            !r.spec_disable_response_time_influence(),
    {
        Self::new(false, false, false)
    }
}

/// Validated retention period for opt-in private lookup history.
#[derive(Debug, Clone, Copy, PartialEq, Eq, PartialOrd, Ord, Hash, Structural)]
pub struct HistoryRetention {
    days: u16,
}

/// Retention-policy validation or timestamp-calculation failure.
#[derive(Debug, Clone, Copy, PartialEq, Eq, Structural)]
pub enum HistoryRetentionError {
    /// The supplied period was shorter than one day or longer than ten years.
    OutOfRange,
    /// The configured retention period cannot be represented after the event timestamp.
    ExpiryOverflow,
}

impl HistoryRetentionError {
    /// Human-readable description of the failure.
    pub fn message(&self) -> (r: &'static str)
        ensures
            r@ == match *self {
                HistoryRetentionError::OutOfRange => "history retention must be between one day and ten years"@,
                HistoryRetentionError::ExpiryOverflow => "history retention expiry cannot be represented"@,
            },
    {
        match self {
            HistoryRetentionError::OutOfRange => "history retention must be between one day and ten years",
            HistoryRetentionError::ExpiryOverflow => "history retention expiry cannot be represented",
        }
    }
}

/// Nanoseconds in a retention period of `days` days.
pub open spec fn retention_nanos(days: int) -> int {
    days * 86_400 * 1_000_000_000
}

impl HistoryRetention {
    /// The whole-day retention period.
    pub closed spec fn spec_days(self) -> u16 {
        self.days
    }

    /// Creates a retention period between one day and ten years, inclusive.
    ///
    /// Returns `HistoryRetentionError::OutOfRange` when `days` is outside that range.
    pub fn new(days: u16) -> (r: Result<Self, HistoryRetentionError>)
        ensures
            match r {
                Ok(h) => 1 <= days <= 3650 && h.spec_days() == days,
                Err(e) => !(1 <= days <= 3650) && e == HistoryRetentionError::OutOfRange,
            },
    {
        if days < MIN_HISTORY_RETENTION_DAYS || days > MAX_HISTORY_RETENTION_DAYS {
            return Err(HistoryRetentionError::OutOfRange);
        }
        Ok(HistoryRetention { days })
    }

    /// Returns the configured whole-day retention period.
    pub fn days(self) -> (d: u16)
        ensures
            d == self.spec_days(),
    {
        self.days
    }

    /// Calculates the expiry instant for an event occurring at `occurred_at`: the retention
    /// period later.
    ///
    /// Returns `HistoryRetentionError::ExpiryOverflow` when that instant cannot be represented.
    pub fn expiry_at(self, occurred_at: UtcTimestamp) -> (r: Result<UtcTimestamp, HistoryRetentionError>)
        ensures
            match r {
                Ok(t) => t.epoch_nanos() == occurred_at.epoch_nanos() + retention_nanos(
                    self.spec_days() as int,
                ),
                Err(e) => e == HistoryRetentionError::ExpiryOverflow && occurred_at.epoch_nanos()
                    + retention_nanos(self.spec_days() as int) >= timestamp_limit(),
            },
    {
        let secs: u64 = (self.days as u64) * 86_400;
        let d = Duration::from_secs(secs);
        match occurred_at.checked_add(d) {
            Some(t) => Ok(t),
            None => Err(HistoryRetentionError::ExpiryOverflow),
        }
    }
}

/// Persistent learner policy for whether lookup history may be retained.
#[derive(Debug, Clone, Copy, PartialEq, Eq, PartialOrd, Ord, Hash, Structural)]
pub enum HistoryPreference {
    /// Do not retain private lookup history.
    Disabled,
    /// Retain eligible private history records through the supplied expiry window.
    OptedIn(HistoryRetention),
}

/// Per-request privacy mode selected for a lookup.
#[derive(Debug, Clone, Copy, PartialEq, Eq, PartialOrd, Ord, Hash, Structural)]
pub enum HistoryMode {
    /// Apply the learner's stored history preference.
    Default,
    /// Do not create a history record or private cache record for this request.
    Incognito,
}

/// Reason an otherwise eligible lookup must not create a history record.
#[derive(Debug, Clone, Copy, PartialEq, Eq, PartialOrd, Ord, Hash, Structural)]
pub enum HistorySuppressionReason {
    /// The request explicitly selected incognito behavior.
    Incognito,
    /// The learner has not opted in to history retention.
    HistoryDisabled,
    /// No learner profile exists, so the service must treat the request as incognito.
    MissingProfile,
}

/// Retention decision that must be made before allocating a history identifier or private cache.
#[derive(Debug, Clone, Copy, PartialEq, Eq, PartialOrd, Ord, Hash, Structural)]
pub enum HistoryDecision {
    /// Create a history event whose lifecycle ends at `expires_at`.
    Record {
        /// Expiry instant calculated from the current opt-in preference.
        expires_at: UtcTimestamp,
    },
    /// Do not create any private history or private-cache record.
    Suppress {
        /// Privacy rule that required suppression.
        reason: HistorySuppressionReason,
    },
}

/// Validation failure for private learner preferences.
#[derive(Debug, Clone, Copy, PartialEq, Eq, Structural)]
pub enum LearnerPreferencesError {
    /// The selected dialect did not have English as its primary language.
    EnglishDialectRequired,
    /// The daily learning goal was outside the supported inclusive range.
    DailyGoalOutOfRange,
    /// The preference document included more language tags than the bounded contract permits.
    TooManyKnownLanguages,
}

impl LearnerPreferencesError {
    /// Human-readable description of the failure.
    pub fn message(&self) -> (r: &'static str)
        ensures
            r@ == match *self {
                LearnerPreferencesError::EnglishDialectRequired => "English dialect must use an en primary language tag"@,
                LearnerPreferencesError::DailyGoalOutOfRange => "daily learning goal must be between one and five hundred"@,
                LearnerPreferencesError::TooManyKnownLanguages => "too many known languages"@,
            },
    {
        match self {
            LearnerPreferencesError::EnglishDialectRequired => "English dialect must use an en primary language tag",
            LearnerPreferencesError::DailyGoalOutOfRange => "daily learning goal must be between one and five hundred",
            LearnerPreferencesError::TooManyKnownLanguages => "too many known languages",
        }
    }
}

/// The primary subtag that an English dialect must have.
pub open spec fn english_primary() -> Seq<char> {
    seq!['e', 'n']
}

/// Private learner preferences that can be projected after authentication.
#[derive(Debug, Clone, PartialEq, Eq, PartialOrd, Ord)]
pub struct LearnerPreferences {
    interface_language: LanguageTag,
    explanation_language: LanguageTag,
    english_dialect: LanguageTag,
    known_languages: Vec<LanguageTag>,
    english_level: EnglishLevel,
    daily_goal: u16,
    history: HistoryPreference,
    personalization_enabled: bool,
    mature_content_mode: MatureContentMode,
    accessibility: AccessibilityPreferences,
}

impl LearnerPreferences {
    /// The interface language.
    pub closed spec fn spec_interface_language(&self) -> Seq<char> {
        self.interface_language@
    }

    /// The explanation language.
    pub closed spec fn spec_explanation_language(&self) -> Seq<char> {
        self.explanation_language@
    }

    /// The English dialect.
    pub closed spec fn spec_english_dialect(&self) -> Seq<char> {
        self.english_dialect@
    }

    /// The distinct known languages in ascending order.
    pub closed spec fn spec_known_languages(&self) -> Seq<LanguageTag> {
        self.known_languages@
    }

    /// The English level.
    pub closed spec fn spec_english_level(&self) -> EnglishLevel {
        self.english_level
    }

    /// The daily goal.
    pub closed spec fn spec_daily_goal(&self) -> u16 {
        self.daily_goal
    }

    /// The history preference.
    pub closed spec fn spec_history(&self) -> HistoryPreference {
        self.history
    }

    /// Whether personalization is enabled.
    pub closed spec fn spec_personalization_enabled(&self) -> bool {
        self.personalization_enabled
    }

    /// The mature-content mode.
    pub closed spec fn spec_mature_content_mode(&self) -> MatureContentMode {
        self.mature_content_mode
    }

    /// The accessibility preferences.
    pub closed spec fn spec_accessibility(&self) -> AccessibilityPreferences {
        self.accessibility
    }

    /// Creates bounded preferences after validating the English dialect and daily goal.
    ///
    /// The known languages are kept once each, in ascending order. Returns
    /// `EnglishDialectRequired` when the dialect's primary subtag is not `en`,
    /// `DailyGoalOutOfRange` when the goal is outside 1..=500, and `TooManyKnownLanguages` when
    /// more than 32 distinct known languages were supplied, checked in that order.
    pub fn new(
        interface_language: LanguageTag,
        explanation_language: LanguageTag,
        english_dialect: LanguageTag,
        known_languages: Vec<LanguageTag>,
        english_level: EnglishLevel,
        daily_goal: u16,
        history: HistoryPreference,
        personalization_enabled: bool,
        mature_content_mode: MatureContentMode,
        accessibility: AccessibilityPreferences,
    ) -> (r: Result<Self, LearnerPreferencesError>)
        ensures
            primary_subtag(english_dialect@) != english_primary() ==> r == Err::<Self, _>(
                LearnerPreferencesError::EnglishDialectRequired,
            ),
            primary_subtag(english_dialect@) == english_primary() && !(1 <= daily_goal <= 500) ==> r
                == Err::<Self, _>(LearnerPreferencesError::DailyGoalOutOfRange),
            primary_subtag(english_dialect@) == english_primary() && 1 <= daily_goal <= 500
                && distinct_key_count(known_languages@) > 32 ==> r == Err::<Self, _>(
                LearnerPreferencesError::TooManyKnownLanguages,
            ),
            r is Ok <==> (primary_subtag(english_dialect@) == english_primary() && 1 <= daily_goal
                <= 500 && distinct_key_count(known_languages@) <= 32),
            r matches Ok(p) ==> {
                &&& p.spec_interface_language() == interface_language@
                &&& p.spec_explanation_language() == explanation_language@
                &&& p.spec_english_dialect() == english_dialect@
                &&& keys_sorted(p.spec_known_languages())
                &&& forall|k: Seq<char>| has_key(p.spec_known_languages(), k) <==> has_key(known_languages@, k)
                &&& p.spec_english_level() == english_level
                &&& p.spec_daily_goal() == daily_goal
                &&& p.spec_history() == history
                &&& p.spec_personalization_enabled() == personalization_enabled
                &&& p.spec_mature_content_mode() == mature_content_mode
                &&& p.spec_accessibility() == accessibility
            },
    {
        let primary = english_dialect.primary_language();
        let is_en = crate::text::str_eq(primary.as_str(), "en");
        proof {
            reveal_strlit("en");
            assert("en"@ =~= english_primary());
        }
        if !is_en {
            return Err(LearnerPreferencesError::EnglishDialectRequired);
        }
        if daily_goal < MIN_DAILY_GOAL || daily_goal > MAX_DAILY_GOAL {
            return Err(LearnerPreferencesError::DailyGoalOutOfRange);
        }
        let known_languages = collect_sorted(known_languages);
        if known_languages.len() > MAX_KNOWN_LANGUAGES {
            return Err(LearnerPreferencesError::TooManyKnownLanguages);
        }
        Ok(LearnerPreferences {
            interface_language,
            explanation_language,
            english_dialect,
            known_languages,
            english_level,
            daily_goal,
            history,
            personalization_enabled,
            mature_content_mode,
            accessibility,
        })
    }

    /// Returns the language used for interface chrome and generic learner-facing text.
    pub fn interface_language(&self) -> (r: &LanguageTag)
        ensures
            r@ == self.spec_interface_language(),
    {
        &self.interface_language
    }

    /// Returns the preferred language for explanations and localized glosses.
    pub fn explanation_language(&self) -> (r: &LanguageTag)
        ensures
            r@ == self.spec_explanation_language(),
    {
        &self.explanation_language
    }

    /// Returns the selected English dialect tag.
    pub fn english_dialect(&self) -> (r: &LanguageTag)
        ensures
            r@ == self.spec_english_dialect(),
    {
        &self.english_dialect
    }

    /// Returns the distinct known-language tags in ascending order.
    pub fn known_languages(&self) -> (r: &Vec<LanguageTag>)
        ensures
            r@ == self.spec_known_languages(),
    {
        &self.known_languages
    }

    /// Returns the learner's self-reported English level.
    pub fn english_level(&self) -> (r: EnglishLevel)
        ensures
            r == self.spec_english_level(),
    {
        self.english_level
    }

    /// Returns the bounded daily learning goal.
    pub fn daily_goal(&self) -> (r: u16)
        ensures
            r == self.spec_daily_goal(),
    {
        self.daily_goal
    }

    /// Returns the persistent history-retention choice.
    pub fn history(&self) -> (r: HistoryPreference)
        ensures
            r == self.spec_history(),
    {
        self.history
    }

    /// Returns whether private personalization may be applied after shared retrieval.
    pub fn personalization_enabled(&self) -> (r: bool)
        ensures
            r == self.spec_personalization_enabled(),
    {
        self.personalization_enabled
    }

    /// Returns the mature-content projection preference.
    pub fn mature_content_mode(&self) -> (r: MatureContentMode)
        ensures
            r == self.spec_mature_content_mode(),
    {
        self.mature_content_mode
    }

    /// Returns the learner's accessibility preferences.
    pub fn accessibility(&self) -> (r: AccessibilityPreferences)
        ensures
            r == self.spec_accessibility(),
    {
        self.accessibility
    }

    /// Selects the privacy-safe history action before a lookup ID or private cache is created.
    ///
    /// Incognito requests and learners without opt-in are suppressed; otherwise the entry
    /// expires the retention period after `occurred_at`, and
    /// `HistoryRetentionError::ExpiryOverflow` is returned when that instant cannot be
    /// represented.
    pub fn history_decision(&self, mode: HistoryMode, occurred_at: UtcTimestamp) -> (r: Result<
        HistoryDecision,
        HistoryRetentionError,
    >)
        ensures
            mode == HistoryMode::Incognito ==> r == Ok::<_, HistoryRetentionError>(
                HistoryDecision::Suppress { reason: HistorySuppressionReason::Incognito },
            ),
            mode == HistoryMode::Default && self.spec_history() == HistoryPreference::Disabled ==> r
                == Ok::<_, HistoryRetentionError>(
                HistoryDecision::Suppress { reason: HistorySuppressionReason::HistoryDisabled },
            ),
            mode == HistoryMode::Default && self.spec_history() is OptedIn ==> match r {
                Ok(HistoryDecision::Record { expires_at }) => expires_at.epoch_nanos()
                    == occurred_at.epoch_nanos() + retention_nanos(
                    self.spec_history()->0.spec_days() as int,
                ),
                Ok(HistoryDecision::Suppress { .. }) => false,
                Err(e) => e == HistoryRetentionError::ExpiryOverflow && occurred_at.epoch_nanos()
                    + retention_nanos(self.spec_history()->0.spec_days() as int)
                    >= timestamp_limit(),
            },
    {
        if mode == HistoryMode::Incognito {
            return Ok(HistoryDecision::Suppress { reason: HistorySuppressionReason::Incognito });
        }
        match self.history {
            HistoryPreference::Disabled => Ok(
                HistoryDecision::Suppress { reason: HistorySuppressionReason::HistoryDisabled },
            ),
            HistoryPreference::OptedIn(retention) => match retention.expiry_at(occurred_at) {
                Ok(expires_at) => Ok(HistoryDecision::Record { expires_at }),
                Err(e) => Err(e),
            },
        }
    }
}

/// Failure while changing a versioned private profile.
#[derive(Debug, Clone, Copy, PartialEq, Eq, Structural)]
pub enum LearnerProfileError {
    /// The update timestamp precedes the last saved profile timestamp.
    TimeMovedBackwards,
    /// The bounded unsigned profile revision cannot be incremented further.
    RevisionExhausted,
}

impl LearnerProfileError {
    /// Human-readable description of the failure.
    pub fn message(&self) -> (r: &'static str)
        ensures
            r@ == match *self {
                LearnerProfileError::TimeMovedBackwards => "learner profile timestamp moved backwards"@,
                LearnerProfileError::RevisionExhausted => "learner profile revision is exhausted"@,
            },
    {
        match self {
            LearnerProfileError::TimeMovedBackwards => "learner profile timestamp moved backwards",
            LearnerProfileError::RevisionExhausted => "learner profile revision is exhausted",
        }
    }
}

/// Versioned private profile and preferences for one opaque learner owner.
#[derive(Clone, PartialEq, Eq)]
pub struct LearnerProfile {
    owner: LearnerId,
    preferences: LearnerPreferences,
    created_at: UtcTimestamp,
    updated_at: UtcTimestamp,
    revision: u64,
}

impl LearnerProfile {
    /// The profile owner.
    pub closed spec fn spec_owner(&self) -> Seq<char> {
        self.owner@
    }

    /// The current preference document.
    pub closed spec fn spec_preferences(&self) -> LearnerPreferences {
        self.preferences
    }

    /// The creation instant.
    pub closed spec fn spec_created_at(&self) -> UtcTimestamp {
        self.created_at
    }

    /// The last update instant.
    pub closed spec fn spec_updated_at(&self) -> UtcTimestamp {
        self.updated_at
    }

    /// The revision.
    pub closed spec fn spec_revision(&self) -> u64 {
        self.revision
    }

    /// Creates a first private profile with revision one.
    pub fn new(owner: LearnerId, preferences: LearnerPreferences, created_at: UtcTimestamp) -> (r: Self)
        ensures
            r.spec_owner() == owner@,
            r.spec_preferences() == preferences,
            r.spec_created_at() == created_at,
            r.spec_updated_at() == created_at,
            r.spec_revision() == 1,
    {
        LearnerProfile { owner, preferences, created_at, updated_at: created_at, revision: 1 }
    }

    /// Returns the opaque profile owner.
    pub fn owner(&self) -> (r: &LearnerId)
        ensures
            r@ == self.spec_owner(),
    {
        &self.owner
    }

    /// Returns the current private preference document.
    pub fn preferences(&self) -> (r: &LearnerPreferences)
        ensures
            *r == self.spec_preferences(),
    {
        &self.preferences
    }

    /// Returns the initial profile creation time.
    pub fn created_at(&self) -> (r: UtcTimestamp)
        ensures
            r == self.spec_created_at(),
    {
        self.created_at
    }

    /// Returns the last successful preference update time.
    pub fn updated_at(&self) -> (r: UtcTimestamp)
        ensures
            r == self.spec_updated_at(),
    {
        self.updated_at
    }

    /// Returns the monotonically increasing profile revision for optimistic updates.
    pub fn revision(&self) -> (r: u64)
        ensures
            r == self.spec_revision(),
    {
        self.revision
    }

    /// Replaces all preferences and advances the revision at `updated_at`.
    ///
    /// Returns `TimeMovedBackwards` when `updated_at` precedes the last update and
    /// `RevisionExhausted` when the revision cannot be incremented; the profile is then
    /// unchanged.
    pub fn replace_preferences(&mut self, preferences: LearnerPreferences, updated_at: UtcTimestamp) -> (r: Result<(), LearnerProfileError>)
        ensures
            updated_at.epoch_nanos() < old(self).spec_updated_at().epoch_nanos() ==> r == Err::<(), _>(
                LearnerProfileError::TimeMovedBackwards,
            ),
            updated_at.epoch_nanos() >= old(self).spec_updated_at().epoch_nanos()
                && old(self).spec_revision() == u64::MAX ==> r == Err::<(), _>(
                LearnerProfileError::RevisionExhausted,
            ),
            r is Err ==> *final(self) == *old(self),
            r is Ok <==> (updated_at.epoch_nanos() >= old(self).spec_updated_at().epoch_nanos()
                && old(self).spec_revision() < u64::MAX),
            r is Ok ==> {
                &&& final(self).spec_owner() == old(self).spec_owner()
                &&& final(self).spec_created_at() == old(self).spec_created_at()
                &&& final(self).spec_preferences() == preferences
                &&& final(self).spec_updated_at() == updated_at
                &&& final(self).spec_revision() == old(self).spec_revision() + 1
            },
    {
        match self.advance_revision(updated_at) {
            Ok(()) => {},
            Err(e) => return Err(e),
        }
        self.preferences = preferences;
        Ok(())
    }

    fn advance_revision(&mut self, updated_at: UtcTimestamp) -> (r: Result<(), LearnerProfileError>)
        ensures
            updated_at.epoch_nanos() < old(self).updated_at.epoch_nanos() ==> r == Err::<(), _>(
                LearnerProfileError::TimeMovedBackwards,
            ),
            updated_at.epoch_nanos() >= old(self).updated_at.epoch_nanos() && old(self).revision
                == u64::MAX ==> r == Err::<(), _>(LearnerProfileError::RevisionExhausted),
            r is Err ==> *final(self) == *old(self),
            r is Ok <==> updated_at.epoch_nanos() >= old(self).updated_at.epoch_nanos()
                && old(self).revision < u64::MAX,
            r is Ok ==> *final(self) == (LearnerProfile {
                revision: (old(self).revision + 1) as u64,
                updated_at,
                ..*old(self)
            }),
    {
        if updated_at.is_before(&self.updated_at) {
            return Err(LearnerProfileError::TimeMovedBackwards);
        }
        match self.revision.checked_add(1) {
            Some(next) => {
                self.revision = next;
                self.updated_at = updated_at;
                Ok(())
            },
            None => Err(LearnerProfileError::RevisionExhausted),
        }
    }
}

/// Validation failure for a retention-bounded history entry.
#[derive(Debug, Clone, Copy, PartialEq, Eq, Structural)]
pub enum HistoryEntryError {
    /// The expiry was not later than the occurrence instant.
    InvalidExpiry,
    /// More canonical sense references were supplied than the bounded record permits.
    TooManySenseReferences,
    /// A canonical sense appeared more than once in a single history entry.
    DuplicateSenseReference,
}

impl HistoryEntryError {
    /// Human-readable description of the failure.
    pub fn message(&self) -> (r: &'static str)
        ensures
            r@ == match *self {
                HistoryEntryError::InvalidExpiry => "history expiry must be later than occurrence time"@,
                HistoryEntryError::TooManySenseReferences => "too many history sense references"@,
                HistoryEntryError::DuplicateSenseReference => "history sense references must be distinct"@,
            },
    {
        match self {
            HistoryEntryError::InvalidExpiry => "history expiry must be later than occurrence time",
            HistoryEntryError::TooManySenseReferences => "too many history sense references",
            HistoryEntryError::DuplicateSenseReference => "history sense references must be distinct",
        }
    }
}

/// Retained private history metadata without raw query, context, note, or credential text.
#[derive(Clone, PartialEq, Eq)]
pub struct HistoryEntry {
    id: PublicId,
    owner: LearnerId,
    snapshot_id: Option<PublicId>,
    sense_ids: Vec<SenseId>,
    occurred_at: UtcTimestamp,
    expires_at: UtcTimestamp,
}

impl HistoryEntry {
    /// The entry identifier.
    pub closed spec fn spec_id(&self) -> Seq<char> {
        self.id@
    }

    /// The owner.
    pub closed spec fn spec_owner(&self) -> Seq<char> {
        self.owner@
    }

    /// The snapshot reference.
    pub closed spec fn spec_snapshot_id(&self) -> Option<PublicId> {
        self.snapshot_id
    }

    /// The referenced senses.
    pub closed spec fn spec_sense_ids(&self) -> Seq<SenseId> {
        self.sense_ids@
    }

    /// The occurrence instant.
    pub closed spec fn spec_occurred_at(&self) -> UtcTimestamp {
        self.occurred_at
    }

    /// The expiry instant.
    pub closed spec fn spec_expires_at(&self) -> UtcTimestamp {
        self.expires_at
    }

    /// Creates a retention-bounded history entry from non-sensitive canonical references.
    ///
    /// Returns `InvalidExpiry` when `expires_at` is not strictly later than `occurred_at`,
    /// `TooManySenseReferences` when more than 16 senses are given, and
    /// `DuplicateSenseReference` when a sense repeats, checked in that order.
    pub fn new(
        id: PublicId,
        owner: LearnerId,
        snapshot_id: Option<PublicId>,
        sense_ids: Vec<SenseId>,
        occurred_at: UtcTimestamp,
        expires_at: UtcTimestamp,
    ) -> (r: Result<Self, HistoryEntryError>)
        ensures
            expires_at.epoch_nanos() <= occurred_at.epoch_nanos() ==> r == Err::<Self, _>(
                HistoryEntryError::InvalidExpiry,
            ),
            expires_at.epoch_nanos() > occurred_at.epoch_nanos() && sense_ids@.len() > 16 ==> r
                == Err::<Self, _>(HistoryEntryError::TooManySenseReferences),
            expires_at.epoch_nanos() > occurred_at.epoch_nanos() && sense_ids@.len() <= 16
                && !keys_distinct(sense_ids@) ==> r == Err::<Self, _>(
                HistoryEntryError::DuplicateSenseReference,
            ),
            r is Ok <==> (expires_at.epoch_nanos() > occurred_at.epoch_nanos() && sense_ids@.len()
                <= 16 && keys_distinct(sense_ids@)),
            r matches Ok(e) ==> {
                &&& e.spec_id() == id@
                &&& e.spec_owner() == owner@
                &&& e.spec_snapshot_id() == snapshot_id
                &&& e.spec_sense_ids() == sense_ids@
                &&& e.spec_occurred_at() == occurred_at
                &&& e.spec_expires_at() == expires_at
            },
    {
        if !occurred_at.is_before(&expires_at) {
            return Err(HistoryEntryError::InvalidExpiry);
        }
        if sense_ids.len() > MAX_HISTORY_SENSE_REFERENCES {
            return Err(HistoryEntryError::TooManySenseReferences);
        }
        if !no_duplicate_keys(&sense_ids) {
            return Err(HistoryEntryError::DuplicateSenseReference);
        }
        Ok(HistoryEntry { id, owner, snapshot_id, sense_ids, occurred_at, expires_at })
    }

    /// Returns the opaque public history-event identifier.
    pub fn id(&self) -> (r: &PublicId)
        ensures
            r@ == self.spec_id(),
    {
        &self.id
    }

    /// Returns the opaque owner used only for equality-preserving private storage.
    pub fn owner(&self) -> (r: &LearnerId)
        ensures
            r@ == self.spec_owner(),
    {
        &self.owner
    }

    /// Returns the optional context-free canonical snapshot reference.
    pub fn snapshot_id(&self) -> (r: Option<&PublicId>)
        ensures
            r == match self.spec_snapshot_id() {
                Some(s) => Some(&s),
                None => None::<&PublicId>,
            },
    {
        match &self.snapshot_id {
            Some(s) => Some(s),
            None => None,
        }
    }

    /// Returns the distinct referenced canonical senses in their lookup-result order.
    pub fn sense_ids(&self) -> (r: &Vec<SenseId>)
        ensures
            r@ == self.spec_sense_ids(),
    {
        &self.sense_ids
    }

    /// Returns the instant at which the lookup occurred.
    pub fn occurred_at(&self) -> (r: UtcTimestamp)
        ensures
            r == self.spec_occurred_at(),
    {
        self.occurred_at
    }

    /// Returns the retention expiry instant.
    pub fn expires_at(&self) -> (r: UtcTimestamp)
        ensures
            r == self.spec_expires_at(),
    {
        self.expires_at
    }

    /// Returns whether the entry must no longer be returned or retained at `now`: the expiry
    /// instant itself already counts as expired.
    pub fn is_expired_at(&self, now: UtcTimestamp) -> (b: bool)
        ensures
            b == (self.spec_expires_at().epoch_nanos() <= now.epoch_nanos()),
    {
        !now.is_before(&self.expires_at)
    }
}

/// Count-only inventory used to plan a private export or deletion workflow.
#[derive(Debug, Clone, Copy, PartialEq, Eq, PartialOrd, Ord, Hash, Structural)]
pub struct LearnerDataInventory {
    profile_present: bool,
    history_entries: u64,
    saved_vocabulary_entries: u64,
}

impl LearnerDataInventory {
    /// Whether a profile exists.
    pub closed spec fn spec_profile_present(self) -> bool {
        self.profile_present
    }

    /// The count of history records.
    pub closed spec fn spec_history_entries(self) -> u64 {
        self.history_entries
    }

    /// The count of saved vocabulary records.
    pub closed spec fn spec_saved_vocabulary_entries(self) -> u64 {
        self.saved_vocabulary_entries
    }

    /// Creates a count-only inventory that intentionally contains no private content.
    pub fn new(profile_present: bool, history_entries: u64, saved_vocabulary_entries: u64) -> (r: Self)
        ensures
            r.spec_profile_present() == profile_present,
            r.spec_history_entries() == history_entries,
            r.spec_saved_vocabulary_entries() == saved_vocabulary_entries,
    {
        LearnerDataInventory { profile_present, history_entries, saved_vocabulary_entries }
    }

    /// Returns whether a local profile and preference record exists.
    pub fn profile_present(self) -> (r: bool)
        ensures
            r == self.spec_profile_present(),
    {
        self.profile_present
    }

    /// Returns the count of unexpired private history metadata records.
    pub fn history_entries(self) -> (r: u64)
        ensures
            r == self.spec_history_entries(),
    {
        self.history_entries
    }

    /// Returns the count of private saved vocabulary records.
    pub fn saved_vocabulary_entries(self) -> (r: u64)
        ensures
            r == self.spec_saved_vocabulary_entries(),
    {
        self.saved_vocabulary_entries
    }
}

/// Locally represented personal-data category in an export plan.
#[derive(Debug, Clone, Copy, PartialEq, Eq, PartialOrd, Ord, Hash, Structural)]
pub enum ExportDataCategory {
    /// Profile settings and preferences without identity-provider claims.
    ProfileAndPreferences,
    /// Retained non-sensitive history metadata and canonical references.
    HistoryMetadata,
    /// Saved vocabulary lifecycle state and canonical sense references.
    SavedVocabulary,
}

/// The categories an export of `inventory` must include, in their fixed order.
pub open spec fn export_categories(inventory: LearnerDataInventory) -> Seq<ExportDataCategory> {
    (if inventory.spec_profile_present() {
        seq![ExportDataCategory::ProfileAndPreferences]
    } else {
        Seq::empty()
    }) + (if inventory.spec_history_entries() > 0 {
        seq![ExportDataCategory::HistoryMetadata]
    } else {
        Seq::empty()
    }) + (if inventory.spec_saved_vocabulary_entries() > 0 {
        seq![ExportDataCategory::SavedVocabulary]
    } else {
        Seq::empty()
    })
}

/// Plan for an authenticated, externally executed portable data export.
///
/// This is a manifest only. It does not generate an archive, issue a download capability,
/// encrypt an object, or determine authorization.
#[derive(Clone, PartialEq, Eq)]
pub struct ExportPlan {
    owner: LearnerId,
    inventory: LearnerDataInventory,
    categories: Vec<ExportDataCategory>,
}

impl ExportPlan {
    /// The owner.
    pub closed spec fn spec_owner(&self) -> Seq<char> {
        self.owner@
    }

    /// The inventory.
    pub closed spec fn spec_inventory(&self) -> LearnerDataInventory {
        self.inventory
    }

    /// The categories.
    pub closed spec fn spec_categories(&self) -> Seq<ExportDataCategory> {
        self.categories@
    }

    /// Creates a minimal deterministic export manifest for the supplied count-only inventory.
    pub fn for_inventory(owner: LearnerId, inventory: LearnerDataInventory) -> (r: Self)
        ensures
            r.spec_owner() == owner@,
            r.spec_inventory() == inventory,
            r.spec_categories() == export_categories(inventory),
    {
        let mut categories: Vec<ExportDataCategory> = Vec::new();
        if inventory.profile_present() {
            categories.push(ExportDataCategory::ProfileAndPreferences);
        }
        if inventory.history_entries() > 0 {
            categories.push(ExportDataCategory::HistoryMetadata);
        }
        if inventory.saved_vocabulary_entries() > 0 {
            categories.push(ExportDataCategory::SavedVocabulary);
        }
        assert(categories@ =~= export_categories(inventory));
        ExportPlan { owner, inventory, categories }
    }

    /// Returns the opaque learner owner for a trusted private-workflow executor.
    pub fn owner(&self) -> (r: &LearnerId)
        ensures
            r@ == self.spec_owner(),
    {
        &self.owner
    }

    /// Returns the count-only inventory captured while planning.
    pub fn inventory(&self) -> (r: LearnerDataInventory)
        ensures
            r == self.spec_inventory(),
    {
        self.inventory
    }

    /// Returns the bounded local categories that an export worker must include.
    pub fn categories(&self) -> (r: &Vec<ExportDataCategory>)
        ensures
            r@ == self.spec_categories(),
    {
        &self.categories
    }
}

/// Ordered deletion step required for an account-deletion workflow.
#[derive(Debug, Clone, Copy, PartialEq, Eq, PartialOrd, Ord, Hash, Structural)]
pub enum AccountDeletionStep {
    /// Prevent new personalization writes before destructive work starts.
    BlockNewPersonalizationWrites,
    /// Revoke identity-backed service sessions in the identity/session boundary.
    RevokeSessions,
    /// Delete or anonymize local profile and preference records.
    DeleteProfileAndPreferences,
    /// Delete all retained private history records and context-free snapshots owned by the
    /// learner.
    DeleteHistory,
    /// Delete saved vocabulary state and private notes once encrypted storage is available.
    DeleteSavedVocabulary,
    /// Remove private caches that are not represented by this in-memory store.
    ErasePrivateCaches,
    /// Remove queued lookup payloads and private jobs at the durable-job boundary.
    EraseLookupJobs,
    /// Revoke pending capabilities and remove export artifacts.
    RevokeExports,
}

/// The ordered steps every account deletion runs.
pub open spec fn deletion_steps() -> Seq<AccountDeletionStep> {
    seq![
        AccountDeletionStep::BlockNewPersonalizationWrites,
        AccountDeletionStep::RevokeSessions,
        AccountDeletionStep::DeleteProfileAndPreferences,
        AccountDeletionStep::DeleteHistory,
        AccountDeletionStep::DeleteSavedVocabulary,
        AccountDeletionStep::ErasePrivateCaches,
        AccountDeletionStep::EraseLookupJobs,
        AccountDeletionStep::RevokeExports,
    ]
}

/// Plan for an externally authorized account-deletion workflow.
///
/// This value is not an execution API: it neither deletes records nor revokes sessions.
#[derive(Clone, PartialEq, Eq)]
pub struct AccountDeletionPlan {
    owner: LearnerId,
    inventory: LearnerDataInventory,
    steps: Vec<AccountDeletionStep>,
}

impl AccountDeletionPlan {
    /// The owner.
    pub closed spec fn spec_owner(&self) -> Seq<char> {
        self.owner@
    }

    /// The inventory.
    pub closed spec fn spec_inventory(&self) -> LearnerDataInventory {
        self.inventory
    }

    /// The steps.
    pub closed spec fn spec_steps(&self) -> Seq<AccountDeletionStep> {
        self.steps@
    }

    /// Creates the bounded ordered plan required before an external deletion executor runs.
    pub fn for_inventory(owner: LearnerId, inventory: LearnerDataInventory) -> (r: Self)
        ensures
            r.spec_owner() == owner@,
            r.spec_inventory() == inventory,
            r.spec_steps() == deletion_steps(),
    {
        let steps = vec![
            AccountDeletionStep::BlockNewPersonalizationWrites,
            AccountDeletionStep::RevokeSessions,
            AccountDeletionStep::DeleteProfileAndPreferences,
            AccountDeletionStep::DeleteHistory,
            AccountDeletionStep::DeleteSavedVocabulary,
            AccountDeletionStep::ErasePrivateCaches,
            AccountDeletionStep::EraseLookupJobs,
            AccountDeletionStep::RevokeExports,
        ];
        assert(steps@ =~= deletion_steps());
        AccountDeletionPlan { owner, inventory, steps }
    }

    /// Returns the opaque learner owner for a trusted private-workflow executor.
    pub fn owner(&self) -> (r: &LearnerId)
        ensures
            r@ == self.spec_owner(),
    {
        &self.owner
    }

    /// Returns the count-only inventory captured while planning.
    pub fn inventory(&self) -> (r: LearnerDataInventory)
        ensures
            r == self.spec_inventory(),
    {
        self.inventory
    }

    /// Returns the ordered deletion steps that must be completed and audited.
    pub fn steps(&self) -> (r: &Vec<AccountDeletionStep>)
        ensures
            r@ == self.spec_steps(),
    {
        &self.steps
    }
}

/// Lifecycle state of a private saved vocabulary entry.
#[derive(Debug, Clone, Copy, PartialEq, Eq, PartialOrd, Ord, Hash, Structural)]
pub enum SavedSenseState {
    /// The learner is actively studying the sense.
    Learning,
    /// The learner currently considers the sense known.
    Known,
    /// The sense is temporarily excluded from practice until the learner resumes it.
    Paused,
    /// The sense is retained privately but excluded from ordinary active lists and practice.
    Archived,
}

/// Non-sensitive origin of a saved vocabulary action.
#[derive(Debug, Clone, Copy, PartialEq, Eq, PartialOrd, Ord, Hash, Structural)]
pub enum SavedSenseSource {
    /// The learner explicitly saved the sense.
    Saved,
    /// The sense was saved from a lookup result.
    Lookup,
    /// The sense was saved from a practice workflow.
    Practice,
    /// The sense was imported from a learner-controlled portable export.
    Import,
}

/// Failure while validating or mutating private saved vocabulary state.
#[derive(Debug, Clone, Copy, PartialEq, Eq, Structural)]
pub enum SavedVocabularyError {
    /// More successor candidates were supplied than the bounded contract permits.
    TooManySuccessors,
    /// A successor candidate appeared more than once.
    DuplicateSuccessor,
    /// A successor mapping pointed a retired sense back to itself.
    SuccessorMatchesRetiredSense,
    /// An active state was requested before an ambiguous successor choice was resolved.
    SuccessorChoiceRequired,
    /// The selected successor was not one of the pending canonical candidates.
    NotPendingSuccessor,
    /// The mutation timestamp precedes the last saved entry timestamp.
    TimeMovedBackwards,
    /// The bounded unsigned entry revision cannot be incremented further.
    RevisionExhausted,
}

impl SavedVocabularyError {
    /// Human-readable description of the failure.
    pub fn message(&self) -> (r: &'static str)
        ensures
            r@ == match *self {
                SavedVocabularyError::TooManySuccessors => "too many sense successor candidates"@,
                SavedVocabularyError::DuplicateSuccessor => "sense successor candidates must be distinct"@,
                SavedVocabularyError::SuccessorMatchesRetiredSense => "a retired sense cannot be its own successor"@,
                SavedVocabularyError::SuccessorChoiceRequired => "a successor choice is required before active study can resume"@,
                SavedVocabularyError::NotPendingSuccessor => "selected sense is not a pending successor"@,
                SavedVocabularyError::TimeMovedBackwards => "saved vocabulary timestamp moved backwards"@,
                SavedVocabularyError::RevisionExhausted => "saved vocabulary revision is exhausted"@,
            },
    {
        match self {
            SavedVocabularyError::TooManySuccessors => "too many sense successor candidates",
            SavedVocabularyError::DuplicateSuccessor => "sense successor candidates must be distinct",
            SavedVocabularyError::SuccessorMatchesRetiredSense => "a retired sense cannot be its own successor",
            SavedVocabularyError::SuccessorChoiceRequired => "a successor choice is required before active study can resume",
            SavedVocabularyError::NotPendingSuccessor => "selected sense is not a pending successor",
            SavedVocabularyError::TimeMovedBackwards => "saved vocabulary timestamp moved backwards",
            SavedVocabularyError::RevisionExhausted => "saved vocabulary revision is exhausted",
        }
    }
}

/// Canonical successor mapping for a retired sense in one content-release transition.
#[derive(Debug, Clone, PartialEq, Eq)]
pub struct SenseSuccessors {
    retired_sense_id: SenseId,
    successors: Vec<SenseId>,
}

impl View for SenseSuccessors {
    type V = (Seq<char>, Seq<Seq<char>>);

    closed spec fn view(&self) -> (Seq<char>, Seq<Seq<char>>) {
        (self.retired_sense_id@, keys_of(self.successors@))
    }
}

impl SenseSuccessors {
    /// Creates a bounded ordered successor mapping for a retired canonical sense.
    ///
    /// An empty successor list means that no compatible replacement is known. A one-item list
    /// may migrate saved state automatically; several items pause an active entry for learner
    /// choice. Returns `TooManySuccessors` for more than 16 candidates,
    /// `SuccessorMatchesRetiredSense` when a candidate is the retired sense, and
    /// `DuplicateSuccessor` when a candidate repeats, checked in that order.
    pub fn new(retired_sense_id: SenseId, successors: Vec<SenseId>) -> (r: Result<Self, SavedVocabularyError>)
        ensures
            successors@.len() > 16 ==> r == Err::<Self, _>(SavedVocabularyError::TooManySuccessors),
            successors@.len() <= 16 && has_key(successors@, retired_sense_id@) ==> r == Err::<Self, _>(
                SavedVocabularyError::SuccessorMatchesRetiredSense,
            ),
            successors@.len() <= 16 && !has_key(successors@, retired_sense_id@) && !keys_distinct(
                successors@,
            ) ==> r == Err::<Self, _>(SavedVocabularyError::DuplicateSuccessor),
            r is Ok <==> (successors@.len() <= 16 && !has_key(successors@, retired_sense_id@)
                && keys_distinct(successors@)),
            r matches Ok(m) ==> m@ == (retired_sense_id@, keys_of(successors@)),
    {
        if successors.len() > MAX_SENSE_SUCCESSORS {
            return Err(SavedVocabularyError::TooManySuccessors);
        }
        if contains_key(&successors, retired_sense_id.as_str()) {
            return Err(SavedVocabularyError::SuccessorMatchesRetiredSense);
        }
        if !no_duplicate_keys(&successors) {
            return Err(SavedVocabularyError::DuplicateSuccessor);
        }
        Ok(SenseSuccessors { retired_sense_id, successors })
    }

    /// Returns the retired sense to which this mapping applies.
    pub fn retired_sense_id(&self) -> (r: &SenseId)
        ensures
            r@ == self@.0,
    {
        &self.retired_sense_id
    }

    /// Returns the distinct ordered successor candidates.
    pub fn successors(&self) -> (r: &Vec<SenseId>)
        ensures
            keys_of(r@) == self@.1,
    {
        &self.successors
    }
}

/// The observable content of a `SenseEvolutionOutcome`, with identifiers as text.
pub enum EvolutionModel {
    /// No change.
    NotApplicable,
    /// One-to-one migration.
    Migrated { from: Seq<char>, to: Seq<char> },
    /// Several candidates await a choice.
    AwaitingSelection { retired: Seq<char>, candidates: Seq<Seq<char>> },
    /// No successor exists.
    RetiredWithoutSuccessor { retired: Seq<char> },
}

/// Result of applying a canonical successor mapping to one saved entry.
#[derive(Debug, Clone, PartialEq, Eq)]
pub enum SenseEvolutionOutcome {
    /// The mapping was for a different current sense and made no change.
    NotApplicable,
    /// A one-to-one successor safely replaced the current canonical reference.
    Migrated {
        /// Retired canonical sense that was replaced.
        from: SenseId,
        /// Compatible current canonical sense.
        to: SenseId,
    },
    /// The retired sense has several plausible successors and requires learner confirmation.
    AwaitingSelection {
        /// Retired canonical sense that remains as the current reference until selection.
        retired: SenseId,
        /// Bounded deterministic successor candidates.
        candidates: Vec<SenseId>,
    },
    /// The retired sense has no compatible successor and active study was paused safely.
    RetiredWithoutSuccessor {
        /// Retired canonical sense that has no compatible replacement.
        retired: SenseId,
    },
}

impl View for SenseEvolutionOutcome {
    type V = EvolutionModel;

    open spec fn view(&self) -> EvolutionModel {
        match self {
            SenseEvolutionOutcome::NotApplicable => EvolutionModel::NotApplicable,
            SenseEvolutionOutcome::Migrated { from, to } => EvolutionModel::Migrated {
                from: from@,
                to: to@,
            },
            SenseEvolutionOutcome::AwaitingSelection { retired, candidates } => EvolutionModel::AwaitingSelection {
                retired: retired@,
                candidates: keys_of(candidates@),
            },
            SenseEvolutionOutcome::RetiredWithoutSuccessor { retired } => EvolutionModel::RetiredWithoutSuccessor {
                retired: retired@,
            },
        }
    }
}

/// The observable content of a `SavedSenseMutation`.
pub enum MutationModel {
    /// Set a lifecycle state.
    SetState(SavedSenseState),
    /// Refresh the last-seen time.
    MarkSeen,
    /// Reconcile with a successor mapping.
    ApplySuccessors { retired: Seq<char>, successors: Seq<Seq<char>> },
    /// Confirm one pending candidate.
    SelectSuccessor(Seq<char>),
}

/// Mutation requested for a private saved vocabulary entry.
#[derive(Debug, Clone, PartialEq, Eq)]
pub enum SavedSenseMutation {
    /// Set a visible lifecycle state after any required successor choice is resolved.
    SetState(SavedSenseState),
    /// Refresh the last-seen time without changing lifecycle state.
    MarkSeen,
    /// Reconcile the entry with a canonical retired-sense successor mapping.
    ApplySuccessors(SenseSuccessors),
    /// Confirm one previously offered successor candidate.
    SelectSuccessor(SenseId),
}

impl View for SavedSenseMutation {
    type V = MutationModel;

    open spec fn view(&self) -> MutationModel {
        match self {
            SavedSenseMutation::SetState(s) => MutationModel::SetState(*s),
            SavedSenseMutation::MarkSeen => MutationModel::MarkSeen,
            SavedSenseMutation::ApplySuccessors(m) => MutationModel::ApplySuccessors {
                retired: m@.0,
                successors: m@.1,
            },
            SavedSenseMutation::SelectSuccessor(s) => MutationModel::SelectSuccessor(s@),
        }
    }
}

/// The observable content of a `SavedSenseMutationOutcome`.
pub enum MutationOutcomeModel {
    /// A state was set.
    StateSet,
    /// The entry was seen.
    Seen,
    /// A successor mapping was evaluated.
    Evolution(EvolutionModel),
    /// A pending candidate was selected.
    SuccessorSelected { from: Seq<char>, to: Seq<char> },
}

/// Observable effect of one saved vocabulary mutation.
#[derive(Debug, Clone, PartialEq, Eq)]
pub enum SavedSenseMutationOutcome {
    /// The lifecycle state changed or was explicitly reaffirmed.
    StateSet,
    /// The entry's last-seen timestamp was refreshed.
    Seen,
    /// A canonical successor mapping was evaluated.
    Evolution(SenseEvolutionOutcome),
    /// The learner confirmed a pending successor candidate.
    SuccessorSelected {
        /// Retired sense replaced after explicit learner confirmation.
        from: SenseId,
        /// Selected compatible successor.
        to: SenseId,
    },
}

impl View for SavedSenseMutationOutcome {
    type V = MutationOutcomeModel;

    open spec fn view(&self) -> MutationOutcomeModel {
        match self {
            SavedSenseMutationOutcome::StateSet => MutationOutcomeModel::StateSet,
            SavedSenseMutationOutcome::Seen => MutationOutcomeModel::Seen,
            SavedSenseMutationOutcome::Evolution(o) => MutationOutcomeModel::Evolution(o@),
            SavedSenseMutationOutcome::SuccessorSelected { from, to } => MutationOutcomeModel::SuccessorSelected {
                from: from@,
                to: to@,
            },
        }
    }
}

/// The observable state of a saved vocabulary entry: identifiers as text, instants as
/// nanoseconds since the epoch.
pub struct SavedEntryModel {
    pub id: Seq<char>,
    pub owner: Seq<char>,
    pub original_sense: Seq<char>,
    pub current_sense: Seq<char>,
    pub state: SavedSenseState,
    pub source: SavedSenseSource,
    pub first_seen_at: int,
    pub last_seen_at: int,
    pub updated_at: int,
    pub revision: int,
    pub pending: Seq<Seq<char>>,
}

/// Whether an entry's state agrees with its pending successor choice: while candidates are
/// pending the entry is paused or archived, and a pending choice always offers at least two
/// candidates.
pub open spec fn entry_is_consistent(e: SavedEntryModel) -> bool {
    &&& e.pending.len() != 1
    &&& e.pending.len() > 0 ==> (e.state == SavedSenseState::Paused || e.state
        == SavedSenseState::Archived)
}

/// Whether `state` may be set while the entry's successor choice is unresolved.
pub open spec fn state_is_safe(e: SavedEntryModel, state: SavedSenseState) -> bool {
    e.pending.len() == 0 || state == SavedSenseState::Paused || state == SavedSenseState::Archived
}

/// One revision step at instant `at`: refused when time moves backwards or the revision is
/// exhausted.
pub open spec fn revision_step(e: SavedEntryModel, at: int) -> Result<SavedEntryModel, SavedVocabularyError> {
    if at < e.updated_at {
        Err(SavedVocabularyError::TimeMovedBackwards)
    } else if e.revision >= u64::MAX {
        Err(SavedVocabularyError::RevisionExhausted)
    } else {
        Ok(SavedEntryModel { revision: e.revision + 1, updated_at: at, ..e })
    }
}

/// `Paused`, unless the entry is archived.
pub open spec fn paused_unless_archived(state: SavedSenseState) -> SavedSenseState {
    if state == SavedSenseState::Archived {
        SavedSenseState::Archived
    } else {
        SavedSenseState::Paused
    }
}

/// The effect of applying the successor mapping `(retired, successors)` at `at`.
pub open spec fn successors_step(
    e: SavedEntryModel,
    retired: Seq<char>,
    successors: Seq<Seq<char>>,
    at: int,
) -> Result<(SavedEntryModel, EvolutionModel), SavedVocabularyError> {
    if retired != e.current_sense {
        Ok((e, EvolutionModel::NotApplicable))
    } else if successors.len() == 0 {
        if e.state == SavedSenseState::Paused && e.pending.len() == 0 {
            Ok((e, EvolutionModel::RetiredWithoutSuccessor { retired }))
        } else {
            match revision_step(e, at) {
                Ok(a) => Ok((
                    SavedEntryModel { state: paused_unless_archived(a.state), pending: Seq::empty(), ..a },
                    EvolutionModel::RetiredWithoutSuccessor { retired },
                )),
                Err(x) => Err(x),
            }
        }
    } else if successors.len() == 1 {
        match revision_step(e, at) {
            Ok(a) => Ok((
                SavedEntryModel { current_sense: successors[0], pending: Seq::empty(), ..a },
                EvolutionModel::Migrated { from: e.current_sense, to: successors[0] },
            )),
            Err(x) => Err(x),
        }
    } else if e.pending == successors {
        Ok((e, EvolutionModel::AwaitingSelection { retired, candidates: successors }))
    } else {
        match revision_step(e, at) {
            Ok(a) => Ok((
                SavedEntryModel { state: paused_unless_archived(a.state), pending: successors, ..a },
                EvolutionModel::AwaitingSelection { retired, candidates: successors },
            )),
            Err(x) => Err(x),
        }
    }
}

/// The effect of one mutation at `at`: the new entry and the outcome, or the error that leaves
/// the entry unchanged.
pub open spec fn mutation_step(e: SavedEntryModel, m: MutationModel, at: int) -> Result<
    (SavedEntryModel, MutationOutcomeModel),
    SavedVocabularyError,
> {
    match m {
        MutationModel::SetState(state) => if !state_is_safe(e, state) {
            Err(SavedVocabularyError::SuccessorChoiceRequired)
        } else {
            match revision_step(e, at) {
                Ok(a) => Ok((SavedEntryModel { state, ..a }, MutationOutcomeModel::StateSet)),
                Err(x) => Err(x),
            }
        },
        MutationModel::MarkSeen => match revision_step(e, at) {
            Ok(a) => Ok((SavedEntryModel { last_seen_at: at, ..a }, MutationOutcomeModel::Seen)),
            Err(x) => Err(x),
        },
        MutationModel::ApplySuccessors { retired, successors } => match successors_step(
            e,
            retired,
            successors,
            at,
        ) {
            Ok((e2, o)) => Ok((e2, MutationOutcomeModel::Evolution(o))),
            Err(x) => Err(x),
        },
        MutationModel::SelectSuccessor(s) => if !e.pending.contains(s) {
            Err(SavedVocabularyError::NotPendingSuccessor)
        } else {
            match revision_step(e, at) {
                Ok(a) => Ok((
                    SavedEntryModel { current_sense: s, pending: Seq::empty(), ..a },
                    MutationOutcomeModel::SuccessorSelected { from: e.current_sense, to: s },
                )),
                Err(x) => Err(x),
            }
        },
    }
}

/// The effect of a save refresh at `at` in state `state`.
pub open spec fn refresh_step(e: SavedEntryModel, state: SavedSenseState, at: int) -> Result<
    SavedEntryModel,
    SavedVocabularyError,
> {
    if !state_is_safe(e, state) {
        Err(SavedVocabularyError::SuccessorChoiceRequired)
    } else {
        match revision_step(e, at) {
            Ok(a) => Ok(SavedEntryModel { state, last_seen_at: at, ..a }),
            Err(x) => Err(x),
        }
    }
}

/// Versioned private saved vocabulary state independent of a mutable canonical sense key.
///
/// `id` remains stable across successor migration while the current sense may change. The
/// entry retains its original sense reference for export, audit, and migration explanations.
#[derive(Clone, PartialEq, Eq)]
pub struct SavedVocabularyEntry {
    id: PublicId,
    owner: LearnerId,
    original_sense_id: SenseId,
    current_sense_id: SenseId,
    state: SavedSenseState,
    source: SavedSenseSource,
    first_seen_at: UtcTimestamp,
    last_seen_at: UtcTimestamp,
    updated_at: UtcTimestamp,
    revision: u64,
    pending_successors: Vec<SenseId>,
}

impl View for SavedVocabularyEntry {
    type V = SavedEntryModel;

    closed spec fn view(&self) -> SavedEntryModel {
        SavedEntryModel {
            id: self.id@,
            owner: self.owner@,
            original_sense: self.original_sense_id@,
            current_sense: self.current_sense_id@,
            state: self.state,
            source: self.source,
            first_seen_at: self.first_seen_at.epoch_nanos(),
            last_seen_at: self.last_seen_at.epoch_nanos(),
            updated_at: self.updated_at.epoch_nanos(),
            revision: self.revision as int,
            pending: keys_of(self.pending_successors@),
        }
    }
}

impl SavedVocabularyEntry {
    /// Creates a first saved-sense record with a stable entry ID and revision one.
    pub fn new(
        id: PublicId,
        owner: LearnerId,
        sense_id: SenseId,
        state: SavedSenseState,
        source: SavedSenseSource,
        created_at: UtcTimestamp,
    ) -> (r: Self)
        ensures
            r@ == (SavedEntryModel {
                id: id@,
                owner: owner@,
                original_sense: sense_id@,
                current_sense: sense_id@,
                state,
                source,
                first_seen_at: created_at.epoch_nanos(),
                last_seen_at: created_at.epoch_nanos(),
                updated_at: created_at.epoch_nanos(),
                revision: 1,
                pending: Seq::empty(),
            }),
    {
        let r = SavedVocabularyEntry {
            id,
            owner,
            original_sense_id: sense_id.clone(),
            current_sense_id: sense_id,
            state,
            source,
            first_seen_at: created_at,
            last_seen_at: created_at,
            updated_at: created_at,
            revision: 1,
            pending_successors: Vec::new(),
        };
        assert(keys_of(r.pending_successors@) =~= Seq::<Seq<char>>::empty());
        r
    }

    /// Returns the stable private-entry public identifier.
    pub fn id(&self) -> (r: &PublicId)
        ensures
            r@ == self@.id,
    {
        &self.id
    }

    /// Returns the opaque owner used only for private equality checks.
    pub fn owner(&self) -> (r: &LearnerId)
        ensures
            r@ == self@.owner,
    {
        &self.owner
    }

    /// Returns the canonical sense that was initially saved.
    pub fn original_sense_id(&self) -> (r: &SenseId)
        ensures
            r@ == self@.original_sense,
    {
        &self.original_sense_id
    }

    /// Returns the canonical sense currently associated with the entry.
    pub fn current_sense_id(&self) -> (r: &SenseId)
        ensures
            r@ == self@.current_sense,
    {
        &self.current_sense_id
    }

    /// Returns the current learner-selected lifecycle state.
    pub fn state(&self) -> (r: SavedSenseState)
        ensures
            r == self@.state,
    {
        self.state
    }

    /// Returns the immutable origin of the initial save action.
    pub fn source(&self) -> (r: SavedSenseSource)
        ensures
            r == self@.source,
    {
        self.source
    }

    /// Returns the first time the learner saved or encountered this entry.
    pub fn first_seen_at(&self) -> (r: UtcTimestamp)
        ensures
            r.epoch_nanos() == self@.first_seen_at,
    {
        self.first_seen_at
    }

    /// Returns the most recent save or lookup time for this entry.
    pub fn last_seen_at(&self) -> (r: UtcTimestamp)
        ensures
            r.epoch_nanos() == self@.last_seen_at,
    {
        self.last_seen_at
    }

    /// Returns the last state mutation time.
    pub fn updated_at(&self) -> (r: UtcTimestamp)
        ensures
            r.epoch_nanos() == self@.updated_at,
    {
        self.updated_at
    }

    /// Returns the monotonically increasing revision for optimistic updates.
    pub fn revision(&self) -> (r: u64)
        ensures
            r == self@.revision,
    {
        self.revision
    }

    /// Returns pending successor candidates that must be selected before active study resumes.
    pub fn pending_successors(&self) -> (r: &Vec<SenseId>)
        ensures
            keys_of(r@) == self@.pending,
    {
        &self.pending_successors
    }

    /// Refreshes a save action atomically by updating state and last-seen time once.
    ///
    /// Returns `SuccessorChoiceRequired` when a pending split requires selection first,
    /// `TimeMovedBackwards` when `at` precedes the last update, and `RevisionExhausted` when the
    /// revision cannot be incremented; the entry is then unchanged.
    pub fn refresh(&mut self, state: SavedSenseState, at: UtcTimestamp) -> (r: Result<(), SavedVocabularyError>)
        ensures
            match refresh_step(old(self)@, state, at.epoch_nanos()) {
                Ok(e2) => r is Ok && final(self)@ == e2,
                Err(x) => r == Err::<(), _>(x) && final(self)@ == old(self)@,
            },
    {
        match self.ensure_state_is_safe(state) {
            Ok(()) => {},
            Err(e) => return Err(e),
        }
        match self.advance_revision(at) {
            Ok(()) => {},
            Err(e) => return Err(e),
        }
        self.state = state;
        self.last_seen_at = at;
        Ok(())
    }

    /// Applies one lifecycle or successor mutation at a monotonic UTC instant, as
    /// `mutation_step` describes.
    ///
    /// Errors are returned when an unsafe state transition is requested, the successor choice
    /// is invalid, time moves backwards, or the revision is exhausted; the entry is then
    /// unchanged.
    pub fn mutate(&mut self, mutation: SavedSenseMutation, at: UtcTimestamp) -> (r: Result<
        SavedSenseMutationOutcome,
        SavedVocabularyError,
    >)
        ensures
            match mutation_step(old(self)@, mutation@, at.epoch_nanos()) {
                Ok((e2, o)) => r matches Ok(out) && out@ == o && final(self)@ == e2,
                Err(x) => r == Err::<SavedSenseMutationOutcome, _>(x) && final(self)@ == old(self)@,
            },
    {
        match mutation {
            SavedSenseMutation::SetState(state) => {
                match self.ensure_state_is_safe(state) {
                    Ok(()) => {},
                    Err(e) => return Err(e),
                }
                match self.advance_revision(at) {
                    Ok(()) => {},
                    Err(e) => return Err(e),
                }
                self.state = state;
                Ok(SavedSenseMutationOutcome::StateSet)
            },
            SavedSenseMutation::MarkSeen => {
                match self.advance_revision(at) {
                    Ok(()) => {},
                    Err(e) => return Err(e),
                }
                self.last_seen_at = at;
                Ok(SavedSenseMutationOutcome::Seen)
            },
            SavedSenseMutation::ApplySuccessors(mapping) => {
                match self.apply_successors(&mapping, at) {
                    Ok(o) => Ok(SavedSenseMutationOutcome::Evolution(o)),
                    Err(e) => Err(e),
                }
            },
            SavedSenseMutation::SelectSuccessor(successor) => {
                let pending = contains_key(&self.pending_successors, successor.as_str());
                proof {
                    crate::keyed::lemma_keys_contains(self.pending_successors@, successor@);
                }
                if !pending {
                    return Err(SavedVocabularyError::NotPendingSuccessor);
                }
                let from = self.current_sense_id.clone();
                match self.advance_revision(at) {
                    Ok(()) => {},
                    Err(e) => return Err(e),
                }
                self.current_sense_id = successor.clone();
                self.pending_successors = Vec::new();
                assert(keys_of(self.pending_successors@) =~= Seq::<Seq<char>>::empty());
                Ok(SavedSenseMutationOutcome::SuccessorSelected { from, to: successor })
            },
        }
    }

    fn ensure_state_is_safe(&self, state: SavedSenseState) -> (r: Result<(), SavedVocabularyError>)
        ensures
            r is Ok <==> state_is_safe(self@, state),
            r is Err ==> r == Err::<(), _>(SavedVocabularyError::SuccessorChoiceRequired),
    {
        if self.pending_successors.len() > 0 && !(state == SavedSenseState::Paused || state
            == SavedSenseState::Archived) {
            return Err(SavedVocabularyError::SuccessorChoiceRequired);
        }
        Ok(())
    }

    fn apply_successors(&mut self, mapping: &SenseSuccessors, at: UtcTimestamp) -> (r: Result<
        SenseEvolutionOutcome,
        SavedVocabularyError,
    >)
        ensures
            match successors_step(old(self)@, mapping@.0, mapping@.1, at.epoch_nanos()) {
                Ok((e2, o)) => r matches Ok(out) && out@ == o && final(self)@ == e2,
                Err(x) => r == Err::<SenseEvolutionOutcome, _>(x) && final(self)@ == old(self)@,
            },
    {
        if !mapping.retired_sense_id.same(&self.current_sense_id) {
            return Ok(SenseEvolutionOutcome::NotApplicable);
        }
        let n = mapping.successors.len();
        if n == 0 {
            let already_paused_without_candidates = self.state == SavedSenseState::Paused
                && self.pending_successors.len() == 0;
            if !already_paused_without_candidates {
                match self.advance_revision(at) {
                    Ok(()) => {},
                    Err(e) => return Err(e),
                }
                if self.state != SavedSenseState::Archived {
                    self.state = SavedSenseState::Paused;
                }
                self.pending_successors = Vec::new();
                assert(keys_of(self.pending_successors@) =~= Seq::<Seq<char>>::empty());
            }
            Ok(SenseEvolutionOutcome::RetiredWithoutSuccessor { retired: mapping.retired_sense_id.clone() })
        } else if n == 1 {
            match self.advance_revision(at) {
                Ok(()) => {},
                Err(e) => return Err(e),
            }
            let from = self.current_sense_id.clone();
            self.current_sense_id = mapping.successors[0].clone();
            self.pending_successors = Vec::new();
            assert(keys_of(self.pending_successors@) =~= Seq::<Seq<char>>::empty());
            Ok(SenseEvolutionOutcome::Migrated { from, to: mapping.successors[0].clone() })
        } else {
            let already_pending = crate::keyed::same_keys(&self.pending_successors, &mapping.successors);
            if !already_pending {
                match self.advance_revision(at) {
                    Ok(()) => {},
                    Err(e) => return Err(e),
                }
                if self.state != SavedSenseState::Archived {
                    self.state = SavedSenseState::Paused;
                }
                self.pending_successors = crate::domain::canonical::clone_ids(&mapping.successors);
            }
            Ok(SenseEvolutionOutcome::AwaitingSelection {
                retired: mapping.retired_sense_id.clone(),
                candidates: crate::domain::canonical::clone_ids(&mapping.successors),
            })
        }
    }

    fn advance_revision(&mut self, at: UtcTimestamp) -> (r: Result<(), SavedVocabularyError>)
        ensures
            match revision_step(old(self)@, at.epoch_nanos()) {
                Ok(e2) => r is Ok && final(self)@ == e2 && final(self).last_seen_at == old(
                    self,
                ).last_seen_at && final(self).pending_successors == old(self).pending_successors,
                Err(x) => r == Err::<(), _>(x) && *final(self) == *old(self),
            },
    {
        if at.is_before(&self.updated_at) {
            return Err(SavedVocabularyError::TimeMovedBackwards);
        }
        match self.revision.checked_add(1) {
            Some(next) => {
                self.revision = next;
                self.updated_at = at;
                Ok(())
            },
            None => Err(SavedVocabularyError::RevisionExhausted),
        }
    }
}

/// Every accepted mutation keeps a consistent entry consistent: while successor candidates are
/// pending the entry stays paused or archived, and a pending choice offers at least two
/// candidates.
pub proof fn lemma_mutation_keeps_consistency(e: SavedEntryModel, m: MutationModel, at: int)
    requires
        entry_is_consistent(e),
    ensures
        mutation_step(e, m, at) matches Ok((e2, _)) ==> entry_is_consistent(e2),
{
}

/// Every accepted mutation leaves the entry's identity, owner, original sense, source and
/// first-seen time alone, never moves its update time backwards, and raises its revision by
/// at most one.
pub proof fn lemma_mutation_keeps_identity(e: SavedEntryModel, m: MutationModel, at: int)
    ensures
        mutation_step(e, m, at) matches Ok((e2, _)) ==> {
            &&& e2.id == e.id
            &&& e2.owner == e.owner
            &&& e2.original_sense == e.original_sense
            &&& e2.source == e.source
            &&& e2.first_seen_at == e.first_seen_at
            &&& e2.updated_at >= e.updated_at
            &&& (e2.revision == e.revision || e2.revision == e.revision + 1)
            &&& (e2.revision == e.revision ==> e2 == e)
        },
{
}

/// Applying the same ambiguous split a second time changes nothing and reports the same
/// candidates.
pub proof fn lemma_split_reapplication_is_idempotent(
    e: SavedEntryModel,
    retired: Seq<char>,
    successors: Seq<Seq<char>>,
    at: int,
    later: int,
)
    requires
        successors.len() >= 2,
    ensures
        mutation_step(e, MutationModel::ApplySuccessors { retired, successors }, at) matches Ok(
            (e2, o),
        ) ==> mutation_step(e2, MutationModel::ApplySuccessors { retired, successors }, later)
            == Ok::<_, SavedVocabularyError>((e2, o)),
{
}

/// A one-to-one successor moves the entry to the successor and clears any pending choice; a
/// split pauses an unarchived entry until the learner selects one of the candidates.
pub proof fn lemma_successor_effects(e: SavedEntryModel, successors: Seq<Seq<char>>, at: int)
    requires
        entry_is_consistent(e),
    ensures
        successors.len() == 1 ==> (mutation_step(
            e,
            MutationModel::ApplySuccessors { retired: e.current_sense, successors },
            at,
        ) matches Ok((e2, _)) ==> e2.current_sense == successors[0] && e2.pending.len() == 0),
        successors.len() >= 2 ==> (mutation_step(
            e,
            MutationModel::ApplySuccessors { retired: e.current_sense, successors },
            at,
        ) matches Ok((e2, _)) ==> e2.pending == successors && (e2.state == SavedSenseState::Paused
            || e2.state == SavedSenseState::Archived)),
{
}

} // verus!
