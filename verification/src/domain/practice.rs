//! Scheduler-neutral private practice values and safety invariants.
//!
//! This module freezes learner-visible exercises with canonical targets and version metadata, but
//! deliberately does not generate content, evaluate answers, select a spaced-repetition
//! algorithm, encrypt raw answers, authenticate learners, or expose an HTTP contract. The only
//! submission input represented here is an already-redacted evaluator outcome. In particular,
//! neither a frozen exercise nor a stored attempt can contain an accepted answer.

use crate::domain::canonical::{primary_subtag, LanguageTag, ReleaseId, SenseId};
use crate::domain::learner::{english_primary, AccessibilityPreferences, EnglishLevel, LearnerId};
use crate::keyed::{lemma_text_lt_asymmetric, lemma_text_lt_irreflexive, lemma_text_lt_total, lemma_text_lt_transitive, str_lt, text_lt};
use crate::ports::clock::{Duration, UtcTimestamp};
use crate::ports::public_id::PublicId;
use crate::text::{is_blank, str_is_blank, trim, trimmed_string, utf8_len, utf8_len_of};
use vstd::prelude::*;

verus! {

/// Largest number of frozen or claimed items permitted in one practice session.
pub const MAX_PRACTICE_SESSION_ITEMS: u8 = 50;

/// Largest number of secondary canonical targets retained by one frozen exercise.
pub const MAX_SECONDARY_PRACTICE_TARGETS: usize = 8;

/// Largest accepted length, in UTF-8 bytes, for one stable version label.
pub const MAX_PRACTICE_VERSION_LENGTH: usize = 128;

/// Largest accepted learner-visible prompt length in UTF-8 bytes.
pub const MAX_PRACTICE_PROMPT_LENGTH: usize = 12_000;

/// Nanoseconds in the largest accepted client-observed response duration: one hour.
pub open spec fn response_time_input_limit() -> int {
    3_600_000_000_000
}

/// Nanoseconds in the largest response duration exposed as an influence signal: two minutes.
pub open spec fn response_time_influence_limit() -> int {
    120_000_000_000
}

/// Largest client-observed response duration accepted before accessibility processing.
pub fn max_response_time_input() -> (d: Duration)
    ensures
        d.total_nanos() == response_time_input_limit(),
{
    Duration::from_secs(3_600)
}

/// Largest response duration exposed to a future evaluator or scheduler as an influence signal.
pub fn max_response_time_influence() -> (d: Duration)
    ensures
        d.total_nanos() == response_time_influence_limit(),
{
    Duration::from_secs(120)
}

/// Validation or counter failure for scheduler-neutral practice state.
#[derive(Debug, Clone, Copy, PartialEq, Eq, Structural)]
pub enum PracticeValidationError {
    /// A session limit was zero or exceeded the fixed bounded contract.
    SessionLimitOutOfRange,
    /// An exercise slot was zero or exceeded the fixed bounded contract.
    ItemSlotOutOfRange,
    /// A frozen exercise retained more secondary targets than the fixed bound permits.
    TooManySecondaryTargets,
    /// A frozen exercise listed its focus target as a secondary target.
    FocusTargetRepeated,
    /// A frozen exercise listed the same secondary target more than once.
    DuplicateSecondaryTarget,
    /// A version label was blank after trimming surrounding whitespace.
    BlankVersion,
    /// A version label exceeded the fixed bounded contract.
    VersionTooLong,
    /// A learner-visible prompt was blank after trimming surrounding whitespace.
    BlankPrompt,
    /// A learner-visible prompt exceeded the fixed bounded contract.
    PromptTooLong,
    /// The selected English dialect did not have `en` as its primary language.
    EnglishDialectRequired,
    /// A client-observed response duration exceeded the fixed bounded contract.
    ResponseTimeTooLong,
    /// A private practice counter or revision cannot represent another accepted attempt.
    CounterOverflow,
}

impl PracticeValidationError {
    /// Human-readable description of the failure.
    pub fn message(&self) -> (r: &'static str)
        ensures
            r@ == match *self {
                PracticeValidationError::SessionLimitOutOfRange => "practice session item limit must be between one and 50"@,
                PracticeValidationError::ItemSlotOutOfRange => "practice item slot must be between one and 50"@,
                PracticeValidationError::TooManySecondaryTargets => "practice exercise contains too many secondary targets"@,
                PracticeValidationError::FocusTargetRepeated => "practice exercise secondary targets must not repeat the focus target"@,
                PracticeValidationError::DuplicateSecondaryTarget => "practice exercise contains duplicate secondary targets"@,
                PracticeValidationError::BlankVersion => "practice version must not be blank"@,
                PracticeValidationError::VersionTooLong => "practice version exceeds the supported length"@,
                PracticeValidationError::BlankPrompt => "practice prompt must not be blank"@,
                PracticeValidationError::PromptTooLong => "practice prompt exceeds the supported length"@,
                PracticeValidationError::EnglishDialectRequired => "practice dialect must be an English language tag"@,
                PracticeValidationError::ResponseTimeTooLong => "practice response time exceeds the supported duration"@,
                PracticeValidationError::CounterOverflow => "practice mastery counters are exhausted"@,
            },
    {
        match self {
            PracticeValidationError::SessionLimitOutOfRange => "practice session item limit must be between one and 50",
            PracticeValidationError::ItemSlotOutOfRange => "practice item slot must be between one and 50",
            PracticeValidationError::TooManySecondaryTargets => "practice exercise contains too many secondary targets",
            PracticeValidationError::FocusTargetRepeated => "practice exercise secondary targets must not repeat the focus target",
            PracticeValidationError::DuplicateSecondaryTarget => "practice exercise contains duplicate secondary targets",
            PracticeValidationError::BlankVersion => "practice version must not be blank",
            PracticeValidationError::VersionTooLong => "practice version exceeds the supported length",
            PracticeValidationError::BlankPrompt => "practice prompt must not be blank",
            PracticeValidationError::PromptTooLong => "practice prompt exceeds the supported length",
            PracticeValidationError::EnglishDialectRequired => "practice dialect must be an English language tag",
            PracticeValidationError::ResponseTimeTooLong => "practice response time exceeds the supported duration",
            PracticeValidationError::CounterOverflow => "practice mastery counters are exhausted",
        }
    }
}

/// Bounded number of items, one to fifty, that may be frozen and claimed in one private
/// practice session.
#[derive(Debug, Clone, Copy, PartialEq, Eq, PartialOrd, Ord, Hash, Structural)]
pub struct PracticeSessionLimit(u8);

impl PracticeSessionLimit {
    #[verifier::type_invariant]
    spec fn inv(self) -> bool {
        1 <= self.0 <= 50
    }

    /// The item count.
    pub closed spec fn spec_get(self) -> u8 {
        self.0
    }

    /// Creates a session limit within the fixed private-state bound; zero and values above
    /// fifty are refused.
    pub fn new(value: u8) -> (r: Result<Self, PracticeValidationError>)
        ensures
            match r {
                Ok(l) => 1 <= value <= 50 && l.spec_get() == value,
                Err(e) => !(1 <= value <= 50) && e == PracticeValidationError::SessionLimitOutOfRange,
            },
    {
        if value == 0 || value > MAX_PRACTICE_SESSION_ITEMS {
            return Err(PracticeValidationError::SessionLimitOutOfRange);
        }
        Ok(PracticeSessionLimit(value))
    }

    /// Returns the bounded item count, which is never zero.
    pub fn get(self) -> (r: u8)
        ensures
            r == self.spec_get(),
            1 <= r <= 50,
    {
        proof {
            use_type_invariant(&self);
        }
        self.0
    }
}

/// One stable one-based position, at most fifty, in a bounded private practice session.
#[derive(Debug, Clone, Copy, PartialEq, Eq, PartialOrd, Ord, Hash, Structural)]
pub struct PracticeItemSlot(u8);

impl PracticeItemSlot {
    #[verifier::type_invariant]
    spec fn inv(self) -> bool {
        1 <= self.0 <= 50
    }

    /// The slot value.
    pub closed spec fn spec_get(self) -> u8 {
        self.0
    }

    /// Creates a one-based slot within the global practice-session bound; zero and values above
    /// fifty are refused.
    pub fn new(value: u8) -> (r: Result<Self, PracticeValidationError>)
        ensures
            match r {
                Ok(s) => 1 <= value <= 50 && s.spec_get() == value,
                Err(e) => !(1 <= value <= 50) && e == PracticeValidationError::ItemSlotOutOfRange,
            },
    {
        if value == 0 || value > MAX_PRACTICE_SESSION_ITEMS {
            return Err(PracticeValidationError::ItemSlotOutOfRange);
        }
        Ok(PracticeItemSlot(value))
    }

    /// Returns the one-based slot value, which is never zero.
    pub fn get(self) -> (r: u8)
        ensures
            r == self.spec_get(),
            1 <= r <= 50,
    {
        proof {
            use_type_invariant(&self);
        }
        self.0
    }
}

/// One skill dimension associated with a canonical sense in private practice state.
#[derive(Debug, Clone, Copy, PartialEq, Eq, PartialOrd, Ord, Hash, Structural)]
pub enum PracticeSkill {
    /// Recognizing a sense from a bounded learner-visible prompt.
    Recognition,
    /// Distinguishing a focus sense from related canonical senses.
    Discrimination,
    /// Recalling a target without a recognition prompt.
    Recall,
    /// Producing or recognizing an orthographic form.
    SpellingForm,
    /// Applying a collocation relation.
    Collocation,
    /// Applying a grammar relation.
    Grammar,
}

/// Position of a skill in the declared order of `PracticeSkill`.
pub open spec fn skill_rank(s: PracticeSkill) -> int {
    match s {
        PracticeSkill::Recognition => 0,
        PracticeSkill::Discrimination => 1,
        PracticeSkill::Recall => 2,
        PracticeSkill::SpellingForm => 3,
        PracticeSkill::Collocation => 4,
        PracticeSkill::Grammar => 5,
    }
}

fn skill_position(s: PracticeSkill) -> (r: u8)
    ensures
        r == skill_rank(s),
{
    match s {
        PracticeSkill::Recognition => 0,
        PracticeSkill::Discrimination => 1,
        PracticeSkill::Recall => 2,
        PracticeSkill::SpellingForm => 3,
        PracticeSkill::Collocation => 4,
        PracticeSkill::Grammar => 5,
    }
}

/// One exercise format whose learner-visible content is frozen before a claim.
#[derive(Debug, Clone, Copy, PartialEq, Eq, PartialOrd, Ord, Hash, Structural)]
pub enum PracticeExerciseKind {
    /// A recognition exercise.
    Recognition,
    /// A discrimination exercise.
    Discrimination,
    /// A recall exercise.
    Recall,
    /// A spelling or form exercise.
    SpellingForm,
    /// A collocation exercise.
    Collocation,
    /// A grammar exercise.
    Grammar,
}

/// A canonical sense and skill dimension that an exercise or mastery projection targets.
#[derive(Debug, PartialEq, Eq, PartialOrd, Ord, Hash)]
pub struct PracticeTarget {
    sense_id: SenseId,
    skill: PracticeSkill,
}

impl View for PracticeTarget {
    type V = (Seq<char>, PracticeSkill);

    closed spec fn view(&self) -> (Seq<char>, PracticeSkill) {
        (self.sense_id@, self.skill)
    }
}

impl Clone for PracticeTarget {
    fn clone(&self) -> (r: Self)
        ensures
            r@ == self@,
    {
        PracticeTarget { sense_id: self.sense_id.clone(), skill: self.skill }
    }
}

impl PracticeTarget {
    /// Creates one canonical practice target.
    pub fn new(sense_id: SenseId, skill: PracticeSkill) -> (r: Self)
        ensures
            r@ == (sense_id@, skill),
    {
        PracticeTarget { sense_id, skill }
    }

    /// Returns the canonical sense this target refers to.
    pub fn sense_id(&self) -> (r: &SenseId)
        ensures
            r@ == self@.0,
    {
        &self.sense_id
    }

    /// Returns the private practice skill dimension for this sense.
    pub fn skill(&self) -> (r: PracticeSkill)
        ensures
            r == self@.1,
    {
        self.skill
    }

    /// Whether both targets name the same sense and skill.
    pub fn same(&self, other: &PracticeTarget) -> (b: bool)
        ensures
            b == (self@ == other@),
    {
        self.skill == other.skill && self.sense_id.same(&other.sense_id)
    }
}

/// The derived order of targets: by sense identifier text, then by skill.
pub open spec fn target_lt(a: (Seq<char>, PracticeSkill), b: (Seq<char>, PracticeSkill)) -> bool {
    text_lt(a.0, b.0) || (a.0 == b.0 && skill_rank(a.1) < skill_rank(b.1))
}

/// No target is below itself.
pub proof fn lemma_target_lt_irreflexive(a: (Seq<char>, PracticeSkill))
    ensures
        !target_lt(a, a),
{
    lemma_text_lt_irreflexive(a.0);
}

/// The target order is transitive.
pub proof fn lemma_target_lt_transitive(a: (Seq<char>, PracticeSkill), b: (Seq<char>, PracticeSkill), c: (Seq<char>, PracticeSkill))
    requires
        target_lt(a, b),
        target_lt(b, c),
    ensures
        target_lt(a, c),
{
    if text_lt(a.0, b.0) && text_lt(b.0, c.0) {
        lemma_text_lt_transitive(a.0, b.0, c.0);
    }
}

/// Two different targets are ordered one way or the other.
pub proof fn lemma_target_lt_total(a: (Seq<char>, PracticeSkill), b: (Seq<char>, PracticeSkill))
    ensures
        a == b || target_lt(a, b) || target_lt(b, a),
{
    lemma_text_lt_total(a.0, b.0);
    if a.0 == b.0 && skill_rank(a.1) == skill_rank(b.1) {
        assert(a.1 == b.1);
    }
}

fn target_before(a: &PracticeTarget, b: &PracticeTarget) -> (r: bool)
    ensures
        r == target_lt(a@, b@),
{
    if a.sense_id.same(&b.sense_id) {
        proof {
            lemma_text_lt_irreflexive(a@.0);
        }
        skill_position(a.skill) < skill_position(b.skill)
    } else {
        str_lt(a.sense_id.as_str(), b.sense_id.as_str())
    }
}

/// Stable non-secret label for a frozen practice pipeline component version.
#[derive(Debug, PartialEq, Eq, PartialOrd, Ord, Hash)]
pub struct PracticeVersion(String);

impl View for PracticeVersion {
    type V = Seq<char>;

    closed spec fn view(&self) -> Seq<char> {
        self.0@
    }
}

impl Clone for PracticeVersion {
    fn clone(&self) -> (r: Self)
        ensures
            r@ == self@,
    {
        PracticeVersion(self.0.clone())
    }
}

/// The error a version label is refused with, if any.
pub open spec fn practice_version_error(value: Seq<char>) -> Option<PracticeValidationError> {
    if is_blank(value) {
        Some(PracticeValidationError::BlankVersion)
    } else if utf8_len(trim(value)) > 128 {
        Some(PracticeValidationError::VersionTooLong)
    } else {
        None
    }
}

impl PracticeVersion {
    /// Creates a trimmed version label of at most 128 bytes; a blank label is refused.
    pub fn new(value: &str) -> (r: Result<Self, PracticeValidationError>)
        ensures
            match practice_version_error(value@) {
                Some(e) => r == Err::<Self, _>(e),
                None => r matches Ok(v) && v@ == trim(value@),
            },
    {
        let trimmed = trimmed_string(value);
        if trimmed.as_str().is_empty() {
            return Err(PracticeValidationError::BlankVersion);
        }
        if utf8_len_of(trimmed.as_str()) > MAX_PRACTICE_VERSION_LENGTH as u128 {
            return Err(PracticeValidationError::VersionTooLong);
        }
        Ok(PracticeVersion(trimmed))
    }

    /// Returns the stable version label.
    pub fn as_str(&self) -> (r: &str)
        ensures
            r@ == self@,
    {
        self.0.as_str()
    }
}

/// Learner-visible frozen prompt content without an accepted answer or correction.
///
/// It has no `Debug` form because prompts can contain private learner context: `redacted_debug`
/// stands in for one. The prompt text remains available to an authorized presentation boundary
/// through `text`.
#[derive(Clone, PartialEq, Eq, PartialOrd, Ord, Hash)]
pub struct PracticePrompt(String);

impl View for PracticePrompt {
    type V = Seq<char>;

    closed spec fn view(&self) -> Seq<char> {
        self.0@
    }
}

/// The error a prompt is refused with, if any.
pub open spec fn practice_prompt_error(value: Seq<char>) -> Option<PracticeValidationError> {
    if is_blank(value) {
        Some(PracticeValidationError::BlankPrompt)
    } else if utf8_len(value) > 12_000 {
        Some(PracticeValidationError::PromptTooLong)
    } else {
        None
    }
}

impl PracticePrompt {
    /// Creates learner-visible prompt content of at most 12,000 bytes, kept as given; a blank
    /// prompt is refused.
    pub fn new(value: &str) -> (r: Result<Self, PracticeValidationError>)
        ensures
            match practice_prompt_error(value@) {
                Some(e) => r == Err::<Self, _>(e),
                None => r matches Ok(p) && p@ == value@,
            },
    {
        if str_is_blank(value) {
            return Err(PracticeValidationError::BlankPrompt);
        }
        if utf8_len_of(value) > MAX_PRACTICE_PROMPT_LENGTH as u128 {
            return Err(PracticeValidationError::PromptTooLong);
        }
        Ok(PracticePrompt(value.to_string()))
    }

    /// Returns the frozen learner-visible prompt text for an authorized presentation boundary.
    pub fn text(&self) -> (r: &str)
        ensures
            r@ == self@,
    {
        self.0.as_str()
    }

    /// A debug rendering that never shows the prompt text.
    pub fn redacted_debug(&self) -> (r: &'static str)
        ensures
            r@ == "PracticePrompt([redacted])"@,
    {
        "PracticePrompt([redacted])"
    }
}

/// Immutable pipeline and content versions attached to every frozen exercise.
#[derive(Debug, Clone, PartialEq, Eq, PartialOrd, Ord)]
pub struct PracticeVersionMetadata {
    prompt_language: LanguageTag,
    english_dialect: LanguageTag,
    level: EnglishLevel,
    content_release: ReleaseId,
    model_version: PracticeVersion,
    prompt_version: PracticeVersion,
    normalization_version: PracticeVersion,
    rubric_version: PracticeVersion,
    evaluator_version: PracticeVersion,
    scheduler_version: PracticeVersion,
}

impl PracticeVersionMetadata {
    /// The `prompt_language` field.
    pub closed spec fn spec_prompt_language(&self) -> Seq<char> {
        self.prompt_language@
    }

    /// The `english_dialect` field.
    pub closed spec fn spec_english_dialect(&self) -> Seq<char> {
        self.english_dialect@
    }

    /// The `level` field.
    pub closed spec fn spec_level(&self) -> EnglishLevel {
        self.level
    }

    /// The `content_release` field.
    pub closed spec fn spec_content_release(&self) -> Seq<char> {
        self.content_release@
    }

    /// The `model_version` field.
    pub closed spec fn spec_model_version(&self) -> Seq<char> {
        self.model_version@
    }

    /// The `prompt_version` field.
    pub closed spec fn spec_prompt_version(&self) -> Seq<char> {
        self.prompt_version@
    }

    /// The `normalization_version` field.
    pub closed spec fn spec_normalization_version(&self) -> Seq<char> {
        self.normalization_version@
    }

    /// The `rubric_version` field.
    pub closed spec fn spec_rubric_version(&self) -> Seq<char> {
        self.rubric_version@
    }

    /// The `evaluator_version` field.
    pub closed spec fn spec_evaluator_version(&self) -> Seq<char> {
        self.evaluator_version@
    }

    /// The `scheduler_version` field.
    pub closed spec fn spec_scheduler_version(&self) -> Seq<char> {
        self.scheduler_version@
    }

    /// Returns the language in which the frozen learner-visible prompt is written.
    pub fn prompt_language(&self) -> (r: &LanguageTag)
        ensures
            r@ == self.spec_prompt_language(),
    {
        &self.prompt_language
    }

    /// Returns the English dialect applicable to the exercise content and evaluation contract.
    pub fn english_dialect(&self) -> (r: &LanguageTag)
        ensures
            r@ == self.spec_english_dialect(),
    {
        &self.english_dialect
    }

    /// Returns the self-reported learner level used to select this frozen exercise.
    pub fn level(&self) -> (r: EnglishLevel)
        ensures
            r == self.spec_level(),
    {
        self.level
    }

    /// Returns the immutable canonical release backing the frozen exercise.
    pub fn content_release(&self) -> (r: &ReleaseId)
        ensures
            r@ == self.spec_content_release(),
    {
        &self.content_release
    }

    /// Returns the content-generation model version recorded for auditability.
    pub fn model_version(&self) -> (r: &PracticeVersion)
        ensures
            r@ == self.spec_model_version(),
    {
        &self.model_version
    }

    /// Returns the prompt-template version recorded for auditability.
    pub fn prompt_version(&self) -> (r: &PracticeVersion)
        ensures
            r@ == self.spec_prompt_version(),
    {
        &self.prompt_version
    }

    /// Returns the normalization implementation version recorded for auditability.
    pub fn normalization_version(&self) -> (r: &PracticeVersion)
        ensures
            r@ == self.spec_normalization_version(),
    {
        &self.normalization_version
    }

    /// Returns the rubric version recorded for auditability.
    pub fn rubric_version(&self) -> (r: &PracticeVersion)
        ensures
            r@ == self.spec_rubric_version(),
    {
        &self.rubric_version
    }

    /// Returns the evaluator version recorded for auditability.
    pub fn evaluator_version(&self) -> (r: &PracticeVersion)
        ensures
            r@ == self.spec_evaluator_version(),
    {
        &self.evaluator_version
    }

    /// Returns the scheduler version recorded for auditability without selecting its algorithm.
    pub fn scheduler_version(&self) -> (r: &PracticeVersion)
        ensures
            r@ == self.spec_scheduler_version(),
    {
        &self.scheduler_version
    }

    /// Creates complete immutable metadata for one frozen exercise.
    ///
    /// `content_release` identifies canonical lexical content. The remaining versions identify
    /// the generation, normalization, grading, and scheduler components without choosing or
    /// executing any of them here. Fails unless `english_dialect` has `en` as its primary
    /// language.
    pub fn new(
        prompt_language: LanguageTag,
        english_dialect: LanguageTag,
        level: EnglishLevel,
        content_release: ReleaseId,
        model_version: PracticeVersion,
        prompt_version: PracticeVersion,
        normalization_version: PracticeVersion,
        rubric_version: PracticeVersion,
        evaluator_version: PracticeVersion,
        scheduler_version: PracticeVersion,
    ) -> (r: Result<Self, PracticeValidationError>)
        ensures
            primary_subtag(english_dialect@) != english_primary() ==> r == Err::<Self, _>(
                PracticeValidationError::EnglishDialectRequired,
            ),
            primary_subtag(english_dialect@) == english_primary() ==> (r matches Ok(m) && {
                &&& m.spec_prompt_language() == prompt_language@
                &&& m.spec_english_dialect() == english_dialect@
                &&& m.spec_level() == level
                &&& m.spec_content_release() == content_release@
                &&& m.spec_model_version() == model_version@
                &&& m.spec_prompt_version() == prompt_version@
                &&& m.spec_normalization_version() == normalization_version@
                &&& m.spec_rubric_version() == rubric_version@
                &&& m.spec_evaluator_version() == evaluator_version@
                &&& m.spec_scheduler_version() == scheduler_version@
            }),
    {
        let primary = english_dialect.primary_language();
        let is_en = crate::text::str_eq(primary.as_str(), "en");
        proof {
            reveal_strlit("en");
            assert("en"@ =~= english_primary());
        }
        if !is_en {
            return Err(PracticeValidationError::EnglishDialectRequired);
        }
        Ok(PracticeVersionMetadata {
            prompt_language,
            english_dialect,
            level,
            content_release,
            model_version,
            prompt_version,
            normalization_version,
            rubric_version,
            evaluator_version,
            scheduler_version,
        })
    }

}


/// The sense-and-skill identities of `s`, in order.
pub open spec fn target_views(s: Seq<PracticeTarget>) -> Seq<(Seq<char>, PracticeSkill)> {
    s.map_values(|t: PracticeTarget| t@)
}

/// Whether the targets of `s` strictly increase in target order.
pub open spec fn targets_sorted(s: Seq<(Seq<char>, PracticeSkill)>) -> bool {
    forall|i: int, j: int| 0 <= i < j < s.len() ==> target_lt(#[trigger] s[i], #[trigger] s[j])
}

/// The error a frozen exercise with focus `focus` and secondary targets `secondary` is refused
/// with, if any.
pub open spec fn frozen_exercise_error(focus: (Seq<char>, PracticeSkill), secondary: Seq<(Seq<char>, PracticeSkill)>) -> Option<PracticeValidationError> {
    if secondary.len() > 8 {
        Some(PracticeValidationError::TooManySecondaryTargets)
    } else if secondary.contains(focus) {
        Some(PracticeValidationError::FocusTargetRepeated)
    } else if !secondary.no_duplicates() {
        Some(PracticeValidationError::DuplicateSecondaryTarget)
    } else {
        None
    }
}

/// Inserts `x` into the strictly sorted `v`, which does not hold it yet.
fn insert_target(v: &mut Vec<PracticeTarget>, x: PracticeTarget)
    requires
        targets_sorted(target_views(old(v)@)),
        !target_views(old(v)@).contains(x@),
    ensures
        targets_sorted(target_views(final(v)@)),
        final(v)@.len() == old(v)@.len() + 1,
        forall|t: (Seq<char>, PracticeSkill)| target_views(final(v)@).contains(t) <==> (target_views(old(v)@).contains(t) || t == x@),
{
    let ghost old_v = target_views(v@);
    let mut i: usize = 0;
    while i < v.len() && target_before(&v[i], &x)
        invariant
            i <= v.len(),
            old_v == target_views(v@),
            forall|j: int| 0 <= j < i ==> target_lt(#[trigger] old_v[j], x@),
        decreases v.len() - i,
    {
        i += 1;
    }
    let ghost xv = x@;
    proof {
        if i < v.len() {
            assert(old_v[i as int] != xv);
            lemma_target_lt_total(old_v[i as int], xv);
        }
    }
    v.insert(i, x);
    proof {
        let nv = target_views(v@);
        assert(nv.len() == old_v.len() + 1);
        assert forall|k: int| 0 <= k < nv.len() implies #[trigger] nv[k] == (if k < i {
            old_v[k]
        } else if k == i {
            xv
        } else {
            old_v[k - 1]
        }) by {}
        assert forall|a: int, c: int| 0 <= a < c < nv.len() implies target_lt(#[trigger] nv[a], #[trigger] nv[c]) by {
            if c < i {
            } else if c == i {
            } else if a == i {
                if c - 1 > i {
                    lemma_target_lt_transitive(xv, old_v[i as int], old_v[c - 1]);
                }
            } else if a < i {
            } else {
            }
        }
        assert forall|t: (Seq<char>, PracticeSkill)| nv.contains(t) <==> (old_v.contains(t) || t == xv) by {
            if nv.contains(t) {
                let j = choose|j: int| 0 <= j < nv.len() && nv[j] == t;
                if j < i {
                    assert(old_v[j] == t);
                } else if j > i {
                    assert(old_v[j - 1] == t);
                }
            }
            if old_v.contains(t) {
                let j = choose|j: int| 0 <= j < old_v.len() && old_v[j] == t;
                if j < i {
                    assert(nv[j] == t);
                } else {
                    assert(nv[j + 1] == t);
                }
            }
            if t == xv {
                assert(nv[i as int] == t);
            }
        }
    }
}

/// Immutable learner-visible exercise that is frozen before it can be claimed.
///
/// This value has focus and secondary canonical targets plus all version metadata needed to
/// reproduce the generation and grading context. It has no accepted answer, correction,
/// evaluator input, or mutable scheduling decision.
#[derive(Clone, PartialEq, Eq)]
pub struct FrozenPracticeExercise {
    id: PublicId,
    session_id: PublicId,
    slot: PracticeItemSlot,
    kind: PracticeExerciseKind,
    focus: PracticeTarget,
    secondary_targets: Vec<PracticeTarget>,
    prompt: PracticePrompt,
    versions: PracticeVersionMetadata,
    frozen_at: UtcTimestamp,
}

impl FrozenPracticeExercise {
    /// The exercise identifier.
    pub closed spec fn spec_id(&self) -> Seq<char> {
        self.id@
    }

    /// The owning session identifier.
    pub closed spec fn spec_session_id(&self) -> Seq<char> {
        self.session_id@
    }

    /// The slot.
    pub closed spec fn spec_slot(&self) -> PracticeItemSlot {
        self.slot
    }

    /// The exercise format.
    pub closed spec fn spec_kind(&self) -> PracticeExerciseKind {
        self.kind
    }

    /// The focus target.
    pub closed spec fn spec_focus(&self) -> (Seq<char>, PracticeSkill) {
        self.focus@
    }

    /// The secondary targets, in order.
    pub closed spec fn spec_secondary_targets(&self) -> Seq<(Seq<char>, PracticeSkill)> {
        target_views(self.secondary_targets@)
    }

    /// The prompt text.
    pub closed spec fn spec_prompt(&self) -> Seq<char> {
        self.prompt@
    }

    /// The version metadata.
    pub closed spec fn spec_versions(&self) -> PracticeVersionMetadata {
        self.versions
    }

    /// The freeze instant.
    pub closed spec fn spec_frozen_at(&self) -> UtcTimestamp {
        self.frozen_at
    }

    /// Creates one complete frozen practice exercise.
    ///
    /// Secondary targets are kept in the derived order of targets (by sense, then skill). At most
    /// eight are allowed; none may repeat the focus target or another secondary target.
    pub fn new(
        id: PublicId,
        session_id: PublicId,
        slot: PracticeItemSlot,
        kind: PracticeExerciseKind,
        focus: PracticeTarget,
        secondary_targets: Vec<PracticeTarget>,
        prompt: PracticePrompt,
        versions: PracticeVersionMetadata,
        frozen_at: UtcTimestamp,
    ) -> (r: Result<Self, PracticeValidationError>)
        ensures
            match frozen_exercise_error(focus@, target_views(secondary_targets@)) {
                Some(e) => r == Err::<Self, _>(e),
                None => r matches Ok(x) && {
                    &&& x.spec_id() == id@
                    &&& x.spec_session_id() == session_id@
                    &&& x.spec_slot() == slot
                    &&& x.spec_kind() == kind
                    &&& x.spec_focus() == focus@
                    &&& targets_sorted(x.spec_secondary_targets())
                    &&& x.spec_secondary_targets().len() == secondary_targets@.len()
                    &&& forall|t: (Seq<char>, PracticeSkill)| #[trigger] x.spec_secondary_targets().contains(t)
                        <==> target_views(secondary_targets@).contains(t)
                    &&& x.spec_prompt() == prompt@
                    &&& x.spec_versions() == versions
                    &&& x.spec_frozen_at() == frozen_at
                },
            },
    {
        let ghost given = target_views(secondary_targets@);
        if secondary_targets.len() > MAX_SECONDARY_PRACTICE_TARGETS {
            return Err(PracticeValidationError::TooManySecondaryTargets);
        }
        let mut i: usize = 0;
        while i < secondary_targets.len()
            invariant
                i <= secondary_targets.len(),
                secondary_targets.len() <= 8,
                given == target_views(secondary_targets@),
                forall|j: int| 0 <= j < i ==> #[trigger] given[j] != focus@,
            decreases secondary_targets.len() - i,
        {
            if secondary_targets[i].same(&focus) {
                assert(given[i as int] == focus@);
                return Err(PracticeValidationError::FocusTargetRepeated);
            }
            i += 1;
        }
        assert(!given.contains(focus@));
        let mut a: usize = 0;
        while a < secondary_targets.len()
            invariant
                a <= secondary_targets.len(),
                secondary_targets.len() <= 8,
                given == target_views(secondary_targets@),
                !given.contains(focus@),
                forall|p: int, q: int| 0 <= p < q < given.len() && p < a ==> #[trigger] given[p] != #[trigger] given[q],
            decreases secondary_targets.len() - a,
        {
            let mut b: usize = a + 1;
            while b < secondary_targets.len()
                invariant
                    a < secondary_targets.len(),
                    a + 1 <= b <= secondary_targets.len(),
                    secondary_targets.len() <= 8,
                    given == target_views(secondary_targets@),
                    !given.contains(focus@),
                    forall|p: int, q: int| 0 <= p < q < given.len() && p < a ==> #[trigger] given[p] != #[trigger] given[q],
                    forall|q: int| a < q < b ==> given[a as int] != #[trigger] given[q],
                decreases secondary_targets.len() - b,
            {
                if secondary_targets[a].same(&secondary_targets[b]) {
                    assert(given[a as int] == given[b as int]);
                    assert(!given.no_duplicates());
                    return Err(PracticeValidationError::DuplicateSecondaryTarget);
                }
                b += 1;
            }
            a += 1;
        }
        assert(given.no_duplicates());
        let total = secondary_targets.len();
        let mut rest = secondary_targets;
        let mut sorted: Vec<PracticeTarget> = Vec::new();
        let mut n: usize = 0;
        while rest.len() > 0
            invariant
                given.no_duplicates(),
                n + rest.len() == total,
                total == given.len(),
                target_views(rest@) == given.skip(n as int),
                sorted@.len() == n,
                targets_sorted(target_views(sorted@)),
                forall|t: (Seq<char>, PracticeSkill)| target_views(sorted@).contains(t) <==> given.take(n as int).contains(t),
            decreases rest.len(),
        {
            let ghost before = rest@;
            let item = rest.remove(0);
            proof {
                assert(target_views(before)[0] == before[0]@);
                assert(given.skip(n as int)[0] == given[n as int]);
                assert(item@ == given[n as int]);
                assert forall|k: int| 0 <= k < rest@.len() implies target_views(rest@)[k] == given.skip(n + 1)[k] by {
                    assert(rest@[k] == before[k + 1]);
                    assert(target_views(before)[k + 1] == before[k + 1]@);
                    assert(given.skip(n as int)[k + 1] == given.skip(n + 1)[k]);
                }
                assert(target_views(rest@) =~= given.skip(n + 1));
                assert(given.take(n + 1) =~= given.take(n as int).push(given[n as int]));
                if given.take(n as int).contains(item@) {
                    let j = choose|j: int| 0 <= j < n && given.take(n as int)[j] == item@;
                    assert(given[j] == given[n as int]);
                }
            }
            insert_target(&mut sorted, item);
            proof {
                let pre = given.take(n as int);
                let x = given[n as int];
                assert forall|t: (Seq<char>, PracticeSkill)| pre.push(x).contains(t) <==> (pre.contains(t) || t == x) by {
                    if pre.push(x).contains(t) {
                        let j = choose|j: int| 0 <= j < pre.push(x).len() && pre.push(x)[j] == t;
                        if j < pre.len() {
                            assert(pre[j] == t);
                        }
                    }
                    if pre.contains(t) {
                        let j = choose|j: int| 0 <= j < pre.len() && pre[j] == t;
                        assert(pre.push(x)[j] == t);
                    }
                    if t == x {
                        assert(pre.push(x)[pre.len() as int] == t);
                    }
                }
            }
            n += 1;
        }
        proof {
            assert(given.take(total as int) =~= given);
        }
        Ok(FrozenPracticeExercise {
            id,
            session_id,
            slot,
            kind,
            focus,
            secondary_targets: sorted,
            prompt,
            versions,
            frozen_at,
        })
    }

    /// Returns the stable public exercise identifier.
    pub fn id(&self) -> (r: &PublicId)
        ensures
            r@ == self.spec_id(),
    {
        &self.id
    }

    /// Returns the private session identifier that owns this frozen exercise.
    pub fn session_id(&self) -> (r: &PublicId)
        ensures
            r@ == self.spec_session_id(),
    {
        &self.session_id
    }

    /// Returns the stable one-based order within the bounded session.
    pub fn slot(&self) -> (r: PracticeItemSlot)
        ensures
            r == self.spec_slot(),
    {
        self.slot
    }

    /// Returns the frozen exercise format.
    pub fn kind(&self) -> (r: PracticeExerciseKind)
        ensures
            r == self.spec_kind(),
    {
        self.kind
    }

    /// Returns the canonical focus sense and skill.
    pub fn focus(&self) -> (r: &PracticeTarget)
        ensures
            r@ == self.spec_focus(),
    {
        &self.focus
    }

    /// Returns the ordered, duplicate-free secondary canonical targets.
    pub fn secondary_targets(&self) -> (r: &[PracticeTarget])
        ensures
            target_views(r@) == self.spec_secondary_targets(),
    {
        self.secondary_targets.as_slice()
    }

    /// Returns the frozen learner-visible prompt without an accepted answer.
    pub fn prompt(&self) -> (r: &PracticePrompt)
        ensures
            r@ == self.spec_prompt(),
    {
        &self.prompt
    }

    /// Returns the complete immutable provenance and component-version metadata.
    pub fn versions(&self) -> (r: &PracticeVersionMetadata)
        ensures
            *r == self.spec_versions(),
    {
        &self.versions
    }

    /// Returns the server-side instant at which the exercise was frozen.
    pub fn frozen_at(&self) -> (r: UtcTimestamp)
        ensures
            r == self.spec_frozen_at(),
    {
        self.frozen_at
    }
}

/// Bounded private practice session for one opaque learner owner.
///
/// It has no `Debug` form, as its owner reference has none.
#[derive(Clone, PartialEq, Eq)]
pub struct PracticeSession {
    id: PublicId,
    owner: LearnerId,
    item_limit: PracticeSessionLimit,
    created_at: UtcTimestamp,
}

impl PracticeSession {
    /// The `id` field.
    pub closed spec fn spec_id(&self) -> Seq<char> {
        self.id@
    }

    /// The `owner` field.
    pub closed spec fn spec_owner(&self) -> Seq<char> {
        self.owner@
    }

    /// The `item_limit` field.
    pub closed spec fn spec_item_limit(&self) -> PracticeSessionLimit {
        self.item_limit
    }

    /// The `created_at` field.
    pub closed spec fn spec_created_at(&self) -> UtcTimestamp {
        self.created_at
    }

    /// Returns the stable public identifier for this session.
    pub fn id(&self) -> (r: &PublicId)
        ensures
            r@ == self.spec_id(),
    {
        &self.id
    }

    /// Returns the opaque private owner reference for protected persistence only.
    pub fn owner(&self) -> (r: &LearnerId)
        ensures
            r@ == self.spec_owner(),
    {
        &self.owner
    }

    /// Returns the maximum number of items that may be frozen for this session.
    pub fn item_limit(&self) -> (r: PracticeSessionLimit)
        ensures
            r == self.spec_item_limit(),
    {
        self.item_limit
    }

    /// Returns the server-side instant at which the session was created.
    pub fn created_at(&self) -> (r: UtcTimestamp)
        ensures
            r == self.spec_created_at(),
    {
        self.created_at
    }

    /// Creates a bounded private session owned by an authenticated learner reference.
    pub fn new(id: PublicId, owner: LearnerId, item_limit: PracticeSessionLimit, created_at: UtcTimestamp) -> (r: Self)
        ensures
            r.spec_id() == id@,
            r.spec_owner() == owner@,
            r.spec_item_limit() == item_limit,
            r.spec_created_at() == created_at,
    {
        PracticeSession { id, owner, item_limit, created_at }
    }

}

/// A claimed but not-yet-submitted learner-visible frozen exercise.
#[derive(Clone, PartialEq, Eq)]
pub struct OutstandingPracticeItem {
    exercise: FrozenPracticeExercise,
    claimed_at: UtcTimestamp,
}

impl OutstandingPracticeItem {
    /// The `exercise` field.
    pub closed spec fn spec_exercise(&self) -> FrozenPracticeExercise {
        self.exercise
    }

    /// The `claimed_at` field.
    pub closed spec fn spec_claimed_at(&self) -> UtcTimestamp {
        self.claimed_at
    }

    /// Returns the frozen learner-visible exercise without an accepted answer.
    pub fn exercise(&self) -> (r: &FrozenPracticeExercise)
        ensures
            *r == self.spec_exercise(),
    {
        &self.exercise
    }

    /// Returns the server-side instant at which this item became outstanding.
    pub fn claimed_at(&self) -> (r: UtcTimestamp)
        ensures
            r == self.spec_claimed_at(),
    {
        self.claimed_at
    }

    /// Creates an outstanding item from an existing frozen exercise and a server-side claim
    /// time.
    pub fn new(exercise: FrozenPracticeExercise, claimed_at: UtcTimestamp) -> (r: Self)
        ensures
            r.spec_exercise() == exercise,
            r.spec_claimed_at() == claimed_at,
    {
        OutstandingPracticeItem { exercise, claimed_at }
    }

}

/// Immutable record of one accepted submission without raw or accepted answer material.
#[derive(Debug, Clone, PartialEq, Eq)]
pub struct PracticeAttempt {
    id: PublicId,
    exercise_id: PublicId,
    resolution: PracticeAttemptResolution,
    response_time: ResponseTimeInfluence,
    submitted_at: UtcTimestamp,
}

impl PracticeAttempt {
    /// The `id` field.
    pub closed spec fn spec_id(&self) -> Seq<char> {
        self.id@
    }

    /// The `exercise_id` field.
    pub closed spec fn spec_exercise_id(&self) -> Seq<char> {
        self.exercise_id@
    }

    /// The `resolution` field.
    pub closed spec fn spec_resolution(&self) -> PracticeAttemptResolution {
        self.resolution
    }

    /// The `response_time` field.
    pub closed spec fn spec_response_time(&self) -> ResponseTimeInfluence {
        self.response_time
    }

    /// The `submitted_at` field.
    pub closed spec fn spec_submitted_at(&self) -> UtcTimestamp {
        self.submitted_at
    }

    /// Returns the stable public attempt identifier.
    pub fn id(&self) -> (r: &PublicId)
        ensures
            r@ == self.spec_id(),
    {
        &self.id
    }

    /// Returns the frozen exercise identifier submitted exactly once.
    pub fn exercise_id(&self) -> (r: &PublicId)
        ensures
            r@ == self.spec_exercise_id(),
    {
        &self.exercise_id
    }

    /// Returns the redacted resolved or needs-review grading result.
    pub fn resolution(&self) -> (r: PracticeAttemptResolution)
        ensures
            r == self.spec_resolution(),
    {
        self.resolution
    }

    /// Returns the accessibility-safe capped response-time treatment.
    pub fn response_time(&self) -> (r: ResponseTimeInfluence)
        ensures
            r == self.spec_response_time(),
    {
        self.response_time
    }

    /// Returns the server-side instant at which the attempt was accepted.
    pub fn submitted_at(&self) -> (r: UtcTimestamp)
        ensures
            r == self.spec_submitted_at(),
    {
        self.submitted_at
    }

    /// Creates an immutable accepted attempt from redacted evaluator and response-time outcomes.
    pub fn new(
        id: PublicId,
        exercise_id: PublicId,
        resolution: PracticeAttemptResolution,
        response_time: ResponseTimeInfluence,
        submitted_at: UtcTimestamp,
    ) -> (r: Self)
        ensures
            r.spec_id() == id@,
            r.spec_exercise_id() == exercise_id@,
            r.spec_resolution() == resolution,
            r.spec_response_time() == response_time,
            r.spec_submitted_at() == submitted_at,
    {
        PracticeAttempt { id, exercise_id, resolution, response_time, submitted_at }
    }

}

/// Result of atomically claiming a session item or returning a prior outstanding item.
#[derive(Clone, PartialEq, Eq)]
pub enum PracticeClaimOutcome {
    /// A new frozen item was claimed for this owner.
    Claimed(OutstandingPracticeItem),
    /// An already claimed unsubmitted item was returned without claiming another item.
    Outstanding(OutstandingPracticeItem),
    /// No frozen unclaimed item remains for the requested bounded session.
    NoItemAvailable,
}

/// Redacted digest of one client idempotency key used for a private practice mutation.
///
/// An API boundary derives this digest with an application-held HMAC or equivalent. Raw client
/// keys never enter logs, traces, or persistence through this value, and it has no `Debug`
/// form: `redacted_debug` stands in for one.
#[derive(Clone, PartialEq, Eq, PartialOrd, Ord, Hash)]
pub struct PracticeIdempotencyKey([u8; 32]);

impl PracticeIdempotencyKey {
    /// The digest bytes.
    pub closed spec fn spec_bytes(&self) -> [u8; 32] {
        self.0
    }

    /// Wraps an application-derived opaque idempotency-key digest.
    pub fn new(value: [u8; 32]) -> (r: Self)
        ensures
            r.spec_bytes() == value,
    {
        PracticeIdempotencyKey(value)
    }

    /// Returns opaque bytes for equality-preserving persistence lookup only.
    pub fn as_bytes(&self) -> (r: &[u8; 32])
        ensures
            *r == self.spec_bytes(),
    {
        &self.0
    }

    /// A debug rendering that never shows the digest.
    pub fn redacted_debug(&self) -> (r: &'static str)
        ensures
            r@ == "PracticeIdempotencyKey([redacted])"@,
    {
        "PracticeIdempotencyKey([redacted])"
    }
}

/// Redacted digest of one normalized private practice mutation request.
///
/// The digest covers the mutation kind and all normalized mutation inputs: a claim includes its
/// session ID, while a submission includes its exercise ID, redacted evaluator resolution, and
/// accessibility-safe response-time treatment. Reuse of an idempotency key with a different
/// fingerprint is a conflict rather than another mutation. It has no `Debug` form:
/// `redacted_debug` stands in for one.
#[derive(Clone, PartialEq, Eq, PartialOrd, Ord, Hash)]
pub struct PracticeRequestFingerprint([u8; 32]);

impl PracticeRequestFingerprint {
    /// The digest bytes.
    pub closed spec fn spec_bytes(&self) -> [u8; 32] {
        self.0
    }

    /// Wraps an application-derived normalized-request fingerprint.
    pub fn new(value: [u8; 32]) -> (r: Self)
        ensures
            r.spec_bytes() == value,
    {
        PracticeRequestFingerprint(value)
    }

    /// Returns opaque bytes for same-request comparison only.
    pub fn as_bytes(&self) -> (r: &[u8; 32])
        ensures
            *r == self.spec_bytes(),
    {
        &self.0
    }

    /// A debug rendering that never shows the digest.
    pub fn redacted_debug(&self) -> (r: &'static str)
        ensures
            r@ == "PracticeRequestFingerprint([redacted])"@,
    {
        "PracticeRequestFingerprint([redacted])"
    }
}

/// A fully resolved evaluator outcome that a future scheduler may act on.
#[derive(Debug, Clone, Copy, PartialEq, Eq, PartialOrd, Ord, Hash, Structural)]
pub enum ResolvedPracticeOutcome {
    /// The future evaluator accepted the learner's response.
    Correct,
    /// The future evaluator rejected the learner's response.
    Incorrect,
    /// The learner explicitly skipped the frozen item.
    Skipped,
}

/// An externally selected mastery effect recorded atomically with a resolved attempt.
///
/// This is a persistence-safe boundary, not a scheduler: a future versioned scheduler chooses
/// the effect before practice-state storage is invoked, and nothing here computes due times,
/// intervals, grades, or proficiency levels.
#[derive(Debug, Clone, Copy, PartialEq, Eq, PartialOrd, Ord, Hash, Structural)]
pub enum MasteryTransition {
    /// Record that the external scheduler advanced mastery for this resolved attempt.
    Advance,
    /// Record the resolved attempt without advancing mastery.
    Hold,
}

impl MasteryTransition {
    /// Returns whether this external transition advances mastery.
    pub fn advances(self) -> (b: bool)
        ensures
            b == (self == MasteryTransition::Advance),
    {
        match self {
            MasteryTransition::Advance => true,
            MasteryTransition::Hold => false,
        }
    }
}

/// A resolved attempt and the already-selected non-algorithmic mastery effect.
#[derive(Debug, Clone, Copy, PartialEq, Eq, PartialOrd, Ord, Hash, Structural)]
pub struct ResolvedPracticeAttempt {
    outcome: ResolvedPracticeOutcome,
    mastery_transition: MasteryTransition,
}

impl ResolvedPracticeAttempt {
    /// The evaluator outcome.
    pub closed spec fn spec_outcome(self) -> ResolvedPracticeOutcome {
        self.outcome
    }

    /// The scheduler transition.
    pub closed spec fn spec_mastery_transition(self) -> MasteryTransition {
        self.mastery_transition
    }

    /// Creates a resolved evaluator outcome with an external scheduler transition.
    pub fn new(outcome: ResolvedPracticeOutcome, mastery_transition: MasteryTransition) -> (r: Self)
        ensures
            r.spec_outcome() == outcome,
            r.spec_mastery_transition() == mastery_transition,
    {
        ResolvedPracticeAttempt { outcome, mastery_transition }
    }

    /// Returns the resolved evaluator outcome.
    pub fn outcome(self) -> (r: ResolvedPracticeOutcome)
        ensures
            r == self.spec_outcome(),
    {
        self.outcome
    }

    /// Returns the externally selected scheduler transition.
    pub fn mastery_transition(self) -> (r: MasteryTransition)
        ensures
            r == self.spec_mastery_transition(),
    {
        self.mastery_transition
    }
}

/// Categorical reason a future evaluator cannot safely resolve a learner attempt.
#[derive(Debug, Clone, Copy, PartialEq, Eq, PartialOrd, Ord, Hash, Structural)]
pub enum NeedsReviewReason {
    /// The evaluator could not determine a reliable grade.
    EvaluatorUncertain,
    /// The frozen prompt or its evidence was found to be ambiguous.
    AmbiguousPrompt,
    /// A safety or policy check requires human review.
    PolicyHold,
}

/// Redacted grading result accepted by the practice-state boundary.
///
/// `NeedsReview` has no `MasteryTransition` field, so a caller cannot request a mastery advance
/// alongside an uncertain grade.
#[derive(Debug, Clone, Copy, PartialEq, Eq, PartialOrd, Ord, Hash, Structural)]
pub enum PracticeAttemptResolution {
    /// A future evaluator resolved the attempt and a future scheduler selected its effect.
    Resolved(ResolvedPracticeAttempt),
    /// The evaluator is uncertain, so the attempt must not advance mastery.
    NeedsReview(NeedsReviewReason),
}

impl PracticeAttemptResolution {
    /// Returns whether this outcome is an uncertain, non-advancing review result.
    pub fn is_needs_review(self) -> (b: bool)
        ensures
            b == (self is NeedsReview),
    {
        match self {
            PracticeAttemptResolution::Resolved(_) => false,
            PracticeAttemptResolution::NeedsReview(_) => true,
        }
    }
}

/// Bounded client-observed duration, at most one hour, captured while one frozen item was
/// outstanding.
#[derive(Debug, Clone, Copy, PartialEq, Eq, PartialOrd, Ord, Hash, Structural)]
pub struct ResponseTimeInput(Duration);

impl ResponseTimeInput {
    #[verifier::type_invariant]
    spec fn inv(self) -> bool {
        self.0.total_nanos() <= response_time_input_limit()
    }

    /// The observed duration.
    pub closed spec fn spec_observed(self) -> Duration {
        self.0
    }

    /// Creates a bounded response-time input before accessibility processing; a duration above
    /// one hour is refused.
    pub fn new(value: Duration) -> (r: Result<Self, PracticeValidationError>)
        ensures
            match r {
                Ok(t) => value.total_nanos() <= response_time_input_limit() && t.spec_observed() == value,
                Err(e) => value.total_nanos() > response_time_input_limit() && e
                    == PracticeValidationError::ResponseTimeTooLong,
            },
    {
        if max_response_time_input().is_shorter_than(&value) {
            return Err(PracticeValidationError::ResponseTimeTooLong);
        }
        Ok(ResponseTimeInput(value))
    }

    /// Returns the client-observed duration before a privacy-safe influence cap is applied.
    pub fn observed(self) -> (r: Duration)
        ensures
            r == self.spec_observed(),
            r.total_nanos() <= response_time_input_limit(),
    {
        proof {
            use_type_invariant(&self);
        }
        self.0
    }
}

#[derive(Debug, Clone, Copy, PartialEq, Eq, PartialOrd, Ord, Hash, Structural)]
enum ResponseTimeInfluenceKind {
    NotProvided,
    DisabledByAccessibility,
    Capped(Duration),
}

/// Response-time value made available to a future evaluator or scheduler.
///
/// It is absent when no input was supplied, suppressed when the learner opts out through
/// accessibility preferences, and otherwise capped at two minutes before storage. It is
/// descriptive only: nothing here turns it into a grade, interval, or mastery transition.
#[derive(Debug, Clone, Copy, PartialEq, Eq, PartialOrd, Ord, Hash, Structural)]
pub struct ResponseTimeInfluence(ResponseTimeInfluenceKind);

impl ResponseTimeInfluence {
    /// Whether no input was supplied.
    pub closed spec fn spec_not_provided(self) -> bool {
        self.0 is NotProvided
    }

    /// Whether accessibility preferences disabled timing influence.
    pub closed spec fn spec_disabled_by_accessibility(self) -> bool {
        self.0 is DisabledByAccessibility
    }

    /// The capped duration, when timing influence remains enabled.
    pub closed spec fn spec_capped(self) -> Option<Duration> {
        match self.0 {
            ResponseTimeInfluenceKind::Capped(d) => Some(d),
            _ => None,
        }
    }

    /// Applies the accessibility opt-out and the two-minute influence cap to an optional input.
    pub fn from_input(input: Option<ResponseTimeInput>, accessibility: AccessibilityPreferences) -> (r: Self)
        ensures
            accessibility.spec_disable_response_time_influence() ==> r.spec_disabled_by_accessibility()
                && r.spec_capped() is None && !r.spec_not_provided(),
            !accessibility.spec_disable_response_time_influence() && input is None ==> r.spec_not_provided()
                && r.spec_capped() is None && !r.spec_disabled_by_accessibility(),
            !accessibility.spec_disable_response_time_influence() && input is Some ==> (r.spec_capped() matches Some(d)
                && d.total_nanos() == if input->0.spec_observed().total_nanos() <= response_time_influence_limit() {
                    input->0.spec_observed().total_nanos()
                } else {
                    response_time_influence_limit()
                } && !r.spec_not_provided() && !r.spec_disabled_by_accessibility()),
    {
        if accessibility.disable_response_time_influence() {
            return ResponseTimeInfluence(ResponseTimeInfluenceKind::DisabledByAccessibility);
        }
        match input {
            Some(input) => ResponseTimeInfluence(
                ResponseTimeInfluenceKind::Capped(input.observed().shorter_of(max_response_time_influence())),
            ),
            None => ResponseTimeInfluence(ResponseTimeInfluenceKind::NotProvided),
        }
    }

    /// Returns whether no bounded response-time input was supplied.
    pub fn is_not_provided(self) -> (b: bool)
        ensures
            b == self.spec_not_provided(),
    {
        match self.0 {
            ResponseTimeInfluenceKind::NotProvided => true,
            _ => false,
        }
    }

    /// Returns whether accessibility preferences disabled timing influence entirely.
    pub fn is_disabled_by_accessibility(self) -> (b: bool)
        ensures
            b == self.spec_disabled_by_accessibility(),
    {
        match self.0 {
            ResponseTimeInfluenceKind::DisabledByAccessibility => true,
            _ => false,
        }
    }

    /// Returns the capped duration when timing influence remains enabled.
    pub fn capped_duration(self) -> (r: Option<Duration>)
        ensures
            r == self.spec_capped(),
    {
        match self.0 {
            ResponseTimeInfluenceKind::Capped(value) => Some(value),
            _ => None,
        }
    }
}


/// Whether the counters of a mastery projection agree with each other: every accepted attempt
/// is counted once under its outcome, the revision counts the accepted attempts, and only
/// resolved attempts can have advanced mastery.
pub open spec fn mastery_counters_consistent(
    revision: u64,
    submitted: u64,
    correct: u64,
    incorrect: u64,
    skipped: u64,
    needs_review: u64,
    advancements: u64,
) -> bool {
    &&& revision == submitted
    &&& submitted == correct + incorrect + skipped + needs_review
    &&& advancements <= correct + incorrect + skipped
}

/// Owner-scoped counters and version marker for one canonical sense-and-skill mastery target.
///
/// The owner is carried by the storage key rather than this outward-facing value. Counters
/// record externally supplied evaluator and scheduler decisions; they do not implement a
/// spaced-repetition algorithm or expose a proficiency grade.
#[derive(Debug, PartialEq, Eq)]
pub struct PracticeMasteryState {
    target: PracticeTarget,
    scheduler_version: PracticeVersion,
    revision: u64,
    submitted_attempts: u64,
    correct_attempts: u64,
    incorrect_attempts: u64,
    skipped_attempts: u64,
    needs_review_attempts: u64,
    mastery_advancements: u64,
    last_attempt_at: UtcTimestamp,
}

impl PracticeMasteryState {
    #[verifier::type_invariant]
    spec fn inv(self) -> bool {
        mastery_counters_consistent(
            self.revision,
            self.submitted_attempts,
            self.correct_attempts,
            self.incorrect_attempts,
            self.skipped_attempts,
            self.needs_review_attempts,
            self.mastery_advancements,
        )
    }

    /// The target.
    pub closed spec fn spec_target(&self) -> (Seq<char>, PracticeSkill) {
        self.target@
    }

    /// The scheduler version.
    pub closed spec fn spec_scheduler_version(&self) -> Seq<char> {
        self.scheduler_version@
    }

    /// The revision.
    pub closed spec fn spec_revision(&self) -> u64 {
        self.revision
    }

    /// The accepted attempts.
    pub closed spec fn spec_submitted_attempts(&self) -> u64 {
        self.submitted_attempts
    }

    /// The correct outcomes.
    pub closed spec fn spec_correct_attempts(&self) -> u64 {
        self.correct_attempts
    }

    /// The incorrect outcomes.
    pub closed spec fn spec_incorrect_attempts(&self) -> u64 {
        self.incorrect_attempts
    }

    /// The skipped outcomes.
    pub closed spec fn spec_skipped_attempts(&self) -> u64 {
        self.skipped_attempts
    }

    /// The needs-review outcomes.
    pub closed spec fn spec_needs_review_attempts(&self) -> u64 {
        self.needs_review_attempts
    }

    /// The mastery advancements.
    pub closed spec fn spec_mastery_advancements(&self) -> u64 {
        self.mastery_advancements
    }

    /// The instant of the latest accepted attempt.
    pub closed spec fn spec_last_attempt_at(&self) -> UtcTimestamp {
        self.last_attempt_at
    }

    /// Whether the counters of this value agree with each other.
    pub open spec fn counters_consistent(&self) -> bool {
        mastery_counters_consistent(
            self.spec_revision(),
            self.spec_submitted_attempts(),
            self.spec_correct_attempts(),
            self.spec_incorrect_attempts(),
            self.spec_skipped_attempts(),
            self.spec_needs_review_attempts(),
            self.spec_mastery_advancements(),
        )
    }

    /// The counters of a target with no accepted attempt yet, at revision zero.
    pub fn initial(target: PracticeTarget, scheduler_version: PracticeVersion, at: UtcTimestamp) -> (r: Self)
        ensures
            r.spec_target() == target@,
            r.spec_scheduler_version() == scheduler_version@,
            r.spec_revision() == 0,
            r.spec_submitted_attempts() == 0,
            r.spec_correct_attempts() == 0,
            r.spec_incorrect_attempts() == 0,
            r.spec_skipped_attempts() == 0,
            r.spec_needs_review_attempts() == 0,
            r.spec_mastery_advancements() == 0,
            r.spec_last_attempt_at() == at,
            r.counters_consistent(),
    {
        PracticeMasteryState {
            target,
            scheduler_version,
            revision: 0,
            submitted_attempts: 0,
            correct_attempts: 0,
            incorrect_attempts: 0,
            skipped_attempts: 0,
            needs_review_attempts: 0,
            mastery_advancements: 0,
            last_attempt_at: at,
        }
    }

    /// Records one accepted attempt with `resolution`, selected by `scheduler_version`, at `at`.
    ///
    /// The revision and the accepted-attempt count grow by one, as does the count of the
    /// attempt's outcome; mastery advancements grow by one exactly when a resolved attempt
    /// carries an advancing transition, and never for a needs-review attempt. When the revision
    /// cannot grow, `CounterOverflow` is returned and nothing changes.
    pub fn record(&mut self, resolution: PracticeAttemptResolution, scheduler_version: PracticeVersion, at: UtcTimestamp) -> (r: Result<(), PracticeValidationError>)
        ensures
            old(self).counters_consistent(),
            final(self).counters_consistent(),
            old(self).spec_revision() == u64::MAX ==> r == Err::<(), _>(PracticeValidationError::CounterOverflow)
                && *final(self) == *old(self),
            old(self).spec_revision() < u64::MAX ==> r is Ok && {
                let o = *old(self);
                let n = *final(self);
                &&& n.spec_target() == o.spec_target()
                &&& n.spec_scheduler_version() == scheduler_version@
                &&& n.spec_revision() == o.spec_revision() + 1
                &&& n.spec_submitted_attempts() == o.spec_submitted_attempts() + 1
                &&& n.spec_correct_attempts() == o.spec_correct_attempts() + if resolution matches PracticeAttemptResolution::Resolved(a) && a.spec_outcome() == ResolvedPracticeOutcome::Correct { 1int } else { 0int }
                &&& n.spec_incorrect_attempts() == o.spec_incorrect_attempts() + if resolution matches PracticeAttemptResolution::Resolved(a) && a.spec_outcome() == ResolvedPracticeOutcome::Incorrect { 1int } else { 0int }
                &&& n.spec_skipped_attempts() == o.spec_skipped_attempts() + if resolution matches PracticeAttemptResolution::Resolved(a) && a.spec_outcome() == ResolvedPracticeOutcome::Skipped { 1int } else { 0int }
                &&& n.spec_needs_review_attempts() == o.spec_needs_review_attempts() + if resolution is NeedsReview { 1int } else { 0int }
                &&& n.spec_mastery_advancements() == o.spec_mastery_advancements() + if resolution matches PracticeAttemptResolution::Resolved(a) && a.spec_mastery_transition() == MasteryTransition::Advance { 1int } else { 0int }
                &&& n.spec_last_attempt_at() == at
            },
    {
        proof {
            use_type_invariant(&*self);
        }
        let revision = match increment(self.revision) {
            Ok(v) => v,
            Err(e) => return Err(e),
        };
        let submitted_attempts = revision;
        let mut correct_attempts = self.correct_attempts;
        let mut incorrect_attempts = self.incorrect_attempts;
        let mut skipped_attempts = self.skipped_attempts;
        let mut needs_review_attempts = self.needs_review_attempts;
        let mut mastery_advancements = self.mastery_advancements;
        match resolution {
            PracticeAttemptResolution::Resolved(resolved) => {
                match resolved.outcome() {
                    ResolvedPracticeOutcome::Correct => correct_attempts = correct_attempts + 1,
                    ResolvedPracticeOutcome::Incorrect => incorrect_attempts = incorrect_attempts + 1,
                    ResolvedPracticeOutcome::Skipped => skipped_attempts = skipped_attempts + 1,
                }
                if resolved.mastery_transition().advances() {
                    mastery_advancements = mastery_advancements + 1;
                }
            },
            PracticeAttemptResolution::NeedsReview(_) => {
                needs_review_attempts = needs_review_attempts + 1;
            },
        }
        *self = PracticeMasteryState {
            target: self.target.clone(),
            scheduler_version,
            revision,
            submitted_attempts,
            correct_attempts,
            incorrect_attempts,
            skipped_attempts,
            needs_review_attempts,
            mastery_advancements,
            last_attempt_at: at,
        };
        Ok(())
    }

    /// Returns the canonical sense-and-skill target whose counters this projection represents.
    pub fn target(&self) -> (r: &PracticeTarget)
        ensures
            r@ == self.spec_target(),
    {
        &self.target
    }

    /// Returns the scheduler version that supplied the most recent recorded transition.
    pub fn scheduler_version(&self) -> (r: &PracticeVersion)
        ensures
            r@ == self.spec_scheduler_version(),
    {
        &self.scheduler_version
    }

    /// Returns the monotonic revision of accepted attempts for this private target.
    pub fn revision(&self) -> (r: u64)
        ensures
            r == self.spec_revision(),
    {
        self.revision
    }

    /// Returns the number of accepted one-time submissions, including needs-review outcomes.
    pub fn submitted_attempts(&self) -> (r: u64)
        ensures
            r == self.spec_submitted_attempts(),
    {
        self.submitted_attempts
    }

    /// Returns the number of externally resolved correct outcomes.
    pub fn correct_attempts(&self) -> (r: u64)
        ensures
            r == self.spec_correct_attempts(),
    {
        self.correct_attempts
    }

    /// Returns the number of externally resolved incorrect outcomes.
    pub fn incorrect_attempts(&self) -> (r: u64)
        ensures
            r == self.spec_incorrect_attempts(),
    {
        self.incorrect_attempts
    }

    /// Returns the number of explicitly skipped outcomes.
    pub fn skipped_attempts(&self) -> (r: u64)
        ensures
            r == self.spec_skipped_attempts(),
    {
        self.skipped_attempts
    }

    /// Returns the number of uncertain outcomes retained for review without advancement.
    pub fn needs_review_attempts(&self) -> (r: u64)
        ensures
            r == self.spec_needs_review_attempts(),
    {
        self.needs_review_attempts
    }

    /// Returns the number of externally directed mastery advancements.
    pub fn mastery_advancements(&self) -> (r: u64)
        ensures
            r == self.spec_mastery_advancements(),
    {
        self.mastery_advancements
    }

    /// Returns the server-side instant of the most recently accepted submission.
    pub fn last_attempt_at(&self) -> (r: UtcTimestamp)
        ensures
            r == self.spec_last_attempt_at(),
    {
        self.last_attempt_at
    }
}

impl Clone for PracticeMasteryState {
    fn clone(&self) -> (r: Self)
        ensures
            r.spec_target() == self.spec_target(),
            r.spec_scheduler_version() == self.spec_scheduler_version(),
            r.spec_revision() == self.spec_revision(),
            r.spec_submitted_attempts() == self.spec_submitted_attempts(),
            r.spec_correct_attempts() == self.spec_correct_attempts(),
            r.spec_incorrect_attempts() == self.spec_incorrect_attempts(),
            r.spec_skipped_attempts() == self.spec_skipped_attempts(),
            r.spec_needs_review_attempts() == self.spec_needs_review_attempts(),
            r.spec_mastery_advancements() == self.spec_mastery_advancements(),
            r.spec_last_attempt_at() == self.spec_last_attempt_at(),
    {
        proof {
            use_type_invariant(self);
        }
        PracticeMasteryState {
            target: self.target.clone(),
            scheduler_version: self.scheduler_version.clone(),
            revision: self.revision,
            submitted_attempts: self.submitted_attempts,
            correct_attempts: self.correct_attempts,
            incorrect_attempts: self.incorrect_attempts,
            skipped_attempts: self.skipped_attempts,
            needs_review_attempts: self.needs_review_attempts,
            mastery_advancements: self.mastery_advancements,
            last_attempt_at: self.last_attempt_at,
        }
    }
}

/// `value + 1`, or `CounterOverflow` when it would not fit.
fn increment(value: u64) -> (r: Result<u64, PracticeValidationError>)
    ensures
        value < u64::MAX ==> r == Ok::<u64, PracticeValidationError>((value + 1) as u64),
        value == u64::MAX ==> r == Err::<u64, _>(PracticeValidationError::CounterOverflow),
{
    match value.checked_add(1) {
        Some(v) => Ok(v),
        None => Err(PracticeValidationError::CounterOverflow),
    }
}

} // verus!
