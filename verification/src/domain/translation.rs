//! Domain model for an English learning translation.

use crate::domain::canonical::{canonical_language_tag, canonicalize_language_tag, is_language_tag};
use crate::text::{chars_of, nfc, nfc_string, str_eq, trim, trimmed_string};
use crate::types::is_language_code;
use vstd::prelude::*;

verus! {

/// Maximum number of Unicode scalar values in a lookup query.
pub const MAX_QUERY_CHARS: usize = 100;

/// Maximum number of Unicode scalar values in optional disambiguating context.
pub const MAX_CONTEXT_CHARS: usize = 1_000;

/// English dialect used for spelling and usage guidance.
#[derive(Debug, Clone, Copy, PartialEq, Eq, Structural)]
pub enum EnglishDialect {
    /// United States English.
    American,
    /// United Kingdom English.
    British,
}

impl EnglishDialect {
    /// Returns the dialect's canonical BCP-47 tag.
    pub fn as_tag(self) -> (r: &'static str)
        ensures
            r == match self {
                EnglishDialect::American => "en-US",
                EnglishDialect::British => "en-GB",
            },
    {
        match self {
            EnglishDialect::American => "en-US",
            EnglishDialect::British => "en-GB",
        }
    }
}

/// Common European Framework of Reference learner level.
#[derive(Debug, Clone, Copy, PartialEq, Eq, Structural)]
pub enum CefrLevel {
    /// Beginner.
    A1,
    /// Elementary.
    A2,
    /// Intermediate.
    B1,
    /// Upper intermediate.
    B2,
    /// Advanced.
    C1,
    /// Proficient.
    C2,
}

impl CefrLevel {
    /// Returns the standard CEFR label.
    pub fn as_str(self) -> (r: &'static str)
        ensures
            r == match self {
                CefrLevel::A1 => "A1",
                CefrLevel::A2 => "A2",
                CefrLevel::B1 => "B1",
                CefrLevel::B2 => "B2",
                CefrLevel::C1 => "C1",
                CefrLevel::C2 => "C2",
            },
    {
        match self {
            CefrLevel::A1 => "A1",
            CefrLevel::A2 => "A2",
            CefrLevel::B1 => "B1",
            CefrLevel::B2 => "B2",
            CefrLevel::C1 => "C1",
            CefrLevel::C2 => "C2",
        }
    }
}

/// Field-specific validation failure.
#[derive(Debug, Clone, PartialEq, Eq)]
pub struct TranslationValidationError {
    /// Invalid input field.
    pub field: &'static str,
    /// Human-readable constraint violation.
    pub message: String,
}

impl TranslationValidationError {
    fn new(field: &'static str, message: &'static str) -> (r: Self)
        ensures
            r.field == field,
            r.message@ == message@,
    {
        TranslationValidationError { field, message: String::from_str(message) }
    }

    /// The field followed by the violated constraint, as the error is displayed.
    pub fn to_text(&self) -> (r: String)
        ensures
            r@ == self.field@ + seq![' '] + self.message@,
    {
        let mut r = String::from_str(self.field);
        r.append(" ");
        r.append(self.message.as_str());
        proof {
            reveal_strlit(" ");
        }
        assert(r@ =~= self.field@ + seq![' '] + self.message@);
        r
    }
}

/// `value` without surrounding white space, in NFC form.
pub open spec fn normalized_text(value: Seq<char>) -> Seq<char> {
    nfc(trim(value))
}

/// The wire text of the automatic source-language selector.
pub open spec fn auto_selector() -> Seq<char> {
    seq!['a', 'u', 't', 'o']
}

/// The normalized optional context: `None` when absent or blank after normalization.
pub open spec fn normalized_context(context: Option<Seq<char>>) -> Option<Seq<char>> {
    match context {
        Some(c) => if normalized_text(c).len() > 0 {
            Some(normalized_text(c))
        } else {
            None
        },
        None => None,
    }
}

/// The field and message a learner input is refused with, if any, in the order the checks run.
pub open spec fn translation_input_error(query: Seq<char>, source_language: Seq<char>, context: Option<Seq<char>>, explanation_language: Seq<char>) -> Option<(&'static str, &'static str)> {
    if normalized_text(query).len() == 0 {
        Some(("query", "must not be blank"))
    } else if normalized_text(query).len() > 100 {
        Some(("query", "must contain at most 100 characters"))
    } else if source_language != auto_selector() && !is_language_tag(source_language) {
        Some(("source_language", "must be `auto` or a BCP-47 language tag"))
    } else if !is_language_tag(explanation_language) {
        Some(("explanation_language", "must be a BCP-47 language tag"))
    } else if normalized_context(context) matches Some(c) && c.len() > 1000 {
        Some(("context", "must contain at most 1000 characters"))
    } else {
        None
    }
}

/// The canonical form of a source-language selector: `auto` as given, a tag in canonical case.
pub open spec fn normalized_language(value: Seq<char>) -> Seq<char> {
    if value == auto_selector() {
        value
    } else {
        canonical_language_tag(value)
    }
}

/// Validated input to the learning translation pipeline.
#[derive(Debug, Clone, PartialEq, Eq)]
pub struct TranslationInput {
    /// NFC-normalized word or short expression supplied by the learner.
    pub query: String,
    /// BCP-47 source language or `auto`.
    pub source_language: String,
    /// Optional NFC-normalized sentence or phrase used to rank meanings.
    pub context: Option<String>,
    /// Language used for supporting explanations and localized glosses.
    pub explanation_language: String,
    /// Requested English dialect.
    pub english_dialect: EnglishDialect,
    /// Optional CEFR level used to simplify explanations.
    pub learner_level: Option<CefrLevel>,
}

fn normalize_text(value: &str) -> (r: String)
    ensures
        r@ == normalized_text(value@),
{
    let trimmed = trimmed_string(value);
    nfc_string(trimmed.as_str())
}

fn normalize_language_tag(value: &str) -> (r: String)
    ensures
        r@ == normalized_language(value@),
{
    proof {
        reveal_strlit("auto");
        assert("auto"@ =~= auto_selector());
    }
    if str_eq(value, "auto") {
        return value.to_string();
    }
    canonicalize_language_tag(value)
}

impl TranslationInput {
    /// Validates and normalizes learner input.
    ///
    /// The query and context are trimmed and put in NFC form; a blank context is dropped. The
    /// query must not be blank and may have at most 100 characters, the context at most 1,000;
    /// the source language must be `auto` or a BCP-47 tag and the explanation language a BCP-47
    /// tag. Tags are kept in canonical case.
    pub fn new(
        query: &str,
        source_language: &str,
        context: Option<&str>,
        explanation_language: &str,
        english_dialect: EnglishDialect,
        learner_level: Option<CefrLevel>,
    ) -> (r: Result<Self, TranslationValidationError>)
        ensures
            match translation_input_error(
                query@,
                source_language@,
                match context {
                    Some(c) => Some(c@),
                    None => None,
                },
                explanation_language@,
            ) {
                Some((field, message)) => r matches Err(e) && e.field == field && e.message@ == message@,
                None => r matches Ok(input) && {
                    &&& input.query@ == normalized_text(query@)
                    &&& input.source_language@ == normalized_language(source_language@)
                    &&& match normalized_context(
                        match context {
                            Some(c) => Some(c@),
                            None => None,
                        },
                    ) {
                        Some(c) => input.context matches Some(s) && s@ == c,
                        None => input.context is None,
                    }
                    &&& input.explanation_language@ == canonical_language_tag(explanation_language@)
                    &&& input.english_dialect == english_dialect
                    &&& input.learner_level == learner_level
                },
            },
    {
        let query = normalize_text(query);
        let query_len = chars_of(query.as_str()).len();
        if query_len == 0 {
            return Err(TranslationValidationError::new("query", "must not be blank"));
        }
        if query_len > MAX_QUERY_CHARS {
            return Err(TranslationValidationError::new("query", "must contain at most 100 characters"));
        }
        proof {
            reveal_strlit("auto");
            assert("auto"@ =~= auto_selector());
        }
        if !str_eq(source_language, "auto") && !is_language_code(source_language) {
            return Err(TranslationValidationError::new("source_language", "must be `auto` or a BCP-47 language tag"));
        }
        if !is_language_code(explanation_language) {
            return Err(TranslationValidationError::new("explanation_language", "must be a BCP-47 language tag"));
        }
        let context = match context {
            Some(c) => {
                let normalized = normalize_text(c);
                if chars_of(normalized.as_str()).len() == 0 {
                    None
                } else {
                    Some(normalized)
                }
            },
            None => None,
        };
        let too_long = match &context {
            Some(c) => chars_of(c.as_str()).len() > MAX_CONTEXT_CHARS,
            None => false,
        };
        if too_long {
            return Err(TranslationValidationError::new("context", "must contain at most 1000 characters"));
        }
        Ok(TranslationInput {
            query,
            source_language: normalize_language_tag(source_language),
            context,
            explanation_language: canonicalize_language_tag(explanation_language),
            english_dialect,
            learner_level,
        })
    }
}

/// Coarse confidence bucket that does not imply sourced lexical truth.
#[derive(Debug, Clone, Copy, PartialEq, Eq, Structural)]
pub enum Confidence {
    /// Strong model confidence.
    High,
    /// Plausible result with meaningful uncertainty.
    Medium,
    /// Weak result that should be treated as a suggestion.
    Low,
}

/// Supported word classes for a generated English meaning.
#[derive(Debug, Clone, Copy, PartialEq, Eq, Structural)]
pub enum PartOfSpeech {
    /// Noun.
    Noun,
    /// Verb.
    Verb,
    /// Adjective.
    Adjective,
    /// Adverb.
    Adverb,
    /// Pronoun.
    Pronoun,
    /// Preposition.
    Preposition,
    /// Conjunction.
    Conjunction,
    /// Determiner.
    Determiner,
    /// Interjection.
    Interjection,
    /// Numeral.
    Numeral,
    /// Multi-word expression or other lexical category.
    Other,
}

/// One pronunciation spelling.
#[derive(Debug, Clone, PartialEq, Eq)]
pub struct Pronunciation {
    /// IPA or another explicitly named notation.
    pub value: String,
    /// Notation name, normally `ipa`.
    pub notation: String,
    /// Optional dialect tag.
    pub dialect: Option<String>,
}

/// One English form connected to the entry.
#[derive(Debug, Clone, PartialEq, Eq)]
pub struct WordForm {
    /// Surface form.
    pub form: String,
    /// Learner-readable grammatical label.
    pub label: String,
}

/// Supported usage-note categories.
#[derive(Debug, Clone, Copy, PartialEq, Eq, Structural)]
pub enum UsageNoteKind {
    /// Formality, tone, or social setting.
    Register,
    /// Dialect or regional restriction.
    Dialect,
    /// Grammatical construction.
    Grammar,
    /// Common word combination.
    Collocation,
    /// Common learner error or misleading transfer.
    Pitfall,
    /// Frequency or habitual-use guidance.
    Habit,
}

/// Usage guidance attached to this meaning.
#[derive(Debug, Clone, PartialEq, Eq)]
pub struct UsageNote {
    /// Note category such as register, grammar, collocation, or pitfall.
    pub kind: UsageNoteKind,
    /// Concise guidance.
    pub text: String,
}

/// Example sentence showing the entry in use.
#[derive(Debug, Clone, PartialEq, Eq)]
pub struct UsageExample {
    /// English example sentence.
    pub english: String,
    /// Optional translation in the explanation language.
    pub localized: Option<String>,
}

/// Relationship categories useful to a learner.
#[derive(Debug, Clone, Copy, PartialEq, Eq, Structural)]
pub enum RelationKind {
    /// Similar meaning in some contexts.
    Synonym,
    /// Opposing meaning in some contexts.
    Antonym,
    /// Broader semantic category.
    Broader,
    /// Narrower semantic category.
    Narrower,
    /// Morphologically related lexeme.
    WordFamily,
    /// Lower member of a contextual intensity scale.
    LowerDegree,
    /// Higher member of a contextual intensity scale.
    HigherDegree,
    /// Commonly confused term.
    Confusable,
    /// Loosely associated term.
    Related,
}

/// Suggested non-canonical relation to another English word.
#[derive(Debug, Clone, PartialEq, Eq)]
pub struct RelatedWord {
    /// Related English lemma.
    pub lemma: String,
    /// Type of relationship suggested by the model.
    pub relation: RelationKind,
    /// Optional context restriction or distinction.
    pub note: Option<String>,
}

/// One English meaning and its learning annotations.
#[derive(Debug, Clone, PartialEq, Eq)]
pub struct EnglishEntry {
    /// English dictionary headword.
    pub lemma: String,
    /// Part of speech for this meaning.
    pub part_of_speech: PartOfSpeech,
    /// Short English definition.
    pub definition: String,
    /// Optional explanation in the configured explanation language.
    pub localized_gloss: Option<String>,
    /// Confidence that this meaning matches the query.
    pub confidence: Confidence,
    /// Position in results after optional context reranking.
    pub rank: u16,
    /// Pronunciation guidance, when available.
    pub pronunciations: Vec<Pronunciation>,
    /// Important inflected or derived forms.
    pub forms: Vec<WordForm>,
    /// Register, dialect, grammar, and learner-habit guidance.
    pub usage_notes: Vec<UsageNote>,
    /// Contextual examples.
    pub examples: Vec<UsageExample>,
    /// Concise word-origin summary, distinct from lookup history.
    pub etymology: Option<String>,
    /// Suggested relationships that are not canonical graph assertions.
    pub related_words: Vec<RelatedWord>,
}

/// Structured model result for one lookup.
#[derive(Debug, Clone, PartialEq, Eq)]
pub struct TranslationResult {
    /// Resolved BCP-47 source language.
    pub source_language: String,
    /// Confidence in automatic language detection, when detection was requested.
    pub language_confidence: Confidence,
    /// Ranked possible English meanings.
    pub entries: Vec<EnglishEntry>,
    /// Non-fatal limitations visible to the learner.
    pub warnings: Vec<String>,
}

} // verus!
