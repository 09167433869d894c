//! Request-local connected-text and lexical-draft model values.

use crate::domain::translation_turn::{LexicalTurnDraft, TranslationTurn};
use vstd::prelude::*;

verus! {

/// Model and prompt versions that produced one model operation's output.
#[derive(Clone, Debug, PartialEq, Eq)]
pub struct ModelOperationVersions {
    /// Version reported for the model.
    pub model_version: String,
    /// Version of the prompt template.
    pub prompt_version: &'static str,
}

/// A connected-text translation and the versions that produced it.
#[derive(Clone, Debug, PartialEq, Eq)]
pub struct ConnectedTextOutput {
    /// Translated text.
    pub translation: String,
    /// Versions that produced it.
    pub versions: ModelOperationVersions,
}

/// A lexical draft and the versions that produced it.
#[derive(Clone)]
pub struct LexicalDraftOutput {
    /// Generated meaning candidates.
    pub draft: LexicalTurnDraft,
    /// Versions that produced them.
    pub versions: ModelOperationVersions,
}

/// One connected-text translation request.
pub struct ConnectedTextRequest<'a> {
    /// The validated turn being translated.
    pub turn: &'a TranslationTurn,
    /// The text segment to translate.
    pub text: &'a str,
    /// Terminology to keep consistent.
    pub terminology: &'a [String],
    /// The translation of the preceding segment, when there is one.
    pub preceding_translation: Option<&'a str>,
}

/// Failure returned by a translation model.
#[derive(Debug, Clone, Copy, PartialEq, Eq, Structural)]
pub enum TranslationModelError {
    /// The model cannot currently serve the request.
    Unavailable,
    /// The model returned invalid output.
    InvalidOutput,
}

impl TranslationModelError {
    /// Human-readable description of the failure.
    pub fn message(&self) -> (r: &'static str)
        ensures
            r@ == match *self {
                TranslationModelError::Unavailable => "translation model unavailable"@,
                TranslationModelError::InvalidOutput => "translation model returned invalid output"@,
            },
    {
        match self {
            TranslationModelError::Unavailable => "translation model unavailable",
            TranslationModelError::InvalidOutput => "translation model returned invalid output",
        }
    }
}

} // verus!
