//! Minimal wire values exchanged by the translation service.

use crate::domain::canonical::{check_language_tag, is_language_tag};
use vstd::prelude::*;

verus! {

/// Translation request accepted by the translate endpoint.
#[derive(Debug, Clone)]
pub struct TranslateRequest {
    /// Nonblank source text.
    pub text: String,
    /// BCP-47-shaped source language code.
    pub source_lang: String,
    /// BCP-47-shaped target language code.
    pub target_lang: String,
}

/// Successful translation response.
#[derive(Debug, Clone, PartialEq, Eq)]
pub struct TranslateResponse {
    /// Text returned by the selected model.
    pub translation: String,
}

/// Process health response.
#[derive(Debug, Clone, PartialEq, Eq)]
pub struct HealthResponse {
    /// Stable process status.
    pub status: &'static str,
}

/// Error response returned by the HTTP API.
#[derive(Debug, Clone, PartialEq, Eq)]
pub struct ErrorResponse {
    /// Human-readable error description.
    pub error: String,
}

/// Returns whether `value` has a conservative BCP-47 language-tag shape: one to 35 bytes, a
/// primary subtag of two to eight ASCII letters, and further subtags of one to eight ASCII
/// letters or digits, separated by `-`.
pub fn is_language_code(value: &str) -> (b: bool)
    ensures
        b == is_language_tag(value@),
{
    check_language_tag(value)
}

} // verus!
