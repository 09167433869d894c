//! Text-length routing, request validation and reply reading for the direct translation
//! providers.
//!
//! Building the HTTP requests, sending them and decoding the replies happen in the application;
//! what it sends and how it reads a reply are decided here.

use crate::domain::canonical::is_language_tag;
use crate::resilience::{ProviderAttemptError, ProviderMetricsSnapshot};
use crate::text::{chars_of, is_blank, str_is_blank, trim, trimmed_string};
use crate::types::{is_language_code, TranslateRequest};
use vstd::prelude::*;
use vstd::string::StringExecFns;

verus! {

/// Failure returned by translation validation or model communication.
#[derive(Debug, Clone, PartialEq, Eq)]
pub enum TranslationError {
    /// The caller supplied an invalid request; the text says which field is wrong.
    Validation(String),
    /// The selected model could not produce a translation.
    Provider,
}

impl TranslationError {
    /// Human-readable description of the failure.
    pub fn message(&self) -> (r: String)
        ensures
            match self {
                TranslationError::Validation(m) => r@ == m@,
                TranslationError::Provider => r@ == "translation provider unavailable"@,
            },
    {
        match self {
            TranslationError::Validation(m) => m.clone(),
            TranslationError::Provider => String::from_str("translation provider unavailable"),
        }
    }
}

/// Redacted provider counters for the two direct-translation routes.
#[derive(Debug, Clone, Copy, PartialEq, Eq, Structural)]
pub struct TranslationProviderMetrics {
    /// Counters for requests routed to Gemma 4.
    pub gemma4: ProviderMetricsSnapshot,
    /// Counters for requests routed to TranslateGemma.
    pub translate_gemma: ProviderMetricsSnapshot,
}

/// The message a translation request is refused with, if any, in the order the checks run.
pub open spec fn translate_request_error(request: TranslateRequest) -> Option<&'static str> {
    if is_blank(request.text@) {
        Some("text must not be blank")
    } else if !is_language_tag(request.source_lang@) {
        Some("source_lang must be a BCP-47 language code")
    } else if !is_language_tag(request.target_lang@) {
        Some("target_lang must be a BCP-47 language code")
    } else {
        None
    }
}

/// Checks a translation request: its text must not be blank and both language codes must have
/// a BCP-47 shape.
pub fn validate_request(request: &TranslateRequest) -> (r: Result<(), TranslationError>)
    ensures
        match translate_request_error(*request) {
            Some(m) => r matches Err(TranslationError::Validation(s)) && s@ == m@,
            None => r is Ok,
        },
{
    if str_is_blank(request.text.as_str()) {
        return Err(TranslationError::Validation(String::from_str("text must not be blank")));
    }
    if !is_language_code(request.source_lang.as_str()) {
        return Err(TranslationError::Validation(String::from_str("source_lang must be a BCP-47 language code")));
    }
    if !is_language_code(request.target_lang.as_str()) {
        return Err(TranslationError::Validation(String::from_str("target_lang must be a BCP-47 language code")));
    }
    Ok(())
}

/// Whether a request with `text` goes to the long-text provider: when it has more than
/// `long_text_chars` characters.
pub fn routes_to_long_text_provider(text: &str, long_text_chars: usize) -> (b: bool)
    ensures
        b == (text@.len() > long_text_chars),
{
    chars_of(text).len() > long_text_chars
}

/// The instruction sent as the system message of a chat-style translation request.
pub fn chat_system_prompt() -> (r: &'static str)
    ensures
        r == "Translate accurately and return only the translated text.",
{
    "Translate accurately and return only the translated text."
}

/// The user message of a chat-style translation request: the instruction word `Translate`, a
/// space, `from`, the source code, ` to `, the target code, `:`, a line break, then the text.
pub fn chat_user_prompt(request: &TranslateRequest) -> (r: String)
    ensures
        r@ == "Translate"@ + " from "@ + request.source_lang@ + " to "@ + request.target_lang@ + ":\n"@ + request.text@,
{
    let mut r = String::from_str("Translate");
    r.append(" from ");
    r.append(request.source_lang.as_str());
    r.append(" to ");
    r.append(request.target_lang.as_str());
    r.append(":\n");
    r.append(request.text.as_str());
    r
}

/// Reads the translation out of a chat-completion reply, given the content of its first choice
/// when the reply had one: the content without surrounding white space, unless that is empty,
/// in which case the envelope is unusable.
pub fn read_translation(first_choice_content: Option<&str>) -> (r: Result<String, ProviderAttemptError>)
    ensures
        match first_choice_content {
            Some(c) => if is_blank(c@) {
                r == Err::<String, _>(ProviderAttemptError::InvalidEnvelope)
            } else {
                r matches Ok(t) && t@ == trim(c@)
            },
            None => r == Err::<String, _>(ProviderAttemptError::InvalidEnvelope),
        },
{
    match first_choice_content {
        Some(c) => {
            let t = trimmed_string(c);
            if t.as_str().is_empty() {
                Err(ProviderAttemptError::InvalidEnvelope)
            } else {
                Ok(t)
            }
        },
        None => Err(ProviderAttemptError::InvalidEnvelope),
    }
}

} // verus!
