//! Request-local unified translation values, normalization, and deterministic response
//! projection.

use crate::text::{
    char_is_space, char_utf8_width, chars_of, is_blank, is_space, lowercase_all, lowercase_string,
    nfc, nfc_string, push_char, str_eq, str_is_blank, string_from_range, trim, trimmed_chars,
    utf8_len, utf8_len_of,
};
use vstd::prelude::*;
use vstd::string::StringExecFns;

verus! {

/// Hard bound, in bytes, for serialized input accepted through either HTTP or the public
/// service API.
pub const MAX_TURN_BYTES: usize = 1_048_576;

/// Version of the request-local translation lookup normalization rules.
pub const NORMALIZER_VERSION: &'static str = "translation-lookup-nfc-v1";

/// Version of deterministic response breadth rules.
pub const PROJECTION_VERSION: &'static str = "translation-projection-v1";

/// Long input is conservatively translated as connected text, not classified as one lexical
/// unit.
pub const MAX_LEXICAL_CHARS: usize = 128;

/// Maximum number of deterministic lookup forms emitted for one input.
pub const MAX_DERIVED_FORMS: usize = 4;

/// One prior linguistic turn, without identity, timestamps, or persistence instructions.
///
/// It has no `Debug` form: `redacted_debug` stands in for one.
#[derive(Clone)]
pub struct TranslationHistory {
    /// Previous source text, retained only during the current request.
    pub source_text: String,
    /// Previous translated text used only for linguistic continuity.
    pub translated_text: String,
    /// Known source language of this prior turn: en or zh-CN.
    pub source_language: String,
    /// Known target language of this prior turn: en or zh-CN.
    pub target_language: String,
}

impl TranslationHistory {
    /// A debug rendering that never shows the turn's text.
    pub fn redacted_debug(&self) -> (r: &'static str)
        ensures
            r@ == "TranslationHistory(REDACTED)"@,
    {
        "TranslationHistory(REDACTED)"
    }
}

/// Strict wire input for the translation endpoint.
///
/// It has no `Debug` form: `redacted_debug` stands in for one.
#[derive(Clone)]
pub struct TranslationTurnRequest {
    /// Text to translate; formatting is preserved in the provider input.
    pub text: String,
    /// auto, en, or zh-CN.
    pub source_language: String,
    /// en or zh-CN.
    pub target_language: String,
    /// brief, standard, or full; applied only after generation.
    pub response_level: String,
    /// Chronological minimal turns, with no independent item-count cap.
    pub history: Vec<TranslationHistory>,
}

impl TranslationTurnRequest {
    /// A debug rendering that never shows the request's text.
    pub fn redacted_debug(&self) -> (r: &'static str)
        ensures
            r@ == "TranslationTurnRequest(REDACTED)"@,
    {
        "TranslationTurnRequest(REDACTED)"
    }
}

/// Initial product languages; provider output cannot introduce another language tag.
#[derive(Debug, Clone, Copy, PartialEq, Eq, Structural)]
pub enum TurnLanguage {
    /// English.
    English,
    /// Simplified Chinese.
    Chinese,
}

/// The wire tag of `l`.
pub open spec fn turn_language_tag(l: TurnLanguage) -> Seq<char> {
    match l {
        TurnLanguage::English => seq!['e', 'n'],
        TurnLanguage::Chinese => seq!['z', 'h', '-', 'C', 'N'],
    }
}

/// The language whose wire tag is exactly `s`, if any.
pub open spec fn parse_turn_language(s: Seq<char>) -> Option<TurnLanguage> {
    if s == turn_language_tag(TurnLanguage::English) {
        Some(TurnLanguage::English)
    } else if s == turn_language_tag(TurnLanguage::Chinese) {
        Some(TurnLanguage::Chinese)
    } else {
        None
    }
}

impl TurnLanguage {
    /// Returns the exact wire language tag.
    pub fn as_str(self) -> (r: &'static str)
        ensures
            r@ == turn_language_tag(self),
    {
        proof {
            reveal_strlit("en");
            reveal_strlit("zh-CN");
        }
        match self {
            TurnLanguage::English => "en",
            TurnLanguage::Chinese => "zh-CN",
        }
    }

    /// Parses one exact language tag from the initial closed language set.
    pub fn parse(value: &str) -> (r: Option<Self>)
        ensures
            r == parse_turn_language(value@),
    {
        proof {
            reveal_strlit("en");
            reveal_strlit("zh-CN");
            assert("en"@ =~= turn_language_tag(TurnLanguage::English));
            assert("zh-CN"@ =~= turn_language_tag(TurnLanguage::Chinese));
        }
        if str_eq(value, "en") {
            Some(TurnLanguage::English)
        } else if str_eq(value, "zh-CN") {
            Some(TurnLanguage::Chinese)
        } else {
            None
        }
    }
}

/// Source-language selector supported by the initial translation contract.
#[derive(Debug, Clone, Copy, PartialEq, Eq, Structural)]
pub enum SourceLanguage {
    /// Detect English or Simplified Chinese for the current request.
    Auto,
    /// Use the caller-declared supported language.
    Known(TurnLanguage),
}

/// The selector whose wire form is exactly `s`, if any.
pub open spec fn parse_source_language(s: Seq<char>) -> Option<SourceLanguage> {
    if s == seq!['a', 'u', 't', 'o'] {
        Some(SourceLanguage::Auto)
    } else {
        match parse_turn_language(s) {
            Some(l) => Some(SourceLanguage::Known(l)),
            None => None,
        }
    }
}

impl SourceLanguage {
    /// Returns the exact wire selector.
    pub fn as_str(self) -> (r: &'static str)
        ensures
            r@ == match self {
                SourceLanguage::Auto => seq!['a', 'u', 't', 'o'],
                SourceLanguage::Known(l) => turn_language_tag(l),
            },
    {
        proof {
            reveal_strlit("auto");
        }
        match self {
            SourceLanguage::Auto => "auto",
            SourceLanguage::Known(language) => language.as_str(),
        }
    }

    fn parse(value: &str) -> (r: Option<Self>)
        ensures
            r == parse_source_language(value@),
    {
        proof {
            reveal_strlit("auto");
            assert("auto"@ =~= seq!['a', 'u', 't', 'o']);
        }
        if str_eq(value, "auto") {
            return Some(SourceLanguage::Auto);
        }
        match TurnLanguage::parse(value) {
            Some(l) => Some(SourceLanguage::Known(l)),
            None => None,
        }
    }
}

/// Deterministic response breadth selected by the caller.
#[derive(Debug, Clone, Copy, PartialEq, Eq, Structural)]
pub enum ResponseLevel {
    /// Translations and ambiguity labels only.
    Brief,
    /// Concise usage and one example per meaning.
    Standard,
    /// All bounded eligible model-generated lexical details.
    Full,
}

/// The level whose wire form is exactly `s`, if any.
pub open spec fn parse_response_level(s: Seq<char>) -> Option<ResponseLevel> {
    if s == seq!['b', 'r', 'i', 'e', 'f'] {
        Some(ResponseLevel::Brief)
    } else if s == seq!['s', 't', 'a', 'n', 'd', 'a', 'r', 'd'] {
        Some(ResponseLevel::Standard)
    } else if s == seq!['f', 'u', 'l', 'l'] {
        Some(ResponseLevel::Full)
    } else {
        None
    }
}

impl ResponseLevel {
    /// Parses one exact response level from the closed wire set.
    pub fn parse(value: &str) -> (r: Option<Self>)
        ensures
            r == parse_response_level(value@),
    {
        proof {
            reveal_strlit("brief");
            reveal_strlit("standard");
            reveal_strlit("full");
            assert("brief"@ =~= seq!['b', 'r', 'i', 'e', 'f']);
            assert("standard"@ =~= seq!['s', 't', 'a', 'n', 'd', 'a', 'r', 'd']);
            assert("full"@ =~= seq!['f', 'u', 'l', 'l']);
        }
        if str_eq(value, "brief") {
            Some(ResponseLevel::Brief)
        } else if str_eq(value, "standard") {
            Some(ResponseLevel::Standard)
        } else if str_eq(value, "full") {
            Some(ResponseLevel::Full)
        } else {
            None
        }
    }
}

/// Closed input-validation error that never includes the supplied value.
#[derive(Debug, Clone, Copy, PartialEq, Eq)]
pub enum TurnValidationError {
    /// A required input value is invalid; the payload names the field.
    Field(&'static str),
    /// The serialized request exceeds the service byte budget.
    TooLarge,
}

impl TurnValidationError {
    /// Human-readable description of the failure, naming at most the field.
    pub fn message(&self) -> (r: String)
        ensures
            r@ == match *self {
                TurnValidationError::Field(name) => "invalid translation field: "@ + name@,
                TurnValidationError::TooLarge => "translation request is too large"@,
            },
    {
        match self {
            TurnValidationError::Field(name) => {
                let mut m = String::from_str("invalid translation field: ");
                m.append(name);
                m
            },
            TurnValidationError::TooLarge => String::from_str("translation request is too large"),
        }
    }
}

/// Bytes that `c` takes inside a JSON string as `serde_json` writes it: two for a quote, a
/// backslash and the control characters with a short escape, six for the other control
/// characters, and its UTF-8 width otherwise.
pub open spec fn json_char_len(c: char) -> nat {
    if c == '"' || c == '\\' || c == '\u{8}' || c == '\u{c}' || c == '\n' || c == '\r' || c == '\t' {
        2
    } else if (c as u32) < 0x20 {
        6
    } else {
        char_utf8_width(c)
    }
}

/// Bytes of the escaped characters of `s`, without the surrounding quotes.
pub open spec fn json_chars_len(s: Seq<char>) -> nat
    decreases s.len(),
{
    if s.len() == 0 {
        0
    } else {
        json_chars_len(s.drop_last()) + json_char_len(s.last())
    }
}

/// Bytes of `s` written as a JSON string.
pub open spec fn json_text_len(s: Seq<char>) -> nat {
    json_chars_len(s) + 2
}

/// Bytes of one history turn written as a compact JSON object with its four fields in
/// declaration order.
pub open spec fn json_history_item_len(h: TranslationHistory) -> nat {
    73 + json_text_len(h.source_text@) + json_text_len(h.translated_text@) + json_text_len(h.source_language@)
        + json_text_len(h.target_language@)
}

/// Bytes of the history turns of `hs` and the commas between them.
pub open spec fn json_history_items_len(hs: Seq<TranslationHistory>) -> nat
    decreases hs.len(),
{
    if hs.len() == 0 {
        0
    } else if hs.len() == 1 {
        json_history_item_len(hs[0])
    } else {
        json_history_items_len(hs.drop_last()) + 1 + json_history_item_len(hs.last())
    }
}

/// Bytes of `req` written as compact JSON by `serde_json::to_vec`, its fields in declaration
/// order and the history as an array.
pub open spec fn json_request_len(req: TranslationTurnRequest) -> nat {
    76 + json_text_len(req.text@) + json_text_len(req.source_language@) + json_text_len(req.target_language@)
        + json_text_len(req.response_level@) + 2 + json_history_items_len(req.history@)
}

/// Bytes of the four text fields of one history turn.
pub open spec fn history_raw_len(h: TranslationHistory) -> nat {
    utf8_len(h.source_text@) + utf8_len(h.translated_text@) + utf8_len(h.source_language@) + utf8_len(
        h.target_language@,
    )
}

/// Bytes of the text fields of the history turns of `hs`.
pub open spec fn history_raw_total(hs: Seq<TranslationHistory>) -> nat
    decreases hs.len(),
{
    if hs.len() == 0 {
        0
    } else {
        history_raw_total(hs.drop_last()) + history_raw_len(hs.last())
    }
}

/// Bytes of the current text and of every text field of the history.
pub open spec fn request_raw_len(req: TranslationTurnRequest) -> nat {
    utf8_len(req.text@) + history_raw_total(req.history@)
}

/// Whether one history turn has nonblank texts and closed-set language tags.
pub open spec fn history_item_valid(h: TranslationHistory) -> bool {
    &&& !is_blank(h.source_text@)
    &&& !is_blank(h.translated_text@)
    &&& parse_turn_language(h.source_language@) is Some
    &&& parse_turn_language(h.target_language@) is Some
}

/// The error a translation request is refused with, if any, in the order the checks run.
pub open spec fn turn_request_error(req: TranslationTurnRequest) -> Option<TurnValidationError> {
    if is_blank(req.text@) {
        Some(TurnValidationError::Field("text"))
    } else if parse_source_language(req.source_language@) is None {
        Some(TurnValidationError::Field("source_language"))
    } else if parse_turn_language(req.target_language@) is None {
        Some(TurnValidationError::Field("target_language"))
    } else if parse_response_level(req.response_level@) is None {
        Some(TurnValidationError::Field("response_level"))
    } else if request_raw_len(req) > 1_048_576 {
        Some(TurnValidationError::TooLarge)
    } else if exists|i: int| 0 <= i < req.history@.len() && !history_item_valid(#[trigger] req.history@[i]) {
        Some(TurnValidationError::Field("history"))
    } else if json_request_len(req) > 1_048_576 {
        Some(TurnValidationError::TooLarge)
    } else {
        None
    }
}

proof fn lemma_json_chars_len_bound(s: Seq<char>)
    ensures
        s.len() <= json_chars_len(s) <= 6 * s.len(),
    decreases s.len(),
{
    if s.len() > 0 {
        lemma_json_chars_len_bound(s.drop_last());
    }
}

/// Calls `serde_json::to_vec` on the string `s` and returns how many bytes it wrote: `s` in
/// quotes, each character taking `json_char_len` bytes, as the compact formatter escapes a
/// quote, a backslash and the control characters and copies every other character's UTF-8
/// bytes. Writing a string into a `Vec` cannot fail, so the error arm is never taken.
#[verifier::external_body]
fn json_string_len(s: &str) -> (n: usize)
    requires
        json_text_len(s@) <= usize::MAX,
    ensures
        n == json_text_len(s@),
{
    match serde_json::to_vec(s) {
        Ok(bytes) => bytes.len(),
        Err(_) => 0,
    }
}

/// Bytes of `s` written as a JSON string, or `None` when `s` holds more characters than
/// `MAX_TURN_BYTES`, so that the JSON string alone is larger than that.
fn json_text_bytes(s: &str) -> (n: Option<u128>)
    ensures
        match n {
            Some(k) => k == json_text_len(s@) && k <= 6 * 1_048_576 + 2,
            None => json_text_len(s@) > 1_048_576,
        },
{
    proof {
        lemma_json_chars_len_bound(s@);
    }
    if s.unicode_len() > MAX_TURN_BYTES {
        return None;
    }
    Some(json_string_len(s) as u128)
}

/// Bytes of one history turn written as a JSON object, or `None` when one of its texts alone
/// is larger than `MAX_TURN_BYTES` as a JSON string.
fn json_history_item_bytes(h: &TranslationHistory) -> (n: Option<u128>)
    ensures
        match n {
            Some(k) => k == json_history_item_len(*h) && k <= 73 + 4 * (6 * 1_048_576 + 2),
            None => json_history_item_len(*h) > 1_048_576,
        },
{
    let a = match json_text_bytes(h.source_text.as_str()) {
        Some(k) => k,
        None => return None,
    };
    let b = match json_text_bytes(h.translated_text.as_str()) {
        Some(k) => k,
        None => return None,
    };
    let c = match json_text_bytes(h.source_language.as_str()) {
        Some(k) => k,
        None => return None,
    };
    let d = match json_text_bytes(h.target_language.as_str()) {
        Some(k) => k,
        None => return None,
    };
    Some(73 + a + b + c + d)
}

proof fn lemma_history_items_monotone(hs: Seq<TranslationHistory>, k: int)
    requires
        0 <= k <= hs.len(),
    ensures
        json_history_items_len(hs.take(k)) <= json_history_items_len(hs),
    decreases hs.len() - k,
{
    if k < hs.len() {
        lemma_history_items_monotone(hs, k + 1);
        assert(hs.take(k + 1).drop_last() =~= hs.take(k));
    } else {
        assert(hs.take(k) =~= hs);
    }
}

/// Whether `req` written as compact JSON takes more than `MAX_TURN_BYTES` bytes.
fn json_request_too_large(req: &TranslationTurnRequest) -> (b: bool)
    ensures
        b == (json_request_len(*req) > 1_048_576),
{
    let text = match json_text_bytes(req.text.as_str()) {
        Some(k) => k,
        None => return true,
    };
    let source = match json_text_bytes(req.source_language.as_str()) {
        Some(k) => k,
        None => return true,
    };
    let target = match json_text_bytes(req.target_language.as_str()) {
        Some(k) => k,
        None => return true,
    };
    let level = match json_text_bytes(req.response_level.as_str()) {
        Some(k) => k,
        None => return true,
    };
    let mut n: u128 = 78 + text + source + target + level;
    if n > MAX_TURN_BYTES as u128 {
        return true;
    }
    let ghost fixed = n;
    let mut i: usize = 0;
    while i < req.history.len()
        invariant
            i <= req.history.len(),
            n <= 1_048_576,
            n == fixed + json_history_items_len(req.history@.take(i as int)),
            fixed + json_history_items_len(req.history@) == json_request_len(*req),
        decreases req.history.len() - i,
    {
        proof {
            assert(req.history@.take(i + 1).drop_last() =~= req.history@.take(i as int));
            assert(req.history@.take(i + 1).last() == req.history@[i as int]);
            lemma_history_items_monotone(req.history@, i + 1);
        }
        let item = match json_history_item_bytes(&req.history[i]) {
            Some(k) => k,
            None => return true,
        };
        if i > 0 {
            n = n + 1;
        }
        n = n + item;
        if n > MAX_TURN_BYTES as u128 {
            return true;
        }
        i += 1;
    }
    assert(req.history@.take(req.history.len() as int) =~= req.history@);
    false
}

/// Whether the current text and every history text field together take more than
/// `MAX_TURN_BYTES` bytes.
fn raw_request_too_large(req: &TranslationTurnRequest) -> (b: bool)
    ensures
        b == (request_raw_len(*req) > 1_048_576),
{
    let mut n: u128 = utf8_len_of(req.text.as_str());
    if n > MAX_TURN_BYTES as u128 {
        return true;
    }
    let mut i: usize = 0;
    while i < req.history.len()
        invariant
            i <= req.history.len(),
            n <= 1_048_576,
            n == utf8_len(req.text@) + history_raw_total(req.history@.take(i as int)),
        decreases req.history.len() - i,
    {
        let h = &req.history[i];
        proof {
            assert(req.history@.take(i + 1).drop_last() =~= req.history@.take(i as int));
            assert(req.history@.take(i + 1).last() == req.history@[i as int]);
            lemma_history_raw_monotone(req.history@, i + 1);
        }
        n = n + utf8_len_of(h.source_text.as_str());
        if n > MAX_TURN_BYTES as u128 {
            return true;
        }
        n = n + utf8_len_of(h.translated_text.as_str());
        if n > MAX_TURN_BYTES as u128 {
            return true;
        }
        n = n + utf8_len_of(h.source_language.as_str());
        if n > MAX_TURN_BYTES as u128 {
            return true;
        }
        n = n + utf8_len_of(h.target_language.as_str());
        if n > MAX_TURN_BYTES as u128 {
            return true;
        }
        i += 1;
    }
    assert(req.history@.take(req.history.len() as int) =~= req.history@);
    false
}

proof fn lemma_history_raw_monotone(hs: Seq<TranslationHistory>, k: int)
    requires
        0 <= k <= hs.len(),
    ensures
        history_raw_total(hs.take(k)) <= history_raw_total(hs),
    decreases hs.len() - k,
{
    if k < hs.len() {
        lemma_history_raw_monotone(hs, k + 1);
        assert(hs.take(k + 1).drop_last() =~= hs.take(k));
    } else {
        assert(hs.take(k) =~= hs);
    }
}

/// Validated linguistic input; callers cannot change it after validation.
///
/// It has no `Debug` form: `redacted_debug` stands in for one.
#[derive(Clone)]
pub struct TranslationTurn {
    text: String,
    source_language: SourceLanguage,
    target_language: TurnLanguage,
    history: Vec<TranslationHistory>,
    response_level: ResponseLevel,
}

impl TranslationTurn {
    /// The text.
    pub closed spec fn spec_text(&self) -> Seq<char> {
        self.text@
    }

    /// The source-language selector.
    pub closed spec fn spec_source_language(&self) -> SourceLanguage {
        self.source_language
    }

    /// The target language.
    pub closed spec fn spec_target_language(&self) -> TurnLanguage {
        self.target_language
    }

    /// The history turns.
    pub closed spec fn spec_history(&self) -> Seq<TranslationHistory> {
        self.history@
    }

    /// The response level.
    pub closed spec fn spec_response_level(&self) -> ResponseLevel {
        self.response_level
    }

    /// Validates closed selectors and every history item without imposing a history-count cap.
    ///
    /// Fails with the name of the first invalid field, in the order text, source language,
    /// target language, response level; then with `TooLarge` when the current text and the
    /// history texts exceed one mebibyte; then with `history` when a turn has blank text or a
    /// language outside the closed set; then with `TooLarge` when the request written as JSON
    /// exceeds one mebibyte.
    pub fn new(request: TranslationTurnRequest) -> (r: Result<Self, TurnValidationError>)
        ensures
            match turn_request_error(request) {
                Some(e) => r == Err::<Self, _>(e),
                None => r matches Ok(t) && {
                    &&& t.spec_text() == request.text@
                    &&& Some(t.spec_source_language()) == parse_source_language(request.source_language@)
                    &&& Some(t.spec_target_language()) == parse_turn_language(request.target_language@)
                    &&& Some(t.spec_response_level()) == parse_response_level(request.response_level@)
                    &&& t.spec_history() == request.history@
                },
            },
    {
        if str_is_blank(request.text.as_str()) {
            return Err(TurnValidationError::Field("text"));
        }
        let source_language = match SourceLanguage::parse(request.source_language.as_str()) {
            Some(l) => l,
            None => return Err(TurnValidationError::Field("source_language")),
        };
        let target_language = match TurnLanguage::parse(request.target_language.as_str()) {
            Some(l) => l,
            None => return Err(TurnValidationError::Field("target_language")),
        };
        let response_level = match ResponseLevel::parse(request.response_level.as_str()) {
            Some(l) => l,
            None => return Err(TurnValidationError::Field("response_level")),
        };
        if raw_request_too_large(&request) {
            return Err(TurnValidationError::TooLarge);
        }
        let mut i: usize = 0;
        while i < request.history.len()
            invariant
                i <= request.history.len(),
                turn_request_error(request) == (if exists|j: int| 0 <= j < request.history@.len() && !history_item_valid(#[trigger] request.history@[j]) {
                    Some(TurnValidationError::Field("history"))
                } else if json_request_len(request) > 1_048_576 {
                    Some(TurnValidationError::TooLarge)
                } else {
                    None::<TurnValidationError>
                }),
                forall|j: int| 0 <= j < i ==> history_item_valid(#[trigger] request.history@[j]),
            decreases request.history.len() - i,
        {
            let h = &request.history[i];
            if str_is_blank(h.source_text.as_str()) || str_is_blank(h.translated_text.as_str())
                || TurnLanguage::parse(h.source_language.as_str()).is_none()
                || TurnLanguage::parse(h.target_language.as_str()).is_none() {
                assert(!history_item_valid(request.history@[i as int]));
                return Err(TurnValidationError::Field("history"));
            }
            i += 1;
        }
        if json_request_too_large(&request) {
            return Err(TurnValidationError::TooLarge);
        }
        Ok(TranslationTurn {
            text: request.text,
            source_language,
            target_language,
            history: request.history,
            response_level,
        })
    }

    /// Returns the original text without changing paragraph or formatting boundaries.
    pub fn text(&self) -> (r: &str)
        ensures
            r@ == self.spec_text(),
    {
        self.text.as_str()
    }

    /// Returns the source-language selector.
    pub fn source_language(&self) -> (r: SourceLanguage)
        ensures
            r == self.spec_source_language(),
    {
        self.source_language
    }

    /// Returns the requested target language.
    pub fn target_language(&self) -> (r: TurnLanguage)
        ensures
            r == self.spec_target_language(),
    {
        self.target_language
    }

    /// Returns chronological request-local context.
    pub fn history(&self) -> (r: &[TranslationHistory])
        ensures
            r@ == self.spec_history(),
    {
        self.history.as_slice()
    }

    /// Returns the projection level, never passed to a generation prompt.
    pub fn response_level(&self) -> (r: ResponseLevel)
        ensures
            r == self.spec_response_level(),
    {
        self.response_level
    }

    /// Derives one request-local lookup form while preserving significant symbols such as `+`
    /// and `#`.
    pub fn lookup_form(&self) -> (r: String)
        ensures
            r@ == primary_form(self.spec_text(), self.spec_source_language()),
    {
        TranslationNormalizer::new().normalize(self.text.as_str(), self.source_language).primary
    }

    /// Returns whether input is too long (over 128 characters) or has a line break, and so
    /// cannot be one lexical unit.
    pub fn requires_passage(&self) -> (b: bool)
        ensures
            b == (self.spec_text().len() > 128 || self.spec_text().contains('\n') || self.spec_text().contains('\r')),
    {
        let v = chars_of(self.text.as_str());
        if v.len() > MAX_LEXICAL_CHARS {
            return true;
        }
        let mut i: usize = 0;
        while i < v.len()
            invariant
                i <= v.len(),
                v@ == self.spec_text(),
                forall|j: int| 0 <= j < i ==> v@[j] != '\n' && v@[j] != '\r',
            decreases v.len() - i,
        {
            if v[i] == '\n' || v[i] == '\r' {
                assert(v@[i as int] == '\n' || v@[i as int] == '\r');
                return true;
            }
            i += 1;
        }
        false
    }

    /// A debug rendering that never shows the turn's text.
    pub fn redacted_debug(&self) -> (r: &'static str)
        ensures
            r@ == "TranslationTurn(REDACTED)"@,
    {
        "TranslationTurn(REDACTED)"
    }
}

/// `c` with typographic quotes, dashes, full-width plus and number signs, and the ideographic
/// space replaced by their ASCII equivalents.
pub open spec fn punctuation_equivalent(c: char) -> char {
    if c == '\u{2018}' || c == '\u{2019}' || c == '\u{02bc}' || c == '\u{ff07}' {
        '\''
    } else if c == '\u{201c}' || c == '\u{201d}' || c == '\u{ff02}' {
        '"'
    } else if c == '\u{2010}' || c == '\u{2011}' || c == '\u{2012}' || c == '\u{2013}' || c == '\u{2014}'
        || c == '\u{2212}' || c == '\u{ff0d}' {
        '-'
    } else if c == '\u{ff0b}' {
        '+'
    } else if c == '\u{ff03}' {
        '#'
    } else if c == '\u{3000}' {
        ' '
    } else {
        c
    }
}

fn normalize_punctuation(c: char) -> (r: char)
    ensures
        r == punctuation_equivalent(c),
{
    if c == '\u{2018}' || c == '\u{2019}' || c == '\u{02bc}' || c == '\u{ff07}' {
        '\''
    } else if c == '\u{201c}' || c == '\u{201d}' || c == '\u{ff02}' {
        '"'
    } else if c == '\u{2010}' || c == '\u{2011}' || c == '\u{2012}' || c == '\u{2013}' || c == '\u{2014}'
        || c == '\u{2212}' || c == '\u{ff0d}' {
        '-'
    } else if c == '\u{ff0b}' {
        '+'
    } else if c == '\u{ff03}' {
        '#'
    } else if c == '\u{3000}' {
        ' '
    } else {
        c
    }
}

/// `c`, or a space when it is punctuation that does not belong to a lexical form.
pub open spec fn lexical_punctuation_blank(c: char) -> char {
    if c == ',' || c == '.' || c == ':' || c == ';' || c == '!' || c == '?' || c == '(' || c == ')' || c
        == '[' || c == ']' || c == '{' || c == '}' {
        ' '
    } else {
        c
    }
}

fn blank_lexical_punctuation(c: char) -> (r: char)
    ensures
        r == lexical_punctuation_blank(c),
{
    if c == ',' || c == '.' || c == ':' || c == ';' || c == '!' || c == '?' || c == '(' || c == ')' || c
        == '[' || c == ']' || c == '{' || c == '}' {
        ' '
    } else {
        c
    }
}

/// The words of `s`, separated by white space, joined by single spaces, as
/// `split_whitespace().collect::<Vec<_>>().join(" ")` builds them.
pub open spec fn collapse_ws(s: Seq<char>) -> Seq<char>
    decreases s.len(),
{
    if s.len() == 0 {
        Seq::empty()
    } else {
        let rest = collapse_ws(s.drop_last());
        if is_space(s.last()) {
            rest
        } else if s.len() >= 2 && is_space(s[s.len() - 2]) && rest.len() > 0 {
            rest + seq![' ', s.last()]
        } else {
            rest.push(s.last())
        }
    }
}

/// Whether `c` is one of the quote characters stripped from a lookup form.
pub open spec fn is_quote(c: char) -> bool {
    c == '\'' || c == '"'
}

/// `s` without its leading quote characters.
pub open spec fn strip_quotes_start(s: Seq<char>) -> Seq<char>
    decreases s.len(),
{
    if s.len() > 0 && is_quote(s[0]) {
        strip_quotes_start(s.drop_first())
    } else {
        s
    }
}

/// `s` without its trailing quote characters.
pub open spec fn strip_quotes_end(s: Seq<char>) -> Seq<char>
    decreases s.len(),
{
    if s.len() > 0 && is_quote(s.last()) {
        strip_quotes_end(s.drop_last())
    } else {
        s
    }
}

/// `s` without surrounding quote characters and then without surrounding white space.
pub open spec fn unquoted_form(s: Seq<char>) -> Seq<char> {
    trim(strip_quotes_end(strip_quotes_start(s)))
}

/// `s` with Unicode lowercase applied unless it is declared Chinese.
pub open spec fn cased_for(language: SourceLanguage, s: Seq<char>) -> Seq<char> {
    match language {
        SourceLanguage::Known(TurnLanguage::Chinese) => s,
        _ => lowercase_all(s),
    }
}

/// The primary lookup form of `text`: its NFC form with equivalent punctuation unified, case
/// folded unless the input is declared Chinese, and white space collapsed.
pub open spec fn primary_form(text: Seq<char>, language: SourceLanguage) -> Seq<char> {
    collapse_ws(cased_for(language, nfc(text).map_values(|c: char| punctuation_equivalent(c))))
}

/// Whether `c` is typed in place of the ASCII punctuation `ascii` by another keyboard or by
/// typographic autocorrection: curly, modifier and full-width apostrophes for `'`, curly and
/// full-width double quotes for `"`, hyphens, dashes and the minus sign for `-`, the full-width
/// plus and number signs, and the ideographic space for a space.
pub open spec fn typed_variant(c: char, ascii: char) -> bool {
    ||| ascii == '\'' && (c == '\u{2018}' || c == '\u{2019}' || c == '\u{02bc}' || c == '\u{ff07}')
    ||| ascii == '"' && (c == '\u{201c}' || c == '\u{201d}' || c == '\u{ff02}')
    ||| ascii == '-' && (c == '\u{2010}' || c == '\u{2011}' || c == '\u{2012}' || c == '\u{2013}' || c
        == '\u{2014}' || c == '\u{2212}' || c == '\u{ff0d}')
    ||| ascii == '+' && c == '\u{ff0b}'
    ||| ascii == '#' && c == '\u{ff03}'
    ||| ascii == ' ' && c == '\u{3000}'
}

/// Whether `a` and `b` differ only where one holds a typed variant of the other's ASCII
/// punctuation.
pub open spec fn same_up_to_typed_punctuation(a: Seq<char>, b: Seq<char>) -> bool {
    &&& a.len() == b.len()
    &&& forall|i: int|
        0 <= i < a.len() ==> a[i] == b[i] || typed_variant(#[trigger] a[i], b[i]) || typed_variant(b[i], a[i])
}

/// Texts whose composed forms differ only by typographic versus ASCII punctuation (such as
/// "don\u{2019}t" and "don't") have the same primary lookup form, in every source language.
pub proof fn lemma_typed_punctuation_normalizes_alike(t1: Seq<char>, t2: Seq<char>, language: SourceLanguage)
    requires
        same_up_to_typed_punctuation(nfc(t1), nfc(t2)),
    ensures
        primary_form(t1, language) == primary_form(t2, language),
{
    let a = nfc(t1);
    let b = nfc(t2);
    assert(a.map_values(|c: char| punctuation_equivalent(c)) =~= b.map_values(|c: char| punctuation_equivalent(c)))
        by {
        assert forall|i: int| 0 <= i < a.len() implies punctuation_equivalent(a[i]) == punctuation_equivalent(
            #[trigger] b[i],
        ) by {
            if a[i] != b[i] {
                assert(typed_variant(a[i], b[i]) || typed_variant(b[i], a[i]));
            }
        }
    }
}

/// `forms` with `candidate` appended, unless it is empty, already present, or the forms are
/// full.
pub open spec fn push_form(forms: Seq<Seq<char>>, candidate: Seq<char>) -> Seq<Seq<char>> {
    if candidate.len() > 0 && !forms.contains(candidate) && forms.len() < 4 {
        forms.push(candidate)
    } else {
        forms
    }
}

/// The bounded lookup forms of `primary`, strongest first: itself, without surrounding quotes,
/// and with lexical punctuation blanked.
pub open spec fn derived_forms_of(primary: Seq<char>) -> Seq<Seq<char>> {
    push_form(
        push_form(push_form(Seq::empty(), primary), unquoted_form(primary)),
        collapse_ws(primary.map_values(|c: char| lexical_punctuation_blank(c))),
    )
}

/// The texts of `v`, in order.
pub open spec fn texts_of(v: Seq<String>) -> Seq<Seq<char>> {
    v.map_values(|s: String| s@)
}

/// Whether `forms` has at most four entries, none empty and none repeated.
pub open spec fn forms_bounded_and_distinct(forms: Seq<Seq<char>>) -> bool {
    &&& forms.len() <= 4
    &&& forms.no_duplicates()
    &&& forall|i: int| 0 <= i < forms.len() ==> (#[trigger] forms[i]).len() > 0
}

/// Adding a form keeps the forms bounded, nonempty and distinct.
pub proof fn lemma_push_form_keeps_bounds(forms: Seq<Seq<char>>, candidate: Seq<char>)
    requires
        forms_bounded_and_distinct(forms),
    ensures
        forms_bounded_and_distinct(push_form(forms, candidate)),
{
    if candidate.len() > 0 && !forms.contains(candidate) && forms.len() < 4 {
        let n = forms.push(candidate);
        assert forall|i: int, j: int| 0 <= i < n.len() && 0 <= j < n.len() && i != j implies n[i] != n[j] by {
            if i < forms.len() && j < forms.len() {
            } else if i == forms.len() {
                assert(n[j] == forms[j]);
                assert(forms.contains(forms[j]));
            } else {
                assert(n[i] == forms[i]);
                assert(forms.contains(forms[i]));
            }
        }
    }
}

fn string_of_mapped(v: &Vec<char>, lexical: bool) -> (r: String)
    ensures
        r@ == if lexical {
            v@.map_values(|c: char| lexical_punctuation_blank(c))
        } else {
            v@.map_values(|c: char| punctuation_equivalent(c))
        },
{
    let mut r = String::new();
    let mut i: usize = 0;
    while i < v.len()
        invariant
            i <= v.len(),
            r@ == if lexical {
                v@.take(i as int).map_values(|c: char| lexical_punctuation_blank(c))
            } else {
                v@.take(i as int).map_values(|c: char| punctuation_equivalent(c))
            },
        decreases v.len() - i,
    {
        let c = if lexical {
            blank_lexical_punctuation(v[i])
        } else {
            normalize_punctuation(v[i])
        };
        push_char(&mut r, c);
        proof {
            if lexical {
                assert(v@.take(i + 1).map_values(|c: char| lexical_punctuation_blank(c)) =~= v@.take(
                    i as int,
                ).map_values(|c: char| lexical_punctuation_blank(c)).push(c));
            } else {
                assert(v@.take(i + 1).map_values(|c: char| punctuation_equivalent(c)) =~= v@.take(
                    i as int,
                ).map_values(|c: char| punctuation_equivalent(c)).push(c));
            }
        }
        i += 1;
    }
    assert(v@.take(v.len() as int) =~= v@);
    r
}

fn collapse_whitespace(value: &str) -> (r: String)
    ensures
        r@ == collapse_ws(value@),
{
    let v = chars_of(value);
    let mut out = String::new();
    let mut nonempty = false;
    let mut i: usize = 0;
    while i < v.len()
        invariant
            i <= v.len(),
            v@ == value@,
            out@ == collapse_ws(v@.take(i as int)),
            nonempty == (out@.len() > 0),
        decreases v.len() - i,
    {
        let c = v[i];
        proof {
            let s = v@.take(i + 1);
            assert(s.drop_last() =~= v@.take(i as int));
            assert(s.last() == c);
            if i >= 1 {
                assert(s[s.len() - 2] == v@[i - 1]);
            }
        }
        if char_is_space(c) {
        } else if i >= 1 && char_is_space(v[i - 1]) && nonempty {
            push_char(&mut out, ' ');
            push_char(&mut out, c);
            assert(out@ =~= collapse_ws(v@.take(i as int)) + seq![' ', c]);
            nonempty = true;
        } else {
            push_char(&mut out, c);
            nonempty = true;
        }
        i += 1;
    }
    assert(v@.take(v.len() as int) =~= v@);
    out
}

fn unquote(v: &Vec<char>) -> (r: String)
    ensures
        r@ == unquoted_form(v@),
{
    let mut i: usize = 0;
    assert(v@.skip(0) =~= v@);
    while i < v.len() && (v[i] == '\'' || v[i] == '"')
        invariant
            i <= v.len(),
            strip_quotes_start(v@) == strip_quotes_start(v@.skip(i as int)),
        decreases v.len() - i,
    {
        assert(v@.skip(i as int).drop_first() =~= v@.skip(i + 1));
        i += 1;
    }
    let ghost start = v@.skip(i as int);
    assert(strip_quotes_start(start) == start) by {
        if start.len() > 0 {
            assert(start[0] == v@[i as int]);
        }
    }
    let mut j: usize = v.len();
    assert(v@.subrange(i as int, j as int) =~= start);
    while j > i && (v[j - 1] == '\'' || v[j - 1] == '"')
        invariant
            i <= j <= v.len(),
            start == v@.skip(i as int),
            strip_quotes_end(start) == strip_quotes_end(v@.subrange(i as int, j as int)),
        decreases j - i,
    {
        assert(v@.subrange(i as int, j as int).drop_last() =~= v@.subrange(i as int, j - 1));
        j -= 1;
    }
    let ghost mid = v@.subrange(i as int, j as int);
    assert(strip_quotes_end(mid) == mid) by {
        if mid.len() > 0 {
            assert(mid.last() == v@[j - 1]);
        }
    }
    let s = string_from_range(v, i, j);
    crate::text::trimmed_string(s.as_str())
}

fn push_distinct(forms: &mut Vec<String>, candidate: String)
    ensures
        texts_of(final(forms)@) == push_form(texts_of(old(forms)@), candidate@),
{
    let ghost before = texts_of(forms@);
    if candidate.as_str().is_empty() || forms.len() >= MAX_DERIVED_FORMS {
        return;
    }
    let mut i: usize = 0;
    while i < forms.len()
        invariant
            i <= forms.len(),
            before == texts_of(forms@),
            forall|j: int| 0 <= j < i ==> before[j] != candidate@,
        decreases forms.len() - i,
    {
        if str_eq(forms[i].as_str(), candidate.as_str()) {
            assert(before[i as int] == candidate@);
            return;
        }
        i += 1;
    }
    assert(!before.contains(candidate@));
    forms.push(candidate);
    assert(texts_of(forms@) =~= before.push(candidate@));
}

/// Deterministic bounded lookup forms derived only for the current request.
pub struct NormalizedTranslationInput {
    /// NFC, case, whitespace, and punctuation-equivalent normalized primary form.
    pub primary: String,
    /// Deduplicated bounded alternatives ordered from strongest to weakest.
    pub derived_forms: Vec<String>,
}

/// Stateless versioned normalizer for translation lookup and intent classification.
#[derive(Debug, Clone, Copy)]
pub struct TranslationNormalizer;

impl Default for TranslationNormalizer {
    fn default() -> (r: Self) {
        TranslationNormalizer
    }
}

impl TranslationNormalizer {
    /// Creates the stateless normalizer.
    pub fn new() -> (r: Self) {
        TranslationNormalizer
    }

    /// Returns the stable ruleset version for response metadata and release compatibility.
    pub fn version(self) -> (r: &'static str)
        ensures
            r == NORMALIZER_VERSION,
    {
        NORMALIZER_VERSION
    }

    /// Derives bounded lookup forms without altering the original request text.
    ///
    /// The primary form is the NFC form of `value` with equivalent punctuation unified, case
    /// folded unless `language` declares Chinese, and white space collapsed. The derived forms,
    /// at most four, none empty and none repeated, are the primary form, the primary form
    /// without surrounding quotes, and the primary form with lexical punctuation blanked, each
    /// kept only when new.
    pub fn normalize(self, value: &str, language: SourceLanguage) -> (r: NormalizedTranslationInput)
        ensures
            r.primary@ == primary_form(value@, language),
            texts_of(r.derived_forms@) == derived_forms_of(r.primary@),
            forms_bounded_and_distinct(texts_of(r.derived_forms@)),
    {
        let composed = nfc_string(value);
        let composed_chars = chars_of(composed.as_str());
        let unified = string_of_mapped(&composed_chars, false);
        let cased = match language {
            SourceLanguage::Known(TurnLanguage::Chinese) => unified,
            _ => lowercase_string(unified.as_str()),
        };
        let primary = collapse_whitespace(cased.as_str());
        let mut derived_forms: Vec<String> = Vec::new();
        assert(texts_of(derived_forms@) =~= Seq::<Seq<char>>::empty());
        push_distinct(&mut derived_forms, primary.clone());
        let primary_chars = chars_of(primary.as_str());
        push_distinct(&mut derived_forms, unquote(&primary_chars));
        let blanked = string_of_mapped(&primary_chars, true);
        push_distinct(&mut derived_forms, collapse_whitespace(blanked.as_str()));
        proof {
            let f0: Seq<Seq<char>> = Seq::empty();
            lemma_push_form_keeps_bounds(f0, primary@);
            lemma_push_form_keeps_bounds(push_form(f0, primary@), unquoted_form(primary@));
            lemma_push_form_keeps_bounds(
                push_form(push_form(f0, primary@), unquoted_form(primary@)),
                collapse_ws(primary@.map_values(|c: char| lexical_punctuation_blank(c))),
            );
        }
        NormalizedTranslationInput { primary, derived_forms }
    }
}

/// Resolved unit, chosen by orchestration rather than the caller.
#[derive(Debug, Clone, Copy, PartialEq, Eq, Structural)]
pub enum TranslationUnit {
    /// One lexical word or technical symbol.
    Word,
    /// An established multiword expression or term.
    Phrase,
    /// Connected text, including uncertain short fragments.
    Passage,
}

/// A model classification is used for lexical routing only at high confidence.
#[derive(Debug, Clone, Copy, PartialEq, Eq, Structural)]
pub enum RoutingConfidence {
    /// Confident lexical classification.
    High,
    /// Insufficient evidence: use connected-text translation.
    Uncertain,
}

/// Closed classification result; `None` explicitly means an unsupported source language.
#[derive(Debug, Clone, Copy, PartialEq, Eq, Structural)]
pub struct TurnClassification {
    /// Suggested unit family, subject to deterministic conservative routing.
    pub unit: TranslationUnit,
    /// Detected supported source language, or `None` when unsupported.
    pub detected_source_language: Option<TurnLanguage>,
    /// Confidence in lexical routing.
    pub confidence: RoutingConfidence,
}

/// One generated bilingual example, never canonical evidence.
///
/// It has no `Debug` form: `redacted_debug` stands in for one.
#[derive(Clone)]
pub struct TurnExample {
    /// Short example in the source language.
    pub source_text: String,
    /// Its translation in the target language.
    pub translated_text: String,
}

impl TurnExample {
    /// A debug rendering that never shows the example's text.
    pub fn redacted_debug(&self) -> (r: &'static str)
        ensures
            r@ == "TurnExample(REDACTED)"@,
    {
        "TurnExample(REDACTED)"
    }
}

/// One generated meaning in a complete, response-level-independent lexical draft.
///
/// It has no `Debug` form: `redacted_debug` stands in for one.
#[derive(Clone)]
pub struct LexicalMeaningDraft {
    /// Translation of this meaning.
    pub text: String,
    /// Concise distinction from other plausible meanings.
    pub meaning: String,
    /// Word class; an empty value is valid only for phrases.
    pub part_of_speech: String,
    /// Expression type such as idiom or technical term; empty for words.
    pub phrase_type: String,
    /// Bounded alternative lexical forms, not asserted canonical aliases.
    pub aliases: Vec<String>,
    /// Generated bilingual examples.
    pub examples: Vec<TurnExample>,
    /// Concise usage guidance.
    pub usage_notes: Vec<String>,
}

impl LexicalMeaningDraft {
    /// A debug rendering that never shows the meaning's text.
    pub fn redacted_debug(&self) -> (r: &'static str)
        ensures
            r@ == "LexicalMeaningDraft(REDACTED)"@,
    {
        "LexicalMeaningDraft(REDACTED)"
    }
}

/// Whether `s` is not blank and has at most `max` characters.
pub open spec fn bounded_text(s: Seq<char>, max: nat) -> bool {
    !is_blank(s) && s.len() <= max
}

fn bounded(value: &str, chars: usize) -> (b: bool)
    ensures
        b == bounded_text(value@, chars as nat),
{
    if str_is_blank(value) {
        return false;
    }
    let v = chars_of(value);
    v.len() <= chars
}

/// Whether every text of `v` is bounded by `max` characters.
pub open spec fn all_bounded(v: Seq<String>, max: nat) -> bool {
    forall|i: int| 0 <= i < v.len() ==> bounded_text((#[trigger] v[i])@, max)
}

fn all_bounded_texts(v: &Vec<String>, max: usize) -> (b: bool)
    ensures
        b == all_bounded(v@, max as nat),
{
    let mut i: usize = 0;
    while i < v.len()
        invariant
            i <= v.len(),
            forall|j: int| 0 <= j < i ==> bounded_text((#[trigger] v@[j])@, max as nat),
        decreases v.len() - i,
    {
        if !bounded(v[i].as_str(), max) {
            return false;
        }
        i += 1;
    }
    true
}

/// Whether one generated meaning is bounded and structurally eligible for `unit`.
pub open spec fn meaning_draft_valid(m: LexicalMeaningDraft, unit: TranslationUnit) -> bool {
    &&& bounded_text(m.text@, 512)
    &&& bounded_text(m.meaning@, 512)
    &&& match unit {
        TranslationUnit::Word => bounded_text(m.part_of_speech@, 64),
        TranslationUnit::Phrase => bounded_text(m.phrase_type@, 64),
        TranslationUnit::Passage => false,
    }
    &&& utf8_len(m.part_of_speech@) <= 128
    &&& utf8_len(m.phrase_type@) <= 128
    &&& m.aliases@.len() <= 6
    &&& all_bounded(m.aliases@, 128)
    &&& m.examples@.len() <= 4
    &&& forall|i: int| 0 <= i < m.examples@.len() ==> bounded_text((#[trigger] m.examples@[i]).source_text@, 512)
        && bounded_text(m.examples@[i].translated_text@, 512)
    &&& m.usage_notes@.len() <= 6
    &&& all_bounded(m.usage_notes@, 512)
}

/// Whether a draft's meanings are one to eight valid meanings for a lexical `unit`, no two with
/// the same trimmed text and trimmed meaning.
pub open spec fn draft_valid(ms: Seq<LexicalMeaningDraft>, unit: TranslationUnit) -> bool {
    &&& 0 < ms.len() <= 8
    &&& unit != TranslationUnit::Passage
    &&& forall|i: int| 0 <= i < ms.len() ==> meaning_draft_valid(#[trigger] ms[i], unit)
    &&& forall|i: int, j: int| 0 <= i < j < ms.len() ==> !(trim((#[trigger] ms[i]).text@) == trim(
        (#[trigger] ms[j]).text@,
    ) && trim(ms[i].meaning@) == trim(ms[j].meaning@))
}

fn meaning_valid(m: &LexicalMeaningDraft, unit: TranslationUnit) -> (b: bool)
    ensures
        b == meaning_draft_valid(*m, unit),
{
    if !bounded(m.text.as_str(), 512) || !bounded(m.meaning.as_str(), 512) {
        return false;
    }
    let unit_ok = match unit {
        TranslationUnit::Word => bounded(m.part_of_speech.as_str(), 64),
        TranslationUnit::Phrase => bounded(m.phrase_type.as_str(), 64),
        TranslationUnit::Passage => false,
    };
    if !unit_ok || utf8_len_of(m.part_of_speech.as_str()) > 128 || utf8_len_of(m.phrase_type.as_str()) > 128 {
        return false;
    }
    if m.aliases.len() > 6 || !all_bounded_texts(&m.aliases, 128) || m.examples.len() > 4 {
        return false;
    }
    let mut i: usize = 0;
    while i < m.examples.len()
        invariant
            i <= m.examples.len(),
            forall|j: int| 0 <= j < i ==> bounded_text((#[trigger] m.examples@[j]).source_text@, 512)
                && bounded_text(m.examples@[j].translated_text@, 512),
        decreases m.examples.len() - i,
    {
        if !bounded(m.examples[i].source_text.as_str(), 512) || !bounded(m.examples[i].translated_text.as_str(), 512) {
            return false;
        }
        i += 1;
    }
    m.usage_notes.len() <= 6 && all_bounded_texts(&m.usage_notes, 512)
}

/// Generated meaning candidates without stable IDs, graph claims, or publication metadata.
///
/// It has no `Debug` form: `redacted_debug` stands in for one.
#[derive(Clone)]
pub struct LexicalTurnDraft {
    /// Ordered materially distinct meanings.
    pub translations: Vec<LexicalMeaningDraft>,
}

impl LexicalTurnDraft {
    /// Rejects oversized, blank, duplicate, or structurally ineligible generated content: the
    /// draft must hold one to eight valid meanings for a word or phrase, no two with the same
    /// trimmed text and meaning.
    pub fn is_valid(&self, unit: TranslationUnit) -> (b: bool)
        ensures
            b == draft_valid(self.translations@, unit),
    {
        let ms = &self.translations;
        if ms.len() == 0 || ms.len() > 8 || unit == TranslationUnit::Passage {
            return false;
        }
        let mut i: usize = 0;
        while i < ms.len()
            invariant
                i <= ms.len(),
                ms@ == self.translations@,
                0 < ms.len() <= 8,
                unit != TranslationUnit::Passage,
                forall|j: int| 0 <= j < i ==> meaning_draft_valid(#[trigger] ms@[j], unit),
                forall|a: int, c: int| 0 <= a < c < i ==> !(trim((#[trigger] ms@[a]).text@) == trim(
                    (#[trigger] ms@[c]).text@,
                ) && trim(ms@[a].meaning@) == trim(ms@[c].meaning@)),
            decreases ms.len() - i,
        {
            if !meaning_valid(&ms[i], unit) {
                return false;
            }
            let text = crate::text::trimmed_string(ms[i].text.as_str());
            let meaning = crate::text::trimmed_string(ms[i].meaning.as_str());
            let mut j: usize = 0;
            while j < i
                invariant
                    j <= i < ms.len(),
                    ms@ == self.translations@,
                    0 < ms.len() <= 8,
                    unit != TranslationUnit::Passage,
                    text@ == trim(ms@[i as int].text@),
                    meaning@ == trim(ms@[i as int].meaning@),
                    forall|a: int| 0 <= a < j ==> !(trim((#[trigger] ms@[a]).text@) == text@ && trim(ms@[a].meaning@)
                        == meaning@),
                decreases i - j,
            {
                let other_text = crate::text::trimmed_string(ms[j].text.as_str());
                let other_meaning = crate::text::trimmed_string(ms[j].meaning.as_str());
                if str_eq(other_text.as_str(), text.as_str()) && str_eq(other_meaning.as_str(), meaning.as_str()) {
                    assert(trim(ms@[j as int].text@) == trim(ms@[i as int].text@) && trim(ms@[j as int].meaning@) == trim(
                        ms@[i as int].meaning@,
                    ));
                    return false;
                }
                j += 1;
            }
            i += 1;
        }
        true
    }

    /// A debug rendering that never shows the draft's text.
    pub fn redacted_debug(&self) -> (r: &'static str)
        ensures
            r@ == "LexicalTurnDraft(REDACTED)"@,
    {
        "LexicalTurnDraft(REDACTED)"
    }
}

/// Model-only supporting material, explicitly separated from canonical knowledge.
///
/// It has no `Debug` form: `redacted_debug` stands in for one.
#[derive(Clone)]
pub struct TurnDetails {
    /// Meaning-specific unit type.
    pub unit: TranslationUnit,
    /// Word class, when applicable.
    pub part_of_speech: Option<String>,
    /// Established expression type, when applicable.
    pub phrase_type: Option<String>,
    /// Model-generated alternatives available at full level.
    pub aliases: Vec<String>,
    /// Generated examples; their provenance is declared by `generated` on this value.
    pub examples: Vec<TurnExample>,
    /// Usage notes available at standard and full levels.
    pub usage_notes: Vec<String>,
    /// Always true for this model-only foundation.
    pub generated: bool,
    /// Always exploratory: a model response alone is not verified or evidence-grounded
    /// synthesis.
    pub evidence_state: &'static str,
}

impl TurnDetails {
    /// A debug rendering that never shows the details' text.
    pub fn redacted_debug(&self) -> (r: &'static str)
        ensures
            r@ == "TurnDetails(REDACTED)"@,
    {
        "TurnDetails(REDACTED)"
    }
}

/// One translation with optional meaning-specific generated detail.
///
/// It has no `Debug` form: `redacted_debug` stands in for one.
#[derive(Clone)]
pub struct TurnTranslation {
    /// Translated text, including preserved formatting for passages.
    pub text: String,
    /// Target language selected by the caller.
    pub language: TurnLanguage,
    /// Meaning label retained at every response level for lexical translations.
    pub meaning: Option<String>,
    /// Generated supporting material; omitted for brief responses and plain passages.
    pub details: Option<TurnDetails>,
}

impl TurnTranslation {
    /// A debug rendering that never shows the translation's text.
    pub fn redacted_debug(&self) -> (r: &'static str)
        ensures
            r@ == "TurnTranslation(REDACTED)"@,
    {
        "TurnTranslation(REDACTED)"
    }
}

/// Shared inner translation result used by the unified response.
///
/// It has no `Debug` form: `redacted_debug` stands in for one.
#[derive(Clone)]
pub struct TranslationTurnResult {
    /// Word, established phrase, or connected passage.
    pub unit: TranslationUnit,
    /// Supported language resolved for the current text.
    pub detected_source_language: TurnLanguage,
    /// Ordered meanings preserved identically across all response levels.
    pub translations: Vec<TurnTranslation>,
}

/// The full lexical translation built from one generated meaning.
pub open spec fn translation_of_meaning(m: LexicalMeaningDraft, unit: TranslationUnit, target: TurnLanguage) -> TurnTranslation {
    TurnTranslation {
        text: m.text,
        language: target,
        meaning: Some(m.meaning),
        details: Some(
            TurnDetails {
                unit,
                part_of_speech: if unit == TranslationUnit::Word {
                    Some(m.part_of_speech)
                } else {
                    None
                },
                phrase_type: if unit == TranslationUnit::Phrase {
                    Some(m.phrase_type)
                } else {
                    None
                },
                aliases: m.aliases,
                examples: m.examples,
                usage_notes: m.usage_notes,
                generated: true,
                evidence_state: "exploratory",
            },
        ),
    }
}

/// Whether `a` is `b` projected to `level`: the text, language and meaning stay; brief drops
/// the details, standard keeps them without aliases, with at most one example and two usage
/// notes, and full keeps them whole.
pub open spec fn projected_translation(a: TurnTranslation, b: TurnTranslation, level: ResponseLevel) -> bool {
    &&& a.text == b.text
    &&& a.language == b.language
    &&& a.meaning == b.meaning
    &&& match level {
        ResponseLevel::Brief => a.details is None,
        ResponseLevel::Full => a.details == b.details,
        ResponseLevel::Standard => match b.details {
            None => a.details is None,
            Some(y) => a.details matches Some(x) && {
                &&& x.unit == y.unit
                &&& x.part_of_speech == y.part_of_speech
                &&& x.phrase_type == y.phrase_type
                &&& x.aliases@.len() == 0
                &&& x.examples@ == y.examples@.take(if y.examples@.len() < 1 { y.examples@.len() as int } else { 1 })
                &&& x.usage_notes@ == y.usage_notes@.take(if y.usage_notes@.len() < 2 { y.usage_notes@.len() as int } else { 2 })
                &&& x.generated == y.generated
                &&& x.evidence_state == y.evidence_state
            },
        },
    }
}

fn project_translation(t: TurnTranslation, level: ResponseLevel) -> (r: TurnTranslation)
    ensures
        projected_translation(r, t, level),
{
    let TurnTranslation { text, language, meaning, details } = t;
    let details = match level {
        ResponseLevel::Brief => None,
        ResponseLevel::Full => details,
        ResponseLevel::Standard => match details {
            None => None,
            Some(d) => {
                let ghost d0 = d;
                let TurnDetails { unit, part_of_speech, phrase_type, mut aliases, mut examples, mut usage_notes, generated, evidence_state } = d;
                aliases.clear();
                examples.truncate(1);
                usage_notes.truncate(2);
                assert(aliases@.len() == 0);
                assert(examples@ == d0.examples@.take(if d0.examples@.len() < 1 { d0.examples@.len() as int } else { 1 }));
                assert(usage_notes@ == d0.usage_notes@.take(if d0.usage_notes@.len() < 2 { d0.usage_notes@.len() as int } else { 2 }));
                Some(TurnDetails { unit, part_of_speech, phrase_type, aliases, examples, usage_notes, generated, evidence_state })
            },
        },
    };
    TurnTranslation { text, language, meaning, details }
}

impl TranslationTurnResult {
    /// Assembles the full lexical superset; callers validate the model draft first.
    ///
    /// Every meaning becomes one translation, in order, into `target`, with its meaning label
    /// and generated details; the part of speech is kept for words and the phrase type for
    /// phrases.
    pub fn lexical(draft: LexicalTurnDraft, unit: TranslationUnit, source: TurnLanguage, target: TurnLanguage) -> (r: Self)
        ensures
            r.unit == unit,
            r.detected_source_language == source,
            r.translations@.len() == draft.translations@.len(),
            forall|i: int| 0 <= i < r.translations@.len() ==> #[trigger] r.translations@[i] == translation_of_meaning(
                draft.translations@[i],
                unit,
                target,
            ),
    {
        let ghost ms = draft.translations@;
        let total = draft.translations.len();
        let mut rest = draft.translations;
        let mut translations: Vec<TurnTranslation> = Vec::new();
        let mut n: usize = 0;
        proof {
            reveal_strlit("exploratory");
        }
        while rest.len() > 0
            invariant
                rest@ == ms.skip(n as int),
                n + rest@.len() == ms.len(),
                total == ms.len(),
                translations@.len() == n,
                forall|i: int| 0 <= i < n ==> #[trigger] translations@[i] == translation_of_meaning(ms[i], unit, target),
            decreases rest.len(),
        {
            let m = rest.remove(0);
            proof {
                assert(ms.skip(n as int)[0] == ms[n as int]);
                assert(ms.skip(n as int).drop_first() =~= ms.skip(n + 1));
            }
            let LexicalMeaningDraft { text, meaning, part_of_speech, phrase_type, aliases, examples, usage_notes } = m;
            let t = TurnTranslation {
                text,
                language: target,
                meaning: Some(meaning),
                details: Some(
                    TurnDetails {
                        unit,
                        part_of_speech: if unit == TranslationUnit::Word {
                            Some(part_of_speech)
                        } else {
                            None
                        },
                        phrase_type: if unit == TranslationUnit::Phrase {
                            Some(phrase_type)
                        } else {
                            None
                        },
                        aliases,
                        examples,
                        usage_notes,
                        generated: true,
                        evidence_state: "exploratory",
                    },
                ),
            };
            translations.push(t);
            n += 1;
        }
        TranslationTurnResult { unit, detected_source_language: source, translations }
    }

    /// Produces a plain connected-text result without inventing optional tips or alternatives.
    pub fn passage(text: String, source: TurnLanguage, target: TurnLanguage) -> (r: Self)
        ensures
            r.unit == TranslationUnit::Passage,
            r.detected_source_language == source,
            r.translations@ == seq![TurnTranslation { text, language: target, meaning: None, details: None }],
    {
        let mut translations: Vec<TurnTranslation> = Vec::new();
        translations.push(TurnTranslation { text, language: target, meaning: None, details: None });
        TranslationTurnResult { unit: TranslationUnit::Passage, detected_source_language: source, translations }
    }

    /// Projects an existing superset to `level` without changing the unit, the language, the
    /// translation texts, the meaning count, or their order.
    pub fn project(self, level: ResponseLevel) -> (r: Self)
        ensures
            r.unit == self.unit,
            r.detected_source_language == self.detected_source_language,
            r.translations@.len() == self.translations@.len(),
            forall|i: int| 0 <= i < r.translations@.len() ==> projected_translation(
                #[trigger] r.translations@[i],
                self.translations@[i],
                level,
            ),
    {
        let TranslationTurnResult { unit, detected_source_language, translations } = self;
        let ghost ts = translations@;
        let total = translations.len();
        let mut rest = translations;
        let mut out: Vec<TurnTranslation> = Vec::new();
        let mut n: usize = 0;
        while rest.len() > 0
            invariant
                rest@ == ts.skip(n as int),
                n + rest@.len() == ts.len(),
                total == ts.len(),
                out@.len() == n,
                forall|i: int| 0 <= i < n ==> projected_translation(#[trigger] out@[i], ts[i], level),
            decreases rest.len(),
        {
            let t = rest.remove(0);
            proof {
                assert(ts.skip(n as int)[0] == ts[n as int]);
                assert(ts.skip(n as int).drop_first() =~= ts.skip(n + 1));
            }
            out.push(project_translation(t, level));
            n += 1;
        }
        TranslationTurnResult { unit, detected_source_language, translations: out }
    }

    /// A debug rendering that never shows the result's text.
    pub fn redacted_debug(&self) -> (r: &'static str)
        ensures
            r@ == "TranslationTurnResult(REDACTED)"@,
    {
        "TranslationTurnResult(REDACTED)"
    }
}

} // verus!
