//! Canonical lexical entities and provenance invariants.

use crate::text::{
    ascii_lower, ascii_upper, char_ascii_lower, char_ascii_upper, chars_of, is_ascii_alnum,
    is_ascii_alpha, lowercase_all, lowercase_string, nfc, nfc_string, push_char, split_chars,
    split_on, string_from_chars, trim, trimmed_chars, trimmed_string, utf8_len, utf8_len_of,
    lemma_trim_idempotent,
};
use vstd::prelude::*;

verus! {

/// Maximum accepted length of a canonical BCP-47 language tag.
pub const MAX_LANGUAGE_TAG_LENGTH: usize = 35;

/// Validation failures for canonical lexical values.
#[derive(Debug, Clone, Copy, PartialEq, Eq, Structural)]
pub enum CanonicalValidationError {
    /// An opaque identifier was empty after trimming surrounding whitespace.
    BlankIdentifier,
    /// A BCP-47 language tag did not have the supported conservative shape.
    InvalidLanguageTag,
}

impl CanonicalValidationError {
    /// Returns the human-readable description of this failure.
    pub fn message(&self) -> (r: &'static str)
        ensures
            r@ == match *self {
                CanonicalValidationError::BlankIdentifier => "canonical identifier must not be blank"@,
                CanonicalValidationError::InvalidLanguageTag => "language tag must be a BCP-47 language tag"@,
            },
    {
        match self {
            CanonicalValidationError::BlankIdentifier => "canonical identifier must not be blank",
            CanonicalValidationError::InvalidLanguageTag => "language tag must be a BCP-47 language tag",
        }
    }
}

/// Opaque stable identifier for a canonical entity.
#[derive(Debug, PartialEq, Eq, PartialOrd, Ord, Hash)]
pub struct CanonicalId(String);

impl View for CanonicalId {
    type V = Seq<char>;

    closed spec fn view(&self) -> Seq<char> {
        self.0@
    }
}

impl DeepView for CanonicalId {
    type V = Seq<char>;

    open spec fn deep_view(&self) -> Seq<char> {
        self@
    }
}

impl Clone for CanonicalId {
    fn clone(&self) -> (r: Self)
        ensures
            r == *self,
    {
        CanonicalId(self.0.clone())
    }
}

impl CanonicalId {
    /// Creates an opaque identifier after trimming surrounding whitespace.
    ///
    /// Returns an error when `value` is blank. The kept text is already trimmed, so parsing it
    /// again gives an identifier with the same text.
    pub fn new(value: &str) -> (r: Result<Self, CanonicalValidationError>)
        ensures
            match r {
                Ok(id) => trim(value@).len() > 0 && id@ == trim(value@) && trim(id@) == id@,
                Err(e) => trim(value@).len() == 0 && e == CanonicalValidationError::BlankIdentifier,
            },
    {
        proof {
            lemma_trim_idempotent(value@);
        }
        let trimmed = trimmed_string(value);
        if trimmed.as_str().is_empty() {
            return Err(CanonicalValidationError::BlankIdentifier);
        }
        Ok(CanonicalId(trimmed))
    }

    /// Returns the opaque identifier as a string slice.
    pub fn as_str(&self) -> (r: &str)
        ensures
            r@ == self@,
    {
        self.0.as_str()
    }

    /// Returns the identifier text as an owned string.
    pub fn to_text(&self) -> (r: String)
        ensures
            r@ == self@,
    {
        self.0.clone()
    }

    /// Whether both identifiers hold the same text.
    pub fn same(&self, other: &CanonicalId) -> (b: bool)
        ensures
            b == (self@ == other@),
    {
        self.0 == other.0
    }
}

impl std::str::FromStr for CanonicalId {
    type Err = CanonicalValidationError;

    fn from_str(value: &str) -> Result<Self, Self::Err> {
        Self::new(value)
    }
}

/// Identifier of an immutable lexical-content release.
pub type ReleaseId = CanonicalId;

/// Identifier of a source-policy record.
pub type SourceId = CanonicalId;

/// Identifier of one independently citable evidence fragment.
pub type EvidenceId = CanonicalId;

/// Identifier of a language-specific lexeme.
pub type LexemeId = CanonicalId;

/// Identifier of a lexeme form or alias.
pub type FormId = CanonicalId;

/// Identifier of one lexical sense.
pub type SenseId = CanonicalId;

/// Identifier of an immutable vector collection version.
pub type VectorCollectionId = CanonicalId;

/// Whether every character of `p` is an ASCII letter.
pub open spec fn all_alpha(p: Seq<char>) -> bool {
    forall|k: int| 0 <= k < p.len() ==> is_ascii_alpha(#[trigger] p[k])
}

/// Whether every character of `p` is an ASCII letter or digit.
pub open spec fn all_alnum(p: Seq<char>) -> bool {
    forall|k: int| 0 <= k < p.len() ==> is_ascii_alnum(#[trigger] p[k])
}

/// The conservative subtag shape: a 2-8 letter language subtag followed by 1-8 character
/// alphanumeric subtags.
pub open spec fn subtags_well_formed(parts: Seq<Seq<char>>) -> bool {
    &&& parts.len() >= 1
    &&& 2 <= parts[0].len() <= 8
    &&& all_alpha(parts[0])
    &&& forall|i: int|
        1 <= i < parts.len() ==> 1 <= (#[trigger] parts[i]).len() <= 8 && all_alnum(parts[i])
}

/// Whether `s` has the conservative BCP-47 shape accepted by this service.
pub open spec fn is_language_tag(s: Seq<char>) -> bool {
    &&& s.len() > 0
    &&& utf8_len(s) <= MAX_LANGUAGE_TAG_LENGTH
    &&& trim(s) == s
    &&& subtags_well_formed(split_on(s, '-'))
}

/// Canonical case of the subtag at position `index`: the language lowercased, two-letter
/// regions uppercased, four-letter scripts title-cased and everything else lowercased.
pub open spec fn canonical_subtag(index: int, p: Seq<char>) -> Seq<char> {
    if index == 0 {
        p.map_values(|c: char| ascii_lower(c))
    } else if utf8_len(p) == 2 {
        p.map_values(|c: char| ascii_upper(c))
    } else if utf8_len(p) == 4 && p.len() > 0 {
        seq![ascii_upper(p[0])] + p.drop_first().map_values(|c: char| ascii_lower(c))
    } else {
        p.map_values(|c: char| ascii_lower(c))
    }
}

/// The pieces joined with `-`, as `[String]::join("-")` returns them.
pub open spec fn join_dash(parts: Seq<Seq<char>>) -> Seq<char>
    decreases parts.len(),
{
    if parts.len() == 0 {
        Seq::empty()
    } else if parts.len() == 1 {
        parts[0]
    } else {
        join_dash(parts.drop_last()) + seq!['-'] + parts.last()
    }
}

/// The canonical spelling of a language tag.
pub open spec fn canonical_language_tag(s: Seq<char>) -> Seq<char> {
    let parts = split_on(s, '-');
    join_dash(Seq::new(parts.len(), |i: int| canonical_subtag(i, parts[i])))
}

/// The primary language subtag of a tag.
pub open spec fn primary_subtag(s: Seq<char>) -> Seq<char> {
    split_on(s, '-')[0]
}

fn check_subtag(p: &Vec<char>, first: bool) -> (b: bool)
    ensures
        b == (if first {
            2 <= p@.len() <= 8 && all_alpha(p@)
        } else {
            1 <= p@.len() <= 8 && all_alnum(p@)
        }),
{
    let min: usize = if first { 2 } else { 1 };
    if p.len() < min || p.len() > 8 {
        return false;
    }
    let mut i: usize = 0;
    while i < p.len()
        invariant
            i <= p.len(),
            forall|k: int|
                0 <= k < i ==> (if first {
                    is_ascii_alpha(#[trigger] p@[k])
                } else {
                    is_ascii_alnum(p@[k])
                }),
        decreases p.len() - i,
    {
        let c = p[i];
        let alpha = ('a' <= c && c <= 'z') || ('A' <= c && c <= 'Z');
        let ok = if first {
            alpha
        } else {
            alpha || ('0' <= c && c <= '9')
        };
        if !ok {
            return false;
        }
        i += 1;
    }
    true
}

pub(crate) fn check_language_tag(value: &str) -> (b: bool)
    ensures
        b == is_language_tag(value@),
{
    let chars = chars_of(value);
    if chars.len() == 0 {
        return false;
    }
    if utf8_len_of(value) > 35 {
        return false;
    }
    let trimmed = trimmed_chars(value);
    if trimmed.len() != chars.len() {
        return false;
    }
    let mut k: usize = 0;
    while k < chars.len()
        invariant
            k <= chars.len() == trimmed.len(),
            chars@ == value@,
            trimmed@ == trim(value@),
            forall|m: int| 0 <= m < k ==> chars@[m] == trimmed@[m],
        decreases chars.len() - k,
    {
        if chars[k] != trimmed[k] {
            assert(chars@[k as int] != trimmed@[k as int]);
            assert(chars@ != trimmed@);
            return false;
        }
        k += 1;
    }
    assert(chars@ =~= trimmed@);
    let parts = split_chars(&chars, '-');
    proof {
        crate::text::lemma_split_nonempty(chars@, '-');
    }
    if !check_subtag(&parts[0], true) {
        return false;
    }
    let mut i: usize = 1;
    while i < parts.len()
        invariant
            1 <= i <= parts.len(),
            parts.len() == split_on(value@, '-').len(),
            forall|j: int| 0 <= j < parts.len() ==> (#[trigger] parts[j])@ == split_on(value@, '-')[j],
            forall|j: int|
                1 <= j < i ==> 1 <= (#[trigger] split_on(value@, '-')[j]).len() <= 8 && all_alnum(
                    split_on(value@, '-')[j],
                ),
        decreases parts.len() - i,
    {
        if !check_subtag(&parts[i], false) {
            return false;
        }
        i += 1;
    }
    true
}

fn ascii_lower_vec(p: &Vec<char>, from: usize, out: &mut String)
    requires
        from <= p.len(),
    ensures
        final(out)@ == old(out)@ + p@.skip(from as int).map_values(|c: char| ascii_lower(c)),
{
    let mut i = from;
    let ghost start = out@;
    while i < p.len()
        invariant
            from <= i <= p.len(),
            out@ == start + p@.subrange(from as int, i as int).map_values(|c: char| ascii_lower(c)),
        decreases p.len() - i,
    {
        let c = char_ascii_lower(p[i]);
        push_char(out, c);
        assert(p@.subrange(from as int, i + 1).map_values(|c: char| ascii_lower(c)) =~= p@.subrange(
            from as int,
            i as int,
        ).map_values(|c: char| ascii_lower(c)).push(ascii_lower(p@[i as int])));
        i += 1;
    }
    assert(p@.subrange(from as int, p.len() as int) =~= p@.skip(from as int));
}

fn ascii_upper_vec(p: &Vec<char>, out: &mut String)
    ensures
        final(out)@ == old(out)@ + p@.map_values(|c: char| ascii_upper(c)),
{
    let mut i: usize = 0;
    let ghost start = out@;
    while i < p.len()
        invariant
            i <= p.len(),
            out@ == start + p@.take(i as int).map_values(|c: char| ascii_upper(c)),
        decreases p.len() - i,
    {
        let c = char_ascii_upper(p[i]);
        push_char(out, c);
        assert(p@.take(i + 1).map_values(|c: char| ascii_upper(c)) =~= p@.take(i as int).map_values(
            |c: char| ascii_upper(c),
        ).push(ascii_upper(p@[i as int])));
        i += 1;
    }
    assert(p@.take(p.len() as int) =~= p@);
}

fn vec_utf8_len(p: &Vec<char>) -> (n: u128)
    ensures
        n == utf8_len(p@),
{
    let s = string_from_chars(p);
    utf8_len_of(s.as_str())
}

pub(crate) fn canonicalize_language_tag(value: &str) -> (r: String)
    ensures
        r@ == canonical_language_tag(value@),
{
    let chars = chars_of(value);
    let parts = split_chars(&chars, '-');
    let ghost sp = split_on(value@, '-');
    let ghost canon = Seq::new(sp.len(), |i: int| canonical_subtag(i, sp[i]));
    let mut out = String::new();
    let mut i: usize = 0;
    while i < parts.len()
        invariant
            i <= parts.len() == sp.len(),
            canon.len() == sp.len(),
            forall|j: int| 0 <= j < canon.len() ==> #[trigger] canon[j] == canonical_subtag(j, sp[j]),
            forall|j: int| 0 <= j < parts.len() ==> (#[trigger] parts[j])@ == sp[j],
            out@ == join_dash(canon.take(i as int)),
        decreases parts.len() - i,
    {
        let ghost before = out@;
        if i > 0 {
            push_char(&mut out, '-');
        }
        let p = &parts[i];
        if i == 0 {
            ascii_lower_vec(p, 0, &mut out);
            assert(p@.skip(0) =~= p@);
        } else {
            let width = vec_utf8_len(p);
            if width == 2 {
                ascii_upper_vec(p, &mut out);
            } else if width == 4 && p.len() > 0 {
                let c = char_ascii_upper(p[0]);
                push_char(&mut out, c);
                ascii_lower_vec(p, 1, &mut out);
                assert(p@.skip(1) =~= p@.drop_first());
            } else {
                ascii_lower_vec(p, 0, &mut out);
                assert(p@.skip(0) =~= p@);
            }
        }
        proof {
            let t = canon.take(i + 1);
            assert(t.drop_last() =~= canon.take(i as int));
            assert(t.last() == canon[i as int]);
            if i == 0 {
                assert(t.len() == 1);
                assert(out@ =~= canon[0]);
            } else {
                assert(out@ =~= join_dash(canon.take(i as int)) + seq!['-'] + canon[i as int]);
            }
        }
        i += 1;
    }
    assert(canon.take(parts.len() as int) =~= canon);
    out
}

/// A normalized, validated BCP-47 language tag.
#[derive(Debug, PartialEq, Eq, PartialOrd, Ord, Hash)]
pub struct LanguageTag(String);

impl View for LanguageTag {
    type V = Seq<char>;

    closed spec fn view(&self) -> Seq<char> {
        self.0@
    }
}

impl DeepView for LanguageTag {
    type V = Seq<char>;

    open spec fn deep_view(&self) -> Seq<char> {
        self@
    }
}

impl Clone for LanguageTag {
    fn clone(&self) -> (r: Self)
        ensures
            r == *self,
    {
        LanguageTag(self.0.clone())
    }
}

impl LanguageTag {
    /// Parses and canonicalizes a conservative BCP-47 language tag.
    ///
    /// Returns an error when `value` is not a supported BCP-47-shaped tag.
    pub fn parse(value: &str) -> (r: Result<Self, CanonicalValidationError>)
        ensures
            match r {
                Ok(tag) => is_language_tag(value@) && tag@ == canonical_language_tag(value@),
                Err(e) => !is_language_tag(value@) && e == CanonicalValidationError::InvalidLanguageTag,
            },
    {
        if !check_language_tag(value) {
            return Err(CanonicalValidationError::InvalidLanguageTag);
        }
        Ok(LanguageTag(canonicalize_language_tag(value)))
    }

    /// Returns the canonical BCP-47 tag.
    pub fn as_str(&self) -> (r: &str)
        ensures
            r@ == self@,
    {
        self.0.as_str()
    }

    /// Returns the canonical primary language subtag as a standalone tag.
    pub fn primary_language(&self) -> (r: Self)
        ensures
            r@ == primary_subtag(self@),
    {
        let chars = chars_of(self.0.as_str());
        let parts = split_chars(&chars, '-');
        proof {
            crate::text::lemma_split_nonempty(chars@, '-');
        }
        LanguageTag(string_from_chars(&parts[0]))
    }

    /// Whether both tags hold the same canonical text.
    pub fn same(&self, other: &LanguageTag) -> (b: bool)
        ensures
            b == (self@ == other@),
    {
        self.0 == other.0
    }

    /// Whether both tags share their primary language subtag.
    pub fn same_primary_language(&self, other: &LanguageTag) -> (b: bool)
        ensures
            b == (primary_subtag(self@) == primary_subtag(other@)),
    {
        self.primary_language().same(&other.primary_language())
    }
}

impl std::str::FromStr for LanguageTag {
    type Err = CanonicalValidationError;

    fn from_str(value: &str) -> Result<Self, Self::Err> {
        Self::parse(value)
    }
}

/// An enabled or known language in a canonical release.
#[derive(Debug, Clone, PartialEq, Eq, PartialOrd, Ord)]
pub struct Language {
    /// Canonical BCP-47 tag.
    pub tag: LanguageTag,
    /// Human-readable language name.
    pub display_name: String,
    /// Version of morphology data used for this language.
    pub morphology_version: String,
    /// Whether new requests may resolve to this language.
    pub enabled: bool,
}

/// Publication state of immutable lexical content.
#[derive(Debug, Clone, Copy, PartialEq, Eq, PartialOrd, Ord, Hash, Structural)]
pub enum ReleaseStatus {
    /// Content is being imported, validated, or evaluated and cannot serve lookups.
    Staging,
    /// Content may be selected by the active-content pointer.
    Published,
    /// Content is retained only for rollback, provenance, or historical reads.
    Retired,
}

/// Immutable set of canonical lexical content.
#[derive(Debug, Clone, PartialEq, Eq, PartialOrd, Ord)]
pub struct LexiconRelease {
    /// Stable public release identifier.
    pub id: ReleaseId,
    /// Hash of the complete source manifest used to construct the release.
    pub source_manifest_hash: String,
    /// Publication lifecycle state.
    pub status: ReleaseStatus,
    /// Prior compatible release retained for rollback, when one exists.
    pub rollback_predecessor: Option<ReleaseId>,
}

/// Exact compatible lexical and vector versions selected for a request.
#[derive(Debug, PartialEq, Eq, PartialOrd, Ord, Hash)]
pub struct ActiveContentVersion {
    /// Immutable lexical release used for canonical records and permissions.
    pub release_id: ReleaseId,
    /// Immutable vector collection paired with `release_id`.
    pub vector_collection_id: VectorCollectionId,
    /// Canonical-schema version shared by both stores.
    pub schema_version: String,
    /// Deterministic retrieval-ranking implementation version.
    pub ranking_version: String,
}

impl View for ActiveContentVersion {
    type V = (Seq<char>, Seq<char>, Seq<char>, Seq<char>);

    open spec fn view(&self) -> (Seq<char>, Seq<char>, Seq<char>, Seq<char>) {
        (self.release_id@, self.vector_collection_id@, self.schema_version@, self.ranking_version@)
    }
}

impl Clone for ActiveContentVersion {
    fn clone(&self) -> (r: Self)
        ensures
            r == *self,
    {
        ActiveContentVersion {
            release_id: self.release_id.clone(),
            vector_collection_id: self.vector_collection_id.clone(),
            schema_version: self.schema_version.clone(),
            ranking_version: self.ranking_version.clone(),
        }
    }
}

impl ActiveContentVersion {
    /// Whether both versions name the same release, collection, schema and ranking.
    pub fn same(&self, other: &ActiveContentVersion) -> (b: bool)
        ensures
            b == (self@ == other@),
    {
        self.release_id.same(&other.release_id)
            && self.vector_collection_id.same(&other.vector_collection_id)
            && self.schema_version == other.schema_version
            && self.ranking_version == other.ranking_version
    }
}

/// One operation that source terms may permit independently.
#[derive(Debug, Clone, Copy, PartialEq, Eq, PartialOrd, Ord, Hash, Structural)]
pub enum EvidenceUse {
    /// Persist a source fragment in canonical storage.
    Storage,
    /// Present a fragment in a learner-facing response.
    Display,
    /// Create a derived vector from a fragment.
    Embedding,
    /// Send a fragment to a configured model provider.
    ModelProcessing,
    /// Redistribute a fragment through a public API or export.
    ApiRedistribution,
}

/// Source-license permissions captured on every evidence fragment.
#[derive(Debug, Clone, Copy, PartialEq, Eq, PartialOrd, Ord, Hash, Structural)]
pub struct SourcePermissions {
    /// Whether the source may be stored in canonical infrastructure.
    pub storage: bool,
    /// Whether the source may be displayed to a learner.
    pub display: bool,
    /// Whether a derived vector may be created from the source.
    pub embedding: bool,
    /// Whether the source may be sent to a model provider.
    pub model_processing: bool,
    /// Whether the source may be returned through a public API or export.
    pub api_redistribution: bool,
}

impl SourcePermissions {
    /// The permission flag that governs `evidence_use`.
    pub open spec fn spec_allows(self, evidence_use: EvidenceUse) -> bool {
        match evidence_use {
            EvidenceUse::Storage => self.storage,
            EvidenceUse::Display => self.display,
            EvidenceUse::Embedding => self.embedding,
            EvidenceUse::ModelProcessing => self.model_processing,
            EvidenceUse::ApiRedistribution => self.api_redistribution,
        }
    }

    /// Returns whether the requested operation is permitted.
    pub fn allows(self, evidence_use: EvidenceUse) -> (b: bool)
        ensures
            b == self.spec_allows(evidence_use),
    {
        match evidence_use {
            EvidenceUse::Storage => self.storage,
            EvidenceUse::Display => self.display,
            EvidenceUse::Embedding => self.embedding,
            EvidenceUse::ModelProcessing => self.model_processing,
            EvidenceUse::ApiRedistribution => self.api_redistribution,
        }
    }
}

/// Licensed source and policy metadata for canonical evidence.
#[derive(Debug, Clone, PartialEq, Eq, PartialOrd, Ord)]
pub struct LexicalSource {
    /// Stable source-policy identifier.
    pub id: SourceId,
    /// Stable source name owned by the provider or licensor.
    pub name: String,
    /// Imported source version or retrieval date.
    pub version: String,
    /// SPDX identifier or another stable license reference.
    pub license: String,
    /// Required attribution text or URL, when any.
    pub attribution: Option<String>,
    /// Machine-readable permissions for this source version.
    pub permissions: SourcePermissions,
}

/// Lifecycle state of a factual fragment or lexical record.
#[derive(Debug, Clone, Copy, PartialEq, Eq, PartialOrd, Ord, Hash, Structural)]
pub enum CanonicalStatus {
    /// Record is eligible for the published release that contains it.
    Active,
    /// Record requires editorial review and is not eligible for default reads.
    Draft,
    /// Record is temporarily excluded because of policy, safety, or licensing concerns.
    Quarantined,
    /// Record is no longer active but remains available for historical provenance.
    Retired,
}

impl CanonicalStatus {
    /// Returns whether this record may participate in a default canonical lookup.
    pub fn is_lookup_eligible(self) -> (b: bool)
        ensures
            b == (self == CanonicalStatus::Active),
    {
        matches!(self, CanonicalStatus::Active)
    }
}

/// Type of factual material carried by an evidence fragment.
#[derive(Debug, Clone, Copy, PartialEq, Eq, PartialOrd, Ord, Hash, Structural)]
pub enum EvidenceKind {
    /// Dictionary definition or sense description.
    Definition,
    /// Localized gloss or translation.
    LocalizedGloss,
    /// Corpus or dictionary example.
    Example,
    /// Pronunciation, spelling, or phonetic assertion.
    Pronunciation,
    /// Usage, grammar, register, frequency, or level assertion.
    Usage,
    /// Etymology or dated historical assertion.
    Etymology,
    /// Other citable canonical detail.
    Other,
}

/// Source-qualified confidence in one evidence-backed assertion.
#[derive(Debug, Clone, Copy, PartialEq, Eq, PartialOrd, Ord, Hash, Structural)]
pub enum EvidenceConfidence {
    /// Multiple or directly authoritative sources support the assertion.
    High,
    /// The assertion is useful but has a material source or scope qualification.
    Medium,
    /// The assertion is retained for review or explicitly cautious presentation.
    Low,
}

/// Independently citable, source-qualified evidence.
#[derive(Debug, Clone, PartialEq, Eq, PartialOrd, Ord)]
pub struct EvidenceFragment {
    /// Stable evidence identifier.
    pub id: EvidenceId,
    /// Source-policy record that governs this fragment.
    pub source_id: SourceId,
    /// Source-local identifier retained for correction and removal.
    pub source_reference: String,
    /// Immutable content release containing the fragment.
    pub release_id: ReleaseId,
    /// Language of the evidence text.
    pub language: LanguageTag,
    /// Classification of the supported factual assertion.
    pub kind: EvidenceKind,
    /// Source-qualified confidence retained separately from retrieval rank.
    pub confidence: EvidenceConfidence,
    /// Licensed source text retained as the independently citable fragment.
    pub text: String,
    /// Content hash for idempotent imports and vector reconciliation.
    pub content_hash: String,
    /// Per-fragment permission snapshot, including asset-level restrictions.
    pub permissions: SourcePermissions,
    /// Editorial lifecycle state.
    pub status: CanonicalStatus,
}

impl EvidenceFragment {
    /// Whether this evidence supports `evidence_use` in the release named `release_id`.
    pub open spec fn spec_permits(&self, release_id: Seq<char>, evidence_use: EvidenceUse) -> bool {
        &&& self.release_id@ == release_id
        &&& self.status == CanonicalStatus::Active
        &&& self.permissions.spec_allows(evidence_use)
    }

    /// Returns whether this evidence can support the requested operation in `release_id`.
    pub fn permits(&self, release_id: &ReleaseId, evidence_use: EvidenceUse) -> (b: bool)
        ensures
            b == self.spec_permits(release_id@, evidence_use),
    {
        self.release_id.same(release_id) && self.status.is_lookup_eligible()
            && self.permissions.allows(evidence_use)
    }
}

/// Canonical part of speech attached to a language-specific lexeme.
#[derive(Debug, Clone, Copy, PartialEq, Eq, PartialOrd, Ord, Hash, Structural)]
pub enum LexicalPartOfSpeech {
    /// Noun.
    Noun,
    /// Verb.
    Verb,
    /// Adjective.
    Adjective,
    /// Adverb.
    Adverb,
    /// Pronoun.
    Pronoun,
    /// Preposition.
    Preposition,
    /// Conjunction.
    Conjunction,
    /// Determiner.
    Determiner,
    /// Interjection.
    Interjection,
    /// Numeral.
    Numeral,
    /// Multi-word expression or source-specific lexical class.
    Other,
}

/// A language-specific lemma and part of speech.
#[derive(Debug, Clone, PartialEq, Eq, PartialOrd, Ord)]
pub struct Lexeme {
    /// Stable lexeme identifier.
    pub id: LexemeId,
    /// Immutable release containing the lexeme.
    pub release_id: ReleaseId,
    /// Language of the lemma.
    pub language: LanguageTag,
    /// User-visible lemma, preserving source spelling.
    pub lemma: String,
    /// Explicit normalized lookup key rather than an implicit database collation.
    pub normalized_lemma: String,
    /// Canonical part of speech.
    pub part_of_speech: LexicalPartOfSpeech,
    /// Editorial lifecycle state.
    pub status: CanonicalStatus,
}

/// Retrieval role of a stored surface form.
#[derive(Debug, Clone, Copy, PartialEq, Eq, PartialOrd, Ord, Hash, Structural)]
pub enum FormKind {
    /// Canonical lemma form.
    Lemma,
    /// Exact spelling variant that does not change the lexical meaning.
    SpellingVariant,
    /// Inflected or morphologically derived surface form.
    Inflection,
    /// Multi-token expression attached to a lexeme.
    Phrase,
    /// Romanization, common misspelling, or explicitly marked alias.
    Alias,
}

/// One inflection, spelling variant, phrase, or alias belonging to a lexeme.
#[derive(Debug, Clone, PartialEq, Eq, PartialOrd, Ord)]
pub struct WordForm {
    /// Stable form identifier.
    pub id: FormId,
    /// Lexeme that owns this form.
    pub lexeme_id: LexemeId,
    /// Immutable release containing the form.
    pub release_id: ReleaseId,
    /// User-visible surface form.
    pub form: String,
    /// Explicit normalized lookup key.
    pub normalized_form: String,
    /// Retrieval and display role for the form.
    pub kind: FormKind,
    /// Source-qualified morphology metadata version or feature summary.
    pub morphology: Option<String>,
    /// Evidence supporting the form assertion.
    pub evidence_ids: Vec<EvidenceId>,
    /// Editorial lifecycle state.
    pub status: CanonicalStatus,
}

/// One meaning of a lexeme, kept distinct from its spelling and other senses.
#[derive(Debug, Clone, PartialEq, Eq, PartialOrd, Ord)]
pub struct Sense {
    /// Stable sense identifier.
    pub id: SenseId,
    /// Lexeme to which this meaning belongs.
    pub lexeme_id: LexemeId,
    /// Immutable release containing the sense.
    pub release_id: ReleaseId,
    /// Source-stable key that distinguishes senses within a lexeme.
    pub sense_key: String,
    /// Concise canonical definition; evidence remains authoritative for this text.
    pub definition: String,
    /// Evidence fragments that support the definition.
    pub definition_evidence_ids: Vec<EvidenceId>,
    /// Editorial lifecycle state.
    pub status: CanonicalStatus,
}

/// Copies a list of canonical identifiers.
pub fn clone_ids(v: &Vec<CanonicalId>) -> (r: Vec<CanonicalId>)
    ensures
        r@ == v@,
{
    let mut r: Vec<CanonicalId> = Vec::new();
    let mut i: usize = 0;
    while i < v.len()
        invariant
            i <= v.len(),
            r@ == v@.take(i as int),
        decreases v.len() - i,
    {
        r.push(v[i].clone());
        assert(v@.take(i + 1) =~= v@.take(i as int).push(v@[i as int]));
        i += 1;
    }
    assert(v@.take(v.len() as int) =~= v@);
    r
}

/// Produces a baseline NFC and case-normalized lookup key.
///
/// Adapters may apply additional language-aware segmentation or morphology rules, but they must
/// retain this explicit key rather than depend on a database collation.
pub fn normalize_lookup_key(value: &str) -> (r: String)
    ensures
        r@ == lowercase_all(nfc(trim(value@))),
        r@.len() == 0 <==> trim(value@).len() == 0,
{
    let trimmed = trimmed_string(value);
    let composed = nfc_string(trimmed.as_str());
    lowercase_string(composed.as_str())
}

} // verus!
