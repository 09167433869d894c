//! Bounded canonical lexical-detail values with factual-evidence safeguards.
//!
//! The types in this module model reviewed canonical detail only. They do not import source
//! material, create source records, choose a release, persist data, or expose an HTTP contract.
//! An unreviewed or rejected generated artifact cannot be converted into the evidence lineage
//! used by a factual assertion.

use crate::domain::canonical::{
    primary_subtag, CanonicalId, CanonicalStatus, EvidenceFragment, EvidenceKind, EvidenceUse,
    LanguageTag, Lexeme, LexemeId, LexicalSource, ReleaseId, Sense, SenseId, SourcePermissions,
};
use crate::keyed::{has_key, keys_distinct, keys_of, no_duplicate_keys};
use crate::text::{is_blank, str_is_blank};
use vstd::prelude::*;

verus! {

/// Largest number of independently citable fragments that may support one factual assertion.
pub const MAX_DETAIL_EVIDENCE: usize = 8;

/// Largest number of each detail kind retained for one canonical sense.
pub const MAX_DETAILS_PER_KIND: usize = 24;

/// Largest number of characters retained in one canonical factual assertion.
pub const MAX_DETAIL_TEXT_LENGTH: usize = 4_096;

/// Largest number of characters retained in one controlled label or collocation term.
pub const MAX_DETAIL_LABEL_LENGTH: usize = 256;

/// Largest number of retired or successor senses represented by one evolution mapping side.
pub const MAX_SENSE_EVOLUTION_MEMBERS: usize = 16;

/// Stable identifier for a localized-gloss assertion.
pub type LocalizedGlossId = CanonicalId;

/// Stable identifier for a pronunciation assertion.
pub type PronunciationId = CanonicalId;

/// Stable identifier for a usage-label assertion.
pub type UsageLabelId = CanonicalId;

/// Stable identifier for a grammar-pattern assertion.
pub type GrammarPatternId = CanonicalId;

/// Stable identifier for a collocation assertion.
pub type CollocationId = CanonicalId;

/// Stable identifier for a canonical example assertion.
pub type CanonicalExampleId = CanonicalId;

/// Stable identifier for a learner-pitfall assertion.
pub type LearnerPitfallId = CanonicalId;

/// Stable identifier for an etymology assertion.
pub type EtymologyAssertionId = CanonicalId;

/// Stable identifier for a sense-history assertion.
pub type SenseHistoryAssertionId = CanonicalId;

/// Stable identifier for a release-scoped sense-evolution mapping.
pub type SenseEvolutionId = CanonicalId;

/// Validation failure for canonical lexical detail or its factual evidence lineage.
#[derive(Debug, Clone, Copy, PartialEq, Eq, Structural)]
pub enum CanonicalContentValidationError {
    /// A lexeme and sense did not identify the same canonical ownership relationship.
    SenseLexemeMismatch,
    /// A lexeme and sense were not in the same immutable lexical release.
    TargetReleaseMismatch,
    /// A detail assertion did not belong to the release of its target sense.
    DetailReleaseMismatch,
    /// A detail was collected under a different canonical sense target.
    DetailTargetMismatch,
    /// A detail assertion did not have the lifecycle state of its target sense.
    DetailStatusMismatch,
    /// A factual assertion used a different detail kind than the enclosing typed detail.
    DetailKindMismatch,
    /// A visible pronunciation or example used a language unrelated to the target lexeme.
    DetailLanguageMismatch,
    /// A source-policy record did not match the source governing its evidence fragment.
    EvidenceSourceMismatch,
    /// An asset-level permission claimed an operation forbidden by its source-policy record.
    EvidencePermissionEscalation,
    /// Canonical storage was not licensed by both the source and the evidence fragment.
    EvidenceStorageForbidden,
    /// A factual assertion had no independently citable source fragment.
    EmptyEvidence,
    /// A factual assertion exceeded its bounded evidence-fragment count.
    TooManyEvidence,
    /// An evidence fragment appeared more than once in one factual assertion.
    DuplicateEvidence,
    /// An evidence fragment was from a different immutable lexical release than its assertion.
    EvidenceReleaseMismatch,
    /// A fragment kind could not support the typed canonical detail that cited it.
    IncompatibleEvidenceKind,
    /// A generated candidate was not explicitly reviewed and promoted before factual use.
    GeneratedMaterialNotPromoted,
    /// A source-local reference, content hash, assertion text, or controlled label was blank.
    BlankDetailText,
    /// A source fragment exceeded the bounded factual-text size.
    DetailTextTooLong,
    /// A bounded detail collection had more entries than its contract permits.
    TooManyDetails,
    /// A detail identifier appeared more than once in a collection of the same kind.
    DuplicateDetailId,
    /// A collocation did not mark its target sense on the term assigned the target role.
    CollocationTargetMismatch,
    /// A collocation repeated the same head and dependent term.
    DuplicateCollocationTerms,
    /// A pitfall repeated its mistaken and corrected constructions.
    IdenticalPitfallForms,
    /// A historical range ended before it began.
    InvalidHistoricalRange,
    /// A successor mapping used the same release for retired and successor entities.
    EvolutionReleaseMismatch,
    /// A successor mapping's factual assertion did not have its successor release or lifecycle
    /// state.
    EvolutionAssertionMismatch,
    /// A successor mapping exceeded a bounded retired or successor member count.
    TooManySenseEvolutionMembers,
    /// A successor mapping repeated an identifier on one side of the evolution.
    DuplicateSenseEvolutionMember,
    /// A retired sense was also declared as its own successor.
    SelfSuccessor,
    /// The count shape did not correspond to the declared split, merge, replacement, or
    /// retirement.
    InvalidSenseEvolutionShape,
}

impl CanonicalContentValidationError {
    /// Human-readable description of the failure.
    pub fn message(&self) -> (r: &'static str)
        ensures
            r@ == match *self {
                CanonicalContentValidationError::SenseLexemeMismatch => "sense must belong to the lexical-content target's lexeme"@,
                CanonicalContentValidationError::TargetReleaseMismatch => "sense and lexeme must belong to the same lexical release"@,
                CanonicalContentValidationError::DetailReleaseMismatch => "detail assertion must belong to its target sense release"@,
                CanonicalContentValidationError::DetailTargetMismatch => "canonical detail must belong to the collected target sense"@,
                CanonicalContentValidationError::DetailStatusMismatch => "detail assertion status must match its target sense status"@,
                CanonicalContentValidationError::DetailKindMismatch => "factual assertion kind does not match the typed canonical detail"@,
                CanonicalContentValidationError::DetailLanguageMismatch => "detail language must share the target lexeme's primary language"@,
                CanonicalContentValidationError::EvidenceSourceMismatch => "evidence fragment source must match its source-policy record"@,
                CanonicalContentValidationError::EvidencePermissionEscalation => "evidence fragment permissions cannot exceed source permissions"@,
                CanonicalContentValidationError::EvidenceStorageForbidden => "canonical factual evidence must permit storage"@,
                CanonicalContentValidationError::EmptyEvidence => "factual assertion must cite at least one evidence fragment"@,
                CanonicalContentValidationError::TooManyEvidence => "factual assertion has too many evidence fragments"@,
                CanonicalContentValidationError::DuplicateEvidence => "factual assertion evidence identifiers must be distinct"@,
                CanonicalContentValidationError::EvidenceReleaseMismatch => "factual assertion evidence must belong to the assertion release"@,
                CanonicalContentValidationError::IncompatibleEvidenceKind => "evidence fragment kind is incompatible with the typed canonical detail"@,
                CanonicalContentValidationError::GeneratedMaterialNotPromoted => "generated material must be reviewed and promoted before it can support a fact"@,
                CanonicalContentValidationError::BlankDetailText => "canonical detail text must not be blank"@,
                CanonicalContentValidationError::DetailTextTooLong => "canonical detail text exceeds its maximum length"@,
                CanonicalContentValidationError::TooManyDetails => "canonical sense has too many entries of one detail kind"@,
                CanonicalContentValidationError::DuplicateDetailId => "canonical detail identifiers must be distinct within their kind"@,
                CanonicalContentValidationError::CollocationTargetMismatch => "collocation target role must identify the target sense and lexeme"@,
                CanonicalContentValidationError::DuplicateCollocationTerms => "collocation head and dependent terms must differ"@,
                CanonicalContentValidationError::IdenticalPitfallForms => "learner pitfall mistake and correction must differ"@,
                CanonicalContentValidationError::InvalidHistoricalRange => "historical range end must not precede its start"@,
                CanonicalContentValidationError::EvolutionReleaseMismatch => "sense evolution must move between distinct lexical releases"@,
                CanonicalContentValidationError::EvolutionAssertionMismatch => "sense evolution assertion must match its successor release and lifecycle status"@,
                CanonicalContentValidationError::TooManySenseEvolutionMembers => "sense evolution has too many retired or successor senses"@,
                CanonicalContentValidationError::DuplicateSenseEvolutionMember => "sense evolution members must be distinct"@,
                CanonicalContentValidationError::SelfSuccessor => "a retired sense cannot also be a successor"@,
                CanonicalContentValidationError::InvalidSenseEvolutionShape => "sense evolution member counts do not match its declared kind"@,
            },
    {
        match self {
            CanonicalContentValidationError::SenseLexemeMismatch => "sense must belong to the lexical-content target's lexeme",
            CanonicalContentValidationError::TargetReleaseMismatch => "sense and lexeme must belong to the same lexical release",
            CanonicalContentValidationError::DetailReleaseMismatch => "detail assertion must belong to its target sense release",
            CanonicalContentValidationError::DetailTargetMismatch => "canonical detail must belong to the collected target sense",
            CanonicalContentValidationError::DetailStatusMismatch => "detail assertion status must match its target sense status",
            CanonicalContentValidationError::DetailKindMismatch => "factual assertion kind does not match the typed canonical detail",
            CanonicalContentValidationError::DetailLanguageMismatch => "detail language must share the target lexeme's primary language",
            CanonicalContentValidationError::EvidenceSourceMismatch => "evidence fragment source must match its source-policy record",
            CanonicalContentValidationError::EvidencePermissionEscalation => "evidence fragment permissions cannot exceed source permissions",
            CanonicalContentValidationError::EvidenceStorageForbidden => "canonical factual evidence must permit storage",
            CanonicalContentValidationError::EmptyEvidence => "factual assertion must cite at least one evidence fragment",
            CanonicalContentValidationError::TooManyEvidence => "factual assertion has too many evidence fragments",
            CanonicalContentValidationError::DuplicateEvidence => "factual assertion evidence identifiers must be distinct",
            CanonicalContentValidationError::EvidenceReleaseMismatch => "factual assertion evidence must belong to the assertion release",
            CanonicalContentValidationError::IncompatibleEvidenceKind => "evidence fragment kind is incompatible with the typed canonical detail",
            CanonicalContentValidationError::GeneratedMaterialNotPromoted => "generated material must be reviewed and promoted before it can support a fact",
            CanonicalContentValidationError::BlankDetailText => "canonical detail text must not be blank",
            CanonicalContentValidationError::DetailTextTooLong => "canonical detail text exceeds its maximum length",
            CanonicalContentValidationError::TooManyDetails => "canonical sense has too many entries of one detail kind",
            CanonicalContentValidationError::DuplicateDetailId => "canonical detail identifiers must be distinct within their kind",
            CanonicalContentValidationError::CollocationTargetMismatch => "collocation target role must identify the target sense and lexeme",
            CanonicalContentValidationError::DuplicateCollocationTerms => "collocation head and dependent terms must differ",
            CanonicalContentValidationError::IdenticalPitfallForms => "learner pitfall mistake and correction must differ",
            CanonicalContentValidationError::InvalidHistoricalRange => "historical range end must not precede its start",
            CanonicalContentValidationError::EvolutionReleaseMismatch => "sense evolution must move between distinct lexical releases",
            CanonicalContentValidationError::EvolutionAssertionMismatch => "sense evolution assertion must match its successor release and lifecycle status",
            CanonicalContentValidationError::TooManySenseEvolutionMembers => "sense evolution has too many retired or successor senses",
            CanonicalContentValidationError::DuplicateSenseEvolutionMember => "sense evolution members must be distinct",
            CanonicalContentValidationError::SelfSuccessor => "a retired sense cannot also be a successor",
            CanonicalContentValidationError::InvalidSenseEvolutionShape => "sense evolution member counts do not match its declared kind",
        }
    }
}

/// The typed factual detail supported by one evidence-backed assertion.
#[derive(Debug, Clone, Copy, PartialEq, Eq, PartialOrd, Ord, Hash, Structural)]
pub enum CanonicalDetailKind {
    /// A gloss in a language selected for explanation or translation.
    LocalizedGloss,
    /// A phonetic, phonemic, or source-defined pronunciation assertion.
    Pronunciation,
    /// A register, domain, dialect, frequency, or similar usage-label assertion.
    UsageLabel,
    /// A structured grammar-pattern assertion.
    GrammarPattern,
    /// A collocation with explicit head and dependent roles.
    Collocation,
    /// An example that demonstrates one canonical sense.
    Example,
    /// A common learner error, false friend, or correction.
    Pitfall,
    /// An etymological assertion about a lexeme or sense scope.
    Etymology,
    /// A dated or qualified semantic-development assertion for a sense.
    SenseHistory,
    /// A reviewed canonical mapping from retired senses to successor senses.
    SenseEvolution,
}

impl CanonicalDetailKind {
    /// Which evidence classifications may support each detail kind.
    pub open spec fn spec_accepts(self, evidence_kind: EvidenceKind) -> bool {
        match self {
            CanonicalDetailKind::LocalizedGloss => evidence_kind == EvidenceKind::LocalizedGloss,
            CanonicalDetailKind::Pronunciation => evidence_kind == EvidenceKind::Pronunciation,
            CanonicalDetailKind::UsageLabel | CanonicalDetailKind::GrammarPattern
            | CanonicalDetailKind::Collocation | CanonicalDetailKind::Pitfall => evidence_kind
                == EvidenceKind::Usage || evidence_kind == EvidenceKind::Other,
            CanonicalDetailKind::Example => evidence_kind == EvidenceKind::Example,
            CanonicalDetailKind::Etymology | CanonicalDetailKind::SenseHistory => evidence_kind
                == EvidenceKind::Etymology || evidence_kind == EvidenceKind::Other,
            CanonicalDetailKind::SenseEvolution => evidence_kind == EvidenceKind::Other,
        }
    }

    /// Returns whether an imported evidence classification may support this detail kind.
    pub fn accepts_evidence_kind(self, evidence_kind: EvidenceKind) -> (b: bool)
        ensures
            b == self.spec_accepts(evidence_kind),
    {
        match self {
            CanonicalDetailKind::LocalizedGloss => evidence_kind == EvidenceKind::LocalizedGloss,
            CanonicalDetailKind::Pronunciation => evidence_kind == EvidenceKind::Pronunciation,
            CanonicalDetailKind::UsageLabel | CanonicalDetailKind::GrammarPattern
            | CanonicalDetailKind::Collocation | CanonicalDetailKind::Pitfall => evidence_kind
                == EvidenceKind::Usage || evidence_kind == EvidenceKind::Other,
            CanonicalDetailKind::Example => evidence_kind == EvidenceKind::Example,
            CanonicalDetailKind::Etymology | CanonicalDetailKind::SenseHistory => evidence_kind
                == EvidenceKind::Etymology || evidence_kind == EvidenceKind::Other,
            CanonicalDetailKind::SenseEvolution => evidence_kind == EvidenceKind::Other,
        }
    }
}

/// Editorial disposition of generated material before it can be used as factual evidence.
#[derive(Debug, Clone, PartialEq, Eq, PartialOrd, Ord)]
pub enum GeneratedEvidenceReview {
    /// The generated candidate has not been reviewed and cannot support a fact.
    Unreviewed,
    /// Review rejected the generated candidate, so it cannot support a fact.
    Rejected,
    /// Editorial review promoted the generated candidate under an auditable review identifier.
    ReviewedAndPromoted {
        /// Opaque review-decision identifier retained by an editorial workflow.
        review_id: CanonicalId,
    },
}

/// Origin and review state of source material considered for factual canonical evidence.
#[derive(Debug, Clone, PartialEq, Eq, PartialOrd, Ord)]
pub enum CanonicalEvidenceOrigin {
    /// Material supplied directly by a licensed source-policy record.
    LicensedSource,
    /// Material produced by a generator and tied to an auditable generation identifier.
    Generated {
        /// Opaque generation-run or candidate identifier retained by the review workflow.
        generation_id: CanonicalId,
        /// Review result required before generated material can support canonical facts.
        review: GeneratedEvidenceReview,
    },
}

/// Whether every operation the asset permits is also permitted by its source.
pub open spec fn spec_permissions_are_subset(asset: SourcePermissions, source: SourcePermissions) -> bool {
    &&& asset.storage ==> source.storage
    &&& asset.display ==> source.display
    &&& asset.embedding ==> source.embedding
    &&& asset.model_processing ==> source.model_processing
    &&& asset.api_redistribution ==> source.api_redistribution
}

/// Returns whether an asset's permissions stay within its source's permissions.
pub fn permissions_are_subset(asset_permissions: SourcePermissions, source_permissions: SourcePermissions) -> (b: bool)
    ensures
        b == spec_permissions_are_subset(asset_permissions, source_permissions),
        b == (forall|u: EvidenceUse| asset_permissions.spec_allows(u) ==> source_permissions.spec_allows(u)),
{
    let b = (!asset_permissions.storage || source_permissions.storage)
        && (!asset_permissions.display || source_permissions.display)
        && (!asset_permissions.embedding || source_permissions.embedding)
        && (!asset_permissions.model_processing || source_permissions.model_processing)
        && (!asset_permissions.api_redistribution || source_permissions.api_redistribution);
    proof {
        if !b {
            if asset_permissions.storage && !source_permissions.storage {
                assert(asset_permissions.spec_allows(EvidenceUse::Storage));
            } else if asset_permissions.display && !source_permissions.display {
                assert(asset_permissions.spec_allows(EvidenceUse::Display));
            } else if asset_permissions.embedding && !source_permissions.embedding {
                assert(asset_permissions.spec_allows(EvidenceUse::Embedding));
            } else if asset_permissions.model_processing && !source_permissions.model_processing {
                assert(asset_permissions.spec_allows(EvidenceUse::ModelProcessing));
            } else {
                assert(asset_permissions.spec_allows(EvidenceUse::ApiRedistribution));
            }
        }
    }
    b
}

/// Fails with `BlankDetailText` when `value` is empty or only whitespace.
pub fn validate_nonblank(value: &str) -> (r: Result<(), CanonicalContentValidationError>)
    ensures
        r is Ok <==> !is_blank(value@),
        r is Err ==> r == Err::<(), _>(CanonicalContentValidationError::BlankDetailText),
{
    if str_is_blank(value) {
        return Err(CanonicalContentValidationError::BlankDetailText);
    }
    Ok(())
}

/// Fails with `DetailTextTooLong` when `value` has more than 4096 characters.
pub fn validate_text_bound(value: &str) -> (r: Result<(), CanonicalContentValidationError>)
    ensures
        r is Ok <==> value@.len() <= 4096,
        r is Err ==> r == Err::<(), _>(CanonicalContentValidationError::DetailTextTooLong),
{
    let chars = crate::text::chars_of(value);
    if chars.len() > MAX_DETAIL_TEXT_LENGTH {
        return Err(CanonicalContentValidationError::DetailTextTooLong);
    }
    Ok(())
}

/// The error a controlled label `value` is refused with, if any.
pub open spec fn label_error(value: Seq<char>) -> Option<CanonicalContentValidationError> {
    if is_blank(value) {
        Some(CanonicalContentValidationError::BlankDetailText)
    } else if value.len() > 256 {
        Some(CanonicalContentValidationError::DetailTextTooLong)
    } else {
        None
    }
}

/// Copies a controlled label after checking it is not blank and has at most 256 characters.
pub fn validate_label(value: &str) -> (r: Result<String, CanonicalContentValidationError>)
    ensures
        match label_error(value@) {
            Some(e) => r == Err::<String, _>(e),
            None => r matches Ok(s) && s@ == value@,
        },
{
    match validate_nonblank(value) {
        Ok(()) => {},
        Err(e) => return Err(e),
    }
    let chars = crate::text::chars_of(value);
    if chars.len() > MAX_DETAIL_LABEL_LENGTH {
        return Err(CanonicalContentValidationError::DetailTextTooLong);
    }
    Ok(value.to_string())
}

/// The error a source, fragment and origin are refused with as evidence lineage, if any,
/// checked in order: source identity, permission escalation, storage licence, blank reference,
/// hash or text, text length, and generated material not reviewed and promoted.
pub open spec fn lineage_error(
    source: LexicalSource,
    fragment: EvidenceFragment,
    origin: CanonicalEvidenceOrigin,
) -> Option<CanonicalContentValidationError> {
    if source.id@ != fragment.source_id@ {
        Some(CanonicalContentValidationError::EvidenceSourceMismatch)
    } else if !spec_permissions_are_subset(fragment.permissions, source.permissions) {
        Some(CanonicalContentValidationError::EvidencePermissionEscalation)
    } else if !source.permissions.storage || !fragment.permissions.storage {
        Some(CanonicalContentValidationError::EvidenceStorageForbidden)
    } else if is_blank(fragment.source_reference@) || is_blank(fragment.content_hash@) || is_blank(
        fragment.text@,
    ) {
        Some(CanonicalContentValidationError::BlankDetailText)
    } else if fragment.text@.len() > 4096 {
        Some(CanonicalContentValidationError::DetailTextTooLong)
    } else if origin matches CanonicalEvidenceOrigin::Generated { review, .. } && !(review is ReviewedAndPromoted) {
        Some(CanonicalContentValidationError::GeneratedMaterialNotPromoted)
    } else {
        None
    }
}

/// Source, asset, origin, and review lineage admitted to a factual assertion.
#[derive(Debug, Clone, PartialEq, Eq)]
pub struct CanonicalEvidenceLineage {
    source: LexicalSource,
    fragment: EvidenceFragment,
    origin: CanonicalEvidenceOrigin,
}

impl CanonicalEvidenceLineage {
    /// The `source` field.
    pub closed spec fn spec_source(&self) -> LexicalSource {
        self.source
    }

    /// The `fragment` field.
    pub closed spec fn spec_fragment(&self) -> EvidenceFragment {
        self.fragment
    }

    /// The `origin` field.
    pub closed spec fn spec_origin(&self) -> CanonicalEvidenceOrigin {
        self.origin
    }

    /// Returns the source-policy record governing this fragment.
    pub fn source(&self) -> (r: &LexicalSource)
        ensures
            *r == self.spec_source(),
    {
        &self.source
    }

    /// Returns the independently citable source fragment.
    pub fn fragment(&self) -> (r: &EvidenceFragment)
        ensures
            *r == self.spec_fragment(),
    {
        &self.fragment
    }

    /// Returns the source or reviewed-generated origin of this evidence.
    pub fn origin(&self) -> (r: &CanonicalEvidenceOrigin)
        ensures
            *r == self.spec_origin(),
    {
        &self.origin
    }


    /// Validates one source-qualified evidence lineage eligible for canonical factual storage.
    ///
    /// An unreviewed or rejected generated candidate is refused; generated material must first
    /// be reviewed and promoted, and its source and asset permissions must still permit
    /// canonical storage. Inactive fragments are accepted so staging and historical records can
    /// retain provenance; `permits` stays false until every lifecycle check allows a read.
    pub fn new(source: LexicalSource, fragment: EvidenceFragment, origin: CanonicalEvidenceOrigin) -> (r: Result<Self, CanonicalContentValidationError>)
        ensures
            match lineage_error(source, fragment, origin) {
                Some(e) => r == Err::<Self, _>(e),
                None => r matches Ok(l) && l.spec_source() == source && l.spec_fragment() == fragment
                    && l.spec_origin() == origin,
            },
    {
        if !source.id.same(&fragment.source_id) {
            return Err(CanonicalContentValidationError::EvidenceSourceMismatch);
        }
        if !permissions_are_subset(fragment.permissions, source.permissions) {
            return Err(CanonicalContentValidationError::EvidencePermissionEscalation);
        }
        if !source.permissions.allows(EvidenceUse::Storage) || !fragment.permissions.allows(EvidenceUse::Storage) {
            return Err(CanonicalContentValidationError::EvidenceStorageForbidden);
        }
        match validate_nonblank(fragment.source_reference.as_str()) {
            Ok(()) => {},
            Err(e) => return Err(e),
        }
        match validate_nonblank(fragment.content_hash.as_str()) {
            Ok(()) => {},
            Err(e) => return Err(e),
        }
        match validate_nonblank(fragment.text.as_str()) {
            Ok(()) => {},
            Err(e) => return Err(e),
        }
        match validate_text_bound(fragment.text.as_str()) {
            Ok(()) => {},
            Err(e) => return Err(e),
        }
        let promoted = match &origin {
            CanonicalEvidenceOrigin::LicensedSource => true,
            CanonicalEvidenceOrigin::Generated { review, .. } => match review {
                GeneratedEvidenceReview::ReviewedAndPromoted { .. } => true,
                _ => false,
            },
        };
        if !promoted {
            return Err(CanonicalContentValidationError::GeneratedMaterialNotPromoted);
        }
        Ok(CanonicalEvidenceLineage { source, fragment, origin })
    }

    /// Whether this lineage may support `evidence_use` in the release named `release_id`.
    pub open spec fn spec_permits(&self, release_id: Seq<char>, evidence_use: EvidenceUse) -> bool {
        self.spec_fragment().spec_permits(release_id, evidence_use)
            && self.spec_source().permissions.spec_allows(evidence_use)
    }

    /// Returns whether this lineage may support the requested operation in `release_id` now.
    pub fn permits(&self, release_id: &ReleaseId, evidence_use: EvidenceUse) -> (b: bool)
        ensures
            b == self.spec_permits(release_id@, evidence_use),
    {
        self.fragment.permits(release_id, evidence_use) && self.source.permissions.allows(evidence_use)
    }

    /// Whether the fragment belongs to the release named `release_id` and both its source and
    /// itself permit storage.
    pub open spec fn spec_storable_in(&self, release_id: Seq<char>) -> bool {
        &&& self.spec_fragment().release_id@ == release_id
        &&& self.spec_source().permissions.storage
        &&& self.spec_fragment().permissions.storage
    }

    fn is_storable_in(&self, release_id: &ReleaseId) -> (b: bool)
        ensures
            b == self.spec_storable_in(release_id@),
    {
        self.fragment.release_id.same(release_id) && self.source.permissions.allows(EvidenceUse::Storage)
            && self.fragment.permissions.allows(EvidenceUse::Storage)
    }

}


/// The error the evidence item at index `i` is refused with, if any: a fragment already cited
/// earlier, a fragment not storable in `release_id`, or a classification that `kind` does not
/// accept, checked in that order.
pub open spec fn evidence_item_error(
    kind: CanonicalDetailKind,
    release_id: Seq<char>,
    evidence: Seq<CanonicalEvidenceLineage>,
    i: int,
) -> Option<CanonicalContentValidationError> {
    if exists|j: int| 0 <= j < i && (#[trigger] evidence[j]).spec_fragment().id@ == evidence[i].spec_fragment().id@ {
        Some(CanonicalContentValidationError::DuplicateEvidence)
    } else if !evidence[i].spec_storable_in(release_id) {
        Some(CanonicalContentValidationError::EvidenceReleaseMismatch)
    } else if !kind.spec_accepts(evidence[i].spec_fragment().kind) {
        Some(CanonicalContentValidationError::IncompatibleEvidenceKind)
    } else {
        None
    }
}

/// The error of the first refused item among the first `n` evidence items, if any.
pub open spec fn first_evidence_error(
    kind: CanonicalDetailKind,
    release_id: Seq<char>,
    evidence: Seq<CanonicalEvidenceLineage>,
    n: int,
) -> Option<CanonicalContentValidationError>
    decreases n,
{
    if n <= 0 {
        None
    } else {
        match first_evidence_error(kind, release_id, evidence, n - 1) {
            Some(e) => Some(e),
            None => evidence_item_error(kind, release_id, evidence, n - 1),
        }
    }
}

/// Once an item is refused, longer prefixes report the same first error.
proof fn lemma_first_error_sticks(
    kind: CanonicalDetailKind,
    release_id: Seq<char>,
    evidence: Seq<CanonicalEvidenceLineage>,
    k: int,
    m: int,
)
    requires
        0 <= k <= m,
        first_evidence_error(kind, release_id, evidence, k) is Some,
    ensures
        first_evidence_error(kind, release_id, evidence, m) == first_evidence_error(kind, release_id, evidence, k),
    decreases m - k,
{
    if m > k {
        lemma_first_error_sticks(kind, release_id, evidence, k, m - 1);
    }
}

/// The error a factual assertion is refused with, if any: blank or overlong text, no or too
/// many evidence items, then the first refused evidence item.
pub open spec fn assertion_error(
    kind: CanonicalDetailKind,
    release_id: Seq<char>,
    text: Seq<char>,
    evidence: Seq<CanonicalEvidenceLineage>,
) -> Option<CanonicalContentValidationError> {
    if is_blank(text) {
        Some(CanonicalContentValidationError::BlankDetailText)
    } else if text.len() > 4096 {
        Some(CanonicalContentValidationError::DetailTextTooLong)
    } else if evidence.len() == 0 {
        Some(CanonicalContentValidationError::EmptyEvidence)
    } else if evidence.len() > 8 {
        Some(CanonicalContentValidationError::TooManyEvidence)
    } else {
        first_evidence_error(kind, release_id, evidence, evidence.len() as int)
    }
}

/// One immutable text assertion carrying only reviewed, source-qualified factual evidence.
#[derive(Debug, Clone, PartialEq, Eq)]
pub struct CanonicalFactualAssertion {
    kind: CanonicalDetailKind,
    release_id: ReleaseId,
    status: CanonicalStatus,
    text: String,
    evidence: Vec<CanonicalEvidenceLineage>,
}

impl CanonicalFactualAssertion {
    /// The `kind` field.
    pub closed spec fn spec_kind(&self) -> CanonicalDetailKind {
        self.kind
    }

    /// The `release_id` field.
    pub closed spec fn spec_release_id(&self) -> Seq<char> {
        self.release_id@
    }

    /// The `status` field.
    pub closed spec fn spec_status(&self) -> CanonicalStatus {
        self.status
    }

    /// The `text` field.
    pub closed spec fn spec_text(&self) -> Seq<char> {
        self.text@
    }

    /// The `evidence` field.
    pub closed spec fn spec_evidence(&self) -> Seq<CanonicalEvidenceLineage> {
        self.evidence@
    }

    /// Returns the typed canonical detail supported by this assertion.
    pub fn kind(&self) -> (r: CanonicalDetailKind)
        ensures
            r == self.spec_kind(),
    {
        self.kind
    }

    /// Returns the immutable lexical release that owns the assertion and its evidence.
    pub fn release_id(&self) -> (r: &ReleaseId)
        ensures
            r@ == self.spec_release_id(),
    {
        &self.release_id
    }

    /// Returns the editorial lifecycle state of this assertion.
    pub fn status(&self) -> (r: CanonicalStatus)
        ensures
            r == self.spec_status(),
    {
        self.status
    }

    /// Returns canonical factual text without applying generated simplification or presentation.
    pub fn text(&self) -> (r: &str)
        ensures
            r@ == self.spec_text(),
    {
        self.text.as_str()
    }

    /// Returns the bounded evidence lineages that support this factual text.
    pub fn evidence(&self) -> (r: &[CanonicalEvidenceLineage])
        ensures
            r@ == self.spec_evidence(),
    {
        self.evidence.as_slice()
    }


    /// Creates a bounded factual assertion with exact release and evidence lineage.
    ///
    /// The constructor never synthesizes, rewrites, or promotes text. Every supplied evidence
    /// lineage must be storage-permitted, be from `release_id`, and have a classification
    /// compatible with `kind`. Inactive assertions may remain in staging or history but `permits`
    /// will not expose them as a current canonical fact.
    pub fn new(
        kind: CanonicalDetailKind,
        release_id: ReleaseId,
        status: CanonicalStatus,
        text: String,
        evidence: Vec<CanonicalEvidenceLineage>,
    ) -> (r: Result<Self, CanonicalContentValidationError>)
        ensures
            match assertion_error(kind, release_id@, text@, evidence@) {
                Some(e) => r == Err::<Self, _>(e),
                None => r matches Ok(a) && a.spec_kind() == kind && a.spec_release_id() == release_id@
                    && a.spec_status() == status && a.spec_text() == text@ && a.spec_evidence()
                    == evidence@,
            },
    {
        match validate_nonblank(text.as_str()) {
            Ok(()) => {},
            Err(e) => return Err(e),
        }
        match validate_text_bound(text.as_str()) {
            Ok(()) => {},
            Err(e) => return Err(e),
        }
        if evidence.len() == 0 {
            return Err(CanonicalContentValidationError::EmptyEvidence);
        }
        if evidence.len() > MAX_DETAIL_EVIDENCE {
            return Err(CanonicalContentValidationError::TooManyEvidence);
        }
        let mut i: usize = 0;
        while i < evidence.len()
            invariant
                i <= evidence.len(),
                first_evidence_error(kind, release_id@, evidence@, i as int) is None,
                assertion_error(kind, release_id@, text@, evidence@) == first_evidence_error(
                    kind,
                    release_id@,
                    evidence@,
                    evidence@.len() as int,
                ),
            decreases evidence.len() - i,
        {
            let fragment = evidence[i].fragment();
            let mut j: usize = 0;
            while j < i
                invariant
                    j <= i < evidence.len(),
                    fragment == evidence@[i as int].spec_fragment(),
                    first_evidence_error(kind, release_id@, evidence@, i as int) is None,
                    assertion_error(kind, release_id@, text@, evidence@) == first_evidence_error(
                        kind,
                        release_id@,
                        evidence@,
                        evidence@.len() as int,
                    ),
                    forall|k: int| 0 <= k < j ==> (#[trigger] evidence@[k]).spec_fragment().id@ != fragment.id@,
                decreases i - j,
            {
                if evidence[j].fragment().id.same(&fragment.id) {
                    assert(evidence_item_error(kind, release_id@, evidence@, i as int) == Some(
                        CanonicalContentValidationError::DuplicateEvidence,
                    ));
                    proof {
                        lemma_first_error_sticks(kind, release_id@, evidence@, i + 1, evidence@.len() as int);
                    }
                    return Err(CanonicalContentValidationError::DuplicateEvidence);
                }
                j += 1;
            }
            if !evidence[i].is_storable_in(&release_id) {
                proof {
                    lemma_first_error_sticks(kind, release_id@, evidence@, i + 1, evidence@.len() as int);
                }
                return Err(CanonicalContentValidationError::EvidenceReleaseMismatch);
            }
            if !kind.accepts_evidence_kind(fragment.kind) {
                proof {
                    lemma_first_error_sticks(kind, release_id@, evidence@, i + 1, evidence@.len() as int);
                }
                return Err(CanonicalContentValidationError::IncompatibleEvidenceKind);
            }
            i += 1;
        }
        Ok(CanonicalFactualAssertion { kind, release_id, status, text, evidence })
    }

    /// Whether the assertion is active and every evidence lineage permits `evidence_use` in the
    /// assertion's release.
    pub open spec fn spec_permits(&self, evidence_use: EvidenceUse) -> bool {
        &&& self.spec_status() == CanonicalStatus::Active
        &&& forall|i: int| 0 <= i < self.spec_evidence().len() ==> (#[trigger] self.spec_evidence()[i]).spec_permits(
            self.spec_release_id(),
            evidence_use,
        )
    }

    /// Returns whether this active assertion and all its evidence can serve one operation now.
    pub fn permits(&self, evidence_use: EvidenceUse) -> (b: bool)
        ensures
            b == self.spec_permits(evidence_use),
    {
        if !self.status.is_lookup_eligible() {
            return false;
        }
        let mut i: usize = 0;
        while i < self.evidence.len()
            invariant
                i <= self.evidence.len(),
                forall|k: int| 0 <= k < i ==> (#[trigger] self.evidence@[k]).spec_permits(self.release_id@, evidence_use),
            decreases self.evidence.len() - i,
        {
            if !self.evidence[i].permits(&self.release_id, evidence_use) {
                assert(!self.spec_evidence()[i as int].spec_permits(self.spec_release_id(), evidence_use));
                return false;
            }
            i += 1;
        }
        true
    }

}

/// Canonical lexeme and sense identity used by every sense-scoped detail in this module.
#[derive(Debug, Clone, PartialEq, Eq, PartialOrd, Ord)]
pub struct SenseContentTarget {
    lexeme_id: LexemeId,
    sense_id: SenseId,
    release_id: ReleaseId,
    language: LanguageTag,
    lexeme_status: CanonicalStatus,
    sense_status: CanonicalStatus,
}

impl SenseContentTarget {
    /// The `lexeme_id` field.
    pub closed spec fn spec_lexeme_id(&self) -> Seq<char> {
        self.lexeme_id@
    }

    /// The `sense_id` field.
    pub closed spec fn spec_sense_id(&self) -> Seq<char> {
        self.sense_id@
    }

    /// The `release_id` field.
    pub closed spec fn spec_release_id(&self) -> Seq<char> {
        self.release_id@
    }

    /// The `language` field.
    pub closed spec fn spec_language(&self) -> Seq<char> {
        self.language@
    }

    /// The `lexeme_status` field.
    pub closed spec fn spec_lexeme_status(&self) -> CanonicalStatus {
        self.lexeme_status
    }

    /// The `sense_status` field.
    pub closed spec fn spec_sense_status(&self) -> CanonicalStatus {
        self.sense_status
    }

    /// Returns the lexeme that owns the target sense.
    pub fn lexeme_id(&self) -> (r: &LexemeId)
        ensures
            r@ == self.spec_lexeme_id(),
    {
        &self.lexeme_id
    }

    /// Returns the one specific canonical sense to which the details attach.
    pub fn sense_id(&self) -> (r: &SenseId)
        ensures
            r@ == self.spec_sense_id(),
    {
        &self.sense_id
    }

    /// Returns the immutable lexical release for this target.
    pub fn release_id(&self) -> (r: &ReleaseId)
        ensures
            r@ == self.spec_release_id(),
    {
        &self.release_id
    }

    /// Returns the language of the target lexeme.
    pub fn language(&self) -> (r: &LanguageTag)
        ensures
            r@ == self.spec_language(),
    {
        &self.language
    }

    /// Returns the lifecycle state of the owning lexeme.
    pub fn lexeme_status(&self) -> (r: CanonicalStatus)
        ensures
            r == self.spec_lexeme_status(),
    {
        self.lexeme_status
    }

    /// Returns the lifecycle state of the target sense.
    pub fn sense_status(&self) -> (r: CanonicalStatus)
        ensures
            r == self.spec_sense_status(),
    {
        self.sense_status
    }


    /// Creates a canonical sense target after validating lexeme ownership and release lineage.
    ///
    /// Returns `SenseLexemeMismatch` when `sense` does not belong to `lexeme` and
    /// `TargetReleaseMismatch` when their immutable release IDs differ.
    pub fn new(lexeme: &Lexeme, sense: &Sense) -> (r: Result<Self, CanonicalContentValidationError>)
        ensures
            lexeme.id@ != sense.lexeme_id@ ==> r == Err::<Self, _>(CanonicalContentValidationError::SenseLexemeMismatch),
            lexeme.id@ == sense.lexeme_id@ && lexeme.release_id@ != sense.release_id@ ==> r == Err::<Self, _>(
                CanonicalContentValidationError::TargetReleaseMismatch,
            ),
            r is Ok <==> (lexeme.id@ == sense.lexeme_id@ && lexeme.release_id@ == sense.release_id@),
            r matches Ok(t) ==> t@ == (SenseTargetModel {
                lexeme: lexeme.id@,
                sense: sense.id@,
                release: sense.release_id@,
                language: lexeme.language@,
                lexeme_status: lexeme.status,
                sense_status: sense.status,
            }),
    {
        if !lexeme.id.same(&sense.lexeme_id) {
            return Err(CanonicalContentValidationError::SenseLexemeMismatch);
        }
        if !lexeme.release_id.same(&sense.release_id) {
            return Err(CanonicalContentValidationError::TargetReleaseMismatch);
        }
        Ok(SenseContentTarget {
            lexeme_id: lexeme.id.clone(),
            sense_id: sense.id.clone(),
            release_id: sense.release_id.clone(),
            language: lexeme.language.clone(),
            lexeme_status: lexeme.status,
            sense_status: sense.status,
        })
    }

    /// Returns whether both the lexeme and sense are eligible for default canonical reads.
    pub fn is_lookup_eligible(&self) -> (b: bool)
        ensures
            b == (self@.lexeme_status == CanonicalStatus::Active && self@.sense_status
                == CanonicalStatus::Active),
    {
        self.lexeme_status.is_lookup_eligible() && self.sense_status.is_lookup_eligible()
    }

    /// Whether both targets name the same lexeme, sense, release, language and statuses.
    pub fn same(&self, other: &SenseContentTarget) -> (b: bool)
        ensures
            b == (self@ == other@),
    {
        self.lexeme_id.same(&other.lexeme_id) && self.sense_id.same(&other.sense_id)
            && self.release_id.same(&other.release_id) && self.language.same(&other.language)
            && self.lexeme_status == other.lexeme_status && self.sense_status == other.sense_status
    }

}


/// The observable content of a `SenseContentTarget`.
pub struct SenseTargetModel {
    pub lexeme: Seq<char>,
    pub sense: Seq<char>,
    pub release: Seq<char>,
    pub language: Seq<char>,
    pub lexeme_status: CanonicalStatus,
    pub sense_status: CanonicalStatus,
}

impl View for SenseContentTarget {
    type V = SenseTargetModel;

    open spec fn view(&self) -> SenseTargetModel {
        SenseTargetModel {
            lexeme: self.spec_lexeme_id(),
            sense: self.spec_sense_id(),
            release: self.spec_release_id(),
            language: self.spec_language(),
            lexeme_status: self.spec_lexeme_status(),
            sense_status: self.spec_sense_status(),
        }
    }
}

/// The error an assertion is refused with as a detail of `kind` for `target`, if any.
pub open spec fn detail_assertion_error(
    target: SenseTargetModel,
    assertion: CanonicalFactualAssertion,
    kind: CanonicalDetailKind,
) -> Option<CanonicalContentValidationError> {
    if assertion.spec_kind() != kind {
        Some(CanonicalContentValidationError::DetailKindMismatch)
    } else if assertion.spec_release_id() != target.release {
        Some(CanonicalContentValidationError::DetailReleaseMismatch)
    } else if assertion.spec_status() != target.sense_status {
        Some(CanonicalContentValidationError::DetailStatusMismatch)
    } else {
        None
    }
}

/// Checks that an assertion has the expected detail kind and the target's release and status.
pub fn validate_detail_assertion(
    target: &SenseContentTarget,
    assertion: &CanonicalFactualAssertion,
    expected_kind: CanonicalDetailKind,
) -> (r: Result<(), CanonicalContentValidationError>)
    ensures
        match detail_assertion_error(target@, *assertion, expected_kind) {
            Some(e) => r == Err::<(), _>(e),
            None => r is Ok,
        },
{
    if assertion.kind() != expected_kind {
        return Err(CanonicalContentValidationError::DetailKindMismatch);
    }
    if !assertion.release_id().same(target.release_id()) {
        return Err(CanonicalContentValidationError::DetailReleaseMismatch);
    }
    if assertion.status() != target.sense_status() {
        return Err(CanonicalContentValidationError::DetailStatusMismatch);
    }
    Ok(())
}

/// A language-specific gloss for one canonical sense.
#[derive(Debug, Clone, PartialEq, Eq)]
pub struct LocalizedGloss {
    id: LocalizedGlossId,
    target: SenseContentTarget,
    language: LanguageTag,
    assertion: CanonicalFactualAssertion,
}

impl LocalizedGloss {
    /// Creates a reviewed localized gloss for `target`.
    ///
    /// The gloss language is independent of the lexical language, so a canonical English sense
    /// can carry a sourced Simplified-Chinese explanation without treating that explanation as an
    /// English definition. Fails when the assertion kind, release, or status does not match.
    pub fn new(id: LocalizedGlossId, target: SenseContentTarget, language: LanguageTag, assertion: CanonicalFactualAssertion) -> (r: Result<Self, CanonicalContentValidationError>)
        ensures
            match detail_assertion_error(target@, assertion, CanonicalDetailKind::LocalizedGloss) {
                Some(e) => r == Err::<Self, _>(e),
                None => r matches Ok(x) && x.spec_id() == id@ && x.spec_target() == target
                    && x.spec_language() == language@ && x.spec_assertion() == assertion,
            },
    {
        match validate_detail_assertion(&target, &assertion, CanonicalDetailKind::LocalizedGloss) {
            Ok(()) => {},
            Err(e) => return Err(e),
        }
        Ok(LocalizedGloss { id, target, language, assertion })
    }

    /// The `id` field.
    pub closed spec fn spec_id(&self) -> Seq<char> {
        self.id@
    }

    /// The `target` field.
    pub closed spec fn spec_target(&self) -> SenseContentTarget {
        self.target
    }

    /// The `language` field.
    pub closed spec fn spec_language(&self) -> Seq<char> {
        self.language@
    }

    /// The `assertion` field.
    pub closed spec fn spec_assertion(&self) -> CanonicalFactualAssertion {
        self.assertion
    }

    /// Returns the stable localized-gloss identifier.
    pub fn id(&self) -> (r: &LocalizedGlossId)
        ensures
            r@ == self.spec_id(),
    {
        &self.id
    }

    /// Returns the exact canonical sense to which this gloss applies.
    pub fn target(&self) -> (r: &SenseContentTarget)
        ensures
            *r == self.spec_target(),
    {
        &self.target
    }

    /// Returns the language used by the localized gloss.
    pub fn language(&self) -> (r: &LanguageTag)
        ensures
            r@ == self.spec_language(),
    {
        &self.language
    }

    /// Returns the factual text and evidence lineage for this gloss.
    pub fn assertion(&self) -> (r: &CanonicalFactualAssertion)
        ensures
            *r == self.spec_assertion(),
    {
        &self.assertion
    }


}

/// Scope of a pronunciation assertion relative to its target sense and owning lexeme.
#[derive(Debug, Clone, Copy, PartialEq, Eq, PartialOrd, Ord, Hash, Structural)]
pub enum PronunciationScope {
    /// The pronunciation applies to all active senses of the owning lexeme.
    LexemeWide,
    /// The pronunciation is known to apply only to the target sense.
    SenseSpecific,
}

/// Notation used to render a source-backed pronunciation assertion.
#[derive(Debug, Clone, Copy, PartialEq, Eq, PartialOrd, Ord, Hash, Structural)]
pub enum PronunciationNotation {
    /// International Phonetic Alphabet notation.
    Ipa,
    /// A source-defined phonemic notation with its own documented key.
    Phonemic,
    /// A source-defined respelling or other documented pronunciation representation.
    SourceDefined,
}

/// A dialect-qualified pronunciation for one canonical sense or its owning lexeme.
#[derive(Debug, Clone, PartialEq, Eq)]
pub struct CanonicalPronunciation {
    id: PronunciationId,
    target: SenseContentTarget,
    scope: PronunciationScope,
    dialect: LanguageTag,
    notation: PronunciationNotation,
    assertion: CanonicalFactualAssertion,
}

impl CanonicalPronunciation {
    /// Creates a reviewed dialect-qualified pronunciation.
    ///
    /// The dialect must share a primary language with the target lexeme: `en-GB` alternatives on
    /// an `en-US` lexeme are accepted, a pronunciation of an unrelated language is refused with
    /// `DetailLanguageMismatch` after the assertion checks.
    pub fn new(
        id: PronunciationId,
        target: SenseContentTarget,
        scope: PronunciationScope,
        dialect: LanguageTag,
        notation: PronunciationNotation,
        assertion: CanonicalFactualAssertion,
    ) -> (r: Result<Self, CanonicalContentValidationError>)
        ensures
            match detail_assertion_error(target@, assertion, CanonicalDetailKind::Pronunciation) {
                Some(e) => r == Err::<Self, _>(e),
                None => if primary_subtag(dialect@) != primary_subtag(target@.language) {
                    r == Err::<Self, _>(CanonicalContentValidationError::DetailLanguageMismatch)
                } else {
                    r matches Ok(x) && x.spec_id() == id@ && x.spec_target() == target && x.spec_scope()
                        == scope && x.spec_dialect() == dialect@ && x.spec_notation() == notation
                        && x.spec_assertion() == assertion
                },
            },
    {
        match validate_detail_assertion(&target, &assertion, CanonicalDetailKind::Pronunciation) {
            Ok(()) => {},
            Err(e) => return Err(e),
        }
        if !dialect.same_primary_language(target.language()) {
            return Err(CanonicalContentValidationError::DetailLanguageMismatch);
        }
        Ok(CanonicalPronunciation { id, target, scope, dialect, notation, assertion })
    }

    /// The `id` field.
    pub closed spec fn spec_id(&self) -> Seq<char> {
        self.id@
    }

    /// The `target` field.
    pub closed spec fn spec_target(&self) -> SenseContentTarget {
        self.target
    }

    /// The `scope` field.
    pub closed spec fn spec_scope(&self) -> PronunciationScope {
        self.scope
    }

    /// The `dialect` field.
    pub closed spec fn spec_dialect(&self) -> Seq<char> {
        self.dialect@
    }

    /// The `notation` field.
    pub closed spec fn spec_notation(&self) -> PronunciationNotation {
        self.notation
    }

    /// The `assertion` field.
    pub closed spec fn spec_assertion(&self) -> CanonicalFactualAssertion {
        self.assertion
    }

    /// Returns the stable pronunciation identifier.
    pub fn id(&self) -> (r: &PronunciationId)
        ensures
            r@ == self.spec_id(),
    {
        &self.id
    }

    /// Returns the target sense and owning lexeme for this pronunciation.
    pub fn target(&self) -> (r: &SenseContentTarget)
        ensures
            *r == self.spec_target(),
    {
        &self.target
    }

    /// Returns whether the pronunciation applies lexeme-wide or only to this sense.
    pub fn scope(&self) -> (r: PronunciationScope)
        ensures
            r == self.spec_scope(),
    {
        self.scope
    }

    /// Returns the documented dialect of the pronunciation assertion.
    pub fn dialect(&self) -> (r: &LanguageTag)
        ensures
            r@ == self.spec_dialect(),
    {
        &self.dialect
    }

    /// Returns the notation used by the factual pronunciation text.
    pub fn notation(&self) -> (r: PronunciationNotation)
        ensures
            r == self.spec_notation(),
    {
        self.notation
    }

    /// Returns the factual pronunciation text and evidence lineage.
    pub fn assertion(&self) -> (r: &CanonicalFactualAssertion)
        ensures
            *r == self.spec_assertion(),
    {
        &self.assertion
    }


}

/// Taxonomy of a canonical usage label.
#[derive(Debug, Clone, Copy, PartialEq, Eq, PartialOrd, Ord, Hash, Structural)]
pub enum UsageLabelKind {
    /// Formality, informality, slang, or another register distinction.
    Register,
    /// Subject area or professional domain.
    Domain,
    /// Geographic or dialect-specific distribution.
    Dialect,
    /// Positive, negative, humorous, taboo, or another connotative qualification.
    Connotation,
    /// Politeness, honorific, or interpersonal force.
    Politeness,
    /// Dated, archaic, historical, or current-use qualification.
    Datedness,
    /// Sensitivity, mature-content, or other learner-safety qualification.
    Sensitivity,
    /// Source-qualified frequency or commonness label.
    Frequency,
    /// Source-qualified CEFR or other pedagogical-level label.
    Level,
}

/// A controlled usage label with its own factual evidence.
#[derive(Debug, Clone, PartialEq, Eq)]
pub struct UsageLabel {
    id: UsageLabelId,
    target: SenseContentTarget,
    kind: UsageLabelKind,
    code: String,
    assertion: CanonicalFactualAssertion,
}

impl UsageLabel {
    /// Creates a reviewed controlled usage label for one sense.
    ///
    /// `code` is an adapter-neutral controlled value, while `assertion` preserves the
    /// learner-facing source-backed wording and its evidence. After the assertion checks, a
    /// blank or overlong `code` is refused.
    pub fn new(
        id: UsageLabelId,
        target: SenseContentTarget,
        kind: UsageLabelKind,
        code: &str,
        assertion: CanonicalFactualAssertion,
    ) -> (r: Result<Self, CanonicalContentValidationError>)
        ensures
            match detail_assertion_error(target@, assertion, CanonicalDetailKind::UsageLabel) {
                Some(e) => r == Err::<Self, _>(e),
                None => match label_error(code@) {
                    Some(e) => r == Err::<Self, _>(e),
                    None => r matches Ok(x) && x.spec_id() == id@ && x.spec_target() == target
                        && x.spec_kind() == kind && x.spec_code() == code@ && x.spec_assertion()
                        == assertion,
                },
            },
    {
        match validate_detail_assertion(&target, &assertion, CanonicalDetailKind::UsageLabel) {
            Ok(()) => {},
            Err(e) => return Err(e),
        }
        let code = match validate_label(code) {
            Ok(c) => c,
            Err(e) => return Err(e),
        };
        Ok(UsageLabel { id, target, kind, code, assertion })
    }

    /// The `id` field.
    pub closed spec fn spec_id(&self) -> Seq<char> {
        self.id@
    }

    /// The `target` field.
    pub closed spec fn spec_target(&self) -> SenseContentTarget {
        self.target
    }

    /// The `kind` field.
    pub closed spec fn spec_kind(&self) -> UsageLabelKind {
        self.kind
    }

    /// The `code` field.
    pub closed spec fn spec_code(&self) -> Seq<char> {
        self.code@
    }

    /// The `assertion` field.
    pub closed spec fn spec_assertion(&self) -> CanonicalFactualAssertion {
        self.assertion
    }

    /// Returns the stable usage-label assertion identifier.
    pub fn id(&self) -> (r: &UsageLabelId)
        ensures
            r@ == self.spec_id(),
    {
        &self.id
    }

    /// Returns the exact canonical sense to which this label applies.
    pub fn target(&self) -> (r: &SenseContentTarget)
        ensures
            *r == self.spec_target(),
    {
        &self.target
    }

    /// Returns the usage-label taxonomy.
    pub fn kind(&self) -> (r: UsageLabelKind)
        ensures
            r == self.spec_kind(),
    {
        self.kind
    }

    /// Returns the bounded controlled code, not a source-generated explanation.
    pub fn code(&self) -> (r: &str)
        ensures
            r@ == self.spec_code(),
    {
        self.code.as_str()
    }

    /// Returns the factual wording and evidence that qualify this label.
    pub fn assertion(&self) -> (r: &CanonicalFactualAssertion)
        ensures
            *r == self.spec_assertion(),
    {
        &self.assertion
    }


}

/// Family of grammar pattern represented by a canonical assertion.
#[derive(Debug, Clone, Copy, PartialEq, Eq, PartialOrd, Ord, Hash, Structural)]
pub enum GrammarPatternKind {
    /// A transitivity, complement, or argument-structure pattern.
    Valency,
    /// A clause, phrase, or constituent construction.
    Construction,
    /// A governed preposition, particle, or case-marking pattern.
    Government,
    /// A morphology or inflection pattern relevant to this sense.
    Morphology,
    /// A source-defined grammar pattern that does not fit another stable family.
    SourceDefined,
}

/// A structured grammar pattern connected to one canonical sense.
#[derive(Debug, Clone, PartialEq, Eq)]
pub struct GrammarPattern {
    id: GrammarPatternId,
    target: SenseContentTarget,
    kind: GrammarPatternKind,
    assertion: CanonicalFactualAssertion,
}

impl GrammarPattern {
    /// Creates a reviewed grammar-pattern assertion for one sense; fails when the assertion kind, release, or lifecycle state does not match the target.
    pub fn new(id: GrammarPatternId, target: SenseContentTarget, kind: GrammarPatternKind, assertion: CanonicalFactualAssertion) -> (r: Result<Self, CanonicalContentValidationError>)
        ensures
            match detail_assertion_error(target@, assertion, CanonicalDetailKind::GrammarPattern) {
                Some(e) => r == Err::<Self, _>(e),
                None => r matches Ok(x) && x.spec_id() == id@ && x.spec_target() == target && x.spec_kind() == kind && x.spec_assertion() == assertion,
            },
    {
        match validate_detail_assertion(&target, &assertion, CanonicalDetailKind::GrammarPattern) {
            Ok(()) => {},
            Err(e) => return Err(e),
        }
        Ok(GrammarPattern { id, target, kind, assertion })
    }

    /// The `id` field.
    pub closed spec fn spec_id(&self) -> Seq<char> {
        self.id@
    }

    /// The `target` field.
    pub closed spec fn spec_target(&self) -> SenseContentTarget {
        self.target
    }

    /// The `kind` field.
    pub closed spec fn spec_kind(&self) -> GrammarPatternKind {
        self.kind
    }

    /// The `assertion` field.
    pub closed spec fn spec_assertion(&self) -> CanonicalFactualAssertion {
        self.assertion
    }

    /// Returns the stable grammar-pattern identifier.
    pub fn id(&self) -> (r: &GrammarPatternId)
        ensures
            r@ == self.spec_id(),
    {
        &self.id
    }

    /// Returns the exact canonical sense to which this pattern applies.
    pub fn target(&self) -> (r: &SenseContentTarget)
        ensures
            *r == self.spec_target(),
    {
        &self.target
    }

    /// Returns the stable grammar-pattern family.
    pub fn kind(&self) -> (r: GrammarPatternKind)
        ensures
            r == self.spec_kind(),
    {
        self.kind
    }

    /// Returns the factual pattern text and evidence lineage.
    pub fn assertion(&self) -> (r: &CanonicalFactualAssertion)
        ensures
            *r == self.spec_assertion(),
    {
        &self.assertion
    }


}

/// The grammatical role that the target sense occupies in a collocation.
#[derive(Debug, Clone, Copy, PartialEq, Eq, PartialOrd, Ord, Hash, Structural)]
pub enum CollocationRole {
    /// The target sense supplies the collocation head.
    Head,
    /// The target sense supplies the collocation dependent.
    Dependent,
}

/// Coarse construction metadata retained beside a collocation's explicit term roles.
#[derive(Debug, Clone, Copy, PartialEq, Eq, PartialOrd, Ord, Hash, Structural)]
pub enum CollocationConstruction {
    /// A verb and its object or complement.
    VerbObject,
    /// An adjective and its noun.
    AdjectiveNoun,
    /// An adverb and its modified adjective or verb.
    AdverbModifier,
    /// A noun compound or fixed noun phrase.
    NounCompound,
    /// A governed preposition, particle, or case-marked complement.
    GovernedComplement,
    /// A source-defined construction whose finer grammar remains in the factual assertion.
    SourceDefined,
}


/// An optional identifier by its text.
pub open spec fn opt_id(o: Option<CanonicalId>) -> Option<Seq<char>> {
    match o {
        Some(id) => Some(id@),
        None => None,
    }
}

/// Whether two optional identifiers hold the same text.
pub fn same_opt_id(a: &Option<CanonicalId>, b: &Option<CanonicalId>) -> (r: bool)
    ensures
        r == (opt_id(*a) == opt_id(*b)),
{
    match (a, b) {
        (Some(x), Some(y)) => x.same(y),
        (None, None) => true,
        _ => false,
    }
}

/// One head or dependent term in a canonical collocation.
#[derive(Debug, Clone, PartialEq, Eq)]
pub struct CollocationTerm {
    surface: String,
    lexeme_id: Option<LexemeId>,
    sense_id: Option<SenseId>,
}

impl CollocationTerm {
    /// Creates a bounded collocation term with optional canonical entity references.
    ///
    /// A term that identifies a sense must also identify its owning lexeme
    /// (`CollocationTargetMismatch` otherwise); the surface must then be a valid label.
    pub fn new(surface: &str, lexeme_id: Option<LexemeId>, sense_id: Option<SenseId>) -> (r: Result<Self, CanonicalContentValidationError>)
        ensures
            sense_id is Some && lexeme_id is None ==> r == Err::<Self, _>(
                CanonicalContentValidationError::CollocationTargetMismatch,
            ),
            !(sense_id is Some && lexeme_id is None) ==> match label_error(surface@) {
                Some(e) => r == Err::<Self, _>(e),
                None => r matches Ok(x) && x.spec_surface() == surface@ && x.spec_lexeme_id()
                    == lexeme_id && x.spec_sense_id() == sense_id,
            },
    {
        if sense_id.is_some() && lexeme_id.is_none() {
            return Err(CanonicalContentValidationError::CollocationTargetMismatch);
        }
        let surface = match validate_label(surface) {
            Ok(s) => s,
            Err(e) => return Err(e),
        };
        Ok(CollocationTerm { surface, lexeme_id, sense_id })
    }

    /// Whether both terms have the same surface and references.
    pub fn same(&self, other: &CollocationTerm) -> (b: bool)
        ensures
            b == (self@ == other@),
    {
        self.surface == other.surface && same_opt_id(&self.lexeme_id, &other.lexeme_id)
            && same_opt_id(&self.sense_id, &other.sense_id)
    }

    /// The `surface` field.
    pub closed spec fn spec_surface(&self) -> Seq<char> {
        self.surface@
    }

    /// The `lexeme_id` field.
    pub closed spec fn spec_lexeme_id(&self) -> Option<LexemeId> {
        self.lexeme_id
    }

    /// The `sense_id` field.
    pub closed spec fn spec_sense_id(&self) -> Option<SenseId> {
        self.sense_id
    }

    /// Returns the source-preserving surface term used in the collocation.
    pub fn surface(&self) -> (r: &str)
        ensures
            r@ == self.spec_surface(),
    {
        self.surface.as_str()
    }

    /// Returns the canonical lexeme reference, when the term is aligned.
    pub fn lexeme_id(&self) -> (r: Option<&LexemeId>)
        ensures
            r == match self.spec_lexeme_id() {
                Some(x) => Some(&x),
                None => None::<&LexemeId>,
            },
    {
        match &self.lexeme_id {
            Some(x) => Some(x),
            None => None,
        }
    }

    /// Returns the canonical sense reference, when the term is sense-specific.
    pub fn sense_id(&self) -> (r: Option<&SenseId>)
        ensures
            r == match self.spec_sense_id() {
                Some(x) => Some(&x),
                None => None::<&SenseId>,
            },
    {
        match &self.sense_id {
            Some(x) => Some(x),
            None => None,
        }
    }


}


impl View for CollocationTerm {
    type V = (Seq<char>, Option<Seq<char>>, Option<Seq<char>>);

    open spec fn view(&self) -> (Seq<char>, Option<Seq<char>>, Option<Seq<char>>) {
        (self.spec_surface(), opt_id(self.spec_lexeme_id()), opt_id(self.spec_sense_id()))
    }
}

/// Whether `term` names exactly the target's lexeme and sense.
pub open spec fn term_marks_target(term: CollocationTerm, target: SenseTargetModel) -> bool {
    opt_id(term.spec_lexeme_id()) == Some(target.lexeme) && opt_id(term.spec_sense_id()) == Some(
        target.sense,
    )
}

/// A collocation with explicit head/dependent roles and factual evidence.
#[derive(Debug, Clone, PartialEq, Eq)]
pub struct Collocation {
    id: CollocationId,
    target: SenseContentTarget,
    target_role: CollocationRole,
    construction: CollocationConstruction,
    head: CollocationTerm,
    dependent: CollocationTerm,
    assertion: CanonicalFactualAssertion,
}

impl Collocation {
    /// Creates a reviewed collocation for one sense.
    ///
    /// After the assertion checks, identical head and dependent terms are refused with
    /// `DuplicateCollocationTerms`, and the term selected by `target_role` must identify the
    /// target sense and its owning lexeme (`CollocationTargetMismatch` otherwise).
    pub fn new(
        id: CollocationId,
        target: SenseContentTarget,
        target_role: CollocationRole,
        construction: CollocationConstruction,
        head: CollocationTerm,
        dependent: CollocationTerm,
        assertion: CanonicalFactualAssertion,
    ) -> (r: Result<Self, CanonicalContentValidationError>)
        ensures
            match detail_assertion_error(target@, assertion, CanonicalDetailKind::Collocation) {
                Some(e) => r == Err::<Self, _>(e),
                None => if head@ == dependent@ {
                    r == Err::<Self, _>(CanonicalContentValidationError::DuplicateCollocationTerms)
                } else if !term_marks_target(
                    if target_role == CollocationRole::Head {
                        head
                    } else {
                        dependent
                    },
                    target@,
                ) {
                    r == Err::<Self, _>(CanonicalContentValidationError::CollocationTargetMismatch)
                } else {
                    r matches Ok(x) && x.spec_id() == id@ && x.spec_target() == target
                        && x.spec_target_role() == target_role && x.spec_construction() == construction
                        && x.spec_head() == head && x.spec_dependent() == dependent && x.spec_assertion()
                        == assertion
                },
            },
    {
        match validate_detail_assertion(&target, &assertion, CanonicalDetailKind::Collocation) {
            Ok(()) => {},
            Err(e) => return Err(e),
        }
        if head.same(&dependent) {
            return Err(CanonicalContentValidationError::DuplicateCollocationTerms);
        }
        let target_term = match target_role {
            CollocationRole::Head => &head,
            CollocationRole::Dependent => &dependent,
        };
        let lexeme_ok = match &target_term.lexeme_id {
            Some(l) => l.same(target.lexeme_id()),
            None => false,
        };
        let sense_ok = match &target_term.sense_id {
            Some(s) => s.same(target.sense_id()),
            None => false,
        };
        if !lexeme_ok || !sense_ok {
            return Err(CanonicalContentValidationError::CollocationTargetMismatch);
        }
        Ok(Collocation { id, target, target_role, construction, head, dependent, assertion })
    }

    /// The `id` field.
    pub closed spec fn spec_id(&self) -> Seq<char> {
        self.id@
    }

    /// The `target` field.
    pub closed spec fn spec_target(&self) -> SenseContentTarget {
        self.target
    }

    /// The `target_role` field.
    pub closed spec fn spec_target_role(&self) -> CollocationRole {
        self.target_role
    }

    /// The `construction` field.
    pub closed spec fn spec_construction(&self) -> CollocationConstruction {
        self.construction
    }

    /// The `head` field.
    pub closed spec fn spec_head(&self) -> CollocationTerm {
        self.head
    }

    /// The `dependent` field.
    pub closed spec fn spec_dependent(&self) -> CollocationTerm {
        self.dependent
    }

    /// The `assertion` field.
    pub closed spec fn spec_assertion(&self) -> CanonicalFactualAssertion {
        self.assertion
    }

    /// Returns the stable collocation identifier.
    pub fn id(&self) -> (r: &CollocationId)
        ensures
            r@ == self.spec_id(),
    {
        &self.id
    }

    /// Returns the exact canonical sense to which this collocation applies.
    pub fn target(&self) -> (r: &SenseContentTarget)
        ensures
            *r == self.spec_target(),
    {
        &self.target
    }

    /// Returns whether the target sense is the head or dependent in this collocation.
    pub fn target_role(&self) -> (r: CollocationRole)
        ensures
            r == self.spec_target_role(),
    {
        self.target_role
    }

    /// Returns construction metadata retained separately from surface phrasing.
    pub fn construction(&self) -> (r: CollocationConstruction)
        ensures
            r == self.spec_construction(),
    {
        self.construction
    }

    /// Returns the collocation head term.
    pub fn head(&self) -> (r: &CollocationTerm)
        ensures
            *r == self.spec_head(),
    {
        &self.head
    }

    /// Returns the collocation dependent term.
    pub fn dependent(&self) -> (r: &CollocationTerm)
        ensures
            *r == self.spec_dependent(),
    {
        &self.dependent
    }

    /// Returns the factual collocation assertion and evidence lineage.
    pub fn assertion(&self) -> (r: &CanonicalFactualAssertion)
        ensures
            *r == self.spec_assertion(),
    {
        &self.assertion
    }


}

/// A source-backed example demonstrating one canonical sense.
#[derive(Debug, Clone, PartialEq, Eq)]
pub struct CanonicalExample {
    id: CanonicalExampleId,
    target: SenseContentTarget,
    language: LanguageTag,
    assertion: CanonicalFactualAssertion,
}

impl CanonicalExample {
    /// Creates a reviewed example for one sense.
    ///
    /// The example language must share its primary language with the target lexeme
    /// (`DetailLanguageMismatch` otherwise, after the assertion checks); a translated explanation
    /// belongs in a localized gloss instead.
    pub fn new(id: CanonicalExampleId, target: SenseContentTarget, language: LanguageTag, assertion: CanonicalFactualAssertion) -> (r: Result<Self, CanonicalContentValidationError>)
        ensures
            match detail_assertion_error(target@, assertion, CanonicalDetailKind::Example) {
                Some(e) => r == Err::<Self, _>(e),
                None => if primary_subtag(language@) != primary_subtag(target@.language) {
                    r == Err::<Self, _>(CanonicalContentValidationError::DetailLanguageMismatch)
                } else {
                    r matches Ok(x) && x.spec_id() == id@ && x.spec_target() == target
                        && x.spec_language() == language@ && x.spec_assertion() == assertion
                },
            },
    {
        match validate_detail_assertion(&target, &assertion, CanonicalDetailKind::Example) {
            Ok(()) => {},
            Err(e) => return Err(e),
        }
        if !language.same_primary_language(target.language()) {
            return Err(CanonicalContentValidationError::DetailLanguageMismatch);
        }
        Ok(CanonicalExample { id, target, language, assertion })
    }

    /// The `id` field.
    pub closed spec fn spec_id(&self) -> Seq<char> {
        self.id@
    }

    /// The `target` field.
    pub closed spec fn spec_target(&self) -> SenseContentTarget {
        self.target
    }

    /// The `language` field.
    pub closed spec fn spec_language(&self) -> Seq<char> {
        self.language@
    }

    /// The `assertion` field.
    pub closed spec fn spec_assertion(&self) -> CanonicalFactualAssertion {
        self.assertion
    }

    /// Returns the stable canonical-example identifier.
    pub fn id(&self) -> (r: &CanonicalExampleId)
        ensures
            r@ == self.spec_id(),
    {
        &self.id
    }

    /// Returns the exact canonical sense demonstrated by this example.
    pub fn target(&self) -> (r: &SenseContentTarget)
        ensures
            *r == self.spec_target(),
    {
        &self.target
    }

    /// Returns the language in which the example is written.
    pub fn language(&self) -> (r: &LanguageTag)
        ensures
            r@ == self.spec_language(),
    {
        &self.language
    }

    /// Returns the factual example text and evidence lineage.
    pub fn assertion(&self) -> (r: &CanonicalFactualAssertion)
        ensures
            *r == self.spec_assertion(),
    {
        &self.assertion
    }


}

/// Category of an evidence-backed learner pitfall.
#[derive(Debug, Clone, Copy, PartialEq, Eq, PartialOrd, Ord, Hash, Structural)]
pub enum LearnerPitfallKind {
    /// A deceptive similarity between the learner's language and the target sense.
    FalseFriend,
    /// A sense that learners commonly confuse with a different canonical sense.
    Confusable,
    /// An unnatural word-for-word construction transferred from another language.
    LiteralTranslation,
    /// A source-observed common learner error not covered by another stable category.
    CommonError,
}

/// A source-language-qualified mistake and correction for one canonical sense.
#[derive(Debug, Clone, PartialEq, Eq)]
pub struct LearnerPitfall {
    id: LearnerPitfallId,
    target: SenseContentTarget,
    learner_language: LanguageTag,
    kind: LearnerPitfallKind,
    mistake: CanonicalFactualAssertion,
    correction: CanonicalFactualAssertion,
}

impl LearnerPitfall {
    /// Creates a reviewed learner pitfall with distinct mistake and correction assertions.
    ///
    /// Both assertions are checked against the target, mistake first; identical mistake and
    /// correction texts are then refused with `IdenticalPitfallForms`.
    pub fn new(
        id: LearnerPitfallId,
        target: SenseContentTarget,
        learner_language: LanguageTag,
        kind: LearnerPitfallKind,
        mistake: CanonicalFactualAssertion,
        correction: CanonicalFactualAssertion,
    ) -> (r: Result<Self, CanonicalContentValidationError>)
        ensures
            match detail_assertion_error(target@, mistake, CanonicalDetailKind::Pitfall) {
                Some(e) => r == Err::<Self, _>(e),
                None => match detail_assertion_error(target@, correction, CanonicalDetailKind::Pitfall) {
                    Some(e) => r == Err::<Self, _>(e),
                    None => if mistake.spec_text() == correction.spec_text() {
                        r == Err::<Self, _>(CanonicalContentValidationError::IdenticalPitfallForms)
                    } else {
                        r matches Ok(x) && x.spec_id() == id@ && x.spec_target() == target
                            && x.spec_learner_language() == learner_language@ && x.spec_kind() == kind
                            && x.spec_mistake() == mistake && x.spec_correction() == correction
                    },
                },
            },
    {
        match validate_detail_assertion(&target, &mistake, CanonicalDetailKind::Pitfall) {
            Ok(()) => {},
            Err(e) => return Err(e),
        }
        match validate_detail_assertion(&target, &correction, CanonicalDetailKind::Pitfall) {
            Ok(()) => {},
            Err(e) => return Err(e),
        }
        if crate::text::str_eq(mistake.text(), correction.text()) {
            return Err(CanonicalContentValidationError::IdenticalPitfallForms);
        }
        Ok(LearnerPitfall { id, target, learner_language, kind, mistake, correction })
    }

    /// The `id` field.
    pub closed spec fn spec_id(&self) -> Seq<char> {
        self.id@
    }

    /// The `target` field.
    pub closed spec fn spec_target(&self) -> SenseContentTarget {
        self.target
    }

    /// The `learner_language` field.
    pub closed spec fn spec_learner_language(&self) -> Seq<char> {
        self.learner_language@
    }

    /// The `kind` field.
    pub closed spec fn spec_kind(&self) -> LearnerPitfallKind {
        self.kind
    }

    /// The `mistake` field.
    pub closed spec fn spec_mistake(&self) -> CanonicalFactualAssertion {
        self.mistake
    }

    /// The `correction` field.
    pub closed spec fn spec_correction(&self) -> CanonicalFactualAssertion {
        self.correction
    }

    /// Returns the stable learner-pitfall identifier.
    pub fn id(&self) -> (r: &LearnerPitfallId)
        ensures
            r@ == self.spec_id(),
    {
        &self.id
    }

    /// Returns the exact canonical sense to which this pitfall applies.
    pub fn target(&self) -> (r: &SenseContentTarget)
        ensures
            *r == self.spec_target(),
    {
        &self.target
    }

    /// Returns the learner language that qualifies the likely error.
    pub fn learner_language(&self) -> (r: &LanguageTag)
        ensures
            r@ == self.spec_learner_language(),
    {
        &self.learner_language
    }

    /// Returns the stable learner-pitfall category.
    pub fn kind(&self) -> (r: LearnerPitfallKind)
        ensures
            r == self.spec_kind(),
    {
        self.kind
    }

    /// Returns the source-backed mistaken construction.
    pub fn mistake(&self) -> (r: &CanonicalFactualAssertion)
        ensures
            *r == self.spec_mistake(),
    {
        &self.mistake
    }

    /// Returns the source-backed corrected construction.
    pub fn correction(&self) -> (r: &CanonicalFactualAssertion)
        ensures
            *r == self.spec_correction(),
    {
        &self.correction
    }


}

/// Bounded year range retained when a source qualifies an etymological or semantic-history claim.
#[derive(Debug, Clone, Copy, PartialEq, Eq, PartialOrd, Ord, Hash, Structural)]
pub struct HistoricalRange {
    first_year: Option<i32>,
    last_year: Option<i32>,
}

impl HistoricalRange {
    /// Creates an optional inclusive year range without inventing an absent date.
    ///
    /// Negative years may represent a source's BCE convention. Returns `InvalidHistoricalRange`
    /// when both years are known and `last_year` is earlier than `first_year`.
    pub fn new(first_year: Option<i32>, last_year: Option<i32>) -> (r: Result<Self, CanonicalContentValidationError>)
        ensures
            match r {
                Ok(x) => !(first_year matches Some(f) && last_year matches Some(l) && l < f)
                    && x.spec_first_year() == first_year && x.spec_last_year() == last_year,
                Err(e) => (first_year matches Some(f) && last_year matches Some(l) && l < f) && e
                    == CanonicalContentValidationError::InvalidHistoricalRange,
            },
    {
        match (first_year, last_year) {
            (Some(first), Some(last)) => {
                if last < first {
                    return Err(CanonicalContentValidationError::InvalidHistoricalRange);
                }
            },
            _ => {},
        }
        Ok(HistoricalRange { first_year, last_year })
    }

    /// The `first_year` field.
    pub closed spec fn spec_first_year(&self) -> Option<i32> {
        self.first_year
    }

    /// The `last_year` field.
    pub closed spec fn spec_last_year(&self) -> Option<i32> {
        self.last_year
    }

    /// Returns the inclusive earliest source-qualified year, when known.
    pub fn first_year(&self) -> (r: Option<i32>)
        ensures
            r == self.spec_first_year(),
    {
        self.first_year
    }

    /// Returns the inclusive latest source-qualified year, when known.
    pub fn last_year(&self) -> (r: Option<i32>)
        ensures
            r == self.spec_last_year(),
    {
        self.last_year
    }


}

/// Scope of an etymology assertion relative to a target sense and its lexeme.
#[derive(Debug, Clone, Copy, PartialEq, Eq, PartialOrd, Ord, Hash, Structural)]
pub enum EtymologyScope {
    /// The assertion applies to the owning lexeme across all of its senses.
    LexemeWide,
    /// The assertion applies only to the target sense's historical development.
    SenseSpecific,
}

/// Relationship stated by a source-backed etymology assertion.
#[derive(Debug, Clone, Copy, PartialEq, Eq, PartialOrd, Ord, Hash, Structural)]
pub enum EtymologyKind {
    /// The target was borrowed from a source language or lexical form.
    BorrowedFrom,
    /// The target was derived from another form or construction.
    DerivedFrom,
    /// The target is a cognate of another form without asserting direct descent.
    CognateWith,
    /// A qualified origin summary that does not claim a more specific relation.
    OriginSummary,
}

/// A source-backed etymology assertion for one target sense or its owning lexeme.
#[derive(Debug, Clone, PartialEq, Eq)]
pub struct EtymologyAssertion {
    id: EtymologyAssertionId,
    target: SenseContentTarget,
    scope: EtymologyScope,
    kind: EtymologyKind,
    source_language: LanguageTag,
    period: HistoricalRange,
    assertion: CanonicalFactualAssertion,
}

impl EtymologyAssertion {
    /// Creates a reviewed etymology assertion with its source-language and time qualification; fails when the assertion kind, release, or lifecycle state does not match the target.
    pub fn new(id: EtymologyAssertionId, target: SenseContentTarget, scope: EtymologyScope, kind: EtymologyKind, source_language: LanguageTag, period: HistoricalRange, assertion: CanonicalFactualAssertion) -> (r: Result<Self, CanonicalContentValidationError>)
        ensures
            match detail_assertion_error(target@, assertion, CanonicalDetailKind::Etymology) {
                Some(e) => r == Err::<Self, _>(e),
                None => r matches Ok(x) && x.spec_id() == id@ && x.spec_target() == target && x.spec_scope() == scope && x.spec_kind() == kind && x.spec_source_language() == source_language@ && x.spec_period() == period && x.spec_assertion() == assertion,
            },
    {
        match validate_detail_assertion(&target, &assertion, CanonicalDetailKind::Etymology) {
            Ok(()) => {},
            Err(e) => return Err(e),
        }
        Ok(EtymologyAssertion { id, target, scope, kind, source_language, period, assertion })
    }

    /// The `id` field.
    pub closed spec fn spec_id(&self) -> Seq<char> {
        self.id@
    }

    /// The `target` field.
    pub closed spec fn spec_target(&self) -> SenseContentTarget {
        self.target
    }

    /// The `scope` field.
    pub closed spec fn spec_scope(&self) -> EtymologyScope {
        self.scope
    }

    /// The `kind` field.
    pub closed spec fn spec_kind(&self) -> EtymologyKind {
        self.kind
    }

    /// The `source_language` field.
    pub closed spec fn spec_source_language(&self) -> Seq<char> {
        self.source_language@
    }

    /// The `period` field.
    pub closed spec fn spec_period(&self) -> HistoricalRange {
        self.period
    }

    /// The `assertion` field.
    pub closed spec fn spec_assertion(&self) -> CanonicalFactualAssertion {
        self.assertion
    }

    /// Returns the stable etymology-assertion identifier.
    pub fn id(&self) -> (r: &EtymologyAssertionId)
        ensures
            r@ == self.spec_id(),
    {
        &self.id
    }

    /// Returns the target sense and owning lexeme for this assertion.
    pub fn target(&self) -> (r: &SenseContentTarget)
        ensures
            *r == self.spec_target(),
    {
        &self.target
    }

    /// Returns whether this etymology applies lexeme-wide or only to this sense.
    pub fn scope(&self) -> (r: EtymologyScope)
        ensures
            r == self.spec_scope(),
    {
        self.scope
    }

    /// Returns the source-qualified etymology relationship.
    pub fn kind(&self) -> (r: EtymologyKind)
        ensures
            r == self.spec_kind(),
    {
        self.kind
    }

    /// Returns the source language named by the etymology evidence.
    pub fn source_language(&self) -> (r: &LanguageTag)
        ensures
            r@ == self.spec_source_language(),
    {
        &self.source_language
    }

    /// Returns the optional inclusive historical range qualified by the source.
    pub fn period(&self) -> (r: HistoricalRange)
        ensures
            r == self.spec_period(),
    {
        self.period
    }

    /// Returns the factual etymology text and evidence lineage.
    pub fn assertion(&self) -> (r: &CanonicalFactualAssertion)
        ensures
            *r == self.spec_assertion(),
    {
        &self.assertion
    }


}

/// Type of source-backed semantic-development event for a canonical sense.
#[derive(Debug, Clone, Copy, PartialEq, Eq, PartialOrd, Ord, Hash, Structural)]
pub enum SenseHistoryEventKind {
    /// The sense is documented as attested in the qualified period.
    Attestation,
    /// The sense acquired, narrowed, broadened, or otherwise shifted a documented meaning.
    SemanticShift,
    /// The sense acquired a documented dialect, register, or domain restriction.
    ScopeChange,
    /// The sense was documented as obsolete, retired, or superseded.
    Retirement,
}

/// A source-backed semantic-development assertion for one canonical sense.
#[derive(Debug, Clone, PartialEq, Eq)]
pub struct SenseHistoryAssertion {
    id: SenseHistoryAssertionId,
    target: SenseContentTarget,
    kind: SenseHistoryEventKind,
    period: HistoricalRange,
    assertion: CanonicalFactualAssertion,
}

impl SenseHistoryAssertion {
    /// Creates a reviewed semantic-history assertion for one sense; fails when the assertion kind, release, or lifecycle state does not match the target.
    pub fn new(id: SenseHistoryAssertionId, target: SenseContentTarget, kind: SenseHistoryEventKind, period: HistoricalRange, assertion: CanonicalFactualAssertion) -> (r: Result<Self, CanonicalContentValidationError>)
        ensures
            match detail_assertion_error(target@, assertion, CanonicalDetailKind::SenseHistory) {
                Some(e) => r == Err::<Self, _>(e),
                None => r matches Ok(x) && x.spec_id() == id@ && x.spec_target() == target && x.spec_kind() == kind && x.spec_period() == period && x.spec_assertion() == assertion,
            },
    {
        match validate_detail_assertion(&target, &assertion, CanonicalDetailKind::SenseHistory) {
            Ok(()) => {},
            Err(e) => return Err(e),
        }
        Ok(SenseHistoryAssertion { id, target, kind, period, assertion })
    }

    /// The `id` field.
    pub closed spec fn spec_id(&self) -> Seq<char> {
        self.id@
    }

    /// The `target` field.
    pub closed spec fn spec_target(&self) -> SenseContentTarget {
        self.target
    }

    /// The `kind` field.
    pub closed spec fn spec_kind(&self) -> SenseHistoryEventKind {
        self.kind
    }

    /// The `period` field.
    pub closed spec fn spec_period(&self) -> HistoricalRange {
        self.period
    }

    /// The `assertion` field.
    pub closed spec fn spec_assertion(&self) -> CanonicalFactualAssertion {
        self.assertion
    }

    /// Returns the stable sense-history assertion identifier.
    pub fn id(&self) -> (r: &SenseHistoryAssertionId)
        ensures
            r@ == self.spec_id(),
    {
        &self.id
    }

    /// Returns the exact canonical sense to which this history event applies.
    pub fn target(&self) -> (r: &SenseContentTarget)
        ensures
            *r == self.spec_target(),
    {
        &self.target
    }

    /// Returns the stable semantic-history event classification.
    pub fn kind(&self) -> (r: SenseHistoryEventKind)
        ensures
            r == self.spec_kind(),
    {
        self.kind
    }

    /// Returns the optional inclusive historical range qualified by the source.
    pub fn period(&self) -> (r: HistoricalRange)
        ensures
            r == self.spec_period(),
    {
        self.period
    }

    /// Returns the factual history text and evidence lineage.
    pub fn assertion(&self) -> (r: &CanonicalFactualAssertion)
        ensures
            *r == self.spec_assertion(),
    {
        &self.assertion
    }


}


/// A detail that belongs to one canonical sense under its own identifier.
pub trait SenseScopedDetail {
    /// The detail's identifier.
    spec fn spec_detail_id(&self) -> Seq<char>;

    /// The target the detail attaches to.
    spec fn spec_detail_target(&self) -> SenseTargetModel;

    /// Whether every factual assertion of the detail permits `evidence_use`.
    spec fn spec_detail_permits(&self, evidence_use: EvidenceUse) -> bool;

    /// The detail's identifier.
    fn detail_id(&self) -> (r: &CanonicalId)
        ensures
            r@ == self.spec_detail_id(),
    ;

    /// The target the detail attaches to.
    fn detail_target(&self) -> (r: &SenseContentTarget)
        ensures
            r@ == self.spec_detail_target(),
    ;

    /// Whether every factual assertion of the detail permits `evidence_use`.
    fn detail_permits(&self, evidence_use: EvidenceUse) -> (b: bool)
        ensures
            b == self.spec_detail_permits(evidence_use),
    ;
}

impl SenseScopedDetail for LocalizedGloss {
    open spec fn spec_detail_id(&self) -> Seq<char> {
        self.spec_id()
    }

    open spec fn spec_detail_target(&self) -> SenseTargetModel {
        self.spec_target()@
    }

    open spec fn spec_detail_permits(&self, evidence_use: EvidenceUse) -> bool {
        self.spec_assertion().spec_permits(evidence_use)
    }

    fn detail_id(&self) -> (r: &CanonicalId) {
        &self.id
    }

    fn detail_target(&self) -> (r: &SenseContentTarget) {
        &self.target
    }

    fn detail_permits(&self, evidence_use: EvidenceUse) -> (b: bool) {
        self.assertion.permits(evidence_use)
    }
}

impl SenseScopedDetail for CanonicalPronunciation {
    open spec fn spec_detail_id(&self) -> Seq<char> {
        self.spec_id()
    }

    open spec fn spec_detail_target(&self) -> SenseTargetModel {
        self.spec_target()@
    }

    open spec fn spec_detail_permits(&self, evidence_use: EvidenceUse) -> bool {
        self.spec_assertion().spec_permits(evidence_use)
    }

    fn detail_id(&self) -> (r: &CanonicalId) {
        &self.id
    }

    fn detail_target(&self) -> (r: &SenseContentTarget) {
        &self.target
    }

    fn detail_permits(&self, evidence_use: EvidenceUse) -> (b: bool) {
        self.assertion.permits(evidence_use)
    }
}

impl SenseScopedDetail for UsageLabel {
    open spec fn spec_detail_id(&self) -> Seq<char> {
        self.spec_id()
    }

    open spec fn spec_detail_target(&self) -> SenseTargetModel {
        self.spec_target()@
    }

    open spec fn spec_detail_permits(&self, evidence_use: EvidenceUse) -> bool {
        self.spec_assertion().spec_permits(evidence_use)
    }

    fn detail_id(&self) -> (r: &CanonicalId) {
        &self.id
    }

    fn detail_target(&self) -> (r: &SenseContentTarget) {
        &self.target
    }

    fn detail_permits(&self, evidence_use: EvidenceUse) -> (b: bool) {
        self.assertion.permits(evidence_use)
    }
}

impl SenseScopedDetail for GrammarPattern {
    open spec fn spec_detail_id(&self) -> Seq<char> {
        self.spec_id()
    }

    open spec fn spec_detail_target(&self) -> SenseTargetModel {
        self.spec_target()@
    }

    open spec fn spec_detail_permits(&self, evidence_use: EvidenceUse) -> bool {
        self.spec_assertion().spec_permits(evidence_use)
    }

    fn detail_id(&self) -> (r: &CanonicalId) {
        &self.id
    }

    fn detail_target(&self) -> (r: &SenseContentTarget) {
        &self.target
    }

    fn detail_permits(&self, evidence_use: EvidenceUse) -> (b: bool) {
        self.assertion.permits(evidence_use)
    }
}

impl SenseScopedDetail for Collocation {
    open spec fn spec_detail_id(&self) -> Seq<char> {
        self.spec_id()
    }

    open spec fn spec_detail_target(&self) -> SenseTargetModel {
        self.spec_target()@
    }

    open spec fn spec_detail_permits(&self, evidence_use: EvidenceUse) -> bool {
        self.spec_assertion().spec_permits(evidence_use)
    }

    fn detail_id(&self) -> (r: &CanonicalId) {
        &self.id
    }

    fn detail_target(&self) -> (r: &SenseContentTarget) {
        &self.target
    }

    fn detail_permits(&self, evidence_use: EvidenceUse) -> (b: bool) {
        self.assertion.permits(evidence_use)
    }
}

impl SenseScopedDetail for CanonicalExample {
    open spec fn spec_detail_id(&self) -> Seq<char> {
        self.spec_id()
    }

    open spec fn spec_detail_target(&self) -> SenseTargetModel {
        self.spec_target()@
    }

    open spec fn spec_detail_permits(&self, evidence_use: EvidenceUse) -> bool {
        self.spec_assertion().spec_permits(evidence_use)
    }

    fn detail_id(&self) -> (r: &CanonicalId) {
        &self.id
    }

    fn detail_target(&self) -> (r: &SenseContentTarget) {
        &self.target
    }

    fn detail_permits(&self, evidence_use: EvidenceUse) -> (b: bool) {
        self.assertion.permits(evidence_use)
    }
}

impl SenseScopedDetail for LearnerPitfall {
    open spec fn spec_detail_id(&self) -> Seq<char> {
        self.spec_id()
    }

    open spec fn spec_detail_target(&self) -> SenseTargetModel {
        self.spec_target()@
    }

    open spec fn spec_detail_permits(&self, evidence_use: EvidenceUse) -> bool {
        self.spec_mistake().spec_permits(evidence_use) && self.spec_correction().spec_permits(evidence_use)
    }

    fn detail_id(&self) -> (r: &CanonicalId) {
        &self.id
    }

    fn detail_target(&self) -> (r: &SenseContentTarget) {
        &self.target
    }

    fn detail_permits(&self, evidence_use: EvidenceUse) -> (b: bool) {
        self.mistake.permits(evidence_use) && self.correction.permits(evidence_use)
    }
}

impl SenseScopedDetail for EtymologyAssertion {
    open spec fn spec_detail_id(&self) -> Seq<char> {
        self.spec_id()
    }

    open spec fn spec_detail_target(&self) -> SenseTargetModel {
        self.spec_target()@
    }

    open spec fn spec_detail_permits(&self, evidence_use: EvidenceUse) -> bool {
        self.spec_assertion().spec_permits(evidence_use)
    }

    fn detail_id(&self) -> (r: &CanonicalId) {
        &self.id
    }

    fn detail_target(&self) -> (r: &SenseContentTarget) {
        &self.target
    }

    fn detail_permits(&self, evidence_use: EvidenceUse) -> (b: bool) {
        self.assertion.permits(evidence_use)
    }
}

impl SenseScopedDetail for SenseHistoryAssertion {
    open spec fn spec_detail_id(&self) -> Seq<char> {
        self.spec_id()
    }

    open spec fn spec_detail_target(&self) -> SenseTargetModel {
        self.spec_target()@
    }

    open spec fn spec_detail_permits(&self, evidence_use: EvidenceUse) -> bool {
        self.spec_assertion().spec_permits(evidence_use)
    }

    fn detail_id(&self) -> (r: &CanonicalId) {
        &self.id
    }

    fn detail_target(&self) -> (r: &SenseContentTarget) {
        &self.target
    }

    fn detail_permits(&self, evidence_use: EvidenceUse) -> (b: bool) {
        self.assertion.permits(evidence_use)
    }
}


/// The error of item `i` of a detail collection for `target`, if any: a different target, then
/// an identifier already used earlier in the collection.
pub open spec fn detail_item_error<T: SenseScopedDetail>(target: SenseTargetModel, details: Seq<T>, i: int) -> Option<
    CanonicalContentValidationError,
> {
    if details[i].spec_detail_target() != target {
        Some(CanonicalContentValidationError::DetailTargetMismatch)
    } else if exists|j: int| 0 <= j < i && (#[trigger] details[j]).spec_detail_id() == details[i].spec_detail_id() {
        Some(CanonicalContentValidationError::DuplicateDetailId)
    } else {
        None
    }
}

/// The error of the first refused item among the first `n` items, if any.
pub open spec fn first_detail_error<T: SenseScopedDetail>(target: SenseTargetModel, details: Seq<T>, n: int) -> Option<
    CanonicalContentValidationError,
>
    decreases n,
{
    if n <= 0 {
        None
    } else {
        match first_detail_error(target, details, n - 1) {
            Some(e) => Some(e),
            None => detail_item_error(target, details, n - 1),
        }
    }
}

proof fn lemma_first_detail_error_sticks<T: SenseScopedDetail>(target: SenseTargetModel, details: Seq<T>, k: int, m: int)
    requires
        0 <= k <= m,
        first_detail_error(target, details, k) is Some,
    ensures
        first_detail_error(target, details, m) == first_detail_error(target, details, k),
    decreases m - k,
{
    if m > k {
        lemma_first_detail_error_sticks(target, details, k, m - 1);
    }
}

/// The error a detail collection for `target` is refused with, if any: more than 24 items, or
/// the first refused item.
pub open spec fn collection_error<T: SenseScopedDetail>(target: SenseTargetModel, details: Seq<T>) -> Option<
    CanonicalContentValidationError,
> {
    if details.len() > 24 {
        Some(CanonicalContentValidationError::TooManyDetails)
    } else {
        first_detail_error(target, details, details.len() as int)
    }
}

/// Checks that a detail collection is bounded, attaches every item to `target`, and uses each
/// identifier once.
pub fn validate_detail_collection<T: SenseScopedDetail>(target: &SenseContentTarget, details: &Vec<T>) -> (r: Result<
    (),
    CanonicalContentValidationError,
>)
    ensures
        match collection_error(target@, details@) {
            Some(e) => r == Err::<(), _>(e),
            None => r is Ok,
        },
{
    if details.len() > MAX_DETAILS_PER_KIND {
        return Err(CanonicalContentValidationError::TooManyDetails);
    }
    let mut i: usize = 0;
    while i < details.len()
        invariant
            i <= details.len() <= 24,
            first_detail_error(target@, details@, i as int) is None,
        decreases details.len() - i,
    {
        if !details[i].detail_target().same(target) {
            proof {
                lemma_first_detail_error_sticks(target@, details@, i + 1, details@.len() as int);
            }
            return Err(CanonicalContentValidationError::DetailTargetMismatch);
        }
        let id = details[i].detail_id();
        let mut j: usize = 0;
        while j < i
            invariant
                j <= i < details.len(),
                details.len() <= 24,
                id@ == details@[i as int].spec_detail_id(),
                first_detail_error(target@, details@, i as int) is None,
                details@[i as int].spec_detail_target() == target@,
                forall|k: int| 0 <= k < j ==> (#[trigger] details@[k]).spec_detail_id() != id@,
            decreases i - j,
        {
            if details[j].detail_id().same(id) {
                assert(detail_item_error(target@, details@, i as int) == Some(
                    CanonicalContentValidationError::DuplicateDetailId,
                ));
                proof {
                    lemma_first_detail_error_sticks(target@, details@, i + 1, details@.len() as int);
                }
                return Err(CanonicalContentValidationError::DuplicateDetailId);
            }
            j += 1;
        }
        i += 1;
    }
    Ok(())
}

/// Whether every detail of `details` permits `evidence_use`.
pub open spec fn all_details_permit<T: SenseScopedDetail>(details: Seq<T>, evidence_use: EvidenceUse) -> bool {
    forall|i: int| 0 <= i < details.len() ==> (#[trigger] details[i]).spec_detail_permits(evidence_use)
}

fn details_permit<T: SenseScopedDetail>(details: &Vec<T>, evidence_use: EvidenceUse) -> (b: bool)
    ensures
        b == all_details_permit(details@, evidence_use),
{
    let mut i: usize = 0;
    while i < details.len()
        invariant
            i <= details.len(),
            forall|k: int| 0 <= k < i ==> (#[trigger] details@[k]).spec_detail_permits(evidence_use),
        decreases details.len() - i,
    {
        if !details[i].detail_permits(evidence_use) {
            return false;
        }
        i += 1;
    }
    true
}


/// Bounded reviewed details attached to one canonical sense, before validation.
///
/// This aggregate preserves separate collections for meanings, usage, grammar, examples, and
/// history. It does not flatten them into one generated card or infer missing sections from
/// neighboring details.
#[derive(Debug, Clone, PartialEq, Eq)]
pub struct CanonicalSenseDetailsInput {
    /// Canonical sense to which every collected detail must attach.
    pub target: SenseContentTarget,
    /// Localized glosses, retained separately from definitions and examples.
    pub localized_glosses: Vec<LocalizedGloss>,
    /// Dialect-qualified pronunciations.
    pub pronunciations: Vec<CanonicalPronunciation>,
    /// Controlled usage-label assertions.
    pub usage_labels: Vec<UsageLabel>,
    /// Structured grammar-pattern assertions.
    pub grammar_patterns: Vec<GrammarPattern>,
    /// Explicit-role collocation assertions.
    pub collocations: Vec<Collocation>,
    /// Source-backed examples.
    pub examples: Vec<CanonicalExample>,
    /// Source-language-qualified learner pitfalls.
    pub pitfalls: Vec<LearnerPitfall>,
    /// Etymology assertions scoped to the target sense or its lexeme.
    pub etymologies: Vec<EtymologyAssertion>,
    /// Source-backed semantic-development assertions.
    pub history: Vec<SenseHistoryAssertion>,
}

impl CanonicalSenseDetailsInput {
    /// Creates an empty explicit-detail input for `target` without inventing missing content.
    pub fn empty(target: SenseContentTarget) -> (r: Self)
        ensures
            r.target == target,
            r.localized_glosses@.len() == 0,
            r.pronunciations@.len() == 0,
            r.usage_labels@.len() == 0,
            r.grammar_patterns@.len() == 0,
            r.collocations@.len() == 0,
            r.examples@.len() == 0,
            r.pitfalls@.len() == 0,
            r.etymologies@.len() == 0,
            r.history@.len() == 0,
    {
        CanonicalSenseDetailsInput {
            target,
            localized_glosses: Vec::new(),
            pronunciations: Vec::new(),
            usage_labels: Vec::new(),
            grammar_patterns: Vec::new(),
            collocations: Vec::new(),
            examples: Vec::new(),
            pitfalls: Vec::new(),
            etymologies: Vec::new(),
            history: Vec::new(),
        }
    }
}

/// The error the detail collections of `input` are refused with, if any, checked collection by
/// collection in declaration order.
pub open spec fn details_error(input: CanonicalSenseDetailsInput) -> Option<CanonicalContentValidationError> {

    if collection_error(input.target@, input.localized_glosses@) is Some {
        collection_error(input.target@, input.localized_glosses@)
    } else if collection_error(input.target@, input.pronunciations@) is Some {
        collection_error(input.target@, input.pronunciations@)
    } else if collection_error(input.target@, input.usage_labels@) is Some {
        collection_error(input.target@, input.usage_labels@)
    } else if collection_error(input.target@, input.grammar_patterns@) is Some {
        collection_error(input.target@, input.grammar_patterns@)
    } else if collection_error(input.target@, input.collocations@) is Some {
        collection_error(input.target@, input.collocations@)
    } else if collection_error(input.target@, input.examples@) is Some {
        collection_error(input.target@, input.examples@)
    } else if collection_error(input.target@, input.pitfalls@) is Some {
        collection_error(input.target@, input.pitfalls@)
    } else if collection_error(input.target@, input.etymologies@) is Some {
        collection_error(input.target@, input.etymologies@)
    } else if collection_error(input.target@, input.history@) is Some {
        collection_error(input.target@, input.history@)
    } else {
        None
    }
}

/// Bounded reviewed details attached to one canonical sense.
#[derive(Debug, Clone, PartialEq, Eq)]
pub struct CanonicalSenseDetails {
    target: SenseContentTarget,
    localized_glosses: Vec<LocalizedGloss>,
    pronunciations: Vec<CanonicalPronunciation>,
    usage_labels: Vec<UsageLabel>,
    grammar_patterns: Vec<GrammarPattern>,
    collocations: Vec<Collocation>,
    examples: Vec<CanonicalExample>,
    pitfalls: Vec<LearnerPitfall>,
    etymologies: Vec<EtymologyAssertion>,
    history: Vec<SenseHistoryAssertion>,
}

impl CanonicalSenseDetails {
    /// The `target` field.
    pub closed spec fn spec_target(&self) -> SenseContentTarget {
        self.target
    }

    /// The `localized_glosses` field.
    pub closed spec fn spec_localized_glosses(&self) -> Seq<LocalizedGloss> {
        self.localized_glosses@
    }

    /// The `pronunciations` field.
    pub closed spec fn spec_pronunciations(&self) -> Seq<CanonicalPronunciation> {
        self.pronunciations@
    }

    /// The `usage_labels` field.
    pub closed spec fn spec_usage_labels(&self) -> Seq<UsageLabel> {
        self.usage_labels@
    }

    /// The `grammar_patterns` field.
    pub closed spec fn spec_grammar_patterns(&self) -> Seq<GrammarPattern> {
        self.grammar_patterns@
    }

    /// The `collocations` field.
    pub closed spec fn spec_collocations(&self) -> Seq<Collocation> {
        self.collocations@
    }

    /// The `examples` field.
    pub closed spec fn spec_examples(&self) -> Seq<CanonicalExample> {
        self.examples@
    }

    /// The `pitfalls` field.
    pub closed spec fn spec_pitfalls(&self) -> Seq<LearnerPitfall> {
        self.pitfalls@
    }

    /// The `etymologies` field.
    pub closed spec fn spec_etymologies(&self) -> Seq<EtymologyAssertion> {
        self.etymologies@
    }

    /// The `history` field.
    pub closed spec fn spec_history(&self) -> Seq<SenseHistoryAssertion> {
        self.history@
    }

    /// Returns the canonical sense to which all contained details attach.
    pub fn target(&self) -> (r: &SenseContentTarget)
        ensures
            *r == self.spec_target(),
    {
        &self.target
    }

    /// Returns bounded localized-gloss assertions.
    pub fn localized_glosses(&self) -> (r: &[LocalizedGloss])
        ensures
            r@ == self.spec_localized_glosses(),
    {
        self.localized_glosses.as_slice()
    }

    /// Returns bounded pronunciation assertions.
    pub fn pronunciations(&self) -> (r: &[CanonicalPronunciation])
        ensures
            r@ == self.spec_pronunciations(),
    {
        self.pronunciations.as_slice()
    }

    /// Returns bounded usage-label assertions.
    pub fn usage_labels(&self) -> (r: &[UsageLabel])
        ensures
            r@ == self.spec_usage_labels(),
    {
        self.usage_labels.as_slice()
    }

    /// Returns bounded grammar-pattern assertions.
    pub fn grammar_patterns(&self) -> (r: &[GrammarPattern])
        ensures
            r@ == self.spec_grammar_patterns(),
    {
        self.grammar_patterns.as_slice()
    }

    /// Returns bounded collocation assertions.
    pub fn collocations(&self) -> (r: &[Collocation])
        ensures
            r@ == self.spec_collocations(),
    {
        self.collocations.as_slice()
    }

    /// Returns bounded canonical example assertions.
    pub fn examples(&self) -> (r: &[CanonicalExample])
        ensures
            r@ == self.spec_examples(),
    {
        self.examples.as_slice()
    }

    /// Returns bounded learner-pitfall assertions.
    pub fn pitfalls(&self) -> (r: &[LearnerPitfall])
        ensures
            r@ == self.spec_pitfalls(),
    {
        self.pitfalls.as_slice()
    }

    /// Returns bounded etymology assertions.
    pub fn etymologies(&self) -> (r: &[EtymologyAssertion])
        ensures
            r@ == self.spec_etymologies(),
    {
        self.etymologies.as_slice()
    }

    /// Returns bounded semantic-history assertions.
    pub fn history(&self) -> (r: &[SenseHistoryAssertion])
        ensures
            r@ == self.spec_history(),
    {
        self.history.as_slice()
    }


    /// Creates a bounded collection of typed canonical details for one sense.
    ///
    /// Each collection is independently bounded and must contain distinct IDs all tied to the
    /// same target. Absent sections stay absent: no substitute definition, example,
    /// pronunciation, or history field is generated.
    pub fn new(input: CanonicalSenseDetailsInput) -> (r: Result<Self, CanonicalContentValidationError>)
        ensures
            match details_error(input) {
                Some(e) => r == Err::<Self, _>(e),
                None => r matches Ok(d) && d.spec_target() == input.target && d.spec_localized_glosses() == input.localized_glosses@ && d.spec_pronunciations() == input.pronunciations@ && d.spec_usage_labels() == input.usage_labels@ && d.spec_grammar_patterns() == input.grammar_patterns@ && d.spec_collocations() == input.collocations@ && d.spec_examples() == input.examples@ && d.spec_pitfalls() == input.pitfalls@ && d.spec_etymologies() == input.etymologies@ && d.spec_history() == input.history@,
            },
    {
        let CanonicalSenseDetailsInput { target, localized_glosses, pronunciations, usage_labels, grammar_patterns, collocations, examples, pitfalls, etymologies, history } = input;
        match validate_detail_collection(&target, &localized_glosses) {
            Ok(()) => {},
            Err(e) => return Err(e),
        }
        match validate_detail_collection(&target, &pronunciations) {
            Ok(()) => {},
            Err(e) => return Err(e),
        }
        match validate_detail_collection(&target, &usage_labels) {
            Ok(()) => {},
            Err(e) => return Err(e),
        }
        match validate_detail_collection(&target, &grammar_patterns) {
            Ok(()) => {},
            Err(e) => return Err(e),
        }
        match validate_detail_collection(&target, &collocations) {
            Ok(()) => {},
            Err(e) => return Err(e),
        }
        match validate_detail_collection(&target, &examples) {
            Ok(()) => {},
            Err(e) => return Err(e),
        }
        match validate_detail_collection(&target, &pitfalls) {
            Ok(()) => {},
            Err(e) => return Err(e),
        }
        match validate_detail_collection(&target, &etymologies) {
            Ok(()) => {},
            Err(e) => return Err(e),
        }
        match validate_detail_collection(&target, &history) {
            Ok(()) => {},
            Err(e) => return Err(e),
        }
        Ok(CanonicalSenseDetails { target, localized_glosses, pronunciations, usage_labels, grammar_patterns, collocations, examples, pitfalls, etymologies, history })
    }

    /// Whether every detail may be served for a read of `sense_id` pinned to `release_id`.
    pub open spec fn spec_is_eligible_for(&self, release_id: Seq<char>, sense_id: Seq<char>, evidence_use: EvidenceUse) -> bool {
        &&& self.spec_target()@.release == release_id
        &&& self.spec_target()@.sense == sense_id
        &&& self.spec_target()@.lexeme_status == CanonicalStatus::Active
        &&& self.spec_target()@.sense_status == CanonicalStatus::Active
        &&& all_details_permit(self.spec_localized_glosses(), evidence_use) && all_details_permit(self.spec_pronunciations(), evidence_use) && all_details_permit(self.spec_usage_labels(), evidence_use) && all_details_permit(self.spec_grammar_patterns(), evidence_use) && all_details_permit(self.spec_collocations(), evidence_use) && all_details_permit(self.spec_examples(), evidence_use) && all_details_permit(self.spec_pitfalls(), evidence_use) && all_details_permit(self.spec_etymologies(), evidence_use) && all_details_permit(self.spec_history(), evidence_use)
    }

    /// Returns whether every detail is safe to serve for one pinned canonical sense read.
    ///
    /// The release and sense identifiers must match the aggregate target, both the owning
    /// lexeme and target sense must be active, and every factual assertion must permit
    /// `evidence_use` through its complete source and asset lineage. One inaccessible assertion
    /// makes the aggregate ineligible rather than silently omitting a section.
    pub fn is_eligible_for(&self, release_id: &ReleaseId, sense_id: &SenseId, evidence_use: EvidenceUse) -> (b: bool)
        ensures
            b == self.spec_is_eligible_for(release_id@, sense_id@, evidence_use),
    {
        self.target.release_id().same(release_id) && self.target.sense_id().same(sense_id)
            && self.target.is_lookup_eligible() && details_permit(&self.localized_glosses, evidence_use) && details_permit(&self.pronunciations, evidence_use) && details_permit(&self.usage_labels, evidence_use) && details_permit(&self.grammar_patterns, evidence_use) && details_permit(&self.collocations, evidence_use) && details_permit(&self.examples, evidence_use) && details_permit(&self.pitfalls, evidence_use) && details_permit(&self.etymologies, evidence_use) && details_permit(&self.history, evidence_use)
    }

}


/// Shape of a release-scoped canonical sense evolution.
#[derive(Debug, Clone, Copy, PartialEq, Eq, PartialOrd, Ord, Hash, Structural)]
pub enum SenseEvolutionKind {
    /// Exactly one retired sense is replaced by one successor sense.
    Replacement,
    /// Exactly one retired sense has several successor senses after a split.
    Split,
    /// Several retired senses are consolidated into exactly one successor sense.
    Merge,
    /// One or more retired senses have no compatible successor in the new release.
    Retirement,
}

/// Input fields for validating one release-scoped canonical sense-evolution mapping.
#[derive(Debug, Clone, PartialEq, Eq)]
pub struct SenseEvolutionMappingInput {
    /// Stable identifier for this canonical evolution record.
    pub id: SenseEvolutionId,
    /// Immutable release containing the retired sense identities.
    pub from_release_id: ReleaseId,
    /// Immutable later release containing successor sense identities.
    pub to_release_id: ReleaseId,
    /// Structural split, merge, replacement, or retirement classification.
    pub kind: SenseEvolutionKind,
    /// Editorial lifecycle state of the mapping in the successor release.
    pub status: CanonicalStatus,
    /// Retired sense IDs from `from_release_id`.
    pub retired_sense_ids: Vec<SenseId>,
    /// Replacement sense IDs from `to_release_id`.
    pub successor_sense_ids: Vec<SenseId>,
    /// Reviewed factual explanation and evidence for this canonical transition.
    pub assertion: CanonicalFactualAssertion,
}

/// The error one side of an evolution is refused with, if any.
pub open spec fn members_error(members: Seq<SenseId>) -> Option<CanonicalContentValidationError> {
    if members.len() > 16 {
        Some(CanonicalContentValidationError::TooManySenseEvolutionMembers)
    } else if !keys_distinct(members) {
        Some(CanonicalContentValidationError::DuplicateSenseEvolutionMember)
    } else {
        None
    }
}

/// Checks that one side of an evolution has at most 16 distinct members.
pub fn validate_evolution_members(members: &Vec<SenseId>) -> (r: Result<(), CanonicalContentValidationError>)
    ensures
        match members_error(members@) {
            Some(e) => r == Err::<(), _>(e),
            None => r is Ok,
        },
{
    if members.len() > MAX_SENSE_EVOLUTION_MEMBERS {
        return Err(CanonicalContentValidationError::TooManySenseEvolutionMembers);
    }
    if !no_duplicate_keys(members) {
        return Err(CanonicalContentValidationError::DuplicateSenseEvolutionMember);
    }
    Ok(())
}

/// Whether the member counts match the declared evolution kind.
pub open spec fn spec_shape_is_valid(kind: SenseEvolutionKind, retired: int, successors: int) -> bool {
    match kind {
        SenseEvolutionKind::Replacement => retired == 1 && successors == 1,
        SenseEvolutionKind::Split => retired == 1 && successors > 1,
        SenseEvolutionKind::Merge => retired > 1 && successors == 1,
        SenseEvolutionKind::Retirement => retired > 0 && successors == 0,
    }
}

/// Returns whether the member counts match the declared evolution kind.
pub fn evolution_shape_is_valid(kind: SenseEvolutionKind, retired_sense_ids: &Vec<SenseId>, successor_sense_ids: &Vec<SenseId>) -> (b: bool)
    ensures
        b == spec_shape_is_valid(kind, retired_sense_ids@.len() as int, successor_sense_ids@.len() as int),
{
    let r = retired_sense_ids.len();
    let s = successor_sense_ids.len();
    match kind {
        SenseEvolutionKind::Replacement => r == 1 && s == 1,
        SenseEvolutionKind::Split => r == 1 && s > 1,
        SenseEvolutionKind::Merge => r > 1 && s == 1,
        SenseEvolutionKind::Retirement => r > 0 && s == 0,
    }
}

/// Whether some retired sense is also listed as a successor.
pub open spec fn members_overlap(retired: Seq<SenseId>, successors: Seq<SenseId>) -> bool {
    exists|i: int| 0 <= i < retired.len() && has_key(successors, (#[trigger] retired[i])@)
}

/// The error an evolution mapping input is refused with, if any, checked in order: same
/// release on both sides, an assertion of another kind, release or status, an invalid retired
/// or successor side, a retired sense that is also a successor, and counts that do not match
/// the kind.
pub open spec fn evolution_error(input: SenseEvolutionMappingInput) -> Option<CanonicalContentValidationError> {
    if input.from_release_id@ == input.to_release_id@ {
        Some(CanonicalContentValidationError::EvolutionReleaseMismatch)
    } else if input.assertion.spec_kind() != CanonicalDetailKind::SenseEvolution
        || input.assertion.spec_release_id() != input.to_release_id@ || input.assertion.spec_status()
        != input.status {
        Some(CanonicalContentValidationError::EvolutionAssertionMismatch)
    } else if members_error(input.retired_sense_ids@) is Some {
        members_error(input.retired_sense_ids@)
    } else if members_error(input.successor_sense_ids@) is Some {
        members_error(input.successor_sense_ids@)
    } else if members_overlap(input.retired_sense_ids@, input.successor_sense_ids@) {
        Some(CanonicalContentValidationError::SelfSuccessor)
    } else if !spec_shape_is_valid(
        input.kind,
        input.retired_sense_ids@.len() as int,
        input.successor_sense_ids@.len() as int,
    ) {
        Some(CanonicalContentValidationError::InvalidSenseEvolutionShape)
    } else {
        None
    }
}

/// Reviewed mapping from retired canonical senses in one release to successors in another.
#[derive(Debug, Clone, PartialEq, Eq)]
pub struct SenseEvolutionMapping {
    id: SenseEvolutionId,
    from_release_id: ReleaseId,
    to_release_id: ReleaseId,
    kind: SenseEvolutionKind,
    status: CanonicalStatus,
    retired_sense_ids: Vec<SenseId>,
    successor_sense_ids: Vec<SenseId>,
    assertion: CanonicalFactualAssertion,
}

impl SenseEvolutionMapping {
    /// The `id` field.
    pub closed spec fn spec_id(&self) -> Seq<char> {
        self.id@
    }

    /// The `from_release_id` field.
    pub closed spec fn spec_from_release_id(&self) -> Seq<char> {
        self.from_release_id@
    }

    /// The `to_release_id` field.
    pub closed spec fn spec_to_release_id(&self) -> Seq<char> {
        self.to_release_id@
    }

    /// The `kind` field.
    pub closed spec fn spec_kind(&self) -> SenseEvolutionKind {
        self.kind
    }

    /// The `status` field.
    pub closed spec fn spec_status(&self) -> CanonicalStatus {
        self.status
    }

    /// The `retired_sense_ids` field.
    pub closed spec fn spec_retired_sense_ids(&self) -> Seq<SenseId> {
        self.retired_sense_ids@
    }

    /// The `successor_sense_ids` field.
    pub closed spec fn spec_successor_sense_ids(&self) -> Seq<SenseId> {
        self.successor_sense_ids@
    }

    /// The `assertion` field.
    pub closed spec fn spec_assertion(&self) -> CanonicalFactualAssertion {
        self.assertion
    }

    /// Returns the stable evolution-mapping identifier.
    pub fn id(&self) -> (r: &SenseEvolutionId)
        ensures
            r@ == self.spec_id(),
    {
        &self.id
    }

    /// Returns the immutable release containing the retired senses.
    pub fn from_release_id(&self) -> (r: &ReleaseId)
        ensures
            r@ == self.spec_from_release_id(),
    {
        &self.from_release_id
    }

    /// Returns the immutable successor release selected by this mapping.
    pub fn to_release_id(&self) -> (r: &ReleaseId)
        ensures
            r@ == self.spec_to_release_id(),
    {
        &self.to_release_id
    }

    /// Returns the split, merge, replacement, or retirement shape.
    pub fn kind(&self) -> (r: SenseEvolutionKind)
        ensures
            r == self.spec_kind(),
    {
        self.kind
    }

    /// Returns the lifecycle state of this canonical evolution assertion.
    pub fn status(&self) -> (r: CanonicalStatus)
        ensures
            r == self.spec_status(),
    {
        self.status
    }

    /// Returns bounded retired sense identifiers from the prior release.
    pub fn retired_sense_ids(&self) -> (r: &[SenseId])
        ensures
            r@ == self.spec_retired_sense_ids(),
    {
        self.retired_sense_ids.as_slice()
    }

    /// Returns bounded successor sense identifiers in the later release.
    pub fn successor_sense_ids(&self) -> (r: &[SenseId])
        ensures
            r@ == self.spec_successor_sense_ids(),
    {
        self.successor_sense_ids.as_slice()
    }

    /// Returns the factual mapping explanation and its evidence lineage.
    pub fn assertion(&self) -> (r: &CanonicalFactualAssertion)
        ensures
            *r == self.spec_assertion(),
    {
        &self.assertion
    }


    /// Creates a bounded release-scoped replacement, split, merge, or retirement mapping.
    ///
    /// The mapping is canonical evidence for a content transition, not a private learner-state
    /// mutation; saved vocabulary can later consume a one-to-one mapping or pause safely for an
    /// ambiguous split.
    #[verifier::loop_isolation(false)]
    pub fn new(input: SenseEvolutionMappingInput) -> (r: Result<Self, CanonicalContentValidationError>)
        ensures
            match evolution_error(input) {
                Some(e) => r == Err::<Self, _>(e),
                None => r matches Ok(m) && m.spec_id() == input.id@ && m.spec_from_release_id()
                    == input.from_release_id@ && m.spec_to_release_id() == input.to_release_id@
                    && m.spec_kind() == input.kind && m.spec_status() == input.status
                    && m.spec_retired_sense_ids() == input.retired_sense_ids@
                    && m.spec_successor_sense_ids() == input.successor_sense_ids@ && m.spec_assertion()
                    == input.assertion,
            },
    {
        let SenseEvolutionMappingInput {
            id,
            from_release_id,
            to_release_id,
            kind,
            status,
            retired_sense_ids,
            successor_sense_ids,
            assertion,
        } = input;
        if from_release_id.same(&to_release_id) {
            return Err(CanonicalContentValidationError::EvolutionReleaseMismatch);
        }
        if assertion.kind() != CanonicalDetailKind::SenseEvolution || !assertion.release_id().same(&to_release_id)
            || assertion.status() != status {
            return Err(CanonicalContentValidationError::EvolutionAssertionMismatch);
        }
        match validate_evolution_members(&retired_sense_ids) {
            Ok(()) => {},
            Err(e) => return Err(e),
        }
        match validate_evolution_members(&successor_sense_ids) {
            Ok(()) => {},
            Err(e) => return Err(e),
        }
        let mut i: usize = 0;
        while i < retired_sense_ids.len()
            invariant
                i <= retired_sense_ids.len(),
                forall|k: int| 0 <= k < i ==> !has_key(successor_sense_ids@, (#[trigger] retired_sense_ids@[k])@),
            decreases retired_sense_ids.len() - i,
        {
            if crate::keyed::contains_key(&successor_sense_ids, retired_sense_ids[i].as_str()) {
                assert(members_overlap(retired_sense_ids@, successor_sense_ids@));
                return Err(CanonicalContentValidationError::SelfSuccessor);
            }
            i += 1;
        }
        if !evolution_shape_is_valid(kind, &retired_sense_ids, &successor_sense_ids) {
            return Err(CanonicalContentValidationError::InvalidSenseEvolutionShape);
        }
        Ok(SenseEvolutionMapping {
            id,
            from_release_id,
            to_release_id,
            kind,
            status,
            retired_sense_ids,
            successor_sense_ids,
            assertion,
        })
    }

}

} // verus!
