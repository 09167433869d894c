//! Deterministic canonical-retrieval requests, candidates, and fusion.

use crate::domain::canonical::{
    EvidenceConfidence, EvidenceKind, LexicalPartOfSpeech, normalize_lookup_key, ActiveContentVersion, CanonicalStatus, EvidenceFragment, EvidenceId,
    EvidenceUse, FormKind, LanguageTag, Lexeme, ReleaseId, Sense, SenseId, VectorCollectionId,
    WordForm,
};
use crate::keyed::{compare_text, Comparison, keys_of, lemma_text_lt_asymmetric, lemma_text_lt_irreflexive, lemma_text_lt_total, lemma_text_lt_transitive, text_lt};
use crate::text::{lowercase_all, nfc, trim};
use vstd::prelude::*;

verus! {

/// Default maximum number of ranked candidates returned by a retrieval request.
pub const DEFAULT_RETRIEVAL_LIMIT: usize = 12;

/// Largest candidate limit accepted by the retrieval foundation.
pub const MAX_RETRIEVAL_LIMIT: usize = 50;

/// Largest valid score represented in basis points.
pub const MAX_SCORE_BASIS_POINTS: u16 = 10_000;

/// Retrieval path used to create a deterministic canonical candidate list.
///
/// This is a domain outcome rather than an infrastructure health signal: a lexical-only result
/// remains valid canonical output, while callers may surface its vector degradation.
#[derive(Debug, Clone, Copy, PartialEq, Eq, Hash, Structural)]
pub enum RetrievalPath {
    /// Pinned vector retrieval completed; eligible vector signals were fused with lexical
    /// signals.
    Hybrid,
    /// The derived vector dependency failed, so canonical lexical retrieval continued alone.
    LexicalFallback,
}

/// Validation failure for a retrieval request or score.
#[derive(Debug, Clone, Copy, PartialEq, Eq, Structural)]
pub enum RetrievalValidationError {
    /// The normalized lookup query was blank.
    BlankQuery,
    /// The requested candidate limit was outside the bounded retrieval range.
    InvalidLimit,
    /// A normalized score was larger than one.
    InvalidScore,
}

impl RetrievalValidationError {
    /// Human-readable description of the failure.
    pub fn message(&self) -> (r: &'static str)
        ensures
            r@ == match *self {
                RetrievalValidationError::BlankQuery => "retrieval query must not be blank"@,
                RetrievalValidationError::InvalidLimit => "retrieval limit must be between 1 and 50"@,
                RetrievalValidationError::InvalidScore => "retrieval score must be at most 10000 basis points"@,
            },
    {
        match self {
            RetrievalValidationError::BlankQuery => "retrieval query must not be blank",
            RetrievalValidationError::InvalidLimit => "retrieval limit must be between 1 and 50",
            RetrievalValidationError::InvalidScore => "retrieval score must be at most 10000 basis points",
        }
    }
}

/// A normalized deterministic ranking signal represented in basis points.
#[derive(Debug, Clone, Copy, PartialEq, Eq, PartialOrd, Ord, Hash, Structural)]
pub struct RetrievalScore(u16);

impl RetrievalScore {
    /// The score in basis points.
    pub closed spec fn spec_basis_points(self) -> u16 {
        self.0
    }

    /// Creates a normalized score from zero through 10,000 basis points.
    pub fn new(basis_points: u16) -> (r: Result<Self, RetrievalValidationError>)
        ensures
            match r {
                Ok(s) => basis_points <= 10_000 && s.spec_basis_points() == basis_points,
                Err(e) => basis_points > 10_000 && e == RetrievalValidationError::InvalidScore,
            },
    {
        if basis_points > MAX_SCORE_BASIS_POINTS {
            return Err(RetrievalValidationError::InvalidScore);
        }
        Ok(RetrievalScore(basis_points))
    }

    /// Returns a score representing an exact deterministic match.
    pub fn exact() -> (r: Self)
        ensures
            r.spec_basis_points() == 10_000,
    {
        RetrievalScore(MAX_SCORE_BASIS_POINTS)
    }

    /// Returns the score in basis points.
    pub fn basis_points(self) -> (r: u16)
        ensures
            r == self.spec_basis_points(),
    {
        self.0
    }
}

/// A score is determined by its basis points.
pub proof fn lemma_score_determined(a: RetrievalScore, b: RetrievalScore)
    requires
        a.spec_basis_points() == b.spec_basis_points(),
    ensures
        a == b,
{
}

/// The lookup key that `normalize_lookup_key` produces for `query`.
pub open spec fn normalized_query(query: Seq<char>) -> Seq<char> {
    lowercase_all(nfc(trim(query)))
}

/// Bounded, normalized request for canonical retrieval.
#[derive(Debug, Clone, PartialEq, Eq)]
pub struct RetrievalRequest {
    /// NFC and case-normalized query used only for retrieval, never telemetry.
    pub query: String,
    /// Language in which the query must be resolved.
    pub language: LanguageTag,
    /// Operation for which source permissions must be enforced.
    pub evidence_use: EvidenceUse,
    /// Maximum number of ranked canonical senses to return.
    pub limit: usize,
}

impl RetrievalRequest {
    /// Validates and normalizes a bounded canonical retrieval request.
    ///
    /// Returns `BlankQuery` when the normalized query is empty, which is exactly when the
    /// query is empty or whitespace only, and `InvalidLimit` for a limit outside 1..=50, in
    /// that order.
    pub fn new(query: &str, language: LanguageTag, evidence_use: EvidenceUse, limit: usize) -> (r: Result<Self, RetrievalValidationError>)
        ensures
            normalized_query(query@).len() == 0 <==> trim(query@).len() == 0,
            normalized_query(query@).len() == 0 ==> r == Err::<Self, _>(RetrievalValidationError::BlankQuery),
            normalized_query(query@).len() > 0 && !(1 <= limit <= 50) ==> r == Err::<Self, _>(
                RetrievalValidationError::InvalidLimit,
            ),
            r is Ok <==> (normalized_query(query@).len() > 0 && 1 <= limit <= 50),
            r matches Ok(q) ==> q.query@ == normalized_query(query@) && q.language == language
                && q.evidence_use == evidence_use && q.limit == limit,
    {
        let query = normalize_lookup_key(query);
        if query.as_str().is_empty() {
            return Err(RetrievalValidationError::BlankQuery);
        }
        if limit < 1 || limit > MAX_RETRIEVAL_LIMIT {
            return Err(RetrievalValidationError::InvalidLimit);
        }
        Ok(RetrievalRequest { query, language, evidence_use, limit })
    }

    /// Creates a public-API retrieval request with the default candidate limit of 12.
    pub fn for_public_api(query: &str, language: LanguageTag) -> (r: Result<Self, RetrievalValidationError>)
        ensures
            normalized_query(query@).len() == 0 <==> trim(query@).len() == 0,
            normalized_query(query@).len() == 0 ==> r == Err::<Self, _>(RetrievalValidationError::BlankQuery),
            r is Ok <==> normalized_query(query@).len() > 0,
            r matches Ok(q) ==> q.query@ == normalized_query(query@) && q.language == language
                && q.evidence_use == EvidenceUse::ApiRedistribution && q.limit == 12,
    {
        Self::new(query, language, EvidenceUse::ApiRedistribution, DEFAULT_RETRIEVAL_LIMIT)
    }
}

/// Repository query pinned to one active lexical and vector content version.
#[derive(Debug, Clone, PartialEq, Eq)]
pub struct LexicalSearchRequest {
    /// Caller request after validation and normalization.
    pub retrieval: RetrievalRequest,
    /// Exact release and vector version selected before retrieval begins.
    pub content: ActiveContentVersion,
}

/// Repository request that hydrates a bounded set of sense IDs into canonical candidates.
#[derive(Debug, Clone, PartialEq, Eq)]
pub struct CandidateLoadRequest {
    /// Exact release whose canonical entities may be loaded.
    pub release_id: ReleaseId,
    /// Source permission operation that hydrated evidence must satisfy.
    pub evidence_use: EvidenceUse,
    /// Stable sense identifiers requested from vector retrieval.
    pub sense_ids: Vec<SenseId>,
}

/// Lexical retrieval signal produced by an exact, morphology, or full-text index.
#[derive(Debug, Clone, Copy, PartialEq, Eq, PartialOrd, Ord, Hash, Structural)]
pub enum LexicalMatchKind {
    /// Query matched an exact stored surface form or spelling variant.
    ExactForm,
    /// Query matched a stored multi-token expression.
    Phrase,
    /// Query matched a canonical lemma.
    Lemma,
    /// Query resolved through an inflection or morphology analysis.
    Morphology,
    /// Query matched a language-aware full-text index.
    FullText,
}

/// Vector record purpose, kept separate to prevent unrelated embeddings from being mixed.
#[derive(Debug, Clone, Copy, PartialEq, Eq, PartialOrd, Ord, Hash, Structural)]
pub enum VectorPurpose {
    /// Canonical English sense definition embedding.
    CanonicalEnglishSense,
    /// Localized gloss embedding for one content language.
    LocalizedGloss,
    /// Independently citable evidence-fragment embedding.
    EvidenceFragment,
}

/// One entity returned by a filtered vector query.
#[derive(Debug, Clone, PartialEq, Eq, PartialOrd, Ord)]
pub enum VectorTarget {
    /// A canonical sense eligible for hybrid candidate fusion.
    Sense(SenseId),
    /// An evidence fragment reserved for future evidence-pack retrieval.
    Evidence(EvidenceId),
}

impl VectorTarget {
    /// Returns the sense ID when this target can be fused into a canonical candidate.
    pub fn sense_id(&self) -> (r: Option<&SenseId>)
        ensures
            match self {
                VectorTarget::Sense(s) => r == Some(s),
                VectorTarget::Evidence(_) => r is None,
            },
    {
        match self {
            VectorTarget::Sense(sense_id) => Some(sense_id),
            VectorTarget::Evidence(_) => None,
        }
    }
}

/// Mandatory release and metadata filters for one vector query.
#[derive(Debug, Clone, PartialEq, Eq)]
pub struct VectorSearchRequest {
    /// Normalized query text passed to the embedding or vector adapter.
    pub query: String,
    /// Lexical release to which every returned record must belong.
    pub release_id: ReleaseId,
    /// Immutable vector collection version to search.
    pub vector_collection_id: VectorCollectionId,
    /// Logical vector record purpose.
    pub purpose: VectorPurpose,
    /// Language of the embedded record's content.
    pub content_language: LanguageTag,
    /// Maximum number of records requested from this logical collection.
    pub limit: usize,
}

/// One scored vector result with its required version metadata.
#[derive(Debug, Clone, PartialEq, Eq, PartialOrd, Ord)]
pub struct VectorMatch {
    /// Sense or evidence entity identified by the vector record.
    pub target: VectorTarget,
    /// Vector similarity normalized by the adapter for this collection version.
    pub score: RetrievalScore,
    /// Lexical release recorded in the vector payload.
    pub release_id: ReleaseId,
    /// Immutable vector collection recorded in the vector payload.
    pub vector_collection_id: VectorCollectionId,
    /// Logical record purpose recorded in the vector payload.
    pub purpose: VectorPurpose,
    /// Language of the embedded record recorded in the vector payload.
    pub content_language: LanguageTag,
}

impl VectorMatch {
    /// Returns whether this result exactly satisfies all required vector-query filters.
    pub fn matches_request(&self, request: &VectorSearchRequest) -> (b: bool)
        ensures
            b == (self.release_id@ == request.release_id@ && self.vector_collection_id@
                == request.vector_collection_id@ && self.purpose == request.purpose
                && self.content_language@ == request.content_language@),
    {
        self.release_id.same(&request.release_id) && self.vector_collection_id.same(&request.vector_collection_id)
            && self.purpose == request.purpose && self.content_language.same(&request.content_language)
    }
}

/// Canonical data required to render or further enrich one sense candidate.
#[derive(Debug, Clone, PartialEq, Eq, PartialOrd, Ord)]
pub struct CanonicalCandidate {
    /// Lexeme that owns the candidate sense.
    pub lexeme: Lexeme,
    /// One specific meaning of the lexeme.
    pub sense: Sense,
    /// Stored forms that contributed to the retrieval decision.
    pub forms: Vec<WordForm>,
    /// Permitted evidence available to support the sense definition.
    pub evidence: Vec<EvidenceFragment>,
}

/// The first fragment of `evidence` whose identifier is `id`.
pub open spec fn find_fragment(evidence: Seq<EvidenceFragment>, id: Seq<char>) -> Option<EvidenceFragment>
    decreases evidence.len(),
{
    if evidence.len() == 0 {
        None
    } else if evidence[0].id@ == id {
        Some(evidence[0])
    } else {
        find_fragment(evidence.drop_first(), id)
    }
}

/// Whether the first fragment with identifier `id` exists and permits `evidence_use` in the
/// release named `release_id`.
pub open spec fn cited_evidence_permits(
    evidence: Seq<EvidenceFragment>,
    id: Seq<char>,
    release_id: Seq<char>,
    evidence_use: EvidenceUse,
) -> bool {
    find_fragment(evidence, id) matches Some(f) && f.spec_permits(release_id, evidence_use)
}

/// Whether every cited evidence identifier resolves to a permitting fragment.
pub open spec fn all_cited_permit(
    ids: Seq<EvidenceId>,
    evidence: Seq<EvidenceFragment>,
    release_id: Seq<char>,
    evidence_use: EvidenceUse,
) -> bool {
    forall|k: int| 0 <= k < ids.len() ==> cited_evidence_permits(evidence, (#[trigger] ids[k])@, release_id, evidence_use)
}

/// Whether a candidate is active, internally consistent, and fully permitted in the release
/// named `release_id`: lexeme and sense in that release and linked, both active, every form
/// of that lexeme and release and active with every cited fragment permitting the use, and
/// every fragment cited by the definition permitting it.
pub open spec fn candidate_is_eligible(c: CanonicalCandidate, release_id: Seq<char>, evidence_use: EvidenceUse) -> bool {
    &&& c.lexeme.release_id@ == release_id
    &&& c.sense.release_id@ == release_id
    &&& c.lexeme.id@ == c.sense.lexeme_id@
    &&& c.lexeme.status == CanonicalStatus::Active
    &&& c.sense.status == CanonicalStatus::Active
    &&& forall|k: int| 0 <= k < c.forms@.len() ==> {
        let f = #[trigger] c.forms@[k];
        &&& f.lexeme_id@ == c.lexeme.id@
        &&& f.release_id@ == release_id
        &&& f.status == CanonicalStatus::Active
        &&& all_cited_permit(f.evidence_ids@, c.evidence@, release_id, evidence_use)
    }
    &&& all_cited_permit(c.sense.definition_evidence_ids@, c.evidence@, release_id, evidence_use)
}

fn cited_permits(evidence: &Vec<EvidenceFragment>, id: &EvidenceId, release_id: &ReleaseId, evidence_use: EvidenceUse) -> (b: bool)
    ensures
        b == cited_evidence_permits(evidence@, id@, release_id@, evidence_use),
{
    let mut i: usize = 0;
    assert(evidence@.skip(0) =~= evidence@);
    while i < evidence.len()
        invariant
            i <= evidence.len(),
            find_fragment(evidence@, id@) == find_fragment(evidence@.skip(i as int), id@),
        decreases evidence.len() - i,
    {
        proof {
            assert(evidence@.skip(i as int).drop_first() =~= evidence@.skip(i + 1));
        }
        if evidence[i].id.same(id) {
            return evidence[i].permits(release_id, evidence_use);
        }
        i += 1;
    }
    false
}

fn all_cited(ids: &Vec<EvidenceId>, evidence: &Vec<EvidenceFragment>, release_id: &ReleaseId, evidence_use: EvidenceUse) -> (b: bool)
    ensures
        b == all_cited_permit(ids@, evidence@, release_id@, evidence_use),
{
    let mut k: usize = 0;
    while k < ids.len()
        invariant
            k <= ids.len(),
            forall|q: int| 0 <= q < k ==> cited_evidence_permits(evidence@, (#[trigger] ids@[q])@, release_id@, evidence_use),
        decreases ids.len() - k,
    {
        if !cited_permits(evidence, &ids[k], release_id, evidence_use) {
            return false;
        }
        k += 1;
    }
    true
}

impl CanonicalCandidate {
    /// Returns whether this candidate is active, internally consistent, and fully permitted.
    pub fn is_eligible_for(&self, release_id: &ReleaseId, evidence_use: EvidenceUse) -> (b: bool)
        ensures
            b == candidate_is_eligible(*self, release_id@, evidence_use),
    {
        if !(self.lexeme.release_id.same(release_id) && self.sense.release_id.same(release_id)
            && self.lexeme.id.same(&self.sense.lexeme_id) && self.lexeme.status.is_lookup_eligible()
            && self.sense.status.is_lookup_eligible()) {
            return false;
        }
        let mut i: usize = 0;
        while i < self.forms.len()
            invariant
                i <= self.forms.len(),
                forall|k: int| 0 <= k < i ==> {
                    let f = #[trigger] self.forms@[k];
                    &&& f.lexeme_id@ == self.lexeme.id@
                    &&& f.release_id@ == release_id@
                    &&& f.status == CanonicalStatus::Active
                    &&& all_cited_permit(f.evidence_ids@, self.evidence@, release_id@, evidence_use)
                },
            decreases self.forms.len() - i,
        {
            let f = &self.forms[i];
            if !(f.lexeme_id.same(&self.lexeme.id) && f.release_id.same(release_id) && f.status.is_lookup_eligible()
                && all_cited(&f.evidence_ids, &self.evidence, release_id, evidence_use)) {
                return false;
            }
            i += 1;
        }
        all_cited(&self.sense.definition_evidence_ids, &self.evidence, release_id, evidence_use)
    }
}


/// One component of the derived order of a canonical record: a text, a rank of an enum
/// variant or a flag, a list of identifiers, or an optional text.
pub enum OrderAtom {
    /// Text compared in code-point order.
    Text(Seq<char>),
    /// A variant position or a flag (`false` before `true`).
    Rank(int),
    /// Identifiers compared lexicographically.
    Texts(Seq<Seq<char>>),
    /// An optional text; `None` sorts first.
    OptText(Option<Seq<char>>),
}

/// Lexicographic order of lists of texts.
pub open spec fn texts_lt(a: Seq<Seq<char>>, b: Seq<Seq<char>>) -> bool
    decreases a.len(),
{
    if a.len() == 0 {
        b.len() > 0
    } else if b.len() == 0 {
        false
    } else if a[0] != b[0] {
        text_lt(a[0], b[0])
    } else {
        texts_lt(a.drop_first(), b.drop_first())
    }
}

/// Position of an atom's kind; atoms of different kinds never meet at one position of a
/// record, and are ordered by kind only to make the order total.
pub open spec fn atom_kind_rank(a: OrderAtom) -> int {
    match a {
        OrderAtom::Text(_) => 0,
        OrderAtom::Rank(_) => 1,
        OrderAtom::Texts(_) => 2,
        OrderAtom::OptText(_) => 3,
    }
}

/// The order of atoms: by value within a kind.
pub open spec fn atom_lt(a: OrderAtom, b: OrderAtom) -> bool {
    match (a, b) {
        (OrderAtom::Text(x), OrderAtom::Text(y)) => text_lt(x, y),
        (OrderAtom::Rank(x), OrderAtom::Rank(y)) => x < y,
        (OrderAtom::Texts(x), OrderAtom::Texts(y)) => texts_lt(x, y),
        (OrderAtom::OptText(x), OrderAtom::OptText(y)) => match (x, y) {
            (None, Some(_)) => true,
            (Some(p), Some(q)) => text_lt(p, q),
            _ => false,
        },
        _ => atom_kind_rank(a) < atom_kind_rank(b),
    }
}

/// Lexicographic order of atom sequences.
pub open spec fn atoms_lt(a: Seq<OrderAtom>, b: Seq<OrderAtom>) -> bool
    decreases a.len(),
{
    if a.len() == 0 {
        b.len() > 0
    } else if b.len() == 0 {
        false
    } else if a[0] != b[0] {
        atom_lt(a[0], b[0])
    } else {
        atoms_lt(a.drop_first(), b.drop_first())
    }
}

/// Lexicographic order of lists of records, each given by its atoms.
pub open spec fn rows_lt(a: Seq<Seq<OrderAtom>>, b: Seq<Seq<OrderAtom>>) -> bool
    decreases a.len(),
{
    if a.len() == 0 {
        b.len() > 0
    } else if b.len() == 0 {
        false
    } else if a[0] != b[0] {
        atoms_lt(a[0], b[0])
    } else {
        rows_lt(a.drop_first(), b.drop_first())
    }
}

/// An atom built from a record's fields.
pub enum KeyAtom<'a> {
    /// A text.
    Text(&'a str),
    /// A rank.
    Rank(u8),
    /// A list of identifiers.
    Texts(&'a [EvidenceId]),
    /// An optional text.
    OptText(Option<&'a str>),
}

impl<'a> View for KeyAtom<'a> {
    type V = OrderAtom;

    open spec fn view(&self) -> OrderAtom {
        match self {
            KeyAtom::Text(t) => OrderAtom::Text(t@),
            KeyAtom::Rank(r) => OrderAtom::Rank(*r as int),
            KeyAtom::Texts(ids) => OrderAtom::Texts(keys_of(ids@)),
            KeyAtom::OptText(o) => OrderAtom::OptText(
                match o {
                    Some(t) => Some(t@),
                    None => None,
                },
            ),
        }
    }
}

/// The atoms of a built key.
pub open spec fn atom_views<'a>(s: Seq<KeyAtom<'a>>) -> Seq<OrderAtom> {
    Seq::new(s.len(), |i: int| s[i]@)
}

/// The rank of a flag: `false` before `true`.
pub open spec fn flag_rank(b: bool) -> int {
    if b {
        1
    } else {
        0
    }
}

fn flag_position(b: bool) -> (r: u8)
    ensures
        r == flag_rank(b),
{
    if b {
        1
    } else {
        0
    }
}

proof fn lemma_texts_lt_props(a: Seq<Seq<char>>, b: Seq<Seq<char>>)
    ensures
        !texts_lt(a, a),
        texts_lt(a, b) ==> !texts_lt(b, a),
        a == b || texts_lt(a, b) || texts_lt(b, a),
    decreases a.len(),
{
    if a.len() > 0 {
        lemma_texts_lt_props(a.drop_first(), a.drop_first());
        lemma_text_lt_irreflexive(a[0]);
    }
    if a.len() > 0 && b.len() > 0 {
        if a[0] == b[0] {
            lemma_texts_lt_props(a.drop_first(), b.drop_first());
            if a.drop_first() == b.drop_first() {
                assert(a =~= seq![a[0]] + a.drop_first());
                assert(b =~= seq![b[0]] + b.drop_first());
            }
        } else {
            lemma_text_lt_total(a[0], b[0]);
            if text_lt(a[0], b[0]) {
                lemma_text_lt_asymmetric(a[0], b[0]);
            }
        }
    } else if a.len() == 0 && b.len() == 0 {
        assert(a =~= b);
    }
}

proof fn lemma_atom_lt_props(a: OrderAtom, b: OrderAtom)
    ensures
        !atom_lt(a, a),
        atom_lt(a, b) ==> !atom_lt(b, a),
        a == b || atom_lt(a, b) || atom_lt(b, a),
{
    match a {
        OrderAtom::Text(x) => lemma_text_lt_irreflexive(x),
        OrderAtom::Texts(x) => lemma_texts_lt_props(x, x),
        OrderAtom::OptText(Some(p)) => lemma_text_lt_irreflexive(p),
        _ => {},
    }
    match (a, b) {
        (OrderAtom::Text(x), OrderAtom::Text(y)) => {
            lemma_text_lt_irreflexive(x);
            lemma_text_lt_total(x, y);
            if text_lt(x, y) {
                lemma_text_lt_asymmetric(x, y);
            }
        },
        (OrderAtom::Texts(x), OrderAtom::Texts(y)) => {
            lemma_texts_lt_props(x, y);
        },
        (OrderAtom::OptText(x), OrderAtom::OptText(y)) => {
            match (x, y) {
                (Some(p), Some(q)) => {
                    lemma_text_lt_irreflexive(p);
                    lemma_text_lt_total(p, q);
                    if text_lt(p, q) {
                        lemma_text_lt_asymmetric(p, q);
                    }
                },
                (Some(p), None) => {
                    lemma_text_lt_irreflexive(p);
                },
                _ => {},
            }
        },
        _ => {},
    }
}

proof fn lemma_atoms_lt_props(a: Seq<OrderAtom>, b: Seq<OrderAtom>)
    ensures
        !atoms_lt(a, a),
        atoms_lt(a, b) ==> !atoms_lt(b, a),
        a == b || atoms_lt(a, b) || atoms_lt(b, a),
    decreases a.len(),
{
    if a.len() > 0 {
        lemma_atom_lt_props(a[0], a[0]);
        lemma_atoms_lt_props(a.drop_first(), a.drop_first());
    }
    if a.len() > 0 && b.len() > 0 {
        lemma_atom_lt_props(a[0], b[0]);
        if a[0] == b[0] {
            lemma_atoms_lt_props(a.drop_first(), b.drop_first());
            if a.drop_first() == b.drop_first() {
                assert(a =~= seq![a[0]] + a.drop_first());
                assert(b =~= seq![b[0]] + b.drop_first());
            }
        }
    } else if a.len() == 0 && b.len() == 0 {
        assert(a =~= b);
    }
}

fn compare_id_lists(a: &[EvidenceId], b: &[EvidenceId]) -> (r: Comparison)
    ensures
        (r == Comparison::Before) == texts_lt(keys_of(a@), keys_of(b@)),
        (r == Comparison::After) == texts_lt(keys_of(b@), keys_of(a@)),
        (r == Comparison::Same) == (keys_of(a@) == keys_of(b@)),
{
    let ghost ka = keys_of(a@);
    let ghost kb = keys_of(b@);
    proof {
        lemma_texts_lt_props(ka, kb);
        assert(ka.skip(0) =~= ka);
        assert(kb.skip(0) =~= kb);
    }
    let mut i: usize = 0;
    while i < a.len() && i < b.len()
        invariant
            i <= a.len(),
            i <= b.len(),
            ka == keys_of(a@),
            kb == keys_of(b@),
            ka.take(i as int) == kb.take(i as int),
            texts_lt(ka, kb) == texts_lt(ka.skip(i as int), kb.skip(i as int)),
            texts_lt(kb, ka) == texts_lt(kb.skip(i as int), ka.skip(i as int)),
        decreases a.len() - i,
    {
        let c = compare_text(a[i].as_str(), b[i].as_str());
        proof {
            assert(ka.skip(i as int)[0] == ka[i as int]);
            assert(kb.skip(i as int)[0] == kb[i as int]);
        }
        match c {
            Comparison::Same => {},
            _ => {
                proof {
                    if ka == kb {
                        assert(ka[i as int] == kb[i as int]);
                    }
                }
                return c;
            },
        }
        proof {
            assert(ka.skip(i as int).drop_first() =~= ka.skip(i + 1));
            assert(kb.skip(i as int).drop_first() =~= kb.skip(i + 1));
            assert(ka.take(i + 1) =~= ka.take(i as int).push(ka[i as int]));
            assert(kb.take(i + 1) =~= kb.take(i as int).push(kb[i as int]));
        }
        i += 1;
    }
    proof {
        if i == a.len() && i == b.len() {
            assert(ka =~= ka.take(i as int));
            assert(kb =~= kb.take(i as int));
        }
        if ka == kb {
            assert(a.len() == b.len());
        }
    }
    if i < b.len() {
        Comparison::Before
    } else if i < a.len() {
        Comparison::After
    } else {
        Comparison::Same
    }
}

fn compare_atom(a: &KeyAtom, b: &KeyAtom) -> (r: Comparison)
    ensures
        (r == Comparison::Before) == atom_lt(a@, b@),
        (r == Comparison::After) == atom_lt(b@, a@),
        (r == Comparison::Same) == (a@ == b@),
{
    proof {
        lemma_atom_lt_props(a@, b@);
    }
    match (a, b) {
        (KeyAtom::Text(x), KeyAtom::Text(y)) => compare_text(x, y),
        (KeyAtom::Rank(x), KeyAtom::Rank(y)) => {
            if *x < *y {
                Comparison::Before
            } else if *y < *x {
                Comparison::After
            } else {
                Comparison::Same
            }
        },
        (KeyAtom::Texts(x), KeyAtom::Texts(y)) => compare_id_lists(x, y),
        (KeyAtom::OptText(x), KeyAtom::OptText(y)) => match (x, y) {
            (None, None) => Comparison::Same,
            (None, Some(_)) => Comparison::Before,
            (Some(_), None) => Comparison::After,
            (Some(p), Some(q)) => compare_text(p, q),
        },
        _ => {
            let ka = atom_kind_position(a);
            let kb = atom_kind_position(b);
            if ka < kb {
                Comparison::Before
            } else {
                Comparison::After
            }
        },
    }
}

fn atom_kind_position(a: &KeyAtom) -> (r: u8)
    ensures
        r == atom_kind_rank(a@),
{
    match a {
        KeyAtom::Text(_) => 0,
        KeyAtom::Rank(_) => 1,
        KeyAtom::Texts(_) => 2,
        KeyAtom::OptText(_) => 3,
    }
}

/// Three-way lexicographic comparison of two keys.
fn compare_keys(a: &Vec<KeyAtom>, b: &Vec<KeyAtom>) -> (r: Comparison)
    ensures
        (r == Comparison::Before) == atoms_lt(atom_views(a@), atom_views(b@)),
        (r == Comparison::After) == atoms_lt(atom_views(b@), atom_views(a@)),
        (r == Comparison::Same) == (atom_views(a@) == atom_views(b@)),
{
    let ghost ka = atom_views(a@);
    let ghost kb = atom_views(b@);
    proof {
        lemma_atoms_lt_props(ka, kb);
        assert(ka.skip(0) =~= ka);
        assert(kb.skip(0) =~= kb);
    }
    let mut i: usize = 0;
    while i < a.len() && i < b.len()
        invariant
            i <= a.len(),
            i <= b.len(),
            ka == atom_views(a@),
            kb == atom_views(b@),
            ka.take(i as int) == kb.take(i as int),
            atoms_lt(ka, kb) == atoms_lt(ka.skip(i as int), kb.skip(i as int)),
            atoms_lt(kb, ka) == atoms_lt(kb.skip(i as int), ka.skip(i as int)),
        decreases a.len() - i,
    {
        let c = compare_atom(&a[i], &b[i]);
        proof {
            assert(ka.skip(i as int)[0] == ka[i as int]);
            assert(kb.skip(i as int)[0] == kb[i as int]);
        }
        match c {
            Comparison::Same => {},
            _ => {
                proof {
                    if ka == kb {
                        assert(ka[i as int] == kb[i as int]);
                    }
                }
                return c;
            },
        }
        proof {
            assert(ka.skip(i as int).drop_first() =~= ka.skip(i + 1));
            assert(kb.skip(i as int).drop_first() =~= kb.skip(i + 1));
            assert(ka.take(i + 1) =~= ka.take(i as int).push(ka[i as int]));
            assert(kb.take(i + 1) =~= kb.take(i as int).push(kb[i as int]));
        }
        i += 1;
    }
    proof {
        if i == a.len() && i == b.len() {
            assert(ka =~= ka.take(i as int));
            assert(kb =~= kb.take(i as int));
        }
        if ka == kb {
            assert(ka.len() == kb.len());
        }
    }
    if i < b.len() {
        Comparison::Before
    } else if i < a.len() {
        Comparison::After
    } else {
        Comparison::Same
    }
}


/// Position of a `LexicalPartOfSpeech` variant in declaration order, the order its derived `Ord` uses.
pub open spec fn pos_rank(x: LexicalPartOfSpeech) -> int {
    match x {
        LexicalPartOfSpeech::Noun => 0,
        LexicalPartOfSpeech::Verb => 1,
        LexicalPartOfSpeech::Adjective => 2,
        LexicalPartOfSpeech::Adverb => 3,
        LexicalPartOfSpeech::Pronoun => 4,
        LexicalPartOfSpeech::Preposition => 5,
        LexicalPartOfSpeech::Conjunction => 6,
        LexicalPartOfSpeech::Determiner => 7,
        LexicalPartOfSpeech::Interjection => 8,
        LexicalPartOfSpeech::Numeral => 9,
        LexicalPartOfSpeech::Other => 10,
    }
}

fn pos_position(x: LexicalPartOfSpeech) -> (r: u8)
    ensures
        r == pos_rank(x),
{
    match x {
            LexicalPartOfSpeech::Noun => 0,
            LexicalPartOfSpeech::Verb => 1,
            LexicalPartOfSpeech::Adjective => 2,
            LexicalPartOfSpeech::Adverb => 3,
            LexicalPartOfSpeech::Pronoun => 4,
            LexicalPartOfSpeech::Preposition => 5,
            LexicalPartOfSpeech::Conjunction => 6,
            LexicalPartOfSpeech::Determiner => 7,
            LexicalPartOfSpeech::Interjection => 8,
            LexicalPartOfSpeech::Numeral => 9,
            LexicalPartOfSpeech::Other => 10,
    }
}

/// Position of a `CanonicalStatus` variant in declaration order, the order its derived `Ord` uses.
pub open spec fn status_rank(x: CanonicalStatus) -> int {
    match x {
        CanonicalStatus::Active => 0,
        CanonicalStatus::Draft => 1,
        CanonicalStatus::Quarantined => 2,
        CanonicalStatus::Retired => 3,
    }
}

fn status_position(x: CanonicalStatus) -> (r: u8)
    ensures
        r == status_rank(x),
{
    match x {
            CanonicalStatus::Active => 0,
            CanonicalStatus::Draft => 1,
            CanonicalStatus::Quarantined => 2,
            CanonicalStatus::Retired => 3,
    }
}

/// Position of a `FormKind` variant in declaration order, the order its derived `Ord` uses.
pub open spec fn form_kind_rank(x: FormKind) -> int {
    match x {
        FormKind::Lemma => 0,
        FormKind::SpellingVariant => 1,
        FormKind::Inflection => 2,
        FormKind::Phrase => 3,
        FormKind::Alias => 4,
    }
}

fn form_kind_position(x: FormKind) -> (r: u8)
    ensures
        r == form_kind_rank(x),
{
    match x {
            FormKind::Lemma => 0,
            FormKind::SpellingVariant => 1,
            FormKind::Inflection => 2,
            FormKind::Phrase => 3,
            FormKind::Alias => 4,
    }
}

/// Position of a `EvidenceKind` variant in declaration order, the order its derived `Ord` uses.
pub open spec fn evidence_kind_rank(x: EvidenceKind) -> int {
    match x {
        EvidenceKind::Definition => 0,
        EvidenceKind::LocalizedGloss => 1,
        EvidenceKind::Example => 2,
        EvidenceKind::Pronunciation => 3,
        EvidenceKind::Usage => 4,
        EvidenceKind::Etymology => 5,
        EvidenceKind::Other => 6,
    }
}

fn evidence_kind_position(x: EvidenceKind) -> (r: u8)
    ensures
        r == evidence_kind_rank(x),
{
    match x {
            EvidenceKind::Definition => 0,
            EvidenceKind::LocalizedGloss => 1,
            EvidenceKind::Example => 2,
            EvidenceKind::Pronunciation => 3,
            EvidenceKind::Usage => 4,
            EvidenceKind::Etymology => 5,
            EvidenceKind::Other => 6,
    }
}

/// Position of a `EvidenceConfidence` variant in declaration order, the order its derived `Ord` uses.
pub open spec fn confidence_rank(x: EvidenceConfidence) -> int {
    match x {
        EvidenceConfidence::High => 0,
        EvidenceConfidence::Medium => 1,
        EvidenceConfidence::Low => 2,
    }
}

fn confidence_position(x: EvidenceConfidence) -> (r: u8)
    ensures
        r == confidence_rank(x),
{
    match x {
            EvidenceConfidence::High => 0,
            EvidenceConfidence::Medium => 1,
            EvidenceConfidence::Low => 2,
    }
}

/// The derived-order atoms of a lexeme, field by field.
pub open spec fn lexeme_atoms(l: Lexeme) -> Seq<OrderAtom> {
    seq![
        OrderAtom::Text(l.id@),
        OrderAtom::Text(l.release_id@),
        OrderAtom::Text(l.language@),
        OrderAtom::Text(l.lemma@),
        OrderAtom::Text(l.normalized_lemma@),
        OrderAtom::Rank(pos_rank(l.part_of_speech)),
        OrderAtom::Rank(status_rank(l.status)),
    ]
}

/// The derived-order atoms of a sense, field by field.
pub open spec fn sense_atoms(s: Sense) -> Seq<OrderAtom> {
    seq![
        OrderAtom::Text(s.id@),
        OrderAtom::Text(s.lexeme_id@),
        OrderAtom::Text(s.release_id@),
        OrderAtom::Text(s.sense_key@),
        OrderAtom::Text(s.definition@),
        OrderAtom::Texts(keys_of(s.definition_evidence_ids@)),
        OrderAtom::Rank(status_rank(s.status)),
    ]
}

/// The derived-order atoms of a word form, field by field.
pub open spec fn form_atoms(f: WordForm) -> Seq<OrderAtom> {
    seq![
        OrderAtom::Text(f.id@),
        OrderAtom::Text(f.lexeme_id@),
        OrderAtom::Text(f.release_id@),
        OrderAtom::Text(f.form@),
        OrderAtom::Text(f.normalized_form@),
        OrderAtom::Rank(form_kind_rank(f.kind)),
        OrderAtom::OptText(
            match f.morphology {
                Some(m) => Some(m@),
                None => None,
            },
        ),
        OrderAtom::Texts(keys_of(f.evidence_ids@)),
        OrderAtom::Rank(status_rank(f.status)),
    ]
}

/// The derived-order atoms of an evidence fragment, field by field, its permission flags in
/// declaration order.
pub open spec fn fragment_atoms(e: EvidenceFragment) -> Seq<OrderAtom> {
    seq![
        OrderAtom::Text(e.id@),
        OrderAtom::Text(e.source_id@),
        OrderAtom::Text(e.source_reference@),
        OrderAtom::Text(e.release_id@),
        OrderAtom::Text(e.language@),
        OrderAtom::Rank(evidence_kind_rank(e.kind)),
        OrderAtom::Rank(confidence_rank(e.confidence)),
        OrderAtom::Text(e.text@),
        OrderAtom::Text(e.content_hash@),
        OrderAtom::Rank(flag_rank(e.permissions.storage)),
        OrderAtom::Rank(flag_rank(e.permissions.display)),
        OrderAtom::Rank(flag_rank(e.permissions.embedding)),
        OrderAtom::Rank(flag_rank(e.permissions.model_processing)),
        OrderAtom::Rank(flag_rank(e.permissions.api_redistribution)),
        OrderAtom::Rank(status_rank(e.status)),
    ]
}

/// The atoms of a candidate's lexeme followed by those of its sense.
pub open spec fn head_atoms(c: CanonicalCandidate) -> Seq<OrderAtom> {
    lexeme_atoms(c.lexeme) + sense_atoms(c.sense)
}

/// The atoms of each of a candidate's forms.
pub open spec fn form_rows(c: CanonicalCandidate) -> Seq<Seq<OrderAtom>> {
    Seq::new(c.forms@.len(), |i: int| form_atoms(c.forms@[i]))
}

/// The atoms of each of a candidate's evidence fragments.
pub open spec fn evidence_rows(c: CanonicalCandidate) -> Seq<Seq<OrderAtom>> {
    Seq::new(c.evidence@.len(), |i: int| fragment_atoms(c.evidence@[i]))
}

/// The derived order of canonical candidates: lexeme, then sense, then forms, then evidence,
/// each compared field by field.
pub open spec fn candidate_lt(a: CanonicalCandidate, b: CanonicalCandidate) -> bool {
    if head_atoms(a) != head_atoms(b) {
        atoms_lt(head_atoms(a), head_atoms(b))
    } else if form_rows(a) != form_rows(b) {
        rows_lt(form_rows(a), form_rows(b))
    } else {
        rows_lt(evidence_rows(a), evidence_rows(b))
    }
}

fn head_key<'a>(c: &'a CanonicalCandidate) -> (r: Vec<KeyAtom<'a>>)
    ensures
        atom_views(r@) == head_atoms(*c),
{
    let l = &c.lexeme;
    let s = &c.sense;
    let r = vec![
        KeyAtom::Text(l.id.as_str()),
        KeyAtom::Text(l.release_id.as_str()),
        KeyAtom::Text(l.language.as_str()),
        KeyAtom::Text(l.lemma.as_str()),
        KeyAtom::Text(l.normalized_lemma.as_str()),
        KeyAtom::Rank(pos_position(l.part_of_speech)),
        KeyAtom::Rank(status_position(l.status)),
        KeyAtom::Text(s.id.as_str()),
        KeyAtom::Text(s.lexeme_id.as_str()),
        KeyAtom::Text(s.release_id.as_str()),
        KeyAtom::Text(s.sense_key.as_str()),
        KeyAtom::Text(s.definition.as_str()),
        KeyAtom::Texts(s.definition_evidence_ids.as_slice()),
        KeyAtom::Rank(status_position(s.status)),
    ];
    assert(atom_views(r@) =~= head_atoms(*c));
    r
}

fn form_key<'a>(f: &'a WordForm) -> (r: Vec<KeyAtom<'a>>)
    ensures
        atom_views(r@) == form_atoms(*f),
{
    let morphology = match &f.morphology {
        Some(m) => Some(m.as_str()),
        None => None,
    };
    let r = vec![
        KeyAtom::Text(f.id.as_str()),
        KeyAtom::Text(f.lexeme_id.as_str()),
        KeyAtom::Text(f.release_id.as_str()),
        KeyAtom::Text(f.form.as_str()),
        KeyAtom::Text(f.normalized_form.as_str()),
        KeyAtom::Rank(form_kind_position(f.kind)),
        KeyAtom::OptText(morphology),
        KeyAtom::Texts(f.evidence_ids.as_slice()),
        KeyAtom::Rank(status_position(f.status)),
    ];
    assert(atom_views(r@) =~= form_atoms(*f));
    r
}

fn fragment_key<'a>(e: &'a EvidenceFragment) -> (r: Vec<KeyAtom<'a>>)
    ensures
        atom_views(r@) == fragment_atoms(*e),
{
    let r = vec![
        KeyAtom::Text(e.id.as_str()),
        KeyAtom::Text(e.source_id.as_str()),
        KeyAtom::Text(e.source_reference.as_str()),
        KeyAtom::Text(e.release_id.as_str()),
        KeyAtom::Text(e.language.as_str()),
        KeyAtom::Rank(evidence_kind_position(e.kind)),
        KeyAtom::Rank(confidence_position(e.confidence)),
        KeyAtom::Text(e.text.as_str()),
        KeyAtom::Text(e.content_hash.as_str()),
        KeyAtom::Rank(flag_position(e.permissions.storage)),
        KeyAtom::Rank(flag_position(e.permissions.display)),
        KeyAtom::Rank(flag_position(e.permissions.embedding)),
        KeyAtom::Rank(flag_position(e.permissions.model_processing)),
        KeyAtom::Rank(flag_position(e.permissions.api_redistribution)),
        KeyAtom::Rank(status_position(e.status)),
    ];
    assert(atom_views(r@) =~= fragment_atoms(*e));
    r
}

/// Records whose derived-order atoms can be built.
pub trait AtomKeyed {
    /// The record's atoms.
    spec fn atoms(&self) -> Seq<OrderAtom>;

    /// Builds the record's atoms.
    fn key_atoms(&self) -> (r: Vec<KeyAtom<'_>>)
        ensures
            atom_views(r@) == self.atoms(),
    ;
}

impl AtomKeyed for WordForm {
    open spec fn atoms(&self) -> Seq<OrderAtom> {
        form_atoms(*self)
    }

    fn key_atoms(&self) -> (r: Vec<KeyAtom<'_>>) {
        form_key(self)
    }
}

impl AtomKeyed for EvidenceFragment {
    open spec fn atoms(&self) -> Seq<OrderAtom> {
        fragment_atoms(*self)
    }

    fn key_atoms(&self) -> (r: Vec<KeyAtom<'_>>) {
        fragment_key(self)
    }
}

proof fn lemma_rows_lt_props(a: Seq<Seq<OrderAtom>>, b: Seq<Seq<OrderAtom>>)
    ensures
        !rows_lt(a, a),
        rows_lt(a, b) ==> !rows_lt(b, a),
        a == b || rows_lt(a, b) || rows_lt(b, a),
    decreases a.len(),
{
    if a.len() > 0 {
        lemma_atoms_lt_props(a[0], a[0]);
        lemma_rows_lt_props(a.drop_first(), a.drop_first());
    }
    if a.len() > 0 && b.len() > 0 {
        lemma_atoms_lt_props(a[0], b[0]);
        if a[0] == b[0] {
            lemma_rows_lt_props(a.drop_first(), b.drop_first());
            if a.drop_first() == b.drop_first() {
                assert(a =~= seq![a[0]] + a.drop_first());
                assert(b =~= seq![b[0]] + b.drop_first());
            }
        }
    } else if a.len() == 0 && b.len() == 0 {
        assert(a =~= b);
    }
}

proof fn lemma_texts_lt_transitive(a: Seq<Seq<char>>, b: Seq<Seq<char>>, c: Seq<Seq<char>>)
    requires
        texts_lt(a, b),
        texts_lt(b, c),
    ensures
        texts_lt(a, c),
    decreases a.len(),
{
    if a.len() > 0 {
        lemma_text_lt_total(a[0], b[0]);
        lemma_text_lt_total(b[0], c[0]);
        lemma_text_lt_irreflexive(a[0]);
        if a[0] == b[0] && b[0] == c[0] {
            lemma_texts_lt_transitive(a.drop_first(), b.drop_first(), c.drop_first());
        } else if a[0] != b[0] && b[0] != c[0] {
            lemma_text_lt_transitive(a[0], b[0], c[0]);
        }
    }
}

proof fn lemma_atom_lt_transitive(a: OrderAtom, b: OrderAtom, c: OrderAtom)
    requires
        atom_lt(a, b),
        atom_lt(b, c),
    ensures
        atom_lt(a, c),
{
    match (a, b, c) {
        (OrderAtom::Text(x), OrderAtom::Text(y), OrderAtom::Text(z)) => lemma_text_lt_transitive(x, y, z),
        (OrderAtom::Texts(x), OrderAtom::Texts(y), OrderAtom::Texts(z)) => lemma_texts_lt_transitive(x, y, z),
        (OrderAtom::OptText(Some(x)), OrderAtom::OptText(Some(y)), OrderAtom::OptText(Some(z))) => {
            lemma_text_lt_transitive(x, y, z)
        },
        _ => {},
    }
}

proof fn lemma_atoms_lt_transitive(a: Seq<OrderAtom>, b: Seq<OrderAtom>, c: Seq<OrderAtom>)
    requires
        atoms_lt(a, b),
        atoms_lt(b, c),
    ensures
        atoms_lt(a, c),
    decreases a.len(),
{
    if a.len() > 0 {
        lemma_atom_lt_props(a[0], b[0]);
        lemma_atom_lt_props(b[0], c[0]);
        lemma_atom_lt_props(a[0], c[0]);
        if a[0] == b[0] && b[0] == c[0] {
            lemma_atoms_lt_transitive(a.drop_first(), b.drop_first(), c.drop_first());
        } else if a[0] != b[0] && b[0] != c[0] {
            lemma_atom_lt_transitive(a[0], b[0], c[0]);
        }
    }
}

proof fn lemma_rows_lt_transitive(a: Seq<Seq<OrderAtom>>, b: Seq<Seq<OrderAtom>>, c: Seq<Seq<OrderAtom>>)
    requires
        rows_lt(a, b),
        rows_lt(b, c),
    ensures
        rows_lt(a, c),
    decreases a.len(),
{
    if a.len() > 0 {
        lemma_atoms_lt_props(a[0], b[0]);
        lemma_atoms_lt_props(b[0], c[0]);
        lemma_atoms_lt_props(a[0], c[0]);
        if a[0] == b[0] && b[0] == c[0] {
            lemma_rows_lt_transitive(a.drop_first(), b.drop_first(), c.drop_first());
        } else if a[0] != b[0] && b[0] != c[0] {
            lemma_atoms_lt_transitive(a[0], b[0], c[0]);
        }
    }
}

/// Whether two candidates agree field by field, as the derived order sees them.
pub open spec fn same_candidate(a: CanonicalCandidate, b: CanonicalCandidate) -> bool {
    &&& head_atoms(a) == head_atoms(b)
    &&& form_rows(a) == form_rows(b)
    &&& evidence_rows(a) == evidence_rows(b)
}

/// The derived order of candidates is a strict total order up to `same_candidate`.
pub proof fn lemma_candidate_order(a: CanonicalCandidate, b: CanonicalCandidate, c: CanonicalCandidate)
    ensures
        !candidate_lt(a, a),
        candidate_lt(a, b) && candidate_lt(b, c) ==> candidate_lt(a, c),
        candidate_lt(a, b) ==> !candidate_lt(b, a),
        !candidate_lt(a, b) && !candidate_lt(b, a) ==> same_candidate(a, b),
{
    lemma_atoms_lt_props(head_atoms(a), head_atoms(b));
    lemma_atoms_lt_props(head_atoms(b), head_atoms(c));
    lemma_atoms_lt_props(head_atoms(a), head_atoms(c));
    lemma_rows_lt_props(form_rows(a), form_rows(b));
    lemma_rows_lt_props(form_rows(b), form_rows(c));
    lemma_rows_lt_props(form_rows(a), form_rows(c));
    lemma_rows_lt_props(evidence_rows(a), evidence_rows(b));
    lemma_rows_lt_props(evidence_rows(b), evidence_rows(c));
    lemma_rows_lt_props(evidence_rows(a), evidence_rows(c));
    if candidate_lt(a, b) && candidate_lt(b, c) {
        if head_atoms(a) != head_atoms(b) && head_atoms(b) != head_atoms(c) {
            lemma_atoms_lt_transitive(head_atoms(a), head_atoms(b), head_atoms(c));
        } else if head_atoms(a) == head_atoms(b) && head_atoms(b) == head_atoms(c) {
            if form_rows(a) != form_rows(b) && form_rows(b) != form_rows(c) {
                lemma_rows_lt_transitive(form_rows(a), form_rows(b), form_rows(c));
            } else if form_rows(a) == form_rows(b) && form_rows(b) == form_rows(c) {
                lemma_rows_lt_transitive(evidence_rows(a), evidence_rows(b), evidence_rows(c));
            }
        }
    }
}

fn compare_rows<T: AtomKeyed>(a: &Vec<T>, b: &Vec<T>) -> (r: Comparison)
    ensures
        (r == Comparison::Before) == rows_lt(Seq::new(a@.len(), |i: int| a@[i].atoms()), Seq::new(b@.len(), |i: int| b@[i].atoms())),
        (r == Comparison::Same) == (Seq::new(a@.len(), |i: int| a@[i].atoms()) == Seq::new(b@.len(), |i: int| b@[i].atoms())),
{
    let ghost ka = Seq::new(a@.len(), |i: int| a@[i].atoms());
    let ghost kb = Seq::new(b@.len(), |i: int| b@[i].atoms());
    proof {
        lemma_rows_lt_props(ka, kb);
        assert(ka.skip(0) =~= ka);
        assert(kb.skip(0) =~= kb);
    }
    let mut i: usize = 0;
    while i < a.len() && i < b.len()
        invariant
            i <= a.len(),
            i <= b.len(),
            ka == Seq::new(a@.len(), |q: int| a@[q].atoms()),
            kb == Seq::new(b@.len(), |q: int| b@[q].atoms()),
            ka.take(i as int) == kb.take(i as int),
            rows_lt(ka, kb) == rows_lt(ka.skip(i as int), kb.skip(i as int)),
        decreases a.len() - i,
    {
        let ak = a[i].key_atoms();
        let bk = b[i].key_atoms();
        proof {
            assert(ka.skip(i as int)[0] == ka[i as int]);
            assert(kb.skip(i as int)[0] == kb[i as int]);
        }
        let c = compare_keys(&ak, &bk);
        match c {
            Comparison::Same => {},
            _ => {
                proof {
                    if ka == kb {
                        assert(ka[i as int] == kb[i as int]);
                    }
                }
                return c;
            },
        }
        proof {
            assert(ka.skip(i as int).drop_first() =~= ka.skip(i + 1));
            assert(kb.skip(i as int).drop_first() =~= kb.skip(i + 1));
            assert(ka.take(i + 1) =~= ka.take(i as int).push(ka[i as int]));
            assert(kb.take(i + 1) =~= kb.take(i as int).push(kb[i as int]));
        }
        i += 1;
    }
    proof {
        if i == a.len() && i == b.len() {
            assert(ka =~= ka.take(i as int));
            assert(kb =~= kb.take(i as int));
        }
        if ka == kb {
            assert(ka.len() == kb.len());
        }
    }
    if i < b.len() {
        Comparison::Before
    } else if i < a.len() {
        Comparison::After
    } else {
        Comparison::Same
    }
}

/// Whether candidate `a` sorts strictly before candidate `b` in the derived order.
pub fn candidate_before(a: &CanonicalCandidate, b: &CanonicalCandidate) -> (r: bool)
    ensures
        r == candidate_lt(*a, *b),
{
    let ha = head_key(a);
    let hb = head_key(b);
    match compare_keys(&ha, &hb) {
        Comparison::Before => return true,
        Comparison::After => return false,
        Comparison::Same => {},
    }
    proof {
        assert(form_rows(*a) =~= Seq::new(a.forms@.len(), |i: int| a.forms@[i].atoms()));
        assert(form_rows(*b) =~= Seq::new(b.forms@.len(), |i: int| b.forms@[i].atoms()));
    }
    match compare_rows(&a.forms, &b.forms) {
        Comparison::Before => return true,
        Comparison::After => return false,
        Comparison::Same => {},
    }
    proof {
        assert(evidence_rows(*a) =~= Seq::new(a.evidence@.len(), |i: int| a.evidence@[i].atoms()));
        assert(evidence_rows(*b) =~= Seq::new(b.evidence@.len(), |i: int| b.evidence@[i].atoms()));
    }
    match compare_rows(&a.evidence, &b.evidence) {
        Comparison::Before => true,
        _ => false,
    }
}


/// A set of vector purposes.
#[derive(Debug, Clone, Copy, PartialEq, Eq, PartialOrd, Ord, Hash, Structural)]
pub struct VectorPurposeSet {
    canonical_english_sense: bool,
    localized_gloss: bool,
    evidence_fragment: bool,
}

impl VectorPurposeSet {
    /// Whether the set holds `purpose`.
    pub closed spec fn spec_contains(self, purpose: VectorPurpose) -> bool {
        match purpose {
            VectorPurpose::CanonicalEnglishSense => self.canonical_english_sense,
            VectorPurpose::LocalizedGloss => self.localized_gloss,
            VectorPurpose::EvidenceFragment => self.evidence_fragment,
        }
    }

    /// The empty set.
    pub closed spec fn spec_empty() -> VectorPurposeSet {
        VectorPurposeSet { canonical_english_sense: false, localized_gloss: false, evidence_fragment: false }
    }

    /// The set with `purpose` added.
    pub closed spec fn spec_insert(self, purpose: VectorPurpose) -> VectorPurposeSet {
        match purpose {
            VectorPurpose::CanonicalEnglishSense => VectorPurposeSet { canonical_english_sense: true, ..self },
            VectorPurpose::LocalizedGloss => VectorPurposeSet { localized_gloss: true, ..self },
            VectorPurpose::EvidenceFragment => VectorPurposeSet { evidence_fragment: true, ..self },
        }
    }

    /// The empty set.
    pub fn empty() -> (r: Self)
        ensures
            r == Self::spec_empty(),
            forall|p: VectorPurpose| !r.spec_contains(p),
    {
        VectorPurposeSet { canonical_english_sense: false, localized_gloss: false, evidence_fragment: false }
    }

    /// Adds `purpose` to the set.
    pub fn insert(&mut self, purpose: VectorPurpose)
        ensures
            *final(self) == old(self).spec_insert(purpose),
            forall|p: VectorPurpose| final(self).spec_contains(p) <==> (old(self).spec_contains(p) || p == purpose),
    {
        match purpose {
            VectorPurpose::CanonicalEnglishSense => self.canonical_english_sense = true,
            VectorPurpose::LocalizedGloss => self.localized_gloss = true,
            VectorPurpose::EvidenceFragment => self.evidence_fragment = true,
        }
    }

    /// Whether the set holds `purpose`.
    pub fn contains(&self, purpose: VectorPurpose) -> (b: bool)
        ensures
            b == self.spec_contains(purpose),
    {
        match purpose {
            VectorPurpose::CanonicalEnglishSense => self.canonical_english_sense,
            VectorPurpose::LocalizedGloss => self.localized_gloss,
            VectorPurpose::EvidenceFragment => self.evidence_fragment,
        }
    }

    /// Whether the set is empty.
    pub fn is_empty(&self) -> (b: bool)
        ensures
            b == forall|p: VectorPurpose| !self.spec_contains(p),
    {
        let b = !self.canonical_english_sense && !self.localized_gloss && !self.evidence_fragment;
        proof {
            if !b {
                if self.canonical_english_sense {
                    assert(self.spec_contains(VectorPurpose::CanonicalEnglishSense));
                } else if self.localized_gloss {
                    assert(self.spec_contains(VectorPurpose::LocalizedGloss));
                } else {
                    assert(self.spec_contains(VectorPurpose::EvidenceFragment));
                }
            }
        }
        b
    }
}

/// How purpose sets behave: the empty set holds nothing, inserting adds exactly one purpose,
/// and a set is determined by what it holds.
pub proof fn lemma_purpose_set(a: VectorPurposeSet, b: VectorPurposeSet, p: VectorPurpose, q: VectorPurpose)
    ensures
        !VectorPurposeSet::spec_empty().spec_contains(q),
        a.spec_insert(p).spec_contains(q) == (p == q || a.spec_contains(q)),
        (forall|r: VectorPurpose| a.spec_contains(r) == b.spec_contains(r)) ==> a == b,
{
    if forall|r: VectorPurpose| a.spec_contains(r) == b.spec_contains(r) {
        assert(a.spec_contains(VectorPurpose::CanonicalEnglishSense) == b.spec_contains(VectorPurpose::CanonicalEnglishSense));
        assert(a.spec_contains(VectorPurpose::LocalizedGloss) == b.spec_contains(VectorPurpose::LocalizedGloss));
        assert(a.spec_contains(VectorPurpose::EvidenceFragment) == b.spec_contains(VectorPurpose::EvidenceFragment));
    }
}

/// Independent ranking features retained after hybrid fusion.
#[derive(Debug, Clone, Copy, PartialEq, Eq, Hash, Structural)]
pub struct CandidateFeatures {
    /// Strongest exact-form signal.
    pub exact_form: Option<RetrievalScore>,
    /// Strongest phrase signal.
    pub phrase: Option<RetrievalScore>,
    /// Strongest lemma signal.
    pub lemma: Option<RetrievalScore>,
    /// Strongest morphology signal.
    pub morphology: Option<RetrievalScore>,
    /// Strongest full-text signal.
    pub full_text: Option<RetrievalScore>,
    /// Strongest vector similarity from the pinned collection.
    pub vector_similarity: Option<RetrievalScore>,
    /// Logical vector purposes that corroborated the candidate.
    pub vector_purposes: VectorPurposeSet,
}

/// Features with no signal recorded.
pub open spec fn no_features() -> CandidateFeatures {
    CandidateFeatures {
        exact_form: None,
        phrase: None,
        lemma: None,
        morphology: None,
        full_text: None,
        vector_similarity: None,
        vector_purposes: VectorPurposeSet::spec_empty(),
    }
}

impl Default for CandidateFeatures {
    fn default() -> (r: Self)
        ensures
            r == no_features(),
    {
        CandidateFeatures {
            exact_form: None,
            phrase: None,
            lemma: None,
            morphology: None,
            full_text: None,
            vector_similarity: None,
            vector_purposes: VectorPurposeSet::empty(),
        }
    }
}

/// Basis points of an optional score, zero when absent.
pub open spec fn score_or_zero(s: Option<RetrievalScore>) -> int {
    match s {
        Some(v) => v.spec_basis_points() as int,
        None => 0,
    }
}

/// The deterministic fusion value of a candidate's features: each strongest signal weighted
/// by its kind (exact form 1000, phrase 900, lemma 800, morphology 600, full text 300, vector
/// similarity 300).
pub open spec fn fusion_value(f: CandidateFeatures) -> int {
    score_or_zero(f.exact_form) * 1000 + score_or_zero(f.phrase) * 900 + score_or_zero(f.lemma) * 800
        + score_or_zero(f.morphology) * 600 + score_or_zero(f.full_text) * 300 + score_or_zero(
        f.vector_similarity,
    ) * 300
}

fn weighted(score: Option<RetrievalScore>, weight: u64) -> (r: u64)
    requires
        weight <= 1000,
    ensures
        r == score_or_zero(score) * weight,
        r <= 65535 * weight,
{
    match score {
        Some(value) => {
            let bp = value.basis_points() as u64;
            proof {
                assert(bp <= 65535);
            }
            assert(bp * weight <= 65535 * weight) by (nonlinear_arith)
                requires
                    bp <= 65535,
                    weight <= 1000,
            ;
            assert(65535 * weight <= 65535 * 1000) by (nonlinear_arith)
                requires
                    weight <= 1000,
            ;
            bp * weight
        },
        None => 0,
    }
}

/// The stronger of a recorded signal and a new score; a new score replaces the current one only
/// when it is strictly higher.
pub open spec fn raised(current: Option<RetrievalScore>, score: RetrievalScore) -> Option<RetrievalScore> {
    match current {
        Some(c) => if score.spec_basis_points() > c.spec_basis_points() {
            Some(score)
        } else {
            current
        },
        None => Some(score),
    }
}

/// One retrieval signal attached to a candidate.
#[derive(Debug, Clone, Copy, PartialEq, Eq, Structural)]
pub enum CandidateSignal {
    /// A lexical signal of the given kind and score.
    Lexical(LexicalMatchKind, RetrievalScore),
    /// A vector similarity and the purpose of the matching collection.
    Vector(RetrievalScore, VectorPurpose),
}

/// The features after recording `signal`.
pub open spec fn with_signal(f: CandidateFeatures, signal: CandidateSignal) -> CandidateFeatures {
    match signal {
        CandidateSignal::Lexical(kind, score) => match kind {
            LexicalMatchKind::ExactForm => CandidateFeatures { exact_form: raised(f.exact_form, score), ..f },
            LexicalMatchKind::Phrase => CandidateFeatures { phrase: raised(f.phrase, score), ..f },
            LexicalMatchKind::Lemma => CandidateFeatures { lemma: raised(f.lemma, score), ..f },
            LexicalMatchKind::Morphology => CandidateFeatures { morphology: raised(f.morphology, score), ..f },
            LexicalMatchKind::FullText => CandidateFeatures { full_text: raised(f.full_text, score), ..f },
        },
        CandidateSignal::Vector(score, purpose) => CandidateFeatures {
            vector_similarity: raised(f.vector_similarity, score),
            vector_purposes: f.vector_purposes.spec_insert(purpose),
            ..f
        },
    }
}

fn update_highest(feature: &mut Option<RetrievalScore>, score: RetrievalScore)
    ensures
        *final(feature) == raised(*old(feature), score),
{
    let replace = match feature {
        Some(current) => score.basis_points() > current.basis_points(),
        None => true,
    };
    if replace {
        *feature = Some(score);
    }
}

impl CandidateFeatures {
    /// Calculates the deterministic fusion value used only for ordering.
    ///
    /// The value is not a probability or a semantic confidence score: exact lexical evidence
    /// has the highest weight, while full-text and vector signals add corroborating evidence.
    pub fn fusion_score(&self) -> (r: u64)
        ensures
            r == fusion_value(*self),
    {
        let a = weighted(self.exact_form, 1_000);
        let b = weighted(self.phrase, 900);
        let c = weighted(self.lemma, 800);
        let d = weighted(self.morphology, 600);
        let e = weighted(self.full_text, 300);
        let f = weighted(self.vector_similarity, 300);
        a + b + c + d + e + f
    }

    /// Keeps the stronger of the recorded and the new score for one lexical signal kind.
    fn record_lexical(&mut self, kind: LexicalMatchKind, score: RetrievalScore)
        ensures
            *final(self) == with_signal(*old(self), CandidateSignal::Lexical(kind, score)),
    {
        match kind {
            LexicalMatchKind::ExactForm => update_highest(&mut self.exact_form, score),
            LexicalMatchKind::Phrase => update_highest(&mut self.phrase, score),
            LexicalMatchKind::Lemma => update_highest(&mut self.lemma, score),
            LexicalMatchKind::Morphology => update_highest(&mut self.morphology, score),
            LexicalMatchKind::FullText => update_highest(&mut self.full_text, score),
        }
    }

    /// Keeps the stronger vector similarity and remembers the collection purpose.
    fn record_vector(&mut self, score: RetrievalScore, purpose: VectorPurpose)
        ensures
            *final(self) == with_signal(*old(self), CandidateSignal::Vector(score, purpose)),
    {
        update_highest(&mut self.vector_similarity, score);
        self.vector_purposes.insert(purpose);
    }

    fn record_signal(&mut self, signal: CandidateSignal)
        ensures
            *final(self) == with_signal(*old(self), signal),
    {
        match signal {
            CandidateSignal::Lexical(kind, score) => self.record_lexical(kind, score),
            CandidateSignal::Vector(score, purpose) => self.record_vector(score, purpose),
        }
    }
}

/// One repository-produced canonical candidate and its lexical signal.
#[derive(Debug, Clone, PartialEq, Eq, PartialOrd, Ord)]
pub struct RepositoryMatch {
    /// Fully hydrated canonical candidate.
    pub candidate: CanonicalCandidate,
    /// Retrieval signal produced by the repository.
    pub kind: LexicalMatchKind,
    /// Normalized rank or match confidence for this signal.
    pub score: RetrievalScore,
}

/// Hydrated canonical data associated with one filtered vector result.
#[derive(Debug, Clone, PartialEq, Eq, PartialOrd, Ord)]
pub struct HydratedVectorMatch {
    /// Canonical candidate loaded through the repository port.
    pub candidate: CanonicalCandidate,
    /// Filtered vector result that selected the candidate.
    pub vector: VectorMatch,
}

/// One deduplicated, deterministically ordered canonical retrieval result.
#[derive(Debug, Clone, PartialEq, Eq)]
pub struct RankedCandidate {
    /// One canonical lexeme and sense.
    pub candidate: CanonicalCandidate,
    /// Independent lexical and vector features kept for explainable ranking.
    pub features: CandidateFeatures,
    /// Deterministic zero-free rank after fusion and tie-breaking.
    pub rank: usize,
    /// Deterministic weighted ordering value, not a calibrated confidence.
    pub fusion_score: u64,
}

/// A candidate collected during fusion with its features.
pub type Accumulated = (CanonicalCandidate, CandidateFeatures);

/// The position of the last accumulated candidate whose sense is `id`, or -1.
pub open spec fn acc_index(accs: Seq<Accumulated>, id: Seq<char>) -> int
    decreases accs.len(),
{
    if accs.len() == 0 {
        -1
    } else if accs.last().0.sense.id@ == id {
        accs.len() - 1
    } else {
        acc_index(accs.drop_last(), id)
    }
}

/// Merges one signal for candidate `c` into the accumulated candidates: a candidate for a new
/// sense is appended; for a known sense the smaller candidate in the derived order stays and
/// the signal is recorded.
pub open spec fn merge_signal(accs: Seq<Accumulated>, c: CanonicalCandidate, signal: CandidateSignal) -> Seq<Accumulated> {
    let i = acc_index(accs, c.sense.id@);
    if i >= 0 {
        accs.update(
            i,
            (if candidate_lt(c, accs[i].0) {
                c
            } else {
                accs[i].0
            }, with_signal(accs[i].1, signal)),
        )
    } else {
        accs.push((c, with_signal(no_features(), signal)))
    }
}

/// Whether a vector match may contribute to fusion: it targets its candidate's sense, comes
/// from a sense or gloss collection of the pinned release and collection, and its candidate is
/// eligible.
pub open spec fn vector_accepted(content: ActiveContentVersion, evidence_use: EvidenceUse, v: HydratedVectorMatch) -> bool {
    &&& v.vector.target matches VectorTarget::Sense(s) && s@ == v.candidate.sense.id@
    &&& (v.vector.purpose == VectorPurpose::CanonicalEnglishSense || v.vector.purpose == VectorPurpose::LocalizedGloss)
    &&& v.vector.release_id@ == content.release_id@
    &&& v.vector.vector_collection_id@ == content.vector_collection_id@
    &&& candidate_is_eligible(v.candidate, content.release_id@, evidence_use)
}

/// Accumulates the eligible lexical matches in order.
pub open spec fn fold_lexical(
    accs: Seq<Accumulated>,
    content: ActiveContentVersion,
    evidence_use: EvidenceUse,
    l: Seq<RepositoryMatch>,
) -> Seq<Accumulated>
    decreases l.len(),
{
    if l.len() == 0 {
        accs
    } else {
        let next = if candidate_is_eligible(l[0].candidate, content.release_id@, evidence_use) {
            merge_signal(accs, l[0].candidate, CandidateSignal::Lexical(l[0].kind, l[0].score))
        } else {
            accs
        };
        fold_lexical(next, content, evidence_use, l.drop_first())
    }
}

/// Accumulates the accepted vector matches in order.
pub open spec fn fold_vector(
    accs: Seq<Accumulated>,
    content: ActiveContentVersion,
    evidence_use: EvidenceUse,
    v: Seq<HydratedVectorMatch>,
) -> Seq<Accumulated>
    decreases v.len(),
{
    if v.len() == 0 {
        accs
    } else {
        let next = if vector_accepted(content, evidence_use, v[0]) {
            merge_signal(accs, v[0].candidate, CandidateSignal::Vector(v[0].vector.score, v[0].vector.purpose))
        } else {
            accs
        };
        fold_vector(next, content, evidence_use, v.drop_first())
    }
}

/// The candidates and features collected from all lexical and then all vector matches.
pub open spec fn fused_accumulators(
    content: ActiveContentVersion,
    evidence_use: EvidenceUse,
    l: Seq<RepositoryMatch>,
    v: Seq<HydratedVectorMatch>,
) -> Seq<Accumulated> {
    fold_vector(fold_lexical(Seq::empty(), content, evidence_use, l), content, evidence_use, v)
}

/// An optional score as a sort key; absent scores sort below every present one.
pub open spec fn score_key(s: Option<RetrievalScore>) -> int {
    match s {
        Some(v) => v.spec_basis_points() as int,
        None => -1,
    }
}

/// The descending sort keys of features: fusion value, then each strongest signal.
pub open spec fn rank_keys(f: CandidateFeatures) -> Seq<int> {
    seq![
        fusion_value(f),
        score_key(f.exact_form),
        score_key(f.phrase),
        score_key(f.lemma),
        score_key(f.morphology),
        score_key(f.full_text),
        score_key(f.vector_similarity),
    ]
}

/// Lexicographic "greater than" on integer sequences.
pub open spec fn ints_gt(a: Seq<int>, b: Seq<int>) -> bool
    decreases a.len(),
{
    if a.len() == 0 || b.len() == 0 {
        false
    } else if a[0] != b[0] {
        a[0] > b[0]
    } else {
        ints_gt(a.drop_first(), b.drop_first())
    }
}

/// The public order of fused candidates: higher keys first, then sense identifier, then
/// lexeme identifier.
pub open spec fn ranked_before(a: Accumulated, b: Accumulated) -> bool {
    if rank_keys(a.1) != rank_keys(b.1) {
        ints_gt(rank_keys(a.1), rank_keys(b.1))
    } else if a.0.sense.id@ != b.0.sense.id@ {
        text_lt(a.0.sense.id@, b.0.sense.id@)
    } else {
        text_lt(a.0.lexeme.id@, b.0.lexeme.id@)
    }
}

/// The score carried by one signal.
pub open spec fn signal_score(signal: CandidateSignal) -> int {
    match signal {
        CandidateSignal::Lexical(_, score) => score.spec_basis_points() as int,
        CandidateSignal::Vector(score, _) => score.spec_basis_points() as int,
    }
}

/// The weight per basis point of one signal's kind: exact form 1000, phrase 900, lemma 800,
/// morphology 600, full text 300 and vector similarity 300.
pub open spec fn signal_weight(signal: CandidateSignal) -> int {
    match signal {
        CandidateSignal::Lexical(LexicalMatchKind::ExactForm, _) => 1000,
        CandidateSignal::Lexical(LexicalMatchKind::Phrase, _) => 900,
        CandidateSignal::Lexical(LexicalMatchKind::Lemma, _) => 800,
        CandidateSignal::Lexical(LexicalMatchKind::Morphology, _) => 600,
        CandidateSignal::Lexical(LexicalMatchKind::FullText, _) => 300,
        CandidateSignal::Vector(..) => 300,
    }
}

/// A candidate with one signal has the fusion value of that signal's score times its kind's
/// weight; adding a signal of a kind the candidate lacks adds exactly that weighted score.
pub proof fn lemma_single_signal_fusion_value(f: CandidateFeatures, signal: CandidateSignal)
    requires
        match signal {
            CandidateSignal::Lexical(LexicalMatchKind::ExactForm, _) => f.exact_form is None,
            CandidateSignal::Lexical(LexicalMatchKind::Phrase, _) => f.phrase is None,
            CandidateSignal::Lexical(LexicalMatchKind::Lemma, _) => f.lemma is None,
            CandidateSignal::Lexical(LexicalMatchKind::Morphology, _) => f.morphology is None,
            CandidateSignal::Lexical(LexicalMatchKind::FullText, _) => f.full_text is None,
            CandidateSignal::Vector(..) => f.vector_similarity is None,
        },
    ensures
        fusion_value(with_signal(f, signal)) == fusion_value(f) + signal_weight(signal) * signal_score(signal),
        fusion_value(with_signal(no_features(), signal)) == signal_weight(signal) * signal_score(signal),
{
}

/// Exact lexical evidence has the highest weight: a candidate whose only signal is an
/// exact-form match of score `s` has fusion value `1000 * s`, no other kind of signal weighs
/// as much per basis point, and such a candidate is ranked before any candidate whose only
/// signal is of another kind with a score no higher than `s`.
pub proof fn lemma_exact_form_outranks_other_signals(
    exact: RetrievalScore,
    other: CandidateSignal,
    a: CanonicalCandidate,
    b: CanonicalCandidate,
)
    requires
        !(other matches CandidateSignal::Lexical(LexicalMatchKind::ExactForm, _)),
        signal_score(other) <= exact.spec_basis_points(),
    ensures
        fusion_value(with_signal(no_features(), CandidateSignal::Lexical(LexicalMatchKind::ExactForm, exact)))
            == 1000 * exact.spec_basis_points(),
        fusion_value(with_signal(no_features(), other)) <= 900 * signal_score(other),
        ranked_before(
            (a, with_signal(no_features(), CandidateSignal::Lexical(LexicalMatchKind::ExactForm, exact))),
            (b, with_signal(no_features(), other)),
        ),
{
    let fe = with_signal(no_features(), CandidateSignal::Lexical(LexicalMatchKind::ExactForm, exact));
    let fo = with_signal(no_features(), other);
    let ke = rank_keys(fe);
    let ko = rank_keys(fo);
    assert(fo.exact_form is None);
    if ke[0] == ko[0] {
        assert(exact.spec_basis_points() == 0);
        assert(ke[1] == 0 && ko[1] == -1);
        assert(ke.drop_first()[0] == ke[1] && ko.drop_first()[0] == ko[1]);
        assert(ints_gt(ke.drop_first(), ko.drop_first()));
    }
    assert(ke != ko) by {
        assert(ke[1] != ko[1]);
    }
    assert(ints_gt(ke, ko));
}

proof fn lemma_ints_gt(a: Seq<int>, b: Seq<int>, c: Seq<int>)
    requires
        a.len() == b.len() && b.len() == c.len(),
    ensures
        ints_gt(a, b) && ints_gt(b, c) ==> ints_gt(a, c),
        a == b || ints_gt(a, b) || ints_gt(b, a),
        ints_gt(a, b) ==> !ints_gt(b, a) && a != b,
    decreases a.len(),
{
    if a.len() > 0 {
        lemma_ints_gt(a.drop_first(), b.drop_first(), c.drop_first());
        if a.drop_first() == b.drop_first() && a[0] == b[0] {
            assert(a =~= seq![a[0]] + a.drop_first());
            assert(b =~= seq![b[0]] + b.drop_first());
        }
        if ints_gt(a, b) && a == b {
            lemma_ints_gt(a.drop_first(), a.drop_first(), a.drop_first());
        }
    } else {
        assert(a =~= b);
    }
}

pub(crate) proof fn lemma_ranked_before(a: Accumulated, b: Accumulated, c: Accumulated)
    ensures
        ranked_before(a, b) && ranked_before(b, c) ==> ranked_before(a, c),
        a.0.sense.id@ != b.0.sense.id@ ==> ranked_before(a, b) || ranked_before(b, a),
        ranked_before(a, b) ==> !ranked_before(b, a),
{
    lemma_ints_gt(rank_keys(a.1), rank_keys(b.1), rank_keys(c.1));
    lemma_ints_gt(rank_keys(b.1), rank_keys(c.1), rank_keys(a.1));
    lemma_ints_gt(rank_keys(a.1), rank_keys(c.1), rank_keys(b.1));
    lemma_ints_gt(rank_keys(b.1), rank_keys(a.1), rank_keys(c.1));
    lemma_text_lt_total(a.0.sense.id@, b.0.sense.id@);
    lemma_text_lt_total(a.0.lexeme.id@, b.0.lexeme.id@);
    if text_lt(a.0.sense.id@, b.0.sense.id@) {
        lemma_text_lt_asymmetric(a.0.sense.id@, b.0.sense.id@);
    }
    if text_lt(a.0.lexeme.id@, b.0.lexeme.id@) {
        lemma_text_lt_asymmetric(a.0.lexeme.id@, b.0.lexeme.id@);
    }
    if ranked_before(a, b) && ranked_before(b, c) {
        if text_lt(a.0.sense.id@, b.0.sense.id@) && text_lt(b.0.sense.id@, c.0.sense.id@) {
            lemma_text_lt_transitive(a.0.sense.id@, b.0.sense.id@, c.0.sense.id@);
        }
        if text_lt(a.0.lexeme.id@, b.0.lexeme.id@) && text_lt(b.0.lexeme.id@, c.0.lexeme.id@) {
            lemma_text_lt_transitive(a.0.lexeme.id@, b.0.lexeme.id@, c.0.lexeme.id@);
        }
    }
}

fn score_position(s: Option<RetrievalScore>) -> (r: i64)
    ensures
        r == score_key(s),
{
    match s {
        Some(v) => v.basis_points() as i64,
        None => -1,
    }
}

fn rank_key_values(f: &CandidateFeatures) -> (r: Vec<i64>)
    ensures
        r@.len() == 7,
        forall|i: int| 0 <= i < 7 ==> r@[i] == rank_keys(*f)[i],
{
    let fusion = f.fusion_score();
    assert(fusion <= 65535 * 3900);
    let r = vec![
        fusion as i64,
        score_position(f.exact_form),
        score_position(f.phrase),
        score_position(f.lemma),
        score_position(f.morphology),
        score_position(f.full_text),
        score_position(f.vector_similarity),
    ];
    r
}

fn before_in_rank(a: &Accumulated, b: &Accumulated) -> (r: bool)
    ensures
        r == ranked_before(*a, *b),
{
    let ka = rank_key_values(&a.1);
    let kb = rank_key_values(&b.1);
    let ghost sa = rank_keys(a.1);
    let ghost sb = rank_keys(b.1);
    assert(sa.skip(0) =~= sa);
    assert(sb.skip(0) =~= sb);
    let mut i: usize = 0;
    while i < 7
        invariant
            i <= 7,
            ka@.len() == 7,
            kb@.len() == 7,
            sa == rank_keys(a.1),
            sb == rank_keys(b.1),
            forall|q: int| 0 <= q < 7 ==> ka@[q] == sa[q],
            forall|q: int| 0 <= q < 7 ==> kb@[q] == sb[q],
            sa.take(i as int) == sb.take(i as int),
            ints_gt(sa, sb) == ints_gt(sa.skip(i as int), sb.skip(i as int)),
        decreases 7 - i,
    {
        if ka[i] != kb[i] {
            proof {
                assert(sa.skip(i as int)[0] == sa[i as int]);
                assert(sb.skip(i as int)[0] == sb[i as int]);
                assert(sa[i as int] != sb[i as int]);
            }
            return ka[i] > kb[i];
        }
        proof {
            assert(sa.skip(i as int).drop_first() =~= sa.skip(i + 1));
            assert(sb.skip(i as int).drop_first() =~= sb.skip(i + 1));
            assert(sa.take(i + 1) =~= sa.take(i as int).push(sa[i as int]));
            assert(sb.take(i + 1) =~= sb.take(i as int).push(sb[i as int]));
        }
        i += 1;
    }
    proof {
        assert(sa =~= sa.take(7));
        assert(sb =~= sb.take(7));
    }
    if !a.0.sense.id.same(&b.0.sense.id) {
        return crate::keyed::str_lt(a.0.sense.id.as_str(), b.0.sense.id.as_str());
    }
    crate::keyed::str_lt(a.0.lexeme.id.as_str(), b.0.lexeme.id.as_str())
}

/// Whether no two accumulated candidates share a sense.
pub open spec fn senses_distinct(accs: Seq<Accumulated>) -> bool {
    forall|i: int, j: int| 0 <= i < j < accs.len() ==> (#[trigger] accs[i]).0.sense.id@ != (#[trigger] accs[j]).0.sense.id@
}

/// Whether fused candidates are in the public order.
pub open spec fn accs_sorted(accs: Seq<Accumulated>) -> bool {
    forall|i: int, j: int| 0 <= i < j < accs.len() ==> ranked_before(#[trigger] accs[i], #[trigger] accs[j])
}

pub(crate) proof fn lemma_acc_index(accs: Seq<Accumulated>, id: Seq<char>)
    ensures
        -1 <= acc_index(accs, id) < accs.len(),
        acc_index(accs, id) >= 0 ==> accs[acc_index(accs, id)].0.sense.id@ == id,
        acc_index(accs, id) == -1 ==> forall|k: int| 0 <= k < accs.len() ==> (#[trigger] accs[k]).0.sense.id@ != id,
    decreases accs.len(),
{
    if accs.len() > 0 {
        lemma_acc_index(accs.drop_last(), id);
        if accs.last().0.sense.id@ != id {
            assert forall|k: int| 0 <= k < accs.len() - 1 implies accs[k] == accs.drop_last()[k] by {}
        }
    }
}

pub(crate) proof fn lemma_merge_keeps_distinct(accs: Seq<Accumulated>, c: CanonicalCandidate, signal: CandidateSignal)
    requires
        senses_distinct(accs),
    ensures
        senses_distinct(merge_signal(accs, c, signal)),
        forall|k: int| 0 <= k < merge_signal(accs, c, signal).len() ==> (#[trigger] merge_signal(accs, c, signal)[k]).0
            == c || (exists|j: int| 0 <= j < accs.len() && accs[j].0 == merge_signal(accs, c, signal)[k].0),
{
    lemma_acc_index(accs, c.sense.id@);
    let m = merge_signal(accs, c, signal);
    let i = acc_index(accs, c.sense.id@);
    assert forall|k: int| 0 <= k < m.len() implies (#[trigger] m[k]).0 == c || (exists|j: int|
        0 <= j < accs.len() && accs[j].0 == m[k].0) by {
        if k < accs.len() && k != i {
            assert(accs[k].0 == m[k].0);
        } else if k == i && m[k].0 != c {
            assert(accs[k].0 == m[k].0);
        }
    }
}

/// Whether `r` is the ranking of the candidates fused from the lexical matches `l` and the
/// vector matches `v`: exactly the fused candidates with their features, in the public order,
/// ranked from one, each with its fusion value.
pub open spec fn fused_ranking(
    content: ActiveContentVersion,
    evidence_use: EvidenceUse,
    l: Seq<RepositoryMatch>,
    v: Seq<HydratedVectorMatch>,
    r: Seq<RankedCandidate>,
) -> bool {
    let accs = fused_accumulators(content, evidence_use, l, v);
    &&& r.len() == accs.len()
    &&& forall|k: int| 0 <= k < r.len() ==> (#[trigger] r[k]).rank == k + 1 && r[k].fusion_score == fusion_value(
        r[k].features,
    )
    &&& forall|i: int, j: int| 0 <= i < j < r.len() ==> ranked_before(
        ((#[trigger] r[i]).candidate, r[i].features),
        ((#[trigger] r[j]).candidate, r[j].features),
    )
    &&& forall|p: Accumulated| accs.contains(p) <==> exists|k: int| 0 <= k < r.len() && (
        (#[trigger] r[k]).candidate, r[k].features) == p
    &&& senses_distinct(accs)
}

/// Fuses lexical and vector candidates by sense ID, retaining each strongest independent
/// signal.
///
/// Candidates are filtered again for release, lifecycle, lexeme/sense ownership, and source
/// permissions as defense in depth. Of candidates sharing a sense, the smallest in the derived
/// order stays. Equal scores fall back to the complete lexical IDs as a stable tie-break, and
/// ranks count from one in that order.
pub fn fuse_candidates(
    content: &ActiveContentVersion,
    evidence_use: EvidenceUse,
    lexical_matches: Vec<RepositoryMatch>,
    vector_matches: Vec<HydratedVectorMatch>,
) -> (r: Vec<RankedCandidate>)
    ensures
        fused_ranking(*content, evidence_use, lexical_matches@, vector_matches@, r@),
{
    let ghost l0 = lexical_matches@;
    let ghost v0 = vector_matches@;
    let mut accs: Vec<Accumulated> = Vec::new();
    let mut lexical = lexical_matches;
    while lexical.len() > 0
        invariant
            fold_lexical(accs@, *content, evidence_use, lexical@) == fold_lexical(Seq::empty(), *content, evidence_use, l0),
            senses_distinct(accs@),
        decreases lexical.len(),
    {
        let m = lexical.remove(0);
        let ghost before = accs@;
        if m.candidate.is_eligible_for(&content.release_id, evidence_use) {
            proof {
                lemma_merge_keeps_distinct(accs@, m.candidate, CandidateSignal::Lexical(m.kind, m.score));
            }
            merge_candidate(&mut accs, m.candidate, CandidateSignal::Lexical(m.kind, m.score));
        }
    }
    let mut vectors = vector_matches;
    while vectors.len() > 0
        invariant
            fold_vector(accs@, *content, evidence_use, vectors@) == fused_accumulators(*content, evidence_use, l0, v0),
            senses_distinct(accs@),
        decreases vectors.len(),
    {
        let v = vectors.remove(0);
        let targets = match v.vector.target.sense_id() {
            Some(s) => s.same(&v.candidate.sense.id),
            None => false,
        };
        let purpose_ok = v.vector.purpose == VectorPurpose::CanonicalEnglishSense || v.vector.purpose
            == VectorPurpose::LocalizedGloss;
        if targets && purpose_ok && v.vector.release_id.same(&content.release_id)
            && v.vector.vector_collection_id.same(&content.vector_collection_id)
            && v.candidate.is_eligible_for(&content.release_id, evidence_use) {
            proof {
                lemma_merge_keeps_distinct(accs@, v.candidate, CandidateSignal::Vector(v.vector.score, v.vector.purpose));
            }
            merge_candidate(&mut accs, v.candidate, CandidateSignal::Vector(v.vector.score, v.vector.purpose));
        }
    }
    let ghost all = accs@;
    let sorted = sort_accumulated(accs);
    let mut rest = sorted;
    let mut ranked: Vec<RankedCandidate> = Vec::new();
    let ghost s0 = rest@;
    assert(s0.len() == rest.len());
    assert(s0.skip(0) =~= s0);
    while rest.len() > 0
        invariant
            rest@ == s0.skip(ranked@.len() as int),
            s0.len() <= usize::MAX,
            ranked@.len() <= s0.len(),
            s0.len() == all.len(),
            accs_sorted(s0),
            forall|p: Accumulated| all.contains(p) <==> s0.contains(p),
            forall|k: int| 0 <= k < ranked@.len() ==> (#[trigger] ranked@[k]).rank == k + 1
                && ranked@[k].fusion_score == fusion_value(ranked@[k].features) && (ranked@[k].candidate,
                ranked@[k].features) == s0[k],
        decreases rest.len(),
    {
        let (candidate, features) = rest.remove(0);
        let fusion_score = features.fusion_score();
        let ghost k: int = ranked@.len() as int;
        proof {
            assert(s0.skip(k as int)[0] == s0[k as int]);
        }
        ranked.push(RankedCandidate { candidate, features, rank: ranked.len() + 1, fusion_score });
        proof {
            assert(s0.skip(k as int).drop_first() =~= s0.skip(k + 1));
        }
    }
    proof {
        assert forall|p: Accumulated| all.contains(p) <==> exists|k: int| 0 <= k < ranked@.len() && (
            (#[trigger] ranked@[k]).candidate, ranked@[k].features) == p by {
            if s0.contains(p) {
                let k = choose|k: int| 0 <= k < s0.len() && s0[k] == p;
                assert((ranked@[k].candidate, ranked@[k].features) == p);
            }
        }
    }
    ranked
}

fn merge_candidate(accs: &mut Vec<Accumulated>, candidate: CanonicalCandidate, signal: CandidateSignal)
    ensures
        final(accs)@ == merge_signal(old(accs)@, candidate, signal),
{
    let mut j: usize = accs.len();
    assert(accs@.take(accs@.len() as int) =~= accs@);
    while j > 0 && !accs[j - 1].0.sense.id.same(&candidate.sense.id)
        invariant
            j <= accs.len(),
            acc_index(accs@, candidate.sense.id@) == acc_index(accs@.take(j as int), candidate.sense.id@),
        decreases j,
    {
        proof {
            assert(accs@.take(j as int).drop_last() =~= accs@.take(j - 1));
        }
        j -= 1;
    }
    proof {
        assert(accs@.take(accs@.len() as int) =~= accs@);
    }
    if j == 0 {
        let mut features = CandidateFeatures::default();
        features.record_signal(signal);
        accs.push((candidate, features));
    } else {
        let i = j - 1;
        proof {
            assert(acc_index(accs@.take(j as int), candidate.sense.id@) == i);
        }
        let (current, mut features) = accs.remove(i);
        features.record_signal(signal);
        let keep = if candidate_before(&candidate, &current) {
            candidate
        } else {
            current
        };
        accs.insert(i, (keep, features));
    }
}

fn sort_accumulated(accs: Vec<Accumulated>) -> (r: Vec<Accumulated>)
    requires
        senses_distinct(accs@),
    ensures
        accs_sorted(r@),
        r@.len() == accs@.len(),
        forall|p: Accumulated| accs@.contains(p) <==> r@.contains(p),
{
    let ghost a0 = accs@;
    let mut rest = accs;
    let mut out: Vec<Accumulated> = Vec::new();
    while rest.len() > 0
        invariant
            accs_sorted(out@),
            rest@ == a0.skip(out@.len() as int),
            out@.len() <= a0.len(),
            senses_distinct(a0),
            forall|p: Accumulated| out@.contains(p) <==> a0.take(out@.len() as int).contains(p),
        decreases rest.len(),
    {
        let ghost n: int = out@.len() as int;
        let x = rest.remove(0);
        proof {
            assert(a0.skip(n as int)[0] == a0[n as int]);
            assert(a0.skip(n as int).drop_first() =~= a0.skip(n + 1));
        }
        let mut j: usize = 0;
        while j < out.len() && !before_in_rank(&x, &out[j])
            invariant
                j <= out.len(),
                forall|q: int| 0 <= q < j ==> !ranked_before(x, #[trigger] out@[q]),
            decreases out.len() - j,
        {
            j += 1;
        }
        let ghost before = out@;
        proof {
            assert forall|q: int| 0 <= q < before.len() implies (#[trigger] before[q]).0.sense.id@ != x.0.sense.id@ by {
                assert(before.contains(before[q]));
                assert(a0.take(n as int).contains(before[q]));
                let k = choose|k: int| 0 <= k < n && a0.take(n as int)[k] == before[q];
                assert(a0[k] == before[q]);
            }
        }
        out.insert(j, x);
        proof {
            assert forall|a: int, b: int| 0 <= a < b < out@.len() implies ranked_before(#[trigger] out@[a], #[trigger] out@[b]) by {
                if b < j {
                    assert(out@[a] == before[a] && out@[b] == before[b]);
                } else if b == j {
                    assert(out@[a] == before[a]);
                    lemma_ranked_before(before[a], x, x);
                } else if a == j {
                    assert(out@[b] == before[b - 1]);
                    if b - 1 > j {
                        lemma_ranked_before(x, before[j as int], before[b - 1]);
                    }
                } else if a < j {
                    assert(out@[a] == before[a] && out@[b] == before[b - 1]);
                } else {
                    assert(out@[a] == before[a - 1] && out@[b] == before[b - 1]);
                }
            }
            assert(a0.take(n + 1) =~= a0.take(n as int).push(x));
            assert forall|p: Accumulated| out@.contains(p) <==> a0.take(n + 1).contains(p) by {
                if out@.contains(p) {
                    let k = choose|k: int| 0 <= k < out@.len() && out@[k] == p;
                    if k < j {
                        assert(before[k] == p);
                        assert(before.contains(p));
                    } else if k > j {
                        assert(before[k - 1] == p);
                        assert(before.contains(p));
                    }
                    if before.contains(p) {
                        let q = choose|q: int| 0 <= q < n && a0.take(n as int)[q] == p;
                        assert(a0.take(n + 1)[q] == p);
                    } else {
                        assert(a0.take(n + 1)[n as int] == p);
                    }
                }
                if a0.take(n + 1).contains(p) {
                    let q = choose|q: int| 0 <= q < n + 1 && #[trigger] a0.take(n + 1)[q] == p;
                    if q < n {
                        assert(a0.take(n as int)[q] == p);
                        assert(before.contains(p));
                        let k = choose|k: int| 0 <= k < before.len() && before[k] == p;
                        if k < j {
                            assert(out@[k] == p);
                        } else {
                            assert(out@[k + 1] == p);
                        }
                    } else {
                        assert(out@[j as int] == p);
                    }
                }
            }
        }
    }
    proof {
        assert(a0.take(a0.len() as int) =~= a0);
    }
    out
}


/// Whether `needle` occurs in `hay` as a contiguous piece, as `str::contains` reports.
pub open spec fn text_contains(hay: Seq<char>, needle: Seq<char>) -> bool {
    exists|i: int| 0 <= i && i + needle.len() <= hay.len() && #[trigger] hay.subrange(i, i + needle.len()) == needle
}

fn contains_text(hay: &str, needle: &str) -> (b: bool)
    ensures
        b == text_contains(hay@, needle@),
{
    let h = crate::text::chars_of(hay);
    let n = crate::text::chars_of(needle);
    if n.len() > h.len() {
        return false;
    }
    let mut i: usize = 0;
    let last = h.len() - n.len();
    while i <= last
        invariant
            last == h.len() - n.len(),
            h@ == hay@,
            n@ == needle@,
            n.len() <= h.len(),
            i <= h.len() - n.len() + 1,
            forall|k: int| 0 <= k < i ==> #[trigger] hay@.subrange(k, k + needle@.len()) != needle@,
        decreases h.len() - i,
    {
        let mut j: usize = 0;
        while j < n.len() && h[i + j] == n[j]
            invariant
                i + n.len() <= h.len(),
                j <= n.len(),
                forall|q: int| 0 <= q < j ==> h@[i + q] == n@[q],
            decreases n.len() - j,
        {
            j += 1;
        }
        if j == n.len() {
            assert(hay@.subrange(i as int, i + needle@.len()) =~= needle@);
            return true;
        }
        assert(hay@.subrange(i as int, i + needle@.len())[j as int] != needle@[j as int]);
        i += 1;
    }
    proof {
        assert forall|k: int| 0 <= k && k + needle@.len() <= hay@.len() implies #[trigger] hay@.subrange(
            k,
            k + needle@.len(),
        ) != needle@ by {
            assert(k < i);
        }
    }
    false
}

/// Priority of a lexical signal kind when scores tie: exact form highest, full text lowest.
pub open spec fn match_priority(kind: LexicalMatchKind) -> int {
    match kind {
        LexicalMatchKind::ExactForm => 5,
        LexicalMatchKind::Phrase => 4,
        LexicalMatchKind::Lemma => 3,
        LexicalMatchKind::Morphology => 2,
        LexicalMatchKind::FullText => 1,
    }
}

fn lexical_match_priority(kind: LexicalMatchKind) -> (r: u8)
    ensures
        r == match_priority(kind),
{
    match kind {
        LexicalMatchKind::ExactForm => 5,
        LexicalMatchKind::Phrase => 4,
        LexicalMatchKind::Lemma => 3,
        LexicalMatchKind::Morphology => 2,
        LexicalMatchKind::FullText => 1,
    }
}

/// Orders two lexical signals by score, then by the priority of their kinds.
fn compare_lexical_signals(
    left: (LexicalMatchKind, RetrievalScore),
    right: (LexicalMatchKind, RetrievalScore),
) -> (r: Comparison)
    ensures
        (r == Comparison::Before) == !signal_at_least(
            (left.0, left.1.spec_basis_points() as int),
            (right.0, right.1.spec_basis_points() as int),
        ),
        (r == Comparison::After) == !signal_at_least(
            (right.0, right.1.spec_basis_points() as int),
            (left.0, left.1.spec_basis_points() as int),
        ),
{
    let a = left.1.basis_points();
    let b = right.1.basis_points();
    if a < b {
        return Comparison::Before;
    }
    if a > b {
        return Comparison::After;
    }
    let p = lexical_match_priority(left.0);
    let q = lexical_match_priority(right.0);
    if p < q {
        Comparison::Before
    } else if p > q {
        Comparison::After
    } else {
        Comparison::Same
    }
}

/// The lexical signal kind a matching stored form of kind `kind` gives.
pub open spec fn spec_form_match_kind(kind: FormKind) -> LexicalMatchKind {
    match kind {
        FormKind::Lemma => LexicalMatchKind::Lemma,
        FormKind::SpellingVariant | FormKind::Alias => LexicalMatchKind::ExactForm,
        FormKind::Inflection => LexicalMatchKind::Morphology,
        FormKind::Phrase => LexicalMatchKind::Phrase,
    }
}

/// The score, in basis points, a matching stored form of kind `kind` gives.
pub open spec fn spec_form_score(kind: FormKind) -> int {
    match kind {
        FormKind::Inflection => 7_500,
        _ => 10_000,
    }
}

fn form_match_kind(kind: FormKind) -> (r: LexicalMatchKind)
    ensures
        r == spec_form_match_kind(kind),
{
    match kind {
        FormKind::Lemma => LexicalMatchKind::Lemma,
        FormKind::SpellingVariant | FormKind::Alias => LexicalMatchKind::ExactForm,
        FormKind::Inflection => LexicalMatchKind::Morphology,
        FormKind::Phrase => LexicalMatchKind::Phrase,
    }
}

fn form_score(kind: FormKind) -> (r: RetrievalScore)
    ensures
        r.spec_basis_points() == spec_form_score(kind),
{
    match kind {
        FormKind::Inflection => RetrievalScore(7_500),
        _ => RetrievalScore::exact(),
    }
}

/// Whether signal `a` is at least as strong as `b`: higher score, then higher priority.
pub open spec fn signal_at_least(a: (LexicalMatchKind, int), b: (LexicalMatchKind, int)) -> bool {
    a.1 > b.1 || (a.1 == b.1 && match_priority(a.0) >= match_priority(b.0))
}

/// The strongest signal among the first `n` forms that are active and whose normalized form
/// equals `query`; of equally strong signals the last one counts, as `Iterator::max_by` keeps it.
pub open spec fn best_form_signal(forms: Seq<WordForm>, query: Seq<char>, n: int) -> Option<(LexicalMatchKind, int)>
    decreases n,
{
    if n <= 0 {
        None
    } else {
        let prev = best_form_signal(forms, query, n - 1);
        let f = forms[n - 1];
        if f.status == CanonicalStatus::Active && f.normalized_form@ == query {
            let cand = (spec_form_match_kind(f.kind), spec_form_score(f.kind));
            match prev {
                None => Some(cand),
                Some(p) => if signal_at_least(cand, p) {
                    Some(cand)
                } else {
                    prev
                },
            }
        } else {
            prev
        }
    }
}

/// The strongest simple in-memory lexical signal of a candidate for `query`, with its score in
/// basis points: an exact lemma match, else the strongest matching active form, else a
/// full-text match of the normalized definition.
pub open spec fn in_memory_signal(c: CanonicalCandidate, query: Seq<char>) -> Option<(LexicalMatchKind, int)> {
    if c.lexeme.normalized_lemma@ == query {
        Some((LexicalMatchKind::Lemma, 10_000))
    } else if best_form_signal(c.forms@, query, c.forms@.len() as int) is Some {
        best_form_signal(c.forms@, query, c.forms@.len() as int)
    } else if text_contains(normalized_query(c.sense.definition@), query) {
        Some((LexicalMatchKind::FullText, 2_500))
    } else {
        None
    }
}

impl CanonicalCandidate {
    /// Returns the strongest simple in-memory lexical signal for `query`.
    pub fn in_memory_match(&self, query: &str) -> (r: Option<(LexicalMatchKind, RetrievalScore)>)
        ensures
            match (r, in_memory_signal(*self, query@)) {
                (None, None) => true,
                (Some((k, s)), Some((sk, sb))) => k == sk && s.spec_basis_points() == sb,
                _ => false,
            },
    {
        if crate::text::str_eq(self.lexeme.normalized_lemma.as_str(), query) {
            return Some((LexicalMatchKind::Lemma, RetrievalScore::exact()));
        }
        let mut best: Option<(LexicalMatchKind, RetrievalScore)> = None;
        let mut i: usize = 0;
        while i < self.forms.len()
            invariant
                i <= self.forms.len(),
                match (best, best_form_signal(self.forms@, query@, i as int)) {
                    (None, None) => true,
                    (Some((k, s)), Some((sk, sb))) => k == sk && s.spec_basis_points() == sb,
                    _ => false,
                },
            decreases self.forms.len() - i,
        {
            let f = &self.forms[i];
            if f.status == CanonicalStatus::Active && crate::text::str_eq(f.normalized_form.as_str(), query) {
                let kind = form_match_kind(f.kind);
                let score = form_score(f.kind);
                let replace = match best {
                    None => true,
                    Some(b) => !matches!(compare_lexical_signals((kind, score), b), Comparison::Before),
                };
                if replace {
                    best = Some((kind, score));
                }
            }
            i += 1;
        }
        if best.is_some() {
            return best;
        }
        let definition = normalize_lookup_key(self.sense.definition.as_str());
        if contains_text(definition.as_str(), query) {
            return Some((LexicalMatchKind::FullText, RetrievalScore(2_500)));
        }
        None
    }
}

} // verus!
