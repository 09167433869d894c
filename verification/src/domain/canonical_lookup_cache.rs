//! Public-only canonical lookup snapshot cache keys, values, and privacy boundaries.

use crate::domain::canonical::{ActiveContentVersion, EvidenceFragment, EvidenceUse, LanguageTag};
use crate::domain::retrieval::{
    candidate_is_eligible, normalized_query, CanonicalCandidate, RankedCandidate, RetrievalPath,
    RetrievalRequest, RetrievalValidationError,
};
use crate::text::{decimal_text, is_blank, push_decimal, str_is_blank, trim, trimmed_string};
use sha2::Digest;
use vstd::prelude::*;
use vstd::string::StringExecFns;

verus! {

/// Validation failure while constructing a public canonical lookup cache contract.
#[derive(Debug, Clone, Copy, PartialEq, Eq, Structural)]
pub enum CanonicalLookupCacheValidationError {
    /// A cache-affecting policy version was blank after trimming surrounding whitespace.
    BlankPolicyVersion,
    /// The canonical schema version in an active content tuple was blank.
    BlankSchemaVersion,
    /// The deterministic ranking version in an active content tuple was blank.
    BlankRankingVersion,
    /// The source retrieval request was invalid for a bounded public lookup.
    Retrieval(RetrievalValidationError),
    /// A snapshot candidate exceeded the candidate limit encoded in its cache key.
    CandidateLimitExceeded,
    /// Snapshot candidates were not in their deterministic zero-free rank sequence.
    InvalidRankSequence,
    /// The same canonical sense appeared more than once in one snapshot.
    DuplicateSense,
    /// A candidate did not match the key's language, release, lifecycle, or public source
    /// policy.
    IneligibleCandidate,
}

impl CanonicalLookupCacheValidationError {
    /// Human-readable description of the failure.
    pub fn message(&self) -> (r: &'static str)
        ensures
            r@ == match *self {
                CanonicalLookupCacheValidationError::BlankPolicyVersion => "canonical-card policy version must not be blank"@,
                CanonicalLookupCacheValidationError::BlankSchemaVersion => "active canonical schema version must not be blank"@,
                CanonicalLookupCacheValidationError::BlankRankingVersion => "active canonical ranking version must not be blank"@,
                CanonicalLookupCacheValidationError::Retrieval(e) => match e {
                    RetrievalValidationError::BlankQuery => "retrieval query must not be blank"@,
                    RetrievalValidationError::InvalidLimit => "retrieval limit must be between 1 and 50"@,
                    RetrievalValidationError::InvalidScore => "retrieval score must be at most 10000 basis points"@,
                },
                CanonicalLookupCacheValidationError::CandidateLimitExceeded => "canonical lookup snapshot exceeds its cache-key candidate limit"@,
                CanonicalLookupCacheValidationError::InvalidRankSequence => "canonical lookup snapshot has a non-deterministic rank sequence"@,
                CanonicalLookupCacheValidationError::DuplicateSense => "canonical lookup snapshot has duplicate canonical senses"@,
                CanonicalLookupCacheValidationError::IneligibleCandidate => "canonical lookup snapshot contains a candidate ineligible for public caching"@,
            },
    {
        match self {
            CanonicalLookupCacheValidationError::BlankPolicyVersion => "canonical-card policy version must not be blank",
            CanonicalLookupCacheValidationError::BlankSchemaVersion => "active canonical schema version must not be blank",
            CanonicalLookupCacheValidationError::BlankRankingVersion => "active canonical ranking version must not be blank",
            CanonicalLookupCacheValidationError::Retrieval(e) => e.message(),
            CanonicalLookupCacheValidationError::CandidateLimitExceeded => "canonical lookup snapshot exceeds its cache-key candidate limit",
            CanonicalLookupCacheValidationError::InvalidRankSequence => "canonical lookup snapshot has a non-deterministic rank sequence",
            CanonicalLookupCacheValidationError::DuplicateSense => "canonical lookup snapshot has duplicate canonical senses",
            CanonicalLookupCacheValidationError::IneligibleCandidate => "canonical lookup snapshot contains a candidate ineligible for public caching",
        }
    }
}

impl From<RetrievalValidationError> for CanonicalLookupCacheValidationError {
    fn from(e: RetrievalValidationError) -> (r: Self) {
        CanonicalLookupCacheValidationError::Retrieval(e)
    }
}

impl vstd::std_specs::convert::FromSpecImpl<RetrievalValidationError> for CanonicalLookupCacheValidationError {
    open spec fn obeys_from_spec() -> bool {
        true
    }

    open spec fn from_spec(e: RetrievalValidationError) -> Self {
        CanonicalLookupCacheValidationError::Retrieval(e)
    }
}

/// One nonblank implementation or policy version that changes a canonical card.
#[derive(Debug, PartialEq, Eq, PartialOrd, Ord, Hash)]
pub struct CanonicalCardPolicyVersion(String);

impl View for CanonicalCardPolicyVersion {
    type V = Seq<char>;

    closed spec fn view(&self) -> Seq<char> {
        self.0@
    }
}

impl Clone for CanonicalCardPolicyVersion {
    fn clone(&self) -> (r: Self)
        ensures
            r@ == self@,
    {
        CanonicalCardPolicyVersion(self.0.clone())
    }
}

impl CanonicalCardPolicyVersion {
    /// Creates a policy version after trimming surrounding whitespace; a blank value is refused.
    pub fn new(value: &str) -> (r: Result<Self, CanonicalLookupCacheValidationError>)
        ensures
            match r {
                Ok(v) => !is_blank(value@) && v@ == trim(value@),
                Err(e) => is_blank(value@) && e == CanonicalLookupCacheValidationError::BlankPolicyVersion,
            },
    {
        let trimmed = trimmed_string(value);
        if trimmed.as_str().is_empty() {
            return Err(CanonicalLookupCacheValidationError::BlankPolicyVersion);
        }
        Ok(CanonicalCardPolicyVersion(trimmed))
    }

    /// Returns the stable policy-version label.
    pub fn as_str(&self) -> (r: &str)
        ensures
            r@ == self@,
    {
        self.0.as_str()
    }
}

/// Retrieval and presentation policy versions that affect a public canonical card.
#[derive(Debug, PartialEq, Eq, Hash)]
pub struct CanonicalCardPolicyVersions {
    retrieval_policy_version: CanonicalCardPolicyVersion,
    presentation_policy_version: CanonicalCardPolicyVersion,
}

impl View for CanonicalCardPolicyVersions {
    type V = (Seq<char>, Seq<char>);

    closed spec fn view(&self) -> (Seq<char>, Seq<char>) {
        (self.retrieval_policy_version@, self.presentation_policy_version@)
    }
}

impl Clone for CanonicalCardPolicyVersions {
    fn clone(&self) -> (r: Self)
        ensures
            r@ == self@,
    {
        CanonicalCardPolicyVersions {
            retrieval_policy_version: self.retrieval_policy_version.clone(),
            presentation_policy_version: self.presentation_policy_version.clone(),
        }
    }
}

impl CanonicalCardPolicyVersions {
    /// Creates explicit versions for retrieval and public-card presentation policy.
    ///
    /// Retrieval policy covers query handling, candidate selection, and fusion behavior;
    /// presentation policy covers public-card fields, attribution, and global display policy. A
    /// requester-specific mature-content choice is not a presentation policy: it bypasses this
    /// shared cache. Either version being blank is refused, the retrieval version checked first.
    pub fn new(retrieval_policy_version: &str, presentation_policy_version: &str) -> (r: Result<Self, CanonicalLookupCacheValidationError>)
        ensures
            r is Ok <==> (!is_blank(retrieval_policy_version@) && !is_blank(presentation_policy_version@)),
            r is Err ==> r == Err::<Self, _>(CanonicalLookupCacheValidationError::BlankPolicyVersion),
            r matches Ok(v) ==> v@ == (trim(retrieval_policy_version@), trim(presentation_policy_version@)),
    {
        let retrieval = match CanonicalCardPolicyVersion::new(retrieval_policy_version) {
            Ok(v) => v,
            Err(e) => return Err(e),
        };
        let presentation = match CanonicalCardPolicyVersion::new(presentation_policy_version) {
            Ok(v) => v,
            Err(e) => return Err(e),
        };
        Ok(CanonicalCardPolicyVersions { retrieval_policy_version: retrieval, presentation_policy_version: presentation })
    }

    /// Returns the version of retrieval policy represented by this cache contract.
    pub fn retrieval_policy_version(&self) -> (r: &CanonicalCardPolicyVersion)
        ensures
            r@ == self@.0,
    {
        &self.retrieval_policy_version
    }

    /// Returns the version of public-card presentation policy represented by this cache
    /// contract.
    pub fn presentation_policy_version(&self) -> (r: &CanonicalCardPolicyVersion)
        ensures
            r@ == self@.1,
    {
        &self.presentation_policy_version
    }

    /// Whether both carry the same versions.
    pub fn same(&self, other: &CanonicalCardPolicyVersions) -> (b: bool)
        ensures
            b == (self@ == other@),
    {
        self.retrieval_policy_version.0 == other.retrieval_policy_version.0
            && self.presentation_policy_version.0 == other.presentation_policy_version.0
    }
}

/// Public-only lookup inputs that can safely participate in a shared canonical-card cache.
///
/// The request always uses `EvidenceUse::ApiRedistribution`. It contains no identity, context,
/// history, mature-content choice, private feedback, or personal projection, and it has no
/// `Debug` form: `redacted_debug` describes it without the normalized query text.
#[derive(Clone, PartialEq, Eq)]
pub struct PublicCanonicalLookupRequest {
    retrieval: RetrievalRequest,
    policy_versions: CanonicalCardPolicyVersions,
}

impl PublicCanonicalLookupRequest {
    /// The normalized retrieval request.
    pub closed spec fn spec_retrieval(&self) -> RetrievalRequest {
        self.retrieval
    }

    /// The policy versions.
    pub closed spec fn spec_policy_versions(&self) -> (Seq<char>, Seq<char>) {
        self.policy_versions@
    }

    /// Validates public canonical lookup inputs and fixes evidence use to API redistribution.
    ///
    /// Fails with `Retrieval(BlankQuery)` when the normalized query is blank, which is exactly
    /// when the query is empty or whitespace only, and with `Retrieval(InvalidLimit)` when
    /// `candidate_limit` is outside 1..=50.
    pub fn new(query: &str, language: LanguageTag, candidate_limit: usize, policy_versions: CanonicalCardPolicyVersions) -> (r: Result<Self, CanonicalLookupCacheValidationError>)
        ensures
            normalized_query(query@).len() == 0 <==> trim(query@).len() == 0,
            normalized_query(query@).len() == 0 ==> r == Err::<Self, _>(
                CanonicalLookupCacheValidationError::Retrieval(RetrievalValidationError::BlankQuery),
            ),
            normalized_query(query@).len() > 0 && !(1 <= candidate_limit <= 50) ==> r == Err::<Self, _>(
                CanonicalLookupCacheValidationError::Retrieval(RetrievalValidationError::InvalidLimit),
            ),
            r is Ok <==> (normalized_query(query@).len() > 0 && 1 <= candidate_limit <= 50),
            r matches Ok(q) ==> q.spec_retrieval().query@ == normalized_query(query@) && q.spec_retrieval().language
                == language && q.spec_retrieval().evidence_use == EvidenceUse::ApiRedistribution
                && q.spec_retrieval().limit == candidate_limit && q.spec_policy_versions() == policy_versions@,
    {
        match RetrievalRequest::new(query, language, EvidenceUse::ApiRedistribution, candidate_limit) {
            Ok(retrieval) => Ok(PublicCanonicalLookupRequest { retrieval, policy_versions }),
            Err(e) => Err(CanonicalLookupCacheValidationError::Retrieval(e)),
        }
    }

    /// Returns the normalized retrieval request pinned to API-redistributable evidence.
    pub fn retrieval(&self) -> (r: &RetrievalRequest)
        ensures
            *r == self.spec_retrieval(),
    {
        &self.retrieval
    }

    /// Returns every public-card policy version that participates in cache identity.
    pub fn policy_versions(&self) -> (r: &CanonicalCardPolicyVersions)
        ensures
            r@ == self.spec_policy_versions(),
    {
        &self.policy_versions
    }

    /// A debug description that names the language, limit, evidence use and policy versions
    /// but shows `[redacted]` in place of the query.
    pub fn redacted_debug(&self) -> (r: String)
        ensures
            r@ == "PublicCanonicalLookupRequest { query: [redacted], language: "@ + self.spec_retrieval().language@
                + ", candidate_limit: "@ + decimal_text(self.spec_retrieval().limit as nat)
                + ", evidence_use: api_redistribution, policy_versions: "@ + policy_text(self.spec_policy_versions())
                + " }"@,
    {
        let mut s = String::new();
        s.append("PublicCanonicalLookupRequest { query: [redacted], language: ");
        s.append(self.retrieval.language.as_str());
        s.append(", candidate_limit: ");
        push_decimal(&mut s, self.retrieval.limit as u64);
        s.append(", evidence_use: api_redistribution, policy_versions: ");
        push_policy_text(&mut s, &self.policy_versions);
        s.append(" }");
        s
    }
}

/// The text describing policy versions in redacted debug output.
pub open spec fn policy_text(p: (Seq<char>, Seq<char>)) -> Seq<char> {
    "{ retrieval: "@ + p.0 + ", presentation: "@ + p.1 + " }"@
}

fn push_policy_text(s: &mut String, p: &CanonicalCardPolicyVersions)
    ensures
        final(s)@ == old(s)@ + policy_text(p@),
{
    s.append("{ retrieval: ");
    s.append(p.retrieval_policy_version.as_str());
    s.append(", presentation: ");
    s.append(p.presentation_policy_version.as_str());
    s.append(" }");
}

/// The SHA-256 digest, as `sha2::Sha256::digest` computes it, of the UTF-8 encoding of
/// `text`.
pub uninterp spec fn sha256_of_text(text: Seq<char>) -> Seq<u8>;

/// Calls `sha2::Sha256::digest` on the UTF-8 bytes of `text`; the result is named by
/// `sha256_of_text` and is always 32 bytes long.
#[verifier::external_body]
fn query_fingerprint(text: &str) -> (r: Vec<u8>)
    ensures
        r@ == sha256_of_text(text@),
        r@.len() == 32,
{
    sha2::Sha256::digest(text.as_bytes()).to_vec()
}

/// The observable identity of a snapshot key.
pub struct SnapshotKeyModel {
    pub content: (Seq<char>, Seq<char>, Seq<char>, Seq<char>),
    pub policy_versions: (Seq<char>, Seq<char>),
    pub language: Seq<char>,
    pub candidate_limit: usize,
    pub query_fingerprint: Seq<u8>,
}

/// The key of the snapshot for `request` over `content`.
pub open spec fn snapshot_key_of(request: PublicCanonicalLookupRequest, content: ActiveContentVersion) -> SnapshotKeyModel {
    SnapshotKeyModel {
        content: content@,
        policy_versions: request.spec_policy_versions(),
        language: request.spec_retrieval().language@,
        candidate_limit: request.spec_retrieval().limit,
        query_fingerprint: sha256_of_text(request.spec_retrieval().query@),
    }
}

/// Two lookups share a snapshot key only when they agree on every input but the query text,
/// and their normalized queries have the same SHA-256 fingerprint: a change of release,
/// vector collection, schema, ranking, either policy version, language or candidate limit
/// always gives another key.
pub proof fn lemma_key_separates_inputs(
    r1: PublicCanonicalLookupRequest,
    c1: ActiveContentVersion,
    r2: PublicCanonicalLookupRequest,
    c2: ActiveContentVersion,
)
    requires
        snapshot_key_of(r1, c1) == snapshot_key_of(r2, c2),
    ensures
        c1@ == c2@,
        r1.spec_policy_versions() == r2.spec_policy_versions(),
        r1.spec_retrieval().language@ == r2.spec_retrieval().language@,
        r1.spec_retrieval().limit == r2.spec_retrieval().limit,
        sha256_of_text(r1.spec_retrieval().query@) == sha256_of_text(r2.spec_retrieval().query@),
{
}

/// Stable public-only identity for one rebuildable canonical-card snapshot.
///
/// The key includes the immutable lexical release, vector collection, canonical schema,
/// ranking, retrieval policy, presentation policy, normalized lookup language, candidate limit,
/// and a SHA-256 fingerprint of the normalized query. It never retains raw query text.
#[derive(PartialEq, Eq, Hash)]
pub struct CanonicalLookupSnapshotKey {
    content: ActiveContentVersion,
    policy_versions: CanonicalCardPolicyVersions,
    language: LanguageTag,
    candidate_limit: usize,
    query_fingerprint: Vec<u8>,
}

impl View for CanonicalLookupSnapshotKey {
    type V = SnapshotKeyModel;

    closed spec fn view(&self) -> SnapshotKeyModel {
        SnapshotKeyModel {
            content: self.content@,
            policy_versions: self.policy_versions@,
            language: self.language@,
            candidate_limit: self.candidate_limit,
            query_fingerprint: self.query_fingerprint@,
        }
    }
}

impl Clone for CanonicalLookupSnapshotKey {
    fn clone(&self) -> (r: Self)
        ensures
            r@ == self@,
            r.spec_content() == self.spec_content(),
    {
        let query_fingerprint = self.query_fingerprint.clone();
        assert(query_fingerprint@ =~= self.query_fingerprint@);
        CanonicalLookupSnapshotKey {
            content: self.content.clone(),
            policy_versions: self.policy_versions.clone(),
            language: self.language.clone(),
            candidate_limit: self.candidate_limit,
            query_fingerprint,
        }
    }
}

/// The error an active-content tuple is refused with by the cache, if any.
pub open spec fn cache_content_error(a: ActiveContentVersion) -> Option<CanonicalLookupCacheValidationError> {
    if is_blank(a.schema_version@) {
        Some(CanonicalLookupCacheValidationError::BlankSchemaVersion)
    } else if is_blank(a.ranking_version@) {
        Some(CanonicalLookupCacheValidationError::BlankRankingVersion)
    } else {
        None
    }
}

/// Checks that the schema and ranking versions of the content tuple are not blank.
pub fn validate_content(content: &ActiveContentVersion) -> (r: Result<(), CanonicalLookupCacheValidationError>)
    ensures
        match cache_content_error(*content) {
            Some(e) => r == Err::<(), _>(e),
            None => r is Ok,
        },
{
    if str_is_blank(content.schema_version.as_str()) {
        return Err(CanonicalLookupCacheValidationError::BlankSchemaVersion);
    }
    if str_is_blank(content.ranking_version.as_str()) {
        return Err(CanonicalLookupCacheValidationError::BlankRankingVersion);
    }
    Ok(())
}

impl CanonicalLookupSnapshotKey {
    /// The content tuple.
    pub closed spec fn spec_content(&self) -> ActiveContentVersion {
        self.content
    }

    /// Builds a cache key from a public request and the active immutable content tuple.
    ///
    /// Fails when the content tuple has a blank schema or ranking version.
    pub fn new(request: &PublicCanonicalLookupRequest, content: ActiveContentVersion) -> (r: Result<Self, CanonicalLookupCacheValidationError>)
        ensures
            match cache_content_error(content) {
                Some(e) => r == Err::<Self, _>(e),
                None => r matches Ok(k) && k.spec_content() == content && k@ == snapshot_key_of(*request, content),
            },
    {
        match validate_content(&content) {
            Ok(()) => {},
            Err(e) => return Err(e),
        }
        let query_fingerprint = query_fingerprint(request.retrieval.query.as_str());
        Ok(CanonicalLookupSnapshotKey {
            content,
            policy_versions: request.policy_versions.clone(),
            language: request.retrieval.language.clone(),
            candidate_limit: request.retrieval.limit,
            query_fingerprint,
        })
    }

    /// Returns the full immutable content tuple encoded in this key.
    pub fn content(&self) -> (r: &ActiveContentVersion)
        ensures
            *r == self.spec_content(),
            r@ == self@.content,
    {
        &self.content
    }

    /// Returns the retrieval and presentation policy versions encoded in this key.
    pub fn policy_versions(&self) -> (r: &CanonicalCardPolicyVersions)
        ensures
            r@ == self@.policy_versions,
    {
        &self.policy_versions
    }

    /// Returns the normalized lookup language encoded in this key.
    pub fn language(&self) -> (r: &LanguageTag)
        ensures
            r@ == self@.language,
    {
        &self.language
    }

    /// Returns the bounded candidate count encoded in this key.
    pub fn candidate_limit(&self) -> (r: usize)
        ensures
            r == self@.candidate_limit,
    {
        self.candidate_limit
    }

    /// Whether both keys encode the same inputs.
    pub fn same(&self, other: &CanonicalLookupSnapshotKey) -> (b: bool)
        ensures
            b == (self@ == other@),
    {
        if !(self.content.same(&other.content) && self.policy_versions.same(&other.policy_versions)
            && self.language.same(&other.language) && self.candidate_limit == other.candidate_limit) {
            return false;
        }
        if self.query_fingerprint.len() != other.query_fingerprint.len() {
            return false;
        }
        let mut i: usize = 0;
        while i < self.query_fingerprint.len()
            invariant
                i <= self.query_fingerprint.len() == other.query_fingerprint.len(),
                forall|k: int| 0 <= k < i ==> self.query_fingerprint@[k] == other.query_fingerprint@[k],
            decreases self.query_fingerprint.len() - i,
        {
            if self.query_fingerprint[i] != other.query_fingerprint[i] {
                return false;
            }
            i += 1;
        }
        assert(self.query_fingerprint@ =~= other.query_fingerprint@);
        true
    }

    /// A debug description that shows every input of the key but `[redacted]` in place of the
    /// query fingerprint.
    pub fn redacted_debug(&self) -> (r: String)
        ensures
            r@ == key_debug_text(self@),
    {
        let mut s = String::new();
        push_key_text(&mut s, self);
        s
    }
}

/// The redacted debug text of a key.
pub open spec fn key_debug_text(k: SnapshotKeyModel) -> Seq<char> {
    "CanonicalLookupSnapshotKey { content: { release: "@ + k.content.0 + ", vectors: "@ + k.content.1
        + ", schema: "@ + k.content.2 + ", ranking: "@ + k.content.3 + " }, policy_versions: "@ + policy_text(
        k.policy_versions,
    ) + ", language: "@ + k.language + ", candidate_limit: "@ + decimal_text(k.candidate_limit as nat)
        + ", query_fingerprint: [redacted] }"@
}

fn push_key_text(s: &mut String, k: &CanonicalLookupSnapshotKey)
    ensures
        final(s)@ == old(s)@ + key_debug_text(k@),
{
    s.append("CanonicalLookupSnapshotKey { content: { release: ");
    s.append(k.content.release_id.as_str());
    s.append(", vectors: ");
    s.append(k.content.vector_collection_id.as_str());
    s.append(", schema: ");
    s.append(k.content.schema_version.as_str());
    s.append(", ranking: ");
    s.append(k.content.ranking_version.as_str());
    s.append(" }, policy_versions: ");
    push_policy_text(s, &k.policy_versions);
    s.append(", language: ");
    s.append(k.language.as_str());
    s.append(", candidate_limit: ");
    push_decimal(s, k.candidate_limit as u64);
    s.append(", query_fingerprint: [redacted] }");
}

/// The fragments of `evidence` that may be redistributed through the public API in the
/// release named `release_id`, in their order.
pub open spec fn redistributable(evidence: Seq<EvidenceFragment>, release_id: Seq<char>) -> Seq<EvidenceFragment>
    decreases evidence.len(),
{
    if evidence.len() == 0 {
        Seq::empty()
    } else {
        let rest = redistributable(evidence.drop_last(), release_id);
        if evidence.last().spec_permits(release_id, EvidenceUse::ApiRedistribution) {
            rest.push(evidence.last())
        } else {
            rest
        }
    }
}

fn retain_redistributable(evidence: Vec<EvidenceFragment>, release_id: &crate::domain::canonical::ReleaseId) -> (r: Vec<EvidenceFragment>)
    ensures
        r@ == redistributable(evidence@, release_id@),
{
    let ghost e0 = evidence@;
    let total = evidence.len();
    let mut rest = evidence;
    let mut kept: Vec<EvidenceFragment> = Vec::new();
    let mut n: usize = 0;
    while rest.len() > 0
        invariant
            rest@ == e0.skip(n as int),
            n + rest.len() == e0.len(),
            e0.len() == total,
            kept@ == redistributable(e0.take(n as int), release_id@),
        decreases rest.len(),
    {
        let e = rest.remove(0);
        proof {
            assert(e0.skip(n as int)[0] == e0[n as int]);
            assert(e0.skip(n as int).drop_first() =~= e0.skip(n + 1));
            assert(e0.take(n + 1).drop_last() =~= e0.take(n as int));
        }
        if e.permits(release_id, EvidenceUse::ApiRedistribution) {
            kept.push(e);
        }
        n += 1;
    }
    assert(e0.take(e0.len() as int) =~= e0);
    kept
}

/// The error of candidate `i` of a snapshot for `key`, if any: a rank other than `i + 1`, a
/// sense already listed, or a candidate of another language or not eligible for public
/// redistribution in the key's release.
pub open spec fn snapshot_item_error(key: SnapshotKeyModel, cands: Seq<RankedCandidate>, i: int) -> Option<CanonicalLookupCacheValidationError> {
    if cands[i].rank != i + 1 {
        Some(CanonicalLookupCacheValidationError::InvalidRankSequence)
    } else if exists|j: int| 0 <= j < i && (#[trigger] cands[j]).candidate.sense.id@ == cands[i].candidate.sense.id@ {
        Some(CanonicalLookupCacheValidationError::DuplicateSense)
    } else if cands[i].candidate.lexeme.language@ != key.language || !candidate_is_eligible(
        cands[i].candidate,
        key.content.0,
        EvidenceUse::ApiRedistribution,
    ) {
        Some(CanonicalLookupCacheValidationError::IneligibleCandidate)
    } else {
        None
    }
}

/// The error of the first refused candidate among the first `n`, if any.
pub open spec fn first_snapshot_error(key: SnapshotKeyModel, cands: Seq<RankedCandidate>, n: int) -> Option<CanonicalLookupCacheValidationError>
    decreases n,
{
    if n <= 0 {
        None
    } else {
        match first_snapshot_error(key, cands, n - 1) {
            Some(e) => Some(e),
            None => snapshot_item_error(key, cands, n - 1),
        }
    }
}

proof fn lemma_first_snapshot_error_sticks(key: SnapshotKeyModel, cands: Seq<RankedCandidate>, k: int, m: int)
    requires
        0 <= k <= m,
        first_snapshot_error(key, cands, k) is Some,
    ensures
        first_snapshot_error(key, cands, m) == first_snapshot_error(key, cands, k),
    decreases m - k,
{
    if m > k {
        lemma_first_snapshot_error_sticks(key, cands, k, m - 1);
    }
}

/// The error a snapshot's candidates are refused with, if any: more candidates than the key
/// allows, or the first refused candidate.
pub open spec fn snapshot_error(key: SnapshotKeyModel, cands: Seq<RankedCandidate>) -> Option<CanonicalLookupCacheValidationError> {
    if cands.len() > key.candidate_limit {
        Some(CanonicalLookupCacheValidationError::CandidateLimitExceeded)
    } else {
        first_snapshot_error(key, cands, cands.len() as int)
    }
}

/// Whether `stored` is `given` with only its redistributable evidence kept.
pub open spec fn is_public_copy(stored: RankedCandidate, given: RankedCandidate, release_id: Seq<char>) -> bool {
    &&& stored.candidate.lexeme == given.candidate.lexeme
    &&& stored.candidate.sense == given.candidate.sense
    &&& stored.candidate.forms == given.candidate.forms
    &&& stored.candidate.evidence@ == redistributable(given.candidate.evidence@, release_id)
    &&& stored.features == given.features
    &&& stored.rank == given.rank
    &&& stored.fusion_score == given.fusion_score
}

/// Rebuildable public canonical-card data retained by the snapshot-cache service.
///
/// It has no `Debug` form: `redacted_debug` exposes only version metadata, the retrieval path
/// and the candidate count. The candidate payload is filtered to API-redistributable evidence
/// before construction succeeds, and the full key is retained so a mismatched value can never
/// turn a different query, language, or candidate limit into a hit.
#[derive(Clone, PartialEq, Eq)]
pub struct CanonicalLookupSnapshot {
    key: CanonicalLookupSnapshotKey,
    retrieval_path: RetrievalPath,
    candidates: Vec<RankedCandidate>,
}

impl CanonicalLookupSnapshot {
    /// The key.
    pub closed spec fn spec_key(&self) -> SnapshotKeyModel {
        self.key@
    }

    /// The retrieval path.
    pub closed spec fn spec_retrieval_path(&self) -> RetrievalPath {
        self.retrieval_path
    }

    /// The stored candidates.
    pub closed spec fn spec_candidates(&self) -> Seq<RankedCandidate> {
        self.candidates@
    }

    /// Creates a public-only snapshot whose candidates are compatible with `key`.
    ///
    /// Every candidate must use the key's release and lookup language, have
    /// API-redistributable evidence, appear once, and keep its rank (one more than its
    /// position). Evidence that may not be redistributed is removed before the snapshot is
    /// stored.
    pub fn new(key: &CanonicalLookupSnapshotKey, candidates: Vec<RankedCandidate>, retrieval_path: RetrievalPath) -> (r: Result<Self, CanonicalLookupCacheValidationError>)
        ensures
            match snapshot_error(key@, candidates@) {
                Some(e) => r == Err::<Self, _>(e),
                None => r matches Ok(s) && s.spec_key() == key@ && s.spec_retrieval_path() == retrieval_path
                    && s.spec_candidates().len() == candidates@.len() && forall|i: int|
                    0 <= i < candidates@.len() ==> is_public_copy(
                        #[trigger] s.spec_candidates()[i],
                        candidates@[i],
                        key@.content.0,
                    ),
            },
    {
        if candidates.len() > key.candidate_limit {
            return Err(CanonicalLookupCacheValidationError::CandidateLimitExceeded);
        }
        let ghost c0 = candidates@;
        let ghost k0 = key@;
        let mut rest = candidates;
        let mut kept: Vec<RankedCandidate> = Vec::new();
        let mut i: usize = 0;
        while rest.len() > 0
            invariant
                c0 == candidates@,
                k0 == key@,
                c0.len() <= key@.candidate_limit,
                rest@ == c0.skip(i as int),
                i + rest.len() == c0.len(),
                kept@.len() == i,
                first_snapshot_error(key@, c0, i as int) is None,
                forall|k: int| 0 <= k < i ==> is_public_copy(#[trigger] kept@[k], c0[k], key@.content.0),
            decreases rest.len(),
        {
            let item = rest.remove(0);
            proof {
                assert(c0.skip(i as int)[0] == c0[i as int]);
                assert(c0.skip(i as int).drop_first() =~= c0.skip(i + 1));
            }
            if item.rank != i + 1 {
                proof {
                    lemma_first_snapshot_error_sticks(key@, c0, i + 1, c0.len() as int);
                }
                return Err(CanonicalLookupCacheValidationError::InvalidRankSequence);
            }
            let mut j: usize = 0;
            while j < i
                invariant
                    j <= i,
                    kept@.len() == i,
                    i < c0.len(),
                    item == c0[i as int],
                    item.rank == i + 1,
                    c0 == candidates@,
                    c0.len() <= key@.candidate_limit,
                    first_snapshot_error(key@, c0, i as int) is None,
                    forall|k: int| 0 <= k < i ==> is_public_copy(#[trigger] kept@[k], c0[k], key@.content.0),
                    forall|k: int| 0 <= k < j ==> (#[trigger] c0[k]).candidate.sense.id@ != item.candidate.sense.id@,
                decreases i - j,
            {
                if kept[j].candidate.sense.id.same(&item.candidate.sense.id) {
                    proof {
                        assert(is_public_copy(kept@[j as int], c0[j as int], key@.content.0));
                        assert(c0[j as int].candidate.sense.id@ == item.candidate.sense.id@);
                        assert(snapshot_item_error(key@, c0, i as int) == Some(CanonicalLookupCacheValidationError::DuplicateSense));
                        lemma_first_snapshot_error_sticks(key@, c0, i + 1, c0.len() as int);
                    }
                    return Err(CanonicalLookupCacheValidationError::DuplicateSense);
                }
                proof {
                    assert(is_public_copy(kept@[j as int], c0[j as int], key@.content.0));
                }
                j += 1;
            }
            if !item.candidate.lexeme.language.same(&key.language)
                || !item.candidate.is_eligible_for(&key.content.release_id, EvidenceUse::ApiRedistribution) {
                proof {
                    lemma_first_snapshot_error_sticks(key@, c0, i + 1, c0.len() as int);
                }
                return Err(CanonicalLookupCacheValidationError::IneligibleCandidate);
            }
            let RankedCandidate { candidate, features, rank, fusion_score } = item;
            let CanonicalCandidate { lexeme, sense, forms, evidence } = candidate;
            let evidence = retain_redistributable(evidence, &key.content.release_id);
            kept.push(RankedCandidate { candidate: CanonicalCandidate { lexeme, sense, forms, evidence }, features, rank, fusion_score });
            i += 1;
        }
        Ok(CanonicalLookupSnapshot { key: key.clone(), retrieval_path, candidates: kept })
    }

    /// Returns whether this value exactly matches every input encoded in `key`.
    pub fn matches_key(&self, key: &CanonicalLookupSnapshotKey) -> (b: bool)
        ensures
            b == (self.spec_key() == key@),
    {
        self.key.same(key)
    }

    /// Returns the full redacted cache key carried by this snapshot.
    pub fn key(&self) -> (r: &CanonicalLookupSnapshotKey)
        ensures
            r@ == self.spec_key(),
    {
        &self.key
    }

    /// Returns the immutable content tuple used to construct the snapshot.
    pub fn content(&self) -> (r: &ActiveContentVersion)
        ensures
            r@ == self.spec_key().content,
    {
        self.key.content()
    }

    /// Returns the retrieval path that built this immutable snapshot.
    ///
    /// A snapshot returned from the shared cache is always `Hybrid`; a lexical-only snapshot is
    /// returned only from an uncached rebuild so that vector recovery can improve the next
    /// public lookup.
    pub fn retrieval_path(&self) -> (r: RetrievalPath)
        ensures
            r == self.spec_retrieval_path(),
    {
        self.retrieval_path
    }

    /// Returns the retrieval and presentation policy versions used to construct the snapshot.
    pub fn policy_versions(&self) -> (r: &CanonicalCardPolicyVersions)
        ensures
            r@ == self.spec_key().policy_versions,
    {
        self.key.policy_versions()
    }

    /// Returns the bounded, deterministic public canonical candidates.
    pub fn candidates(&self) -> (r: &[RankedCandidate])
        ensures
            r@ == self.spec_candidates(),
    {
        self.candidates.as_slice()
    }

    /// A debug description with the redacted key, the retrieval path and the candidate count,
    /// and `[redacted]` in place of the candidates.
    pub fn redacted_debug(&self) -> (r: String)
        ensures
            r@ == "CanonicalLookupSnapshot { key: "@ + key_debug_text(self.spec_key()) + ", retrieval_path: "@
                + path_text(self.spec_retrieval_path()) + ", candidate_count: "@ + decimal_text(
                self.spec_candidates().len(),
            ) + ", candidates: [redacted] }"@,
    {
        let mut s = String::new();
        s.append("CanonicalLookupSnapshot { key: ");
        push_key_text(&mut s, &self.key);
        s.append(", retrieval_path: ");
        match self.retrieval_path {
            RetrievalPath::Hybrid => s.append("Hybrid"),
            RetrievalPath::LexicalFallback => s.append("LexicalFallback"),
        }
        s.append(", candidate_count: ");
        push_decimal(&mut s, self.candidates.len() as u64);
        s.append(", candidates: [redacted] }");
        s
    }
}

/// The name of a retrieval path.
pub open spec fn path_text(p: RetrievalPath) -> Seq<char> {
    match p {
        RetrievalPath::Hybrid => "Hybrid"@,
        RetrievalPath::LexicalFallback => "LexicalFallback"@,
    }
}

/// Why a lookup must bypass the shared public canonical-card cache.
#[derive(Debug, Clone, Copy, PartialEq, Eq, Hash, Structural)]
pub enum CanonicalLookupCacheBypassReason {
    /// Request-specific context could affect candidate selection or presentation.
    Context,
    /// Identity or authorization could affect the result.
    Identity,
    /// Saved, recent, or otherwise private lookup history could affect the result.
    History,
    /// Incognito behavior must not read or write shared cache state.
    Incognito,
    /// A requester-specific mature-content choice could affect the result.
    MatureContentChoice,
    /// Private feedback could affect the result.
    PrivateFeedback,
    /// A learner-specific projection could affect the result.
    PersonalProjection,
}

/// Explicit classification of whether a lookup may use the shared public snapshot cache.
///
/// This type never accepts the corresponding private data: a caller with any such input chooses
/// a bypass reason, and the cache service then builds an uncached public snapshot without
/// reading or writing shared cache state.
#[derive(Debug, Clone, Copy, PartialEq, Eq, Hash, Structural)]
pub enum CanonicalLookupCacheEligibility {
    /// The request has only public canonical lookup inputs and may use the shared cache.
    Public,
    /// The request has a private or request-specific influence and must not use the shared
    /// cache.
    Bypass(CanonicalLookupCacheBypassReason),
}

impl CanonicalLookupCacheEligibility {
    /// Creates a public-cache eligibility declaration.
    pub fn public() -> (r: Self)
        ensures
            r == CanonicalLookupCacheEligibility::Public,
    {
        CanonicalLookupCacheEligibility::Public
    }

    /// Creates an explicit context-sensitive cache bypass.
    pub fn with_context() -> (r: Self)
        ensures
            r == CanonicalLookupCacheEligibility::Bypass(CanonicalLookupCacheBypassReason::Context),
    {
        CanonicalLookupCacheEligibility::Bypass(CanonicalLookupCacheBypassReason::Context)
    }

    /// Creates an explicit identity-sensitive cache bypass.
    pub fn with_identity() -> (r: Self)
        ensures
            r == CanonicalLookupCacheEligibility::Bypass(CanonicalLookupCacheBypassReason::Identity),
    {
        CanonicalLookupCacheEligibility::Bypass(CanonicalLookupCacheBypassReason::Identity)
    }

    /// Creates an explicit history-sensitive cache bypass.
    pub fn with_history() -> (r: Self)
        ensures
            r == CanonicalLookupCacheEligibility::Bypass(CanonicalLookupCacheBypassReason::History),
    {
        CanonicalLookupCacheEligibility::Bypass(CanonicalLookupCacheBypassReason::History)
    }

    /// Creates an explicit incognito cache bypass.
    pub fn incognito() -> (r: Self)
        ensures
            r == CanonicalLookupCacheEligibility::Bypass(CanonicalLookupCacheBypassReason::Incognito),
    {
        CanonicalLookupCacheEligibility::Bypass(CanonicalLookupCacheBypassReason::Incognito)
    }

    /// Creates an explicit mature-content-choice cache bypass.
    pub fn with_mature_content_choice() -> (r: Self)
        ensures
            r == CanonicalLookupCacheEligibility::Bypass(CanonicalLookupCacheBypassReason::MatureContentChoice),
    {
        CanonicalLookupCacheEligibility::Bypass(CanonicalLookupCacheBypassReason::MatureContentChoice)
    }

    /// Creates an explicit private-feedback cache bypass.
    pub fn with_private_feedback() -> (r: Self)
        ensures
            r == CanonicalLookupCacheEligibility::Bypass(CanonicalLookupCacheBypassReason::PrivateFeedback),
    {
        CanonicalLookupCacheEligibility::Bypass(CanonicalLookupCacheBypassReason::PrivateFeedback)
    }

    /// Creates an explicit personal-projection cache bypass.
    pub fn with_personal_projection() -> (r: Self)
        ensures
            r == CanonicalLookupCacheEligibility::Bypass(CanonicalLookupCacheBypassReason::PersonalProjection),
    {
        CanonicalLookupCacheEligibility::Bypass(CanonicalLookupCacheBypassReason::PersonalProjection)
    }
}

} // verus!
