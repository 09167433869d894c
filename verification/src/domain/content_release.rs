//! Immutable content-release staging, validation, publication, and rollback invariants.

use crate::domain::canonical::{ActiveContentVersion, LexiconRelease, ReleaseId, ReleaseStatus, SourceId};
use crate::keyed::{collect_sorted, has_key, keys_sorted};
use crate::text::{is_blank, str_is_blank};
use vstd::prelude::*;

verus! {

/// A mandatory independently evaluated gate for publishing canonical content.
#[derive(Debug, Clone, Copy, PartialEq, Eq, PartialOrd, Ord, Hash, Structural)]
pub enum ContentReleaseGate {
    /// Structural links, release lineage, and canonical entity invariants were checked.
    StructuralIntegrity,
    /// Every intended assertion use is permitted by its source-policy snapshot.
    SourcePermissions,
    /// The derived vector collection passed its configured reconciliation check for the staged release.
    VectorReconciliation,
    /// Retrieval and teaching-quality evaluation met the configured release threshold.
    RetrievalEvaluation,
    /// Required human review completed for the proposed content scope.
    HumanReview,
    /// Safety, licensing-removal, and policy checks permit serving the release.
    Safety,
}

/// Position of a gate in declaration order, the order its derived `Ord` uses.
pub open spec fn gate_rank(g: ContentReleaseGate) -> int {
    match g {
        ContentReleaseGate::StructuralIntegrity => 0,
        ContentReleaseGate::SourcePermissions => 1,
        ContentReleaseGate::VectorReconciliation => 2,
        ContentReleaseGate::RetrievalEvaluation => 3,
        ContentReleaseGate::HumanReview => 4,
        ContentReleaseGate::Safety => 5,
    }
}

impl ContentReleaseGate {
    /// Position of this gate in declaration order.
    pub fn position(self) -> (r: u8)
        ensures
            r == gate_rank(self),
    {
        match self {
            ContentReleaseGate::StructuralIntegrity => 0,
            ContentReleaseGate::SourcePermissions => 1,
            ContentReleaseGate::VectorReconciliation => 2,
            ContentReleaseGate::RetrievalEvaluation => 3,
            ContentReleaseGate::HumanReview => 4,
            ContentReleaseGate::Safety => 5,
        }
    }
}

/// Result recorded for one required content-release gate.
#[derive(Debug, Clone, Copy, PartialEq, Eq, PartialOrd, Ord, Hash, Structural)]
pub enum ContentReleaseGateResult {
    /// The check succeeded for the staged immutable content.
    Passed,
    /// The check failed and publication must remain blocked.
    Failed,
}

/// Aggregate state of all required content-release gates.
#[derive(Debug, Clone, Copy, PartialEq, Eq, Structural)]
pub enum ContentReleaseValidationState {
    /// At least one required gate has not yet reported a result.
    Pending,
    /// Every required gate reported a passing result.
    Passed,
    /// At least one required gate reported a failing result.
    Failed,
}

/// Whether the gates of `s` strictly increase in declaration order.
pub open spec fn gates_sorted(s: Seq<ContentReleaseGate>) -> bool {
    forall|i: int, j: int| 0 <= i < j < s.len() ==> gate_rank(#[trigger] s[i]) < gate_rank(#[trigger] s[j])
}

/// Explicit policy that names every gate required to publish one release.
#[derive(Debug, PartialEq, Eq)]
pub struct ContentReleaseGatePolicy {
    required_gates: Vec<ContentReleaseGate>,
}

impl Clone for ContentReleaseGatePolicy {
    /// A policy requiring the same gates.
    fn clone(&self) -> (r: Self)
        ensures
            r.spec_required_gates() == self.spec_required_gates(),
    {
        proof {
            use_type_invariant(self);
        }
        let mut required_gates: Vec<ContentReleaseGate> = Vec::new();
        let mut i: usize = 0;
        while i < self.required_gates.len()
            invariant
                i <= self.required_gates.len(),
                required_gates@ == self.required_gates@.take(i as int),
            decreases self.required_gates.len() - i,
        {
            required_gates.push(self.required_gates[i]);
            assert(self.required_gates@.take(i + 1) =~= self.required_gates@.take(i as int).push(
                self.required_gates@[i as int],
            ));
            i += 1;
        }
        assert(self.required_gates@.take(i as int) =~= self.required_gates@);
        ContentReleaseGatePolicy { required_gates }
    }
}

impl ContentReleaseGatePolicy {
    /// Every policy names at least one gate: `new` refuses an empty one.
    #[verifier::type_invariant]
    spec fn names_some_gate(self) -> bool {
        self.required_gates@.len() > 0
    }

    /// The required gates, each once, in declaration order.
    pub closed spec fn spec_required_gates(&self) -> Seq<ContentReleaseGate> {
        self.required_gates@
    }

    /// Whether `gate` is required.
    pub open spec fn spec_requires(&self, gate: ContentReleaseGate) -> bool {
        self.spec_required_gates().contains(gate)
    }

    /// Creates the baseline policy that requires every gate, including vector reconciliation
    /// and human review.
    pub fn strict() -> (r: Self)
        ensures
            forall|g: ContentReleaseGate| r.spec_requires(g),
            gates_sorted(r.spec_required_gates()),
            r.spec_required_gates().len() > 0,
    {
        let required_gates = vec![
            ContentReleaseGate::StructuralIntegrity,
            ContentReleaseGate::SourcePermissions,
            ContentReleaseGate::VectorReconciliation,
            ContentReleaseGate::RetrievalEvaluation,
            ContentReleaseGate::HumanReview,
            ContentReleaseGate::Safety,
        ];
        proof {
            assert forall|g: ContentReleaseGate| required_gates@.contains(g) by {
                let k = gate_rank(g);
                assert(required_gates@[k] == g);
            }
        }
        ContentReleaseGatePolicy { required_gates }
    }

    /// Creates an explicit nonempty set of gates required for a release.
    ///
    /// Returns `NoRequiredGates` when no gate is supplied.
    pub fn new(required_gates: Vec<ContentReleaseGate>) -> (r: Result<Self, ContentReleaseValidationError>)
        ensures
            match r {
                Ok(p) => required_gates@.len() > 0 && p.spec_required_gates().len() > 0 && gates_sorted(p.spec_required_gates()) && forall|g: ContentReleaseGate|
                    p.spec_requires(g) <==> required_gates@.contains(g),
                Err(e) => required_gates@.len() == 0 && e == ContentReleaseValidationError::NoRequiredGates,
            },
    {
        let gates = sorted_gates(&required_gates);
        if gates.len() == 0 {
            proof {
                if required_gates@.len() > 0 {
                    assert(required_gates@.contains(required_gates@[0]));
                }
            }
            return Err(ContentReleaseValidationError::NoRequiredGates);
        }
        proof {
            if required_gates@.len() == 0 {
                assert(gates@.contains(gates@[0]));
            }
        }
        Ok(ContentReleaseGatePolicy { required_gates: gates })
    }

    /// Returns the gates required by this policy, in declaration order.
    pub fn required_gates(&self) -> (r: &Vec<ContentReleaseGate>)
        ensures
            r@ == self.spec_required_gates(),
            r@.len() > 0,
    {
        proof {
            use_type_invariant(self);
        }
        &self.required_gates
    }

    /// Returns whether `gate` must pass before publication.
    pub fn requires_gate(&self, gate: ContentReleaseGate) -> (b: bool)
        ensures
            b == self.spec_requires(gate),
    {
        let mut i: usize = 0;
        while i < self.required_gates.len()
            invariant
                i <= self.required_gates.len(),
                forall|q: int| 0 <= q < i ==> self.required_gates@[q] != gate,
            decreases self.required_gates.len() - i,
        {
            if self.required_gates[i] == gate {
                assert(self.required_gates@[i as int] == gate);
                return true;
            }
            i += 1;
        }
        false
    }
}

fn sorted_gates(gates: &Vec<ContentReleaseGate>) -> (r: Vec<ContentReleaseGate>)
    ensures
        gates_sorted(r@),
        forall|g: ContentReleaseGate| r@.contains(g) <==> gates@.contains(g),
{
    let mut out: Vec<ContentReleaseGate> = Vec::new();
    let mut i: usize = 0;
    while i < gates.len()
        invariant
            i <= gates.len(),
            gates_sorted(out@),
            forall|g: ContentReleaseGate| out@.contains(g) <==> gates@.take(i as int).contains(g),
        decreases gates.len() - i,
    {
        let t = gates[i];
        let rt = t.position();
        let mut j: usize = 0;
        while j < out.len() && out[j].position() < rt
            invariant
                j <= out.len(),
                rt == gate_rank(t),
                forall|q: int| 0 <= q < j ==> gate_rank(#[trigger] out@[q]) < gate_rank(t),
            decreases out.len() - j,
        {
            j += 1;
        }
        let ghost prev = gates@.take(i as int);
        proof {
            assert(gates@.take(i + 1) =~= prev.push(t));
            assert forall|d: ContentReleaseGate| prev.push(t).contains(d) <==> (prev.contains(d) || d == t) by {
                if prev.push(t).contains(d) {
                    let k = choose|k: int| 0 <= k < prev.push(t).len() && prev.push(t)[k] == d;
                    if k < prev.len() {
                        assert(prev[k] == d);
                    }
                }
                if prev.contains(d) {
                    let k = choose|k: int| 0 <= k < prev.len() && prev[k] == d;
                    assert(prev.push(t)[k] == d);
                }
                if d == t {
                    assert(prev.push(t)[prev.len() as int] == d);
                }
            }
        }
        if j < out.len() && out[j] == t {
            assert(out@[j as int] == t);
            assert forall|d: ContentReleaseGate| out@.contains(d) <==> gates@.take(i + 1).contains(d) by {
                if d == t {
                    assert(out@.contains(t));
                }
            }
        } else {
            let ghost before = out@;
            proof {
                if j < out.len() {
                    assert(gate_rank(out@[j as int]) != gate_rank(t));
                }
            }
            out.insert(j, t);
            proof {
                assert forall|a: int, b: int| 0 <= a < b < out@.len() implies gate_rank(#[trigger] out@[a]) < gate_rank(
                    #[trigger] out@[b],
                ) by {
                    if b < j {
                        assert(out@[a] == before[a] && out@[b] == before[b]);
                    } else if b == j {
                        assert(out@[a] == before[a]);
                    } else if a == j {
                        assert(out@[b] == before[b - 1]);
                        if b - 1 > j {
                            assert(gate_rank(before[j as int]) < gate_rank(before[b - 1]));
                        }
                    } else if a < j {
                        assert(out@[a] == before[a] && out@[b] == before[b - 1]);
                    } else {
                        assert(out@[a] == before[a - 1] && out@[b] == before[b - 1]);
                    }
                }
                assert forall|d: ContentReleaseGate| out@.contains(d) <==> (before.contains(d) || d == t) by {
                    if out@.contains(d) {
                        let k = choose|k: int| 0 <= k < out@.len() && out@[k] == d;
                        if k < j {
                            assert(before[k] == d);
                        } else if k > j {
                            assert(before[k - 1] == d);
                        }
                    }
                    if before.contains(d) {
                        let k = choose|k: int| 0 <= k < before.len() && before[k] == d;
                        if k < j {
                            assert(out@[k] == d);
                        } else {
                            assert(out@[k + 1] == d);
                        }
                    }
                    if d == t {
                        assert(out@[j as int] == d);
                    }
                }
                assert forall|d: ContentReleaseGate| out@.contains(d) <==> gates@.take(i + 1).contains(d) by {
                    assert(before.contains(d) <==> prev.contains(d));
                }
            }
        }
        i += 1;
    }
    assert(gates@.take(gates.len() as int) =~= gates@);
    out
}

/// Validation failure while constructing or transitioning a content release.
#[derive(Debug, Clone, Copy, PartialEq, Eq, Structural)]
pub enum ContentReleaseValidationError {
    /// The source manifest hash was blank after trimming surrounding whitespace.
    BlankSourceManifestHash,
    /// The canonical schema version was blank after trimming surrounding whitespace.
    BlankSchemaVersion,
    /// The deterministic ranking version was blank after trimming surrounding whitespace.
    BlankRankingVersion,
    /// The staged release does not match the release in its pinned active content version.
    ReleaseIdMismatch,
    /// No source-policy records were declared for a staged release.
    NoSources,
    /// No validation gate was required for a staged release.
    NoRequiredGates,
    /// A result was recorded for a gate that this release does not require.
    GateNotRequired,
    /// A staging-only operation was attempted after the release left staging.
    ReleaseNotStaging,
    /// An operation required a retired release that can serve as a rollback target.
    ReleaseNotRetired,
    /// An operation required the release selected by the active-content pointer.
    ReleaseNotPublished,
    /// A vector build was started more than once for an immutable release.
    VectorBuildAlreadyStarted,
    /// A vector reconciliation was reported before starting its immutable vector build.
    VectorBuildNotStarted,
    /// A vector build was reconciled after it was already marked ready.
    VectorBuildAlreadyReady,
    /// A vector build did not pin exactly the staged active-content tuple.
    VectorBindingMismatch,
    /// A vector build had no expected records to reconcile.
    ZeroExpectedVectorRecords,
    /// The vector collection record count did not equal the expected canonical count.
    VectorReconciliationMismatch {
        /// Expected derived vector record count from the staged canonical release.
        expected: u64,
        /// Observed record count in the immutable vector collection.
        indexed: u64,
    },
    /// Publication was attempted before every required gate passed.
    RequiredGatesPending,
    /// Publication was attempted while at least one required gate was failing.
    RequiredGateFailed,
    /// Publication was attempted before the pinned vector collection was reconciled and ready.
    VectorBuildNotReady,
}

impl ContentReleaseValidationError {
    /// Human-readable description of the failure, without the counts of a reconciliation
    /// mismatch.
    pub fn message(&self) -> (r: &'static str)
        ensures
            r@ == match *self {
                ContentReleaseValidationError::BlankSourceManifestHash => "content release source manifest hash must not be blank"@,
                ContentReleaseValidationError::BlankSchemaVersion => "content release schema version must not be blank"@,
                ContentReleaseValidationError::BlankRankingVersion => "content release ranking version must not be blank"@,
                ContentReleaseValidationError::ReleaseIdMismatch => "staged release ID must match the pinned active content release ID"@,
                ContentReleaseValidationError::NoSources => "content release must declare at least one source"@,
                ContentReleaseValidationError::NoRequiredGates => "content release must require at least one validation gate"@,
                ContentReleaseValidationError::GateNotRequired => "content release gate is not required by this release"@,
                ContentReleaseValidationError::ReleaseNotStaging => "content release is no longer in staging"@,
                ContentReleaseValidationError::ReleaseNotRetired => "content release is not a retained rollback target"@,
                ContentReleaseValidationError::ReleaseNotPublished => "content release is not the published active release"@,
                ContentReleaseValidationError::VectorBuildAlreadyStarted => "content release already has a vector build"@,
                ContentReleaseValidationError::VectorBuildNotStarted => "content release does not have a vector build"@,
                ContentReleaseValidationError::VectorBuildAlreadyReady => "content release vector build is already ready"@,
                ContentReleaseValidationError::VectorBindingMismatch => "vector build does not match the staged active content version"@,
                ContentReleaseValidationError::ZeroExpectedVectorRecords => "vector build must expect at least one record"@,
                ContentReleaseValidationError::VectorReconciliationMismatch { .. } => "vector reconciliation mismatch"@,
                ContentReleaseValidationError::RequiredGatesPending => "content release still has pending validation gates"@,
                ContentReleaseValidationError::RequiredGateFailed => "content release has a failed validation gate"@,
                ContentReleaseValidationError::VectorBuildNotReady => "content release vector build is not ready"@,
            },
    {
        match self {
            ContentReleaseValidationError::BlankSourceManifestHash => "content release source manifest hash must not be blank",
            ContentReleaseValidationError::BlankSchemaVersion => "content release schema version must not be blank",
            ContentReleaseValidationError::BlankRankingVersion => "content release ranking version must not be blank",
            ContentReleaseValidationError::ReleaseIdMismatch => "staged release ID must match the pinned active content release ID",
            ContentReleaseValidationError::NoSources => "content release must declare at least one source",
            ContentReleaseValidationError::NoRequiredGates => "content release must require at least one validation gate",
            ContentReleaseValidationError::GateNotRequired => "content release gate is not required by this release",
            ContentReleaseValidationError::ReleaseNotStaging => "content release is no longer in staging",
            ContentReleaseValidationError::ReleaseNotRetired => "content release is not a retained rollback target",
            ContentReleaseValidationError::ReleaseNotPublished => "content release is not the published active release",
            ContentReleaseValidationError::VectorBuildAlreadyStarted => "content release already has a vector build",
            ContentReleaseValidationError::VectorBuildNotStarted => "content release does not have a vector build",
            ContentReleaseValidationError::VectorBuildAlreadyReady => "content release vector build is already ready",
            ContentReleaseValidationError::VectorBindingMismatch => "vector build does not match the staged active content version",
            ContentReleaseValidationError::ZeroExpectedVectorRecords => "vector build must expect at least one record",
            ContentReleaseValidationError::VectorReconciliationMismatch { .. } => "vector reconciliation mismatch",
            ContentReleaseValidationError::RequiredGatesPending => "content release still has pending validation gates",
            ContentReleaseValidationError::RequiredGateFailed => "content release has a failed validation gate",
            ContentReleaseValidationError::VectorBuildNotReady => "content release vector build is not ready",
        }
    }
}

/// The error an active-content tuple is refused with, if any: a blank schema version, then a
/// blank ranking version.
pub open spec fn active_content_error(a: ActiveContentVersion) -> Option<ContentReleaseValidationError> {
    if is_blank(a.schema_version@) {
        Some(ContentReleaseValidationError::BlankSchemaVersion)
    } else if is_blank(a.ranking_version@) {
        Some(ContentReleaseValidationError::BlankRankingVersion)
    } else {
        None
    }
}

/// Checks that the schema and ranking versions of an active-content tuple are not blank.
pub fn validate_active_content_version(active_content: &ActiveContentVersion) -> (r: Result<(), ContentReleaseValidationError>)
    ensures
        match active_content_error(*active_content) {
            Some(e) => r == Err::<(), _>(e),
            None => r is Ok,
        },
{
    if str_is_blank(active_content.schema_version.as_str()) {
        return Err(ContentReleaseValidationError::BlankSchemaVersion);
    }
    if str_is_blank(active_content.ranking_version.as_str()) {
        return Err(ContentReleaseValidationError::BlankRankingVersion);
    }
    Ok(())
}

/// The error a draft is refused with, if any, checked in order: a blank manifest hash, an
/// invalid active-content tuple, a release other than the tuple's, and no sources.
pub open spec fn draft_error(
    release_id: Seq<char>,
    source_manifest_hash: Seq<char>,
    active_content: ActiveContentVersion,
    source_ids: Seq<SourceId>,
) -> Option<ContentReleaseValidationError> {
    if is_blank(source_manifest_hash) {
        Some(ContentReleaseValidationError::BlankSourceManifestHash)
    } else if active_content_error(active_content) is Some {
        active_content_error(active_content)
    } else if active_content.release_id@ != release_id {
        Some(ContentReleaseValidationError::ReleaseIdMismatch)
    } else if source_ids.len() == 0 {
        Some(ContentReleaseValidationError::NoSources)
    } else {
        None
    }
}

/// Immutable staging input for one lexical release and its compatible vector pair.
#[derive(Debug, Clone, PartialEq, Eq)]
pub struct ContentReleaseDraft {
    release: LexiconRelease,
    active_content: ActiveContentVersion,
    source_ids: Vec<SourceId>,
    gate_policy: ContentReleaseGatePolicy,
}

impl ContentReleaseDraft {
    /// The `release` field.
    pub closed spec fn spec_release(&self) -> LexiconRelease {
        self.release
    }

    /// The `active_content` field.
    pub closed spec fn spec_active_content(&self) -> ActiveContentVersion {
        self.active_content
    }

    /// The `source_ids` field.
    pub closed spec fn spec_source_ids(&self) -> Seq<SourceId> {
        self.source_ids@
    }

    /// The `gate_policy` field.
    pub closed spec fn spec_gate_policy(&self) -> ContentReleaseGatePolicy {
        self.gate_policy
    }

    /// Returns the lexical release this draft stages.
    pub fn release(&self) -> (r: &LexiconRelease)
        ensures
            *r == self.spec_release(),
    {
        &self.release
    }

    /// Returns the complete active-content tuple the release may publish after validation.
    pub fn active_content_version(&self) -> (r: &ActiveContentVersion)
        ensures
            *r == self.spec_active_content(),
    {
        &self.active_content
    }

    /// Returns every source-policy record declared by the release manifest, in ascending order.
    pub fn source_ids(&self) -> (r: &[SourceId])
        ensures
            r@ == self.spec_source_ids(),
    {
        self.source_ids.as_slice()
    }

    /// Returns the validation policy frozen into this staging draft.
    pub fn gate_policy(&self) -> (r: &ContentReleaseGatePolicy)
        ensures
            *r == self.spec_gate_policy(),
    {
        &self.gate_policy
    }


    /// Creates a staging draft pinned to one exact lexical, vector, schema, and ranking tuple.
    ///
    /// The caller supplies an already-computed source manifest hash and source-policy
    /// identifiers, kept once each in ascending order. This type does not accept source text,
    /// embeddings, or generated material.
    pub fn new(
        release_id: ReleaseId,
        source_manifest_hash: &str,
        active_content: ActiveContentVersion,
        source_ids: Vec<SourceId>,
        gate_policy: ContentReleaseGatePolicy,
    ) -> (r: Result<Self, ContentReleaseValidationError>)
        ensures
            match draft_error(release_id@, source_manifest_hash@, active_content, source_ids@) {
                Some(e) => r == Err::<Self, _>(e),
                None => r matches Ok(d) && d.spec_release().id@ == release_id@
                    && d.spec_release().source_manifest_hash@ == source_manifest_hash@
                    && d.spec_release().status == ReleaseStatus::Staging
                    && d.spec_release().rollback_predecessor is None && d.spec_active_content()
                    == active_content && keys_sorted(d.spec_source_ids()) && (forall|k: Seq<char>|
                    has_key(d.spec_source_ids(), k) <==> has_key(source_ids@, k)) && d.spec_gate_policy()
                    == gate_policy,
            },
    {
        if str_is_blank(source_manifest_hash) {
            return Err(ContentReleaseValidationError::BlankSourceManifestHash);
        }
        match validate_active_content_version(&active_content) {
            Ok(()) => {},
            Err(e) => return Err(e),
        }
        if !active_content.release_id.same(&release_id) {
            return Err(ContentReleaseValidationError::ReleaseIdMismatch);
        }
        let ghost original = source_ids@;
        let source_ids = collect_sorted(source_ids);
        if source_ids.len() == 0 {
            proof {
                if original.len() > 0 {
                    assert(has_key(original, original[0]@));
                }
            }
            return Err(ContentReleaseValidationError::NoSources);
        }
        proof {
            if original.len() == 0 {
                assert(has_key(source_ids@, source_ids@[0]@));
            }
        }
        Ok(ContentReleaseDraft {
            release: LexiconRelease {
                id: release_id,
                source_manifest_hash: source_manifest_hash.to_string(),
                status: ReleaseStatus::Staging,
                rollback_predecessor: None,
            },
            active_content,
            source_ids,
            gate_policy,
        })
    }

    /// Returns the immutable lexical release identifier reserved by this draft.
    pub fn release_id(&self) -> (r: &ReleaseId)
        ensures
            r@ == self.spec_release().id@,
    {
        &self.release.id
    }

    /// Converts the validated draft into its mutable staging aggregate, with no gate results
    /// and no vector build. Its validation state is pending, since every policy names at least
    /// one gate.
    pub fn into_release(self) -> (r: ContentRelease)
        ensures
            r.spec_release() == self.spec_release(),
            r.spec_active_content() == self.spec_active_content(),
            r.spec_source_ids() == self.spec_source_ids(),
            r.spec_gate_policy() == self.spec_gate_policy(),
            forall|g: ContentReleaseGate| r.spec_gate_results().spec_get(g) is None,
            r.spec_vector_build() is None,
            r.spec_validation_state() == ContentReleaseValidationState::Pending,
    {
        proof {
            use_type_invariant(&self.gate_policy);
        }
        let gate_results = GateResults::none();
        let ghost first = self.gate_policy.spec_required_gates()[0];
        assert(gate_results.spec_get(first) is None);
        ContentRelease {
            release: self.release,
            active_content: self.active_content,
            source_ids: self.source_ids,
            gate_policy: self.gate_policy,
            gate_results,
            vector_build: None,
        }
    }

}

/// Lifecycle metadata for count reconciliation of an immutable derived vector collection.
#[derive(Debug, Clone, PartialEq, Eq)]
pub struct VectorCollectionBuild {
    active_content: ActiveContentVersion,
    expected_records: u64,
    indexed_records: Option<u64>,
    state: VectorCollectionBuildState,
}

impl VectorCollectionBuild {
    /// The `active_content` field.
    pub closed spec fn spec_active_content(&self) -> ActiveContentVersion {
        self.active_content
    }

    /// The `expected_records` field.
    pub closed spec fn spec_expected_records(&self) -> u64 {
        self.expected_records
    }

    /// The `indexed_records` field.
    pub closed spec fn spec_indexed_records(&self) -> Option<u64> {
        self.indexed_records
    }

    /// The `state` field.
    pub closed spec fn spec_state(&self) -> VectorCollectionBuildState {
        self.state
    }

    /// Returns the exact lexical, vector, schema, and ranking tuple this build is pinned to.
    pub fn active_content_version(&self) -> (r: &ActiveContentVersion)
        ensures
            *r == self.spec_active_content(),
    {
        &self.active_content
    }

    /// Returns the canonical record count the collection must contain before publication.
    pub fn expected_records(&self) -> (r: u64)
        ensures
            r == self.spec_expected_records(),
    {
        self.expected_records
    }

    /// Returns the reconciled vector record count after a successful reconciliation.
    pub fn indexed_records(&self) -> (r: Option<u64>)
        ensures
            r == self.spec_indexed_records(),
    {
        self.indexed_records
    }

    /// Returns the lifecycle state of this derived vector collection.
    pub fn state(&self) -> (r: VectorCollectionBuildState)
        ensures
            r == self.spec_state(),
    {
        self.state
    }


    /// Starts a build for exactly one active-content tuple and expected record count.
    ///
    /// The build is an attestation boundary: a worker performs embeddings plus record-identity
    /// and content-hash reconciliation outside this model, then records the count. Fails for an
    /// invalid tuple or when no records are expected.
    pub fn new(active_content: ActiveContentVersion, expected_records: u64) -> (r: Result<Self, ContentReleaseValidationError>)
        ensures
            match active_content_error(active_content) {
                Some(e) => r == Err::<Self, _>(e),
                None => if expected_records == 0 {
                    r == Err::<Self, _>(ContentReleaseValidationError::ZeroExpectedVectorRecords)
                } else {
                    r matches Ok(b) && b.spec_active_content() == active_content && b.spec_expected_records()
                        == expected_records && b.spec_indexed_records() is None && b.spec_state()
                        == VectorCollectionBuildState::Building
                },
            },
    {
        match validate_active_content_version(&active_content) {
            Ok(()) => {},
            Err(e) => return Err(e),
        }
        if expected_records == 0 {
            return Err(ContentReleaseValidationError::ZeroExpectedVectorRecords);
        }
        Ok(VectorCollectionBuild {
            active_content,
            expected_records,
            indexed_records: None,
            state: VectorCollectionBuildState::Building,
        })
    }

    /// Records the expected-count portion of completed vector reconciliation.
    ///
    /// Fails with `VectorBuildAlreadyReady` for a ready build and with
    /// `VectorReconciliationMismatch` when the count differs from the expected count; the build
    /// then stays unready so a worker can inspect or rebuild it. An exact count makes it ready.
    pub fn reconcile(&mut self, indexed_records: u64) -> (r: Result<(), ContentReleaseValidationError>)
        ensures
            old(self).spec_state() == VectorCollectionBuildState::Ready ==> r == Err::<(), _>(
                ContentReleaseValidationError::VectorBuildAlreadyReady,
            ) && *final(self) == *old(self),
            old(self).spec_state() != VectorCollectionBuildState::Ready && indexed_records
                != old(self).spec_expected_records() ==> r == Err::<(), _>(
                (ContentReleaseValidationError::VectorReconciliationMismatch {
                    expected: old(self).spec_expected_records(),
                    indexed: indexed_records,
                }),
            ) && *final(self) == *old(self),
            old(self).spec_state() != VectorCollectionBuildState::Ready && indexed_records
                == old(self).spec_expected_records() ==> {
                &&& r is Ok
                &&& final(self).spec_state() == VectorCollectionBuildState::Ready
                &&& final(self).spec_indexed_records() == Some(indexed_records)
                &&& final(self).spec_expected_records() == old(self).spec_expected_records()
                &&& final(self).spec_active_content() == old(self).spec_active_content()
            },
    {
        if self.state == VectorCollectionBuildState::Ready {
            return Err(ContentReleaseValidationError::VectorBuildAlreadyReady);
        }
        if indexed_records != self.expected_records {
            return Err(
                ContentReleaseValidationError::VectorReconciliationMismatch {
                    expected: self.expected_records,
                    indexed: indexed_records,
                },
            );
        }
        self.indexed_records = Some(indexed_records);
        self.state = VectorCollectionBuildState::Ready;
        Ok(())
    }

}


/// State of an immutable vector collection build associated with a staged release.
#[derive(Debug, Clone, Copy, PartialEq, Eq, Structural)]
pub enum VectorCollectionBuildState {
    /// The collection is being built or awaits a successful reconciliation count.
    Building,
    /// The exact collection count reconciled and may participate in publication gating.
    Ready,
}

/// The latest result recorded for each gate.
#[derive(Debug, Clone, Copy, PartialEq, Eq, Structural)]
pub struct GateResults {
    structural_integrity: Option<ContentReleaseGateResult>,
    source_permissions: Option<ContentReleaseGateResult>,
    vector_reconciliation: Option<ContentReleaseGateResult>,
    retrieval_evaluation: Option<ContentReleaseGateResult>,
    human_review: Option<ContentReleaseGateResult>,
    safety: Option<ContentReleaseGateResult>,
}

impl GateResults {
    /// The result recorded for `gate`.
    pub closed spec fn spec_get(self, gate: ContentReleaseGate) -> Option<ContentReleaseGateResult> {
        match gate {
            ContentReleaseGate::StructuralIntegrity => self.structural_integrity,
            ContentReleaseGate::SourcePermissions => self.source_permissions,
            ContentReleaseGate::VectorReconciliation => self.vector_reconciliation,
            ContentReleaseGate::RetrievalEvaluation => self.retrieval_evaluation,
            ContentReleaseGate::HumanReview => self.human_review,
            ContentReleaseGate::Safety => self.safety,
        }
    }

    /// No results recorded.
    pub fn none() -> (r: Self)
        ensures
            forall|g: ContentReleaseGate| r.spec_get(g) is None,
    {
        GateResults { structural_integrity: None, source_permissions: None, vector_reconciliation: None, retrieval_evaluation: None, human_review: None, safety: None }
    }

    /// The result recorded for `gate`.
    pub fn get(&self, gate: ContentReleaseGate) -> (r: Option<ContentReleaseGateResult>)
        ensures
            r == self.spec_get(gate),
    {
        match gate {
            ContentReleaseGate::StructuralIntegrity => self.structural_integrity,
            ContentReleaseGate::SourcePermissions => self.source_permissions,
            ContentReleaseGate::VectorReconciliation => self.vector_reconciliation,
            ContentReleaseGate::RetrievalEvaluation => self.retrieval_evaluation,
            ContentReleaseGate::HumanReview => self.human_review,
            ContentReleaseGate::Safety => self.safety,
        }
    }

    /// Records `result` for `gate`, replacing any earlier result.
    pub fn set(&mut self, gate: ContentReleaseGate, result: ContentReleaseGateResult)
        ensures
            final(self).spec_get(gate) == Some(result),
            forall|g: ContentReleaseGate| g != gate ==> final(self).spec_get(g) == old(self).spec_get(g),
    {
        match gate {
            ContentReleaseGate::StructuralIntegrity => self.structural_integrity = Some(result),
            ContentReleaseGate::SourcePermissions => self.source_permissions = Some(result),
            ContentReleaseGate::VectorReconciliation => self.vector_reconciliation = Some(result),
            ContentReleaseGate::RetrievalEvaluation => self.retrieval_evaluation = Some(result),
            ContentReleaseGate::HumanReview => self.human_review = Some(result),
            ContentReleaseGate::Safety => self.safety = Some(result),
        }
    }
}

/// The aggregate state of the required gates: failed when any required gate failed, passed
/// when every required gate passed, and pending otherwise.
pub open spec fn validation_state_of(required: Seq<ContentReleaseGate>, results: GateResults) -> ContentReleaseValidationState {
    if exists|i: int| 0 <= i < required.len() && results.spec_get(#[trigger] required[i]) == Some(ContentReleaseGateResult::Failed) {
        ContentReleaseValidationState::Failed
    } else if forall|i: int| 0 <= i < required.len() ==> results.spec_get(#[trigger] required[i]) == Some(ContentReleaseGateResult::Passed) {
        ContentReleaseValidationState::Passed
    } else {
        ContentReleaseValidationState::Pending
    }
}

/// Mutable staging aggregate that becomes an immutable published content release.
#[derive(Debug, Clone, PartialEq, Eq)]
pub struct ContentRelease {
    release: LexiconRelease,
    active_content: ActiveContentVersion,
    source_ids: Vec<SourceId>,
    gate_policy: ContentReleaseGatePolicy,
    gate_results: GateResults,
    vector_build: Option<VectorCollectionBuild>,
}

impl ContentRelease {
    /// The `release` field.
    pub closed spec fn spec_release(&self) -> LexiconRelease {
        self.release
    }

    /// The `active_content` field.
    pub closed spec fn spec_active_content(&self) -> ActiveContentVersion {
        self.active_content
    }

    /// The `source_ids` field.
    pub closed spec fn spec_source_ids(&self) -> Seq<SourceId> {
        self.source_ids@
    }

    /// The `gate_policy` field.
    pub closed spec fn spec_gate_policy(&self) -> ContentReleaseGatePolicy {
        self.gate_policy
    }

    /// The `gate_results` field.
    pub closed spec fn spec_gate_results(&self) -> GateResults {
        self.gate_results
    }

    /// The `vector_build` field.
    pub closed spec fn spec_vector_build(&self) -> Option<VectorCollectionBuild> {
        self.vector_build
    }

    /// Returns immutable lexical-release metadata and lifecycle status.
    pub fn release(&self) -> (r: &LexiconRelease)
        ensures
            *r == self.spec_release(),
    {
        &self.release
    }

    /// Returns the exact compatible canonical and vector tuple selected on publication.
    pub fn active_content_version(&self) -> (r: &ActiveContentVersion)
        ensures
            *r == self.spec_active_content(),
    {
        &self.active_content
    }

    /// Returns source-policy identifiers declared by the immutable source manifest, in ascending order.
    pub fn source_ids(&self) -> (r: &[SourceId])
        ensures
            r@ == self.spec_source_ids(),
    {
        self.source_ids.as_slice()
    }

    /// Returns the validation policy frozen into the staging release.
    pub fn gate_policy(&self) -> (r: &ContentReleaseGatePolicy)
        ensures
            *r == self.spec_gate_policy(),
    {
        &self.gate_policy
    }

    /// Returns the latest recorded result of every gate.
    pub fn gate_results(&self) -> (r: GateResults)
        ensures
            r == self.spec_gate_results(),
    {
        self.gate_results
    }



    /// Returns the release's stable lexical-content identifier.
    pub fn id(&self) -> (r: &ReleaseId)
        ensures
            r@ == self.spec_release().id@,
    {
        &self.release.id
    }

    /// Returns whether this release has any content derived from `source_id`.
    pub fn uses_source(&self, source_id: &SourceId) -> (b: bool)
        ensures
            b == has_key(self.spec_source_ids(), source_id@),
    {
        crate::keyed::contains_key(&self.source_ids, source_id.as_str())
    }

    /// The result recorded for `gate`.
    pub open spec fn spec_gate_result(&self, gate: ContentReleaseGate) -> Option<ContentReleaseGateResult> {
        self.spec_gate_results().spec_get(gate)
    }

    /// Returns the current result for one required gate, when it has been recorded.
    pub fn gate_result(&self, gate: ContentReleaseGate) -> (r: Option<ContentReleaseGateResult>)
        ensures
            r == self.spec_gate_result(gate),
    {
        self.gate_results.get(gate)
    }

    /// The aggregate state of the required gates.
    pub open spec fn spec_validation_state(&self) -> ContentReleaseValidationState {
        validation_state_of(self.spec_gate_policy().spec_required_gates(), self.spec_gate_results())
    }

    /// Whether the release's vector build exists and is ready.
    pub open spec fn spec_vector_ready(&self) -> bool {
        self.spec_vector_build() matches Some(b) && b.spec_state() == VectorCollectionBuildState::Ready
    }

    /// Returns whether required gate results are pending, passing, or failing: failed when any
    /// required gate failed, passed when every required gate passed, pending otherwise.
    #[verifier::loop_isolation(false)]
    pub fn validation_state(&self) -> (r: ContentReleaseValidationState)
        ensures
            r == self.spec_validation_state(),
            r == validation_state_of(self.spec_gate_policy().spec_required_gates(), self.spec_gate_results()),
    {
        let required = self.gate_policy.required_gates();
        let mut i: usize = 0;
        while i < required.len()
            invariant
                i <= required.len(),
                forall|q: int| 0 <= q < i ==> self.gate_results.spec_get(#[trigger] required@[q]) != Some(ContentReleaseGateResult::Failed),
            decreases required.len() - i,
        {
            let failed = match self.gate_results.get(required[i]) {
                Some(ContentReleaseGateResult::Failed) => true,
                _ => false,
            };
            if failed {
                assert(self.gate_results.spec_get(required@[i as int]) == Some(ContentReleaseGateResult::Failed));
                return ContentReleaseValidationState::Failed;
            }
            i += 1;
        }
        let mut i: usize = 0;
        while i < required.len()
            invariant
                i <= required.len(),
                forall|q: int| 0 <= q < required@.len() ==> self.gate_results.spec_get(#[trigger] required@[q]) != Some(ContentReleaseGateResult::Failed),
                forall|q: int| 0 <= q < i ==> self.gate_results.spec_get(#[trigger] required@[q]) == Some(ContentReleaseGateResult::Passed),
            decreases required.len() - i,
        {
            let passed = match self.gate_results.get(required[i]) {
                Some(ContentReleaseGateResult::Passed) => true,
                _ => false,
            };
            if !passed {
                assert(self.gate_results.spec_get(required@[i as int]) != Some(ContentReleaseGateResult::Passed));
                return ContentReleaseValidationState::Pending;
            }
            i += 1;
        }
        ContentReleaseValidationState::Passed
    }

    /// Returns the current derived vector build, when one has been started.
    pub fn vector_build(&self) -> (r: Option<&VectorCollectionBuild>)
        ensures
            r == match self.spec_vector_build() {
                Some(b) => Some(&b),
                None => None::<&VectorCollectionBuild>,
            },
    {
        match &self.vector_build {
            Some(b) => Some(b),
            None => None,
        }
    }

    /// Records the latest result for one mandatory validation gate while the release is
    /// staging.
    ///
    /// A failed result may later be replaced with a passing one after a corrected staging import
    /// is re-evaluated. Fails with `ReleaseNotStaging` once the release left staging and with
    /// `GateNotRequired` for a gate the policy does not require; the release is then unchanged.
    pub fn record_gate_result(&mut self, gate: ContentReleaseGate, result: ContentReleaseGateResult) -> (r: Result<(), ContentReleaseValidationError>)
        ensures
            old(self).spec_release().status != ReleaseStatus::Staging ==> r == Err::<(), _>(
                ContentReleaseValidationError::ReleaseNotStaging,
            ),
            old(self).spec_release().status == ReleaseStatus::Staging && !old(self).spec_gate_policy().spec_requires(gate) ==> r
                == Err::<(), _>(ContentReleaseValidationError::GateNotRequired),
            r is Err ==> *final(self) == *old(self),
            r is Ok <==> (old(self).spec_release().status == ReleaseStatus::Staging && old(self).spec_gate_policy().spec_requires(gate)),
            r is Ok ==> final(self).spec_gate_result(gate) == Some(result) && (forall|g: ContentReleaseGate|
                g != gate ==> final(self).spec_gate_result(g) == old(self).spec_gate_result(g))
                && final(self).spec_release() == old(self).spec_release() && final(self).spec_active_content()
                == old(self).spec_active_content() && final(self).spec_source_ids() == old(self).spec_source_ids()
                && final(self).spec_gate_policy() == old(self).spec_gate_policy() && final(self).spec_vector_build()
                == old(self).spec_vector_build(),
    {
        match self.ensure_staging() {
            Ok(()) => {},
            Err(e) => return Err(e),
        }
        if !self.gate_policy.requires_gate(gate) {
            return Err(ContentReleaseValidationError::GateNotRequired);
        }
        self.gate_results.set(gate, result);
        Ok(())
    }

    /// Starts the one immutable vector build compatible with this staging release.
    ///
    /// Fails with `ReleaseNotStaging` once the release left staging, with
    /// `VectorBuildAlreadyStarted` when a build exists, and with `VectorBindingMismatch` when the
    /// build pins another tuple; the release is then unchanged.
    pub fn begin_vector_build(&mut self, build: VectorCollectionBuild) -> (r: Result<(), ContentReleaseValidationError>)
        ensures
            old(self).spec_release().status != ReleaseStatus::Staging ==> r == Err::<(), _>(
                ContentReleaseValidationError::ReleaseNotStaging,
            ),
            old(self).spec_release().status == ReleaseStatus::Staging && old(self).spec_vector_build() is Some ==> r
                == Err::<(), _>(ContentReleaseValidationError::VectorBuildAlreadyStarted),
            old(self).spec_release().status == ReleaseStatus::Staging && old(self).spec_vector_build() is None
                && build.spec_active_content()@ != old(self).spec_active_content()@ ==> r == Err::<(), _>(
                ContentReleaseValidationError::VectorBindingMismatch,
            ),
            r is Err ==> *final(self) == *old(self),
            r is Ok <==> (old(self).spec_release().status == ReleaseStatus::Staging && old(self).spec_vector_build() is None
                && build.spec_active_content()@ == old(self).spec_active_content()@),
            r is Ok ==> final(self).spec_vector_build() == Some(build) && final(self).spec_release()
                == old(self).spec_release() && final(self).spec_active_content() == old(self).spec_active_content()
                && final(self).spec_source_ids() == old(self).spec_source_ids() && final(self).spec_gate_policy()
                == old(self).spec_gate_policy() && final(self).spec_gate_results() == old(self).spec_gate_results(),
    {
        match self.ensure_staging() {
            Ok(()) => {},
            Err(e) => return Err(e),
        }
        if self.vector_build.is_some() {
            return Err(ContentReleaseValidationError::VectorBuildAlreadyStarted);
        }
        if !build.active_content_version().same(&self.active_content) {
            return Err(ContentReleaseValidationError::VectorBindingMismatch);
        }
        self.vector_build = Some(build);
        Ok(())
    }

    /// Records the reconciled vector record count for the pinned immutable collection.
    ///
    /// Fails with `ReleaseNotStaging` once the release left staging and with
    /// `VectorBuildNotStarted` without a build; otherwise the build's own reconciliation decides.
    pub fn reconcile_vector_build(&mut self, indexed_records: u64) -> (r: Result<(), ContentReleaseValidationError>)
        ensures
            old(self).spec_release().status != ReleaseStatus::Staging ==> r == Err::<(), _>(
                ContentReleaseValidationError::ReleaseNotStaging,
            ) && *final(self) == *old(self),
            old(self).spec_release().status == ReleaseStatus::Staging && old(self).spec_vector_build() is None ==> r
                == Err::<(), _>(ContentReleaseValidationError::VectorBuildNotStarted) && *final(self) == *old(self),
            old(self).spec_release().status == ReleaseStatus::Staging ==> (old(self).spec_vector_build() matches Some(b) ==> {
                &&& final(self).spec_vector_build() matches Some(nb)
                &&& (b.spec_state() == VectorCollectionBuildState::Ready ==> r == Err::<(), _>(
                    ContentReleaseValidationError::VectorBuildAlreadyReady,
                ) && nb == b)
                &&& (b.spec_state() != VectorCollectionBuildState::Ready && indexed_records != b.spec_expected_records() ==> r
                    == Err::<(), _>(
                    (ContentReleaseValidationError::VectorReconciliationMismatch {
                        expected: b.spec_expected_records(),
                        indexed: indexed_records,
                    }),
                ) && nb == b)
                &&& (b.spec_state() != VectorCollectionBuildState::Ready && indexed_records == b.spec_expected_records() ==> r is Ok
                    && nb.spec_state() == VectorCollectionBuildState::Ready && nb.spec_indexed_records() == Some(indexed_records)
                    && nb.spec_expected_records() == b.spec_expected_records() && nb.spec_active_content()
                    == b.spec_active_content())
                &&& final(self).spec_release() == old(self).spec_release()
                &&& final(self).spec_active_content() == old(self).spec_active_content()
                &&& final(self).spec_source_ids() == old(self).spec_source_ids()
                &&& final(self).spec_gate_policy() == old(self).spec_gate_policy()
                &&& forall|g: ContentReleaseGate| final(self).spec_gate_result(g) == old(self).spec_gate_result(g)
            }),
    {
        match self.ensure_staging() {
            Ok(()) => {},
            Err(e) => return Err(e),
        }
        match self.vector_build.take() {
            None => Err(ContentReleaseValidationError::VectorBuildNotStarted),
            Some(mut build) => {
                let r = build.reconcile(indexed_records);
                self.vector_build = Some(build);
                r
            },
        }
    }

    /// Returns whether this staging release can atomically replace the active-content pointer.
    ///
    /// Succeeds exactly when the release is staging, every required gate passed, and its vector
    /// build is ready; otherwise the first of `ReleaseNotStaging`, `RequiredGatesPending` or
    /// `RequiredGateFailed`, and `VectorBuildNotReady` that applies is returned.
    pub fn ensure_publishable(&self) -> (r: Result<(), ContentReleaseValidationError>)
        ensures
            r == publishability(self.spec_release().status, self.spec_validation_state(), self.spec_vector_ready()),
    {
        match self.ensure_staging() {
            Ok(()) => {},
            Err(e) => return Err(e),
        }
        self.ensure_validated_pair()
    }

    /// Marks a publishable staging release as the active immutable lexical release, recording
    /// its rollback predecessor, and returns its active-content tuple.
    pub fn mark_published(&mut self, rollback_predecessor: Option<ReleaseId>) -> (r: Result<ActiveContentVersion, ContentReleaseValidationError>)
        ensures
            match publishability(old(self).spec_release().status, old(self).spec_validation_state(), old(self).spec_vector_ready()) {
                Err(e) => r == Err::<ActiveContentVersion, _>(e) && *final(self) == *old(self),
                Ok(()) => r matches Ok(a) && a == old(self).spec_active_content() && final(self).spec_release().status
                    == ReleaseStatus::Published && final(self).spec_release().rollback_predecessor == rollback_predecessor
                    && final(self).spec_release().id == old(self).spec_release().id
                    && final(self).spec_release().source_manifest_hash == old(self).spec_release().source_manifest_hash
                    && final(self).spec_active_content() == old(self).spec_active_content()
                    && final(self).spec_validation_state() == ContentReleaseValidationState::Passed
                    && final(self).spec_vector_ready(),
            },
    {
        match self.ensure_publishable() {
            Ok(()) => {},
            Err(e) => return Err(e),
        }
        self.release.status = ReleaseStatus::Published;
        self.release.rollback_predecessor = rollback_predecessor;
        Ok(self.active_content.clone())
    }

    /// Restores this retained release as the active release after repository-level rollback
    /// checks.
    ///
    /// Fails with `ReleaseNotRetired` unless the release is retired, and with the validated-pair
    /// errors unless every required gate passed and its vector build is ready.
    pub fn restore_for_rollback(&mut self) -> (r: Result<ActiveContentVersion, ContentReleaseValidationError>)
        ensures
            old(self).spec_release().status != ReleaseStatus::Retired ==> r == Err::<ActiveContentVersion, _>(
                ContentReleaseValidationError::ReleaseNotRetired,
            ) && *final(self) == *old(self),
            old(self).spec_release().status == ReleaseStatus::Retired ==> match publishability(
                ReleaseStatus::Staging,
                old(self).spec_validation_state(),
                old(self).spec_vector_ready(),
            ) {
                Err(e) => r == Err::<ActiveContentVersion, _>(e) && *final(self) == *old(self),
                Ok(()) => r matches Ok(a) && a == old(self).spec_active_content() && final(self).spec_release().status
                    == ReleaseStatus::Published && final(self).spec_release().rollback_predecessor
                    == old(self).spec_release().rollback_predecessor && final(self).spec_release().id
                    == old(self).spec_release().id && final(self).spec_active_content() == old(self).spec_active_content(),
            },
    {
        if self.release.status != ReleaseStatus::Retired {
            return Err(ContentReleaseValidationError::ReleaseNotRetired);
        }
        match self.ensure_validated_pair() {
            Ok(()) => {},
            Err(e) => return Err(e),
        }
        self.release.status = ReleaseStatus::Published;
        Ok(self.active_content.clone())
    }

    /// Retires the current active release while retaining it only for rollback and history.
    ///
    /// Fails with `ReleaseNotPublished` unless the release is currently published.
    pub fn retire(&mut self) -> (r: Result<(), ContentReleaseValidationError>)
        ensures
            old(self).spec_release().status != ReleaseStatus::Published ==> r == Err::<(), _>(
                ContentReleaseValidationError::ReleaseNotPublished,
            ) && *final(self) == *old(self),
            old(self).spec_release().status == ReleaseStatus::Published ==> r is Ok && final(self).spec_release().status
                == ReleaseStatus::Retired && final(self).spec_release().id == old(self).spec_release().id
                && final(self).spec_validation_state() == old(self).spec_validation_state()
                && final(self).spec_vector_build() == old(self).spec_vector_build()
                && final(self).spec_active_content() == old(self).spec_active_content(),
    {
        if self.release.status != ReleaseStatus::Published {
            return Err(ContentReleaseValidationError::ReleaseNotPublished);
        }
        self.release.status = ReleaseStatus::Retired;
        Ok(())
    }

    fn ensure_staging(&self) -> (r: Result<(), ContentReleaseValidationError>)
        ensures
            r is Ok <==> self.release.status == ReleaseStatus::Staging,
            r is Err ==> r == Err::<(), _>(ContentReleaseValidationError::ReleaseNotStaging),
    {
        if self.release.status == ReleaseStatus::Staging {
            Ok(())
        } else {
            Err(ContentReleaseValidationError::ReleaseNotStaging)
        }
    }

    fn ensure_validated_pair(&self) -> (r: Result<(), ContentReleaseValidationError>)
        ensures
            r == publishability(ReleaseStatus::Staging, self.spec_validation_state(), self.spec_vector_ready()),
    {
        match self.validation_state() {
            ContentReleaseValidationState::Pending => {
                return Err(ContentReleaseValidationError::RequiredGatesPending);
            },
            ContentReleaseValidationState::Failed => {
                return Err(ContentReleaseValidationError::RequiredGateFailed);
            },
            ContentReleaseValidationState::Passed => {},
        }
        let ready = match &self.vector_build {
            Some(build) => build.state() == VectorCollectionBuildState::Ready,
            None => false,
        };
        if !ready {
            return Err(ContentReleaseValidationError::VectorBuildNotReady);
        }
        Ok(())
    }

}


/// The result of checking that a release in `status` with the given gate state and vector
/// readiness may be published: it must be staging, every required gate must have passed, and
/// its vector build must be ready.
pub open spec fn publishability(
    status: ReleaseStatus,
    state: ContentReleaseValidationState,
    vector_ready: bool,
) -> Result<(), ContentReleaseValidationError> {
    if status != ReleaseStatus::Staging {
        Err(ContentReleaseValidationError::ReleaseNotStaging)
    } else if state == ContentReleaseValidationState::Pending {
        Err(ContentReleaseValidationError::RequiredGatesPending)
    } else if state == ContentReleaseValidationState::Failed {
        Err(ContentReleaseValidationError::RequiredGateFailed)
    } else if !vector_ready {
        Err(ContentReleaseValidationError::VectorBuildNotReady)
    } else {
        Ok(())
    }
}

/// A release may be published exactly when it is staging, every gate its policy requires has
/// passed, and its vector build is ready.
pub proof fn lemma_publishable_iff_validated(status: ReleaseStatus, required: Seq<ContentReleaseGate>, results: GateResults, vector_ready: bool)
    ensures
        publishability(status, validation_state_of(required, results), vector_ready) is Ok <==> (status
            == ReleaseStatus::Staging && (forall|i: int| 0 <= i < required.len() ==> results.spec_get(#[trigger] required[i])
            == Some(ContentReleaseGateResult::Passed)) && vector_ready),
{
    if forall|i: int| 0 <= i < required.len() ==> results.spec_get(#[trigger] required[i]) == Some(ContentReleaseGateResult::Passed) {
        if exists|i: int| 0 <= i < required.len() && results.spec_get(#[trigger] required[i]) == Some(ContentReleaseGateResult::Failed) {
            let i = choose|i: int| 0 <= i < required.len() && results.spec_get(#[trigger] required[i]) == Some(ContentReleaseGateResult::Failed);
            assert(results.spec_get(required[i]) == Some(ContentReleaseGateResult::Passed));
        }
    }
}

/// Administrative impact reported when a source is permanently quarantined for removal.
#[derive(Debug, Clone, PartialEq, Eq)]
pub struct SourceRemovalImpact {
    source_id: SourceId,
    active_release_id: Option<ReleaseId>,
    staging_release_ids: Vec<ReleaseId>,
    retained_release_ids: Vec<ReleaseId>,
}

impl SourceRemovalImpact {
    /// The `source_id` field.
    pub closed spec fn spec_source_id(&self) -> Seq<char> {
        self.source_id@
    }

    /// The `active_release_id` field.
    pub closed spec fn spec_active_release_id(&self) -> Option<ReleaseId> {
        self.active_release_id
    }

    /// The `staging_release_ids` field.
    pub closed spec fn spec_staging_release_ids(&self) -> Seq<ReleaseId> {
        self.staging_release_ids@
    }

    /// The `retained_release_ids` field.
    pub closed spec fn spec_retained_release_ids(&self) -> Seq<ReleaseId> {
        self.retained_release_ids@
    }

    /// Returns the source-policy identifier that was quarantined.
    pub fn source_id(&self) -> (r: &SourceId)
        ensures
            r@ == self.spec_source_id(),
    {
        &self.source_id
    }

    /// Returns the active release affected by the quarantine, when one is currently unsafe.
    pub fn active_release_id(&self) -> (r: Option<&ReleaseId>)
        ensures
            r == match self.spec_active_release_id() {
                Some(x) => Some(&x),
                None => None::<&ReleaseId>,
            },
    {
        match &self.active_release_id {
            Some(x) => Some(x),
            None => None,
        }
    }

    /// Returns staged releases that must not continue to publication with this source.
    pub fn staging_release_ids(&self) -> (r: &[ReleaseId])
        ensures
            r@ == self.spec_staging_release_ids(),
    {
        self.staging_release_ids.as_slice()
    }

    /// Returns retained releases that must never become a rollback target with this source.
    pub fn retained_release_ids(&self) -> (r: &[ReleaseId])
        ensures
            r@ == self.spec_retained_release_ids(),
    {
        self.retained_release_ids.as_slice()
    }


    /// Creates one source-removal impact report from release metadata.
    pub fn new(
        source_id: SourceId,
        active_release_id: Option<ReleaseId>,
        staging_release_ids: Vec<ReleaseId>,
        retained_release_ids: Vec<ReleaseId>,
    ) -> (r: Self)
        ensures
            r.spec_source_id() == source_id@,
            r.spec_active_release_id() == active_release_id,
            r.spec_staging_release_ids() == staging_release_ids@,
            r.spec_retained_release_ids() == retained_release_ids@,
    {
        SourceRemovalImpact { source_id, active_release_id, staging_release_ids, retained_release_ids }
    }

}

} // verus!
