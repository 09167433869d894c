//! Typed, evidence-backed graph topology and bounded traversal values.

use crate::domain::canonical::{
    CanonicalId, CanonicalValidationError, EvidenceConfidence, EvidenceId, LanguageTag,
    LexicalPartOfSpeech, ReleaseId,
};
use crate::keyed::{
    TextKey, compare_text, Comparison,
    collect_sorted, keys_of, keys_sorted, lemma_text_lt_asymmetric, lemma_text_lt_irreflexive,
    lemma_text_lt_total, str_lt, text_lt,
};
use crate::text::{push_char, trim, trimmed_string};
use std::cmp::Ordering;
use vstd::prelude::*;
use vstd::string::StringExecFns;

verus! {

/// Default number of hops returned for a graph read.
pub const DEFAULT_GRAPH_DEPTH: u8 = 1;

/// Largest supported graph traversal depth.
pub const MAX_GRAPH_DEPTH: u8 = 2;

/// Default and maximum number of nodes in one graph response.
pub const DEFAULT_GRAPH_NODE_LIMIT: usize = 75;

/// Largest node cap accepted by the graph foundation.
pub const MAX_GRAPH_NODE_LIMIT: usize = 75;

/// Default and maximum number of edges in one graph response.
pub const DEFAULT_GRAPH_EDGE_LIMIT: usize = 200;

/// Largest edge cap accepted by the graph foundation.
pub const MAX_GRAPH_EDGE_LIMIT: usize = 200;

/// Largest graph score represented in basis points.
pub const MAX_GRAPH_SCORE_BASIS_POINTS: u16 = 10_000;

/// Validation failure for graph values and bounded traversal requests.
#[derive(Debug, Clone, Copy, PartialEq, Eq, Structural)]
pub enum GraphValidationError {
    /// A graph traversal depth was outside the supported bounded range.
    InvalidDepth,
    /// A graph node cap was outside the supported bounded range.
    InvalidNodeLimit,
    /// A graph edge cap was outside the supported bounded range.
    InvalidEdgeLimit,
    /// A graph score was larger than one.
    InvalidScore,
    /// A relation version must be positive because zero is not a published version.
    InvalidRelationVersion,
    /// A user-visible graph label was blank after trimming surrounding whitespace.
    BlankLabel,
    /// A graph relation connected a node to itself.
    DuplicateRelationEndpoints,
    /// A symmetric relation did not store endpoints in canonical typed-key order.
    UnorderedSymmetricEndpoints,
    /// A canonical relation attempted to persist a relation reserved for scale projection.
    StoredScaleProjection,
    /// A canonical relation had no independently citable supporting evidence.
    EmptyEvidence,
    /// A semantic scale contained a non-sense member.
    InvalidScaleMember,
    /// A semantic scale repeated an ordinal position.
    DuplicateScaleOrdinal,
    /// A semantic scale repeated a member node.
    DuplicateScaleMember,
    /// A cursor issued for one root was used with another root.
    CursorRootMismatch,
    /// A cursor issued for one graph content version was used with another version.
    CursorContentMismatch,
    /// A cursor issued with one normalized relation filter was used with another filter.
    CursorFilterMismatch,
    /// A direct-neighbor page did not reserve room for one root and one adjacent endpoint.
    InvalidNeighborNodeLimit,
}

impl GraphValidationError {
    /// Human-readable description of the failure.
    pub fn message(&self) -> (r: &'static str)
        ensures
            r@ == match *self {
                GraphValidationError::InvalidDepth => "graph depth must be between 0 and 2"@,
                GraphValidationError::InvalidNodeLimit => "graph node limit must be between 1 and 75"@,
                GraphValidationError::InvalidEdgeLimit => "graph edge limit must be between 1 and 200"@,
                GraphValidationError::InvalidScore => "graph score must be at most 10000 basis points"@,
                GraphValidationError::InvalidRelationVersion => "relation version must be greater than zero"@,
                GraphValidationError::BlankLabel => "graph label must not be blank"@,
                GraphValidationError::DuplicateRelationEndpoints => "graph relation endpoints must differ"@,
                GraphValidationError::UnorderedSymmetricEndpoints => "symmetric relation endpoints must be stored in canonical order"@,
                GraphValidationError::StoredScaleProjection => "scale degree relations are derived and cannot be stored canonically"@,
                GraphValidationError::EmptyEvidence => "graph relation evidence must not be empty"@,
                GraphValidationError::InvalidScaleMember => "semantic scale members must be sense nodes"@,
                GraphValidationError::DuplicateScaleOrdinal => "semantic scale member ordinals must be unique"@,
                GraphValidationError::DuplicateScaleMember => "semantic scale members must be unique"@,
                GraphValidationError::CursorRootMismatch => "graph cursor belongs to a different root node"@,
                GraphValidationError::CursorContentMismatch => "graph cursor belongs to a different graph content version"@,
                GraphValidationError::CursorFilterMismatch => "graph cursor belongs to a different relation filter"@,
                GraphValidationError::InvalidNeighborNodeLimit => "graph neighbor node limit must be between 2 and 75"@,
            },
    {
        match self {
            GraphValidationError::InvalidDepth => "graph depth must be between 0 and 2",
            GraphValidationError::InvalidNodeLimit => "graph node limit must be between 1 and 75",
            GraphValidationError::InvalidEdgeLimit => "graph edge limit must be between 1 and 200",
            GraphValidationError::InvalidScore => "graph score must be at most 10000 basis points",
            GraphValidationError::InvalidRelationVersion => "relation version must be greater than zero",
            GraphValidationError::BlankLabel => "graph label must not be blank",
            GraphValidationError::DuplicateRelationEndpoints => "graph relation endpoints must differ",
            GraphValidationError::UnorderedSymmetricEndpoints => "symmetric relation endpoints must be stored in canonical order",
            GraphValidationError::StoredScaleProjection => "scale degree relations are derived and cannot be stored canonically",
            GraphValidationError::EmptyEvidence => "graph relation evidence must not be empty",
            GraphValidationError::InvalidScaleMember => "semantic scale members must be sense nodes",
            GraphValidationError::DuplicateScaleOrdinal => "semantic scale member ordinals must be unique",
            GraphValidationError::DuplicateScaleMember => "semantic scale members must be unique",
            GraphValidationError::CursorRootMismatch => "graph cursor belongs to a different root node",
            GraphValidationError::CursorContentMismatch => "graph cursor belongs to a different graph content version",
            GraphValidationError::CursorFilterMismatch => "graph cursor belongs to a different relation filter",
            GraphValidationError::InvalidNeighborNodeLimit => "graph neighbor node limit must be between 2 and 75",
        }
    }
}

/// Kind of canonical entity represented by a graph node.
#[derive(Debug, Clone, Copy, PartialEq, Eq, PartialOrd, Ord, Hash, Structural)]
pub enum GraphNodeKind {
    /// One distinct lexical sense.
    Sense,
    /// A language-specific lemma and part of speech.
    Lexeme,
    /// A structured grammar or collocation construction.
    Construction,
    /// A context-qualified ordered semantic scale.
    Scale,
}

/// Position of a node kind in declaration order, the order its derived `Ord` uses.
pub open spec fn node_kind_rank(kind: GraphNodeKind) -> int {
    match kind {
        GraphNodeKind::Sense => 0,
        GraphNodeKind::Lexeme => 1,
        GraphNodeKind::Construction => 2,
        GraphNodeKind::Scale => 3,
    }
}

fn node_kind_position(kind: GraphNodeKind) -> (r: u8)
    ensures
        r == node_kind_rank(kind),
{
    match kind {
        GraphNodeKind::Sense => 0,
        GraphNodeKind::Lexeme => 1,
        GraphNodeKind::Construction => 2,
        GraphNodeKind::Scale => 3,
    }
}

/// Stable typed key for every graph node.
#[derive(Debug, PartialEq, Eq, PartialOrd, Ord, Hash)]
pub struct GraphNodeKey {
    /// Entity family that determines how `id` is interpreted.
    pub kind: GraphNodeKind,
    /// Opaque stable identifier within `kind`.
    pub id: CanonicalId,
}

impl View for GraphNodeKey {
    type V = (GraphNodeKind, Seq<char>);

    open spec fn view(&self) -> (GraphNodeKind, Seq<char>) {
        (self.kind, self.id@)
    }
}

impl Clone for GraphNodeKey {
    fn clone(&self) -> (r: Self)
        ensures
            r == *self,
    {
        GraphNodeKey { kind: self.kind, id: self.id.clone() }
    }
}

/// The order of node keys: by kind, then by identifier text, as the derived `Ord` compares
/// them.
pub open spec fn node_key_lt(a: (GraphNodeKind, Seq<char>), b: (GraphNodeKind, Seq<char>)) -> bool {
    node_kind_rank(a.0) < node_kind_rank(b.0) || (a.0 == b.0 && text_lt(a.1, b.1))
}

impl GraphNodeKey {
    /// Creates a typed key from a canonical entity identifier.
    pub fn new(kind: GraphNodeKind, id: CanonicalId) -> (r: Self)
        ensures
            r@ == (kind, id@),
    {
        GraphNodeKey { kind, id }
    }

    /// Whether both keys name the same node.
    pub fn same(&self, other: &GraphNodeKey) -> (b: bool)
        ensures
            b == (self@ == other@),
    {
        self.kind == other.kind && self.id.same(&other.id)
    }

    /// Whether this key sorts strictly before `other`.
    pub fn is_before(&self, other: &GraphNodeKey) -> (b: bool)
        ensures
            b == node_key_lt(self@, other@),
    {
        let a = node_kind_position(self.kind);
        let c = node_kind_position(other.kind);
        if a != c {
            proof {
                if a == c {
                    assert(false);
                }
                if self.kind == other.kind {
                    assert(a == c);
                }
            }
            return a < c;
        }
        proof {
            if self.kind != other.kind {
                assert(node_kind_rank(self.kind) != node_kind_rank(other.kind));
            }
        }
        str_lt(self.id.as_str(), other.id.as_str())
    }
}

/// Stable public representation of one graph node.
#[derive(Debug, Clone, PartialEq, Eq, PartialOrd, Ord)]
pub struct GraphNode {
    /// Typed stable identity of this node.
    pub key: GraphNodeKey,
    /// Concise learner-visible label.
    pub label: String,
    /// Node language when the entity has one.
    pub language: Option<LanguageTag>,
    /// Part of speech for lexeme and sense nodes when available.
    pub part_of_speech: Option<LexicalPartOfSpeech>,
    /// Short canonical definition for sense nodes when available.
    pub definition_short: Option<String>,
    /// Whether this node may have more eligible neighbors.
    pub expandable: bool,
}

impl GraphNode {
    /// Creates a graph node with its label trimmed of surrounding whitespace.
    ///
    /// Returns `BlankLabel` when the trimmed label is empty.
    pub fn new(
        key: GraphNodeKey,
        label: &str,
        language: Option<LanguageTag>,
        part_of_speech: Option<LexicalPartOfSpeech>,
        definition_short: Option<String>,
        expandable: bool,
    ) -> (r: Result<Self, GraphValidationError>)
        ensures
            match r {
                Ok(n) => trim(label@).len() > 0 && n.key == key && n.label@ == trim(label@) && n.language
                    == language && n.part_of_speech == part_of_speech && n.definition_short
                    == definition_short && n.expandable == expandable,
                Err(e) => trim(label@).len() == 0 && e == GraphValidationError::BlankLabel,
            },
    {
        let label = trimmed_string(label);
        if label.as_str().is_empty() {
            return Err(GraphValidationError::BlankLabel);
        }
        Ok(GraphNode { key, label, language, part_of_speech, definition_short, expandable })
    }
}

/// Appends the decimal digits of `n`, zero-padded on the left to `width` digits.
pub open spec fn padded_decimal(n: nat, width: nat) -> Seq<char>
    decreases width,
{
    if width == 0 {
        Seq::empty()
    } else {
        padded_decimal(n / 10, (width - 1) as nat).push(((n % 10) + 48) as char)
    }
}

fn push_padded_decimal(out: &mut String, n: u32, width: u8)
    ensures
        final(out)@ == old(out)@ + padded_decimal(n as nat, width as nat),
    decreases width,
{
    if width > 0 {
        push_padded_decimal(out, n / 10, width - 1);
        let c = crate::text::char_from_ascii(n % 10 + 48);
        push_char(out, c);
    }
}

/// The text of the derived identifier of an adjacent-scale projection.
pub open spec fn derived_scale_text(release: Seq<char>, scale: Seq<char>, lower: Seq<char>, higher: Seq<char>) -> Seq<char> {
    "derived:scale:"@ + release + ":"@ + scale + ":"@ + lower + ":"@ + higher
}

/// The text of the derived identifier of a scale-membership projection; the ordinal is
/// written with ten zero-padded digits.
pub open spec fn derived_membership_text(release: Seq<char>, scale: Seq<char>, ordinal: u32, member: Seq<char>) -> Seq<char> {
    "derived:scale:"@ + release + ":"@ + scale + ":member:"@ + padded_decimal(ordinal as nat, 10) + ":"@ + member
}

/// Stable ID for a stored relation or a release-scoped derived projection.
#[derive(Debug, PartialEq, Eq, PartialOrd, Ord, Hash)]
pub struct GraphEdgeId(String);

impl View for GraphEdgeId {
    type V = Seq<char>;

    closed spec fn view(&self) -> Seq<char> {
        self.0@
    }
}

impl Clone for GraphEdgeId {
    fn clone(&self) -> (r: Self)
        ensures
            r == *self,
    {
        GraphEdgeId(self.0.clone())
    }
}

impl GraphEdgeId {
    /// Parses one stable stored or derived graph edge identifier, trimming surrounding
    /// whitespace.
    ///
    /// Returns `BlankIdentifier` when the trimmed value is empty.
    pub fn parse(value: &str) -> (r: Result<Self, CanonicalValidationError>)
        ensures
            match r {
                Ok(id) => trim(value@).len() > 0 && id@ == trim(value@),
                Err(e) => trim(value@).len() == 0 && e == CanonicalValidationError::BlankIdentifier,
            },
    {
        match CanonicalId::new(value) {
            Ok(id) => Ok(GraphEdgeId(id.to_text())),
            Err(e) => Err(e),
        }
    }

    /// Creates the public ID of a feedback-enabled stored relation.
    pub fn stored(id: CanonicalId) -> (r: Self)
        ensures
            r@ == id@,
    {
        GraphEdgeId(id.to_text())
    }

    /// Creates the deterministic ID of one derived adjacent-scale projection.
    pub fn derived_scale(release_id: &ReleaseId, scale_id: &CanonicalId, lower: &GraphNodeKey, higher: &GraphNodeKey) -> (r: Self)
        ensures
            r@ == derived_scale_text(release_id@, scale_id@, lower.id@, higher.id@),
    {
        let mut s = String::new();
        s.append("derived:scale:");
        s.append(release_id.as_str());
        s.append(":");
        s.append(scale_id.as_str());
        s.append(":");
        s.append(lower.id.as_str());
        s.append(":");
        s.append(higher.id.as_str());
        assert(s@ =~= derived_scale_text(release_id@, scale_id@, lower.id@, higher.id@));
        GraphEdgeId(s)
    }

    /// Creates the deterministic ID of one derived scale-membership projection.
    pub fn derived_scale_membership(release_id: &ReleaseId, scale_id: &CanonicalId, ordinal: u32, member: &GraphNodeKey) -> (r: Self)
        ensures
            r@ == derived_membership_text(release_id@, scale_id@, ordinal, member.id@),
    {
        let mut s = String::new();
        s.append("derived:scale:");
        s.append(release_id.as_str());
        s.append(":");
        s.append(scale_id.as_str());
        s.append(":member:");
        push_padded_decimal(&mut s, ordinal, 10);
        s.append(":");
        s.append(member.id.as_str());
        assert(s@ =~= derived_membership_text(release_id@, scale_id@, ordinal, member.id@));
        GraphEdgeId(s)
    }

    /// Returns the public edge ID as a string slice.
    pub fn as_str(&self) -> (r: &str)
        ensures
            r@ == self@,
    {
        self.0.as_str()
    }
}

/// Immutable positive version of a feedback-enabled stored relation.
#[derive(Debug, Clone, Copy, PartialEq, Eq, PartialOrd, Ord, Hash, Structural)]
pub struct RelationVersion(u32);

impl RelationVersion {
    /// The version number.
    pub closed spec fn spec_get(self) -> u32 {
        self.0
    }

    /// Validates a published positive relation version; zero is refused.
    pub fn new(value: u32) -> (r: Result<Self, GraphValidationError>)
        ensures
            match r {
                Ok(v) => value > 0 && v.spec_get() == value,
                Err(e) => value == 0 && e == GraphValidationError::InvalidRelationVersion,
            },
    {
        if value == 0 {
            return Err(GraphValidationError::InvalidRelationVersion);
        }
        Ok(RelationVersion(value))
    }

    /// Returns the published relation version number.
    pub fn get(self) -> (r: u32)
        ensures
            r == self.spec_get(),
    {
        self.0
    }
}

/// Relation family shown on a graph edge.
#[derive(Debug, Clone, Copy, PartialEq, Eq, PartialOrd, Ord, Hash, Structural)]
pub enum GraphRelationType {
    /// Equivalent meaning within an explicitly supported scope.
    Synonym,
    /// Similar meaning that requires a learner-visible contrast.
    NearSynonym,
    /// Explicit equivalence across languages or lexicalizations.
    TranslationEquivalent,
    /// Opposing meanings within an explicitly supported scope.
    Antonym,
    /// Source is a broader category than target.
    Hypernym,
    /// Source is a narrower category than target.
    Hyponym,
    /// Source is a whole of which target is a part.
    Holonym,
    /// Source is a part of which target is a whole.
    Meronym,
    /// Terms are commonly confused by learners.
    ConfusableWith,
    /// A deliberately weak topical association.
    AssociatedWith,
    /// Source is an inflected form of target.
    InflectionOf,
    /// Target has source as one of its documented inflections.
    HasInflection,
    /// Documented modern derivational relationship.
    DerivationallyRelatedTo,
    /// Source historically derives from target.
    EtymologicallyDerivedFrom,
    /// Target historically derives from source.
    EtymologicalSourceOf,
    /// Source participates in target construction.
    ConstructionMember,
    /// Target has source as a construction participant.
    HasConstructionMember,
    /// Source scale contains target as an ordered member.
    ScaleContains,
    /// Source is an ordered member of target scale.
    MemberOfScale,
    /// Target is the adjacent lower member of a projected semantic scale.
    LowerDegree,
    /// Target is the adjacent higher member of a projected semantic scale.
    HigherDegree,
}

/// Position of a relation type in declaration order, the order its derived `Ord` uses.
pub open spec fn relation_rank(t: GraphRelationType) -> int {
    match t {
        GraphRelationType::Synonym => 0,
        GraphRelationType::NearSynonym => 1,
        GraphRelationType::TranslationEquivalent => 2,
        GraphRelationType::Antonym => 3,
        GraphRelationType::Hypernym => 4,
        GraphRelationType::Hyponym => 5,
        GraphRelationType::Holonym => 6,
        GraphRelationType::Meronym => 7,
        GraphRelationType::ConfusableWith => 8,
        GraphRelationType::AssociatedWith => 9,
        GraphRelationType::InflectionOf => 10,
        GraphRelationType::HasInflection => 11,
        GraphRelationType::DerivationallyRelatedTo => 12,
        GraphRelationType::EtymologicallyDerivedFrom => 13,
        GraphRelationType::EtymologicalSourceOf => 14,
        GraphRelationType::ConstructionMember => 15,
        GraphRelationType::HasConstructionMember => 16,
        GraphRelationType::ScaleContains => 17,
        GraphRelationType::MemberOfScale => 18,
        GraphRelationType::LowerDegree => 19,
        GraphRelationType::HigherDegree => 20,
    }
}

impl GraphRelationType {
    /// The relation type seen from the opposite endpoint.
    pub open spec fn spec_inverse(self) -> GraphRelationType {
        match self {
            GraphRelationType::Synonym => GraphRelationType::Synonym,
            GraphRelationType::NearSynonym => GraphRelationType::NearSynonym,
            GraphRelationType::TranslationEquivalent => GraphRelationType::TranslationEquivalent,
            GraphRelationType::Antonym => GraphRelationType::Antonym,
            GraphRelationType::Hypernym => GraphRelationType::Hyponym,
            GraphRelationType::Hyponym => GraphRelationType::Hypernym,
            GraphRelationType::Holonym => GraphRelationType::Meronym,
            GraphRelationType::Meronym => GraphRelationType::Holonym,
            GraphRelationType::ConfusableWith => GraphRelationType::ConfusableWith,
            GraphRelationType::AssociatedWith => GraphRelationType::AssociatedWith,
            GraphRelationType::InflectionOf => GraphRelationType::HasInflection,
            GraphRelationType::HasInflection => GraphRelationType::InflectionOf,
            GraphRelationType::DerivationallyRelatedTo => GraphRelationType::DerivationallyRelatedTo,
            GraphRelationType::EtymologicallyDerivedFrom => GraphRelationType::EtymologicalSourceOf,
            GraphRelationType::EtymologicalSourceOf => GraphRelationType::EtymologicallyDerivedFrom,
            GraphRelationType::ConstructionMember => GraphRelationType::HasConstructionMember,
            GraphRelationType::HasConstructionMember => GraphRelationType::ConstructionMember,
            GraphRelationType::ScaleContains => GraphRelationType::MemberOfScale,
            GraphRelationType::MemberOfScale => GraphRelationType::ScaleContains,
            GraphRelationType::LowerDegree => GraphRelationType::HigherDegree,
            GraphRelationType::HigherDegree => GraphRelationType::LowerDegree,
        }
    }

    /// Whether canonical records of this type use endpoint key order.
    pub open spec fn spec_is_symmetric(self) -> bool {
        matches!(self, GraphRelationType::Synonym | GraphRelationType::NearSynonym | GraphRelationType::TranslationEquivalent | GraphRelationType::Antonym | GraphRelationType::ConfusableWith | GraphRelationType::AssociatedWith | GraphRelationType::DerivationallyRelatedTo)
    }

    /// Whether this type exists only as a read-time scale projection.
    pub open spec fn spec_is_scale_projection(self) -> bool {
        matches!(self, GraphRelationType::ScaleContains | GraphRelationType::MemberOfScale | GraphRelationType::LowerDegree | GraphRelationType::HigherDegree)
    }

    /// Returns the relation type visible when the same fact is read from its opposite endpoint.
    pub fn inverse(self) -> (r: GraphRelationType)
        ensures
            r == self.spec_inverse(),
    {
        match self {
            GraphRelationType::Synonym => GraphRelationType::Synonym,
            GraphRelationType::NearSynonym => GraphRelationType::NearSynonym,
            GraphRelationType::TranslationEquivalent => GraphRelationType::TranslationEquivalent,
            GraphRelationType::Antonym => GraphRelationType::Antonym,
            GraphRelationType::Hypernym => GraphRelationType::Hyponym,
            GraphRelationType::Hyponym => GraphRelationType::Hypernym,
            GraphRelationType::Holonym => GraphRelationType::Meronym,
            GraphRelationType::Meronym => GraphRelationType::Holonym,
            GraphRelationType::ConfusableWith => GraphRelationType::ConfusableWith,
            GraphRelationType::AssociatedWith => GraphRelationType::AssociatedWith,
            GraphRelationType::InflectionOf => GraphRelationType::HasInflection,
            GraphRelationType::HasInflection => GraphRelationType::InflectionOf,
            GraphRelationType::DerivationallyRelatedTo => GraphRelationType::DerivationallyRelatedTo,
            GraphRelationType::EtymologicallyDerivedFrom => GraphRelationType::EtymologicalSourceOf,
            GraphRelationType::EtymologicalSourceOf => GraphRelationType::EtymologicallyDerivedFrom,
            GraphRelationType::ConstructionMember => GraphRelationType::HasConstructionMember,
            GraphRelationType::HasConstructionMember => GraphRelationType::ConstructionMember,
            GraphRelationType::ScaleContains => GraphRelationType::MemberOfScale,
            GraphRelationType::MemberOfScale => GraphRelationType::ScaleContains,
            GraphRelationType::LowerDegree => GraphRelationType::HigherDegree,
            GraphRelationType::HigherDegree => GraphRelationType::LowerDegree,
        }
    }

    /// Returns whether canonical records for this type must use endpoint key order.
    pub fn is_symmetric(self) -> (b: bool)
        ensures
            b == self.spec_is_symmetric(),
    {
        matches!(self, GraphRelationType::Synonym | GraphRelationType::NearSynonym | GraphRelationType::TranslationEquivalent | GraphRelationType::Antonym | GraphRelationType::ConfusableWith | GraphRelationType::AssociatedWith | GraphRelationType::DerivationallyRelatedTo)
    }

    /// Returns whether this type exists only as a read-time scale projection.
    pub fn is_scale_projection(self) -> (b: bool)
        ensures
            b == self.spec_is_scale_projection(),
    {
        matches!(self, GraphRelationType::ScaleContains | GraphRelationType::MemberOfScale | GraphRelationType::LowerDegree | GraphRelationType::HigherDegree)
    }

    /// Position of this type in declaration order.
    pub fn position(self) -> (r: u8)
        ensures
            r == relation_rank(self),
    {
        match self {
            GraphRelationType::Synonym => 0,
            GraphRelationType::NearSynonym => 1,
            GraphRelationType::TranslationEquivalent => 2,
            GraphRelationType::Antonym => 3,
            GraphRelationType::Hypernym => 4,
            GraphRelationType::Hyponym => 5,
            GraphRelationType::Holonym => 6,
            GraphRelationType::Meronym => 7,
            GraphRelationType::ConfusableWith => 8,
            GraphRelationType::AssociatedWith => 9,
            GraphRelationType::InflectionOf => 10,
            GraphRelationType::HasInflection => 11,
            GraphRelationType::DerivationallyRelatedTo => 12,
            GraphRelationType::EtymologicallyDerivedFrom => 13,
            GraphRelationType::EtymologicalSourceOf => 14,
            GraphRelationType::ConstructionMember => 15,
            GraphRelationType::HasConstructionMember => 16,
            GraphRelationType::ScaleContains => 17,
            GraphRelationType::MemberOfScale => 18,
            GraphRelationType::LowerDegree => 19,
            GraphRelationType::HigherDegree => 20,
        }
    }
}

/// Reading a relation from its opposite endpoint twice gives the relation back; symmetric
/// relations read the same from both ends, and scale projections stay scale projections.
pub proof fn lemma_inverse_is_involution(t: GraphRelationType)
    ensures
        t.spec_inverse().spec_inverse() == t,
        t.spec_is_symmetric() ==> t.spec_inverse() == t,
        t.spec_inverse().spec_is_symmetric() == t.spec_is_symmetric(),
        t.spec_inverse().spec_is_scale_projection() == t.spec_is_scale_projection(),
{
}


/// A relation reads the same from both endpoints exactly when it is symmetric; a directed
/// relation reads from its other endpoint as its opposite, the type declared next to it (a
/// holonym as a meronym, a hypernym as a hyponym, and so on). With reading back twice giving
/// the relation again, this pairs every directed type with exactly one opposite.
pub proof fn lemma_directed_relations_read_as_their_opposite(t: GraphRelationType)
    ensures
        t.spec_inverse() == t <==> t.spec_is_symmetric(),
        !t.spec_is_symmetric() ==> relation_rank(t.spec_inverse()) == relation_rank(t) + 1
            || relation_rank(t.spec_inverse()) + 1 == relation_rank(t),
        t.spec_inverse().spec_inverse() == t,
{
}

/// Feedback dimension accepted by a stored relation version.
#[derive(Debug, Clone, Copy, PartialEq, Eq, PartialOrd, Ord, Hash, Structural)]
pub enum GraphFeedbackCapability {
    /// A learner may report personal usefulness.
    Usefulness,
    /// A learner may report factual accuracy.
    Accuracy,
}

/// A set of feedback dimensions.
#[derive(Debug, Clone, Copy, PartialEq, Eq, PartialOrd, Ord, Hash, Structural)]
pub struct GraphFeedbackCapabilitySet {
    usefulness: bool,
    accuracy: bool,
}

impl GraphFeedbackCapabilitySet {
    /// Whether the set holds `capability`.
    pub closed spec fn spec_contains(self, capability: GraphFeedbackCapability) -> bool {
        match capability {
            GraphFeedbackCapability::Usefulness => self.usefulness,
            GraphFeedbackCapability::Accuracy => self.accuracy,
        }
    }

    /// Whether the set is empty.
    pub open spec fn spec_is_empty(self) -> bool {
        !self.spec_contains(GraphFeedbackCapability::Usefulness) && !self.spec_contains(
            GraphFeedbackCapability::Accuracy,
        )
    }

    /// The empty set.
    pub fn empty() -> (r: Self)
        ensures
            forall|c: GraphFeedbackCapability| !r.spec_contains(c),
    {
        GraphFeedbackCapabilitySet { usefulness: false, accuracy: false }
    }

    /// The set holding exactly the given capabilities.
    pub fn from_capabilities(capabilities: &[GraphFeedbackCapability]) -> (r: Self)
        ensures
            forall|c: GraphFeedbackCapability| r.spec_contains(c) <==> capabilities@.contains(c),
    {
        let mut r = GraphFeedbackCapabilitySet::empty();
        let mut i: usize = 0;
        while i < capabilities.len()
            invariant
                i <= capabilities.len(),
                forall|c: GraphFeedbackCapability| r.spec_contains(c) <==> capabilities@.take(i as int).contains(c),
            decreases capabilities.len() - i,
        {
            let c = capabilities[i];
            r.insert(c);
            proof {
                let prev = capabilities@.take(i as int);
                assert(capabilities@.take(i + 1) =~= prev.push(c));
                assert forall|d: GraphFeedbackCapability| prev.push(c).contains(d) <==> (prev.contains(d) || d == c) by {
                    if prev.push(c).contains(d) {
                        let k = choose|k: int| 0 <= k < prev.push(c).len() && prev.push(c)[k] == d;
                        if k < prev.len() {
                            assert(prev[k] == d);
                        }
                    }
                    if prev.contains(d) {
                        let k = choose|k: int| 0 <= k < prev.len() && prev[k] == d;
                        assert(prev.push(c)[k] == d);
                    }
                    if d == c {
                        assert(prev.push(c)[prev.len() as int] == d);
                    }
                }
            }
            i += 1;
        }
        assert(capabilities@.take(capabilities.len() as int) =~= capabilities@);
        r
    }

    /// Adds `capability` to the set.
    pub fn insert(&mut self, capability: GraphFeedbackCapability)
        ensures
            forall|c: GraphFeedbackCapability| final(self).spec_contains(c) <==> (old(self).spec_contains(c) || c == capability),
    {
        match capability {
            GraphFeedbackCapability::Usefulness => self.usefulness = true,
            GraphFeedbackCapability::Accuracy => self.accuracy = true,
        }
    }

    /// Whether the set holds `capability`.
    pub fn contains(&self, capability: GraphFeedbackCapability) -> (b: bool)
        ensures
            b == self.spec_contains(capability),
    {
        match capability {
            GraphFeedbackCapability::Usefulness => self.usefulness,
            GraphFeedbackCapability::Accuracy => self.accuracy,
        }
    }

    /// Whether the set is empty.
    pub fn is_empty(&self) -> (b: bool)
        ensures
            b == self.spec_is_empty(),
    {
        !self.usefulness && !self.accuracy
    }

    /// The capabilities of the set in ascending order.
    pub fn to_vec(&self) -> (r: Vec<GraphFeedbackCapability>)
        ensures
            forall|c: GraphFeedbackCapability| r@.contains(c) <==> self.spec_contains(c),
            r@.no_duplicates(),
    {
        let mut r: Vec<GraphFeedbackCapability> = Vec::new();
        if self.usefulness {
            r.push(GraphFeedbackCapability::Usefulness);
        }
        if self.accuracy {
            r.push(GraphFeedbackCapability::Accuracy);
        }
        proof {
            assert forall|c: GraphFeedbackCapability| r@.contains(c) <==> self.spec_contains(c) by {
                if self.spec_contains(c) {
                    if c == GraphFeedbackCapability::Usefulness {
                        assert(r@[0] == c);
                    } else if self.usefulness {
                        assert(r@[1] == c);
                    } else {
                        assert(r@[0] == c);
                    }
                }
            }
        }
        r
    }
}

/// Evidence and source-qualified confidence supporting a graph assertion.
#[derive(Debug, PartialEq, Eq, PartialOrd, Ord)]
pub struct GraphEvidence {
    /// Independently citable evidence fragments supporting this assertion.
    pub evidence_ids: Vec<EvidenceId>,
    /// Source-qualified confidence kept separate from graph rank.
    pub confidence: EvidenceConfidence,
}

impl View for GraphEvidence {
    type V = (Seq<Seq<char>>, EvidenceConfidence);

    open spec fn view(&self) -> (Seq<Seq<char>>, EvidenceConfidence) {
        (keys_of(self.evidence_ids@), self.confidence)
    }
}

impl Clone for GraphEvidence {
    fn clone(&self) -> (r: Self)
        ensures
            r@ == self@,
    {
        GraphEvidence {
            evidence_ids: crate::domain::canonical::clone_ids(&self.evidence_ids),
            confidence: self.confidence,
        }
    }
}

impl GraphEvidence {
    /// Creates evidence after sorting and deduplicating its identifiers.
    ///
    /// Returns `EmptyEvidence` when no evidence identifiers are supplied.
    pub fn new(evidence_ids: Vec<EvidenceId>, confidence: EvidenceConfidence) -> (r: Result<Self, GraphValidationError>)
        ensures
            match r {
                Ok(ev) => evidence_ids@.len() > 0 && keys_sorted(ev.evidence_ids@) && (forall|k: Seq<char>|
                    crate::keyed::has_key(ev.evidence_ids@, k) <==> crate::keyed::has_key(evidence_ids@, k))
                    && ev.confidence == confidence,
                Err(e) => evidence_ids@.len() == 0 && e == GraphValidationError::EmptyEvidence,
            },
    {
        let sorted = collect_sorted(evidence_ids);
        if sorted.len() == 0 {
            proof {
                if evidence_ids@.len() > 0 {
                    assert(crate::keyed::has_key(evidence_ids@, evidence_ids@[0].key()));
                }
            }
            return Err(GraphValidationError::EmptyEvidence);
        }
        proof {
            if evidence_ids@.len() == 0 {
                assert(crate::keyed::has_key(sorted@, sorted@[0].key()));
            }
        }
        Ok(GraphEvidence { evidence_ids: sorted, confidence })
    }
}

/// An optional language tag by its text.
pub open spec fn opt_tag(o: Option<LanguageTag>) -> Option<Seq<char>> {
    match o {
        Some(t) => Some(t@),
        None => None,
    }
}

/// An optional string by its text.
pub open spec fn opt_text(o: Option<String>) -> Option<Seq<char>> {
    match o {
        Some(t) => Some(t@),
        None => None,
    }
}

/// Copies an optional string.
pub fn clone_opt_text(o: &Option<String>) -> (r: Option<String>)
    ensures
        opt_text(r) == opt_text(*o),
{
    match o {
        Some(s) => Some(s.clone()),
        None => None,
    }
}

/// Context that qualifies where a graph relation is supported.
#[derive(Debug, PartialEq, Eq, PartialOrd, Ord)]
pub struct GraphScope {
    /// Dialect restriction when the relation is not language-wide.
    pub dialect: Option<LanguageTag>,
    /// Domain restriction such as medicine, law, or computing.
    pub domain: Option<String>,
    /// Register restriction such as formal or informal.
    pub register: Option<String>,
    /// Concise additional qualification retained from source evidence.
    pub note: Option<String>,
}

impl View for GraphScope {
    type V = (Option<Seq<char>>, Option<Seq<char>>, Option<Seq<char>>, Option<Seq<char>>);

    open spec fn view(&self) -> (Option<Seq<char>>, Option<Seq<char>>, Option<Seq<char>>, Option<Seq<char>>) {
        (opt_tag(self.dialect), opt_text(self.domain), opt_text(self.register), opt_text(self.note))
    }
}

impl Clone for GraphScope {
    fn clone(&self) -> (r: Self)
        ensures
            r@ == self@,
    {
        GraphScope {
            dialect: match &self.dialect {
                Some(t) => Some(t.clone()),
                None => None,
            },
            domain: clone_opt_text(&self.domain),
            register: clone_opt_text(&self.register),
            note: clone_opt_text(&self.note),
        }
    }
}

impl Default for GraphScope {
    fn default() -> (r: Self)
        ensures
            r.dialect is None && r.domain is None && r.register is None && r.note is None,
    {
        GraphScope { dialect: None, domain: None, register: None, note: None }
    }
}

/// Deterministic graph score represented in basis points.
#[derive(Debug, Clone, Copy, PartialEq, Eq, PartialOrd, Ord, Hash, Structural)]
pub struct GraphScore(u16);

impl GraphScore {
    /// The score in basis points.
    pub closed spec fn spec_basis_points(self) -> u16 {
        self.0
    }

    /// Creates a score from zero through 10,000 basis points; larger values are refused.
    pub fn new(basis_points: u16) -> (r: Result<Self, GraphValidationError>)
        ensures
            match r {
                Ok(s) => basis_points <= 10_000 && s.spec_basis_points() == basis_points,
                Err(e) => basis_points > 10_000 && e == GraphValidationError::InvalidScore,
            },
    {
        if basis_points > MAX_GRAPH_SCORE_BASIS_POINTS {
            return Err(GraphValidationError::InvalidScore);
        }
        Ok(GraphScore(basis_points))
    }

    /// Returns the score in basis points.
    pub fn basis_points(self) -> (r: u16)
        ensures
            r == self.spec_basis_points(),
    {
        self.0
    }
}

/// Independent rank components retained for explainable graph ordering.
#[derive(Debug, Clone, Copy, PartialEq, Eq, PartialOrd, Ord, Hash, Structural)]
pub struct GraphScoreComponents {
    /// Evidence-derived eligibility and confidence contribution.
    pub evidence: GraphScore,
    /// Community aggregate contribution, if enough reviewed feedback exists.
    pub community: Option<GraphScore>,
    /// Learner-neutral pedagogical contribution, if configured.
    pub pedagogical: Option<GraphScore>,
}

/// Rank and algorithm version attached to a graph edge.
#[derive(Debug, PartialEq, Eq, PartialOrd, Ord)]
pub struct GraphRanking {
    /// Current display ordering score; it is not semantic truth or a probability.
    pub display_rank: GraphScore,
    /// Independent feature values used by the versioned ranker.
    pub components: GraphScoreComponents,
    /// Deterministic ranker implementation version.
    pub ranking_version: String,
}

impl View for GraphRanking {
    type V = (GraphScore, GraphScoreComponents, Seq<char>);

    open spec fn view(&self) -> (GraphScore, GraphScoreComponents, Seq<char>) {
        (self.display_rank, self.components, self.ranking_version@)
    }
}

impl Clone for GraphRanking {
    fn clone(&self) -> (r: Self)
        ensures
            r@ == self@,
    {
        GraphRanking {
            display_rank: self.display_rank,
            components: self.components,
            ranking_version: self.ranking_version.clone(),
        }
    }
}

/// Pinned versions required to perform a repeatable graph read.
#[derive(Debug, Clone, PartialEq, Eq, PartialOrd, Ord)]
pub struct GraphContentVersion {
    /// Immutable lexical content release that owns the graph facts.
    pub release_id: ReleaseId,
    /// Version of the deterministic graph ranking implementation.
    pub ranking_version: String,
    /// Version of public community aggregate projections.
    pub community_aggregate_version: String,
}

impl View for GraphContentVersion {
    type V = (Seq<char>, Seq<char>, Seq<char>);

    open spec fn view(&self) -> (Seq<char>, Seq<char>, Seq<char>) {
        (self.release_id@, self.ranking_version@, self.community_aggregate_version@)
    }
}

impl GraphContentVersion {
    /// Whether both versions pin the same release, ranking and aggregate versions.
    pub fn same(&self, other: &GraphContentVersion) -> (b: bool)
        ensures
            b == (self@ == other@),
    {
        self.release_id.same(&other.release_id) && self.ranking_version == other.ranking_version
            && self.community_aggregate_version == other.community_aggregate_version
    }
}


/// The observable content of a `GraphEdgeOrigin`.
pub enum OriginModel {
    /// Read in its stored direction.
    Canonical,
    /// Read from its target and inverted.
    InverseProjection,
    /// Adjacent members of the scale with this identifier.
    ScaleAdjacency(Seq<char>),
    /// Membership in the scale with this identifier, at this ordinal.
    ScaleMembership(Seq<char>, u32),
}

/// Source of an edge returned by a graph read.
#[derive(Debug, PartialEq, Eq, PartialOrd, Ord)]
pub enum GraphEdgeOrigin {
    /// The stored authoritative direction was read directly.
    Canonical,
    /// The stored relation was read from its target and inverse-projected in memory.
    InverseProjection,
    /// Adjacent members of an ordered scale were projected in memory.
    ScaleAdjacency {
        /// Scale that owns the ordered member assertions.
        scale_id: CanonicalId,
    },
    /// Membership in an ordered scale was projected in memory.
    ScaleMembership {
        /// Scale that owns the membership assertion.
        scale_id: CanonicalId,
        /// Stable source-qualified member ordinal.
        ordinal: u32,
    },
}

impl View for GraphEdgeOrigin {
    type V = OriginModel;

    open spec fn view(&self) -> OriginModel {
        match self {
            GraphEdgeOrigin::Canonical => OriginModel::Canonical,
            GraphEdgeOrigin::InverseProjection => OriginModel::InverseProjection,
            GraphEdgeOrigin::ScaleAdjacency { scale_id } => OriginModel::ScaleAdjacency(scale_id@),
            GraphEdgeOrigin::ScaleMembership { scale_id, ordinal } => OriginModel::ScaleMembership(
                scale_id@,
                *ordinal,
            ),
        }
    }
}

impl Clone for GraphEdgeOrigin {
    fn clone(&self) -> (r: Self)
        ensures
            r@ == self@,
    {
        match self {
            GraphEdgeOrigin::Canonical => GraphEdgeOrigin::Canonical,
            GraphEdgeOrigin::InverseProjection => GraphEdgeOrigin::InverseProjection,
            GraphEdgeOrigin::ScaleAdjacency { scale_id } => GraphEdgeOrigin::ScaleAdjacency { scale_id: scale_id.clone() },
            GraphEdgeOrigin::ScaleMembership { scale_id, ordinal } => GraphEdgeOrigin::ScaleMembership {
                scale_id: scale_id.clone(),
                ordinal: *ordinal,
            },
        }
    }
}

/// Stable graph edge returned by bounded graph reads.
#[derive(Debug, Clone, PartialEq, Eq, PartialOrd, Ord)]
pub struct GraphEdge {
    /// Stable stored or derived public identifier.
    pub id: GraphEdgeId,
    /// Node from which this projection is read.
    pub source: GraphNodeKey,
    /// Adjacent node reached by this projection.
    pub target: GraphNodeKey,
    /// Learner-visible relation direction and family.
    pub relation_type: GraphRelationType,
    /// Whether source-to-target direction carries semantic meaning.
    pub directed: bool,
    /// Stored relation version when feedback can be pinned; `None` for derived edges.
    pub relation_version: Option<RelationVersion>,
    /// Supporting canonical evidence.
    pub evidence: GraphEvidence,
    /// Source-qualified scope restriction.
    pub scope: GraphScope,
    /// Allowed feedback dimensions; every derived scale edge exposes an empty set.
    pub feedback_capabilities: GraphFeedbackCapabilitySet,
    /// Deterministic score components and ranker version.
    pub ranking: GraphRanking,
    /// Whether this edge is stored, inverse-projected, or scale-derived.
    pub origin: GraphEdgeOrigin,
}

/// Whether `e` carries exactly the given identifier, endpoints, relation, direction flag,
/// version, evidence, scope, feedback capabilities, ranking and origin.
pub open spec fn edge_is(
    e: GraphEdge,
    id: Seq<char>,
    source: (GraphNodeKind, Seq<char>),
    target: (GraphNodeKind, Seq<char>),
    relation_type: GraphRelationType,
    directed: bool,
    relation_version: Option<RelationVersion>,
    evidence: (Seq<Seq<char>>, EvidenceConfidence),
    scope: (Option<Seq<char>>, Option<Seq<char>>, Option<Seq<char>>, Option<Seq<char>>),
    feedback_capabilities: GraphFeedbackCapabilitySet,
    ranking: (GraphScore, GraphScoreComponents, Seq<char>),
    origin: OriginModel,
) -> bool {
    &&& e.id@ == id
    &&& e.source@ == source
    &&& e.target@ == target
    &&& e.relation_type == relation_type
    &&& e.directed == directed
    &&& e.relation_version == relation_version
    &&& e.evidence@ == evidence
    &&& e.scope@ == scope
    &&& e.feedback_capabilities == feedback_capabilities
    &&& e.ranking@ == ranking
    &&& e.origin@ == origin
}

impl GraphEdge {
    /// Whether feedback may be attached to this exact edge version.
    pub open spec fn spec_accepts_feedback(&self) -> bool {
        self.relation_version is Some && !self.feedback_capabilities.spec_is_empty()
    }

    /// Returns whether feedback may be attached to this exact edge version.
    pub fn accepts_feedback(&self) -> (b: bool)
        ensures
            b == self.spec_accepts_feedback(),
    {
        self.relation_version.is_some() && !self.feedback_capabilities.is_empty()
    }

    /// Returns the stable ordering key for descending rank pagination.
    pub fn ordering_key(&self) -> (k: GraphEdgeOrderingKey)
        ensures
            k.display_rank == self.ranking.display_rank,
            k.edge_id@ == self.id@,
            k.source@ == self.source@,
            k.target@ == self.target@,
            k.relation_type == self.relation_type,
    {
        GraphEdgeOrderingKey {
            display_rank: self.ranking.display_rank,
            edge_id: self.id.clone(),
            source: self.source.clone(),
            target: self.target.clone(),
            relation_type: self.relation_type,
        }
    }
}

/// Canonical stored relation before read-time inverse projection.
#[derive(Debug, Clone, PartialEq, Eq, PartialOrd, Ord)]
pub struct StoredGraphRelation {
    /// Stable public edge ID shared by every projection of this assertion.
    pub edge_id: GraphEdgeId,
    /// Immutable version to which feedback events are pinned.
    pub relation_version: RelationVersion,
    /// Authoritative source endpoint.
    pub source: GraphNodeKey,
    /// Authoritative target endpoint.
    pub target: GraphNodeKey,
    /// Authoritative directed or symmetric relation type.
    pub relation_type: GraphRelationType,
    /// Evidence supporting the canonical assertion.
    pub evidence: GraphEvidence,
    /// Source-qualified scope restrictions.
    pub scope: GraphScope,
    /// Feedback dimensions allowed for this stored relation version.
    pub feedback_capabilities: GraphFeedbackCapabilitySet,
    /// Versioned rank and score components.
    pub ranking: GraphRanking,
}

/// The error a stored relation is refused with, if any, checked in order: a self-relation,
/// symmetric endpoints out of key order, a scale-projection type, and missing evidence.
pub open spec fn relation_error(r: StoredGraphRelation) -> Option<GraphValidationError> {
    if r.source@ == r.target@ {
        Some(GraphValidationError::DuplicateRelationEndpoints)
    } else if r.relation_type.spec_is_symmetric() && node_key_lt(r.target@, r.source@) {
        Some(GraphValidationError::UnorderedSymmetricEndpoints)
    } else if r.relation_type.spec_is_scale_projection() {
        Some(GraphValidationError::StoredScaleProjection)
    } else if r.evidence.evidence_ids@.len() == 0 {
        Some(GraphValidationError::EmptyEvidence)
    } else {
        None
    }
}

impl StoredGraphRelation {
    /// Validates the invariants that every persisted canonical relation must satisfy.
    pub fn validate(&self) -> (r: Result<(), GraphValidationError>)
        ensures
            match relation_error(*self) {
                Some(e) => r == Err::<(), _>(e),
                None => r is Ok,
            },
    {
        if self.source.same(&self.target) {
            return Err(GraphValidationError::DuplicateRelationEndpoints);
        }
        if self.relation_type.is_symmetric() && self.target.is_before(&self.source) {
            return Err(GraphValidationError::UnorderedSymmetricEndpoints);
        }
        if self.relation_type.is_scale_projection() {
            return Err(GraphValidationError::StoredScaleProjection);
        }
        if self.evidence.evidence_ids.len() == 0 {
            return Err(GraphValidationError::EmptyEvidence);
        }
        Ok(())
    }

    /// Projects this relation from `node` when it is one of the relation endpoints: in its
    /// stored direction from the source, inverted from the target, and not at all otherwise.
    pub fn project_from(&self, node: &GraphNodeKey) -> (r: Option<GraphEdge>)
        ensures
            node@ == self.source@ ==> (r matches Some(e) && edge_is(
                e,
                self.edge_id@,
                self.source@,
                self.target@,
                self.relation_type,
                !self.relation_type.spec_is_symmetric(),
                Some(self.relation_version),
                self.evidence@,
                self.scope@,
                self.feedback_capabilities,
                self.ranking@,
                OriginModel::Canonical,
            )),
            node@ != self.source@ && node@ == self.target@ ==> (r matches Some(e) && edge_is(
                e,
                self.edge_id@,
                self.target@,
                self.source@,
                self.relation_type.spec_inverse(),
                !self.relation_type.spec_is_symmetric(),
                Some(self.relation_version),
                self.evidence@,
                self.scope@,
                self.feedback_capabilities,
                self.ranking@,
                OriginModel::InverseProjection,
            )),
            node@ != self.source@ && node@ != self.target@ ==> r is None,
    {
        if node.same(&self.source) {
            return Some(GraphEdge {
                id: self.edge_id.clone(),
                source: self.source.clone(),
                target: self.target.clone(),
                relation_type: self.relation_type,
                directed: !self.relation_type.is_symmetric(),
                relation_version: Some(self.relation_version),
                evidence: self.evidence.clone(),
                scope: self.scope.clone(),
                feedback_capabilities: self.feedback_capabilities,
                ranking: self.ranking.clone(),
                origin: GraphEdgeOrigin::Canonical,
            });
        }
        if node.same(&self.target) {
            return Some(GraphEdge {
                id: self.edge_id.clone(),
                source: self.target.clone(),
                target: self.source.clone(),
                relation_type: self.relation_type.inverse(),
                directed: !self.relation_type.is_symmetric(),
                relation_version: Some(self.relation_version),
                evidence: self.evidence.clone(),
                scope: self.scope.clone(),
                feedback_capabilities: self.feedback_capabilities,
                ranking: self.ranking.clone(),
                origin: GraphEdgeOrigin::InverseProjection,
            });
        }
        None
    }
}

/// A relation read from either endpoint describes the same fact: the edge from the target is
/// the edge from the source with endpoints swapped and the relation inverted, and both keep
/// the identifier, version and feedback capabilities.
pub proof fn lemma_projections_agree(r: StoredGraphRelation, from_source: GraphEdge, from_target: GraphEdge)
    requires
        r.source@ != r.target@,
        edge_is(
            from_source,
            r.edge_id@,
            r.source@,
            r.target@,
            r.relation_type,
            !r.relation_type.spec_is_symmetric(),
            Some(r.relation_version),
            r.evidence@,
            r.scope@,
            r.feedback_capabilities,
            r.ranking@,
            OriginModel::Canonical,
        ),
        edge_is(
            from_target,
            r.edge_id@,
            r.target@,
            r.source@,
            r.relation_type.spec_inverse(),
            !r.relation_type.spec_is_symmetric(),
            Some(r.relation_version),
            r.evidence@,
            r.scope@,
            r.feedback_capabilities,
            r.ranking@,
            OriginModel::InverseProjection,
        ),
    ensures
        from_target.source@ == from_source.target@,
        from_target.target@ == from_source.source@,
        from_target.relation_type.spec_inverse() == from_source.relation_type,
        from_target.id@ == from_source.id@,
        from_target.relation_version == from_source.relation_version,
        from_target.spec_accepts_feedback() == from_source.spec_accepts_feedback(),
{
    lemma_inverse_is_involution(r.relation_type);
}

/// One ordered sense in a semantic scale.
#[derive(Debug, Clone, PartialEq, Eq, PartialOrd, Ord)]
pub struct SemanticScaleMember {
    /// Sense represented at this point on the scale.
    pub sense: GraphNodeKey,
    /// Stable source-qualified order within the scale.
    pub ordinal: u32,
    /// Evidence that supports this member's placement.
    pub evidence: GraphEvidence,
}

/// Canonical ordered semantic scale used to derive adjacent degree edges.
#[derive(Debug, Clone, PartialEq, Eq, PartialOrd, Ord)]
pub struct SemanticScale {
    /// Stable scale identifier.
    pub id: CanonicalId,
    /// Release that owns the scale and every member assertion.
    pub release_id: ReleaseId,
    /// Learner-visible scale dimension.
    pub label: String,
    /// Context that qualifies all derived adjacency projections.
    pub scope: GraphScope,
    /// Evidence supporting the scale definition.
    pub evidence: GraphEvidence,
    /// Ordered source-backed members from lower to higher degree.
    pub members: Vec<SemanticScaleMember>,
    /// Rank inherited by derived adjacency edges.
    pub ranking: GraphRanking,
}

/// The error of member `i` of a scale, if any: not a sense node, an ordinal or a sense used by
/// an earlier member, or no evidence.
pub open spec fn scale_member_error(members: Seq<SemanticScaleMember>, i: int) -> Option<GraphValidationError> {
    if members[i].sense.kind != GraphNodeKind::Sense {
        Some(GraphValidationError::InvalidScaleMember)
    } else if exists|j: int| 0 <= j < i && (#[trigger] members[j]).ordinal == members[i].ordinal {
        Some(GraphValidationError::DuplicateScaleOrdinal)
    } else if exists|j: int| 0 <= j < i && (#[trigger] members[j]).sense@ == members[i].sense@ {
        Some(GraphValidationError::DuplicateScaleMember)
    } else if members[i].evidence.evidence_ids@.len() == 0 {
        Some(GraphValidationError::EmptyEvidence)
    } else {
        None
    }
}

/// The error of the first refused member among the first `n`, if any.
pub open spec fn first_scale_error(members: Seq<SemanticScaleMember>, n: int) -> Option<GraphValidationError>
    decreases n,
{
    if n <= 0 {
        None
    } else {
        match first_scale_error(members, n - 1) {
            Some(e) => Some(e),
            None => scale_member_error(members, n - 1),
        }
    }
}

proof fn lemma_first_scale_error_sticks(members: Seq<SemanticScaleMember>, k: int, m: int)
    requires
        0 <= k <= m,
        first_scale_error(members, k) is Some,
    ensures
        first_scale_error(members, m) == first_scale_error(members, k),
    decreases m - k,
{
    if m > k {
        lemma_first_scale_error_sticks(members, k, m - 1);
    }
}

/// Inserts position `i` into `order` after every position whose member has an ordinal no
/// larger than member `i`'s.
pub open spec fn insert_by_ordinal(order: Seq<usize>, members: Seq<SemanticScaleMember>, i: usize) -> Seq<usize>
    decreases order.len(),
{
    if order.len() == 0 {
        seq![i]
    } else if members[order.last() as int].ordinal <= members[i as int].ordinal {
        order.push(i)
    } else {
        insert_by_ordinal(order.drop_last(), members, i).push(order.last())
    }
}

/// The positions of the first `n` members sorted by ordinal, members with equal ordinals kept
/// in their given order, as a stable sort leaves them.
pub open spec fn ordinal_order(members: Seq<SemanticScaleMember>, n: int) -> Seq<usize>
    decreases n,
{
    if n <= 0 {
        Seq::empty()
    } else {
        insert_by_ordinal(ordinal_order(members, n - 1), members, (n - 1) as usize)
    }
}

proof fn lemma_insert_at(order: Seq<usize>, members: Seq<SemanticScaleMember>, i: usize, j: int)
    requires
        0 <= j <= order.len(),
        forall|k: int| 0 <= k < order.len() ==> (#[trigger] order[k]) < members.len(),
        i < members.len(),
        forall|k: int| j <= k < order.len() ==> members[(#[trigger] order[k]) as int].ordinal > members[i as int].ordinal,
        j > 0 ==> members[order[j - 1] as int].ordinal <= members[i as int].ordinal,
    ensures
        insert_by_ordinal(order, members, i) == order.take(j).push(i) + order.skip(j),
    decreases order.len(),
{
    if order.len() == 0 {
        assert(order.take(j).push(i) + order.skip(j) =~= seq![i]);
    } else if j == order.len() {
        assert(order.take(j).push(i) + order.skip(j) =~= order.push(i));
    } else {
        let d = order.drop_last();
        lemma_insert_at(d, members, i, j);
        assert(d.take(j).push(i) + d.skip(j) + seq![order.last()] =~= order.take(j).push(i) + order.skip(j));
    }
}

/// The positions of the members in stable ordinal order.
fn member_positions_by_ordinal(members: &Vec<SemanticScaleMember>) -> (r: Vec<usize>)
    ensures
        r@ == ordinal_order(members@, members@.len() as int),
        r@.len() == members@.len(),
        forall|k: int| 0 <= k < r@.len() ==> (#[trigger] r@[k]) < members@.len(),
{
    let mut out: Vec<usize> = Vec::new();
    let mut i: usize = 0;
    while i < members.len()
        invariant
            i <= members.len(),
            out@ == ordinal_order(members@, i as int),
            out@.len() == i,
            forall|k: int| 0 <= k < out@.len() ==> (#[trigger] out@[k]) < i,
        decreases members.len() - i,
    {
        let mut j: usize = out.len();
        while j > 0 && members[out[j - 1]].ordinal > members[i].ordinal
            invariant
                j <= out.len(),
                i < members.len(),
                forall|k: int| 0 <= k < out@.len() ==> (#[trigger] out@[k]) < i,
                forall|k: int| j <= k < out@.len() ==> members@[(#[trigger] out@[k]) as int].ordinal > members@[i as int].ordinal,
            decreases j,
        {
            j -= 1;
        }
        proof {
            lemma_insert_at(out@, members@, i, j as int);
        }
        out.insert(j, i);
        proof {
            assert(out@ =~= ordinal_order(members@, i + 1));
        }
        i += 1;
    }
    out
}

/// The first place `k` at or after `from` in `order` whose member is the node `node`, or the
/// length of `order` when there is none.
pub open spec fn position_of_node(
    order: Seq<usize>,
    members: Seq<SemanticScaleMember>,
    node: (GraphNodeKind, Seq<char>),
    from: int,
) -> int
    decreases order.len() - from,
{
    if from >= order.len() || from < 0 {
        order.len() as int
    } else if members[order[from] as int].sense@ == node {
        from
    } else {
        position_of_node(order, members, node, from + 1)
    }
}


/// Whether `e` is the membership projection of `member` in `scale`, read from `source` to
/// `target` as `relation_type`.
pub open spec fn membership_edge_is(
    e: GraphEdge,
    scale: SemanticScale,
    source: (GraphNodeKind, Seq<char>),
    target: (GraphNodeKind, Seq<char>),
    relation_type: GraphRelationType,
    member: SemanticScaleMember,
) -> bool {
    &&& edge_is(
        e,
        derived_membership_text(scale.release_id@, scale.id@, member.ordinal, member.sense.id@),
        source,
        target,
        relation_type,
        true,
        None,
        member.evidence@,
        scale.scope@,
        e.feedback_capabilities,
        scale.ranking@,
        OriginModel::ScaleMembership(scale.id@, member.ordinal),
    )
    &&& e.feedback_capabilities.spec_is_empty()
}

/// Whether `e` is the adjacent-degree projection of `scale` from `source` to `target` as
/// `relation_type`; its identifier names the lower member first.
pub open spec fn adjacency_edge_is(
    e: GraphEdge,
    scale: SemanticScale,
    source: (GraphNodeKind, Seq<char>),
    target: (GraphNodeKind, Seq<char>),
    relation_type: GraphRelationType,
) -> bool {
    let (lower, higher) = if relation_type == GraphRelationType::LowerDegree {
        (target, source)
    } else {
        (source, target)
    };
    &&& edge_is(
        e,
        derived_scale_text(scale.release_id@, scale.id@, lower.1, higher.1),
        source,
        target,
        relation_type,
        true,
        None,
        scale.evidence@,
        scale.scope@,
        e.feedback_capabilities,
        scale.ranking@,
        OriginModel::ScaleAdjacency(scale.id@),
    )
    &&& e.feedback_capabilities.spec_is_empty()
}

impl SemanticScale {
    /// Validates the scale's members in order.
    ///
    /// Returns the first member's error: `InvalidScaleMember` for a non-sense node,
    /// `DuplicateScaleOrdinal` or `DuplicateScaleMember` for an ordinal or sense used before, and
    /// `EmptyEvidence` for a member without evidence.
    #[verifier::loop_isolation(false)]
    pub fn validate(&self) -> (r: Result<(), GraphValidationError>)
        ensures
            match first_scale_error(self.members@, self.members@.len() as int) {
                Some(e) => r == Err::<(), _>(e),
                None => r is Ok,
            },
    {
        let mut i: usize = 0;
        while i < self.members.len()
            invariant
                i <= self.members.len(),
                first_scale_error(self.members@, i as int) is None,
            decreases self.members.len() - i,
        {
            let m = &self.members[i];
            if m.sense.kind != GraphNodeKind::Sense {
                proof {
                    lemma_first_scale_error_sticks(self.members@, i + 1, self.members@.len() as int);
                }
                return Err(GraphValidationError::InvalidScaleMember);
            }
            let mut j: usize = 0;
            while j < i
                invariant
                    j <= i < self.members.len(),
                    *m == self.members@[i as int],
                    forall|k: int| 0 <= k < j ==> (#[trigger] self.members@[k]).ordinal != m.ordinal,
                decreases i - j,
            {
                if self.members[j].ordinal == m.ordinal {
                    proof {
                        assert(self.members@[j as int].ordinal == self.members@[i as int].ordinal);
                        lemma_first_scale_error_sticks(self.members@, i + 1, self.members@.len() as int);
                    }
                    return Err(GraphValidationError::DuplicateScaleOrdinal);
                }
                j += 1;
            }
            let mut j: usize = 0;
            while j < i
                invariant
                    j <= i < self.members.len(),
                    *m == self.members@[i as int],
                    forall|k: int| 0 <= k < j ==> (#[trigger] self.members@[k]).sense@ != m.sense@,
                decreases i - j,
            {
                if self.members[j].sense.same(&m.sense) {
                    proof {
                        assert(self.members@[j as int].sense@ == self.members@[i as int].sense@);
                        lemma_first_scale_error_sticks(self.members@, i + 1, self.members@.len() as int);
                    }
                    return Err(GraphValidationError::DuplicateScaleMember);
                }
                j += 1;
            }
            if m.evidence.evidence_ids.len() == 0 {
                proof {
                    lemma_first_scale_error_sticks(self.members@, i + 1, self.members@.len() as int);
                }
                return Err(GraphValidationError::EmptyEvidence);
            }
            i += 1;
        }
        Ok(())
    }

    /// The node key of the scale itself.
    pub open spec fn spec_node_key(&self) -> (GraphNodeKind, Seq<char>) {
        (GraphNodeKind::Scale, self.id@)
    }

    /// Projects the derived membership and adjacent-degree edges visible from `node`.
    ///
    /// Members are taken in stable ordinal order. From the scale node every membership is
    /// projected in that order. From a member sense (its first occurrence in that order) the
    /// result is its membership in the scale, then the edge to the adjacent lower member, then
    /// the edge to the adjacent higher member, each where it exists. Any other node sees no
    /// edges.
    pub fn project_from(&self, node: &GraphNodeKey) -> (r: Vec<GraphEdge>)
        ensures
            ({
                let order = ordinal_order(self.members@, self.members@.len() as int);
                let n = order.len() as int;
                let k = position_of_node(order, self.members@, node@, 0);
                if node@ == self.spec_node_key() {
                    &&& r@.len() == n
                    &&& forall|j: int| 0 <= j < n ==> membership_edge_is(
                        #[trigger] r@[j],
                        *self,
                        node@,
                        self.members@[order[j] as int].sense@,
                        GraphRelationType::ScaleContains,
                        self.members@[order[j] as int],
                    )
                } else if k >= n {
                    r@.len() == 0
                } else {
                    &&& r@.len() == 1 + (if k > 0 { 1int } else { 0int }) + (if k + 1 < n { 1int } else { 0int })
                    &&& membership_edge_is(
                        r@[0],
                        *self,
                        node@,
                        self.spec_node_key(),
                        GraphRelationType::MemberOfScale,
                        self.members@[order[k] as int],
                    )
                    &&& k > 0 ==> adjacency_edge_is(
                        r@[1],
                        *self,
                        node@,
                        self.members@[order[k - 1] as int].sense@,
                        GraphRelationType::LowerDegree,
                    )
                    &&& k + 1 < n ==> adjacency_edge_is(
                        r@[if k > 0 { 2int } else { 1int }],
                        *self,
                        node@,
                        self.members@[order[k + 1] as int].sense@,
                        GraphRelationType::HigherDegree,
                    )
                }
            }),
    {
        let order = member_positions_by_ordinal(&self.members);
        let scale_node = self.node_key();
        let ghost n = order@.len() as int;
        if node.same(&scale_node) {
            let mut edges: Vec<GraphEdge> = Vec::new();
            let mut j: usize = 0;
            while j < order.len()
                invariant
                    j <= order.len() == self.members.len(),
                    order@ == ordinal_order(self.members@, self.members@.len() as int),
                    forall|k: int| 0 <= k < order@.len() ==> (#[trigger] order@[k]) < self.members@.len(),
                    node@ == self.spec_node_key(),
                    edges@.len() == j,
                    forall|q: int| 0 <= q < j ==> membership_edge_is(
                        #[trigger] edges@[q],
                        *self,
                        node@,
                        self.members@[order@[q] as int].sense@,
                        GraphRelationType::ScaleContains,
                        self.members@[order@[q] as int],
                    ),
                decreases order.len() - j,
            {
                let member = &self.members[order[j]];
                let e = self.membership_edge(node, &member.sense, GraphRelationType::ScaleContains, member);
                edges.push(e);
                j += 1;
            }
            return edges;
        }
        let mut k: usize = 0;
        while k < order.len() && !self.members[order[k]].sense.same(node)
            invariant
                k <= order.len() == self.members.len(),
                forall|q: int| 0 <= q < order@.len() ==> (#[trigger] order@[q]) < self.members@.len(),
                position_of_node(order@, self.members@, node@, 0) == position_of_node(order@, self.members@, node@, k as int),
            decreases order.len() - k,
        {
            k += 1;
        }
        if k >= order.len() {
            return Vec::new();
        }
        let mut edges: Vec<GraphEdge> = Vec::new();
        let member = &self.members[order[k]];
        edges.push(self.membership_edge(node, &scale_node, GraphRelationType::MemberOfScale, member));
        if k > 0 {
            let lower = &self.members[order[k - 1]];
            edges.push(self.derived_edge(node, &lower.sense, GraphRelationType::LowerDegree));
        }
        if k + 1 < order.len() {
            let higher = &self.members[order[k + 1]];
            edges.push(self.derived_edge(node, &higher.sense, GraphRelationType::HigherDegree));
        }
        edges
    }

    fn derived_edge(&self, source: &GraphNodeKey, target: &GraphNodeKey, relation_type: GraphRelationType) -> (e: GraphEdge)
        ensures
            adjacency_edge_is(e, *self, source@, target@, relation_type),
    {
        let (lower, higher) = if relation_type == GraphRelationType::LowerDegree {
            (target, source)
        } else {
            (source, target)
        };
        GraphEdge {
            id: GraphEdgeId::derived_scale(&self.release_id, &self.id, lower, higher),
            source: source.clone(),
            target: target.clone(),
            relation_type,
            directed: true,
            relation_version: None,
            evidence: self.evidence.clone(),
            scope: self.scope.clone(),
            feedback_capabilities: GraphFeedbackCapabilitySet::empty(),
            ranking: self.ranking.clone(),
            origin: GraphEdgeOrigin::ScaleAdjacency { scale_id: self.id.clone() },
        }
    }

    fn membership_edge(
        &self,
        source: &GraphNodeKey,
        target: &GraphNodeKey,
        relation_type: GraphRelationType,
        member: &SemanticScaleMember,
    ) -> (e: GraphEdge)
        ensures
            membership_edge_is(e, *self, source@, target@, relation_type, *member),
    {
        GraphEdge {
            id: GraphEdgeId::derived_scale_membership(&self.release_id, &self.id, member.ordinal, &member.sense),
            source: source.clone(),
            target: target.clone(),
            relation_type,
            directed: true,
            relation_version: None,
            evidence: member.evidence.clone(),
            scope: self.scope.clone(),
            feedback_capabilities: GraphFeedbackCapabilitySet::empty(),
            ranking: self.ranking.clone(),
            origin: GraphEdgeOrigin::ScaleMembership { scale_id: self.id.clone(), ordinal: member.ordinal },
        }
    }

    fn node_key(&self) -> (k: GraphNodeKey)
        ensures
            k@ == self.spec_node_key(),
    {
        GraphNodeKey::new(GraphNodeKind::Scale, self.id.clone())
    }
}

/// Scale projections are derived: none of them carries a relation version or accepts
/// feedback.
pub proof fn lemma_scale_edges_reject_feedback(e: GraphEdge, scale: SemanticScale, source: (GraphNodeKind, Seq<char>), target: (GraphNodeKind, Seq<char>), relation_type: GraphRelationType, member: SemanticScaleMember)
    requires
        membership_edge_is(e, scale, source, target, relation_type, member) || adjacency_edge_is(
            e,
            scale,
            source,
            target,
            relation_type,
        ),
    ensures
        !e.spec_accepts_feedback(),
        e.relation_version is None,
{
}

/// Fully deterministic tie-breaker for graph edge ranking and cursors.
#[derive(Debug, Clone, PartialEq, Eq, PartialOrd, Ord)]
pub struct GraphEdgeOrderingKey {
    /// Descending display score, applied by `compare_graph_edges`.
    pub display_rank: GraphScore,
    /// Stable edge public ID.
    pub edge_id: GraphEdgeId,
    /// Stable projection source key.
    pub source: GraphNodeKey,
    /// Stable projection target key.
    pub target: GraphNodeKey,
    /// Stable relation-type tie breaker.
    pub relation_type: GraphRelationType,
}

/// The public order of edges: higher display rank first, then by edge identifier, source key,
/// target key and relation type.
pub open spec fn ordering_key_lt(a: GraphEdgeOrderingKey, b: GraphEdgeOrderingKey) -> bool {
    let (ra, rb) = (a.display_rank.spec_basis_points(), b.display_rank.spec_basis_points());
    ra > rb || (ra == rb && (text_lt(a.edge_id@, b.edge_id@) || (a.edge_id@ == b.edge_id@ && (
    node_key_lt(a.source@, b.source@) || (a.source@ == b.source@ && (node_key_lt(a.target@, b.target@)
        || (a.target@ == b.target@ && relation_rank(a.relation_type) < relation_rank(b.relation_type))))))))
}

/// Whether two ordering keys hold the same rank, identifier, endpoints and relation type.
pub open spec fn ordering_key_same(a: GraphEdgeOrderingKey, b: GraphEdgeOrderingKey) -> bool {
    &&& a.display_rank == b.display_rank
    &&& a.edge_id@ == b.edge_id@
    &&& a.source@ == b.source@
    &&& a.target@ == b.target@
    &&& a.relation_type == b.relation_type
}

fn compare_node_keys(a: &GraphNodeKey, b: &GraphNodeKey) -> (r: Comparison)
    ensures
        (r == Comparison::Before) == node_key_lt(a@, b@),
        (r == Comparison::After) == node_key_lt(b@, a@),
        (r == Comparison::Same) == (a@ == b@),
{
    proof {
        lemma_text_lt_total(a.id@, b.id@);
        lemma_text_lt_irreflexive(a.id@);
        if text_lt(a.id@, b.id@) {
            lemma_text_lt_asymmetric(a.id@, b.id@);
        }
    }
    let ka = node_kind_position(a.kind);
    let kb = node_kind_position(b.kind);
    if ka < kb {
        Comparison::Before
    } else if kb < ka {
        Comparison::After
    } else {
        proof {
            if a.kind != b.kind {
                assert(node_kind_rank(a.kind) != node_kind_rank(b.kind));
            }
        }
        compare_text(a.id.as_str(), b.id.as_str())
    }
}

/// Compares edge ordering keys in the public deterministic order.
pub fn compare_graph_edge_ordering_keys(left: &GraphEdgeOrderingKey, right: &GraphEdgeOrderingKey) -> (r: Ordering)
    ensures
        (r == Ordering::Less) == ordering_key_lt(*left, *right),
        (r == Ordering::Greater) == ordering_key_lt(*right, *left),
        (r == Ordering::Equal) == ordering_key_same(*left, *right),
{
    let rl = left.display_rank.basis_points();
    let rr = right.display_rank.basis_points();
    if rl > rr {
        return Ordering::Less;
    }
    if rl < rr {
        return Ordering::Greater;
    }
    proof {
        if left.display_rank != right.display_rank {
            assert(left.display_rank.spec_basis_points() == right.display_rank.spec_basis_points());
        }
    }
    match compare_text(left.edge_id.as_str(), right.edge_id.as_str()) {
        Comparison::Before => return Ordering::Less,
        Comparison::After => return Ordering::Greater,
        Comparison::Same => {},
    }
    match compare_node_keys(&left.source, &right.source) {
        Comparison::Before => return Ordering::Less,
        Comparison::After => return Ordering::Greater,
        Comparison::Same => {},
    }
    match compare_node_keys(&left.target, &right.target) {
        Comparison::Before => return Ordering::Less,
        Comparison::After => return Ordering::Greater,
        Comparison::Same => {},
    }
    let a = left.relation_type.position();
    let b = right.relation_type.position();
    if a < b {
        Ordering::Less
    } else if b < a {
        Ordering::Greater
    } else {
        proof {
            if left.relation_type != right.relation_type {
                assert(relation_rank(left.relation_type) != relation_rank(right.relation_type));
            }
        }
        Ordering::Equal
    }
}

/// Compares edges in their public deterministic order.
pub fn compare_graph_edges(left: &GraphEdge, right: &GraphEdge) -> (r: Ordering)
    ensures
        (r == Ordering::Less) == ordering_key_lt(edge_ordering_key(*left), edge_ordering_key(*right)),
        (r == Ordering::Greater) == ordering_key_lt(edge_ordering_key(*right), edge_ordering_key(*left)),
        (r == Ordering::Equal) == ordering_key_same(edge_ordering_key(*left), edge_ordering_key(*right)),
{
    compare_graph_edge_ordering_keys(&left.ordering_key(), &right.ordering_key())
}

/// The ordering key of an edge.
pub open spec fn edge_ordering_key(e: GraphEdge) -> GraphEdgeOrderingKey {
    GraphEdgeOrderingKey {
        display_rank: e.ranking.display_rank,
        edge_id: e.id,
        source: e.source,
        target: e.target,
        relation_type: e.relation_type,
    }
}

/// Whether the relation types of `s` strictly increase in declaration order.
pub open spec fn types_sorted(s: Seq<GraphRelationType>) -> bool {
    forall|i: int, j: int| 0 <= i < j < s.len() ==> relation_rank(#[trigger] s[i]) < relation_rank(#[trigger] s[j])
}

/// Optional relation-type filter applied before node and edge limits.
#[derive(Debug, Clone, PartialEq, Eq, PartialOrd, Ord, Hash)]
pub struct GraphFilter {
    relation_types: Vec<GraphRelationType>,
}

impl GraphFilter {
    /// The included relation types, each once, in declaration order; empty includes every type.
    pub closed spec fn spec_relation_types(&self) -> Seq<GraphRelationType> {
        self.relation_types@
    }

    /// The filter holds its types once each, in declaration order.
    pub closed spec fn spec_normalized(&self) -> bool {
        types_sorted(self.relation_types@)
    }

    /// A filter that includes exactly the given relation types; none means every type.
    pub fn from_types(relation_types: Vec<GraphRelationType>) -> (r: Self)
        ensures
            r.spec_normalized(),
            forall|t: GraphRelationType| r.spec_relation_types().contains(t) <==> relation_types@.contains(t),
    {
        let mut out: Vec<GraphRelationType> = Vec::new();
        let mut i: usize = 0;
        while i < relation_types.len()
            invariant
                i <= relation_types.len(),
                types_sorted(out@),
                forall|t: GraphRelationType| out@.contains(t) <==> relation_types@.take(i as int).contains(t),
            decreases relation_types.len() - i,
        {
            let t = relation_types[i];
            let rt = t.position();
            let mut j: usize = 0;
            while j < out.len() && out[j].position() < rt
                invariant
                    j <= out.len(),
                    rt == relation_rank(t),
                    forall|q: int| 0 <= q < j ==> relation_rank(#[trigger] out@[q]) < relation_rank(t),
                decreases out.len() - j,
            {
                j += 1;
            }
            let ghost prev = relation_types@.take(i as int);
            proof {
                assert(relation_types@.take(i + 1) =~= prev.push(t));
                assert forall|d: GraphRelationType| prev.push(t).contains(d) <==> (prev.contains(d) || d == t) by {
                    if prev.push(t).contains(d) {
                        let k = choose|k: int| 0 <= k < prev.push(t).len() && prev.push(t)[k] == d;
                        if k < prev.len() {
                            assert(prev[k] == d);
                        }
                    }
                    if prev.contains(d) {
                        let k = choose|k: int| 0 <= k < prev.len() && prev[k] == d;
                        assert(prev.push(t)[k] == d);
                    }
                    if d == t {
                        assert(prev.push(t)[prev.len() as int] == d);
                    }
                }
            }
            let ghost start = out@;
            if j < out.len() && out[j] == t {
                assert(out@[j as int] == t);
                assert forall|d: GraphRelationType| out@.contains(d) <==> relation_types@.take(i + 1).contains(d) by {
                    if d == t {
                        assert(out@.contains(t));
                    }
                }
            } else {
                let ghost before = out@;
                proof {
                    if j < out.len() {
                        assert(relation_rank(out@[j as int]) != relation_rank(t));
                    }
                }
                out.insert(j, t);
                proof {
                    assert forall|a: int, b: int| 0 <= a < b < out@.len() implies relation_rank(
                        #[trigger] out@[a],
                    ) < relation_rank(#[trigger] out@[b]) by {
                        if b < j {
                            assert(out@[a] == before[a] && out@[b] == before[b]);
                        } else if b == j {
                            assert(out@[a] == before[a]);
                        } else if a == j {
                            assert(out@[b] == before[b - 1]);
                            if b - 1 > j {
                                assert(relation_rank(before[j as int]) < relation_rank(before[b - 1]));
                            }
                        } else if a < j {
                            assert(out@[a] == before[a] && out@[b] == before[b - 1]);
                        } else {
                            assert(out@[a] == before[a - 1] && out@[b] == before[b - 1]);
                        }
                    }
                    assert forall|d: GraphRelationType| out@.contains(d) <==> (before.contains(d) || d == t) by {
                        if out@.contains(d) {
                            let k = choose|k: int| 0 <= k < out@.len() && out@[k] == d;
                            if k < j {
                                assert(before[k] == d);
                            } else if k > j {
                                assert(before[k - 1] == d);
                            }
                        }
                        if before.contains(d) {
                            let k = choose|k: int| 0 <= k < before.len() && before[k] == d;
                            if k < j {
                                assert(out@[k] == d);
                            } else {
                                assert(out@[k + 1] == d);
                            }
                        }
                        if d == t {
                            assert(out@[j as int] == d);
                        }
                    }
                    assert forall|d: GraphRelationType| out@.contains(d) <==> relation_types@.take(i + 1).contains(d) by {
                        assert(before.contains(d) <==> prev.contains(d));
                    }
                }
            }
            i += 1;
        }
        assert(relation_types@.take(relation_types.len() as int) =~= relation_types@);
        GraphFilter { relation_types: out }
    }

    /// Returns the included relation types in declaration order.
    pub fn relation_types(&self) -> (r: &Vec<GraphRelationType>)
        ensures
            r@ == self.spec_relation_types(),
    {
        &self.relation_types
    }

    /// Whether `relation_type` passes the filter.
    pub open spec fn spec_allows(&self, relation_type: GraphRelationType) -> bool {
        self.spec_relation_types().len() == 0 || self.spec_relation_types().contains(relation_type)
    }

    /// Returns whether `relation_type` is allowed by this filter.
    pub fn allows(&self, relation_type: GraphRelationType) -> (b: bool)
        ensures
            b == self.spec_allows(relation_type),
    {
        if self.relation_types.len() == 0 {
            return true;
        }
        let mut i: usize = 0;
        while i < self.relation_types.len()
            invariant
                i <= self.relation_types.len(),
                forall|q: int| 0 <= q < i ==> self.relation_types@[q] != relation_type,
            decreases self.relation_types.len() - i,
        {
            if self.relation_types[i] == relation_type {
                assert(self.relation_types@[i as int] == relation_type);
                return true;
            }
            i += 1;
        }
        false
    }

    /// Whether both filters include the same relation types.
    pub fn same(&self, other: &GraphFilter) -> (b: bool)
        ensures
            b == (self.spec_relation_types() == other.spec_relation_types()),
    {
        if self.relation_types.len() != other.relation_types.len() {
            return false;
        }
        let mut i: usize = 0;
        while i < self.relation_types.len()
            invariant
                i <= self.relation_types.len() == other.relation_types.len(),
                forall|q: int| 0 <= q < i ==> self.relation_types@[q] == other.relation_types@[q],
            decreases self.relation_types.len() - i,
        {
            if self.relation_types[i] != other.relation_types[i] {
                return false;
            }
            i += 1;
        }
        assert(self.relation_types@ =~= other.relation_types@);
        true
    }
}

impl Default for GraphFilter {
    fn default() -> (r: Self)
        ensures
            r.spec_relation_types().len() == 0,
            r.spec_normalized(),
    {
        GraphFilter { relation_types: Vec::new() }
    }
}

/// Cursor used to resume deterministic edges adjacent to one typed root.
#[derive(Debug, Clone, PartialEq, Eq, PartialOrd, Ord)]
pub struct GraphCursor {
    /// Root node whose neighbor ordering is being resumed.
    pub root: GraphNodeKey,
    /// Content version against which the ordering was issued.
    pub content: GraphContentVersion,
    /// Exact normalized relation filter against which the ordering was issued.
    pub filter: GraphFilter,
    /// Last edge returned on the preceding page.
    pub after: GraphEdgeOrderingKey,
}

/// Validated bounded request for a multi-hop graph read.
#[derive(Debug, Clone, PartialEq, Eq)]
pub struct GraphReadRequest {
    /// Typed canonical root node.
    pub root: GraphNodeKey,
    /// Number of breadth-first hops to expand from `root`.
    pub depth: u8,
    /// Maximum number of returned nodes, including root and every edge endpoint.
    pub node_limit: usize,
    /// Maximum number of returned edges.
    pub edge_limit: usize,
    /// Relation types eligible for traversal.
    pub filter: GraphFilter,
}

impl GraphReadRequest {
    /// Creates a graph request with explicit bounded limits.
    ///
    /// Returns `InvalidDepth` for a depth above 2, `InvalidNodeLimit` for a node limit outside
    /// 1..=75 and `InvalidEdgeLimit` for an edge limit outside 1..=200, checked in that order.
    pub fn new(root: GraphNodeKey, depth: u8, node_limit: usize, edge_limit: usize, filter: GraphFilter) -> (r: Result<Self, GraphValidationError>)
        ensures
            depth > 2 ==> r == Err::<Self, _>(GraphValidationError::InvalidDepth),
            depth <= 2 && !(1 <= node_limit <= 75) ==> r == Err::<Self, _>(GraphValidationError::InvalidNodeLimit),
            depth <= 2 && 1 <= node_limit <= 75 && !(1 <= edge_limit <= 200) ==> r == Err::<Self, _>(
                GraphValidationError::InvalidEdgeLimit,
            ),
            r is Ok <==> (depth <= 2 && 1 <= node_limit <= 75 && 1 <= edge_limit <= 200),
            r matches Ok(q) ==> q.root == root && q.depth == depth && q.node_limit == node_limit
                && q.edge_limit == edge_limit && q.filter == filter,
    {
        if depth > MAX_GRAPH_DEPTH {
            return Err(GraphValidationError::InvalidDepth);
        }
        if node_limit < 1 || node_limit > MAX_GRAPH_NODE_LIMIT {
            return Err(GraphValidationError::InvalidNodeLimit);
        }
        if edge_limit < 1 || edge_limit > MAX_GRAPH_EDGE_LIMIT {
            return Err(GraphValidationError::InvalidEdgeLimit);
        }
        Ok(GraphReadRequest { root, depth, node_limit, edge_limit, filter })
    }

    /// Creates the default depth-one graph request with the default limits and no filter.
    pub fn defaults(root: GraphNodeKey) -> (r: Self)
        ensures
            r.root == root,
            r.depth == 1,
            r.node_limit == 75,
            r.edge_limit == 200,
            r.filter.spec_relation_types().len() == 0,
    {
        GraphReadRequest {
            root,
            depth: DEFAULT_GRAPH_DEPTH,
            node_limit: DEFAULT_GRAPH_NODE_LIMIT,
            edge_limit: DEFAULT_GRAPH_EDGE_LIMIT,
            filter: GraphFilter::default(),
        }
    }
}

/// Validated paginated request for one typed node's direct neighbors.
#[derive(Debug, Clone, PartialEq, Eq)]
pub struct GraphNeighborRequest {
    /// Node whose direct projections are requested.
    pub root: GraphNodeKey,
    /// Maximum number of returned nodes, including root and every edge endpoint.
    pub node_limit: usize,
    /// Maximum number of returned edges and endpoint nodes on this page.
    pub edge_limit: usize,
    /// Relation types eligible for expansion.
    pub filter: GraphFilter,
    /// Prior page cursor, if any.
    pub cursor: Option<GraphCursor>,
}

impl GraphNeighborRequest {
    /// Creates a direct-neighbor request with a bounded page size.
    ///
    /// Returns `InvalidNeighborNodeLimit` for a node limit outside 2..=75 and
    /// `InvalidEdgeLimit` for an edge limit outside 1..=200, checked in that order.
    pub fn new(root: GraphNodeKey, node_limit: usize, edge_limit: usize, filter: GraphFilter, cursor: Option<GraphCursor>) -> (r: Result<Self, GraphValidationError>)
        ensures
            !(2 <= node_limit <= 75) ==> r == Err::<Self, _>(GraphValidationError::InvalidNeighborNodeLimit),
            2 <= node_limit <= 75 && !(1 <= edge_limit <= 200) ==> r == Err::<Self, _>(
                GraphValidationError::InvalidEdgeLimit,
            ),
            r is Ok <==> (2 <= node_limit <= 75 && 1 <= edge_limit <= 200),
            r matches Ok(q) ==> q.root == root && q.node_limit == node_limit && q.edge_limit == edge_limit
                && q.filter == filter && q.cursor == cursor,
    {
        if node_limit < 2 || node_limit > MAX_GRAPH_NODE_LIMIT {
            return Err(GraphValidationError::InvalidNeighborNodeLimit);
        }
        if edge_limit < 1 || edge_limit > MAX_GRAPH_EDGE_LIMIT {
            return Err(GraphValidationError::InvalidEdgeLimit);
        }
        Ok(GraphNeighborRequest { root, node_limit, edge_limit, filter, cursor })
    }

    /// Creates the default direct-neighbor request for `root`.
    pub fn defaults(root: GraphNodeKey) -> (r: Self)
        ensures
            r.root == root,
            r.node_limit == 75,
            r.edge_limit == 200,
            r.filter.spec_relation_types().len() == 0,
            r.cursor is None,
    {
        GraphNeighborRequest {
            root,
            node_limit: DEFAULT_GRAPH_NODE_LIMIT,
            edge_limit: DEFAULT_GRAPH_EDGE_LIMIT,
            filter: GraphFilter::default(),
            cursor: None,
        }
    }
}

/// Internally complete bounded topology returned by graph and neighbor expansion reads.
#[derive(Debug, Clone, PartialEq, Eq)]
pub struct GraphReadResult {
    /// Pinned public graph content and ranking versions.
    pub content: GraphContentVersion,
    /// Typed root node requested by the caller.
    pub root: GraphNodeKey,
    /// Every returned node, including every edge endpoint.
    pub nodes: Vec<GraphNode>,
    /// Deterministically ranked bounded edge projections.
    pub edges: Vec<GraphEdge>,
    /// Whether eligible topology was omitted because of a cap or a remaining page.
    pub truncated: bool,
    /// Cursor for the next direct-neighbor page, when this result is paginated.
    pub next_cursor: Option<GraphCursor>,
}

} // verus!
