//! Fusion does not depend on the order in which adapters return their matches.
//!
//! Fusion keeps, for each sense, the smallest candidate in the derived order, the strongest
//! score of each signal kind and the set of vector purposes. Each of these depends only on
//! which signals arrived, not on when, and the public order is strict between senses, so a
//! reordering of the repository's or the vector index's matches gives the same ranking.

use crate::domain::canonical::{ActiveContentVersion, EvidenceUse};
use crate::domain::retrieval::{
    acc_index, candidate_is_eligible, candidate_lt, fold_lexical, fold_vector, fused_accumulators,
    fused_ranking, head_atoms, lemma_acc_index, lemma_candidate_order, lemma_merge_keeps_distinct,
    lemma_purpose_set, lemma_ranked_before, lemma_score_determined, merge_signal, no_features, raised,
    fusion_value, ranked_before, same_candidate, senses_distinct, vector_accepted, with_signal, Accumulated,
    CandidateSignal, CanonicalCandidate, HydratedVectorMatch, LexicalMatchKind, RankedCandidate,
    RepositoryMatch, RetrievalScore, VectorPurpose, VectorPurposeSet,
};
use vstd::prelude::*;

verus! {

/// One signal that fusion records for a candidate, or nothing for a match it drops.
pub type FusionEvent = Option<(CanonicalCandidate, CandidateSignal)>;

/// The signal a lexical match contributes, if its candidate is eligible.
pub open spec fn lexical_event(content: ActiveContentVersion, evidence_use: EvidenceUse, m: RepositoryMatch) -> FusionEvent {
    if candidate_is_eligible(m.candidate, content.release_id@, evidence_use) {
        Some((m.candidate, CandidateSignal::Lexical(m.kind, m.score)))
    } else {
        None
    }
}

/// The signal a vector match contributes, if it is accepted.
pub open spec fn vector_event(content: ActiveContentVersion, evidence_use: EvidenceUse, m: HydratedVectorMatch) -> FusionEvent {
    if vector_accepted(content, evidence_use, m) {
        Some((m.candidate, CandidateSignal::Vector(m.vector.score, m.vector.purpose)))
    } else {
        None
    }
}

/// The signals of all lexical matches in `l`.
pub open spec fn lexical_events(content: ActiveContentVersion, evidence_use: EvidenceUse, l: Seq<RepositoryMatch>) -> Set<FusionEvent> {
    Set::new(|e: FusionEvent| exists|i: int| 0 <= i < l.len() && e == lexical_event(content, evidence_use, #[trigger] l[i]))
}

/// The signals of all vector matches in `v`.
pub open spec fn vector_events(content: ActiveContentVersion, evidence_use: EvidenceUse, v: Seq<HydratedVectorMatch>) -> Set<FusionEvent> {
    Set::new(|e: FusionEvent| exists|i: int| 0 <= i < v.len() && e == vector_event(content, evidence_use, #[trigger] v[i]))
}

/// The accumulated candidate and features for sense `id`, if any.
pub open spec fn entry(accs: Seq<Accumulated>, id: Seq<char>) -> Option<Accumulated> {
    if acc_index(accs, id) >= 0 {
        Some(accs[acc_index(accs, id)])
    } else {
        None
    }
}

/// Whether `e` is a signal for sense `id`.
pub open spec fn relevant(e: FusionEvent, id: Seq<char>) -> bool {
    e matches Some(p) && p.0.sense.id@ == id
}

/// The entry for a sense after one more signal for it.
pub open spec fn step(o: Option<Accumulated>, c: CanonicalCandidate, signal: CandidateSignal) -> Accumulated {
    match o {
        None => (c, with_signal(no_features(), signal)),
        Some(p) => (if candidate_lt(c, p.0) {
            c
        } else {
            p.0
        }, with_signal(p.1, signal)),
    }
}

/// Whether `signal` is a lexical signal of kind `k`.
pub open spec fn is_lexical_kind(signal: CandidateSignal, k: LexicalMatchKind) -> bool {
    signal matches CandidateSignal::Lexical(k2, _) && k2 == k
}

/// The score a signal carries.
pub open spec fn signal_score(signal: CandidateSignal) -> RetrievalScore {
    match signal {
        CandidateSignal::Lexical(_, s) => s,
        CandidateSignal::Vector(s, _) => s,
    }
}

/// Whether `x` is the strongest score of the lexical signals of kind `k` for sense `id` among
/// `events`, absent when there is none.
pub open spec fn lexical_best(events: Set<FusionEvent>, id: Seq<char>, k: LexicalMatchKind, x: Option<RetrievalScore>) -> bool {
    match x {
        None => forall|e: FusionEvent| #[trigger] events.contains(e) && relevant(e, id) ==> !is_lexical_kind(e.unwrap().1, k),
        Some(m) => {
            &&& exists|e: FusionEvent| #[trigger] events.contains(e) && relevant(e, id) && e.unwrap().1 == CandidateSignal::Lexical(k, m)
            &&& forall|e: FusionEvent| #[trigger] events.contains(e) && relevant(e, id) && is_lexical_kind(e.unwrap().1, k)
                ==> signal_score(e.unwrap().1).spec_basis_points() <= m.spec_basis_points()
        },
    }
}

/// Whether `x` is the strongest vector similarity for sense `id` among `events`, absent when
/// there is none.
pub open spec fn vector_best(events: Set<FusionEvent>, id: Seq<char>, x: Option<RetrievalScore>) -> bool {
    match x {
        None => forall|e: FusionEvent| #[trigger] events.contains(e) && relevant(e, id) ==> !(e.unwrap().1 is Vector),
        Some(m) => {
            &&& exists|e: FusionEvent| #[trigger] events.contains(e) && relevant(e, id) && e.unwrap().1 is Vector && signal_score(e.unwrap().1) == m
            &&& forall|e: FusionEvent| #[trigger] events.contains(e) && relevant(e, id) && e.unwrap().1 is Vector
                ==> signal_score(e.unwrap().1).spec_basis_points() <= m.spec_basis_points()
        },
    }
}

/// Whether `e` is a vector signal for sense `id` from a collection of purpose `q`.
pub open spec fn vector_purpose_event(e: FusionEvent, id: Seq<char>, q: VectorPurpose) -> bool {
    &&& relevant(e, id)
    &&& e.unwrap().1 matches CandidateSignal::Vector(_, p) && p == q
}

/// Whether `ps` holds exactly the purposes of the vector signals for sense `id` in `events`.
pub open spec fn purposes_match(events: Set<FusionEvent>, id: Seq<char>, ps: VectorPurposeSet) -> bool {
    forall|q: VectorPurpose| #[trigger] ps.spec_contains(q) <==> exists|e: FusionEvent| #[trigger] events.contains(e) && vector_purpose_event(e, id, q)
}

/// Whether `o` is what fusion holds for sense `id` once it has seen exactly the signals in
/// `events`: nothing when no signal is for that sense; otherwise the smallest candidate of
/// those signals, each strongest score and the purposes seen.
pub open spec fn entry_matches(events: Set<FusionEvent>, id: Seq<char>, o: Option<Accumulated>) -> bool {
    match o {
        None => forall|e: FusionEvent| #[trigger] events.contains(e) ==> !relevant(e, id),
        Some(p) => {
            &&& p.0.sense.id@ == id
            &&& exists|e: FusionEvent| #[trigger] events.contains(e) && relevant(e, id) && e.unwrap().0 == p.0
            &&& forall|e: FusionEvent| #[trigger] events.contains(e) && relevant(e, id) ==> !candidate_lt(e.unwrap().0, p.0)
            &&& lexical_best(events, id, LexicalMatchKind::ExactForm, p.1.exact_form)
            &&& lexical_best(events, id, LexicalMatchKind::Phrase, p.1.phrase)
            &&& lexical_best(events, id, LexicalMatchKind::Lemma, p.1.lemma)
            &&& lexical_best(events, id, LexicalMatchKind::Morphology, p.1.morphology)
            &&& lexical_best(events, id, LexicalMatchKind::FullText, p.1.full_text)
            &&& vector_best(events, id, p.1.vector_similarity)
            &&& purposes_match(events, id, p.1.vector_purposes)
        },
    }
}

proof fn lemma_acc_index_update(accs: Seq<Accumulated>, i: int, x: Accumulated, id: Seq<char>)
    requires
        0 <= i < accs.len(),
        x.0.sense.id@ == accs[i].0.sense.id@,
    ensures
        acc_index(accs.update(i, x), id) == acc_index(accs, id),
    decreases accs.len(),
{
    let u = accs.update(i, x);
    if i == accs.len() - 1 {
        assert(u.drop_last() =~= accs.drop_last());
    } else {
        assert(u.drop_last() =~= accs.drop_last().update(i, x));
        lemma_acc_index_update(accs.drop_last(), i, x, id);
    }
}

proof fn lemma_entry_merge(accs: Seq<Accumulated>, c: CanonicalCandidate, signal: CandidateSignal, id: Seq<char>)
    ensures
        entry(merge_signal(accs, c, signal), id) == if c.sense.id@ == id {
            Some(step(entry(accs, id), c, signal))
        } else {
            entry(accs, id)
        },
{
    lemma_acc_index(accs, c.sense.id@);
    lemma_acc_index(accs, id);
    let i = acc_index(accs, c.sense.id@);
    let m = merge_signal(accs, c, signal);
    if i >= 0 {
        let nc = if candidate_lt(c, accs[i].0) {
            c
        } else {
            accs[i].0
        };
        lemma_acc_index_update(accs, i, (nc, with_signal(accs[i].1, signal)), id);
    } else {
        assert(m.drop_last() =~= accs);
    }
}

proof fn lemma_lexical_best_step(events: Set<FusionEvent>, id: Seq<char>, k: LexicalMatchKind, x: Option<RetrievalScore>, e: FusionEvent)
    requires
        lexical_best(events, id, k, x),
    ensures
        lexical_best(
            events.insert(e),
            id,
            k,
            if relevant(e, id) && is_lexical_kind(e.unwrap().1, k) {
                raised(x, signal_score(e.unwrap().1))
            } else {
                x
            },
        ),
{
    let ev = events.insert(e);
    if relevant(e, id) && is_lexical_kind(e.unwrap().1, k) {
        let sc = signal_score(e.unwrap().1);
        assert(e.unwrap().1 == CandidateSignal::Lexical(k, sc));
        assert(ev.contains(e));
        match x {
            None => {},
            Some(m) => {
                let w = choose|w: FusionEvent| #[trigger] events.contains(w) && relevant(w, id) && w.unwrap().1 == CandidateSignal::Lexical(k, m);
                assert(ev.contains(w));
            },
        }
    } else {
        match x {
            None => {},
            Some(m) => {
                let w = choose|w: FusionEvent| #[trigger] events.contains(w) && relevant(w, id) && w.unwrap().1 == CandidateSignal::Lexical(k, m);
                assert(ev.contains(w));
            },
        }
    }
}

proof fn lemma_vector_best_step(events: Set<FusionEvent>, id: Seq<char>, x: Option<RetrievalScore>, e: FusionEvent)
    requires
        vector_best(events, id, x),
    ensures
        vector_best(
            events.insert(e),
            id,
            if relevant(e, id) && e.unwrap().1 is Vector {
                raised(x, signal_score(e.unwrap().1))
            } else {
                x
            },
        ),
{
    let ev = events.insert(e);
    assert(ev.contains(e));
    match x {
        None => {},
        Some(m) => {
            let w = choose|w: FusionEvent| #[trigger] events.contains(w) && relevant(w, id) && w.unwrap().1 is Vector && signal_score(w.unwrap().1) == m;
            assert(ev.contains(w));
        },
    }
}

proof fn lemma_purposes_step(events: Set<FusionEvent>, id: Seq<char>, ps: VectorPurposeSet, e: FusionEvent)
    requires
        purposes_match(events, id, ps),
    ensures
        purposes_match(
            events.insert(e),
            id,
            if relevant(e, id) && e.unwrap().1 is Vector {
                ps.spec_insert(e.unwrap().1->Vector_1)
            } else {
                ps
            },
        ),
{
    let ev = events.insert(e);
    assert(ev.contains(e));
    let nps = if relevant(e, id) && e.unwrap().1 is Vector {
        ps.spec_insert(e.unwrap().1->Vector_1)
    } else {
        ps
    };
    assert forall|q: VectorPurpose| #[trigger] nps.spec_contains(q) <==> exists|w: FusionEvent| #[trigger] ev.contains(w) && vector_purpose_event(w, id, q) by {
        lemma_purpose_set(ps, ps, e.unwrap().1->Vector_1, q);
        if ps.spec_contains(q) {
            let w = choose|w: FusionEvent| #[trigger] events.contains(w) && vector_purpose_event(w, id, q);
            assert(ev.contains(w));
        }
        if exists|w: FusionEvent| #[trigger] ev.contains(w) && vector_purpose_event(w, id, q) {
            let w = choose|w: FusionEvent| #[trigger] ev.contains(w) && vector_purpose_event(w, id, q);
            if w != e {
                assert(events.contains(w));
            }
        }
    }
}

proof fn lemma_entry_step(events: Set<FusionEvent>, id: Seq<char>, o: Option<Accumulated>, e: FusionEvent)
    requires
        entry_matches(events, id, o),
    ensures
        entry_matches(
            events.insert(e),
            id,
            if relevant(e, id) {
                Some(step(o, e.unwrap().0, e.unwrap().1))
            } else {
                o
            },
        ),
{
    let ev = events.insert(e);
    assert(ev.contains(e));
    if relevant(e, id) {
        let c = e.unwrap().0;
        let signal = e.unwrap().1;
        let f = match o {
            None => no_features(),
            Some(p) => p.1,
        };
        if o is None {
            assert(lexical_best(events, id, LexicalMatchKind::ExactForm, None));
            assert(lexical_best(events, id, LexicalMatchKind::Phrase, None));
            assert(lexical_best(events, id, LexicalMatchKind::Lemma, None));
            assert(lexical_best(events, id, LexicalMatchKind::Morphology, None));
            assert(lexical_best(events, id, LexicalMatchKind::FullText, None));
            assert(vector_best(events, id, None));
            assert forall|q: VectorPurpose| #[trigger] VectorPurposeSet::spec_empty().spec_contains(q) <==> exists|w: FusionEvent| #[trigger] events.contains(w) && vector_purpose_event(w, id, q) by {
                lemma_purpose_set(VectorPurposeSet::spec_empty(), VectorPurposeSet::spec_empty(), q, q);
            }
        }
        assert(lexical_best(events, id, LexicalMatchKind::ExactForm, f.exact_form));
        assert(lexical_best(events, id, LexicalMatchKind::Phrase, f.phrase));
        assert(lexical_best(events, id, LexicalMatchKind::Lemma, f.lemma));
        assert(lexical_best(events, id, LexicalMatchKind::Morphology, f.morphology));
        assert(lexical_best(events, id, LexicalMatchKind::FullText, f.full_text));
        assert(vector_best(events, id, f.vector_similarity));
        assert(purposes_match(events, id, f.vector_purposes));
        lemma_lexical_best_step(events, id, LexicalMatchKind::ExactForm, f.exact_form, e);
        lemma_lexical_best_step(events, id, LexicalMatchKind::Phrase, f.phrase, e);
        lemma_lexical_best_step(events, id, LexicalMatchKind::Lemma, f.lemma, e);
        lemma_lexical_best_step(events, id, LexicalMatchKind::Morphology, f.morphology, e);
        lemma_lexical_best_step(events, id, LexicalMatchKind::FullText, f.full_text, e);
        lemma_vector_best_step(events, id, f.vector_similarity, e);
        lemma_purposes_step(events, id, f.vector_purposes, e);
        let n = step(o, c, signal);
        assert(n.1 == with_signal(f, signal));
        // The kept candidate is below no signal's candidate.
        match o {
            None => {
                lemma_candidate_order(c, c, c);
            },
            Some(p) => {
                lemma_candidate_order(c, p.0, c);
                lemma_candidate_order(p.0, p.0, p.0);
                assert forall|w: FusionEvent| #[trigger] ev.contains(w) && relevant(w, id) implies !candidate_lt(w.unwrap().0, n.0) by {
                    lemma_candidate_order(w.unwrap().0, c, p.0);
                    if w != e {
                        assert(events.contains(w));
                    }
                }
                let w0 = choose|w: FusionEvent| #[trigger] events.contains(w) && relevant(w, id) && w.unwrap().0 == p.0;
                assert(ev.contains(w0));
            },
        }
    } else {
        match o {
            None => {},
            Some(p) => {
                let w0 = choose|w: FusionEvent| #[trigger] events.contains(w) && relevant(w, id) && w.unwrap().0 == p.0;
                assert(ev.contains(w0));
                lemma_lexical_best_step(events, id, LexicalMatchKind::ExactForm, p.1.exact_form, e);
                lemma_lexical_best_step(events, id, LexicalMatchKind::Phrase, p.1.phrase, e);
                lemma_lexical_best_step(events, id, LexicalMatchKind::Lemma, p.1.lemma, e);
                lemma_lexical_best_step(events, id, LexicalMatchKind::Morphology, p.1.morphology, e);
                lemma_lexical_best_step(events, id, LexicalMatchKind::FullText, p.1.full_text, e);
                lemma_vector_best_step(events, id, p.1.vector_similarity, e);
                lemma_purposes_step(events, id, p.1.vector_purposes, e);
            },
        }
    }
}

/// The accumulated candidates after one more signal, or unchanged for a dropped match.
pub open spec fn apply_event(accs: Seq<Accumulated>, e: FusionEvent) -> Seq<Accumulated> {
    match e {
        Some(p) => merge_signal(accs, p.0, p.1),
        None => accs,
    }
}

proof fn lemma_apply_entries(accs: Seq<Accumulated>, events: Set<FusionEvent>, e: FusionEvent)
    requires
        senses_distinct(accs),
        forall|id: Seq<char>| entry_matches(events, id, #[trigger] entry(accs, id)),
    ensures
        senses_distinct(apply_event(accs, e)),
        forall|id: Seq<char>| entry_matches(events.insert(e), id, #[trigger] entry(apply_event(accs, e), id)),
{
    if let Some(p) = e {
        lemma_merge_keeps_distinct(accs, p.0, p.1);
    }
    assert forall|id: Seq<char>| entry_matches(events.insert(e), id, #[trigger] entry(apply_event(accs, e), id)) by {
        assert(entry_matches(events, id, entry(accs, id)));
        lemma_entry_step(events, id, entry(accs, id), e);
        if let Some(p) = e {
            lemma_entry_merge(accs, p.0, p.1, id);
        }
    }
}

proof fn lemma_fold_lexical_entries(
    accs: Seq<Accumulated>,
    content: ActiveContentVersion,
    evidence_use: EvidenceUse,
    l: Seq<RepositoryMatch>,
    events: Set<FusionEvent>,
)
    requires
        senses_distinct(accs),
        forall|id: Seq<char>| entry_matches(events, id, #[trigger] entry(accs, id)),
    ensures
        senses_distinct(fold_lexical(accs, content, evidence_use, l)),
        forall|id: Seq<char>| entry_matches(
            events + lexical_events(content, evidence_use, l),
            id,
            #[trigger] entry(fold_lexical(accs, content, evidence_use, l), id),
        ),
    decreases l.len(),
{
    if l.len() == 0 {
        assert(events + lexical_events(content, evidence_use, l) =~= events);
    } else {
        let e = lexical_event(content, evidence_use, l[0]);
        lemma_apply_entries(accs, events, e);
        let next = apply_event(accs, e);
        let rest = l.drop_first();
        lemma_fold_lexical_entries(next, content, evidence_use, rest, events.insert(e));
        assert(events.insert(e) + lexical_events(content, evidence_use, rest) =~= events + lexical_events(content, evidence_use, l)) by {
            assert forall|w: FusionEvent| #[trigger] lexical_events(content, evidence_use, rest).contains(w) implies lexical_events(content, evidence_use, l).contains(w) by {
                let i = choose|i: int| 0 <= i < rest.len() && w == lexical_event(content, evidence_use, #[trigger] rest[i]);
                assert(l[i + 1] == rest[i]);
            }
            assert(l[0] == l[0]);
            assert forall|w: FusionEvent| #[trigger] lexical_events(content, evidence_use, l).contains(w) implies w == e || lexical_events(content, evidence_use, rest).contains(w) by {
                let i = choose|i: int| 0 <= i < l.len() && w == lexical_event(content, evidence_use, #[trigger] l[i]);
                if i > 0 {
                    assert(rest[i - 1] == l[i]);
                }
            }
        }
    }
}

proof fn lemma_fold_vector_entries(
    accs: Seq<Accumulated>,
    content: ActiveContentVersion,
    evidence_use: EvidenceUse,
    v: Seq<HydratedVectorMatch>,
    events: Set<FusionEvent>,
)
    requires
        senses_distinct(accs),
        forall|id: Seq<char>| entry_matches(events, id, #[trigger] entry(accs, id)),
    ensures
        senses_distinct(fold_vector(accs, content, evidence_use, v)),
        forall|id: Seq<char>| entry_matches(
            events + vector_events(content, evidence_use, v),
            id,
            #[trigger] entry(fold_vector(accs, content, evidence_use, v), id),
        ),
    decreases v.len(),
{
    if v.len() == 0 {
        assert(events + vector_events(content, evidence_use, v) =~= events);
    } else {
        let e = vector_event(content, evidence_use, v[0]);
        lemma_apply_entries(accs, events, e);
        let next = apply_event(accs, e);
        let rest = v.drop_first();
        lemma_fold_vector_entries(next, content, evidence_use, rest, events.insert(e));
        assert(events.insert(e) + vector_events(content, evidence_use, rest) =~= events + vector_events(content, evidence_use, v)) by {
            assert forall|w: FusionEvent| #[trigger] vector_events(content, evidence_use, rest).contains(w) implies vector_events(content, evidence_use, v).contains(w) by {
                let i = choose|i: int| 0 <= i < rest.len() && w == vector_event(content, evidence_use, #[trigger] rest[i]);
                assert(v[i + 1] == rest[i]);
            }
            assert(v[0] == v[0]);
            assert forall|w: FusionEvent| #[trigger] vector_events(content, evidence_use, v).contains(w) implies w == e || vector_events(content, evidence_use, rest).contains(w) by {
                let i = choose|i: int| 0 <= i < v.len() && w == vector_event(content, evidence_use, #[trigger] v[i]);
                if i > 0 {
                    assert(rest[i - 1] == v[i]);
                }
            }
        }
    }
}

/// The signals that fusion sees for the matches `l` and `v`.
pub open spec fn fusion_events(
    content: ActiveContentVersion,
    evidence_use: EvidenceUse,
    l: Seq<RepositoryMatch>,
    v: Seq<HydratedVectorMatch>,
) -> Set<FusionEvent> {
    Set::empty() + lexical_events(content, evidence_use, l) + vector_events(content, evidence_use, v)
}

proof fn lemma_fused_entries(
    content: ActiveContentVersion,
    evidence_use: EvidenceUse,
    l: Seq<RepositoryMatch>,
    v: Seq<HydratedVectorMatch>,
)
    ensures
        senses_distinct(fused_accumulators(content, evidence_use, l, v)),
        forall|id: Seq<char>| entry_matches(
            fusion_events(content, evidence_use, l, v),
            id,
            #[trigger] entry(fused_accumulators(content, evidence_use, l, v), id),
        ),
{
    let empty = Seq::<Accumulated>::empty();
    assert forall|id: Seq<char>| entry_matches(Set::<FusionEvent>::empty(), id, #[trigger] entry(empty, id)) by {}
    lemma_fold_lexical_entries(empty, content, evidence_use, l, Set::empty());
    let mid = fold_lexical(empty, content, evidence_use, l);
    lemma_fold_vector_entries(mid, content, evidence_use, v, Set::empty() + lexical_events(content, evidence_use, l));
}

proof fn lemma_events_follow_contents(
    content: ActiveContentVersion,
    evidence_use: EvidenceUse,
    l1: Seq<RepositoryMatch>,
    l2: Seq<RepositoryMatch>,
    v1: Seq<HydratedVectorMatch>,
    v2: Seq<HydratedVectorMatch>,
)
    requires
        l1.to_multiset() == l2.to_multiset(),
        v1.to_multiset() == v2.to_multiset(),
    ensures
        fusion_events(content, evidence_use, l1, v1) == fusion_events(content, evidence_use, l2, v2),
{
    l1.to_multiset_ensures();
    l2.to_multiset_ensures();
    v1.to_multiset_ensures();
    v2.to_multiset_ensures();
    assert(lexical_events(content, evidence_use, l1) =~= lexical_events(content, evidence_use, l2)) by {
        assert forall|w: FusionEvent| #[trigger] lexical_events(content, evidence_use, l1).contains(w) implies lexical_events(content, evidence_use, l2).contains(w) by {
            let i = choose|i: int| 0 <= i < l1.len() && w == lexical_event(content, evidence_use, #[trigger] l1[i]);
            assert(l1.contains(l1[i]));
            assert(l1.to_multiset().count(l1[i]) > 0);
            assert(l2.to_multiset().count(l1[i]) > 0);
            assert(l2.contains(l1[i]));
            let j = choose|j: int| 0 <= j < l2.len() && l2[j] == l1[i];
            assert(w == lexical_event(content, evidence_use, l2[j]));
        }
        assert forall|w: FusionEvent| #[trigger] lexical_events(content, evidence_use, l2).contains(w) implies lexical_events(content, evidence_use, l1).contains(w) by {
            let i = choose|i: int| 0 <= i < l2.len() && w == lexical_event(content, evidence_use, #[trigger] l2[i]);
            assert(l2.contains(l2[i]));
            assert(l2.to_multiset().count(l2[i]) > 0);
            assert(l1.to_multiset().count(l2[i]) > 0);
            assert(l1.contains(l2[i]));
            let j = choose|j: int| 0 <= j < l1.len() && l1[j] == l2[i];
            assert(w == lexical_event(content, evidence_use, l1[j]));
        }
    }
    assert(vector_events(content, evidence_use, v1) =~= vector_events(content, evidence_use, v2)) by {
        assert forall|w: FusionEvent| #[trigger] vector_events(content, evidence_use, v1).contains(w) implies vector_events(content, evidence_use, v2).contains(w) by {
            let i = choose|i: int| 0 <= i < v1.len() && w == vector_event(content, evidence_use, #[trigger] v1[i]);
            assert(v1.contains(v1[i]));
            assert(v1.to_multiset().count(v1[i]) > 0);
            assert(v2.to_multiset().count(v1[i]) > 0);
            assert(v2.contains(v1[i]));
            let j = choose|j: int| 0 <= j < v2.len() && v2[j] == v1[i];
            assert(w == vector_event(content, evidence_use, v2[j]));
        }
        assert forall|w: FusionEvent| #[trigger] vector_events(content, evidence_use, v2).contains(w) implies vector_events(content, evidence_use, v1).contains(w) by {
            let i = choose|i: int| 0 <= i < v2.len() && w == vector_event(content, evidence_use, #[trigger] v2[i]);
            assert(v2.contains(v2[i]));
            assert(v2.to_multiset().count(v2[i]) > 0);
            assert(v1.to_multiset().count(v2[i]) > 0);
            assert(v1.contains(v2[i]));
            let j = choose|j: int| 0 <= j < v1.len() && v1[j] == v2[i];
            assert(w == vector_event(content, evidence_use, v1[j]));
        }
    }
}

proof fn lemma_lexical_best_unique(events: Set<FusionEvent>, id: Seq<char>, k: LexicalMatchKind, x: Option<RetrievalScore>, y: Option<RetrievalScore>)
    requires
        lexical_best(events, id, k, x),
        lexical_best(events, id, k, y),
    ensures
        x == y,
{
    match (x, y) {
        (Some(m), Some(n)) => {
            let a = choose|w: FusionEvent| #[trigger] events.contains(w) && relevant(w, id) && w.unwrap().1 == CandidateSignal::Lexical(k, m);
            let b = choose|w: FusionEvent| #[trigger] events.contains(w) && relevant(w, id) && w.unwrap().1 == CandidateSignal::Lexical(k, n);
            assert(is_lexical_kind(a.unwrap().1, k));
            assert(is_lexical_kind(b.unwrap().1, k));
            lemma_score_determined(m, n);
        },
        (Some(m), None) => {
            let a = choose|w: FusionEvent| #[trigger] events.contains(w) && relevant(w, id) && w.unwrap().1 == CandidateSignal::Lexical(k, m);
            assert(is_lexical_kind(a.unwrap().1, k));
        },
        (None, Some(n)) => {
            let b = choose|w: FusionEvent| #[trigger] events.contains(w) && relevant(w, id) && w.unwrap().1 == CandidateSignal::Lexical(k, n);
            assert(is_lexical_kind(b.unwrap().1, k));
        },
        (None, None) => {},
    }
}

proof fn lemma_vector_best_unique(events: Set<FusionEvent>, id: Seq<char>, x: Option<RetrievalScore>, y: Option<RetrievalScore>)
    requires
        vector_best(events, id, x),
        vector_best(events, id, y),
    ensures
        x == y,
{
    match (x, y) {
        (Some(m), Some(n)) => {
            let a = choose|w: FusionEvent| #[trigger] events.contains(w) && relevant(w, id) && w.unwrap().1 is Vector && signal_score(w.unwrap().1) == m;
            let b = choose|w: FusionEvent| #[trigger] events.contains(w) && relevant(w, id) && w.unwrap().1 is Vector && signal_score(w.unwrap().1) == n;
            lemma_score_determined(m, n);
        },
        (Some(m), None) => {
            let a = choose|w: FusionEvent| #[trigger] events.contains(w) && relevant(w, id) && w.unwrap().1 is Vector && signal_score(w.unwrap().1) == m;
        },
        (None, Some(n)) => {
            let b = choose|w: FusionEvent| #[trigger] events.contains(w) && relevant(w, id) && w.unwrap().1 is Vector && signal_score(w.unwrap().1) == n;
        },
        (None, None) => {},
    }
}

/// Whether two fused entries agree: the same candidate field by field and the same features.
pub open spec fn same_entry(x: Accumulated, y: Accumulated) -> bool {
    same_candidate(x.0, y.0) && x.1 == y.1
}

proof fn lemma_entry_unique(events: Set<FusionEvent>, id: Seq<char>, x: Option<Accumulated>, y: Option<Accumulated>)
    requires
        entry_matches(events, id, x),
        entry_matches(events, id, y),
    ensures
        x is Some <==> y is Some,
        x is Some ==> same_entry(x.unwrap(), y.unwrap()),
{
    match (x, y) {
        (Some(p), Some(q)) => {
            let a = choose|w: FusionEvent| #[trigger] events.contains(w) && relevant(w, id) && w.unwrap().0 == p.0;
            let b = choose|w: FusionEvent| #[trigger] events.contains(w) && relevant(w, id) && w.unwrap().0 == q.0;
            lemma_candidate_order(p.0, q.0, p.0);
            lemma_lexical_best_unique(events, id, LexicalMatchKind::ExactForm, p.1.exact_form, q.1.exact_form);
            lemma_lexical_best_unique(events, id, LexicalMatchKind::Phrase, p.1.phrase, q.1.phrase);
            lemma_lexical_best_unique(events, id, LexicalMatchKind::Lemma, p.1.lemma, q.1.lemma);
            lemma_lexical_best_unique(events, id, LexicalMatchKind::Morphology, p.1.morphology, q.1.morphology);
            lemma_lexical_best_unique(events, id, LexicalMatchKind::FullText, p.1.full_text, q.1.full_text);
            lemma_vector_best_unique(events, id, p.1.vector_similarity, q.1.vector_similarity);
            assert forall|r: VectorPurpose| p.1.vector_purposes.spec_contains(r) == q.1.vector_purposes.spec_contains(r) by {
                assert(p.1.vector_purposes.spec_contains(r) <==> exists|e: FusionEvent| #[trigger] events.contains(e) && vector_purpose_event(e, id, r));
                assert(q.1.vector_purposes.spec_contains(r) <==> exists|e: FusionEvent| #[trigger] events.contains(e) && vector_purpose_event(e, id, r));
            }
            lemma_purpose_set(p.1.vector_purposes, q.1.vector_purposes, VectorPurpose::LocalizedGloss, VectorPurpose::LocalizedGloss);
        },
        (Some(p), None) => {
            let a = choose|w: FusionEvent| #[trigger] events.contains(w) && relevant(w, id) && w.unwrap().0 == p.0;
        },
        (None, Some(q)) => {
            let b = choose|w: FusionEvent| #[trigger] events.contains(w) && relevant(w, id) && w.unwrap().0 == q.0;
        },
        (None, None) => {},
    }
}

proof fn lemma_entry_of_member(accs: Seq<Accumulated>, i: int)
    requires
        senses_distinct(accs),
        0 <= i < accs.len(),
    ensures
        entry(accs, accs[i].0.sense.id@) == Some(accs[i]),
{
    lemma_acc_index(accs, accs[i].0.sense.id@);
    let j = acc_index(accs, accs[i].0.sense.id@);
    if j != i {
        if j < i {
            assert(accs[j].0.sense.id@ != accs[i].0.sense.id@);
        } else {
            assert(accs[i].0.sense.id@ != accs[j].0.sense.id@);
        }
    }
}

/// For each entry of `a`, the position of the entry of `b` for the same sense.
pub open spec fn sense_match(a: Seq<Accumulated>, b: Seq<Accumulated>) -> spec_fn(int) -> int {
    |i: int| acc_index(b, a[i].0.sense.id@)
}

proof fn lemma_cover(events: Set<FusionEvent>, a: Seq<Accumulated>, b: Seq<Accumulated>)
    requires
        senses_distinct(a),
        senses_distinct(b),
        forall|id: Seq<char>| entry_matches(events, id, #[trigger] entry(a, id)),
        forall|id: Seq<char>| entry_matches(events, id, #[trigger] entry(b, id)),
    ensures
        forall|i: int| 0 <= i < a.len() ==> 0 <= sense_match(a, b)(i) && sense_match(a, b)(i) < b.len() && same_entry(#[trigger] a[i], b[sense_match(a, b)(i)]),
{
    assert forall|i: int| 0 <= i < a.len() implies 0 <= sense_match(a, b)(i) && sense_match(a, b)(i) < b.len() && same_entry(#[trigger] a[i], b[sense_match(a, b)(i)]) by {
        let id = a[i].0.sense.id@;
        lemma_entry_of_member(a, i);
        assert(entry_matches(events, id, entry(a, id)));
        assert(entry_matches(events, id, entry(b, id)));
        lemma_entry_unique(events, id, entry(a, id), entry(b, id));
        lemma_acc_index(b, id);
        let j = acc_index(b, id);
        assert(same_entry(a[i], b[j]));
    }
}

proof fn lemma_same_candidate_ids(a: CanonicalCandidate, b: CanonicalCandidate)
    requires
        same_candidate(a, b),
    ensures
        a.lexeme.id@ == b.lexeme.id@,
        a.sense.id@ == b.sense.id@,
{
    assert(head_atoms(a)[0] == head_atoms(b)[0]);
    assert(head_atoms(a)[7] == head_atoms(b)[7]);
}

proof fn lemma_ranked_before_same(x: Accumulated, x2: Accumulated, y: Accumulated, y2: Accumulated)
    requires
        same_entry(x, x2),
        same_entry(y, y2),
    ensures
        ranked_before(x, y) == ranked_before(x2, y2),
{
    lemma_same_candidate_ids(x.0, x2.0);
    lemma_same_candidate_ids(y.0, y2.0);
}

/// The candidate and features of a ranked result.
pub open spec fn ranked_entry(x: RankedCandidate) -> Accumulated {
    (x.candidate, x.features)
}

#[verifier::opaque]
spec fn ordered(x: RankedCandidate, y: RankedCandidate) -> bool {
    ranked_before(ranked_entry(x), ranked_entry(y))
}

#[verifier::opaque]
spec fn alike(x: RankedCandidate, y: RankedCandidate) -> bool {
    same_entry(ranked_entry(x), ranked_entry(y))
}

proof fn lemma_alike_ordered(x: RankedCandidate, x2: RankedCandidate, y: RankedCandidate, y2: RankedCandidate)
    ensures
        alike(x, x),
        alike(x, y) ==> alike(y, x),
        alike(x, y) && alike(y, y2) ==> alike(x, y2),
        !ordered(x, x),
        ordered(x, y) ==> !ordered(y, x),
        alike(x, x2) && alike(y, y2) ==> ordered(x, y) == ordered(x2, y2),
{
    reveal(alike);
    reveal(ordered);
    lemma_ranked_before(ranked_entry(x), ranked_entry(y), ranked_entry(x));
    lemma_ranked_before(ranked_entry(x), ranked_entry(x), ranked_entry(x));
    if alike(x, x2) && alike(y, y2) {
        lemma_ranked_before_same(ranked_entry(x), ranked_entry(x2), ranked_entry(y), ranked_entry(y2));
    }
}

/// Whether `m` maps each result of `a` to a matching result of `b`.
#[verifier::opaque]
spec fn covers(a: Seq<RankedCandidate>, b: Seq<RankedCandidate>, m: spec_fn(int) -> int) -> bool {
    forall|i: int| 0 <= i < a.len() ==> alike(#[trigger] a[i], b[m(i)]) && 0 <= m(i) && m(i) < b.len()
}

#[verifier::opaque]
spec fn sorted_ranking(a: Seq<RankedCandidate>) -> bool {
    forall|i: int, j: int| 0 <= i < j < a.len() ==> ordered(#[trigger] a[i], #[trigger] a[j])
}

proof fn lemma_covers_intro(a: Seq<RankedCandidate>, b: Seq<RankedCandidate>, m: spec_fn(int) -> int)
    requires
        forall|i: int| 0 <= i < a.len() ==> alike(#[trigger] a[i], b[m(i)]) && 0 <= m(i) && m(i) < b.len(),
    ensures
        covers(a, b, m),
{
    reveal(covers);
}

proof fn lemma_cover_at(a: Seq<RankedCandidate>, b: Seq<RankedCandidate>, m: spec_fn(int) -> int, i: int)
    requires
        covers(a, b, m),
        0 <= i < a.len(),
    ensures
        0 <= m(i) && m(i) < b.len(),
        alike(a[i], b[m(i)]),
{
    reveal(covers);
}

proof fn lemma_sorted_pair(a: Seq<RankedCandidate>, i: int, j: int)
    requires
        sorted_ranking(a),
        0 <= i < j < a.len(),
    ensures
        ordered(a[i], a[j]),
{
    reveal(sorted_ranking);
}

proof fn lemma_sorted_tail(a: Seq<RankedCandidate>)
    requires
        sorted_ranking(a),
        a.len() > 0,
    ensures
        sorted_ranking(a.drop_first()),
{
    reveal(sorted_ranking);
    let t = a.drop_first();
    assert forall|i: int, j: int| 0 <= i < j < t.len() implies ordered(#[trigger] t[i], #[trigger] t[j]) by {
        assert(t[i] == a[i + 1] && t[j] == a[j + 1]);
    }
}

/// The map `m` moved one position down on both sides.
pub open spec fn shifted(m: spec_fn(int) -> int) -> spec_fn(int) -> int {
    |i: int| m(i + 1) - 1
}

proof fn lemma_tail_cover(a: Seq<RankedCandidate>, b: Seq<RankedCandidate>, m: spec_fn(int) -> int)
    requires
        a.len() > 0,
        b.len() > 0,
        alike(a[0], b[0]),
        sorted_ranking(a),
        covers(a, b, m),
    ensures
        covers(a.drop_first(), b.drop_first(), shifted(m)),
{
    let ta = a.drop_first();
    let tb = b.drop_first();
    assert forall|i: int| 0 <= i < ta.len() implies alike(#[trigger] ta[i], tb[shifted(m)(i)]) && 0 <= shifted(m)(i) && shifted(m)(i) < tb.len() by {
        assert(ta[i] == a[i + 1]);
        lemma_cover_at(a, b, m, i + 1);
        let k = m(i + 1);
        if k == 0 {
            lemma_sorted_pair(a, 0, i + 1);
            lemma_alike_ordered(a[0], a[0], b[0], b[0]);
            lemma_alike_ordered(a[i + 1], a[i + 1], b[0], a[0]);
            lemma_alike_ordered(a[0], a[0], a[i + 1], a[0]);
        }
        assert(tb[k - 1] == b[k]);
    }
    lemma_covers_intro(ta, tb, shifted(m));
}

proof fn lemma_heads_alike(a: Seq<RankedCandidate>, b: Seq<RankedCandidate>, m: spec_fn(int) -> int, n: spec_fn(int) -> int)
    requires
        a.len() > 0,
        b.len() > 0,
        sorted_ranking(a),
        sorted_ranking(b),
        covers(a, b, m),
        covers(b, a, n),
    ensures
        alike(a[0], b[0]),
        alike(b[0], a[0]),
{
    lemma_cover_at(a, b, m, 0);
    lemma_cover_at(b, a, n, 0);
    let j0 = m(0);
    let i0 = n(0);
    if i0 != 0 && j0 != 0 {
        lemma_sorted_pair(a, 0, i0);
        lemma_sorted_pair(b, 0, j0);
        lemma_alike_ordered(b[0], b[0], a[i0], b[0]);
        lemma_alike_ordered(a[0], a[0], a[i0], b[0]);
        lemma_alike_ordered(a[0], a[0], b[j0], a[0]);
        lemma_alike_ordered(b[0], b[0], b[j0], a[0]);
        lemma_alike_ordered(a[0], b[0], b[0], a[0]);
    }
    lemma_alike_ordered(b[0], a[0], a[0], b[0]);
    lemma_alike_ordered(a[0], b[0], b[0], a[0]);
}

proof fn lemma_sorted_unique(a: Seq<RankedCandidate>, b: Seq<RankedCandidate>, m: spec_fn(int) -> int, n: spec_fn(int) -> int)
    requires
        sorted_ranking(a),
        sorted_ranking(b),
        covers(a, b, m),
        covers(b, a, n),
    ensures
        a.len() == b.len(),
        forall|k: int| 0 <= k < a.len() ==> alike(#[trigger] a[k], b[k]),
    decreases a.len(),
{
    if a.len() == 0 {
        if b.len() > 0 {
            lemma_cover_at(b, a, n, 0);
        }
    } else if b.len() == 0 {
        lemma_cover_at(a, b, m, 0);
    } else {
        lemma_heads_alike(a, b, m, n);
        lemma_tail_cover(a, b, m);
        lemma_tail_cover(b, a, n);
        lemma_sorted_tail(a);
        lemma_sorted_tail(b);
        let ta = a.drop_first();
        let tb = b.drop_first();
        lemma_sorted_unique(ta, tb, shifted(m), shifted(n));
        assert forall|k: int| 0 <= k < a.len() implies alike(#[trigger] a[k], b[k]) by {
            if k > 0 {
                assert(ta[k - 1] == a[k] && tb[k - 1] == b[k]);
            }
        }
    }
}

#[verifier::opaque]
spec fn fused(
    content: ActiveContentVersion,
    evidence_use: EvidenceUse,
    l: Seq<RepositoryMatch>,
    v: Seq<HydratedVectorMatch>,
) -> Seq<Accumulated> {
    fused_accumulators(content, evidence_use, l, v)
}

/// Whether `p` maps each ranked result to its fused entry and `q` each fused entry to its
/// ranked result.
#[verifier::opaque]
spec fn ranking_maps(a: Seq<Accumulated>, r: Seq<RankedCandidate>, p: spec_fn(int) -> int, q: spec_fn(int) -> int) -> bool {
    &&& forall|k: int| 0 <= k < r.len() ==> 0 <= p(k) && p(k) < a.len() && a[p(k)] == ranked_entry(#[trigger] r[k])
    &&& forall|x: int| 0 <= x < a.len() ==> 0 <= q(x) && q(x) < r.len() && ranked_entry(r[q(x)]) == #[trigger] a[x]
}

/// Whether `c` maps each entry of `a` to a matching entry of `b`.
#[verifier::opaque]
spec fn entries_covered(a: Seq<Accumulated>, b: Seq<Accumulated>, c: spec_fn(int) -> int) -> bool {
    forall|i: int| 0 <= i < a.len() ==> 0 <= c(i) && c(i) < b.len() && same_entry(#[trigger] a[i], b[c(i)])
}

/// The position of the fused entry of each ranked result.
pub open spec fn entry_position(a: Seq<Accumulated>, r: Seq<RankedCandidate>) -> spec_fn(int) -> int {
    |k: int| choose|x: int| 0 <= x < a.len() && a[x] == ranked_entry(r[k])
}

/// The position of the ranked result of each fused entry.
pub open spec fn ranked_position(a: Seq<Accumulated>, r: Seq<RankedCandidate>) -> spec_fn(int) -> int {
    |x: int| choose|k: int| 0 <= k < r.len() && ranked_entry(r[k]) == a[x]
}

proof fn lemma_ranking_facts(
    content: ActiveContentVersion,
    evidence_use: EvidenceUse,
    l: Seq<RepositoryMatch>,
    v: Seq<HydratedVectorMatch>,
    r: Seq<RankedCandidate>,
)
    requires
        fused_ranking(content, evidence_use, l, v, r),
    ensures
        ranking_maps(
            fused(content, evidence_use, l, v),
            r,
            entry_position(fused(content, evidence_use, l, v), r),
            ranked_position(fused(content, evidence_use, l, v), r),
        ),
        sorted_ranking(r),
        forall|k: int| 0 <= k < r.len() ==> (#[trigger] r[k]).rank == k + 1 && r[k].fusion_score == fusion_value(r[k].features),
{
    reveal(fused);
    reveal(ranking_maps);
    reveal(sorted_ranking);
    let a = fused_accumulators(content, evidence_use, l, v);
    let p = entry_position(a, r);
    let q = ranked_position(a, r);
    assert forall|k: int| 0 <= k < r.len() implies 0 <= p(k) && p(k) < a.len() && a[p(k)] == ranked_entry(#[trigger] r[k]) by {
        assert((r[k].candidate, r[k].features) == ranked_entry(r[k]));
        assert(a.contains(ranked_entry(r[k])));
    }
    assert forall|x: int| 0 <= x < a.len() implies 0 <= q(x) && q(x) < r.len() && ranked_entry(r[q(x)]) == #[trigger] a[x] by {
        assert(a.contains(a[x]));
        let k = choose|k: int| 0 <= k < r.len() && ((#[trigger] r[k]).candidate, r[k].features) == a[x];
        assert(ranked_entry(r[k]) == a[x]);
    }
    assert forall|i: int, j: int| 0 <= i < j < r.len() implies ordered(#[trigger] r[i], #[trigger] r[j]) by {
        reveal(ordered);
        assert(ranked_before((r[i].candidate, r[i].features), (r[j].candidate, r[j].features)));
    }
}

proof fn lemma_fused_cover(
    content: ActiveContentVersion,
    evidence_use: EvidenceUse,
    l1: Seq<RepositoryMatch>,
    v1: Seq<HydratedVectorMatch>,
    l2: Seq<RepositoryMatch>,
    v2: Seq<HydratedVectorMatch>,
)
    requires
        l1.to_multiset() == l2.to_multiset(),
        v1.to_multiset() == v2.to_multiset(),
    ensures
        entries_covered(
            fused(content, evidence_use, l1, v1),
            fused(content, evidence_use, l2, v2),
            sense_match(fused(content, evidence_use, l1, v1), fused(content, evidence_use, l2, v2)),
        ),
{
    reveal(fused);
    reveal(entries_covered);
    lemma_events_follow_contents(content, evidence_use, l1, l2, v1, v2);
    lemma_fused_entries(content, evidence_use, l1, v1);
    lemma_fused_entries(content, evidence_use, l2, v2);
    let events = fusion_events(content, evidence_use, l1, v1);
    lemma_cover(events, fused_accumulators(content, evidence_use, l1, v1), fused_accumulators(content, evidence_use, l2, v2));
}

/// The composition of the maps from results to entries, across the fusions, and back.
pub open spec fn through(p: spec_fn(int) -> int, c: spec_fn(int) -> int, q: spec_fn(int) -> int) -> spec_fn(int) -> int {
    |k: int| q(c(p(k)))
}

proof fn lemma_ranked_cover(
    a1: Seq<Accumulated>,
    r1: Seq<RankedCandidate>,
    p1: spec_fn(int) -> int,
    q1: spec_fn(int) -> int,
    a2: Seq<Accumulated>,
    r2: Seq<RankedCandidate>,
    p2: spec_fn(int) -> int,
    q2: spec_fn(int) -> int,
    c: spec_fn(int) -> int,
)
    requires
        ranking_maps(a1, r1, p1, q1),
        entries_covered(a1, a2, c),
        ranking_maps(a2, r2, p2, q2),
    ensures
        covers(r1, r2, through(p1, c, q2)),
{
    let m = through(p1, c, q2);
    assert forall|k: int| 0 <= k < r1.len() implies alike(#[trigger] r1[k], r2[m(k)]) && 0 <= m(k) && m(k) < r2.len() by {
        reveal(ranking_maps);
        reveal(entries_covered);
        let x = p1(k);
        assert(a1[x] == ranked_entry(r1[k]));
        let y = c(x);
        assert(same_entry(a1[x], a2[y]));
        assert(ranked_entry(r2[q2(y)]) == a2[y]);
        reveal(alike);
    }
    lemma_covers_intro(r1, r2, m);
}

/// Fusion does not depend on the order of the matches it is given: for the same lexical
/// matches and the same vector matches, each in any order, the rankings have the same length
/// and agree position by position in the candidate (field by field), the features, the rank
/// and the fusion score.
pub proof fn lemma_fusion_ignores_match_order(
    content: ActiveContentVersion,
    evidence_use: EvidenceUse,
    l1: Seq<RepositoryMatch>,
    v1: Seq<HydratedVectorMatch>,
    r1: Seq<RankedCandidate>,
    l2: Seq<RepositoryMatch>,
    v2: Seq<HydratedVectorMatch>,
    r2: Seq<RankedCandidate>,
)
    requires
        l1.to_multiset() == l2.to_multiset(),
        v1.to_multiset() == v2.to_multiset(),
        fused_ranking(content, evidence_use, l1, v1, r1),
        fused_ranking(content, evidence_use, l2, v2, r2),
    ensures
        r1.len() == r2.len(),
        forall|k: int| 0 <= k < r1.len() ==> {
            &&& same_candidate((#[trigger] r1[k]).candidate, r2[k].candidate)
            &&& r1[k].features == r2[k].features
            &&& r1[k].rank == r2[k].rank
            &&& r1[k].fusion_score == r2[k].fusion_score
        },
{
    lemma_ranking_facts(content, evidence_use, l1, v1, r1);
    lemma_ranking_facts(content, evidence_use, l2, v2, r2);
    lemma_fused_cover(content, evidence_use, l1, v1, l2, v2);
    lemma_fused_cover(content, evidence_use, l2, v2, l1, v1);
    let a1 = fused(content, evidence_use, l1, v1);
    let a2 = fused(content, evidence_use, l2, v2);
    lemma_ranked_cover(
        a1,
        r1,
        entry_position(a1, r1),
        ranked_position(a1, r1),
        a2,
        r2,
        entry_position(a2, r2),
        ranked_position(a2, r2),
        sense_match(a1, a2),
    );
    lemma_ranked_cover(
        a2,
        r2,
        entry_position(a2, r2),
        ranked_position(a2, r2),
        a1,
        r1,
        entry_position(a1, r1),
        ranked_position(a1, r1),
        sense_match(a2, a1),
    );
    lemma_sorted_unique(
        r1,
        r2,
        through(entry_position(a1, r1), sense_match(a1, a2), ranked_position(a2, r2)),
        through(entry_position(a2, r2), sense_match(a2, a1), ranked_position(a1, r1)),
    );
    assert forall|k: int| 0 <= k < r1.len() implies {
        &&& same_candidate((#[trigger] r1[k]).candidate, r2[k].candidate)
        &&& r1[k].features == r2[k].features
        &&& r1[k].rank == r2[k].rank
        &&& r1[k].fusion_score == r2[k].fusion_score
    } by {
        assert(alike(r1[k], r2[k]));
        reveal(alike);
    }
}
} // verus!

