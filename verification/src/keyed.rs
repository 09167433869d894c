//! Ordered, duplicate-free collections of values identified by text keys.
//!
//! `String`'s derived order compares UTF-8 bytes, which orders text exactly as its code points
//! compare one by one; `text_lt` states that order and the functions here keep collections
//! sorted by it, as a `BTreeSet` of such values would be.

use crate::domain::canonical::{CanonicalId, LanguageTag};
use crate::ports::public_id::PublicId;
use crate::text::chars_of;
use vstd::prelude::*;

verus! {

/// A value identified by a piece of text.
pub trait TextKey {
    /// The identifying text.
    spec fn key(&self) -> Seq<char>;

    /// The identifying text as a string slice.
    fn key_str(&self) -> (r: &str)
        ensures
            r@ == self.key(),
    ;
}

impl TextKey for CanonicalId {
    open spec fn key(&self) -> Seq<char> {
        self@
    }

    fn key_str(&self) -> (r: &str) {
        self.as_str()
    }
}

impl TextKey for LanguageTag {
    open spec fn key(&self) -> Seq<char> {
        self@
    }

    fn key_str(&self) -> (r: &str) {
        self.as_str()
    }
}

impl TextKey for PublicId {
    open spec fn key(&self) -> Seq<char> {
        self@
    }

    fn key_str(&self) -> (r: &str) {
        self.as_str()
    }
}

impl TextKey for String {
    open spec fn key(&self) -> Seq<char> {
        self@
    }

    fn key_str(&self) -> (r: &str) {
        self.as_str()
    }
}

/// The keys of the values of `s`, in order.
pub open spec fn keys_of<T: TextKey>(s: Seq<T>) -> Seq<Seq<char>> {
    s.map_values(|x: T| x.key())
}

/// Whether some value of `s` has key `k`.
pub open spec fn has_key<T: TextKey>(s: Seq<T>, k: Seq<char>) -> bool {
    exists|i: int| 0 <= i < s.len() && (#[trigger] s[i]).key() == k
}

/// Whether no two values of `s` share a key.
pub open spec fn keys_distinct<T: TextKey>(s: Seq<T>) -> bool {
    forall|i: int, j: int| 0 <= i < j < s.len() ==> (#[trigger] s[i]).key() != (#[trigger] s[j]).key()
}

/// Code-point lexicographic order on text, the order of `String`'s `<`.
pub open spec fn text_lt(a: Seq<char>, b: Seq<char>) -> bool
    decreases a.len(),
{
    if a.len() == 0 {
        b.len() > 0
    } else if b.len() == 0 {
        false
    } else if a[0] != b[0] {
        a[0] < b[0]
    } else {
        text_lt(a.drop_first(), b.drop_first())
    }
}

/// Whether the keys of `s` strictly increase.
pub open spec fn keys_sorted<T: TextKey>(s: Seq<T>) -> bool {
    forall|i: int, j: int| 0 <= i < j < s.len() ==> text_lt((#[trigger] s[i]).key(), (#[trigger] s[j]).key())
}

/// No text is below itself.
pub proof fn lemma_text_lt_irreflexive(a: Seq<char>)
    ensures
        !text_lt(a, a),
    decreases a.len(),
{
    if a.len() > 0 {
        lemma_text_lt_irreflexive(a.drop_first());
    }
}

/// The order is transitive.
pub proof fn lemma_text_lt_transitive(a: Seq<char>, b: Seq<char>, c: Seq<char>)
    requires
        text_lt(a, b),
        text_lt(b, c),
    ensures
        text_lt(a, c),
    decreases a.len(),
{
    if a.len() > 0 && b.len() > 0 && c.len() > 0 && a[0] == b[0] && b[0] == c[0] {
        lemma_text_lt_transitive(a.drop_first(), b.drop_first(), c.drop_first());
    }
}

/// Any two different texts are ordered one way or the other.
pub proof fn lemma_text_lt_total(a: Seq<char>, b: Seq<char>)
    ensures
        a == b || text_lt(a, b) || text_lt(b, a),
    decreases a.len(),
{
    if a.len() > 0 && b.len() > 0 && a[0] == b[0] {
        lemma_text_lt_total(a.drop_first(), b.drop_first());
        if a.drop_first() == b.drop_first() {
            assert(a =~= seq![a[0]] + a.drop_first());
            assert(b =~= seq![b[0]] + b.drop_first());
        }
    } else if a.len() == 0 && b.len() == 0 {
        assert(a =~= b);
    }
}

/// The order is asymmetric.
pub proof fn lemma_text_lt_asymmetric(a: Seq<char>, b: Seq<char>)
    requires
        text_lt(a, b),
    ensures
        !text_lt(b, a),
{
    if text_lt(b, a) {
        lemma_text_lt_transitive(a, b, a);
        lemma_text_lt_irreflexive(a);
    }
}

/// Whether `a` sorts strictly before `b`, comparing code points.
pub fn str_lt(a: &str, b: &str) -> (r: bool)
    ensures
        r == text_lt(a@, b@),
{
    let x = chars_of(a);
    let y = chars_of(b);
    let mut i: usize = 0;
    assert(x@.skip(0) =~= x@);
    assert(y@.skip(0) =~= y@);
    while i < x.len() && i < y.len()
        invariant
            i <= x.len(),
            i <= y.len(),
            x@ == a@,
            y@ == b@,
            text_lt(a@, b@) == text_lt(x@.skip(i as int), y@.skip(i as int)),
        decreases x.len() - i,
    {
        if x[i] != y[i] {
            let lt = x[i] < y[i];
            return lt;
        }
        assert(x@.skip(i as int).drop_first() =~= x@.skip(i + 1));
        assert(y@.skip(i as int).drop_first() =~= y@.skip(i + 1));
        i += 1;
    }
    i < y.len()
}

/// Whether some value of `v` has the key `k`.
pub fn contains_key<T: TextKey>(v: &Vec<T>, k: &str) -> (b: bool)
    ensures
        b == has_key(v@, k@),
{
    let mut i: usize = 0;
    while i < v.len()
        invariant
            i <= v.len(),
            forall|j: int| 0 <= j < i ==> (#[trigger] v@[j]).key() != k@,
        decreases v.len() - i,
    {
        if crate::text::str_eq(v[i].key_str(), k) {
            assert(v@[i as int].key() == k@);
            return true;
        }
        i += 1;
    }
    false
}

/// Position of the value of `v` whose key is `k`, if any.
pub fn position_of_key<T: TextKey>(v: &Vec<T>, k: &str) -> (r: Option<usize>)
    ensures
        match r {
            Some(i) => i < v.len() && v@[i as int].key() == k@ && forall|j: int|
                0 <= j < i ==> (#[trigger] v@[j]).key() != k@,
            None => !has_key(v@, k@),
        },
{
    let mut i: usize = 0;
    while i < v.len()
        invariant
            i <= v.len(),
            forall|j: int| 0 <= j < i ==> (#[trigger] v@[j]).key() != k@,
        decreases v.len() - i,
    {
        if crate::text::str_eq(v[i].key_str(), k) {
            return Some(i);
        }
        i += 1;
    }
    None
}

/// Whether no two values of `v` share a key.
pub fn no_duplicate_keys<T: TextKey>(v: &Vec<T>) -> (b: bool)
    ensures
        b == keys_distinct(v@),
{
    let mut i: usize = 0;
    while i < v.len()
        invariant
            i <= v.len(),
            forall|a: int, c: int| 0 <= a < c < v.len() && a < i ==> (#[trigger] v@[a]).key() != (
            #[trigger] v@[c]).key(),
        decreases v.len() - i,
    {
        let mut j: usize = i + 1;
        while j < v.len()
            invariant
                i < v.len(),
                i + 1 <= j <= v.len(),
                forall|a: int, c: int| 0 <= a < c < v.len() && a < i ==> (#[trigger] v@[a]).key() != (
                #[trigger] v@[c]).key(),
                forall|c: int| i < c < j ==> v@[i as int].key() != (#[trigger] v@[c]).key(),
            decreases v.len() - j,
        {
            if crate::text::str_eq(v[i].key_str(), v[j].key_str()) {
                assert(v@[i as int].key() == v@[j as int].key());
                return false;
            }
            j += 1;
        }
        i += 1;
    }
    true
}

/// Inserts `x` into the key-sorted vector `v` unless a value with its key is already there.
pub fn insert_sorted<T: TextKey>(v: &mut Vec<T>, x: T)
    requires
        keys_sorted(old(v)@),
    ensures
        keys_sorted(final(v)@),
        forall|k: Seq<char>| has_key(final(v)@, k) <==> (has_key(old(v)@, k) || k == x.key()),
        final(v)@.len() <= old(v)@.len() + 1,
{
    let mut i: usize = 0;
    while i < v.len() && str_lt(v[i].key_str(), x.key_str())
        invariant
            i <= v.len(),
            forall|j: int| 0 <= j < i ==> text_lt((#[trigger] v@[j]).key(), x.key()),
        decreases v.len() - i,
    {
        i += 1;
    }
    if i < v.len() && crate::text::str_eq(v[i].key_str(), x.key_str()) {
        assert(has_key(v@, x.key())) by {
            assert(v@[i as int].key() == x.key());
        }
        return;
    }
    let ghost old_v = v@;
    proof {
        if i < v.len() {
            lemma_text_lt_total(v@[i as int].key(), x.key());
        }
    }
    v.insert(i, x);
    proof {
        let nv = v@;
        assert forall|a: int, c: int| 0 <= a < c < nv.len() implies text_lt(
            (#[trigger] nv[a]).key(),
            (#[trigger] nv[c]).key(),
        ) by {
            if c < i {
                assert(nv[a] == old_v[a] && nv[c] == old_v[c]);
            } else if c == i {
                assert(nv[a] == old_v[a]);
            } else if a == i {
                assert(nv[c] == old_v[c - 1]);
                if c - 1 > i {
                    lemma_text_lt_transitive(nv[a].key(), old_v[i as int].key(), old_v[c - 1].key());
                }
            } else if a < i {
                assert(nv[a] == old_v[a] && nv[c] == old_v[c - 1]);
            } else {
                assert(nv[a] == old_v[a - 1] && nv[c] == old_v[c - 1]);
            }
        }
        assert forall|k: Seq<char>| has_key(nv, k) <==> (has_key(old_v, k) || k == nv[i as int].key()) by {
            if has_key(nv, k) {
                let j = choose|j: int| 0 <= j < nv.len() && (#[trigger] nv[j]).key() == k;
                if j < i {
                    assert(old_v[j] == nv[j]);
                } else if j > i {
                    assert(old_v[j - 1] == nv[j]);
                }
            }
            if has_key(old_v, k) {
                let j = choose|j: int| 0 <= j < old_v.len() && (#[trigger] old_v[j]).key() == k;
                if j < i {
                    assert(nv[j] == old_v[j]);
                } else {
                    assert(nv[j + 1] == old_v[j]);
                }
            }
            if k == nv[i as int].key() {
                assert(nv[i as int].key() == k);
            }
        }
    }
}

/// Number of distinct keys among the values of `s`.
pub open spec fn distinct_key_count<T: TextKey>(s: Seq<T>) -> nat {
    keys_of(s).to_set().len()
}

pub proof fn lemma_keys_contains<T: TextKey>(s: Seq<T>, k: Seq<char>)
    ensures
        keys_of(s).contains(k) <==> has_key(s, k),
{
    if has_key(s, k) {
        let i = choose|i: int| 0 <= i < s.len() && (#[trigger] s[i]).key() == k;
        assert(keys_of(s)[i] == k);
    }
    if keys_of(s).contains(k) {
        let i = choose|i: int| 0 <= i < keys_of(s).len() && keys_of(s)[i] == k;
        assert(s[i].key() == k);
    }
}

/// Sorted values with the same keys as `t` number as many as the distinct keys of `t`.
proof fn lemma_sorted_count<T: TextKey>(r: Seq<T>, t: Seq<T>)
    requires
        keys_sorted(r),
        forall|k: Seq<char>| has_key(r, k) <==> has_key(t, k),
    ensures
        r.len() == distinct_key_count(t),
{
    assert forall|k: Seq<char>| keys_of(r).to_set().contains(k) == keys_of(t).to_set().contains(k) by {
        lemma_keys_contains(r, k);
        lemma_keys_contains(t, k);
    }
    assert(keys_of(r).to_set() =~= keys_of(t).to_set());
    assert forall|i: int, j: int| 0 <= i < keys_of(r).len() && 0 <= j < keys_of(r).len() && i != j implies keys_of(r)[i] != keys_of(r)[j] by {
        if i < j {
            lemma_text_lt_irreflexive(r[i].key());
            assert(text_lt(r[i].key(), r[j].key()));
        } else {
            lemma_text_lt_irreflexive(r[j].key());
            assert(text_lt(r[j].key(), r[i].key()));
        }
    }
    assert(keys_of(r).no_duplicates());
    keys_of(r).unique_seq_to_set();
}

/// The values of `items` with one value per key, sorted by key, as collecting them into a
/// `BTreeSet` keeps them; of values sharing a key, the last one stays.
pub fn collect_sorted<T: TextKey>(items: Vec<T>) -> (r: Vec<T>)
    ensures
        keys_sorted(r@),
        forall|k: Seq<char>| has_key(r@, k) <==> has_key(items@, k),
        r@.len() == distinct_key_count(items@),
{
    let ghost orig = items@;
    let mut rest = items;
    let mut out: Vec<T> = Vec::new();
    while rest.len() > 0
        invariant
            keys_sorted(out@),
            rest@ == orig.take(rest@.len() as int),
            rest@.len() <= orig.len(),
            forall|k: Seq<char>| has_key(orig, k) <==> (has_key(rest@, k) || has_key(out@, k)),
            forall|k: Seq<char>| has_key(out@, k) ==> has_key(orig, k),
        decreases rest.len(),
    {
        let ghost before = rest@;
        let x = rest.pop().unwrap();
        proof {
            assert(rest@ =~= before.drop_last());
            assert(rest@ =~= orig.take(rest@.len() as int));
            assert forall|k: Seq<char>| has_key(before, k) <==> (has_key(rest@, k) || k == x.key()) by {
                if has_key(before, k) {
                    let j = choose|j: int| 0 <= j < before.len() && (#[trigger] before[j]).key() == k;
                    if j < rest@.len() {
                        assert(rest@[j] == before[j]);
                    }
                }
                if has_key(rest@, k) {
                    let j = choose|j: int| 0 <= j < rest@.len() && (#[trigger] rest@[j]).key() == k;
                    assert(before[j] == rest@[j]);
                }
                if k == x.key() {
                    assert(before[before.len() - 1] == x);
                }
            }
            assert(has_key(orig, x.key())) by {
                assert(before[before.len() - 1] == x);
                assert(orig[before.len() - 1] == before[before.len() - 1]);
            }
        }
        insert_sorted(&mut out, x);
    }
    proof {
        assert forall|k: Seq<char>| has_key(out@, k) <==> has_key(orig, k) by {
            if has_key(rest@, k) {
                let j = choose|j: int| 0 <= j < rest@.len() && (#[trigger] rest@[j]).key() == k;
            }
        }
        lemma_sorted_count(out@, orig);
    }
    out
}

/// Whether both vectors hold values with the same keys in the same order.
pub fn same_keys<T: TextKey>(a: &Vec<T>, b: &Vec<T>) -> (r: bool)
    ensures
        r == (keys_of(a@) == keys_of(b@)),
{
    if a.len() != b.len() {
        assert(keys_of(a@).len() != keys_of(b@).len());
        return false;
    }
    let mut i: usize = 0;
    while i < a.len()
        invariant
            i <= a.len() == b.len(),
            forall|j: int| 0 <= j < i ==> (#[trigger] a@[j]).key() == b@[j].key(),
        decreases a.len() - i,
    {
        if !crate::text::str_eq(a[i].key_str(), b[i].key_str()) {
            assert(keys_of(a@)[i as int] != keys_of(b@)[i as int]);
            return false;
        }
        i += 1;
    }
    assert(keys_of(a@) =~= keys_of(b@));
    true
}

/// The outcome of comparing two values in some order.
#[derive(Debug, Clone, Copy, PartialEq, Eq, Structural)]
pub enum Comparison {
    /// The first value sorts strictly before the second.
    Before,
    /// The values are equal in the order.
    Same,
    /// The first value sorts strictly after the second.
    After,
}

/// Three-way comparison of two texts in code-point order.
pub fn compare_text(a: &str, b: &str) -> (r: Comparison)
    ensures
        (r == Comparison::Before) == text_lt(a@, b@),
        (r == Comparison::After) == text_lt(b@, a@),
        (r == Comparison::Same) == (a@ == b@),
{
    proof {
        lemma_text_lt_total(a@, b@);
        lemma_text_lt_irreflexive(a@);
        if text_lt(a@, b@) {
            lemma_text_lt_asymmetric(a@, b@);
        }
    }
    if str_lt(a, b) {
        Comparison::Before
    } else if str_lt(b, a) {
        Comparison::After
    } else {
        Comparison::Same
    }
}

} // verus!
