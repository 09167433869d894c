//! Character-level text helpers shared by the domain modules.
//!
//! Every string in this crate is modelled by its sequence of Unicode scalar values. Trimming,
//! ASCII case mapping and UTF-8 byte counting are defined here as spec functions and computed by
//! verified loops; Unicode normalization and full Unicode lowercasing come from outside code and
//! are reached only through the named results declared at the end of this file.

use unicode_normalization::UnicodeNormalization;
use vstd::prelude::*;

verus! {

/// Whether `c` has the Unicode `White_Space` property, as `char::is_whitespace` reports.
pub open spec fn is_space(c: char) -> bool {
    let u = c as u32;
    (0x09 <= u && u <= 0x0d) || u == 0x20 || u == 0x85 || u == 0xa0 || u == 0x1680 || (0x2000
        <= u && u <= 0x200a) || u == 0x2028 || u == 0x2029 || u == 0x202f || u == 0x205f || u
        == 0x3000
}

/// Executable test of the Unicode `White_Space` property.
pub fn char_is_space(c: char) -> (b: bool)
    ensures
        b == is_space(c),
{
    let u = c as u32;
    (0x09 <= u && u <= 0x0d) || u == 0x20 || u == 0x85 || u == 0xa0 || u == 0x1680 || (0x2000
        <= u && u <= 0x200a) || u == 0x2028 || u == 0x2029 || u == 0x202f || u == 0x205f || u
        == 0x3000
}

/// The sequence without its leading white space.
pub open spec fn trim_start(s: Seq<char>) -> Seq<char>
    decreases s.len(),
{
    if s.len() > 0 && is_space(s[0]) {
        trim_start(s.drop_first())
    } else {
        s
    }
}

/// The sequence without its trailing white space.
pub open spec fn trim_end(s: Seq<char>) -> Seq<char>
    decreases s.len(),
{
    if s.len() > 0 && is_space(s.last()) {
        trim_end(s.drop_last())
    } else {
        s
    }
}

/// The sequence without leading and trailing white space, as `str::trim` returns it.
pub open spec fn trim(s: Seq<char>) -> Seq<char> {
    trim_end(trim_start(s))
}

/// Whether the sequence is empty once surrounding white space is removed.
pub open spec fn is_blank(s: Seq<char>) -> bool {
    trim(s).len() == 0
}

proof fn lemma_trim_start_skip(s: Seq<char>, i: int)
    requires
        0 <= i <= s.len(),
        forall|k: int| 0 <= k < i ==> is_space(#[trigger] s[k]),
    ensures
        trim_start(s) == trim_start(s.skip(i)),
    decreases i,
{
    if i > 0 {
        assert(s.drop_first() == s.skip(1));
        lemma_trim_start_skip(s.drop_first(), i - 1);
        assert(s.drop_first().skip(i - 1) =~= s.skip(i));
    } else {
        assert(s.skip(0) =~= s);
    }
}

proof fn lemma_trim_end_take(s: Seq<char>, j: int)
    requires
        0 <= j <= s.len(),
        forall|k: int| j <= k < s.len() ==> is_space(#[trigger] s[k]),
    ensures
        trim_end(s) == trim_end(s.take(j)),
    decreases s.len() - j,
{
    if j < s.len() {
        assert(s.drop_last() =~= s.take(s.len() - 1));
        lemma_trim_end_take(s.drop_last(), j);
        assert(s.drop_last().take(j) =~= s.take(j));
    } else {
        assert(s.take(j) =~= s);
    }
}

proof fn lemma_trim_start_empty_all_space(s: Seq<char>)
    ensures
        trim_start(s).len() == 0 <==> (forall|k: int| 0 <= k < s.len() ==> is_space(#[trigger] s[k])),
    decreases s.len(),
{
    if s.len() > 0 {
        lemma_trim_start_empty_all_space(s.drop_first());
        if is_space(s[0]) {
            assert forall|k: int| 0 <= k < s.len() && (forall|m: int| 0 <= m < s.drop_first().len() ==> is_space(#[trigger] s.drop_first()[m])) implies is_space(s[k]) by {
                if k > 0 {
                    assert(s[k] == s.drop_first()[k - 1]);
                }
            }
            if forall|k: int| 0 <= k < s.len() ==> is_space(#[trigger] s[k]) {
                assert forall|m: int| 0 <= m < s.drop_first().len() implies is_space(#[trigger] s.drop_first()[m]) by {
                    assert(s.drop_first()[m] == s[m + 1]);
                }
            }
        }
    }
}

proof fn lemma_trim_end_preserves_empty(s: Seq<char>)
    ensures
        (trim_end(s).len() == 0) == (s.len() == 0 || (forall|k: int| 0 <= k < s.len() ==> is_space(#[trigger] s[k]))),
    decreases s.len(),
{
    if s.len() > 0 {
        lemma_trim_end_preserves_empty(s.drop_last());
        if is_space(s.last()) {
            if forall|k: int| 0 <= k < s.drop_last().len() ==> is_space(#[trigger] s.drop_last()[k]) {
                assert forall|k: int| 0 <= k < s.len() implies is_space(#[trigger] s[k]) by {
                    if k < s.len() - 1 {
                        assert(s[k] == s.drop_last()[k]);
                    }
                }
            }
            if forall|k: int| 0 <= k < s.len() ==> is_space(#[trigger] s[k]) {
                assert forall|k: int| 0 <= k < s.drop_last().len() implies is_space(#[trigger] s.drop_last()[k]) by {
                    assert(s.drop_last()[k] == s[k]);
                }
            }
        } else {
            assert(!is_space(s[s.len() - 1]));
        }
    }
}

/// A sequence is blank exactly when every character is white space.
pub proof fn lemma_blank_iff_all_space(s: Seq<char>)
    ensures
        is_blank(s) <==> (forall|k: int| 0 <= k < s.len() ==> is_space(#[trigger] s[k])),
{
    lemma_trim_start_empty_all_space(s);
    lemma_trim_end_preserves_empty(trim_start(s));
    if trim_start(s).len() > 0 {
        lemma_trim_start_is_suffix(s);
        let t = trim_start(s);
        assert(!is_space(t[0]));
        assert(!(forall|k: int| 0 <= k < t.len() ==> is_space(#[trigger] t[k])));
    }
}

proof fn lemma_trim_start_is_suffix(s: Seq<char>)
    ensures
        trim_start(s).len() > 0 ==> !is_space(trim_start(s)[0]),
    decreases s.len(),
{
    if s.len() > 0 && is_space(s[0]) {
        lemma_trim_start_is_suffix(s.drop_first());
    }
}

proof fn lemma_trim_end_is_prefix(s: Seq<char>)
    ensures
        trim_end(s).len() <= s.len(),
        trim_end(s) =~= s.take(trim_end(s).len() as int),
        trim_end(s).len() > 0 ==> !is_space(trim_end(s).last()),
    decreases s.len(),
{
    if s.len() > 0 && is_space(s.last()) {
        lemma_trim_end_is_prefix(s.drop_last());
    } else {
        assert(s.take(s.len() as int) =~= s);
    }
}

/// Trimming twice is trimming once.
pub proof fn lemma_trim_idempotent(s: Seq<char>)
    ensures
        trim(trim(s)) == trim(s),
{
    let u = trim_start(s);
    let t = trim_end(u);
    lemma_trim_start_is_suffix(s);
    lemma_trim_end_is_prefix(u);
    if t.len() > 0 {
        assert(t[0] == u[0]);
        assert(trim_start(t) == t);
        assert(trim_end(t) == t);
    }
}

/// Copies the characters of `s` into a vector.
pub fn chars_of(s: &str) -> (v: Vec<char>)
    ensures
        v@ == s@,
{
    broadcast use vstd::string::group_string_axioms;

    let mut v: Vec<char> = Vec::new();
    for c in it: s.chars()
        invariant
            it.seq() == s@,
            v@ == it.seq().take(it.index() as int),
    {
        v.push(c);
    }
    assert(v@ =~= s@);
    v
}

/// Appends one character to a string, as `String::push` does.
#[verifier::external_body]
pub(crate) fn push_char(s: &mut String, c: char)
    ensures
        final(s)@ == old(s)@.push(c),
{
    s.push(c);
}

/// Builds a string holding exactly the characters `v[from..to]`.
pub fn string_from_range(v: &Vec<char>, from: usize, to: usize) -> (s: String)
    requires
        from <= to <= v.len(),
    ensures
        s@ == v@.subrange(from as int, to as int),
{
    let mut s = String::new();
    let mut i = from;
    while i < to
        invariant
            from <= i <= to <= v.len(),
            s@ == v@.subrange(from as int, i as int),
        decreases to - i,
    {
        push_char(&mut s, v[i]);
        assert(v@.subrange(from as int, i + 1) =~= v@.subrange(from as int, i as int).push(v@[i as int]));
        i += 1;
    }
    s
}

/// Builds a string holding exactly the characters of `v`.
pub fn string_from_chars(v: &Vec<char>) -> (s: String)
    ensures
        s@ == v@,
{
    let s = string_from_range(v, 0, v.len());
    assert(v@.subrange(0, v.len() as int) =~= v@);
    s
}

/// Index of the first non-white-space character at or after `from`, or `v.len()`.
fn skip_spaces(v: &Vec<char>) -> (i: usize)
    ensures
        i <= v.len(),
        forall|k: int| 0 <= k < i ==> is_space(#[trigger] v@[k]),
        i < v.len() ==> !is_space(v@[i as int]),
{
    let mut i: usize = 0;
    while i < v.len() && char_is_space(v[i])
        invariant
            i <= v.len(),
            forall|k: int| 0 <= k < i ==> is_space(#[trigger] v@[k]),
        decreases v.len() - i,
    {
        i += 1;
    }
    i
}

/// The characters of `s` without surrounding white space, as `str::trim` yields them.
pub fn trimmed_chars(s: &str) -> (r: Vec<char>)
    ensures
        r@ == trim(s@),
{
    let v = chars_of(s);
    let i = skip_spaces(&v);
    proof {
        lemma_trim_start_skip(v@, i as int);
        if i < v.len() {
            assert(trim_start(v@.skip(i as int)) == v@.skip(i as int));
        } else {
            assert(v@.skip(i as int).len() == 0);
        }
    }
    let mut j = v.len();
    while j > i && char_is_space(v[j - 1])
        invariant
            i <= j <= v.len(),
            forall|k: int| j <= k < v.len() ==> is_space(#[trigger] v@[k]),
        decreases j,
    {
        j -= 1;
    }
    let mut r: Vec<char> = Vec::new();
    let mut k = i;
    while k < j
        invariant
            i <= k <= j <= v.len(),
            r@ == v@.subrange(i as int, k as int),
        decreases j - k,
    {
        r.push(v[k]);
        assert(v@.subrange(i as int, k + 1) =~= v@.subrange(i as int, k as int).push(v@[k as int]));
        k += 1;
    }
    proof {
        let t = v@.skip(i as int);
        assert(trim_start(v@) == t);
        assert forall|m: int| (j - i) <= m < t.len() implies is_space(#[trigger] t[m]) by {
            assert(t[m] == v@[m + i]);
        }
        lemma_trim_end_take(t, j - i);
        assert(t.take(j - i) =~= v@.subrange(i as int, j as int));
        if j > i {
            assert(!is_space(t.take(j - i).last()));
        }
    }
    r
}

/// The string `s` without surrounding white space.
pub fn trimmed_string(s: &str) -> (r: String)
    ensures
        r@ == trim(s@),
{
    let v = trimmed_chars(s);
    string_from_chars(&v)
}

/// Whether `s` holds only white space, as `s.trim().is_empty()` reports.
pub fn str_is_blank(s: &str) -> (b: bool)
    ensures
        b == is_blank(s@),
{
    let v = chars_of(s);
    let mut i: usize = 0;
    while i < v.len()
        invariant
            i <= v.len(),
            v@ == s@,
            forall|k: int| 0 <= k < i ==> is_space(#[trigger] v@[k]),
        decreases v.len() - i,
    {
        if !char_is_space(v[i]) {
            proof {
                lemma_blank_iff_all_space(s@);
            }
            return false;
        }
        i += 1;
    }
    proof {
        lemma_blank_iff_all_space(s@);
    }
    true
}

/// Whether two strings hold the same characters.
pub fn str_eq(a: &str, b: &str) -> (r: bool)
    ensures
        r == (a@ == b@),
{
    let x = chars_of(a);
    let y = chars_of(b);
    if x.len() != y.len() {
        return false;
    }
    let mut i: usize = 0;
    while i < x.len()
        invariant
            i <= x.len() == y.len(),
            x@ == a@,
            y@ == b@,
            forall|k: int| 0 <= k < i ==> x@[k] == y@[k],
        decreases x.len() - i,
    {
        if x[i] != y[i] {
            assert(x@[i as int] != y@[i as int]);
            return false;
        }
        i += 1;
    }
    assert(x@ =~= y@);
    true
}

/// The pieces of `s` between occurrences of `sep`, as `str::split` yields them.
pub open spec fn split_on(s: Seq<char>, sep: char) -> Seq<Seq<char>>
    decreases s.len(),
{
    if s.len() == 0 {
        seq![Seq::<char>::empty()]
    } else {
        let p = split_on(s.drop_last(), sep);
        if s.last() == sep {
            p.push(Seq::<char>::empty())
        } else {
            p.update(p.len() - 1, p.last().push(s.last()))
        }
    }
}

/// Splitting always yields at least one piece.
pub proof fn lemma_split_nonempty(s: Seq<char>, sep: char)
    ensures
        split_on(s, sep).len() >= 1,
    decreases s.len(),
{
    if s.len() > 0 {
        lemma_split_nonempty(s.drop_last(), sep);
    }
}

/// The pieces of `s` between occurrences of `sep`, each as a character vector.
pub fn split_chars(s: &Vec<char>, sep: char) -> (r: Vec<Vec<char>>)
    ensures
        r.len() == split_on(s@, sep).len(),
        forall|i: int| 0 <= i < r.len() ==> (#[trigger] r[i])@ == split_on(s@, sep)[i],
{
    let mut r: Vec<Vec<char>> = Vec::new();
    r.push(Vec::new());
    let mut i: usize = 0;
    while i < s.len()
        invariant
            i <= s.len(),
            r.len() == split_on(s@.take(i as int), sep).len(),
            r.len() >= 1,
            forall|k: int| 0 <= k < r.len() ==> (#[trigger] r[k])@ == split_on(s@.take(i as int), sep)[k],
        decreases s.len() - i,
    {
        let c = s[i];
        let ghost prev = split_on(s@.take(i as int), sep);
        assert(s@.take(i + 1).drop_last() =~= s@.take(i as int));
        assert(s@.take(i + 1).last() == c);
        let ghost r_before = r@;
        if c == sep {
            r.push(Vec::new());
            assert forall|k: int| 0 <= k < r.len() implies (#[trigger] r[k])@ == split_on(s@.take(i + 1), sep)[k] by {
                if k < r.len() - 1 {
                    assert(r[k] == r_before[k]);
                }
            }
        } else {
            let last = r.len() - 1;
            let mut piece = r.pop().unwrap();
            piece.push(c);
            r.push(piece);
            assert forall|k: int| 0 <= k < r.len() implies (#[trigger] r[k])@ == split_on(s@.take(i + 1), sep)[k] by {
                if k < last {
                    assert(r[k] == r_before[k]);
                }
            }
        }
        i += 1;
    }
    assert(s@.take(s.len() as int) =~= s@);
    r
}

/// Number of bytes that `c` takes in UTF-8.
pub open spec fn char_utf8_width(c: char) -> nat {
    let u = c as u32;
    if u < 0x80 {
        1
    } else if u < 0x800 {
        2
    } else if u < 0x10000 {
        3
    } else {
        4
    }
}

/// Number of bytes of the UTF-8 encoding of `s`, which `str::len` returns.
pub open spec fn utf8_len(s: Seq<char>) -> nat
    decreases s.len(),
{
    if s.len() == 0 {
        0
    } else {
        utf8_len(s.drop_last()) + char_utf8_width(s.last())
    }
}

proof fn lemma_utf8_len_bounds(s: Seq<char>)
    ensures
        s.len() <= utf8_len(s) <= 4 * s.len(),
    decreases s.len(),
{
    if s.len() > 0 {
        lemma_utf8_len_bounds(s.drop_last());
    }
}

/// The UTF-8 byte length of `s`, counted without overflow.
pub fn utf8_len_of(s: &str) -> (n: u128)
    ensures
        n == utf8_len(s@),
        n <= 4 * usize::MAX,
{
    let v = chars_of(s);
    let mut n: u128 = 0;
    let mut i: usize = 0;
    while i < v.len()
        invariant
            i <= v.len(),
            v@ == s@,
            n == utf8_len(v@.take(i as int)),
            n <= 4 * i,
        decreases v.len() - i,
    {
        let u = v[i] as u32;
        let w: u128 = if u < 0x80 {
            1
        } else if u < 0x800 {
            2
        } else if u < 0x10000 {
            3
        } else {
            4
        };
        assert(v@.take(i + 1).drop_last() =~= v@.take(i as int));
        n = n + w;
        i += 1;
    }
    assert(v@.take(v.len() as int) =~= v@);
    n
}

/// Whether `c` is a printable ASCII character other than space, as `u8::is_ascii_graphic` reports.
pub open spec fn is_ascii_graphic(c: char) -> bool {
    0x21 <= (c as u32) && (c as u32) <= 0x7e
}

/// Whether `c` is an ASCII letter.
pub open spec fn is_ascii_alpha(c: char) -> bool {
    ('a' <= c && c <= 'z') || ('A' <= c && c <= 'Z')
}

/// Whether `c` is an ASCII digit.
pub open spec fn is_ascii_digit(c: char) -> bool {
    '0' <= c && c <= '9'
}

/// Whether `c` is an ASCII letter or digit.
pub open spec fn is_ascii_alnum(c: char) -> bool {
    is_ascii_alpha(c) || is_ascii_digit(c)
}

/// `c` with ASCII capitals lowered, as `char::to_ascii_lowercase` returns it.
pub open spec fn ascii_lower(c: char) -> char {
    if 'A' <= c && c <= 'Z' {
        ((c as u32) + 32) as char
    } else {
        c
    }
}

/// `c` with ASCII small letters raised, as `char::to_ascii_uppercase` returns it.
pub open spec fn ascii_upper(c: char) -> char {
    if 'a' <= c && c <= 'z' {
        ((c as u32) - 32) as char
    } else {
        c
    }
}

/// Executable ASCII lowercasing of one character.
pub fn char_ascii_lower(c: char) -> (r: char)
    ensures
        r == ascii_lower(c),
{
    if 'A' <= c && c <= 'Z' {
        let u = (c as u32) + 32;
        proof {
            assert(0x61 <= u <= 0x7a);
        }
        char_from_ascii(u)
    } else {
        c
    }
}

/// Executable ASCII uppercasing of one character.
pub fn char_ascii_upper(c: char) -> (r: char)
    ensures
        r == ascii_upper(c),
{
    if 'a' <= c && c <= 'z' {
        let u = (c as u32) - 32;
        char_from_ascii(u)
    } else {
        c
    }
}

pub fn char_from_ascii(u: u32) -> (c: char)
    requires
        u < 0x80,
    ensures
        c == u as char,
{
    let b = u as u8;
    b as char
}

/// Whether every character of `s` is printable ASCII other than space.
pub fn all_ascii_graphic(s: &Vec<char>) -> (b: bool)
    ensures
        b == (forall|k: int| 0 <= k < s.len() ==> is_ascii_graphic(#[trigger] s@[k])),
{
    let mut i: usize = 0;
    while i < s.len()
        invariant
            i <= s.len(),
            forall|k: int| 0 <= k < i ==> is_ascii_graphic(#[trigger] s@[k]),
        decreases s.len() - i,
    {
        let u = s[i] as u32;
        if !(0x21 <= u && u <= 0x7e) {
            return false;
        }
        i += 1;
    }
    true
}

/// Whether `s` is a bounded opaque token: nonempty printable ASCII without spaces, at most
/// `max` bytes long.
pub open spec fn is_bounded_graphic_token(s: Seq<char>, max: nat) -> bool {
    &&& s.len() > 0
    &&& utf8_len(s) <= max
    &&& forall|k: int| 0 <= k < s.len() ==> is_ascii_graphic(#[trigger] s[k])
}

proof fn lemma_graphic_utf8_len(s: Seq<char>)
    requires
        forall|k: int| 0 <= k < s.len() ==> is_ascii_graphic(#[trigger] s[k]),
    ensures
        utf8_len(s) == s.len(),
    decreases s.len(),
{
    if s.len() > 0 {
        assert(is_ascii_graphic(s[s.len() - 1]));
        assert forall|k: int| 0 <= k < s.drop_last().len() implies is_ascii_graphic(#[trigger] s.drop_last()[k]) by {
            assert(s.drop_last()[k] == s[k]);
        }
        lemma_graphic_utf8_len(s.drop_last());
    }
}

/// Checks the bounded opaque token shape of owner, scope and worker references.
pub fn check_graphic_token(s: &str, max: usize) -> (b: bool)
    ensures
        b == is_bounded_graphic_token(s@, max as nat),
{
    let v = chars_of(s);
    if v.len() == 0 {
        return false;
    }
    let graphic = all_ascii_graphic(&v);
    if !graphic {
        return false;
    }
    proof {
        lemma_graphic_utf8_len(v@);
    }
    v.len() <= max
}

// ---------------------------------------------------------------------------------------------
// Unicode normalization and lowercasing from outside code.
// ---------------------------------------------------------------------------------------------

/// The Unicode canonical composition (NFC) of a character sequence, as the
/// `unicode_normalization` crate computes it.
pub uninterp spec fn nfc(s: Seq<char>) -> Seq<char>;

/// The full Unicode lowercase mapping of one character, as `char::to_lowercase` yields it.
pub uninterp spec fn unicode_lowercase(c: char) -> Seq<char>;

/// Every character of `s` replaced by its Unicode lowercase mapping, in order.
pub open spec fn lowercase_all(s: Seq<char>) -> Seq<char>
    decreases s.len(),
{
    if s.len() == 0 {
        Seq::empty()
    } else {
        lowercase_all(s.drop_last()) + unicode_lowercase(s.last())
    }
}

/// Calls `UnicodeNormalization::nfc` of the `unicode_normalization` crate on `s` and collects
/// the composed characters. The contract claims that the result is the named NFC form of the
/// input, and that it is empty exactly when the input is: composition maps every nonempty
/// string to a nonempty one. What the form is for a given input is left to the crate.
#[verifier::external_body]
pub(crate) fn nfc_string(s: &str) -> (r: String)
    ensures
        r@ == nfc(s@),
        s@.len() == 0 <==> r@.len() == 0,
{
    s.nfc().collect::<String>()
}

/// Calls `char::to_lowercase` on `c` and collects the mapped characters. The contract claims
/// that the result is the named Unicode lowercase mapping of `c`, and that it holds at least
/// one character, as every lowercase mapping does.
#[verifier::external_body]
pub(crate) fn lowercase_char(c: char) -> (r: Vec<char>)
    ensures
        r@ == unicode_lowercase(c),
        r@.len() > 0,
{
    c.to_lowercase().collect::<Vec<char>>()
}

/// Applies the Unicode lowercase mapping to every character of `s`.
pub fn lowercase_string(s: &str) -> (r: String)
    ensures
        r@ == lowercase_all(s@),
        s@.len() == 0 <==> r@.len() == 0,
{
    let v = chars_of(s);
    let mut r = String::new();
    let mut i: usize = 0;
    while i < v.len()
        invariant
            i <= v.len(),
            v@ == s@,
            r@ == lowercase_all(v@.take(i as int)),
            r@.len() == 0 <==> i == 0,
        decreases v.len() - i,
    {
        let lower = lowercase_char(v[i]);
        let mut j: usize = 0;
        let ghost before = r@;
        while j < lower.len()
            invariant
                j <= lower.len(),
                r@ == before + lower@.take(j as int),
            decreases lower.len() - j,
        {
            push_char(&mut r, lower[j]);
            assert(lower@.take(j + 1) =~= lower@.take(j as int).push(lower@[j as int]));
            j += 1;
        }
        assert(lower@.take(lower.len() as int) =~= lower@);
        assert(v@.take(i + 1).drop_last() =~= v@.take(i as int));
        i += 1;
    }
    assert(v@.take(v.len() as int) =~= v@);
    r
}

/// The decimal digits of `n`, without leading zeros, as `{}` formats an unsigned integer.
pub open spec fn decimal_text(n: nat) -> Seq<char>
    decreases n,
{
    if n < 10 {
        seq![((n + 48) as u32) as char]
    } else {
        decimal_text(n / 10).push((((n % 10) + 48) as u32) as char)
    }
}

/// Appends the decimal digits of `n`.
pub fn push_decimal(out: &mut String, n: u64)
    ensures
        final(out)@ == old(out)@ + decimal_text(n as nat),
    decreases n,
{
    if n >= 10 {
        push_decimal(out, n / 10);
    }
    let d = (n % 10) as u32;
    let c = char_from_ascii(d + 48);
    push_char(out, c);
    proof {
        if n >= 10 {
            assert(final(out)@ =~= old(out)@ + decimal_text(n as nat)) by {
                assert(decimal_text(n as nat) == decimal_text((n / 10) as nat).push((((n % 10) + 48) as u32) as char));
            }
        }
    }
}

} // verus!
