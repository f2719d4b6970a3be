//! Character-level helpers on strings: substring search and the plain
//! lexicographic order.

use vstd::prelude::*;

verus! {

/// `needle` stands in `hay` at position `at`.
pub open spec fn occurs_at(hay: Seq<char>, needle: Seq<char>, at: int) -> bool {
    &&& 0 <= at
    &&& at + needle.len() <= hay.len()
    &&& hay.subrange(at, at + needle.len()) == needle
}

/// `needle` stands somewhere in `hay`. The empty sequence stands in every
/// sequence.
pub open spec fn has_infix(hay: Seq<char>, needle: Seq<char>) -> bool {
    exists|at: int| occurs_at(hay, needle, at)
}

/// `a` comes before `b`, and position `k` decides it: the two agree before
/// `k`, and there either `a` ends while `b` goes on, or `a` holds the smaller
/// character.
pub open spec fn decided_at(a: Seq<char>, b: Seq<char>, k: int) -> bool {
    &&& 0 <= k <= a.len()
    &&& k < b.len()
    &&& a.take(k) == b.take(k)
    &&& k < a.len() ==> (a[k] as int) < (b[k] as int)
}

/// `a` comes strictly before `b` in the plain lexicographic order of strings:
/// character by character, by code point, a proper prefix first.
pub open spec fn lex_lt(a: Seq<char>, b: Seq<char>) -> bool {
    exists|k: int| decided_at(a, b, k)
}

/// `prefix` stands at the start of `s`.
pub open spec fn has_prefix(s: Seq<char>, prefix: Seq<char>) -> bool {
    prefix.len() <= s.len() && s.take(prefix.len() as int) == prefix
}

/// The characters of `s`, in order.
pub fn chars_of(s: &str) -> (chars: Vec<char>)
    ensures
        chars@ == s@,
{
    let mut chars: Vec<char> = Vec::new();
    for c in it: s.chars()
        invariant
            it.seq() == s@,
            chars@ == it.seq().take(it.index()),
    {
        chars.push(c);
    }
    chars
}

/// Whether `needle` stands in `hay` at position `at`.
fn matches_at(hay: &Vec<char>, needle: &Vec<char>, at: usize) -> (found: bool)
    requires
        at + needle.len() <= hay.len(),
    ensures
        found == occurs_at(hay@, needle@, at as int),
{
    let mut k: usize = 0;
    while k < needle.len()
        invariant
            k <= needle.len(),
            at + needle.len() <= hay.len(),
            forall|j: int| 0 <= j < k ==> hay@[at + j] == needle@[j],
        decreases needle.len() - k,
    {
        if hay[at + k] != needle[k] {
            return false;
        }
        k += 1;
    }
    assert(hay@.subrange(at as int, at + needle.len()) =~= needle@);
    true
}

/// Whether `needle` stands somewhere in `hay`.
pub fn contains_chars(hay: &Vec<char>, needle: &Vec<char>) -> (found: bool)
    ensures
        found == has_infix(hay@, needle@),
{
    if needle.len() > hay.len() {
        return false;
    }
    let last: usize = hay.len() - needle.len();
    let mut at: usize = 0;
    loop
        invariant_except_break
            at <= last,
            last == hay.len() - needle.len(),
            forall|j: int| 0 <= j < at ==> !occurs_at(hay@, needle@, j),
        ensures
            !has_infix(hay@, needle@),
        decreases last - at,
    {
        if matches_at(hay, needle, at) {
            return true;
        }
        if at == last {
            break;
        }
        at += 1;
    }
    false
}

/// Whether the text `needle` stands somewhere in the text `hay`.
pub fn contains(hay: &str, needle: &str) -> (found: bool)
    ensures
        found == has_infix(hay@, needle@),
{
    let hay_chars = chars_of(hay);
    let needle_chars = chars_of(needle);
    contains_chars(&hay_chars, &needle_chars)
}

/// Whether two texts are the same.
pub fn same_text(a: &str, b: &str) -> (same: bool)
    ensures
        same == (a@ == b@),
{
    let a_chars = chars_of(a);
    let b_chars = chars_of(b);
    if a_chars.len() != b_chars.len() {
        return false;
    }
    let same = matches_at(&a_chars, &b_chars, 0);
    assert(a@.subrange(0, a@.len() as int) =~= a@);
    same
}

/// Whether `a` comes strictly before `b` in the lexicographic order.
pub fn precedes_chars(a: &Vec<char>, b: &Vec<char>) -> (before: bool)
    ensures
        before == lex_lt(a@, b@),
{
    let mut k: usize = 0;
    while k < a.len() && k < b.len()
        invariant
            k <= a.len(),
            k <= b.len(),
            a@.take(k as int) == b@.take(k as int),
        decreases a.len() - k,
    {
        if a[k] != b[k] {
            let before = (a[k] as u32) < (b[k] as u32);
            proof {
                lemma_decided_once(a@, b@, k as int);
                lemma_code_point(a@[k as int]);
                lemma_code_point(b@[k as int]);
                assert(before == decided_at(a@, b@, k as int));
            }
            return before;
        }
        k += 1;
    }
    proof {
        lemma_decided_once(a@, b@, k as int);
        assert((k < b.len()) == decided_at(a@, b@, k as int));
    }
    k < b.len()
}

/// Whether the text `a` comes strictly before the text `b`.
pub fn precedes(a: &str, b: &str) -> (before: bool)
    ensures
        before == lex_lt(a@, b@),
{
    let a_chars = chars_of(a);
    let b_chars = chars_of(b);
    precedes_chars(&a_chars, &b_chars)
}

/// Whether `prefix` stands at the start of `s`.
pub fn starts_with_chars(s: &Vec<char>, prefix: &Vec<char>) -> (found: bool)
    ensures
        found == has_prefix(s@, prefix@),
{
    if prefix.len() > s.len() {
        return false;
    }
    matches_at(s, prefix, 0)
}

/// The lexicographic order is irreflexive: no text comes before itself.
pub proof fn lemma_lex_irreflexive(a: Seq<char>)
    ensures
        !lex_lt(a, a),
{
    assert forall|k: int| !decided_at(a, a, k) by {}
}

/// The lexicographic order is transitive.
pub proof fn lemma_lex_transitive(a: Seq<char>, b: Seq<char>, c: Seq<char>)
    requires
        lex_lt(a, b),
        lex_lt(b, c),
    ensures
        lex_lt(a, c),
{
    let i = choose|i: int| decided_at(a, b, i);
    let j = choose|j: int| decided_at(b, c, j);
    let k = if i <= j { i } else { j };
    assert(a.take(k) =~= a.take(i).take(k));
    assert(b.take(k) =~= b.take(i).take(k));
    assert(b.take(k) =~= b.take(j).take(k));
    assert(c.take(k) =~= c.take(j).take(k));
    if i < j {
        assert(b.take(j)[i] == b[i] && c.take(j)[i] == c[i]);
    } else if j < i {
        assert(a.take(i)[j] == a[j] && b.take(i)[j] == b[j]);
    }
    assert(decided_at(a, c, k));
}

/// The lexicographic order is total: of two different texts one comes before
/// the other.
pub proof fn lemma_lex_total(a: Seq<char>, b: Seq<char>)
    ensures
        lex_lt(a, b) || a == b || lex_lt(b, a),
{
    assert(a.take(0) =~= b.take(0));
    lemma_lex_total_from(a, b, 0);
}

/// The lexicographic order is asymmetric.
pub proof fn lemma_lex_asymmetric(a: Seq<char>, b: Seq<char>)
    requires
        lex_lt(a, b),
    ensures
        !lex_lt(b, a),
{
    if lex_lt(b, a) {
        lemma_lex_transitive(a, b, a);
        lemma_lex_irreflexive(a);
    }
}

/// Totality, for two sequences that agree before position `k`.
proof fn lemma_lex_total_from(a: Seq<char>, b: Seq<char>, k: int)
    requires
        0 <= k <= a.len(),
        k <= b.len(),
        a.take(k) == b.take(k),
    ensures
        lex_lt(a, b) || a == b || lex_lt(b, a),
    decreases a.len() - k,
{
    if k == a.len() && k == b.len() {
        assert(a.take(k) =~= a && b.take(k) =~= b);
    } else if k == a.len() {
        assert(decided_at(a, b, k));
    } else if k == b.len() {
        assert(decided_at(b, a, k));
    } else if (a[k] as int) < (b[k] as int) {
        assert(decided_at(a, b, k));
    } else if (b[k] as int) < (a[k] as int) {
        assert(decided_at(b, a, k));
    } else {
        assert(a.take(k + 1) =~= a.take(k).push(a[k]));
        assert(b.take(k + 1) =~= b.take(k).push(b[k]));
        lemma_lex_total_from(a, b, k + 1);
    }
}

/// The code point of a character fits in 32 bits.
proof fn lemma_code_point(c: char)
    ensures
        (c as u32) as int == c as int,
{
}

/// Where two sequences agree before `k` and differ at `k` (in a character, or
/// in that one of them ends there), no other position decides their order.
proof fn lemma_decided_once(a: Seq<char>, b: Seq<char>, k: int)
    requires
        0 <= k <= a.len(),
        k <= b.len(),
        a.take(k) == b.take(k),
        k == a.len() || k == b.len() || a[k] != b[k],
    ensures
        forall|j: int| decided_at(a, b, j) ==> j == k,
        forall|j: int| decided_at(b, a, j) ==> j == k,
{
    assert forall|j: int| decided_at(a, b, j) implies j == k by {
        if j < k {
            assert(a.take(k)[j] == a[j] && b.take(k)[j] == b[j]);
        } else if j > k {
            assert(a.take(j)[k] == a[k] && b.take(j)[k] == b[k]);
        }
    }
    assert forall|j: int| decided_at(b, a, j) implies j == k by {
        if j < k {
            assert(a.take(k)[j] == a[j] && b.take(k)[j] == b[j]);
        } else if j > k {
            assert(a.take(j)[k] == a[k] && b.take(j)[k] == b[k]);
        }
    }
}

} // verus!
