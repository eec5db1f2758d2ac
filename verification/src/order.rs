//! Lexicographic order on text and sorting of name lists.
use vstd::prelude::*;

use crate::config::str_views;

verus! {

broadcast use vstd::seq_lib::group_to_multiset_ensures;

/// `a` sorts strictly before `b` (`str`'s `Ord`, which compares UTF-8
/// bytes and so orders by code point).
pub open spec fn lex_lt(a: Seq<char>, b: Seq<char>) -> bool
    decreases a.len(),
{
    if a.len() == 0 {
        b.len() > 0
    } else if b.len() == 0 {
        false
    } else if a[0] != b[0] {
        a[0] < b[0]
    } else {
        lex_lt(a.skip(1), b.skip(1))
    }
}

/// `a` sorts before `b` or equals it.
pub open spec fn lex_le(a: Seq<char>, b: Seq<char>) -> bool {
    !lex_lt(b, a)
}

/// Every element of `s` sorts before or equals its successors.
pub open spec fn sorted_text(s: Seq<Seq<char>>) -> bool {
    forall|k: int, l: int| 0 <= k < l < s.len() ==> lex_le(s[k], s[l])
}

/// Strictly-before is irreflexive.
pub proof fn lemma_lex_irreflexive(a: Seq<char>)
    ensures
        !lex_lt(a, a),
    decreases a.len(),
{
    if a.len() > 0 {
        lemma_lex_irreflexive(a.skip(1));
    }
}

/// Two texts either are equal or one sorts strictly before the other.
pub proof fn lemma_lex_total(a: Seq<char>, b: Seq<char>)
    ensures
        a == b || lex_lt(a, b) || lex_lt(b, a),
    decreases a.len(),
{
    if a.len() > 0 && b.len() > 0 && a[0] == b[0] {
        lemma_lex_total(a.skip(1), b.skip(1));
        if a.skip(1) == b.skip(1) {
            assert(a =~= seq![a[0]] + a.skip(1));
            assert(b =~= seq![b[0]] + b.skip(1));
        }
    } else if a.len() == 0 && b.len() == 0 {
        assert(a =~= b);
    }
}

/// Strictly-before is transitive.
pub proof fn lemma_lex_transitive(a: Seq<char>, b: Seq<char>, c: Seq<char>)
    requires
        lex_lt(a, b),
        lex_lt(b, c),
    ensures
        lex_lt(a, c),
    decreases a.len(),
{
    if a.len() > 0 && b.len() > 0 && c.len() > 0 && a[0] == b[0] && b[0] == c[0] {
        lemma_lex_transitive(a.skip(1), b.skip(1), c.skip(1));
    }
}

/// Strictly-before is asymmetric.
pub proof fn lemma_lex_asymmetric(a: Seq<char>, b: Seq<char>)
    requires
        lex_lt(a, b),
    ensures
        lex_le(a, b),
{
    if lex_lt(b, a) {
        lemma_lex_transitive(a, b, a);
        lemma_lex_irreflexive(a);
    }
}

/// Strictly-before followed by before-or-equal is strictly-before.
pub proof fn lemma_lex_lt_le(a: Seq<char>, b: Seq<char>, c: Seq<char>)
    requires
        lex_lt(a, b),
        lex_le(b, c),
    ensures
        lex_lt(a, c),
{
    lemma_lex_total(b, c);
    if b != c {
        lemma_lex_transitive(a, b, c);
    }
}

/// Whether `a` sorts strictly before `b`.
pub fn text_lt(a: &Vec<char>, b: &Vec<char>) -> (r: bool)
    ensures
        r == lex_lt(a@, b@),
{
    let mut i: usize = 0;
    assert(a@.skip(0) =~= a@ && b@.skip(0) =~= b@);
    while i < a.len() && i < b.len() && a[i] == b[i]
        invariant
            i <= a.len(),
            i <= b.len(),
            lex_lt(a@, b@) == lex_lt(a@.skip(i as int), b@.skip(i as int)),
        decreases a.len() - i,
    {
        assert(a@.skip(i as int).skip(1) =~= a@.skip(i + 1));
        assert(b@.skip(i as int).skip(1) =~= b@.skip(i + 1));
        i = i + 1;
    }
    if i == a.len() {
        i < b.len()
    } else if i == b.len() {
        false
    } else {
        assert(a@.skip(i as int)[0] == a@[i as int]);
        assert(b@.skip(i as int)[0] == b@[i as int]);
        a[i] < b[i]
    }
}

/// Whether the text of `a` sorts strictly before that of `b`.
pub fn string_lt(a: &String, b: &String) -> (r: bool)
    ensures
        r == lex_lt(a@, b@),
{
    let x = crate::text::chars_of(a.as_str());
    let y = crate::text::chars_of(b.as_str());
    text_lt(&x, &y)
}

/// Sorts names in ascending order (`[String]::sort`).
pub fn sort_strings(v: Vec<String>) -> (r: Vec<String>)
    ensures
        sorted_text(str_views(r@)),
        str_views(r@).to_multiset() == str_views(v@).to_multiset(),
{
    let mut r: Vec<String> = Vec::new();
    let mut i: usize = 0;
    let n = v.len();
    assert(str_views(v@).take(0) =~= seq![]);
    while i < n
        invariant
            n == v.len(),
            i <= n,
            sorted_text(str_views(r@)),
            str_views(r@).to_multiset() == str_views(v@).take(i as int).to_multiset(),
        decreases n - i,
    {
        let x = v[i].clone();
        let mut p: usize = 0;
        while p < r.len() && !string_lt(&x, &r[p])
            invariant
                p <= r@.len(),
                forall|k: int| 0 <= k < p ==> lex_le(#[trigger] r@[k]@, x@),
            decreases r@.len() - p,
        {
            p = p + 1;
        }
        let ghost old_r = str_views(r@);
        r.insert(p, x);
        proof {
            let nr = str_views(r@);
            assert(nr =~= old_r.insert(p as int, x@));
            assert forall|k: int, l: int| 0 <= k < l < nr.len() implies lex_le(nr[k], nr[l]) by {
                if l < p {
                    assert(lex_le(old_r[k], old_r[l]));
                } else if l == p {
                    assert(old_r[k] == r@[k]@);
                    assert(lex_le(old_r[k], x@));
                } else if k == p {
                    assert(lex_lt(x@, old_r[p as int]));
                    if l - 1 > p {
                        assert(lex_le(old_r[p as int], old_r[l - 1]));
                        lemma_lex_lt_le(x@, old_r[p as int], old_r[l - 1]);
                    }
                    lemma_lex_asymmetric(x@, old_r[l - 1]);
                } else if k < p {
                    assert(lex_le(old_r[k], old_r[l - 1]));
                } else {
                    assert(lex_le(old_r[k - 1], old_r[l - 1]));
                }
            }
            vstd::seq_lib::to_multiset_insert(old_r, p as int, x@);
            assert(str_views(v@).take(i + 1) =~= str_views(v@).take(i as int).push(x@));
        }
        i = i + 1;
    }
    assert(str_views(v@).take(n as int) =~= str_views(v@));
    r
}

} // verus!
