//! Fuzzy filtering of list labels.
use vstd::prelude::*;
use vstd::utf8::encode_utf8;

use nucleo_matcher::pattern::{AtomKind, CaseMatching, Normalization, Pattern};
use nucleo_matcher::{Config, Matcher, Utf32Str};

verus! {

/// The score that nucleo's fuzzy pattern `query` (case ignored, smart
/// normalization) gives `item`, or `None` when it does not match.
pub uninterp spec fn fuzzy_score(query: Seq<char>, item: Seq<char>) -> Option<u32>;

/// Scores `item` against the pattern `query` with nucleo
/// (`Pattern::new(query, CaseMatching::Ignore, Normalization::Smart,
/// AtomKind::Fuzzy).score(..)` on a default `Matcher`). The contract
/// claims that the result depends on the two texts alone. nucleo's
/// matcher asserts a haystack of at most `u32::MAX` units (the item's
/// bytes when its graphemes are all ASCII, else its graphemes, never more
/// than its bytes), which the byte bound keeps. A word's score is a `u16`
/// that nucleo sums without checks: 16 plus a bonus of at most 10 per
/// matched character, the first one's bonus doubled (so at most
/// 36 + 26 per further character). A query of at most 2520 characters
/// keeps every word's score below 65536, and the `u32` sum of the words'
/// scores in range.
#[verifier::external_body]
fn pattern_score(query: &str, item: &str) -> (r: Option<u32>)
    requires
        query@.len() <= 2520,
        encode_utf8(item@).len() <= u32::MAX,
    ensures
        r == fuzzy_score(query@, item@),
{
    let mut matcher = Matcher::new(Config::DEFAULT);
    let pattern = Pattern::new(query, CaseMatching::Ignore, Normalization::Smart, AtomKind::Fuzzy);
    let mut buf = Vec::new();
    pattern.score(Utf32Str::new(item, &mut buf), &mut matcher)
}

/// `a` comes before `b`: higher score first, lower index among equal
/// scores.
pub open spec fn ranks_before(a: (usize, u32), b: (usize, u32)) -> bool {
    a.1 > b.1 || (a.1 == b.1 && a.0 < b.0)
}

/// `r` lists, best first, the index and score of every item that
/// `query` matches, and nothing else.
pub open spec fn is_ranking(query: Seq<char>, items: Seq<String>, r: Seq<(usize, u32)>) -> bool {
    &&& forall|k: int| 0 <= k < r.len() ==> {
        &&& (#[trigger] r[k]).0 < items.len()
        &&& fuzzy_score(query, items[r[k].0 as int]@) == Some(r[k].1)
    }
    &&& forall|i: int|
        0 <= i < items.len() && (#[trigger] fuzzy_score(query, items[i]@)) is Some ==> exists|k: int|
            0 <= k < r.len() && r[k].0 == i
    &&& forall|k: int, l: int| 0 <= k < l < r.len() ==> ranks_before(r[k], r[l])
}

/// Inputs that the fuzzy filter accepts: an empty query (nucleo is not
/// called), or a query and items short enough for nucleo.
pub open spec fn fuzzy_inputs_ok(query: Seq<char>, items: Seq<String>) -> bool {
    query.len() == 0 || {
        &&& query.len() <= 2520
        &&& forall|i: int| 0 <= i < items.len() ==> encode_utf8((#[trigger] items[i])@).len() <= u32::MAX
    }
}

/// `r` lists, best first, the index and score of every item that has a
/// score in `scores`, and nothing else; equal scores keep the items'
/// order.
pub open spec fn is_score_ranking(scores: Seq<Option<u32>>, r: Seq<(usize, u32)>) -> bool {
    &&& forall|k: int| 0 <= k < r.len() ==> {
        &&& (#[trigger] r[k]).0 < scores.len()
        &&& scores[r[k].0 as int] == Some(r[k].1)
    }
    &&& forall|i: int|
        0 <= i < scores.len() && (#[trigger] scores[i]) is Some ==> exists|k: int|
            0 <= k < r.len() && r[k].0 == i
    &&& forall|k: int, l: int| 0 <= k < l < r.len() ==> ranks_before(r[k], r[l])
}

/// Ranks scored items: the `(index, score)` of each item with a score,
/// highest score first, equal scores in the items' order.
pub fn rank_scores(scores: &Vec<Option<u32>>) -> (r: Vec<(usize, u32)>)
    ensures
        is_score_ranking(scores@, r@),
{
    let mut r: Vec<(usize, u32)> = Vec::new();
    let mut i: usize = 0;
    while i < scores.len()
        invariant
            i <= scores@.len(),
            forall|k: int| 0 <= k < r@.len() ==> {
                &&& (#[trigger] r@[k]).0 < i
                &&& scores@[r@[k].0 as int] == Some(r@[k].1)
            },
            forall|j: int|
                0 <= j < i && (#[trigger] scores@[j]) is Some ==> exists|k: int|
                    0 <= k < r@.len() && r@[k].0 == j,
            forall|k: int, l: int| 0 <= k < l < r@.len() ==> ranks_before(r@[k], r@[l]),
        decreases scores@.len() - i,
    {
        match scores[i] {
            Some(score) => {
                let mut p: usize = 0;
                while p < r.len() && r[p].1 >= score
                    invariant
                        p <= r@.len(),
                        forall|k: int| 0 <= k < p ==> (#[trigger] r@[k]).1 >= score,
                    decreases r@.len() - p,
                {
                    p = p + 1;
                }
                let ghost old_r = r@;
                r.insert(p, (i, score));
                proof {
                    assert(r@ == old_r.insert(p as int, (i, score)));
                    assert forall|k: int, l: int| 0 <= k < l < r@.len() implies ranks_before(
                        r@[k],
                        r@[l],
                    ) by {
                        if l < p {
                            assert(ranks_before(old_r[k], old_r[l]));
                        } else if l == p {
                            assert(old_r[k].1 >= score && old_r[k].0 < i);
                        } else if k == p {
                            assert(old_r[p as int].1 < score);
                            if l - 1 > p {
                                assert(ranks_before(old_r[p as int], old_r[l - 1]));
                            }
                        } else if k < p {
                            assert(ranks_before(old_r[k], old_r[l - 1]));
                        } else {
                            assert(ranks_before(old_r[k - 1], old_r[l - 1]));
                        }
                    }
                    assert forall|j: int|
                        0 <= j < i + 1 && (#[trigger] scores@[j]) is Some implies exists|k: int|
                        0 <= k < r@.len() && r@[k].0 == j by {
                        if j < i {
                            let k0 = choose|k: int| 0 <= k < old_r.len() && old_r[k].0 == j;
                            if k0 < p {
                                assert(r@[k0].0 == j);
                            } else {
                                assert(r@[k0 + 1].0 == j);
                            }
                        } else {
                            assert(r@[p as int].0 == j);
                        }
                    }
                    assert forall|k: int| 0 <= k < r@.len() implies {
                        &&& (#[trigger] r@[k]).0 < i + 1
                        &&& scores@[r@[k].0 as int] == Some(r@[k].1)
                    } by {
                        if k < p {
                            assert(r@[k] == old_r[k]);
                        } else if k > p {
                            assert(r@[k] == old_r[k - 1]);
                        }
                    }
                }
            },
            None => {},
        }
        i = i + 1;
    }
    r
}

/// Fuzzy match a query against a list of items, returning (index, score)
/// pairs sorted by score, best first; equal scores keep the items' order.
/// An empty query keeps every item, in order, with score 0.
pub fn fuzzy_match(query: &str, items: &Vec<String>) -> (r: Vec<(usize, u32)>)
    requires
        fuzzy_inputs_ok(query@, items@),
    ensures
        query@.len() == 0 ==> r@ == Seq::new(items@.len(), |i: int| (i as usize, 0u32)),
        query@.len() > 0 ==> is_ranking(query@, items@, r@),
{
    if query.is_empty() {
        let mut r: Vec<(usize, u32)> = Vec::new();
        let mut i: usize = 0;
        while i < items.len()
            invariant
                i <= items.len(),
                r@ == Seq::new(i as nat, |j: int| (j as usize, 0u32)),
            decreases items.len() - i,
        {
            r.push((i, 0));
            i = i + 1;
            assert(r@ =~= Seq::new(i as nat, |j: int| (j as usize, 0u32)));
        }
        return r;
    }
    let mut scores: Vec<Option<u32>> = Vec::new();
    let mut i: usize = 0;
    while i < items.len()
        invariant
            i <= items.len(),
            query@.len() > 0,
            fuzzy_inputs_ok(query@, items@),
            scores@.len() == i,
            forall|k: int| 0 <= k < i ==> (#[trigger] scores@[k]) == fuzzy_score(query@, items@[k]@),
        decreases items.len() - i,
    {
        assert(encode_utf8(items@[i as int]@).len() <= u32::MAX);
        let s = pattern_score(query, items[i].as_str());
        scores.push(s);
        i = i + 1;
    }
    let r = rank_scores(&scores);
    proof {
        assert forall|i: int|
            0 <= i < items@.len() && (#[trigger] fuzzy_score(query@, items@[i]@)) is Some implies exists|k: int|
            0 <= k < r@.len() && r@[k].0 == i by {
            assert(scores@[i] is Some);
        }
        assert forall|k: int| 0 <= k < r@.len() implies {
            &&& (#[trigger] r@[k]).0 < items@.len()
            &&& fuzzy_score(query@, items@[r@[k].0 as int]@) == Some(r@[k].1)
        } by {
            assert(scores@[r@[k].0 as int] == Some(r@[k].1));
        }
    }
    r
}

} // verus!
