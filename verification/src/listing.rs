//! Candidate collection and pagination for the list operations.
//!
//! Candidate ids are de-duplicated and sorted; a page starts right after the
//! continuation token (when the token is one of the candidates, otherwise at
//! the beginning) and holds at most `max(page_size, 1)` ids.

use vstd::prelude::*;
use crate::ordering::{lemma_lex_asymmetric, lemma_lex_irreflexive, lemma_lex_total, lemma_lex_transitive, lex_lt, str_lt};

verus! {

/// The character sequences of a sequence of strings.
pub open spec fn views(v: Seq<String>) -> Seq<Seq<char>> {
    v.map_values(|s: String| s@)
}

/// Strictly increasing: sorted, with no repeats.
pub open spec fn strictly_sorted(s: Seq<Seq<char>>) -> bool {
    forall|i: int, j: int| 0 <= i < j < s.len() ==> lex_lt(#[trigger] s[i], #[trigger] s[j])
}

/// The same strings occur in both sequences.
pub open spec fn same_members(a: Seq<Seq<char>>, b: Seq<Seq<char>>) -> bool {
    forall|x: Seq<char>| a.contains(x) <==> b.contains(x)
}

/// The sorted, duplicate-free list of the strings in `s`.
pub open spec fn is_sorted_set_of(r: Seq<Seq<char>>, s: Seq<Seq<char>>) -> bool {
    strictly_sorted(r) && same_members(r, s)
}

/// The number of ids a page holds at most: `page_size`, but at least 1.
pub open spec fn page_capacity(page_size: i32) -> int {
    if page_size < 1 {
        1
    } else {
        page_size as int
    }
}

/// Where a page starts: right after the continuation token when the token is
/// one of the ids, at the beginning otherwise.
pub open spec fn page_start(ids: Seq<Seq<char>>, token: Option<Seq<char>>) -> int {
    match token {
        Some(t) => if ids.contains(t) {
            ids.index_of(t) + 1
        } else {
            0
        },
        None => 0,
    }
}

/// Where a page ends (exclusive).
pub open spec fn page_end(ids: Seq<Seq<char>>, token: Option<Seq<char>>, page_size: i32) -> int {
    let start = page_start(ids, token);
    if start + page_capacity(page_size) < ids.len() {
        start + page_capacity(page_size)
    } else {
        ids.len() as int
    }
}

/// The page of `ids` that a continuation token and page size select.
pub open spec fn page_of(ids: Seq<Seq<char>>, token: Option<Seq<char>>, page_size: i32) -> Seq<Seq<char>> {
    ids.subrange(page_start(ids, token), page_end(ids, token, page_size))
}

/// The optional string's view.
pub open spec fn opt_view(o: Option<&str>) -> Option<Seq<char>> {
    match o {
        Some(s) => Some(s@),
        None => None,
    }
}

/// The ids whose check came out allowed, in order.
pub open spec fn allowed_ids(ids: Seq<Seq<char>>, allowed: Seq<bool>) -> Seq<Seq<char>>
    decreases ids.len(),
{
    if ids.len() == 0 || allowed.len() == 0 {
        Seq::empty()
    } else {
        let rest = allowed_ids(ids.drop_first(), allowed.drop_first());
        if allowed[0] {
            seq![ids[0]] + rest
        } else {
            rest
        }
    }
}

/// In a strictly sorted sequence every string occurs at one place only.
proof fn lemma_sorted_index_unique(s: Seq<Seq<char>>, i: int, j: int)
    requires
        strictly_sorted(s),
        0 <= i < s.len(),
        0 <= j < s.len(),
        s[i] == s[j],
    ensures
        i == j,
{
    if i < j {
        assert(lex_lt(s[i], s[j]));
        lemma_lex_irreflexive(s[i]);
    } else if j < i {
        assert(lex_lt(s[j], s[i]));
        lemma_lex_irreflexive(s[i]);
    }
}

/// The position of a string in a strictly sorted sequence.
proof fn lemma_sorted_index_of(s: Seq<Seq<char>>, i: int)
    requires
        strictly_sorted(s),
        0 <= i < s.len(),
    ensures
        s.contains(s[i]),
        s.index_of(s[i]) == i,
{
    assert(s.contains(s[i]));
    let k = s.index_of(s[i]);
    lemma_sorted_index_unique(s, k, i);
}

/// Collects the distinct ids in sorted order.
pub fn sorted_unique_ids(ids: &Vec<String>) -> (r: Vec<String>)
    ensures
        is_sorted_set_of(views(r@), views(ids@)),
{
    let mut res: Vec<String> = Vec::new();
    let mut k: usize = 0;
    while k < ids.len()
        invariant
            k <= ids.len(),
            strictly_sorted(views(res@)),
            same_members(views(res@), views(ids@.take(k as int))),
        decreases ids.len() - k,
    {
        let x = &ids[k];
        let ghost xv = x@;
        let mut i: usize = 0;
        while i < res.len() && str_lt(res[i].as_str(), x.as_str())
            invariant
                i <= res.len(),
                strictly_sorted(views(res@)),
                forall|j: int| 0 <= j < i ==> lex_lt(#[trigger] views(res@)[j], xv),
                k < ids.len(),
                xv == ids@[k as int]@,
                xv == x@,
            decreases res.len() - i,
        {
            assert(views(res@)[i as int] == res@[i as int]@);
            i += 1;
        }
        let ghost old_res = views(res@);
        let ghost before = views(ids@.take(k as int));
        assert(views(ids@.take(k + 1)) =~= before.push(xv));
        assert forall|y: Seq<char>| before.push(xv).contains(y) <==> before.contains(y) || y == xv by {
            if before.push(xv).contains(y) {
                let p = choose|p: int| 0 <= p < before.push(xv).len() && before.push(xv)[p] == y;
                if p < before.len() {
                    assert(before[p] == y);
                }
            }
            if before.contains(y) {
                let p = choose|p: int| 0 <= p < before.len() && before[p] == y;
                assert(before.push(xv)[p] == y);
            }
            if y == xv {
                assert(before.push(xv)[before.len() as int] == y);
            }
        }
        if i < res.len() && res[i] == *x {
            assert(old_res[i as int] == res@[i as int]@);
            assert(old_res[i as int] == xv);
            assert(views(res@).contains(xv));
        } else {
            proof {
                if i < res.len() {
                    assert(!lex_lt(old_res[i as int], xv));
                    lemma_lex_total(old_res[i as int], xv);
                    assert(lex_lt(xv, old_res[i as int]));
                    assert forall|j: int| i <= j < old_res.len() implies lex_lt(xv, #[trigger] old_res[j]) by {
                        if j > i {
                            lemma_lex_transitive(xv, old_res[i as int], old_res[j]);
                        }
                    }
                }
            }
            res.insert(i, x.clone());
            let ghost new_res = views(res@);
            assert(new_res =~= old_res.insert(i as int, xv));
            assert forall|a: int, b: int| 0 <= a < b < new_res.len() implies lex_lt(
                #[trigger] new_res[a],
                #[trigger] new_res[b],
            ) by {
                if b < i {
                } else if b == i {
                } else if a < i {
                    lemma_lex_transitive(new_res[a], xv, new_res[b]);
                } else if a == i {
                } else {
                    assert(new_res[a] == old_res[a - 1]);
                    assert(new_res[b] == old_res[b - 1]);
                }
            }
            assert forall|y: Seq<char>| new_res.contains(y) <==> old_res.contains(y) || y == xv by {
                if new_res.contains(y) {
                    let p = choose|p: int| 0 <= p < new_res.len() && new_res[p] == y;
                    if p < i {
                        assert(old_res[p] == y);
                    } else if p > i {
                        assert(old_res[p - 1] == y);
                    }
                }
                if old_res.contains(y) {
                    let p = choose|p: int| 0 <= p < old_res.len() && old_res[p] == y;
                    if p < i {
                        assert(new_res[p] == y);
                    } else {
                        assert(new_res[p + 1] == y);
                    }
                }
                if y == xv {
                    assert(new_res[i as int] == y);
                }
            }
        }
        k += 1;
    }
    assert(ids@.take(ids@.len() as int) =~= ids@);
    res
}

/// The position of `token` among strictly sorted ids, found by binary search.
fn search_sorted(ids: &Vec<String>, token: &str) -> (r: Option<usize>)
    requires
        strictly_sorted(views(ids@)),
    ensures
        r matches Some(i) ==> i < ids.len() && views(ids@)[i as int] == token@,
        r is None ==> !views(ids@).contains(token@),
{
    let ghost s = views(ids@);
    let mut lo: usize = 0;
    let mut hi: usize = ids.len();
    while lo < hi
        invariant
            s == views(ids@),
            strictly_sorted(s),
            lo <= hi <= ids@.len(),
            forall|j: int| 0 <= j < lo ==> lex_lt(#[trigger] s[j], token@),
            forall|j: int| hi <= j < s.len() ==> lex_lt(token@, #[trigger] s[j]),
        decreases hi - lo,
    {
        let mid = lo + (hi - lo) / 2;
        if str_lt(ids[mid].as_str(), token) {
            assert forall|j: int| 0 <= j <= mid implies lex_lt(#[trigger] s[j], token@) by {
                if j < mid {
                    lemma_lex_transitive(s[j], s[mid as int], token@);
                }
            }
            lo = mid + 1;
        } else if str_lt(token, ids[mid].as_str()) {
            assert forall|j: int| mid <= j < s.len() implies lex_lt(token@, #[trigger] s[j]) by {
                if j > mid {
                    lemma_lex_transitive(token@, s[mid as int], s[j]);
                }
            }
            hi = mid;
        } else {
            proof {
                lemma_lex_total(s[mid as int], token@);
            }
            return Some(mid);
        }
    }
    proof {
        if s.contains(token@) {
            let p = choose|p: int| 0 <= p < s.len() && s[p] == token@;
            if p < lo {
                lemma_lex_irreflexive(token@);
            } else {
                lemma_lex_irreflexive(token@);
            }
        }
    }
    None
}

/// Selects the page of sorted, distinct ids that follows the continuation
/// token (or starts at the beginning when the token is absent or unknown),
/// holding at most `max(page_size, 1)` ids.
pub fn paginate_ids(ids: &Vec<String>, page_size: i32, continuation_token: Option<&str>) -> (r: Vec<String>)
    requires
        strictly_sorted(views(ids@)),
    ensures
        views(r@) == page_of(views(ids@), opt_view(continuation_token), page_size),
{
    let ghost s = views(ids@);
    let start: usize = match continuation_token {
        Some(token) => match search_sorted(ids, token) {
            Some(i) => {
                proof {
                    lemma_sorted_index_of(s, i as int);
                }
                i + 1
            },
            None => 0,
        },
        None => 0,
    };
    assert(start == page_start(s, opt_view(continuation_token)));
    let capacity: usize = if page_size < 1 { 1 } else { page_size as usize };
    let end: usize = if capacity < ids.len() - start { start + capacity } else { ids.len() };
    let mut page: Vec<String> = Vec::new();
    let mut i: usize = start;
    while i < end
        invariant
            start <= i <= end <= ids@.len(),
            s == views(ids@),
            views(page@) =~= s.subrange(start as int, i as int),
        decreases end - i,
    {
        let ghost before = page@;
        page.push(ids[i].clone());
        assert(views(page@) =~= views(before).push(s[i as int]));
        i += 1;
    }
    page
}

/// The page of distinct candidate ids, in sorted order, that a list
/// operation checks.
pub fn candidate_page(candidates: &Vec<String>, page_size: i32, continuation_token: Option<&str>) -> (r: Vec<String>)
    ensures
        exists|sorted: Seq<Seq<char>>| #[trigger]
            is_sorted_set_of(sorted, views(candidates@)) && views(r@) == page_of(
                sorted,
                opt_view(continuation_token),
                page_size,
            ),
{
    let ids = sorted_unique_ids(candidates);
    let page = paginate_ids(&ids, page_size, continuation_token);
    assert(is_sorted_set_of(views(ids@), views(candidates@)));
    page
}

/// Keeps the ids whose check came out allowed, in order.
pub fn collect_allowed(ids: &Vec<String>, allowed: &Vec<bool>) -> (r: Vec<String>)
    requires
        ids.len() == allowed.len(),
    ensures
        views(r@) == allowed_ids(views(ids@), allowed@),
{
    let mut out: Vec<String> = Vec::new();
    let mut i: usize = ids.len();
    let ghost s = views(ids@);
    while i > 0
        invariant
            i <= ids.len() == allowed.len(),
            s == views(ids@),
            views(out@) == allowed_ids(s.skip(i as int), allowed@.skip(i as int)),
        decreases i,
    {
        i -= 1;
        assert(s.skip(i as int).drop_first() =~= s.skip(i + 1));
        assert(allowed@.skip(i as int).drop_first() =~= allowed@.skip(i + 1));
        if allowed[i] {
            out.insert(0, ids[i].clone());
            assert(views(out@) =~= seq![s[i as int]] + allowed_ids(s.skip(i + 1), allowed@.skip(i + 1)));
        }
    }
    assert(s.skip(0) =~= s);
    assert(allowed@.skip(0) =~= allowed@);
    out
}

} // verus!
