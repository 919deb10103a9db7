//! Choosing among scored clips: folding clips of the same moment together and
//! ranking the rest.
use vstd::prelude::*;

use crate::highlight::{HighlightKind, HighlightScore};

verus! {

/// Swapping two elements of a slice; panics when either index is out of bounds.
pub assume_specification<Elem>[ <[Elem]>::swap ](slice: &mut [Elem], a: usize, b: usize)
    requires
        a < old(slice)@.len(),
        b < old(slice)@.len(),
    ensures
        final(slice)@ == old(slice)@.update(a as int, old(slice)@[b as int]).update(
            b as int,
            old(slice)@[a as int],
        ),
;

/// One clip that can be chosen.
pub struct Candidate<T> {
    pub item: T,
    pub kind: HighlightKind,
    /// In-game time of the event, in milliseconds.
    pub at_ms: u64,
    pub score: HighlightScore,
}

/// The order a list of candidates is sorted in.
#[derive(Clone, Copy, Debug, PartialEq, Eq, Structural)]
pub enum CandidateOrder {
    /// Highest score first; equal scores earliest first.
    ByRank,
    /// Earliest first.
    ByTime,
}

/// Whether `a` must come strictly before `b` in the given order.
pub open spec fn goes_before<T>(order: CandidateOrder, a: Candidate<T>, b: Candidate<T>) -> bool {
    match order {
        CandidateOrder::ByRank => a.score.value > b.score.value || (a.score.value == b.score.value
            && a.at_ms < b.at_ms),
        CandidateOrder::ByTime => a.at_ms < b.at_ms,
    }
}

/// Neither candidate goes before the other: they tie in the given order.
pub open spec fn ties<T>(order: CandidateOrder, a: Candidate<T>, b: Candidate<T>) -> bool {
    !goes_before(order, a, b) && !goes_before(order, b, a)
}

/// No candidate goes before an earlier one.
pub open spec fn sorted_in<T>(order: CandidateOrder, s: Seq<Candidate<T>>) -> bool {
    forall|i: int, j: int| 0 <= i < j < s.len() ==> !#[trigger] goes_before(order, s[j], s[i])
}

/// `p` maps the positions `0..n` one to one onto `0..n`.
pub open spec fn is_index_permutation(p: Seq<int>, n: int) -> bool {
    &&& p.len() == n
    &&& forall|k: int| 0 <= k < n ==> 0 <= #[trigger] p[k] < n
    &&& forall|a: int, b: int| 0 <= a < b < n ==> #[trigger] p[a] != #[trigger] p[b]
}

/// `out` is `inp` rearranged by the permutation `p`, and candidates that tie
/// keep their input order.
pub open spec fn stable_rearrangement<T>(
    order: CandidateOrder,
    inp: Seq<Candidate<T>>,
    out: Seq<Candidate<T>>,
    p: Seq<int>,
) -> bool {
    &&& out.len() == inp.len()
    &&& is_index_permutation(p, inp.len() as int)
    &&& forall|k: int| 0 <= k < out.len() ==> #[trigger] out[k] == inp[p[k]]
    &&& forall|a: int, b: int|
        0 <= a < b < out.len() && ties(order, out[a], out[b]) ==> #[trigger] p[a] < #[trigger] p[b]
}

/// `out` is the stable sort of `inp` in the given order.
pub open spec fn is_stable_sort<T>(
    order: CandidateOrder,
    inp: Seq<Candidate<T>>,
    out: Seq<Candidate<T>>,
) -> bool {
    &&& sorted_in(order, out)
    &&& out.to_multiset() == inp.to_multiset()
    &&& exists|p: Seq<int>| stable_rearrangement(order, inp, out, p)
}

fn goes_before_exec<T>(order: CandidateOrder, a: &Candidate<T>, b: &Candidate<T>) -> (r: bool)
    ensures
        r == goes_before(order, *a, *b),
{
    match order {
        CandidateOrder::ByRank => a.score.value > b.score.value || (a.score.value
            == b.score.value && a.at_ms < b.at_ms),
        CandidateOrder::ByTime => a.at_ms < b.at_ms,
    }
}

proof fn lemma_not_before_transitive<T>(
    order: CandidateOrder,
    x: Candidate<T>,
    y: Candidate<T>,
    z: Candidate<T>,
)
    requires
        !goes_before(order, x, y),
        !goes_before(order, y, z),
    ensures
        !goes_before(order, x, z),
{
}

proof fn lemma_swap_multiset<T>(s: Seq<T>, i: int, j: int)
    requires
        0 <= i < s.len(),
        0 <= j < s.len(),
    ensures
        s.update(i, s[j]).update(j, s[i]).to_multiset() == s.to_multiset(),
{
    broadcast use vstd::seq_lib::group_to_multiset_ensures;
    broadcast use vstd::multiset::group_multiset_axioms;

    let s1 = s.update(i, s[j]);
    assert(s1.to_multiset() == s.to_multiset().insert(s[j]).remove(s[i]));
    assert(s1[j] == if i == j { s[j] } else { s[j] });
    assert(s1.update(j, s[i]).to_multiset() == s1.to_multiset().insert(s[i]).remove(s1[j]));
    assert(s.to_multiset().insert(s[j]).remove(s[i]).insert(s[i]).remove(s[j]) =~= s.to_multiset());
}

/// Stable insertion sort of a slice of candidates.
pub fn sort_candidates<T>(v: &mut [Candidate<T>], order: CandidateOrder)
    ensures
        is_stable_sort(order, old(v)@, final(v)@),
{
    let n = v.len();
    let ghost orig = v@;
    let ghost mut p: Seq<int> = Seq::new(n as nat, |k: int| k);
    assert(v@.to_multiset() == orig.to_multiset());
    let mut i: usize = 0;
    while i < n
        invariant
            n == v@.len(),
            n == orig.len(),
            i <= n,
            v@.to_multiset() == orig.to_multiset(),
            is_index_permutation(p, n as int),
            forall|k: int| 0 <= k < n ==> #[trigger] v@[k] == orig[p[k]],
            forall|k: int| i <= k < n ==> #[trigger] p[k] == k,
            forall|k: int| 0 <= k < i ==> #[trigger] p[k] < i,
            forall|a: int, b: int| 0 <= a < b < i ==> !#[trigger] goes_before(order, v@[b], v@[a]),
            forall|a: int, b: int|
                0 <= a < b < i && #[trigger] ties(order, v@[a], v@[b]) ==> p[a] < p[b],
        decreases n - i,
    {
        let mut j: usize = i;
        while j > 0 && goes_before_exec(order, &v[j], &v[j - 1])
            invariant
                n == v@.len(),
                n == orig.len(),
                i < n,
                j <= i,
                v@.to_multiset() == orig.to_multiset(),
                is_index_permutation(p, n as int),
                forall|k: int| 0 <= k < n ==> #[trigger] v@[k] == orig[p[k]],
                forall|k: int| i < k < n ==> #[trigger] p[k] == k,
                p[j as int] == i,
                forall|k: int| 0 <= k <= i && k != j ==> #[trigger] p[k] < i,
                // the sorted prefix, with the moving candidate taken out
                forall|a: int, b: int|
                    0 <= a < b <= i && a != j && b != j ==> !#[trigger] goes_before(
                        order,
                        v@[b],
                        v@[a],
                    ),
                forall|a: int, b: int|
                    0 <= a < b <= i && a != j && b != j && #[trigger] ties(order, v@[a], v@[b])
                        ==> p[a] < p[b],
                // the moving candidate goes strictly before everything it passed
                forall|b: int| j < b <= i ==> #[trigger] goes_before(order, v@[j as int], v@[b]),
            decreases j,
        {
            let ghost before = v@;
            let ghost pb = p;
            v.swap(j - 1, j);
            proof {
                lemma_swap_multiset(before, (j - 1) as int, j as int);
                p = pb.update((j - 1) as int, pb[j as int]).update(j as int, pb[(j - 1) as int]);
                assert forall|a: int, b: int| 0 <= a < b < n implies #[trigger] p[a] != #[trigger] p[b] by {
                    if a == j - 1 || a == j || b == j - 1 || b == j {
                    } else {
                        assert(pb[a] != pb[b]);
                    }
                }
            }
            j = j - 1;
        }
        proof {
            // Insertion point reached: the moving candidate does not go before its
            // left neighbour, hence before nothing to its left.
            if j > 0 {
                assert(!goes_before(order, v@[j as int], v@[j - 1]));
            }
            assert forall|a: int, b: int| 0 <= a < b <= i implies !#[trigger] goes_before(
                order,
                v@[b],
                v@[a],
            ) by {
                if b == j && a < j - 1 {
                    assert(!goes_before(order, v@[j - 1], v@[a]));
                    lemma_not_before_transitive(order, v@[j as int], v@[j - 1], v@[a]);
                } else if a == j {
                    assert(goes_before(order, v@[a], v@[b]));
                }
            }
        }
        i = i + 1;
    }
    proof {
        assert(stable_rearrangement(order, orig, v@, p));
    }
}

/// Sorts candidates best first; equal scores keep the earlier moment first.
///
/// The ranking is deterministic: ties in both score and time keep their input
/// order, and candidates that tie in neither always come out in one order.
pub fn rank<T>(candidates: &mut [Candidate<T>])
    ensures
        is_stable_sort(CandidateOrder::ByRank, old(candidates)@, final(candidates)@),
{
    sort_candidates(candidates, CandidateOrder::ByRank);
}

/// Folds a time-sorted list of candidates: a candidate within `window_ms` of the
/// last kept one belongs to the same moment and replaces it only when it scores
/// strictly higher; otherwise it opens a new moment.
pub open spec fn fold_moments<T>(s: Seq<Candidate<T>>, window_ms: u64) -> Seq<Candidate<T>>
    decreases s.len(),
{
    if s.len() == 0 {
        Seq::empty()
    } else {
        let kept = fold_moments(s.drop_last(), window_ms);
        let c = s.last();
        if kept.len() > 0 && c.at_ms - kept.last().at_ms <= window_ms {
            if c.score.value > kept.last().score.value {
                kept.update(kept.len() - 1, c)
            } else {
                kept
            }
        } else {
            kept.push(c)
        }
    }
}

proof fn lemma_identity_is_stable_sort<T>(order: CandidateOrder, s: Seq<Candidate<T>>)
    requires
        s.len() <= 1,
    ensures
        is_stable_sort(order, s, s),
{
    let p = Seq::new(s.len(), |k: int| k);
    assert(stable_rearrangement(order, s, s, p));
}

/// Folds the candidates of one moment into one: among candidates less than
/// `window_ms` apart (chained through the last kept one), only the best stays.
///
/// The candidates are first put in time order (stably), then folded.
pub fn dedupe_by_moment<T>(candidates: Vec<Candidate<T>>, window_ms: u64) -> (kept: Vec<
    Candidate<T>,
>)
    ensures
        exists|sorted: Seq<Candidate<T>>|
            is_stable_sort(CandidateOrder::ByTime, candidates@, sorted) && kept@ == fold_moments(
                sorted,
                window_ms,
            ),
{
    if candidates.len() <= 1 {
        proof {
            lemma_identity_is_stable_sort(CandidateOrder::ByTime, candidates@);
            reveal_with_fuel(fold_moments, 2);
            if candidates@.len() == 1 {
                assert(candidates@.drop_last() =~= Seq::<Candidate<T>>::empty());
                assert(fold_moments(candidates@, window_ms) =~= candidates@);
            } else {
                assert(fold_moments(candidates@, window_ms) =~= candidates@);
            }
        }
        return candidates;
    }
    let mut candidates = candidates;
    sort_candidates(candidates.as_mut_slice(), CandidateOrder::ByTime);
    let ghost sorted = candidates@;

    let mut kept: Vec<Candidate<T>> = Vec::new();
    for cand in it: candidates
        invariant
            it.seq() == sorted,
            kept@ == fold_moments(sorted.take(it.index() as int), window_ms),
    {
        let ghost idx = it.index() as int;
        proof {
            assert(sorted.take(idx + 1).drop_last() =~= sorted.take(idx));
            assert(sorted.take(idx + 1).last() == cand);
        }
        let n = kept.len();
        let same_moment = n > 0 && (cand.at_ms < kept[n - 1].at_ms || cand.at_ms - kept[n
            - 1].at_ms <= window_ms);
        if same_moment {
            if cand.score.value > kept[n - 1].score.value {
                kept.set(n - 1, cand);
            }
        } else {
            kept.push(cand);
        }
    }
    proof {
        assert(sorted.take(sorted.len() as int) =~= sorted);
    }
    kept
}

// ---------------------------------------------------------------------------
// Laws
// ---------------------------------------------------------------------------

/// The comparison key of the ranking: the score, then the moment.
pub open spec fn rank_key<T>(c: Candidate<T>) -> (int, int) {
    (c.score.value as int, c.at_ms as int)
}

/// Key order of the ranking: higher score first, then earlier moment.
pub open spec fn rank_key_leq(a: (int, int), b: (int, int)) -> bool {
    a.0 > b.0 || (a.0 == b.0 && a.1 <= b.1)
}

proof fn lemma_rank_key_total()
    ensures
        vstd::relations::total_ordering(|a: (int, int), b: (int, int)| rank_key_leq(a, b)),
{
}

proof fn lemma_map_multiset<A, B>(x: Seq<A>, y: Seq<A>, f: spec_fn(A) -> B)
    requires
        x.to_multiset() == y.to_multiset(),
    ensures
        x.map_values(f).to_multiset() == y.map_values(f).to_multiset(),
    decreases x.len(),
{
    broadcast use vstd::seq_lib::group_to_multiset_ensures;
    broadcast use vstd::multiset::group_multiset_axioms;

    if x.len() == 0 {
        assert(x.to_multiset().len() == 0);
        assert(y.to_multiset().len() == y.len());
        assert(y.len() == 0);
        assert(x.map_values(f) =~= Seq::<B>::empty());
        assert(y.map_values(f) =~= Seq::<B>::empty());
    } else {
        let e = x.last();
        let xs = x.drop_last();
        assert(x =~= xs.push(e));
        assert(x.to_multiset().count(e) > 0);
        assert(y.contains(e));
        let i = choose|i: int| 0 <= i < y.len() && y[i] == e;
        let ys = y.remove(i);
        assert(ys.to_multiset() =~= y.to_multiset().remove(e));
        assert(xs.to_multiset() =~= x.to_multiset().remove(e));
        lemma_map_multiset(xs, ys, f);
        assert(x.map_values(f) =~= xs.map_values(f).push(f(e)));
        assert(ys.map_values(f) =~= y.map_values(f).remove(i));
        assert(y.map_values(f)[i] == f(e));
        assert(y.map_values(f).remove(i).to_multiset() =~= y.map_values(f).to_multiset().remove(
            f(e),
        ));
        assert(y.map_values(f).to_multiset().count(f(e)) > 0);
    }
}

/// Ranking is deterministic: two lists holding the same candidates, in any
/// order, rank into the same sequence of scores and moments.
pub proof fn rank_is_deterministic<T>(
    a: Seq<Candidate<T>>,
    b: Seq<Candidate<T>>,
    ranked_a: Seq<Candidate<T>>,
    ranked_b: Seq<Candidate<T>>,
)
    requires
        a.to_multiset() == b.to_multiset(),
        is_stable_sort(CandidateOrder::ByRank, a, ranked_a),
        is_stable_sort(CandidateOrder::ByRank, b, ranked_b),
    ensures
        ranked_a.map_values(|c: Candidate<T>| rank_key(c)) == ranked_b.map_values(
            |c: Candidate<T>| rank_key(c),
        ),
{
    let f = |c: Candidate<T>| rank_key(c);
    let leq = |x: (int, int), y: (int, int)| rank_key_leq(x, y);
    lemma_rank_key_total();
    lemma_map_multiset(ranked_a, ranked_b, f);
    let ka = ranked_a.map_values(f);
    let kb = ranked_b.map_values(f);
    assert(vstd::relations::sorted_by(ka, leq)) by {
        assert forall|i: int, j: int| 0 <= i < j < ka.len() implies #[trigger] leq(ka[i], ka[j]) by {
            assert(!goes_before(CandidateOrder::ByRank, ranked_a[j], ranked_a[i]));
        }
    }
    assert(vstd::relations::sorted_by(kb, leq)) by {
        assert forall|i: int, j: int| 0 <= i < j < kb.len() implies #[trigger] leq(kb[i], kb[j]) by {
            assert(!goes_before(CandidateOrder::ByRank, ranked_b[j], ranked_b[i]));
        }
    }
    vstd::seq_lib::lemma_sorted_unique(ka, kb, leq);
}

/// Facts about folding a time-sorted list: the result keeps at most one
/// candidate per moment, every kept candidate comes from the input, and kept
/// moments are more than `window_ms` apart, in time order.
pub proof fn fold_moments_separates_moments<T>(s: Seq<Candidate<T>>, window_ms: u64)
    requires
        sorted_in(CandidateOrder::ByTime, s),
    ensures
        fold_moments(s, window_ms).len() <= s.len(),
        s.len() > 0 ==> fold_moments(s, window_ms).len() > 0,
        forall|k: int|
            0 <= k < fold_moments(s, window_ms).len() ==> s.contains(
                #[trigger] fold_moments(s, window_ms)[k],
            ),
        forall|k: int|
            0 <= k < fold_moments(s, window_ms).len() - 1 ==> #[trigger] fold_moments(s, window_ms)[k
                + 1].at_ms - fold_moments(s, window_ms)[k].at_ms > window_ms,
        s.len() > 0 ==> fold_moments(s, window_ms).last().at_ms <= s.last().at_ms,
    decreases s.len(),
{
    if s.len() > 0 {
        let init = s.drop_last();
        assert(sorted_in(CandidateOrder::ByTime, init)) by {
            assert forall|i: int, j: int| 0 <= i < j < init.len() implies !#[trigger] goes_before(
                CandidateOrder::ByTime,
                init[j],
                init[i],
            ) by {
                assert(init[i] == s[i] && init[j] == s[j]);
            }
        }
        fold_moments_separates_moments(init, window_ms);
        let kept = fold_moments(init, window_ms);
        let c = s.last();
        if kept.len() > 0 {
            assert(init.len() > 0);
            assert(!goes_before(CandidateOrder::ByTime, s[s.len() - 1], s[s.len() - 2]));
            assert(init.last() == s[s.len() - 2]);
        }
        assert forall|k: int| 0 <= k < kept.len() implies s.contains(#[trigger] kept[k]) by {
            let w = choose|w: int| 0 <= w < init.len() && init[w] == kept[k];
            assert(s[w] == kept[k]);
        }
        assert(s[s.len() - 1] == c);
    }
}

} // verus!
