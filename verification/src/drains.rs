//! Laws over a whole iteration: the calls of `next` and `next_back` on one
//! iterator, from its start until it is drained.
use vstd::prelude::*;

use crate::model::{
    count_true, is_first_in, is_last_in, lemma_count_is_set_len, set_indices, takes_greatest,
    takes_least,
};

verus! {

/// The set indices of `s` in `lo..hi`.
pub open spec fn span(s: Seq<bool>, lo: int, hi: int) -> Set<int> {
    Set::new(|i: int| lo <= i < hi && 0 <= i < s.len() && s[i])
}

/// One call on an iterator: `next` when `front`, `next_back` otherwise.
pub open spec fn drain_step(front: bool, before: Set<int>, after: Set<int>, r: Option<usize>) -> bool {
    if front {
        takes_least(before, after, r)
    } else {
        takes_greatest(before, after, r)
    }
}

/// A series of calls on a fresh iterator over `s`: call `k` is from the front
/// when `front[k]`, returns `outs[k]`, and takes the indices still to come
/// from `states[k]` to `states[k + 1]`.
pub open spec fn is_drain(s: Seq<bool>, states: Seq<Set<int>>, outs: Seq<Option<usize>>, front: Seq<bool>) -> bool {
    &&& front.len() == outs.len()
    &&& states.len() == outs.len() + 1
    &&& states[0] == set_indices(s)
    &&& forall|k: int| 0 <= k < outs.len() ==> drain_step(front[k], states[k], states[k + 1], #[trigger] outs[k])
}

/// How many of the results are `Some`.
pub open spec fn count_some(outs: Seq<Option<usize>>) -> nat
    decreases outs.len(),
{
    if outs.len() == 0 {
        0
    } else {
        count_some(outs.drop_last()) + if outs.last() is Some { 1nat } else { 0nat }
    }
}

/// Everything below this bound has been yielded from the front after `m` calls.
spec fn drain_lo(outs: Seq<Option<usize>>, front: Seq<bool>, m: int) -> int
    decreases m,
{
    if m <= 0 {
        0
    } else if front[m - 1] && outs[m - 1] is Some {
        outs[m - 1]->0 + 1
    } else {
        drain_lo(outs, front, m - 1)
    }
}

/// Everything from this bound up has been yielded from the back after `m` calls.
spec fn drain_hi(len: int, outs: Seq<Option<usize>>, front: Seq<bool>, m: int) -> int
    decreases m,
{
    if m <= 0 {
        len
    } else if !front[m - 1] && outs[m - 1] is Some {
        outs[m - 1]->0 as int
    } else {
        drain_hi(len, outs, front, m - 1)
    }
}

/// One call on the indices still to come in `lo..hi`.
proof fn lemma_step_span(s: Seq<bool>, lo: int, hi: int, front: bool, after: Set<int>, r: Option<usize>)
    requires
        drain_step(front, span(s, lo, hi), after, r),
    ensures
        r is None ==> span(s, lo, hi) == Set::<int>::empty() && after == Set::<int>::empty()
            && forall|j: int| lo <= j < hi && 0 <= j < s.len() ==> !s[j],
        r is Some ==> lo <= r->0 < hi && r->0 < s.len() && s[r->0 as int],
        r is Some && front ==> after == span(s, r->0 + 1, hi)
            && forall|j: int| lo <= j < r->0 && 0 <= j ==> !s[j],
        r is Some && !front ==> after == span(s, lo, r->0 as int)
            && forall|j: int| r->0 < j < hi && j < s.len() ==> !s[j],
{
    let before = span(s, lo, hi);
    match r {
        None => {
            assert forall|j: int| lo <= j < hi && 0 <= j < s.len() implies !s[j] by {
                if s[j] {
                    assert(before.contains(j));
                }
            }
        },
        Some(i) => {
            if front {
                assert(after =~= span(s, i + 1, hi));
                assert forall|j: int| lo <= j < i && 0 <= j implies !s[j] by {
                    if s[j] {
                        assert(before.contains(j));
                    }
                }
            } else {
                assert(after =~= span(s, lo, i as int));
                assert forall|j: int| i < j < hi && j < s.len() implies !s[j] by {
                    if s[j] {
                        assert(before.contains(j));
                    }
                }
            }
        },
    }
}

proof fn lemma_drain_prefix(s: Seq<bool>, states: Seq<Set<int>>, outs: Seq<Option<usize>>, front: Seq<bool>, m: int)
    requires
        is_drain(s, states, outs, front),
        0 <= m <= outs.len(),
    ensures
        0 <= drain_lo(outs, front, m),
        drain_hi(s.len() as int, outs, front, m) <= s.len(),
        states[m] == span(s, drain_lo(outs, front, m), drain_hi(s.len() as int, outs, front, m)),
        states[m].finite(),
        states[m].len() + count_some(outs.take(m)) == count_true(s),
        forall|k: int| 0 <= k < m && #[trigger] outs[k] is Some ==> {
            &&& outs[k]->0 < s.len() && s[outs[k]->0 as int]
            &&& front[k] ==> outs[k]->0 < drain_lo(outs, front, m)
            &&& !front[k] ==> outs[k]->0 >= drain_hi(s.len() as int, outs, front, m)
        },
        forall|i: int| 0 <= i < s.len() && s[i]
            && !(drain_lo(outs, front, m) <= i < drain_hi(s.len() as int, outs, front, m))
            ==> exists|k: int| 0 <= k < m && #[trigger] outs[k] == Some(i as usize),
        forall|k: int, l: int| 0 <= k < l < m && #[trigger] outs[k] is Some && #[trigger] outs[l] is Some ==> {
            &&& outs[k] != outs[l]
            &&& front[k] && front[l] ==> outs[k]->0 < outs[l]->0
            &&& !front[k] && !front[l] ==> outs[k]->0 > outs[l]->0
            &&& front[k] && !front[l] ==> outs[k]->0 < outs[l]->0
            &&& !front[k] && front[l] ==> outs[k]->0 > outs[l]->0
        },
        forall|k: int| 0 <= k < m && #[trigger] outs[k] is None ==> states[m] == Set::<int>::empty(),
        forall|k: int, l: int| 0 <= k < l < m && #[trigger] outs[k] is None ==> #[trigger] outs[l] is None,
    decreases m,
{
    let len = s.len() as int;
    if m == 0 {
        assert(states[0] =~= span(s, 0, len));
        lemma_count_is_set_len(s);
        assert(outs.take(0) =~= Seq::<Option<usize>>::empty());
    } else {
        lemma_drain_prefix(s, states, outs, front, m - 1);
        let lo = drain_lo(outs, front, m - 1);
        let hi = drain_hi(len, outs, front, m - 1);
        let r = outs[m - 1];
        assert(drain_step(front[m - 1], states[m - 1], states[m], r));
        lemma_step_span(s, lo, hi, front[m - 1], states[m], r);
        assert(outs.take(m).drop_last() =~= outs.take(m - 1));
        assert(outs.take(m).last() == r);
        if r is Some {
            assert(states[m - 1].contains(r->0 as int));
            assert(states[m] == states[m - 1].remove(r->0 as int));
            if front[m - 1] {
                assert(states[m] =~= span(s, drain_lo(outs, front, m), drain_hi(len, outs, front, m)));
            } else {
                assert(states[m] =~= span(s, drain_lo(outs, front, m), drain_hi(len, outs, front, m)));
            }
            assert forall|k: int| 0 <= k < m - 1 && #[trigger] outs[k] is None
                implies states[m] == Set::<int>::empty() by {
                assert(states[m - 1] == Set::<int>::empty());
                assert(states[m - 1].contains(r->0 as int));
            }
        } else {
            assert(states[m] =~= span(s, drain_lo(outs, front, m), drain_hi(len, outs, front, m)));
        }
        let lo2 = drain_lo(outs, front, m);
        let hi2 = drain_hi(len, outs, front, m);
        assert forall|i: int| 0 <= i < s.len() && s[i] && !(lo2 <= i < hi2)
            implies exists|k: int| 0 <= k < m && #[trigger] outs[k] == Some(i as usize) by {
            if lo <= i < hi {
                assert(outs[m - 1] == Some(i as usize));
            } else {
                let k = choose|k: int| 0 <= k < m - 1 && #[trigger] outs[k] == Some(i as usize);
                assert(0 <= k < m && outs[k] == Some(i as usize));
            }
        }
        assert forall|k: int, l: int| 0 <= k < l < m && #[trigger] outs[k] is Some && #[trigger] outs[l] is Some
            implies {
            &&& outs[k] != outs[l]
            &&& front[k] && front[l] ==> outs[k]->0 < outs[l]->0
            &&& !front[k] && !front[l] ==> outs[k]->0 > outs[l]->0
            &&& front[k] && !front[l] ==> outs[k]->0 < outs[l]->0
            &&& !front[k] && front[l] ==> outs[k]->0 > outs[l]->0
        } by {
            if l == m - 1 {
                assert(outs[k] is Some);
            }
        }
        assert forall|k: int, l: int| 0 <= k < l < m && #[trigger] outs[k] is None
            implies #[trigger] outs[l] is None by {
            if l == m - 1 {
                assert(states[m - 1] == Set::<int>::empty());
                if r is Some {
                    assert(states[m - 1].contains(r->0 as int));
                }
            }
        }
    }
}

/// Any series of `next` and `next_back` calls on a fresh iterator yields
/// only set indices, each at most once; `next` yields them in ascending
/// order, `next_back` in descending order, and everything `next` yields lies
/// below everything `next_back` yields. Once a call returns `None`, every
/// later call does. Drained until a call returns `None`, it has yielded every
/// set index, as many as the bitmap counts.
pub proof fn law_drain(s: Seq<bool>, states: Seq<Set<int>>, outs: Seq<Option<usize>>, front: Seq<bool>)
    requires
        is_drain(s, states, outs, front),
    ensures
        forall|k: int| 0 <= k < outs.len() && #[trigger] outs[k] is Some
            ==> outs[k]->0 < s.len() && s[outs[k]->0 as int],
        forall|k: int, l: int| 0 <= k < l < outs.len() && #[trigger] outs[k] is Some && #[trigger] outs[l] is Some ==> {
            &&& outs[k] != outs[l]
            &&& front[k] && front[l] ==> outs[k]->0 < outs[l]->0
            &&& !front[k] && !front[l] ==> outs[k]->0 > outs[l]->0
            &&& front[k] && !front[l] ==> outs[k]->0 < outs[l]->0
            &&& !front[k] && front[l] ==> outs[k]->0 > outs[l]->0
        },
        forall|k: int, l: int| 0 <= k < l < outs.len() && #[trigger] outs[k] is None ==> #[trigger] outs[l] is None,
        outs.len() > 0 && outs.last() is None ==> {
            &&& forall|i: int| 0 <= i < s.len() && s[i]
                ==> exists|k: int| 0 <= k < outs.len() && #[trigger] outs[k] == Some(i as usize)
            &&& count_some(outs) == count_true(s)
        },
{
    let n = outs.len() as int;
    lemma_drain_prefix(s, states, outs, front, n);
    if n > 0 && outs.last() is None {
        lemma_drain_prefix(s, states, outs, front, n - 1);
        let lo = drain_lo(outs, front, n - 1);
        let hi = drain_hi(s.len() as int, outs, front, n - 1);
        assert(drain_step(front[n - 1], states[n - 1], states[n], outs[n - 1]));
        lemma_step_span(s, lo, hi, front[n - 1], states[n], outs[n - 1]);
        assert(outs.take(n) =~= outs);
        assert(outs.take(n - 1) =~= outs.drop_last());
        assert forall|i: int| 0 <= i < s.len() && s[i]
            implies exists|k: int| 0 <= k < outs.len() && #[trigger] outs[k] == Some(i as usize) by {
            if lo <= i < hi {
                assert(states[n - 1].contains(i));
            }
            let k = choose|k: int| 0 <= k < n - 1 && #[trigger] outs[k] == Some(i as usize);
            assert(0 <= k < n && outs[k] == Some(i as usize));
        }
        assert(states[n - 1].len() == 0);
    }
}


proof fn lemma_count_some(outs: Seq<Option<usize>>, k: int)
    requires
        0 <= k <= outs.len(),
    ensures
        count_some(outs.take(k)) <= k,
        (forall|j: int| 0 <= j < k ==> #[trigger] outs[j] is Some) ==> count_some(outs.take(k)) == k,
    decreases k,
{
    if k > 0 {
        lemma_count_some(outs, k - 1);
        assert(outs.take(k).drop_last() =~= outs.take(k - 1));
    }
}

proof fn lemma_one_way_bounds(s: Seq<bool>, outs: Seq<Option<usize>>, front: Seq<bool>, m: int)
    requires
        front.len() == outs.len(),
        0 <= m <= outs.len(),
    ensures
        (forall|k: int| 0 <= k < outs.len() ==> #[trigger] front[k]) ==> drain_hi(s.len() as int, outs, front, m) == s.len(),
        (forall|k: int| 0 <= k < outs.len() ==> !#[trigger] front[k]) ==> drain_lo(outs, front, m) == 0,
    decreases m,
{
    if m > 0 {
        lemma_one_way_bounds(s, outs, front, m - 1);
    }
}

/// Whether the results come `Some` while indices are left and `None` after.
proof fn lemma_some_until_count(s: Seq<bool>, states: Seq<Set<int>>, outs: Seq<Option<usize>>, front: Seq<bool>, k: int)
    requires
        is_drain(s, states, outs, front),
        0 <= k < outs.len(),
    ensures
        (outs[k] is Some) == (k < count_true(s)),
{
    lemma_drain_prefix(s, states, outs, front, k);
    lemma_drain_prefix(s, states, outs, front, outs.len() as int);
    lemma_count_some(outs, k);
    assert(drain_step(front[k], states[k], states[k + 1], outs[k]));
    if outs[k] is Some {
        assert(states[k].contains(outs[k]->0 as int));
        assert forall|j: int| 0 <= j < k implies #[trigger] outs[j] is Some by {
            if outs[j] is None {
                assert(outs[k] is None);
            }
        }
    } else {
        assert(states[k].len() == 0);
    }
}

/// A drain by `next` alone yields the set indices in ascending order: the
/// first is what `first_index` gives, each later one is what `next_index`
/// gives after the one before, and exactly as many come as the bitmap
/// counts before the first `None`.
pub proof fn law_front_drain(s: Seq<bool>, states: Seq<Set<int>>, outs: Seq<Option<usize>>)
    requires
        is_drain(s, states, outs, Seq::new(outs.len(), |k: int| true)),
    ensures
        outs.len() > 0 ==> is_first_in(s, true, 0, s.len() as int, outs[0]),
        forall|k: int| 0 < k < outs.len() && outs[k - 1] is Some
            ==> is_first_in(s, true, outs[k - 1]->0 + 1, s.len() as int, #[trigger] outs[k]),
        forall|k: int| 0 <= k < outs.len() ==> ((#[trigger] outs[k] is Some) == (k < count_true(s))),
        forall|k: int, l: int| 0 <= k < l < outs.len() && #[trigger] outs[k] is Some && #[trigger] outs[l] is Some
            ==> outs[k]->0 < outs[l]->0,
{
    let front = Seq::new(outs.len(), |k: int| true);
    let len = s.len() as int;
    law_drain(s, states, outs, front);
    assert forall|k: int| 0 <= k < outs.len() implies
        is_first_in(s, true, drain_lo(outs, front, k), len, #[trigger] outs[k])
        && ((outs[k] is Some) == (k < count_true(s))) by {
        lemma_drain_prefix(s, states, outs, front, k);
        lemma_one_way_bounds(s, outs, front, k);
        assert(front[k]);
        assert(drain_step(front[k], states[k], states[k + 1], outs[k]));
        lemma_step_span(s, drain_lo(outs, front, k), len, true, states[k + 1], outs[k]);
        lemma_some_until_count(s, states, outs, front, k);
    }
    assert forall|k: int| 0 < k < outs.len() && outs[k - 1] is Some
        implies is_first_in(s, true, outs[k - 1]->0 + 1, len, #[trigger] outs[k]) by {
        assert(front[k - 1]);
        assert(drain_lo(outs, front, k) == outs[k - 1]->0 + 1);
    }
    assert forall|k: int, l: int| 0 <= k < l < outs.len() && #[trigger] outs[k] is Some && #[trigger] outs[l] is Some
        implies outs[k]->0 < outs[l]->0 by {
        assert(front[k] && front[l]);
    }
}

/// A drain by `next_back` alone yields the set indices in descending order:
/// the first is what `last_index` gives, each later one is what
/// `prev_index` gives before the one before, and exactly as many come as
/// the bitmap counts before the first `None`.
pub proof fn law_back_drain(s: Seq<bool>, states: Seq<Set<int>>, outs: Seq<Option<usize>>)
    requires
        is_drain(s, states, outs, Seq::new(outs.len(), |k: int| false)),
    ensures
        outs.len() > 0 ==> is_last_in(s, true, 0, s.len() as int, outs[0]),
        forall|k: int| 0 < k < outs.len() && outs[k - 1] is Some
            ==> is_last_in(s, true, 0, outs[k - 1]->0 as int, #[trigger] outs[k]),
        forall|k: int| 0 <= k < outs.len() ==> ((#[trigger] outs[k] is Some) == (k < count_true(s))),
        forall|k: int, l: int| 0 <= k < l < outs.len() && #[trigger] outs[k] is Some && #[trigger] outs[l] is Some
            ==> outs[k]->0 > outs[l]->0,
{
    let front = Seq::new(outs.len(), |k: int| false);
    let len = s.len() as int;
    law_drain(s, states, outs, front);
    assert forall|k: int| 0 <= k < outs.len() implies
        is_last_in(s, true, 0, drain_hi(len, outs, front, k), #[trigger] outs[k])
        && ((outs[k] is Some) == (k < count_true(s))) by {
        lemma_drain_prefix(s, states, outs, front, k);
        lemma_one_way_bounds(s, outs, front, k);
        assert(!front[k]);
        assert(drain_step(front[k], states[k], states[k + 1], outs[k]));
        lemma_step_span(s, 0, drain_hi(len, outs, front, k), false, states[k + 1], outs[k]);
        lemma_some_until_count(s, states, outs, front, k);
    }
    assert forall|k: int| 0 < k < outs.len() && outs[k - 1] is Some
        implies is_last_in(s, true, 0, outs[k - 1]->0 as int, #[trigger] outs[k]) by {
        assert(!front[k - 1]);
        assert(drain_hi(len, outs, front, k) == outs[k - 1]->0);
    }
    assert forall|k: int, l: int| 0 <= k < l < outs.len() && #[trigger] outs[k] is Some && #[trigger] outs[l] is Some
        implies outs[k]->0 > outs[l]->0 by {
        assert(!front[k] && !front[l]);
    }
}

} // verus!
