//! What holds of the bitmap across operations, stated over the model that
//! the operations' contracts use.
use vstd::prelude::*;

use crate::bitmap::Bitmap;
use crate::model::{
    count_true, is_first_in, is_last_in, lemma_count_bounds, lemma_count_is_set_len, set_indices,
    takes_greatest, takes_least,
};
use crate::store::BitOps;
use crate::widths::{Bits, BitsImpl};

verus! {

/// The bits after a series of `set` calls, `views[k + 1]` being `views[k]`
/// with bit `idx[k]` set to `vals[k]`: a bit that no call wrote keeps its
/// first value, and any other bit holds the value of the last call that
/// wrote it.
pub proof fn law_set_series(views: Seq<Seq<bool>>, idx: Seq<int>, vals: Seq<bool>)
    requires
        views.len() == idx.len() + 1,
        vals.len() == idx.len(),
        forall|k: int| 0 <= k < idx.len() ==> 0 <= #[trigger] idx[k] < views[0].len(),
        forall|k: int| 0 <= k < idx.len() ==> views[k + 1] == views[k].update(#[trigger] idx[k], vals[k]),
    ensures
        views.last().len() == views[0].len(),
        forall|j: int| 0 <= j < views[0].len() && (forall|k: int| 0 <= k < idx.len() ==> idx[k] != j)
            ==> #[trigger] views.last()[j] == views[0][j],
        forall|j: int, k: int| 0 <= k < idx.len() && #[trigger] idx[k] == j
            && (forall|l: int| k < l < idx.len() ==> idx[l] != j)
            ==> #[trigger] views.last()[j] == vals[k],
{
    lemma_set_prefix(views, idx, vals, idx.len() as int);
}

proof fn lemma_set_prefix(views: Seq<Seq<bool>>, idx: Seq<int>, vals: Seq<bool>, m: int)
    requires
        views.len() == idx.len() + 1,
        vals.len() == idx.len(),
        forall|k: int| 0 <= k < idx.len() ==> 0 <= #[trigger] idx[k] < views[0].len(),
        forall|k: int| 0 <= k < idx.len() ==> views[k + 1] == views[k].update(#[trigger] idx[k], vals[k]),
        0 <= m <= idx.len(),
    ensures
        views[m].len() == views[0].len(),
        forall|j: int| 0 <= j < views[0].len() && (forall|k: int| 0 <= k < m ==> idx[k] != j)
            ==> #[trigger] views[m][j] == views[0][j],
        forall|j: int, k: int| 0 <= k < m && #[trigger] idx[k] == j
            && (forall|l: int| k < l < m ==> idx[l] != j)
            ==> #[trigger] views[m][j] == vals[k],
    decreases m,
{
    if m > 0 {
        lemma_set_prefix(views, idx, vals, m - 1);
        assert(views[m] == views[m - 1].update(idx[m - 1], vals[m - 1]));
        assert forall|j: int| 0 <= j < views[0].len() && (forall|k: int| 0 <= k < m ==> idx[k] != j)
            implies #[trigger] views[m][j] == views[0][j] by {
            assert(idx[m - 1] != j);
        }
        assert forall|j: int, k: int| 0 <= k < m && #[trigger] idx[k] == j
            && (forall|l: int| k < l < m ==> idx[l] != j)
            implies #[trigger] views[m][j] == vals[k] by {
            if k < m - 1 {
                assert(idx[m - 1] != j);
            }
        }
    }
}

/// Starting from a new bitmap and setting bits only to `true`, a bit is set
/// exactly when some call set it.
pub proof fn law_set_series_from_new(views: Seq<Seq<bool>>, idx: Seq<int>)
    requires
        views.len() == idx.len() + 1,
        views[0] == Seq::new(views[0].len(), |i: int| false),
        forall|k: int| 0 <= k < idx.len() ==> 0 <= #[trigger] idx[k] < views[0].len(),
        forall|k: int| 0 <= k < idx.len() ==> views[k + 1] == views[k].update(#[trigger] idx[k], true),
    ensures
        views.last().len() == views[0].len(),
        forall|j: int| 0 <= j < views[0].len() ==>
            (#[trigger] views.last()[j] <==> exists|k: int| 0 <= k < idx.len() && idx[k] == j),
{
    lemma_set_true_prefix(views, idx, idx.len() as int);
}

proof fn lemma_set_true_prefix(views: Seq<Seq<bool>>, idx: Seq<int>, m: int)
    requires
        views.len() == idx.len() + 1,
        views[0] == Seq::new(views[0].len(), |i: int| false),
        forall|k: int| 0 <= k < idx.len() ==> 0 <= #[trigger] idx[k] < views[0].len(),
        forall|k: int| 0 <= k < idx.len() ==> views[k + 1] == views[k].update(#[trigger] idx[k], true),
        0 <= m <= idx.len(),
    ensures
        views[m].len() == views[0].len(),
        forall|j: int| 0 <= j < views[0].len() ==>
            (#[trigger] views[m][j] <==> exists|k: int| 0 <= k < m && idx[k] == j),
    decreases m,
{
    if m > 0 {
        lemma_set_true_prefix(views, idx, m - 1);
        assert(views[m] == views[m - 1].update(idx[m - 1], true));
        assert forall|j: int| 0 <= j < views[0].len() implies
            (#[trigger] views[m][j] <==> exists|k: int| 0 <= k < m && idx[k] == j) by {
            if j == idx[m - 1] {
                assert(idx[m - 1] == j);
            } else {
                if exists|k: int| 0 <= k < m && idx[k] == j {
                    let k = choose|k: int| 0 <= k < m && idx[k] == j;
                    assert(k < m - 1);
                }
            }
        }
    }
}

/// A bitmap rebuilt from its own backing store is the same bitmap.
pub proof fn law_value_round_trip<const N: usize>(b: Bitmap<N>, v: <BitsImpl<N> as Bits<N>>::Store)
    where BitsImpl<N>: Bits<N>
    requires
        v.bits() == Seq::new(
            <<BitsImpl<N> as Bits<N>>::Store as BitOps>::capacity(),
            |i: int| i < N && b@[i],
        ),
    ensures
        v.bits().take(N as int) == b@,
{
    <BitsImpl<N> as Bits<N>>::lemma_width();
    assert(v.bits().take(N as int) =~= b@);
}

/// A bitmap is empty exactly when it counts no set bit, and full exactly when
/// it counts `N` of them; it never counts more.
pub proof fn law_count_empty_full(s: Seq<bool>)
    ensures
        count_true(s) <= s.len(),
        (count_true(s) == 0) == (forall|i: int| 0 <= i < s.len() ==> !s[i]),
        (count_true(s) == s.len()) == (forall|i: int| 0 <= i < s.len() ==> s[i]),
{
    lemma_count_bounds(s);
}

/// A fresh iterator yields as many indices as the bitmap counts set bits.
pub proof fn law_iter_yields_len(s: Seq<bool>)
    ensures
        set_indices(s).finite(),
        set_indices(s).len() == count_true(s),
{
    lemma_count_is_set_len(s);
}

/// Each step, from either end, yields an index that no later step yields
/// again, and leaves exactly one fewer to come: a drain in any order of ends
/// yields every set bit exactly once.
pub proof fn law_iter_each_once(before: Set<int>, after: Set<int>, i: usize)
    requires
        before.finite(),
        takes_least(before, after, Some(i)) || takes_greatest(before, after, Some(i)),
    ensures
        before.contains(i as int),
        !after.contains(i as int),
        after.subset_of(before),
        after.finite(),
        after.len() + 1 == before.len(),
{
}

/// For two set bits `i < j` of a bitmap of `n` bits, `next_index(i)` is `j`
/// exactly when `prev_index(j)` is `i`: both say that no bit between them is
/// set.
pub proof fn law_next_prev_inverse(s: Seq<bool>, i: usize, j: usize)
    requires
        i < j < s.len(),
        s[i as int],
        s[j as int],
    ensures
        is_first_in(s, true, i + 1, s.len() as int, Some(j)) == is_last_in(s, true, 0, j as int, Some(i)),
        is_first_in(s, true, i + 1, s.len() as int, Some(j)) == (forall|k: int| i < k < j ==> !s[k]),
{
}

} // verus!
