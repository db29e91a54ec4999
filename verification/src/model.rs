//! The mathematical model: a bitmap is a sequence of booleans.
use vstd::prelude::*;

verus! {

/// The number of entries of `s` that are `true`.
pub open spec fn count_true(s: Seq<bool>) -> nat
    decreases s.len(),
{
    if s.len() == 0 {
        0
    } else {
        count_true(s.drop_last()) + if s.last() { 1nat } else { 0nat }
    }
}

/// The lesser of `a` and `b`.
pub open spec fn lesser(a: int, b: int) -> int {
    if a < b { a } else { b }
}

/// `r` is the least index in `lo..hi` whose entry is `target`, or `None`
/// when no index in that range has it.
pub open spec fn is_first_in(s: Seq<bool>, target: bool, lo: int, hi: int, r: Option<usize>) -> bool {
    match r {
        Some(i) => lo <= i < hi && s[i as int] == target
            && forall|j: int| lo <= j < i ==> s[j] != target,
        None => forall|j: int| lo <= j < hi ==> s[j] != target,
    }
}

/// `r` is the greatest index in `lo..hi` whose entry is `target`, or `None`
/// when no index in that range has it.
pub open spec fn is_last_in(s: Seq<bool>, target: bool, lo: int, hi: int, r: Option<usize>) -> bool {
    match r {
        Some(i) => lo <= i < hi && s[i as int] == target
            && forall|j: int| i < j < hi ==> s[j] != target,
        None => forall|j: int| lo <= j < hi ==> s[j] != target,
    }
}

/// The indices whose entry is `true`.
pub open spec fn set_indices(s: Seq<bool>) -> Set<int> {
    Set::new(|i: int| 0 <= i < s.len() && s[i])
}

/// One step from the front of an iteration: `r` is the least index of
/// `before`, and `after` is `before` without it; or `before` was empty, `r`
/// is `None` and nothing is left.
pub open spec fn takes_least(before: Set<int>, after: Set<int>, r: Option<usize>) -> bool {
    match r {
        None => before == Set::<int>::empty() && after == Set::<int>::empty(),
        Some(i) => before.contains(i as int) && (forall|j: int| before.contains(j) ==> i <= j)
            && after == before.remove(i as int),
    }
}

/// One step from the back of an iteration: `r` is the greatest index of
/// `before`, and `after` is `before` without it; or `before` was empty, `r`
/// is `None` and nothing is left.
pub open spec fn takes_greatest(before: Set<int>, after: Set<int>, r: Option<usize>) -> bool {
    match r {
        None => before == Set::<int>::empty() && after == Set::<int>::empty(),
        Some(i) => before.contains(i as int) && (forall|j: int| before.contains(j) ==> j <= i)
            && after == before.remove(i as int),
    }
}

/// Counting distributes over concatenation.
pub proof fn lemma_count_append(a: Seq<bool>, b: Seq<bool>)
    ensures
        count_true(a + b) == count_true(a) + count_true(b),
    decreases b.len(),
{
    if b.len() == 0 {
        assert(a + b =~= a);
    } else {
        assert((a + b).drop_last() =~= a + b.drop_last());
        lemma_count_append(a, b.drop_last());
    }
}

/// A sequence has no `true` entry exactly when its count is zero, and
/// only `true` entries exactly when its count is its length.
pub proof fn lemma_count_bounds(s: Seq<bool>)
    ensures
        count_true(s) <= s.len(),
        (count_true(s) == 0) == (forall|j: int| 0 <= j < s.len() ==> !s[j]),
        (count_true(s) == s.len()) == (forall|j: int| 0 <= j < s.len() ==> s[j]),
    decreases s.len(),
{
    if s.len() > 0 {
        let t = s.drop_last();
        lemma_count_bounds(t);
        assert forall|j: int| 0 <= j < t.len() implies t[j] == s[j] by {}
        if count_true(s) == 0 {
            assert forall|j: int| 0 <= j < s.len() implies !s[j] by {
                if j < t.len() {
                    assert(t[j] == s[j]);
                }
            }
        }
        if count_true(s) == s.len() {
            assert forall|j: int| 0 <= j < s.len() implies s[j] by {
                if j < t.len() {
                    assert(t[j] == s[j]);
                }
            }
        }
    }
}

/// Entries past `n` that are all `false` do not add to the count.
pub proof fn lemma_count_take(s: Seq<bool>, n: int)
    requires
        0 <= n <= s.len(),
        forall|j: int| n <= j < s.len() ==> !s[j],
    ensures
        count_true(s) == count_true(s.take(n)),
{
    let rest = s.subrange(n, s.len() as int);
    assert(s =~= s.take(n) + rest);
    lemma_count_append(s.take(n), rest);
    lemma_count_bounds(rest);
}

/// The count of `true` entries is the size of the set of their indices.
pub proof fn lemma_count_is_set_len(s: Seq<bool>)
    ensures
        set_indices(s).finite(),
        set_indices(s).len() == count_true(s),
    decreases s.len(),
{
    if s.len() == 0 {
        assert(set_indices(s) =~= Set::<int>::empty());
    } else {
        let t = s.drop_last();
        lemma_count_is_set_len(t);
        let n = t.len() as int;
        if s.last() {
            assert(set_indices(s) =~= set_indices(t).insert(n));
        } else {
            assert(set_indices(s) =~= set_indices(t));
        }
    }
}

} // verus!
