//! Bit operations on an array of `u128` words, the store of bitmaps wider
//! than one word. Bit `i` lives in word `i / 128` at position `i % 128`.
use vstd::prelude::*;

use crate::model::{count_true, is_first_in, is_last_in, lemma_count_append, lemma_count_bounds};
use crate::word::{
    lemma_nonzero_has_bit, lemma_wbit_logic, low_mask_u128, wbit, word_bits, word_count,
    word_first, word_get, word_last, word_set,
};

verus! {

broadcast use vstd::array::group_array_axioms;

/// The bits of the words `s`, least significant word first.
pub open spec fn words_bits(s: Seq<u128>) -> Seq<bool> {
    Seq::new(s.len() * 128, |i: int| wbit(s[i / 128], i % 128))
}

/// Bit `j` of word `wi` is bit `wi * 128 + j` of the whole.
pub proof fn lemma_words_bit(s: Seq<u128>, wi: int, j: int)
    requires
        0 <= wi < s.len(),
        0 <= j < 128,
    ensures
        0 <= wi * 128 + j < s.len() * 128,
        words_bits(s)[wi * 128 + j] == word_bits(s[wi])[j],
{
    vstd::arithmetic::div_mod::lemma_fundamental_div_mod_converse(wi * 128 + j, 128, wi, j);
}

/// Every bit of the whole is some bit of some word.
pub proof fn lemma_words_index(s: Seq<u128>, i: int)
    requires
        0 <= i < s.len() * 128,
    ensures
        0 <= i / 128 < s.len(),
        i == (i / 128) * 128 + i % 128,
        0 <= i % 128 < 128,
        words_bits(s)[i] == word_bits(s[i / 128])[i % 128],
{
}

/// The bits of words `0..wi` followed by those of word `wi` are the bits of
/// words `0..wi + 1`.
proof fn lemma_words_take(s: Seq<u128>, wi: int)
    requires
        0 <= wi < s.len(),
    ensures
        words_bits(s).take((wi + 1) * 128) == words_bits(s).take(wi * 128) + word_bits(s[wi]),
{
    let a = words_bits(s).take((wi + 1) * 128);
    let b = words_bits(s).take(wi * 128) + word_bits(s[wi]);
    assert forall|i: int| 0 <= i < a.len() implies a[i] == b[i] by {
        if i >= wi * 128 {
            lemma_words_bit(s, wi, i - wi * 128);
        }
    }
    assert(a =~= b);
}

/// The value of bit `index`.
pub fn words_get<const W: usize>(a: [u128; W], index: usize) -> (r: bool)
    requires
        index < W * 128,
    ensures
        r == words_bits(a@)[index as int],
{
    proof {
        lemma_words_index(a@, index as int);
    }
    word_get(a[index / 128], index % 128)
}

/// Sets bit `index` to `value`, returning its previous value.
pub fn words_set<const W: usize>(a: &mut [u128; W], index: usize, value: bool) -> (prev: bool)
    requires
        index < W * 128,
    ensures
        prev == words_bits(old(a)@)[index as int],
        words_bits(final(a)@) == words_bits(old(a)@).update(index as int, value),
{
    let prev = words_get(*a, index);
    let word = index / 128;
    let bit = index % 128;
    let w = word_set(a[word], bit, value);
    a[word] = w;
    proof {
        let o = words_bits(old(a)@);
        let n = words_bits(a@);
        assert forall|i: int| 0 <= i < n.len() implies n[i] == o.update(index as int, value)[i] by {
            lemma_words_index(old(a)@, i);
            lemma_words_index(a@, i);
            lemma_words_index(old(a)@, index as int);
        }
        assert(n =~= o.update(index as int, value));
    }
    prev
}

/// The number of set bits.
pub fn words_count<const W: usize>(a: [u128; W]) -> (r: usize)
    requires
        W <= 8,
    ensures
        r == count_true(words_bits(a@)),
{
    let mut n: usize = 0;
    let mut wi: usize = 0;
    assert(words_bits(a@).take(0) =~= Seq::<bool>::empty());
    while wi < W
        invariant
            wi <= W <= 8,
            n == count_true(words_bits(a@).take(wi * 128)),
            n <= wi * 128,
        decreases W - wi,
    {
        proof {
            lemma_words_take(a@, wi as int);
            lemma_count_append(words_bits(a@).take(wi * 128), word_bits(a@[wi as int]));
        }
        n = n + word_count(a[wi]) as usize;
        wi = wi + 1;
    }
    assert(words_bits(a@).take(W * 128) =~= words_bits(a@));
    n
}

/// Whether every bit is clear.
pub fn words_is_empty<const W: usize>(a: [u128; W]) -> (r: bool)
    ensures
        r == (forall|i: int| 0 <= i < W * 128 ==> !words_bits(a@)[i]),
{
    let mut wi: usize = 0;
    while wi < W
        invariant
            wi <= W,
            forall|i: int| 0 <= i < wi * 128 ==> !words_bits(a@)[i],
        decreases W - wi,
    {
        if a[wi] != 0 {
            proof {
                lemma_nonzero_has_bit(a@[wi as int]);
                let j = choose|j: int| 0 <= j < 128 && wbit(a@[wi as int], j);
                lemma_words_bit(a@, wi as int, j);
            }
            return false;
        }
        proof {
            lemma_wbit_logic();
            assert forall|i: int| 0 <= i < (wi + 1) * 128 implies !words_bits(a@)[i] by {
                lemma_words_index(a@, i);
            }
        }
        wi = wi + 1;
    }
    true
}

/// The least index in `lo..hi` whose bit is `target`.
pub fn words_first<const W: usize>(a: [u128; W], target: bool, lo: usize, hi: usize) -> (r: Option<usize>)
    requires
        hi <= W * 128,
        W <= 8,
    ensures
        is_first_in(words_bits(a@), target, lo as int, hi as int, r),
{
    if lo >= hi {
        return None;
    }
    let mut wi: usize = lo / 128;
    while wi < W
        invariant
            lo < hi <= W * 128,
            W <= 8,
            lo / 128 <= wi <= W,
            forall|j: int| lo <= j < wi * 128 && j < hi ==> words_bits(a@)[j] != target,
        decreases W - wi,
    {
        let base = wi * 128;
        if base >= hi {
            return None;
        }
        let wlo = if lo > base { lo - base } else { 0 };
        let whi = if hi - base >= 128 { 128 } else { hi - base };
        let found = word_first(a[wi], target, wlo, whi);
        proof {
            assert forall|j: int| lo <= j < (wi + 1) * 128 && j < hi && (found is None || j < base + found->0)
                implies words_bits(a@)[j] != target by {
                if j >= base {
                    lemma_words_bit(a@, wi as int, j - base);
                }
            }
        }
        match found {
            Some(b) => {
                proof {
                    lemma_words_bit(a@, wi as int, b as int);
                }
                return Some(base + b);
            },
            None => {},
        }
        wi = wi + 1;
    }
    None
}

/// The greatest index in `0..hi` whose bit is `target`.
pub fn words_last<const W: usize>(a: [u128; W], target: bool, hi: usize) -> (r: Option<usize>)
    requires
        hi <= W * 128,
        W <= 8,
    ensures
        is_last_in(words_bits(a@), target, 0, hi as int, r),
{
    if hi == 0 {
        return None;
    }
    let mut wi: usize = (hi - 1) / 128 + 1;
    while wi > 0
        invariant
            0 < hi <= W * 128,
            W <= 8,
            wi <= W,
            wi * 128 < hi + 128,
            forall|j: int| wi * 128 <= j < hi ==> words_bits(a@)[j] != target,
        decreases wi,
    {
        wi = wi - 1;
        let base = wi * 128;
        let whi = if hi - base >= 128 { 128 } else { hi - base };
        let found = word_last(a[wi], target, 0, whi);
        proof {
            assert forall|j: int| base <= j < hi && (found is None || base + found->0 < j)
                implies words_bits(a@)[j] != target by {
                if j < base + 128 {
                    lemma_words_bit(a@, wi as int, j - base);
                }
            }
        }
        match found {
            Some(b) => {
                proof {
                    lemma_words_bit(a@, wi as int, b as int);
                }
                return Some(base + b);
            },
            None => {},
        }
    }
    None
}

/// The words with every bit at or above `width` cleared.
pub fn words_mask<const W: usize>(a: [u128; W], width: usize) -> (r: [u128; W])
    requires
        W <= 8,
    ensures
        words_bits(r@) == Seq::new((W * 128) as nat, |i: int| i < width && words_bits(a@)[i]),
{
    let mut r = a;
    let mut wi: usize = 0;
    while wi < W
        invariant
            wi <= W <= 8,
            r@.len() == W,
            forall|k: int| wi <= k < W ==> r@[k] == a@[k],
            forall|i: int| 0 <= i < wi * 128 ==> words_bits(r@)[i] == (i < width && words_bits(a@)[i]),
        decreases W - wi,
    {
        let base = wi * 128;
        let m = low_mask_u128(width.saturating_sub(base));
        let w = r[wi] & m;
        let ghost before = r@;
        r[wi] = w;
        proof {
            lemma_wbit_logic();
            assert forall|i: int| 0 <= i < (wi + 1) * 128 implies words_bits(r@)[i] == (i < width && words_bits(a@)[i]) by {
                lemma_words_index(r@, i);
                lemma_words_index(a@, i);
                lemma_words_index(before, i);
            }
        }
        wi = wi + 1;
    }
    proof {
        assert(words_bits(r@) =~= Seq::new((W * 128) as nat, |i: int| i < width && words_bits(a@)[i]));
    }
    r
}

} // verus!
