//! Bit operations on one `u128` word, the unit every store is built from.
use vstd::prelude::*;

use crate::model::{count_true, is_first_in, is_last_in};

verus! {

/// Bit `i` of `x`, for a shift amount of the word's own type.
pub open spec fn bit_at(x: u128, i: u128) -> bool {
    (x >> i) & 1u128 == 1u128
}

/// Bit `i` of `x`; `false` outside `0..128`.
pub open spec fn wbit(x: u128, i: int) -> bool {
    0 <= i < 128 && bit_at(x, i as u128)
}

/// The 128 bits of `x`, least significant first.
pub open spec fn word_bits(x: u128) -> Seq<bool> {
    Seq::new(128, |i: int| wbit(x, i))
}

proof fn lemma_bit_at_logic(a: u128, b: u128, i: u128)
    by (bit_vector)
    requires
        i < 128,
    ensures
        bit_at(a & b, i) == (bit_at(a, i) && bit_at(b, i)),
        bit_at(a | b, i) == (bit_at(a, i) || bit_at(b, i)),
        bit_at(!a, i) == !bit_at(a, i),
        !bit_at(0u128, i),
        bit_at(0xffff_ffff_ffff_ffff_ffff_ffff_ffff_ffffu128, i),
{
}

proof fn lemma_bit_at_shifts(k: u128, i: u128)
    by (bit_vector)
    requires
        k < 128,
        i < 128,
    ensures
        bit_at(1u128 << k, i) == (i == k),
        bit_at(((1u128 << k) - 1u128) as u128, i) == (i < k),
        bit_at(0xffff_ffff_ffff_ffff_ffff_ffff_ffff_ffffu128 << k, i) == (k <= i),
        1u128 <= (1u128 << k),
{
}

/// `&`, `|`, `!` and the constant words, bit by bit.
pub proof fn lemma_wbit_logic()
    ensures
        forall|a: u128, b: u128, i: int| #[trigger] wbit(a & b, i) == (wbit(a, i) && wbit(b, i)),
        forall|a: u128, b: u128, i: int| #[trigger] wbit(a | b, i) == (wbit(a, i) || wbit(b, i)),
        forall|a: u128, i: int| #[trigger] wbit(!a, i) == (0 <= i < 128 && !wbit(a, i)),
        forall|i: int| !(#[trigger] wbit(0u128, i)),
        forall|i: int| #[trigger] wbit(u128::MAX, i) == (0 <= i < 128),
{
    assert forall|a: u128, b: u128, i: int| #[trigger] wbit(a & b, i) == (wbit(a, i) && wbit(b, i))
        by {
        if 0 <= i < 128 {
            lemma_bit_at_logic(a, b, i as u128);
        }
    }
    assert forall|a: u128, b: u128, i: int| #[trigger] wbit(a | b, i) == (wbit(a, i) || wbit(b, i))
        by {
        if 0 <= i < 128 {
            lemma_bit_at_logic(a, b, i as u128);
        }
    }
    assert forall|a: u128, i: int| #[trigger] wbit(!a, i) == (0 <= i < 128 && !wbit(a, i)) by {
        if 0 <= i < 128 {
            lemma_bit_at_logic(a, a, i as u128);
        }
    }
    assert forall|i: int| !(#[trigger] wbit(0u128, i)) by {
        if 0 <= i < 128 {
            lemma_bit_at_logic(0, 0, i as u128);
        }
    }
    assert forall|i: int| #[trigger] wbit(u128::MAX, i) == (0 <= i < 128) by {
        if 0 <= i < 128 {
            lemma_bit_at_logic(0, 0, i as u128);
        }
    }
}

/// The single-bit word, the low mask and the high mask of `k`, bit by bit.
pub proof fn lemma_wbit_shifts(k: u128)
    requires
        k < 128,
    ensures
        forall|i: int| #[trigger] wbit(1u128 << k, i) == (i == k),
        forall|i: int| #[trigger] wbit(((1u128 << k) - 1u128) as u128, i) == (0 <= i < k),
        forall|i: int| #[trigger] wbit(u128::MAX << k, i) == (k <= i < 128),
        1u128 <= (1u128 << k),
{
    lemma_bit_at_shifts(k, 0);
    assert forall|i: int| #[trigger] wbit(1u128 << k, i) == (i == k) by {
        if 0 <= i < 128 {
            lemma_bit_at_shifts(k, i as u128);
        }
    }
    assert forall|i: int| #[trigger] wbit(((1u128 << k) - 1u128) as u128, i) == (0 <= i < k) by {
        if 0 <= i < 128 {
            lemma_bit_at_shifts(k, i as u128);
        }
    }
    assert forall|i: int| #[trigger] wbit(u128::MAX << k, i) == (k <= i < 128) by {
        if 0 <= i < 128 {
            lemma_bit_at_shifts(k, i as u128);
        }
    }
}

/// The powers of two that bound the narrower words.
pub proof fn lemma_word_bounds()
    by (bit_vector)
    ensures
        1u128 << 8u128 == 0x100u128,
        1u128 << 16u128 == 0x1_0000u128,
        1u128 << 32u128 == 0x1_0000_0000u128,
        1u128 << 64u128 == 0x1_0000_0000_0000_0000u128,
{
}

/// A word below `2^k` has no bit at or above `k`; setting or clearing a bit
/// below `k`, or masking it, keeps it below `2^k`.
pub proof fn lemma_word_small(x: u128, k: u128)
    requires
        k < 128,
        x < (1u128 << k),
    ensures
        forall|i: int| k <= i ==> !#[trigger] wbit(x, i),
        forall|j: u128| j < k ==> #[trigger] (x | (1u128 << j)) < (1u128 << k),
        forall|j: u128| j < k ==> #[trigger] (x & !(1u128 << j)) < (1u128 << k),
        forall|m: u128| #[trigger] (x & m) < (1u128 << k),
{
    assert forall|i: int| k <= i implies !#[trigger] wbit(x, i) by {
        if i < 128 {
            let j = i as u128;
            assert(!bit_at(x, j)) by (bit_vector)
                requires
                    k < 128,
                    k <= j < 128,
                    x < (1u128 << k),
            ;
        }
    }
    assert forall|j: u128| j < k implies #[trigger] (x | (1u128 << j)) < (1u128 << k)
        && (x & !(1u128 << j)) < (1u128 << k) by {
        assert((x | (1u128 << j)) < (1u128 << k) && (x & !(1u128 << j)) < (1u128 << k))
            by (bit_vector)
            requires
                k < 128,
                j < k,
                x < (1u128 << k),
        ;
    }
    assert forall|m: u128| #[trigger] (x & m) < (1u128 << k) by {
        assert((x & m) < (1u128 << k)) by (bit_vector)
            requires
                x < (1u128 << k),
        ;
    }
}

/// A word that is not zero has a bit set.
pub proof fn lemma_nonzero_has_bit(x: u128)
    requires
        x != 0,
    ensures
        exists|i: int| 0 <= i < 128 && #[trigger] wbit(x, i),
{
    let i = lemma_nonzero_bit_below(x, 128);
    assert(wbit(x, i as int));
}

proof fn lemma_nonzero_bit_below(x: u128, hi: u128) -> (i: u128)
    requires
        x != 0,
        hi <= 128,
        hi == 128 || x >> hi == 0,
    ensures
        i < hi,
        bit_at(x, i),
    decreases hi,
{
    assert(hi != 0) by (bit_vector)
        requires
            x != 0,
            hi <= 128,
            hi == 128 || x >> hi == 0,
    ;
    let h = (hi - 1) as u128;
    if bit_at(x, h) {
        h
    } else {
        assert(x >> h == 0) by (bit_vector)
            requires
                x != 0,
                1 <= hi <= 128,
                h == hi - 1,
                hi == 128 || x >> hi == 0,
                !bit_at(x, h),
        ;
        lemma_nonzero_bit_below(x, h)
    }
}

/// Bit `j` of a word is bit `j` of its low half, and bit `j + 64` is bit `j`
/// of its high half.
proof fn lemma_halves(x: u128, lo: u64, hi: u64, j: u64)
    by (bit_vector)
    requires
        lo == x as u64,
        hi == (x >> 64u128) as u64,
        j < 64,
    ensures
        bit_at(x, j as u128) == ((lo >> j) & 1u64 == 1u64),
        bit_at(x, (j + 64) as u128) == ((hi >> j) & 1u64 == 1u64),
        (x == 0) == (lo == 0 && hi == 0),
        (lo >> j) & 1u64 != 1u64 ==> (lo >> j) & 1u64 == 0u64,
        (hi >> j) & 1u64 != 1u64 ==> (hi >> j) & 1u64 == 0u64,
        (0u64 >> j) & 1u64 == 0u64,
{
}

/// The number of trailing zeros of `x`, from those of its two halves: 128
/// for zero; otherwise the index of the lowest set bit.
fn u128_trailing_zeros(x: u128) -> (r: u32)
    ensures
        x == 0 ==> r == 128,
        x != 0 ==> r < 128 && wbit(x, r as int) && forall|j: int| 0 <= j < r ==> !#[trigger] wbit(x, j),
{
    let lo = x as u64;
    let hi = (x >> 64u32) as u64;
    proof {
        vstd::std_specs::bits::axiom_u64_trailing_zeros(lo);
        vstd::std_specs::bits::axiom_u64_trailing_zeros(hi);
        lemma_halves(x, lo, hi, 0);
    }
    if lo != 0 {
        let t = lo.trailing_zeros();
        proof {
            lemma_halves(x, lo, hi, t as u64);
            assert forall|j: int| 0 <= j < t implies !#[trigger] wbit(x, j) by {
                lemma_halves(x, lo, hi, j as u64);
                assert((lo >> (j as u64)) & 1u64 == 0u64);
            }
        }
        t
    } else {
        let t = hi.trailing_zeros();
        proof {
            if hi != 0 {
                lemma_halves(x, lo, hi, t as u64);
                assert forall|j: int| 0 <= j < 64 + t implies !#[trigger] wbit(x, j) by {
                    if j < 64 {
                        lemma_halves(x, lo, hi, j as u64);
                    } else {
                        lemma_halves(x, lo, hi, (j - 64) as u64);
                        assert((hi >> ((j - 64) as u64)) & 1u64 == 0u64);
                    }
                }
            }
        }
        64 + t
    }
}

/// The number of leading zeros of `x`, from those of its two halves: 128
/// for zero; otherwise 127 minus the index of the highest set bit.
fn u128_leading_zeros(x: u128) -> (r: u32)
    ensures
        x == 0 ==> r == 128,
        x != 0 ==> r < 128 && wbit(x, 127 - r) && forall|j: int| 127 - r < j ==> !#[trigger] wbit(x, j),
{
    let lo = x as u64;
    let hi = (x >> 64u32) as u64;
    proof {
        vstd::std_specs::bits::axiom_u64_leading_zeros(lo);
        vstd::std_specs::bits::axiom_u64_leading_zeros(hi);
        lemma_halves(x, lo, hi, 0);
    }
    if hi != 0 {
        let l = hi.leading_zeros();
        proof {
            lemma_halves(x, lo, hi, (63 - l) as u64);
            assert forall|j: int| 127 - l < j implies !#[trigger] wbit(x, j) by {
                if j < 128 {
                    lemma_halves(x, lo, hi, (j - 64) as u64);
                    assert((hi >> ((j - 64) as u64)) & 1u64 == 0u64);
                }
            }
        }
        l
    } else {
        let l = lo.leading_zeros();
        proof {
            if lo != 0 {
                lemma_halves(x, lo, hi, (63 - l) as u64);
                assert forall|j: int| 127 - (64 + l) < j implies !#[trigger] wbit(x, j) by {
                    if j < 64 {
                        lemma_halves(x, lo, hi, j as u64);
                        assert((lo >> (j as u64)) & 1u64 == 0u64);
                    } else if j < 128 {
                        lemma_halves(x, lo, hi, (j - 64) as u64);
                    }
                }
            }
        }
        64 + l
    }
}

/// `u128::count_ones`: the number of ones in the binary representation.
#[verifier::external_body]
fn u128_count_ones(x: u128) -> (r: u32)
    ensures
        r == count_true(word_bits(x)),
{
    x.count_ones()
}

/// The word whose bits below `width` (and below 128) are set and whose
/// other bits are clear.
pub fn low_mask_u128(width: usize) -> (r: u128)
    ensures
        forall|i: int| #[trigger] wbit(r, i) == (0 <= i < width && i < 128),
{
    proof {
        lemma_wbit_logic();
    }
    if width >= 128 {
        u128::MAX
    } else if width == 0 {
        0
    } else {
        proof {
            lemma_wbit_shifts(width as u128);
        }
        (1u128 << width) - 1
    }
}

/// The value of bit `index`.
pub fn word_get(x: u128, index: usize) -> (r: bool)
    requires
        index < 128,
    ensures
        r == wbit(x, index as int),
{
    (x >> index) & 1 == 1
}

/// `x` with bit `index` set to `value`.
pub fn word_set(x: u128, index: usize, value: bool) -> (r: u128)
    requires
        index < 128,
    ensures
        r == if value { x | (1u128 << index) } else { x & !(1u128 << index) },
        word_bits(r) == word_bits(x).update(index as int, value),
{
    proof {
        lemma_wbit_logic();
        lemma_wbit_shifts(index as u128);
    }
    let r = if value {
        x | (1u128 << index)
    } else {
        x & !(1u128 << index)
    };
    assert(word_bits(r) =~= word_bits(x).update(index as int, value));
    r
}

/// The number of set bits.
pub fn word_count(x: u128) -> (r: u32)
    ensures
        r == count_true(word_bits(x)),
        r <= 128,
{
    proof {
        crate::model::lemma_count_bounds(word_bits(x));
    }
    u128_count_ones(x)
}

/// The least index in `lo..hi` at which `x` has a bit equal to `target`.
pub fn word_first(x: u128, target: bool, lo: usize, hi: usize) -> (r: Option<usize>)
    requires
        hi <= 128,
    ensures
        is_first_in(word_bits(x), target, lo as int, hi as int, r),
{
    proof {
        lemma_wbit_logic();
    }
    if lo >= hi {
        return None;
    }
    let y = if target { x } else { !x };
    proof {
        lemma_wbit_shifts(lo as u128);
    }
    let m = y & low_mask_u128(hi) & (u128::MAX << lo);
    assert(forall|i: int| #[trigger] wbit(m, i) == (lo <= i < hi && word_bits(x)[i] == target));
    if m == 0 {
        assert forall|j: int| lo <= j < hi implies word_bits(x)[j] != target by {
            assert(!wbit(m, j));
        }
        None
    } else {
        let t = u128_trailing_zeros(m);
        assert forall|j: int| lo <= j < t implies word_bits(x)[j] != target by {
            assert(!wbit(m, j));
        }
        Some(t as usize)
    }
}

/// The greatest index in `lo..hi` at which `x` has a bit equal to `target`.
pub fn word_last(x: u128, target: bool, lo: usize, hi: usize) -> (r: Option<usize>)
    requires
        hi <= 128,
    ensures
        is_last_in(word_bits(x), target, lo as int, hi as int, r),
{
    proof {
        lemma_wbit_logic();
    }
    if lo >= hi {
        return None;
    }
    let y = if target { x } else { !x };
    proof {
        lemma_wbit_shifts(lo as u128);
    }
    let m = y & low_mask_u128(hi) & (u128::MAX << lo);
    assert(forall|i: int| #[trigger] wbit(m, i) == (lo <= i < hi && word_bits(x)[i] == target));
    if m == 0 {
        assert forall|j: int| lo <= j < hi implies word_bits(x)[j] != target by {
            assert(!wbit(m, j));
        }
        None
    } else {
        let l = u128_leading_zeros(m);
        assert forall|j: int| 127 - l < j < hi implies word_bits(x)[j] != target by {
            assert(!wbit(m, j));
        }
        Some(127 - l as usize)
    }
}

} // verus!
