//! The stores a bitmap keeps its bits in, and what each operation does to
//! them.
use vstd::prelude::*;

use crate::model::{count_true, is_first_in, is_last_in, lesser, lemma_count_bounds, lemma_count_take};
use crate::words::{
    words_bits, words_count, words_first, words_get, words_is_empty, words_last, words_mask,
    words_set,
};
use crate::word::{
    lemma_nonzero_has_bit, lemma_wbit_logic, lemma_word_bounds, lemma_word_small, low_mask_u128,
    wbit, word_bits, word_count, word_first, word_get, word_last, word_set,
};

verus! {

broadcast use vstd::array::group_array_axioms;

/// Bit operations on the storage backing a [`Bitmap`](crate::Bitmap).
///
/// A store holds `capacity()` bits, seen as the sequence `bits()`. The
/// searches look only below a `width`, the number of bits the bitmap uses.
pub trait BitOps: Copy + Eq + core::fmt::Debug + Sized {
    /// How many bits the store holds.
    spec fn capacity() -> nat;

    /// The bits, least significant first.
    spec fn bits(self) -> Seq<bool>;

    /// Every store holds between 1 and 1024 bits.
    proof fn lemma_capacity()
        ensures
            1 <= Self::capacity() <= 1024,
    ;

    /// The bits are as many as the store holds.
    proof fn lemma_bits(self)
        ensures
            self.bits().len() == Self::capacity(),
    ;

    /// The store with every bit clear.
    fn empty() -> (r: Self)
        ensures
            r.bits() == Seq::new(Self::capacity(), |i: int| false),
    ;

    fn get(self, index: usize) -> (r: bool)
        requires
            index < Self::capacity(),
        ensures
            r == self.bits()[index as int],
    ;

    /// Sets the bit, returning its previous value.
    fn set(&mut self, index: usize, value: bool) -> (prev: bool)
        requires
            index < Self::capacity(),
        ensures
            prev == old(self).bits()[index as int],
            final(self).bits() == old(self).bits().update(index as int, value),
    ;

    fn count(self) -> (r: usize)
        ensures
            r == count_true(self.bits()),
    ;

    fn is_empty(self) -> (r: bool)
        ensures
            r == (forall|i: int| 0 <= i < Self::capacity() ==> !self.bits()[i]),
    ;

    /// Whether `last_index` and `prev_index` take a search bound of `width`:
    /// the word stores take every width, the arrays of words only widths up
    /// to their capacity.
    spec fn back_width_ok(width: int) -> bool;

    /// Every width up to the capacity is taken.
    proof fn lemma_back_width(width: int)
        requires
            0 <= width <= Self::capacity(),
        ensures
            Self::back_width_ok(width),
    ;

    /// Index of the first set bit below `width`.
    fn first_index(self, width: usize) -> (r: Option<usize>)
        ensures
            is_first_in(self.bits(), true, 0, lesser(width as int, Self::capacity() as int), r),
    ;

    /// Index of the first set bit strictly after `from`, below `width`.
    fn next_index(self, from: usize, width: usize) -> (r: Option<usize>)
        ensures
            is_first_in(self.bits(), true, from + 1, lesser(width as int, Self::capacity() as int), r),
    ;

    /// Index of the last set bit below `width`.
    fn last_index(self, width: usize) -> (r: Option<usize>)
        requires
            Self::back_width_ok(width as int),
        ensures
            is_last_in(self.bits(), true, 0, lesser(width as int, Self::capacity() as int), r),
    ;

    /// The bound below which `prev_index(before, width)` searches, before
    /// the capacity cuts it: `before` and `width` for the word stores and the
    /// arrays of words; `before` alone for the one-bit store, which ignores
    /// `width`.
    spec fn prev_bound(before: int, width: int) -> int;

    /// For a width from 1 to the capacity, every store searches the same
    /// bits in `prev_index`, and takes that bound.
    proof fn lemma_prev_bound(before: int, width: int)
        requires
            0 <= before,
            1 <= width <= Self::capacity(),
        ensures
            lesser(Self::prev_bound(before, width), Self::capacity() as int)
                == lesser(before, width),
            Self::back_width_ok(Self::prev_bound(before, width)),
    ;

    /// Index of the last set bit strictly before `before`, below the bound
    /// `prev_bound` gives.
    fn prev_index(self, before: usize, width: usize) -> (r: Option<usize>)
        requires
            Self::back_width_ok(Self::prev_bound(before as int, width as int)),
        ensures
            is_last_in(
                self.bits(),
                true,
                0,
                lesser(Self::prev_bound(before as int, width as int), Self::capacity() as int),
                r,
            ),
    ;

    /// Index of the first clear bit below `width`.
    fn first_false_index(self, width: usize) -> (r: Option<usize>)
        ensures
            is_first_in(self.bits(), false, 0, lesser(width as int, Self::capacity() as int), r),
    ;

    /// Index of the first clear bit strictly after `from`, below `width`.
    fn next_false_index(self, from: usize, width: usize) -> (r: Option<usize>)
        ensures
            is_first_in(self.bits(), false, from + 1, lesser(width as int, Self::capacity() as int), r),
    ;

    /// Clear every bit at or above `width` and return the result.
    fn mask(self, width: usize) -> (r: Self)
        ensures
            r.bits() == Seq::new(Self::capacity(), |i: int| i < width && self.bits()[i]),
    ;
}

impl BitOps for u8 {
    open spec fn capacity() -> nat {
        8
    }

    open spec fn bits(self) -> Seq<bool> {
        word_bits(self as u128).take(8)
    }

    proof fn lemma_capacity() {
    }

    proof fn lemma_bits(self) {
    }

    fn empty() -> (r: Self) {
        proof {
            lemma_wbit_logic();
        }
        let r: u8 = 0;
        assert(r.bits() =~= Seq::new(8, |i: int| false));
        r
    }

    fn get(self, index: usize) -> (r: bool) {
        word_get(self as u128, index)
    }

    fn set(&mut self, index: usize, value: bool) -> (prev: bool) {
        let prev = self.get(index);
        let x = *self as u128;
        proof {
            lemma_word_bounds();
            lemma_word_small(x, 8);
        }
        let w = word_set(x, index, value);
        assert(w < 0x100);
        *self = w as u8;
        assert(self.bits() =~= old(self).bits().update(index as int, value));
        prev
    }

    fn count(self) -> (r: usize) {
        let x = self as u128;
        proof {
            lemma_word_bounds();
            lemma_word_small(x, 8);
            lemma_count_take(word_bits(x), 8);
        }
        word_count(x) as usize
    }

    fn is_empty(self) -> (r: bool) {
        proof {
            lemma_wbit_logic();
            let x = self as u128;
            if x != 0 {
                lemma_word_bounds();
                lemma_word_small(x, 8);
                lemma_nonzero_has_bit(x);
                let i = choose|i: int| 0 <= i < 128 && wbit(x, i);
                assert(self.bits()[i]);
            }
        }
        self == 0
    }

    open spec fn prev_bound(before: int, width: int) -> int {
        lesser(before, width)
    }

    proof fn lemma_prev_bound(before: int, width: int) {
    }

    open spec fn back_width_ok(width: int) -> bool {
        true
    }

    proof fn lemma_back_width(width: int) {
    }

    fn first_index(self, width: usize) -> (r: Option<usize>) {
        let hi = if width < 8 { width } else { 8 };
        word_first(self as u128, true, 0, hi)
    }

    fn next_index(self, from: usize, width: usize) -> (r: Option<usize>) {
        if from >= width {
            return None;
        }
        let hi = if width < 8 { width } else { 8 };
        word_first(self as u128, true, from + 1, hi)
    }

    fn last_index(self, width: usize) -> (r: Option<usize>) {
        let hi = if width < 8 { width } else { 8 };
        word_last(self as u128, true, 0, hi)
    }

    fn prev_index(self, before: usize, width: usize) -> (r: Option<usize>) {
        let hi = if before < width { before } else { width };
        let hi = if hi < 8 { hi } else { 8 };
        word_last(self as u128, true, 0, hi)
    }

    fn first_false_index(self, width: usize) -> (r: Option<usize>) {
        let hi = if width < 8 { width } else { 8 };
        word_first(self as u128, false, 0, hi)
    }

    fn next_false_index(self, from: usize, width: usize) -> (r: Option<usize>) {
        if from >= width {
            return None;
        }
        let hi = if width < 8 { width } else { 8 };
        word_first(self as u128, false, from + 1, hi)
    }

    fn mask(self, width: usize) -> (r: Self) {
        let x = self as u128;
        proof {
            lemma_word_bounds();
            lemma_word_small(x, 8);
            lemma_wbit_logic();
        }
        let m = x & low_mask_u128(width);
        let r = m as u8;
        assert(r.bits() =~= Seq::new(8, |i: int| i < width && self.bits()[i]));
        r
    }
}

impl BitOps for u16 {
    open spec fn capacity() -> nat {
        16
    }

    open spec fn bits(self) -> Seq<bool> {
        word_bits(self as u128).take(16)
    }

    proof fn lemma_capacity() {
    }

    proof fn lemma_bits(self) {
    }

    fn empty() -> (r: Self) {
        proof {
            lemma_wbit_logic();
        }
        let r: u16 = 0;
        assert(r.bits() =~= Seq::new(16, |i: int| false));
        r
    }

    fn get(self, index: usize) -> (r: bool) {
        word_get(self as u128, index)
    }

    fn set(&mut self, index: usize, value: bool) -> (prev: bool) {
        let prev = self.get(index);
        let x = *self as u128;
        proof {
            lemma_word_bounds();
            lemma_word_small(x, 16);
        }
        let w = word_set(x, index, value);
        assert(w < 0x1_0000);
        *self = w as u16;
        assert(self.bits() =~= old(self).bits().update(index as int, value));
        prev
    }

    fn count(self) -> (r: usize) {
        let x = self as u128;
        proof {
            lemma_word_bounds();
            lemma_word_small(x, 16);
            lemma_count_take(word_bits(x), 16);
        }
        word_count(x) as usize
    }

    fn is_empty(self) -> (r: bool) {
        proof {
            lemma_wbit_logic();
            let x = self as u128;
            if x != 0 {
                lemma_word_bounds();
                lemma_word_small(x, 16);
                lemma_nonzero_has_bit(x);
                let i = choose|i: int| 0 <= i < 128 && wbit(x, i);
                assert(self.bits()[i]);
            }
        }
        self == 0
    }

    open spec fn prev_bound(before: int, width: int) -> int {
        lesser(before, width)
    }

    proof fn lemma_prev_bound(before: int, width: int) {
    }

    open spec fn back_width_ok(width: int) -> bool {
        true
    }

    proof fn lemma_back_width(width: int) {
    }

    fn first_index(self, width: usize) -> (r: Option<usize>) {
        let hi = if width < 16 { width } else { 16 };
        word_first(self as u128, true, 0, hi)
    }

    fn next_index(self, from: usize, width: usize) -> (r: Option<usize>) {
        if from >= width {
            return None;
        }
        let hi = if width < 16 { width } else { 16 };
        word_first(self as u128, true, from + 1, hi)
    }

    fn last_index(self, width: usize) -> (r: Option<usize>) {
        let hi = if width < 16 { width } else { 16 };
        word_last(self as u128, true, 0, hi)
    }

    fn prev_index(self, before: usize, width: usize) -> (r: Option<usize>) {
        let hi = if before < width { before } else { width };
        let hi = if hi < 16 { hi } else { 16 };
        word_last(self as u128, true, 0, hi)
    }

    fn first_false_index(self, width: usize) -> (r: Option<usize>) {
        let hi = if width < 16 { width } else { 16 };
        word_first(self as u128, false, 0, hi)
    }

    fn next_false_index(self, from: usize, width: usize) -> (r: Option<usize>) {
        if from >= width {
            return None;
        }
        let hi = if width < 16 { width } else { 16 };
        word_first(self as u128, false, from + 1, hi)
    }

    fn mask(self, width: usize) -> (r: Self) {
        let x = self as u128;
        proof {
            lemma_word_bounds();
            lemma_word_small(x, 16);
            lemma_wbit_logic();
        }
        let m = x & low_mask_u128(width);
        let r = m as u16;
        assert(r.bits() =~= Seq::new(16, |i: int| i < width && self.bits()[i]));
        r
    }
}

impl BitOps for u32 {
    open spec fn capacity() -> nat {
        32
    }

    open spec fn bits(self) -> Seq<bool> {
        word_bits(self as u128).take(32)
    }

    proof fn lemma_capacity() {
    }

    proof fn lemma_bits(self) {
    }

    fn empty() -> (r: Self) {
        proof {
            lemma_wbit_logic();
        }
        let r: u32 = 0;
        assert(r.bits() =~= Seq::new(32, |i: int| false));
        r
    }

    fn get(self, index: usize) -> (r: bool) {
        word_get(self as u128, index)
    }

    fn set(&mut self, index: usize, value: bool) -> (prev: bool) {
        let prev = self.get(index);
        let x = *self as u128;
        proof {
            lemma_word_bounds();
            lemma_word_small(x, 32);
        }
        let w = word_set(x, index, value);
        assert(w < 0x1_0000_0000);
        *self = w as u32;
        assert(self.bits() =~= old(self).bits().update(index as int, value));
        prev
    }

    fn count(self) -> (r: usize) {
        let x = self as u128;
        proof {
            lemma_word_bounds();
            lemma_word_small(x, 32);
            lemma_count_take(word_bits(x), 32);
        }
        word_count(x) as usize
    }

    fn is_empty(self) -> (r: bool) {
        proof {
            lemma_wbit_logic();
            let x = self as u128;
            if x != 0 {
                lemma_word_bounds();
                lemma_word_small(x, 32);
                lemma_nonzero_has_bit(x);
                let i = choose|i: int| 0 <= i < 128 && wbit(x, i);
                assert(self.bits()[i]);
            }
        }
        self == 0
    }

    open spec fn prev_bound(before: int, width: int) -> int {
        lesser(before, width)
    }

    proof fn lemma_prev_bound(before: int, width: int) {
    }

    open spec fn back_width_ok(width: int) -> bool {
        true
    }

    proof fn lemma_back_width(width: int) {
    }

    fn first_index(self, width: usize) -> (r: Option<usize>) {
        let hi = if width < 32 { width } else { 32 };
        word_first(self as u128, true, 0, hi)
    }

    fn next_index(self, from: usize, width: usize) -> (r: Option<usize>) {
        if from >= width {
            return None;
        }
        let hi = if width < 32 { width } else { 32 };
        word_first(self as u128, true, from + 1, hi)
    }

    fn last_index(self, width: usize) -> (r: Option<usize>) {
        let hi = if width < 32 { width } else { 32 };
        word_last(self as u128, true, 0, hi)
    }

    fn prev_index(self, before: usize, width: usize) -> (r: Option<usize>) {
        let hi = if before < width { before } else { width };
        let hi = if hi < 32 { hi } else { 32 };
        word_last(self as u128, true, 0, hi)
    }

    fn first_false_index(self, width: usize) -> (r: Option<usize>) {
        let hi = if width < 32 { width } else { 32 };
        word_first(self as u128, false, 0, hi)
    }

    fn next_false_index(self, from: usize, width: usize) -> (r: Option<usize>) {
        if from >= width {
            return None;
        }
        let hi = if width < 32 { width } else { 32 };
        word_first(self as u128, false, from + 1, hi)
    }

    fn mask(self, width: usize) -> (r: Self) {
        let x = self as u128;
        proof {
            lemma_word_bounds();
            lemma_word_small(x, 32);
            lemma_wbit_logic();
        }
        let m = x & low_mask_u128(width);
        let r = m as u32;
        assert(r.bits() =~= Seq::new(32, |i: int| i < width && self.bits()[i]));
        r
    }
}

impl BitOps for u64 {
    open spec fn capacity() -> nat {
        64
    }

    open spec fn bits(self) -> Seq<bool> {
        word_bits(self as u128).take(64)
    }

    proof fn lemma_capacity() {
    }

    proof fn lemma_bits(self) {
    }

    fn empty() -> (r: Self) {
        proof {
            lemma_wbit_logic();
        }
        let r: u64 = 0;
        assert(r.bits() =~= Seq::new(64, |i: int| false));
        r
    }

    fn get(self, index: usize) -> (r: bool) {
        word_get(self as u128, index)
    }

    fn set(&mut self, index: usize, value: bool) -> (prev: bool) {
        let prev = self.get(index);
        let x = *self as u128;
        proof {
            lemma_word_bounds();
            lemma_word_small(x, 64);
        }
        let w = word_set(x, index, value);
        assert(w < 0x1_0000_0000_0000_0000);
        *self = w as u64;
        assert(self.bits() =~= old(self).bits().update(index as int, value));
        prev
    }

    fn count(self) -> (r: usize) {
        let x = self as u128;
        proof {
            lemma_word_bounds();
            lemma_word_small(x, 64);
            lemma_count_take(word_bits(x), 64);
        }
        word_count(x) as usize
    }

    fn is_empty(self) -> (r: bool) {
        proof {
            lemma_wbit_logic();
            let x = self as u128;
            if x != 0 {
                lemma_word_bounds();
                lemma_word_small(x, 64);
                lemma_nonzero_has_bit(x);
                let i = choose|i: int| 0 <= i < 128 && wbit(x, i);
                assert(self.bits()[i]);
            }
        }
        self == 0
    }

    open spec fn prev_bound(before: int, width: int) -> int {
        lesser(before, width)
    }

    proof fn lemma_prev_bound(before: int, width: int) {
    }

    open spec fn back_width_ok(width: int) -> bool {
        true
    }

    proof fn lemma_back_width(width: int) {
    }

    fn first_index(self, width: usize) -> (r: Option<usize>) {
        let hi = if width < 64 { width } else { 64 };
        word_first(self as u128, true, 0, hi)
    }

    fn next_index(self, from: usize, width: usize) -> (r: Option<usize>) {
        if from >= width {
            return None;
        }
        let hi = if width < 64 { width } else { 64 };
        word_first(self as u128, true, from + 1, hi)
    }

    fn last_index(self, width: usize) -> (r: Option<usize>) {
        let hi = if width < 64 { width } else { 64 };
        word_last(self as u128, true, 0, hi)
    }

    fn prev_index(self, before: usize, width: usize) -> (r: Option<usize>) {
        let hi = if before < width { before } else { width };
        let hi = if hi < 64 { hi } else { 64 };
        word_last(self as u128, true, 0, hi)
    }

    fn first_false_index(self, width: usize) -> (r: Option<usize>) {
        let hi = if width < 64 { width } else { 64 };
        word_first(self as u128, false, 0, hi)
    }

    fn next_false_index(self, from: usize, width: usize) -> (r: Option<usize>) {
        if from >= width {
            return None;
        }
        let hi = if width < 64 { width } else { 64 };
        word_first(self as u128, false, from + 1, hi)
    }

    fn mask(self, width: usize) -> (r: Self) {
        let x = self as u128;
        proof {
            lemma_word_bounds();
            lemma_word_small(x, 64);
            lemma_wbit_logic();
        }
        let m = x & low_mask_u128(width);
        let r = m as u64;
        assert(r.bits() =~= Seq::new(64, |i: int| i < width && self.bits()[i]));
        r
    }
}

impl BitOps for u128 {
    open spec fn capacity() -> nat {
        128
    }

    open spec fn bits(self) -> Seq<bool> {
        word_bits(self)
    }

    proof fn lemma_capacity() {
    }

    proof fn lemma_bits(self) {
    }

    fn empty() -> (r: Self) {
        proof {
            lemma_wbit_logic();
        }
        let r: u128 = 0;
        assert(r.bits() =~= Seq::new(128, |i: int| false));
        r
    }

    fn get(self, index: usize) -> (r: bool) {
        word_get(self, index)
    }

    fn set(&mut self, index: usize, value: bool) -> (prev: bool) {
        let prev = self.get(index);
        *self = word_set(*self, index, value);
        prev
    }

    fn count(self) -> (r: usize) {
        word_count(self) as usize
    }

    fn is_empty(self) -> (r: bool) {
        proof {
            lemma_wbit_logic();
            if self != 0 {
                lemma_nonzero_has_bit(self);
                let i = choose|i: int| 0 <= i < 128 && wbit(self, i);
                assert(self.bits()[i]);
            }
        }
        self == 0
    }

    open spec fn prev_bound(before: int, width: int) -> int {
        lesser(before, width)
    }

    proof fn lemma_prev_bound(before: int, width: int) {
    }

    open spec fn back_width_ok(width: int) -> bool {
        true
    }

    proof fn lemma_back_width(width: int) {
    }

    fn first_index(self, width: usize) -> (r: Option<usize>) {
        let hi = if width < 128 { width } else { 128 };
        word_first(self, true, 0, hi)
    }

    fn next_index(self, from: usize, width: usize) -> (r: Option<usize>) {
        if from >= width {
            return None;
        }
        let hi = if width < 128 { width } else { 128 };
        word_first(self, true, from + 1, hi)
    }

    fn last_index(self, width: usize) -> (r: Option<usize>) {
        let hi = if width < 128 { width } else { 128 };
        word_last(self, true, 0, hi)
    }

    fn prev_index(self, before: usize, width: usize) -> (r: Option<usize>) {
        let hi = if before < width { before } else { width };
        let hi = if hi < 128 { hi } else { 128 };
        word_last(self, true, 0, hi)
    }

    fn first_false_index(self, width: usize) -> (r: Option<usize>) {
        let hi = if width < 128 { width } else { 128 };
        word_first(self, false, 0, hi)
    }

    fn next_false_index(self, from: usize, width: usize) -> (r: Option<usize>) {
        if from >= width {
            return None;
        }
        let hi = if width < 128 { width } else { 128 };
        word_first(self, false, from + 1, hi)
    }

    fn mask(self, width: usize) -> (r: Self) {
        proof {
            lemma_wbit_logic();
        }
        let r = self & low_mask_u128(width);
        assert(r.bits() =~= Seq::new(128, |i: int| i < width && self.bits()[i]));
        r
    }
}

impl BitOps for bool {
    open spec fn capacity() -> nat {
        1
    }

    open spec fn bits(self) -> Seq<bool> {
        seq![self]
    }

    proof fn lemma_capacity() {
    }

    proof fn lemma_bits(self) {
    }

    fn empty() -> (r: Self) {
        assert(seq![false] =~= Seq::new(1, |i: int| false));
        false
    }

    fn get(self, index: usize) -> (r: bool) {
        self
    }

    fn set(&mut self, index: usize, value: bool) -> (prev: bool) {
        let prev = *self;
        *self = value;
        assert(seq![value] =~= seq![prev].update(0, value));
        prev
    }

    fn count(self) -> (r: usize) {
        assert(seq![self].drop_last() =~= Seq::<bool>::empty());
        reveal_with_fuel(count_true, 2);
        self as usize
    }

    fn is_empty(self) -> (r: bool) {
        proof {
            assert(self.bits()[0] == self);
            assert forall|i: int| 0 <= i < Self::capacity() implies self.bits()[i] == self by {
                assert(i == 0);
            }
        }
        !self
    }

    open spec fn prev_bound(before: int, width: int) -> int {
        before
    }

    proof fn lemma_prev_bound(before: int, width: int) {
    }

    open spec fn back_width_ok(width: int) -> bool {
        true
    }

    proof fn lemma_back_width(width: int) {
    }

    fn first_index(self, width: usize) -> (r: Option<usize>) {
        if self && width > 0 {
            Some(0)
        } else {
            None
        }
    }

    fn next_index(self, _from: usize, _width: usize) -> (r: Option<usize>) {
        None
    }

    fn last_index(self, width: usize) -> (r: Option<usize>) {
        self.first_index(width)
    }

    fn prev_index(self, before: usize, _width: usize) -> (r: Option<usize>) {
        // Only index 0 exists; it is strictly before any `before > 0`.
        if before > 0 && self {
            Some(0)
        } else {
            None
        }
    }

    fn first_false_index(self, width: usize) -> (r: Option<usize>) {
        if !self && width > 0 {
            Some(0)
        } else {
            None
        }
    }

    fn next_false_index(self, _from: usize, _width: usize) -> (r: Option<usize>) {
        None
    }

    fn mask(self, width: usize) -> (r: Self) {
        let r = self && width > 0;
        assert(seq![r] =~= Seq::new(1, |i: int| i < width && seq![self][i]));
        r
    }
}

impl BitOps for [u128; 2] {
    open spec fn capacity() -> nat {
        256
    }

    open spec fn bits(self) -> Seq<bool> {
        words_bits(self@)
    }

    proof fn lemma_capacity() {
    }

    proof fn lemma_bits(self) {
    }

    fn empty() -> (r: Self) {
        let r: [u128; 2] = [0, 0];
        proof {
            lemma_wbit_logic();
            assert(r.bits() =~= Seq::new(256, |i: int| false));
        }
        r
    }

    fn get(self, index: usize) -> (r: bool) {
        words_get(self, index)
    }

    fn set(&mut self, index: usize, value: bool) -> (prev: bool) {
        words_set(self, index, value)
    }

    fn count(self) -> (r: usize) {
        words_count(self)
    }

    fn is_empty(self) -> (r: bool) {
        let r = words_is_empty(self);
        proof {
            if r {
                assert forall|i: int| 0 <= i < Self::capacity() implies !self.bits()[i] by {
                    assert(!words_bits(self@)[i]);
                }
            } else {
                let i = choose|i: int| 0 <= i < Self::capacity() && words_bits(self@)[i];
                assert(self.bits()[i]);
            }
        }
        r
    }

    open spec fn prev_bound(before: int, width: int) -> int {
        lesser(before, width)
    }

    proof fn lemma_prev_bound(before: int, width: int) {
    }

    open spec fn back_width_ok(width: int) -> bool {
        width <= 256
    }

    proof fn lemma_back_width(width: int) {
    }

    fn first_index(self, width: usize) -> (r: Option<usize>) {
        let hi = if width < 256 { width } else { 256 };
        words_first(self, true, 0, hi)
    }

    fn next_index(self, from: usize, width: usize) -> (r: Option<usize>) {
        if from >= width {
            return None;
        }
        let hi = if width < 256 { width } else { 256 };
        words_first(self, true, from + 1, hi)
    }

    fn last_index(self, width: usize) -> (r: Option<usize>) {
        words_last(self, true, width)
    }

    fn prev_index(self, before: usize, width: usize) -> (r: Option<usize>) {
        let hi = if before < width { before } else { width };
        words_last(self, true, hi)
    }

    fn first_false_index(self, width: usize) -> (r: Option<usize>) {
        let hi = if width < 256 { width } else { 256 };
        words_first(self, false, 0, hi)
    }

    fn next_false_index(self, from: usize, width: usize) -> (r: Option<usize>) {
        if from >= width {
            return None;
        }
        let hi = if width < 256 { width } else { 256 };
        words_first(self, false, from + 1, hi)
    }

    fn mask(self, width: usize) -> (r: Self) {
        words_mask(self, width)
    }
}

impl BitOps for [u128; 3] {
    open spec fn capacity() -> nat {
        384
    }

    open spec fn bits(self) -> Seq<bool> {
        words_bits(self@)
    }

    proof fn lemma_capacity() {
    }

    proof fn lemma_bits(self) {
    }

    fn empty() -> (r: Self) {
        let r: [u128; 3] = [0, 0, 0];
        proof {
            lemma_wbit_logic();
            assert(r.bits() =~= Seq::new(384, |i: int| false));
        }
        r
    }

    fn get(self, index: usize) -> (r: bool) {
        words_get(self, index)
    }

    fn set(&mut self, index: usize, value: bool) -> (prev: bool) {
        words_set(self, index, value)
    }

    fn count(self) -> (r: usize) {
        words_count(self)
    }

    fn is_empty(self) -> (r: bool) {
        let r = words_is_empty(self);
        proof {
            if r {
                assert forall|i: int| 0 <= i < Self::capacity() implies !self.bits()[i] by {
                    assert(!words_bits(self@)[i]);
                }
            } else {
                let i = choose|i: int| 0 <= i < Self::capacity() && words_bits(self@)[i];
                assert(self.bits()[i]);
            }
        }
        r
    }

    open spec fn prev_bound(before: int, width: int) -> int {
        lesser(before, width)
    }

    proof fn lemma_prev_bound(before: int, width: int) {
    }

    open spec fn back_width_ok(width: int) -> bool {
        width <= 384
    }

    proof fn lemma_back_width(width: int) {
    }

    fn first_index(self, width: usize) -> (r: Option<usize>) {
        let hi = if width < 384 { width } else { 384 };
        words_first(self, true, 0, hi)
    }

    fn next_index(self, from: usize, width: usize) -> (r: Option<usize>) {
        if from >= width {
            return None;
        }
        let hi = if width < 384 { width } else { 384 };
        words_first(self, true, from + 1, hi)
    }

    fn last_index(self, width: usize) -> (r: Option<usize>) {
        words_last(self, true, width)
    }

    fn prev_index(self, before: usize, width: usize) -> (r: Option<usize>) {
        let hi = if before < width { before } else { width };
        words_last(self, true, hi)
    }

    fn first_false_index(self, width: usize) -> (r: Option<usize>) {
        let hi = if width < 384 { width } else { 384 };
        words_first(self, false, 0, hi)
    }

    fn next_false_index(self, from: usize, width: usize) -> (r: Option<usize>) {
        if from >= width {
            return None;
        }
        let hi = if width < 384 { width } else { 384 };
        words_first(self, false, from + 1, hi)
    }

    fn mask(self, width: usize) -> (r: Self) {
        words_mask(self, width)
    }
}

impl BitOps for [u128; 4] {
    open spec fn capacity() -> nat {
        512
    }

    open spec fn bits(self) -> Seq<bool> {
        words_bits(self@)
    }

    proof fn lemma_capacity() {
    }

    proof fn lemma_bits(self) {
    }

    fn empty() -> (r: Self) {
        let r: [u128; 4] = [0, 0, 0, 0];
        proof {
            lemma_wbit_logic();
            assert(r.bits() =~= Seq::new(512, |i: int| false));
        }
        r
    }

    fn get(self, index: usize) -> (r: bool) {
        words_get(self, index)
    }

    fn set(&mut self, index: usize, value: bool) -> (prev: bool) {
        words_set(self, index, value)
    }

    fn count(self) -> (r: usize) {
        words_count(self)
    }

    fn is_empty(self) -> (r: bool) {
        let r = words_is_empty(self);
        proof {
            if r {
                assert forall|i: int| 0 <= i < Self::capacity() implies !self.bits()[i] by {
                    assert(!words_bits(self@)[i]);
                }
            } else {
                let i = choose|i: int| 0 <= i < Self::capacity() && words_bits(self@)[i];
                assert(self.bits()[i]);
            }
        }
        r
    }

    open spec fn prev_bound(before: int, width: int) -> int {
        lesser(before, width)
    }

    proof fn lemma_prev_bound(before: int, width: int) {
    }

    open spec fn back_width_ok(width: int) -> bool {
        width <= 512
    }

    proof fn lemma_back_width(width: int) {
    }

    fn first_index(self, width: usize) -> (r: Option<usize>) {
        let hi = if width < 512 { width } else { 512 };
        words_first(self, true, 0, hi)
    }

    fn next_index(self, from: usize, width: usize) -> (r: Option<usize>) {
        if from >= width {
            return None;
        }
        let hi = if width < 512 { width } else { 512 };
        words_first(self, true, from + 1, hi)
    }

    fn last_index(self, width: usize) -> (r: Option<usize>) {
        words_last(self, true, width)
    }

    fn prev_index(self, before: usize, width: usize) -> (r: Option<usize>) {
        let hi = if before < width { before } else { width };
        words_last(self, true, hi)
    }

    fn first_false_index(self, width: usize) -> (r: Option<usize>) {
        let hi = if width < 512 { width } else { 512 };
        words_first(self, false, 0, hi)
    }

    fn next_false_index(self, from: usize, width: usize) -> (r: Option<usize>) {
        if from >= width {
            return None;
        }
        let hi = if width < 512 { width } else { 512 };
        words_first(self, false, from + 1, hi)
    }

    fn mask(self, width: usize) -> (r: Self) {
        words_mask(self, width)
    }
}

impl BitOps for [u128; 5] {
    open spec fn capacity() -> nat {
        640
    }

    open spec fn bits(self) -> Seq<bool> {
        words_bits(self@)
    }

    proof fn lemma_capacity() {
    }

    proof fn lemma_bits(self) {
    }

    fn empty() -> (r: Self) {
        let r: [u128; 5] = [0, 0, 0, 0, 0];
        proof {
            lemma_wbit_logic();
            assert(r.bits() =~= Seq::new(640, |i: int| false));
        }
        r
    }

    fn get(self, index: usize) -> (r: bool) {
        words_get(self, index)
    }

    fn set(&mut self, index: usize, value: bool) -> (prev: bool) {
        words_set(self, index, value)
    }

    fn count(self) -> (r: usize) {
        words_count(self)
    }

    fn is_empty(self) -> (r: bool) {
        let r = words_is_empty(self);
        proof {
            if r {
                assert forall|i: int| 0 <= i < Self::capacity() implies !self.bits()[i] by {
                    assert(!words_bits(self@)[i]);
                }
            } else {
                let i = choose|i: int| 0 <= i < Self::capacity() && words_bits(self@)[i];
                assert(self.bits()[i]);
            }
        }
        r
    }

    open spec fn prev_bound(before: int, width: int) -> int {
        lesser(before, width)
    }

    proof fn lemma_prev_bound(before: int, width: int) {
    }

    open spec fn back_width_ok(width: int) -> bool {
        width <= 640
    }

    proof fn lemma_back_width(width: int) {
    }

    fn first_index(self, width: usize) -> (r: Option<usize>) {
        let hi = if width < 640 { width } else { 640 };
        words_first(self, true, 0, hi)
    }

    fn next_index(self, from: usize, width: usize) -> (r: Option<usize>) {
        if from >= width {
            return None;
        }
        let hi = if width < 640 { width } else { 640 };
        words_first(self, true, from + 1, hi)
    }

    fn last_index(self, width: usize) -> (r: Option<usize>) {
        words_last(self, true, width)
    }

    fn prev_index(self, before: usize, width: usize) -> (r: Option<usize>) {
        let hi = if before < width { before } else { width };
        words_last(self, true, hi)
    }

    fn first_false_index(self, width: usize) -> (r: Option<usize>) {
        let hi = if width < 640 { width } else { 640 };
        words_first(self, false, 0, hi)
    }

    fn next_false_index(self, from: usize, width: usize) -> (r: Option<usize>) {
        if from >= width {
            return None;
        }
        let hi = if width < 640 { width } else { 640 };
        words_first(self, false, from + 1, hi)
    }

    fn mask(self, width: usize) -> (r: Self) {
        words_mask(self, width)
    }
}

impl BitOps for [u128; 6] {
    open spec fn capacity() -> nat {
        768
    }

    open spec fn bits(self) -> Seq<bool> {
        words_bits(self@)
    }

    proof fn lemma_capacity() {
    }

    proof fn lemma_bits(self) {
    }

    fn empty() -> (r: Self) {
        let r: [u128; 6] = [0, 0, 0, 0, 0, 0];
        proof {
            lemma_wbit_logic();
            assert(r.bits() =~= Seq::new(768, |i: int| false));
        }
        r
    }

    fn get(self, index: usize) -> (r: bool) {
        words_get(self, index)
    }

    fn set(&mut self, index: usize, value: bool) -> (prev: bool) {
        words_set(self, index, value)
    }

    fn count(self) -> (r: usize) {
        words_count(self)
    }

    fn is_empty(self) -> (r: bool) {
        let r = words_is_empty(self);
        proof {
            if r {
                assert forall|i: int| 0 <= i < Self::capacity() implies !self.bits()[i] by {
                    assert(!words_bits(self@)[i]);
                }
            } else {
                let i = choose|i: int| 0 <= i < Self::capacity() && words_bits(self@)[i];
                assert(self.bits()[i]);
            }
        }
        r
    }

    open spec fn prev_bound(before: int, width: int) -> int {
        lesser(before, width)
    }

    proof fn lemma_prev_bound(before: int, width: int) {
    }

    open spec fn back_width_ok(width: int) -> bool {
        width <= 768
    }

    proof fn lemma_back_width(width: int) {
    }

    fn first_index(self, width: usize) -> (r: Option<usize>) {
        let hi = if width < 768 { width } else { 768 };
        words_first(self, true, 0, hi)
    }

    fn next_index(self, from: usize, width: usize) -> (r: Option<usize>) {
        if from >= width {
            return None;
        }
        let hi = if width < 768 { width } else { 768 };
        words_first(self, true, from + 1, hi)
    }

    fn last_index(self, width: usize) -> (r: Option<usize>) {
        words_last(self, true, width)
    }

    fn prev_index(self, before: usize, width: usize) -> (r: Option<usize>) {
        let hi = if before < width { before } else { width };
        words_last(self, true, hi)
    }

    fn first_false_index(self, width: usize) -> (r: Option<usize>) {
        let hi = if width < 768 { width } else { 768 };
        words_first(self, false, 0, hi)
    }

    fn next_false_index(self, from: usize, width: usize) -> (r: Option<usize>) {
        if from >= width {
            return None;
        }
        let hi = if width < 768 { width } else { 768 };
        words_first(self, false, from + 1, hi)
    }

    fn mask(self, width: usize) -> (r: Self) {
        words_mask(self, width)
    }
}

impl BitOps for [u128; 7] {
    open spec fn capacity() -> nat {
        896
    }

    open spec fn bits(self) -> Seq<bool> {
        words_bits(self@)
    }

    proof fn lemma_capacity() {
    }

    proof fn lemma_bits(self) {
    }

    fn empty() -> (r: Self) {
        let r: [u128; 7] = [0, 0, 0, 0, 0, 0, 0];
        proof {
            lemma_wbit_logic();
            assert(r.bits() =~= Seq::new(896, |i: int| false));
        }
        r
    }

    fn get(self, index: usize) -> (r: bool) {
        words_get(self, index)
    }

    fn set(&mut self, index: usize, value: bool) -> (prev: bool) {
        words_set(self, index, value)
    }

    fn count(self) -> (r: usize) {
        words_count(self)
    }

    fn is_empty(self) -> (r: bool) {
        let r = words_is_empty(self);
        proof {
            if r {
                assert forall|i: int| 0 <= i < Self::capacity() implies !self.bits()[i] by {
                    assert(!words_bits(self@)[i]);
                }
            } else {
                let i = choose|i: int| 0 <= i < Self::capacity() && words_bits(self@)[i];
                assert(self.bits()[i]);
            }
        }
        r
    }

    open spec fn prev_bound(before: int, width: int) -> int {
        lesser(before, width)
    }

    proof fn lemma_prev_bound(before: int, width: int) {
    }

    open spec fn back_width_ok(width: int) -> bool {
        width <= 896
    }

    proof fn lemma_back_width(width: int) {
    }

    fn first_index(self, width: usize) -> (r: Option<usize>) {
        let hi = if width < 896 { width } else { 896 };
        words_first(self, true, 0, hi)
    }

    fn next_index(self, from: usize, width: usize) -> (r: Option<usize>) {
        if from >= width {
            return None;
        }
        let hi = if width < 896 { width } else { 896 };
        words_first(self, true, from + 1, hi)
    }

    fn last_index(self, width: usize) -> (r: Option<usize>) {
        words_last(self, true, width)
    }

    fn prev_index(self, before: usize, width: usize) -> (r: Option<usize>) {
        let hi = if before < width { before } else { width };
        words_last(self, true, hi)
    }

    fn first_false_index(self, width: usize) -> (r: Option<usize>) {
        let hi = if width < 896 { width } else { 896 };
        words_first(self, false, 0, hi)
    }

    fn next_false_index(self, from: usize, width: usize) -> (r: Option<usize>) {
        if from >= width {
            return None;
        }
        let hi = if width < 896 { width } else { 896 };
        words_first(self, false, from + 1, hi)
    }

    fn mask(self, width: usize) -> (r: Self) {
        words_mask(self, width)
    }
}

impl BitOps for [u128; 8] {
    open spec fn capacity() -> nat {
        1024
    }

    open spec fn bits(self) -> Seq<bool> {
        words_bits(self@)
    }

    proof fn lemma_capacity() {
    }

    proof fn lemma_bits(self) {
    }

    fn empty() -> (r: Self) {
        let r: [u128; 8] = [0, 0, 0, 0, 0, 0, 0, 0];
        proof {
            lemma_wbit_logic();
            assert(r.bits() =~= Seq::new(1024, |i: int| false));
        }
        r
    }

    fn get(self, index: usize) -> (r: bool) {
        words_get(self, index)
    }

    fn set(&mut self, index: usize, value: bool) -> (prev: bool) {
        words_set(self, index, value)
    }

    fn count(self) -> (r: usize) {
        words_count(self)
    }

    fn is_empty(self) -> (r: bool) {
        let r = words_is_empty(self);
        proof {
            if r {
                assert forall|i: int| 0 <= i < Self::capacity() implies !self.bits()[i] by {
                    assert(!words_bits(self@)[i]);
                }
            } else {
                let i = choose|i: int| 0 <= i < Self::capacity() && words_bits(self@)[i];
                assert(self.bits()[i]);
            }
        }
        r
    }

    open spec fn prev_bound(before: int, width: int) -> int {
        lesser(before, width)
    }

    proof fn lemma_prev_bound(before: int, width: int) {
    }

    open spec fn back_width_ok(width: int) -> bool {
        width <= 1024
    }

    proof fn lemma_back_width(width: int) {
    }

    fn first_index(self, width: usize) -> (r: Option<usize>) {
        let hi = if width < 1024 { width } else { 1024 };
        words_first(self, true, 0, hi)
    }

    fn next_index(self, from: usize, width: usize) -> (r: Option<usize>) {
        if from >= width {
            return None;
        }
        let hi = if width < 1024 { width } else { 1024 };
        words_first(self, true, from + 1, hi)
    }

    fn last_index(self, width: usize) -> (r: Option<usize>) {
        words_last(self, true, width)
    }

    fn prev_index(self, before: usize, width: usize) -> (r: Option<usize>) {
        let hi = if before < width { before } else { width };
        words_last(self, true, hi)
    }

    fn first_false_index(self, width: usize) -> (r: Option<usize>) {
        let hi = if width < 1024 { width } else { 1024 };
        words_first(self, false, 0, hi)
    }

    fn next_false_index(self, from: usize, width: usize) -> (r: Option<usize>) {
        if from >= width {
            return None;
        }
        let hi = if width < 1024 { width } else { 1024 };
        words_first(self, false, from + 1, hi)
    }

    fn mask(self, width: usize) -> (r: Self) {
        words_mask(self, width)
    }
}

} // verus!
