//! The bitmap and its iterator.
use vstd::prelude::*;

use crate::model::{
    count_true, is_first_in, is_last_in, lesser, lemma_count_bounds, lemma_count_take, set_indices,
    takes_greatest, takes_least,
};
use crate::store::BitOps;
use crate::widths::{Bits, BitsImpl};

verus! {

/// A fixed capacity inline bitmap of `N` bits.
///
/// Supports `N` in `1..=1024`; other sizes fail to compile. Its value is the
/// sequence of its `N` bits, `self@`.
#[derive(Clone, Copy, PartialEq, Eq, Debug)]
pub struct Bitmap<const N: usize> where BitsImpl<N>: Bits<N> {
    data: <BitsImpl<N> as Bits<N>>::Store,
}

impl<const N: usize> Bitmap<N> where BitsImpl<N>: Bits<N> {
    /// The store's bits at or above `N` are clear: `len()`, `is_empty()`
    /// and `is_full()` only ever count bits below `N`.
    #[verifier::type_invariant]
    closed spec fn coherent(self) -> bool {
        forall|i: int| N <= i < self.data.bits().len() ==> !#[trigger] self.data.bits()[i]
    }

    /// Bit `i` of the bitmap.
    pub closed spec fn bit(self, i: int) -> bool {
        self.data.bits()[i]
    }

    /// The store's size bounds `N`, which is at most 1024.
    proof fn lemma_width(self)
        ensures
            1 <= N <= <<BitsImpl<N> as Bits<N>>::Store as BitOps>::capacity() <= 1024,
            self.data.bits().len() == <<BitsImpl<N> as Bits<N>>::Store as BitOps>::capacity(),
            forall|i: int| 0 <= i < N ==> self@[i] == #[trigger] self.data.bits()[i],
    {
        <BitsImpl<N> as Bits<N>>::lemma_width();
        <<BitsImpl<N> as Bits<N>>::Store as BitOps>::lemma_capacity();
        self.data.lemma_bits();
    }

    /// Construct a bitmap with every bit clear.
    pub fn new() -> (r: Self)
        ensures
            r@ == Seq::new(N as nat, |i: int| false),
    {
        let data = <<BitsImpl<N> as Bits<N>>::Store as BitOps>::empty();
        proof {
            <BitsImpl<N> as Bits<N>>::lemma_width();
        }
        let r = Self { data };
        assert(r@ =~= Seq::new(N as nat, |i: int| false));
        r
    }

    /// Construct a bitmap from a value of the same type as its backing store.
    ///
    /// Bits at or above index `N` are cleared, keeping the bitmap coherent:
    /// `len()`, `is_empty()` and `is_full()` only ever count bits below `N`.
    pub fn from_value(data: <BitsImpl<N> as Bits<N>>::Store) -> (r: Self)
        ensures
            r@ == data.bits().take(N as int),
    {
        proof {
            <BitsImpl<N> as Bits<N>>::lemma_width();
            data.lemma_bits();
        }
        let masked = data.mask(N);
        proof {
            masked.lemma_bits();
        }
        let r = Self { data: masked };
        assert(r@ =~= data.bits().take(N as int));
        r
    }

    /// The backing store: the bitmap's bits, followed by clear bits.
    pub fn into_value(self) -> (r: <BitsImpl<N> as Bits<N>>::Store)
        ensures
            r.bits() == Seq::new(
                <<BitsImpl<N> as Bits<N>>::Store as BitOps>::capacity(),
                |i: int| i < N && self@[i],
            ),
    {
        proof {
            use_type_invariant(&self);
            self.lemma_width();
            assert(self.data.bits() =~= Seq::new(
                <<BitsImpl<N> as Bits<N>>::Store as BitOps>::capacity(),
                |i: int| i < N && self@[i],
            ));
        }
        self.data
    }

    /// Count the number of set bits.
    pub fn len(self) -> (r: usize)
        ensures
            r == count_true(self@),
    {
        proof {
            use_type_invariant(&self);
            self.lemma_width();
            lemma_count_take(self.data.bits(), N as int);
            assert(self.data.bits().take(N as int) =~= self@);
        }
        self.data.count()
    }

    /// Test if the bitmap contains only clear bits.
    pub fn is_empty(self) -> (r: bool)
        ensures
            r == (forall|i: int| 0 <= i < N ==> !self@[i]),
    {
        proof {
            use_type_invariant(&self);
            self.lemma_width();
        }
        self.data.is_empty()
    }

    /// Test if all `N` bits are set.
    pub fn is_full(self) -> (r: bool)
        ensures
            r == (forall|i: int| 0 <= i < N ==> self@[i]),
    {
        proof {
            use_type_invariant(&self);
            self.lemma_width();
            lemma_count_take(self.data.bits(), N as int);
            assert(self.data.bits().take(N as int) =~= self@);
            lemma_count_bounds(self@);
        }
        self.data.count() == N
    }

    /// Get the value of the bit at a given index.
    pub fn get(self, index: usize) -> (r: bool)
        requires
            index < N,
        ensures
            r == self@[index as int],
    {
        proof {
            self.lemma_width();
        }
        self.data.get(index)
    }

    /// Set the value of the bit at a given index, returning the previous value.
    pub fn set(&mut self, index: usize, value: bool) -> (prev: bool)
        requires
            index < N,
        ensures
            prev == old(self)@[index as int],
            final(self)@ == old(self)@.update(index as int, value),
    {
        proof {
            use_type_invariant(&*self);
            self.lemma_width();
        }
        let mut data = self.data;
        let prev = data.set(index, value);
        self.data = data;
        assert(self@ =~= old(self)@.update(index as int, value));
        prev
    }

    /// Find the index of the first set bit.
    pub fn first_index(self) -> (r: Option<usize>)
        ensures
            is_first_in(self@, true, 0, N as int, r),
    {
        proof {
            self.lemma_width();
        }
        self.data.first_index(N)
    }

    /// Find the index of the first set bit strictly after `index`.
    pub fn next_index(self, index: usize) -> (r: Option<usize>)
        ensures
            is_first_in(self@, true, index + 1, N as int, r),
    {
        proof {
            self.lemma_width();
        }
        self.data.next_index(index, N)
    }

    /// Find the index of the last set bit.
    pub fn last_index(self) -> (r: Option<usize>)
        ensures
            is_last_in(self@, true, 0, N as int, r),
    {
        proof {
            self.lemma_width();
            <<BitsImpl<N> as Bits<N>>::Store as BitOps>::lemma_back_width(N as int);
        }
        self.data.last_index(N)
    }

    /// Find the index of the last set bit strictly before `index`.
    pub fn prev_index(self, index: usize) -> (r: Option<usize>)
        ensures
            is_last_in(self@, true, 0, if index < N { index as int } else { N as int }, r),
    {
        proof {
            self.lemma_width();
            <<BitsImpl<N> as Bits<N>>::Store as BitOps>::lemma_prev_bound(index as int, N as int);
        }
        self.data.prev_index(index, N)
    }

    /// Find the index of the first clear bit.
    pub fn first_false_index(self) -> (r: Option<usize>)
        ensures
            is_first_in(self@, false, 0, N as int, r),
    {
        proof {
            self.lemma_width();
        }
        self.data.first_false_index(N)
    }

    /// Find the index of the first clear bit strictly after `index`.
    pub fn next_false_index(self, index: usize) -> (r: Option<usize>)
        ensures
            is_first_in(self@, false, index + 1, N as int, r),
    {
        proof {
            self.lemma_width();
        }
        self.data.next_false_index(index, N)
    }
}

impl<const N: usize> View for Bitmap<N> where BitsImpl<N>: Bits<N> {
    type V = Seq<bool>;

    open spec fn view(&self) -> Seq<bool> {
        Seq::new(N as nat, |i: int| self.bit(i))
    }
}

impl<const N: usize> Default for Bitmap<N> where BitsImpl<N>: Bits<N> {
    fn default() -> (r: Self)
        ensures
            r@ == Seq::new(N as nat, |i: int| false),
    {
        Self::new()
    }
}


/// An iterator over the indices of set bits in a [`Bitmap`], from either end.
///
/// Its value, `self@`, is the set of indices it has yet to yield.
#[derive(Clone, Debug)]
pub struct Iter<'a, const N: usize> where BitsImpl<N>: Bits<N> {
    head: Option<usize>,
    tail: Option<usize>,
    data: &'a Bitmap<N>,
}

impl<'a, const N: usize> Iter<'a, N> where BitsImpl<N>: Bits<N> {
    /// The bits of the bitmap being walked.
    pub closed spec fn bitmap(&self) -> Seq<bool> {
        self.data@
    }

    /// Indices below this one have been yielded from the front.
    closed spec fn lo(&self) -> int {
        match self.head {
            None => 0,
            Some(h) => h + 1,
        }
    }

    /// Indices at or above this one have been yielded from the back.
    closed spec fn hi(&self) -> int {
        match self.tail {
            None => 0,
            Some(t) => if t < N { t as int } else { N as int },
        }
    }

    /// The set indices that are still to come.
    pub closed spec fn remaining(&self) -> Set<int> {
        Set::new(|i: int| self.lo() <= i < self.hi() && self.data@[i])
    }

    /// The next set index from the front: the least one still to come.
    pub fn next(&mut self) -> (r: Option<usize>)
        ensures
            final(self).bitmap() == old(self).bitmap(),
            takes_least(old(self)@, final(self)@, r),
    {
        proof {
            self.data.lemma_width();
        }
        let result;
        match self.head {
            None => {
                result = self.data.first_index();
            },
            Some(index) => {
                if index >= N {
                    result = None;
                } else {
                    result = self.data.next_index(index);
                }
            },
        }
        if let Some(index) = result {
            if let Some(tail) = self.tail {
                if tail <= index {
                    self.head = Some(N + 1);
                    self.tail = None;
                    assert(old(self)@ =~= Set::<int>::empty());
                    assert(self@ =~= Set::<int>::empty());
                    return None;
                }
            } else {
                // tail is already done
                self.head = Some(N + 1);
                assert(old(self)@ =~= Set::<int>::empty());
                assert(self@ =~= Set::<int>::empty());
                return None;
            }
            self.head = Some(index);
            assert(self@ =~= old(self)@.remove(index as int));
        } else {
            self.head = Some(N + 1);
            assert(old(self)@ =~= Set::<int>::empty());
            assert(self@ =~= Set::<int>::empty());
        }
        result
    }

    /// The next set index from the back: the greatest one still to come.
    pub fn next_back(&mut self) -> (r: Option<usize>)
        ensures
            final(self).bitmap() == old(self).bitmap(),
            takes_greatest(old(self)@, final(self)@, r),
    {
        proof {
            self.data.lemma_width();
        }
        let result;
        match self.tail {
            None => {
                result = None;
            },
            Some(index) => {
                if index >= N {
                    result = self.data.last_index();
                } else {
                    result = self.data.prev_index(index);
                }
            },
        }
        if let Some(index) = result {
            if let Some(head) = self.head {
                if head >= index {
                    self.head = Some(N + 1);
                    self.tail = None;
                    assert(old(self)@ =~= Set::<int>::empty());
                    assert(self@ =~= Set::<int>::empty());
                    return None;
                }
            }
            self.tail = Some(index);
            assert(self@ =~= old(self)@.remove(index as int));
        } else {
            self.tail = None;
            assert(old(self)@ =~= Set::<int>::empty());
            assert(self@ =~= Set::<int>::empty());
        }
        result
    }

    /// Bounds on the number of indices still to come: at least none, at most
    /// `N`.
    pub fn size_hint(&self) -> (r: (usize, Option<usize>))
        ensures
            r == (0usize, Some(N)),
            self@.finite(),
            self@.len() <= N,
    {
        proof {
            self.lemma_remaining_bound();
        }
        (0, Some(N))
    }

    /// What is still to come is a finite set of set indices of the bitmap.
    pub proof fn lemma_remaining_bound(&self)
        ensures
            self@.subset_of(set_indices(self.bitmap())),
            self@.finite(),
            self@.len() <= N,
    {
        let s = self.bitmap();
        crate::model::lemma_count_is_set_len(s);
        lemma_count_bounds(s);
        vstd::set_lib::lemma_len_subset(self@, set_indices(s));
    }
}

impl<'a, const N: usize> View for Iter<'a, N> where BitsImpl<N>: Bits<N> {
    type V = Set<int>;

    open spec fn view(&self) -> Set<int> {
        self.remaining()
    }
}

impl<const N: usize> Bitmap<N> where BitsImpl<N>: Bits<N> {
    /// An iterator over the indices of the set bits, in ascending order from
    /// the front and descending order from the back.
    pub fn into_iter(&self) -> (it: Iter<'_, N>)
        ensures
            it.bitmap() == self@,
            it@ == set_indices(self@),
    {
        let it = Iter { head: None, tail: Some(N), data: self };
        assert(it@ =~= set_indices(self@));
        it
    }
}

} // verus!
