use inline_bitmap::{BitOps, Bitmap, Bits, BitsImpl};

fn drain_front<const N: usize>(b: &Bitmap<N>) -> Vec<usize>
where
    BitsImpl<N>: Bits<N>,
{
    let mut it = b.into_iter();
    let mut v = Vec::new();
    while let Some(i) = it.next() {
        v.push(i);
    }
    v
}

fn drain_back<const N: usize>(b: &Bitmap<N>) -> Vec<usize>
where
    BitsImpl<N>: Bits<N>,
{
    let mut it = b.into_iter();
    let mut v = Vec::new();
    while let Some(i) = it.next_back() {
        v.push(i);
    }
    v
}

#[test]
fn set_then_get_reads_back_and_leaves_others() {
    let mut b: Bitmap<200> = Bitmap::new();
    assert!(!b.set(150, true));
    assert!(b.get(150));
    for i in 0..200 {
        assert_eq!(b.get(i), i == 150);
    }
    assert!(b.set(150, false));
    assert!(!b.get(150));
    assert!(b.is_empty());
}

#[test]
fn value_round_trip_for_each_store() {
    let b: Bitmap<1> = Bitmap::from_value(true);
    assert_eq!(Bitmap::<1>::from_value(b.into_value()), b);
    assert!(b.into_value());

    let mut b: Bitmap<13> = Bitmap::new();
    b.set(0, true);
    b.set(12, true);
    assert_eq!(b.into_value(), 0x1001u16);
    assert_eq!(Bitmap::<13>::from_value(b.into_value()), b);

    let mut b: Bitmap<300> = Bitmap::new();
    b.set(299, true);
    b.set(128, true);
    assert_eq!(b.into_value(), [0, 1, 1u128 << 43]);
    assert_eq!(Bitmap::<300>::from_value(b.into_value()), b);
}

#[test]
fn from_value_clears_bits_beyond_width() {
    let b: Bitmap<9> = Bitmap::from_value(0xffff);
    assert_eq!(b.len(), 9);
    assert!(b.is_full());
    assert_eq!(b.into_value(), 0x1ff);
    assert_eq!(b.last_index(), Some(8));

    let b: Bitmap<250> = Bitmap::from_value([0, u128::MAX]);
    assert_eq!(b.len(), 122);
    assert_eq!(b.last_index(), Some(249));
    assert_eq!(b.into_value(), [0, (1u128 << 122) - 1]);
}

#[test]
fn empty_and_full_agree_with_len() {
    let mut b: Bitmap<5> = Bitmap::new();
    assert!(b.is_empty());
    assert_eq!(b.len(), 0);
    for i in 0..5 {
        b.set(i, true);
        assert!(!b.is_empty());
        assert_eq!(b.is_full(), i == 4);
        assert_eq!(b.len(), i + 1);
    }
    assert_eq!(b.first_false_index(), None);
}

#[test]
fn iterator_yields_len_indices_in_order() {
    let mut b: Bitmap<700> = Bitmap::new();
    for i in [3, 127, 128, 255, 256, 511, 699] {
        b.set(i, true);
    }
    let forward = drain_front(&b);
    assert_eq!(forward, vec![3, 127, 128, 255, 256, 511, 699]);
    assert_eq!(forward.len(), b.len());
    let backward = drain_back(&b);
    assert_eq!(backward, vec![699, 511, 256, 255, 128, 127, 3]);
}

#[test]
fn iterator_stays_exhausted() {
    let mut b: Bitmap<64> = Bitmap::new();
    b.set(10, true);
    b.set(20, true);
    let mut it = b.into_iter();
    assert_eq!(it.next(), Some(10));
    assert_eq!(it.next_back(), Some(20));
    assert_eq!(it.next(), None);
    assert_eq!(it.next_back(), None);
    assert_eq!(it.next(), None);

    let mut it = b.into_iter();
    assert_eq!(it.next_back(), Some(20));
    assert_eq!(it.next_back(), Some(10));
    assert_eq!(it.next_back(), None);
    assert_eq!(it.next(), None);
}

#[test]
fn iterator_size_hint_bounds_by_width() {
    let b: Bitmap<77> = Bitmap::new();
    assert_eq!(b.into_iter().size_hint(), (0, Some(77)));
}

#[test]
fn next_and_prev_are_inverse_on_neighbours() {
    let mut b: Bitmap<1024> = Bitmap::new();
    let set = [0, 5, 127, 128, 129, 600, 1023];
    for &i in &set {
        b.set(i, true);
    }
    for w in set.windows(2) {
        assert_eq!(b.next_index(w[0]), Some(w[1]));
        assert_eq!(b.prev_index(w[1]), Some(w[0]));
    }
    assert_eq!(b.next_index(1023), None);
    assert_eq!(b.prev_index(0), None);
}

#[test]
fn prev_index_beyond_width_is_last_index() {
    let mut b: Bitmap<40> = Bitmap::new();
    b.set(39, true);
    b.set(2, true);
    assert_eq!(b.prev_index(40), Some(39));
    assert_eq!(b.prev_index(usize::MAX), b.last_index());
    assert_eq!(b.prev_index(39), Some(2));
}

#[test]
fn next_index_after_any_index() {
    let mut b: Bitmap<3> = Bitmap::new();
    b.set(0, true);
    assert_eq!(b.next_index(usize::MAX), None);
    assert_eq!(b.next_false_index(usize::MAX), None);
    assert_eq!(b.next_index(5), None);
    assert_eq!(b.next_false_index(0), Some(1));
    assert_eq!(b.next_false_index(1), Some(2));
    assert_eq!(b.next_false_index(2), None);
}

#[test]
fn single_bit_bitmap() {
    let mut b: Bitmap<1> = Bitmap::default();
    assert_eq!(b, Bitmap::new());
    assert_eq!(b.first_false_index(), Some(0));
    assert!(!b.set(0, true));
    assert!(b.is_full());
    assert_eq!(b.len(), 1);
    assert_eq!(b.first_index(), Some(0));
    assert_eq!(b.last_index(), Some(0));
    assert_eq!(b.prev_index(0), None);
    assert_eq!(b.prev_index(1), Some(0));
    assert_eq!(b.next_index(0), None);
    assert_eq!(b.first_false_index(), None);
    assert_eq!(b.next_false_index(0), None);
}

#[test]
fn word_scans_find_the_exact_bit() {
    // lowest and highest set bit of a full word, and its count
    let b: Bitmap<128> = Bitmap::from_value((1u128 << 100) | (1u128 << 37));
    assert_eq!(b.first_index(), Some(37));
    assert_eq!(b.last_index(), Some(100));
    assert_eq!(b.len(), 2);
    assert_eq!(b.first_false_index(), Some(0));
    let full: Bitmap<128> = Bitmap::from_value(u128::MAX ^ (1u128 << 90));
    assert_eq!(full.first_false_index(), Some(90));
    assert_eq!(full.len(), 127);
}

#[test]
fn store_operations_directly() {
    let mut w: u32 = 0;
    assert!(!w.set(31, true));
    assert_eq!(w, 1u32 << 31);
    assert_eq!(w.count(), 1);
    assert_eq!(w.first_index(32), Some(31));
    assert_eq!(w.first_index(31), None);
    assert_eq!(w.mask(31), 0);
    assert_eq!(w.prev_index(31, 32), None);
    assert_eq!(w.first_false_index(32), Some(0));
    assert!(!w.is_empty());
    assert_eq!(u64::empty(), 0);

    let a: [u128; 3] = [1, 0, 1 << 5];
    assert_eq!(a.count(), 2);
    assert_eq!(a.next_index(0, 300), Some(261));
    assert_eq!(a.next_index(0, 261), None);
    assert_eq!(a.last_index(300), Some(261));
    assert_eq!(a.prev_index(261, 300), Some(0));
    assert_eq!(a.next_false_index(0, 300), Some(1));
    assert_eq!(a.mask(200), [1, 0, 0]);
    assert!(!a.get(260));
    assert!(a.get(261));
}

#[test]
fn store_searches_take_any_width() {
    assert_eq!(true.first_index(2), Some(0));
    assert_eq!(true.first_index(0), None);
    assert_eq!(true.last_index(0), None);
    assert_eq!(false.first_false_index(5), Some(0));
    assert_eq!(false.first_false_index(0), None);
    assert_eq!(true.prev_index(3, 7), Some(0));
    assert_eq!(true.prev_index(0, 7), None);
    assert_eq!(true.prev_index(1, 0), Some(0));
    assert_eq!(0x80u8.prev_index(8, 0), None);
    assert!(!true.mask(0));
    assert!(true.mask(9));
    assert_eq!(5u8.first_false_index(0), None);
    assert_eq!(5u8.first_false_index(100), Some(1));
    assert_eq!(0x80u8.last_index(1000), Some(7));
    assert_eq!(0x80u8.prev_index(1000, 1000), Some(7));
    assert_eq!(u64::MAX.first_false_index(200), None);
    assert_eq!(0xf0u8.mask(0), 0);
    assert_eq!(0xf0u8.mask(300), 0xf0);
    let a: [u128; 2] = [0, 1 << 127];
    assert_eq!(a.first_index(100_000), Some(255));
    assert_eq!(a.first_index(255), None);
    assert_eq!(a.next_index(3, usize::MAX), Some(255));
    assert_eq!(a.first_false_index(0), None);
    assert_eq!(a.last_index(0), None);
    assert_eq!(a.mask(0), [0, 0]);
    assert_eq!(a.mask(usize::MAX), a);
}
