use inline_bitmap::{Bitmap, Bits, BitsImpl};

fn collect<const N: usize>(b: &Bitmap<N>) -> Vec<usize>
where
    BitsImpl<N>: Bits<N>,
{
    let mut it = b.into_iter();
    let mut v = Vec::new();
    while let Some(i) = it.next() {
        v.push(i);
    }
    v
}

fn collect_rev<const N: usize>(b: &Bitmap<N>) -> Vec<usize>
where
    BitsImpl<N>: Bits<N>,
{
    let mut it = b.into_iter();
    let mut v = Vec::new();
    while let Some(i) = it.next_back() {
        v.push(i);
    }
    v
}

fn exercise<const N: usize>()
where
    BitsImpl<N>: Bits<N>,
{
    // Reference set of occupied indices, including both edges, word
    // boundaries, and an even spread.
    let mut indices = Vec::new();
    for i in [0, 1, 7, 8, 9, 31, 32, 33, 63, 64, 65, 127, 128] {
        if i < N {
            indices.push(i);
        }
    }
    let mut i = (N / 10).max(1);
    while i < N {
        if !indices.contains(&i) {
            indices.push(i);
        }
        i += (N / 10).max(1);
    }
    if !indices.contains(&(N - 1)) {
        indices.push(N - 1);
    }
    indices.sort_unstable();

    let mut b: Bitmap<N> = Bitmap::new();
    assert!(b.is_empty());
    assert!(!b.is_full());
    assert_eq!(b.first_index(), None);
    assert_eq!(b.last_index(), None);
    assert_eq!(b.next_index(0), None);
    assert_eq!(b.prev_index(0), None);
    assert_eq!(b.first_false_index(), Some(0));
    assert_eq!(b.into_iter().next(), None);
    assert_eq!(b.into_iter().next_back(), None);

    for &i in &indices {
        assert!(!b.set(i, true));
        assert!(b.set(i, true)); // previous value
    }
    assert_eq!(b.len(), indices.len());
    assert_eq!(b.is_full(), indices.len() == N);
    for &i in &indices {
        assert!(b.get(i));
    }

    // Forward scan over set bits.
    let mut from_oracle = indices.iter().copied();
    assert_eq!(b.first_index(), from_oracle.next());
    for (&i, &j) in indices.iter().zip(indices.iter().skip(1)) {
        assert_eq!(b.next_index(i), Some(j));
        assert_eq!(b.next_index(j), indices.iter().skip_while(|&&k| k <= j).next().copied());
    }
    assert_eq!(b.next_index(indices[indices.len() - 1]), None);

    // Reverse scan.
    assert_eq!(b.last_index(), indices.last().copied());
    for (&i, &j) in indices.iter().skip(1).zip(indices.iter()) {
        assert_eq!(b.prev_index(i), Some(j));
    }

    // Clear bits.
    let mut first_free = 0;
    while indices.contains(&first_free) {
        first_free += 1;
    }
    if first_free < N {
        assert_eq!(b.first_false_index(), Some(first_free));
    }
    for start in 0..N {
        let mut expected = start + 1;
        while indices.contains(&expected) {
            expected += 1;
        }
        assert_eq!(b.next_false_index(start), if expected < N { Some(expected) } else { None });
    }

    // Iterator and reverse iterator.
    assert_eq!(collect(&b), indices);
    assert_eq!(collect_rev(&b), {
        let mut v = indices.clone();
        v.reverse();
        v
    });

    // Mixed-direction drain yields each set bit exactly once, then
    // stays exhausted (fused).
    let mut it = b.into_iter();
    let mut mixed = Vec::new();
    while let Some(i) = it.next() {
        mixed.push(i);
        if let Some(j) = it.next_back() {
            mixed.push(j);
        }
    }
    assert_eq!(mixed.len(), indices.len());
    let mut sorted = mixed.clone();
    sorted.sort_unstable();
    assert_eq!(sorted, indices);
    assert_eq!(it.next(), None);
    assert_eq!(it.next_back(), None);
    assert_eq!(it.next(), None);

    // Same, leading with next_back.
    let mut it = b.into_iter();
    let mut mixed = Vec::new();
    while let Some(j) = it.next_back() {
        mixed.push(j);
        if let Some(i) = it.next() {
            mixed.push(i);
        }
    }
    assert_eq!(mixed.len(), indices.len());
    let mut sorted = mixed;
    sorted.sort_unstable();
    assert_eq!(sorted, indices);
    assert_eq!(it.next_back(), None);
    assert_eq!(it.next(), None);

    // Clearing.
    for &i in &indices {
        assert!(b.set(i, false));
    }
    assert!(b.is_empty());
    assert_eq!(b.len(), 0);

    // from_value round-trip.
    for &i in &indices {
        b.set(i, true);
    }
    let store: <BitsImpl<N> as Bits<N>>::Store = b.into_value();
    assert_eq!(Bitmap::from_value(store), b);
}

#[test]
fn from_value_normalizes_out_of_range_bits() {
    // Integer-backed, non-aligned width.
    let b: Bitmap<7> = Bitmap::from_value(0xff);
    assert_eq!(b.len(), 7);
    assert!(b.is_full());
    assert_eq!(collect(&b), (0..7).collect::<Vec<_>>());

    // Array-backed: full boundary word plus one bit into the partial word.
    let b: Bitmap<129> = Bitmap::from_value([u128::MAX, u128::MAX]);
    assert_eq!(b.len(), 129);
    assert!(b.is_full());

    let b: Bitmap<129> = Bitmap::from_value([0, u128::MAX]);
    assert_eq!(b.len(), 1);
    assert_eq!(b.first_index(), Some(128));
    assert_eq!(b.next_index(128), None);
    // 128 is the only set bit and also the last valid index: nothing
    // clear can follow index 127 within the bitmap.
    assert_eq!(b.next_false_index(127), None);
}

#[test]
fn bitmap_widths() {
    exercise::<1>();
    exercise::<2>();
    exercise::<7>();
    exercise::<8>();
    exercise::<9>();
    exercise::<16>();
    exercise::<31>();
    exercise::<32>();
    exercise::<33>();
    exercise::<61>();
    exercise::<64>();
    exercise::<65>();
    exercise::<90>();
    exercise::<127>();
    exercise::<128>();
    exercise::<129>();
    exercise::<130>();
    exercise::<200>();
    exercise::<256>();
    exercise::<257>();
    exercise::<384>();
    exercise::<513>();
    exercise::<641>();
    exercise::<769>();
    exercise::<897>();
    exercise::<1023>();
    exercise::<1024>();
}

struct XorShift(u64);

impl XorShift {
    fn next(&mut self) -> u64 {
        self.0 ^= self.0 << 13;
        self.0 ^= self.0 >> 7;
        self.0 ^= self.0 << 17;
        self.0
    }
}

fn exercise_random<const N: usize>(seed: u64)
where
    BitsImpl<N>: Bits<N>,
{
    // Fixed-seed pseudo-random membership at varying densities, checked
    // against a sorted-Vec oracle.
    let mut rng = XorShift(seed);
    for round in 0..16usize {
        let density = (round + 1) * 48; // out of 768, i.e. up to ~83%
        let mut indices: Vec<usize> = (0..N)
            .filter(|_| rng.next() % 768 < density as u64)
            .collect();
        indices.dedup();

        let mut b: Bitmap<N> = Bitmap::new();
        for &i in &indices {
            b.set(i, true);
        }
        for i in 0..N {
            assert_eq!(b.get(i), indices.contains(&i));
        }
        assert_eq!(b.len(), indices.len());
        assert_eq!(b.first_index(), indices.first().copied());
        assert_eq!(b.last_index(), indices.last().copied());
        assert!(collect(&b).into_iter().eq(indices.iter().copied()));
        assert!(collect_rev(&b).into_iter().eq(indices.iter().rev().copied()));
        for (&i, &j) in indices.iter().zip(indices.iter().skip(1)) {
            assert_eq!(b.next_index(i), Some(j));
            assert_eq!(b.prev_index(j), Some(i));
        }
        for start in (0..N).step_by(64) {
            let mut expected = start + 1;
            while indices.contains(&expected) {
                expected += 1;
            }
            assert_eq!(
                b.next_false_index(start),
                if expected < N { Some(expected) } else { None }
            );
        }
    }
}

#[test]
fn bitmap_random() {
    for seed in [0x9e3779b97f4a7c15, 0x243f6a8885a308d3, 42] {
        exercise_random::<1>(seed);
        exercise_random::<7>(seed);
        exercise_random::<8>(seed);
        exercise_random::<61>(seed);
        exercise_random::<64>(seed);
        exercise_random::<65>(seed);
        exercise_random::<128>(seed);
        exercise_random::<129>(seed);
        exercise_random::<256>(seed);
        exercise_random::<1000>(seed);
        exercise_random::<1024>(seed);
    }
}
