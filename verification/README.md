# inline_bitmap

A fixed capacity inline bitmap of `N` bits, `N` in `1..=1024`, verified with
Verus. `Bitmap<N>` keeps its bits in the smallest store that holds them: `bool`
for one bit, `u8` to `u128` up to 128 bits, `[u128; 2]` to `[u128; 8]` up to
1024 bits.

Layout of `src/`:

- `model.rs`: the model, a bitmap as a `Seq<bool>`, and the predicates the
  contracts use (first and last index with a given value, counting, one step
  of an iteration).
- `word.rs`: operations on one `u128` word, proved bit by bit.
- `words.rs`: operations on an array of words.
- `store.rs`: the `BitOps` trait with its contracts, and its impls for every
  store.
- `widths.rs`: the `Bits<N>` table from a bit count to its store, with the
  proof that the store is wide enough.
- `bitmap.rs`: `Bitmap<N>` and its iterator `Iter`.
- `laws.rs`: properties across operations.
- `drains.rs`: properties of a whole iteration, any series of `next` and
  `next_back` calls on one iterator.
