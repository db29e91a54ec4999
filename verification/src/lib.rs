//! A fixed capacity inline bitmap of `N` bits, `N` in `1..=1024`.
//!
//! `Bitmap<N>` keeps its bits inline in the smallest store that holds them:
//! `bool` for one bit, a machine word up to 128 bits, an array of `u128`
//! words up to 1024 bits.

mod bitmap;
mod drains;
mod laws;
mod model;
mod store;
mod word;
mod widths;
mod words;

pub use model::{count_true, is_first_in, is_last_in, set_indices, takes_greatest, takes_least};
pub use bitmap::{Bitmap, Iter};
pub use store::BitOps;
pub use widths::{Bits, BitsImpl};
pub use drains::{count_some, drain_step, is_drain, law_back_drain, law_drain, law_front_drain, span};
pub use laws::{
    law_count_empty_full, law_iter_each_once, law_iter_yields_len, law_next_prev_inverse,
    law_set_series, law_set_series_from_new, law_value_round_trip,
};
