//! The table from a bit count to the store that holds it.
use vstd::prelude::*;

use crate::store::BitOps;

verus! {

/// Maps a bit count `N` to a storage type carrying at least that many bits.
pub trait Bits<const N: usize> {
    type Store: BitOps;

    /// The store holds at least `N` bits, and `N` is at least one.
    proof fn lemma_width()
        ensures
            1 <= N <= <Self::Store as BitOps>::capacity(),
    ;
}

/// Type-level lookup from bit count to bitmap. There is an impl of [`Bits`]
/// for every `BitsImpl<N>` with `N` in `1..=1024`; other sizes fail to
/// compile.
pub struct BitsImpl<const N: usize>;

// Width 1 lives in `bool`.
impl Bits<1> for BitsImpl<1> { type Store = bool; proof fn lemma_width() {} }

// Widths 2..=8 live in `u8`.
impl Bits<2> for BitsImpl<2> { type Store = u8; proof fn lemma_width() {} }
impl Bits<3> for BitsImpl<3> { type Store = u8; proof fn lemma_width() {} }
impl Bits<4> for BitsImpl<4> { type Store = u8; proof fn lemma_width() {} }
impl Bits<5> for BitsImpl<5> { type Store = u8; proof fn lemma_width() {} }
impl Bits<6> for BitsImpl<6> { type Store = u8; proof fn lemma_width() {} }
impl Bits<7> for BitsImpl<7> { type Store = u8; proof fn lemma_width() {} }
impl Bits<8> for BitsImpl<8> { type Store = u8; proof fn lemma_width() {} }

// Widths 9..=16 live in `u16`.
impl Bits<9> for BitsImpl<9> { type Store = u16; proof fn lemma_width() {} }
impl Bits<10> for BitsImpl<10> { type Store = u16; proof fn lemma_width() {} }
impl Bits<11> for BitsImpl<11> { type Store = u16; proof fn lemma_width() {} }
impl Bits<12> for BitsImpl<12> { type Store = u16; proof fn lemma_width() {} }
impl Bits<13> for BitsImpl<13> { type Store = u16; proof fn lemma_width() {} }
impl Bits<14> for BitsImpl<14> { type Store = u16; proof fn lemma_width() {} }
impl Bits<15> for BitsImpl<15> { type Store = u16; proof fn lemma_width() {} }
impl Bits<16> for BitsImpl<16> { type Store = u16; proof fn lemma_width() {} }

// Widths 17..=32 live in `u32`.
impl Bits<17> for BitsImpl<17> { type Store = u32; proof fn lemma_width() {} }
impl Bits<18> for BitsImpl<18> { type Store = u32; proof fn lemma_width() {} }
impl Bits<19> for BitsImpl<19> { type Store = u32; proof fn lemma_width() {} }
impl Bits<20> for BitsImpl<20> { type Store = u32; proof fn lemma_width() {} }
impl Bits<21> for BitsImpl<21> { type Store = u32; proof fn lemma_width() {} }
impl Bits<22> for BitsImpl<22> { type Store = u32; proof fn lemma_width() {} }
impl Bits<23> for BitsImpl<23> { type Store = u32; proof fn lemma_width() {} }
impl Bits<24> for BitsImpl<24> { type Store = u32; proof fn lemma_width() {} }
impl Bits<25> for BitsImpl<25> { type Store = u32; proof fn lemma_width() {} }
impl Bits<26> for BitsImpl<26> { type Store = u32; proof fn lemma_width() {} }
impl Bits<27> for BitsImpl<27> { type Store = u32; proof fn lemma_width() {} }
impl Bits<28> for BitsImpl<28> { type Store = u32; proof fn lemma_width() {} }
impl Bits<29> for BitsImpl<29> { type Store = u32; proof fn lemma_width() {} }
impl Bits<30> for BitsImpl<30> { type Store = u32; proof fn lemma_width() {} }
impl Bits<31> for BitsImpl<31> { type Store = u32; proof fn lemma_width() {} }
impl Bits<32> for BitsImpl<32> { type Store = u32; proof fn lemma_width() {} }

// Widths 33..=64 live in `u64`.
impl Bits<33> for BitsImpl<33> { type Store = u64; proof fn lemma_width() {} }
impl Bits<34> for BitsImpl<34> { type Store = u64; proof fn lemma_width() {} }
impl Bits<35> for BitsImpl<35> { type Store = u64; proof fn lemma_width() {} }
impl Bits<36> for BitsImpl<36> { type Store = u64; proof fn lemma_width() {} }
impl Bits<37> for BitsImpl<37> { type Store = u64; proof fn lemma_width() {} }
impl Bits<38> for BitsImpl<38> { type Store = u64; proof fn lemma_width() {} }
impl Bits<39> for BitsImpl<39> { type Store = u64; proof fn lemma_width() {} }
impl Bits<40> for BitsImpl<40> { type Store = u64; proof fn lemma_width() {} }
impl Bits<41> for BitsImpl<41> { type Store = u64; proof fn lemma_width() {} }
impl Bits<42> for BitsImpl<42> { type Store = u64; proof fn lemma_width() {} }
impl Bits<43> for BitsImpl<43> { type Store = u64; proof fn lemma_width() {} }
impl Bits<44> for BitsImpl<44> { type Store = u64; proof fn lemma_width() {} }
impl Bits<45> for BitsImpl<45> { type Store = u64; proof fn lemma_width() {} }
impl Bits<46> for BitsImpl<46> { type Store = u64; proof fn lemma_width() {} }
impl Bits<47> for BitsImpl<47> { type Store = u64; proof fn lemma_width() {} }
impl Bits<48> for BitsImpl<48> { type Store = u64; proof fn lemma_width() {} }
impl Bits<49> for BitsImpl<49> { type Store = u64; proof fn lemma_width() {} }
impl Bits<50> for BitsImpl<50> { type Store = u64; proof fn lemma_width() {} }
impl Bits<51> for BitsImpl<51> { type Store = u64; proof fn lemma_width() {} }
impl Bits<52> for BitsImpl<52> { type Store = u64; proof fn lemma_width() {} }
impl Bits<53> for BitsImpl<53> { type Store = u64; proof fn lemma_width() {} }
impl Bits<54> for BitsImpl<54> { type Store = u64; proof fn lemma_width() {} }
impl Bits<55> for BitsImpl<55> { type Store = u64; proof fn lemma_width() {} }
impl Bits<56> for BitsImpl<56> { type Store = u64; proof fn lemma_width() {} }
impl Bits<57> for BitsImpl<57> { type Store = u64; proof fn lemma_width() {} }
impl Bits<58> for BitsImpl<58> { type Store = u64; proof fn lemma_width() {} }
impl Bits<59> for BitsImpl<59> { type Store = u64; proof fn lemma_width() {} }
impl Bits<60> for BitsImpl<60> { type Store = u64; proof fn lemma_width() {} }
impl Bits<61> for BitsImpl<61> { type Store = u64; proof fn lemma_width() {} }
impl Bits<62> for BitsImpl<62> { type Store = u64; proof fn lemma_width() {} }
impl Bits<63> for BitsImpl<63> { type Store = u64; proof fn lemma_width() {} }
impl Bits<64> for BitsImpl<64> { type Store = u64; proof fn lemma_width() {} }

// Widths 65..=128 live in `u128`.
impl Bits<65> for BitsImpl<65> { type Store = u128; proof fn lemma_width() {} }
impl Bits<66> for BitsImpl<66> { type Store = u128; proof fn lemma_width() {} }
impl Bits<67> for BitsImpl<67> { type Store = u128; proof fn lemma_width() {} }
impl Bits<68> for BitsImpl<68> { type Store = u128; proof fn lemma_width() {} }
impl Bits<69> for BitsImpl<69> { type Store = u128; proof fn lemma_width() {} }
impl Bits<70> for BitsImpl<70> { type Store = u128; proof fn lemma_width() {} }
impl Bits<71> for BitsImpl<71> { type Store = u128; proof fn lemma_width() {} }
impl Bits<72> for BitsImpl<72> { type Store = u128; proof fn lemma_width() {} }
impl Bits<73> for BitsImpl<73> { type Store = u128; proof fn lemma_width() {} }
impl Bits<74> for BitsImpl<74> { type Store = u128; proof fn lemma_width() {} }
impl Bits<75> for BitsImpl<75> { type Store = u128; proof fn lemma_width() {} }
impl Bits<76> for BitsImpl<76> { type Store = u128; proof fn lemma_width() {} }
impl Bits<77> for BitsImpl<77> { type Store = u128; proof fn lemma_width() {} }
impl Bits<78> for BitsImpl<78> { type Store = u128; proof fn lemma_width() {} }
impl Bits<79> for BitsImpl<79> { type Store = u128; proof fn lemma_width() {} }
impl Bits<80> for BitsImpl<80> { type Store = u128; proof fn lemma_width() {} }
impl Bits<81> for BitsImpl<81> { type Store = u128; proof fn lemma_width() {} }
impl Bits<82> for BitsImpl<82> { type Store = u128; proof fn lemma_width() {} }
impl Bits<83> for BitsImpl<83> { type Store = u128; proof fn lemma_width() {} }
impl Bits<84> for BitsImpl<84> { type Store = u128; proof fn lemma_width() {} }
impl Bits<85> for BitsImpl<85> { type Store = u128; proof fn lemma_width() {} }
impl Bits<86> for BitsImpl<86> { type Store = u128; proof fn lemma_width() {} }
impl Bits<87> for BitsImpl<87> { type Store = u128; proof fn lemma_width() {} }
impl Bits<88> for BitsImpl<88> { type Store = u128; proof fn lemma_width() {} }
impl Bits<89> for BitsImpl<89> { type Store = u128; proof fn lemma_width() {} }
impl Bits<90> for BitsImpl<90> { type Store = u128; proof fn lemma_width() {} }
impl Bits<91> for BitsImpl<91> { type Store = u128; proof fn lemma_width() {} }
impl Bits<92> for BitsImpl<92> { type Store = u128; proof fn lemma_width() {} }
impl Bits<93> for BitsImpl<93> { type Store = u128; proof fn lemma_width() {} }
impl Bits<94> for BitsImpl<94> { type Store = u128; proof fn lemma_width() {} }
impl Bits<95> for BitsImpl<95> { type Store = u128; proof fn lemma_width() {} }
impl Bits<96> for BitsImpl<96> { type Store = u128; proof fn lemma_width() {} }
impl Bits<97> for BitsImpl<97> { type Store = u128; proof fn lemma_width() {} }
impl Bits<98> for BitsImpl<98> { type Store = u128; proof fn lemma_width() {} }
impl Bits<99> for BitsImpl<99> { type Store = u128; proof fn lemma_width() {} }
impl Bits<100> for BitsImpl<100> { type Store = u128; proof fn lemma_width() {} }
impl Bits<101> for BitsImpl<101> { type Store = u128; proof fn lemma_width() {} }
impl Bits<102> for BitsImpl<102> { type Store = u128; proof fn lemma_width() {} }
impl Bits<103> for BitsImpl<103> { type Store = u128; proof fn lemma_width() {} }
impl Bits<104> for BitsImpl<104> { type Store = u128; proof fn lemma_width() {} }
impl Bits<105> for BitsImpl<105> { type Store = u128; proof fn lemma_width() {} }
impl Bits<106> for BitsImpl<106> { type Store = u128; proof fn lemma_width() {} }
impl Bits<107> for BitsImpl<107> { type Store = u128; proof fn lemma_width() {} }
impl Bits<108> for BitsImpl<108> { type Store = u128; proof fn lemma_width() {} }
impl Bits<109> for BitsImpl<109> { type Store = u128; proof fn lemma_width() {} }
impl Bits<110> for BitsImpl<110> { type Store = u128; proof fn lemma_width() {} }
impl Bits<111> for BitsImpl<111> { type Store = u128; proof fn lemma_width() {} }
impl Bits<112> for BitsImpl<112> { type Store = u128; proof fn lemma_width() {} }
impl Bits<113> for BitsImpl<113> { type Store = u128; proof fn lemma_width() {} }
impl Bits<114> for BitsImpl<114> { type Store = u128; proof fn lemma_width() {} }
impl Bits<115> for BitsImpl<115> { type Store = u128; proof fn lemma_width() {} }
impl Bits<116> for BitsImpl<116> { type Store = u128; proof fn lemma_width() {} }
impl Bits<117> for BitsImpl<117> { type Store = u128; proof fn lemma_width() {} }
impl Bits<118> for BitsImpl<118> { type Store = u128; proof fn lemma_width() {} }
impl Bits<119> for BitsImpl<119> { type Store = u128; proof fn lemma_width() {} }
impl Bits<120> for BitsImpl<120> { type Store = u128; proof fn lemma_width() {} }
impl Bits<121> for BitsImpl<121> { type Store = u128; proof fn lemma_width() {} }
impl Bits<122> for BitsImpl<122> { type Store = u128; proof fn lemma_width() {} }
impl Bits<123> for BitsImpl<123> { type Store = u128; proof fn lemma_width() {} }
impl Bits<124> for BitsImpl<124> { type Store = u128; proof fn lemma_width() {} }
impl Bits<125> for BitsImpl<125> { type Store = u128; proof fn lemma_width() {} }
impl Bits<126> for BitsImpl<126> { type Store = u128; proof fn lemma_width() {} }
impl Bits<127> for BitsImpl<127> { type Store = u128; proof fn lemma_width() {} }
impl Bits<128> for BitsImpl<128> { type Store = u128; proof fn lemma_width() {} }

// Widths 129..=256 live in `[u128; 2]`.
impl Bits<129> for BitsImpl<129> { type Store = [u128; 2]; proof fn lemma_width() {} }
impl Bits<130> for BitsImpl<130> { type Store = [u128; 2]; proof fn lemma_width() {} }
impl Bits<131> for BitsImpl<131> { type Store = [u128; 2]; proof fn lemma_width() {} }
impl Bits<132> for BitsImpl<132> { type Store = [u128; 2]; proof fn lemma_width() {} }
impl Bits<133> for BitsImpl<133> { type Store = [u128; 2]; proof fn lemma_width() {} }
impl Bits<134> for BitsImpl<134> { type Store = [u128; 2]; proof fn lemma_width() {} }
impl Bits<135> for BitsImpl<135> { type Store = [u128; 2]; proof fn lemma_width() {} }
impl Bits<136> for BitsImpl<136> { type Store = [u128; 2]; proof fn lemma_width() {} }
impl Bits<137> for BitsImpl<137> { type Store = [u128; 2]; proof fn lemma_width() {} }
impl Bits<138> for BitsImpl<138> { type Store = [u128; 2]; proof fn lemma_width() {} }
impl Bits<139> for BitsImpl<139> { type Store = [u128; 2]; proof fn lemma_width() {} }
impl Bits<140> for BitsImpl<140> { type Store = [u128; 2]; proof fn lemma_width() {} }
impl Bits<141> for BitsImpl<141> { type Store = [u128; 2]; proof fn lemma_width() {} }
impl Bits<142> for BitsImpl<142> { type Store = [u128; 2]; proof fn lemma_width() {} }
impl Bits<143> for BitsImpl<143> { type Store = [u128; 2]; proof fn lemma_width() {} }
impl Bits<144> for BitsImpl<144> { type Store = [u128; 2]; proof fn lemma_width() {} }
impl Bits<145> for BitsImpl<145> { type Store = [u128; 2]; proof fn lemma_width() {} }
impl Bits<146> for BitsImpl<146> { type Store = [u128; 2]; proof fn lemma_width() {} }
impl Bits<147> for BitsImpl<147> { type Store = [u128; 2]; proof fn lemma_width() {} }
impl Bits<148> for BitsImpl<148> { type Store = [u128; 2]; proof fn lemma_width() {} }
impl Bits<149> for BitsImpl<149> { type Store = [u128; 2]; proof fn lemma_width() {} }
impl Bits<150> for BitsImpl<150> { type Store = [u128; 2]; proof fn lemma_width() {} }
impl Bits<151> for BitsImpl<151> { type Store = [u128; 2]; proof fn lemma_width() {} }
impl Bits<152> for BitsImpl<152> { type Store = [u128; 2]; proof fn lemma_width() {} }
impl Bits<153> for BitsImpl<153> { type Store = [u128; 2]; proof fn lemma_width() {} }
impl Bits<154> for BitsImpl<154> { type Store = [u128; 2]; proof fn lemma_width() {} }
impl Bits<155> for BitsImpl<155> { type Store = [u128; 2]; proof fn lemma_width() {} }
impl Bits<156> for BitsImpl<156> { type Store = [u128; 2]; proof fn lemma_width() {} }
impl Bits<157> for BitsImpl<157> { type Store = [u128; 2]; proof fn lemma_width() {} }
impl Bits<158> for BitsImpl<158> { type Store = [u128; 2]; proof fn lemma_width() {} }
impl Bits<159> for BitsImpl<159> { type Store = [u128; 2]; proof fn lemma_width() {} }
impl Bits<160> for BitsImpl<160> { type Store = [u128; 2]; proof fn lemma_width() {} }
impl Bits<161> for BitsImpl<161> { type Store = [u128; 2]; proof fn lemma_width() {} }
impl Bits<162> for BitsImpl<162> { type Store = [u128; 2]; proof fn lemma_width() {} }
impl Bits<163> for BitsImpl<163> { type Store = [u128; 2]; proof fn lemma_width() {} }
impl Bits<164> for BitsImpl<164> { type Store = [u128; 2]; proof fn lemma_width() {} }
impl Bits<165> for BitsImpl<165> { type Store = [u128; 2]; proof fn lemma_width() {} }
impl Bits<166> for BitsImpl<166> { type Store = [u128; 2]; proof fn lemma_width() {} }
impl Bits<167> for BitsImpl<167> { type Store = [u128; 2]; proof fn lemma_width() {} }
impl Bits<168> for BitsImpl<168> { type Store = [u128; 2]; proof fn lemma_width() {} }
impl Bits<169> for BitsImpl<169> { type Store = [u128; 2]; proof fn lemma_width() {} }
impl Bits<170> for BitsImpl<170> { type Store = [u128; 2]; proof fn lemma_width() {} }
impl Bits<171> for BitsImpl<171> { type Store = [u128; 2]; proof fn lemma_width() {} }
impl Bits<172> for BitsImpl<172> { type Store = [u128; 2]; proof fn lemma_width() {} }
impl Bits<173> for BitsImpl<173> { type Store = [u128; 2]; proof fn lemma_width() {} }
impl Bits<174> for BitsImpl<174> { type Store = [u128; 2]; proof fn lemma_width() {} }
impl Bits<175> for BitsImpl<175> { type Store = [u128; 2]; proof fn lemma_width() {} }
impl Bits<176> for BitsImpl<176> { type Store = [u128; 2]; proof fn lemma_width() {} }
impl Bits<177> for BitsImpl<177> { type Store = [u128; 2]; proof fn lemma_width() {} }
impl Bits<178> for BitsImpl<178> { type Store = [u128; 2]; proof fn lemma_width() {} }
impl Bits<179> for BitsImpl<179> { type Store = [u128; 2]; proof fn lemma_width() {} }
impl Bits<180> for BitsImpl<180> { type Store = [u128; 2]; proof fn lemma_width() {} }
impl Bits<181> for BitsImpl<181> { type Store = [u128; 2]; proof fn lemma_width() {} }
impl Bits<182> for BitsImpl<182> { type Store = [u128; 2]; proof fn lemma_width() {} }
impl Bits<183> for BitsImpl<183> { type Store = [u128; 2]; proof fn lemma_width() {} }
impl Bits<184> for BitsImpl<184> { type Store = [u128; 2]; proof fn lemma_width() {} }
impl Bits<185> for BitsImpl<185> { type Store = [u128; 2]; proof fn lemma_width() {} }
impl Bits<186> for BitsImpl<186> { type Store = [u128; 2]; proof fn lemma_width() {} }
impl Bits<187> for BitsImpl<187> { type Store = [u128; 2]; proof fn lemma_width() {} }
impl Bits<188> for BitsImpl<188> { type Store = [u128; 2]; proof fn lemma_width() {} }
impl Bits<189> for BitsImpl<189> { type Store = [u128; 2]; proof fn lemma_width() {} }
impl Bits<190> for BitsImpl<190> { type Store = [u128; 2]; proof fn lemma_width() {} }
impl Bits<191> for BitsImpl<191> { type Store = [u128; 2]; proof fn lemma_width() {} }
impl Bits<192> for BitsImpl<192> { type Store = [u128; 2]; proof fn lemma_width() {} }
impl Bits<193> for BitsImpl<193> { type Store = [u128; 2]; proof fn lemma_width() {} }
impl Bits<194> for BitsImpl<194> { type Store = [u128; 2]; proof fn lemma_width() {} }
impl Bits<195> for BitsImpl<195> { type Store = [u128; 2]; proof fn lemma_width() {} }
impl Bits<196> for BitsImpl<196> { type Store = [u128; 2]; proof fn lemma_width() {} }
impl Bits<197> for BitsImpl<197> { type Store = [u128; 2]; proof fn lemma_width() {} }
impl Bits<198> for BitsImpl<198> { type Store = [u128; 2]; proof fn lemma_width() {} }
impl Bits<199> for BitsImpl<199> { type Store = [u128; 2]; proof fn lemma_width() {} }
impl Bits<200> for BitsImpl<200> { type Store = [u128; 2]; proof fn lemma_width() {} }
impl Bits<201> for BitsImpl<201> { type Store = [u128; 2]; proof fn lemma_width() {} }
impl Bits<202> for BitsImpl<202> { type Store = [u128; 2]; proof fn lemma_width() {} }
impl Bits<203> for BitsImpl<203> { type Store = [u128; 2]; proof fn lemma_width() {} }
impl Bits<204> for BitsImpl<204> { type Store = [u128; 2]; proof fn lemma_width() {} }
impl Bits<205> for BitsImpl<205> { type Store = [u128; 2]; proof fn lemma_width() {} }
impl Bits<206> for BitsImpl<206> { type Store = [u128; 2]; proof fn lemma_width() {} }
impl Bits<207> for BitsImpl<207> { type Store = [u128; 2]; proof fn lemma_width() {} }
impl Bits<208> for BitsImpl<208> { type Store = [u128; 2]; proof fn lemma_width() {} }
impl Bits<209> for BitsImpl<209> { type Store = [u128; 2]; proof fn lemma_width() {} }
impl Bits<210> for BitsImpl<210> { type Store = [u128; 2]; proof fn lemma_width() {} }
impl Bits<211> for BitsImpl<211> { type Store = [u128; 2]; proof fn lemma_width() {} }
impl Bits<212> for BitsImpl<212> { type Store = [u128; 2]; proof fn lemma_width() {} }
impl Bits<213> for BitsImpl<213> { type Store = [u128; 2]; proof fn lemma_width() {} }
impl Bits<214> for BitsImpl<214> { type Store = [u128; 2]; proof fn lemma_width() {} }
impl Bits<215> for BitsImpl<215> { type Store = [u128; 2]; proof fn lemma_width() {} }
impl Bits<216> for BitsImpl<216> { type Store = [u128; 2]; proof fn lemma_width() {} }
impl Bits<217> for BitsImpl<217> { type Store = [u128; 2]; proof fn lemma_width() {} }
impl Bits<218> for BitsImpl<218> { type Store = [u128; 2]; proof fn lemma_width() {} }
impl Bits<219> for BitsImpl<219> { type Store = [u128; 2]; proof fn lemma_width() {} }
impl Bits<220> for BitsImpl<220> { type Store = [u128; 2]; proof fn lemma_width() {} }
impl Bits<221> for BitsImpl<221> { type Store = [u128; 2]; proof fn lemma_width() {} }
impl Bits<222> for BitsImpl<222> { type Store = [u128; 2]; proof fn lemma_width() {} }
impl Bits<223> for BitsImpl<223> { type Store = [u128; 2]; proof fn lemma_width() {} }
impl Bits<224> for BitsImpl<224> { type Store = [u128; 2]; proof fn lemma_width() {} }
impl Bits<225> for BitsImpl<225> { type Store = [u128; 2]; proof fn lemma_width() {} }
impl Bits<226> for BitsImpl<226> { type Store = [u128; 2]; proof fn lemma_width() {} }
impl Bits<227> for BitsImpl<227> { type Store = [u128; 2]; proof fn lemma_width() {} }
impl Bits<228> for BitsImpl<228> { type Store = [u128; 2]; proof fn lemma_width() {} }
impl Bits<229> for BitsImpl<229> { type Store = [u128; 2]; proof fn lemma_width() {} }
impl Bits<230> for BitsImpl<230> { type Store = [u128; 2]; proof fn lemma_width() {} }
impl Bits<231> for BitsImpl<231> { type Store = [u128; 2]; proof fn lemma_width() {} }
impl Bits<232> for BitsImpl<232> { type Store = [u128; 2]; proof fn lemma_width() {} }
impl Bits<233> for BitsImpl<233> { type Store = [u128; 2]; proof fn lemma_width() {} }
impl Bits<234> for BitsImpl<234> { type Store = [u128; 2]; proof fn lemma_width() {} }
impl Bits<235> for BitsImpl<235> { type Store = [u128; 2]; proof fn lemma_width() {} }
impl Bits<236> for BitsImpl<236> { type Store = [u128; 2]; proof fn lemma_width() {} }
impl Bits<237> for BitsImpl<237> { type Store = [u128; 2]; proof fn lemma_width() {} }
impl Bits<238> for BitsImpl<238> { type Store = [u128; 2]; proof fn lemma_width() {} }
impl Bits<239> for BitsImpl<239> { type Store = [u128; 2]; proof fn lemma_width() {} }
impl Bits<240> for BitsImpl<240> { type Store = [u128; 2]; proof fn lemma_width() {} }
impl Bits<241> for BitsImpl<241> { type Store = [u128; 2]; proof fn lemma_width() {} }
impl Bits<242> for BitsImpl<242> { type Store = [u128; 2]; proof fn lemma_width() {} }
impl Bits<243> for BitsImpl<243> { type Store = [u128; 2]; proof fn lemma_width() {} }
impl Bits<244> for BitsImpl<244> { type Store = [u128; 2]; proof fn lemma_width() {} }
impl Bits<245> for BitsImpl<245> { type Store = [u128; 2]; proof fn lemma_width() {} }
impl Bits<246> for BitsImpl<246> { type Store = [u128; 2]; proof fn lemma_width() {} }
impl Bits<247> for BitsImpl<247> { type Store = [u128; 2]; proof fn lemma_width() {} }
impl Bits<248> for BitsImpl<248> { type Store = [u128; 2]; proof fn lemma_width() {} }
impl Bits<249> for BitsImpl<249> { type Store = [u128; 2]; proof fn lemma_width() {} }
impl Bits<250> for BitsImpl<250> { type Store = [u128; 2]; proof fn lemma_width() {} }
impl Bits<251> for BitsImpl<251> { type Store = [u128; 2]; proof fn lemma_width() {} }
impl Bits<252> for BitsImpl<252> { type Store = [u128; 2]; proof fn lemma_width() {} }
impl Bits<253> for BitsImpl<253> { type Store = [u128; 2]; proof fn lemma_width() {} }
impl Bits<254> for BitsImpl<254> { type Store = [u128; 2]; proof fn lemma_width() {} }
impl Bits<255> for BitsImpl<255> { type Store = [u128; 2]; proof fn lemma_width() {} }
impl Bits<256> for BitsImpl<256> { type Store = [u128; 2]; proof fn lemma_width() {} }

// Widths 257..=384 live in `[u128; 3]`.
impl Bits<257> for BitsImpl<257> { type Store = [u128; 3]; proof fn lemma_width() {} }
impl Bits<258> for BitsImpl<258> { type Store = [u128; 3]; proof fn lemma_width() {} }
impl Bits<259> for BitsImpl<259> { type Store = [u128; 3]; proof fn lemma_width() {} }
impl Bits<260> for BitsImpl<260> { type Store = [u128; 3]; proof fn lemma_width() {} }
impl Bits<261> for BitsImpl<261> { type Store = [u128; 3]; proof fn lemma_width() {} }
impl Bits<262> for BitsImpl<262> { type Store = [u128; 3]; proof fn lemma_width() {} }
impl Bits<263> for BitsImpl<263> { type Store = [u128; 3]; proof fn lemma_width() {} }
impl Bits<264> for BitsImpl<264> { type Store = [u128; 3]; proof fn lemma_width() {} }
impl Bits<265> for BitsImpl<265> { type Store = [u128; 3]; proof fn lemma_width() {} }
impl Bits<266> for BitsImpl<266> { type Store = [u128; 3]; proof fn lemma_width() {} }
impl Bits<267> for BitsImpl<267> { type Store = [u128; 3]; proof fn lemma_width() {} }
impl Bits<268> for BitsImpl<268> { type Store = [u128; 3]; proof fn lemma_width() {} }
impl Bits<269> for BitsImpl<269> { type Store = [u128; 3]; proof fn lemma_width() {} }
impl Bits<270> for BitsImpl<270> { type Store = [u128; 3]; proof fn lemma_width() {} }
impl Bits<271> for BitsImpl<271> { type Store = [u128; 3]; proof fn lemma_width() {} }
impl Bits<272> for BitsImpl<272> { type Store = [u128; 3]; proof fn lemma_width() {} }
impl Bits<273> for BitsImpl<273> { type Store = [u128; 3]; proof fn lemma_width() {} }
impl Bits<274> for BitsImpl<274> { type Store = [u128; 3]; proof fn lemma_width() {} }
impl Bits<275> for BitsImpl<275> { type Store = [u128; 3]; proof fn lemma_width() {} }
impl Bits<276> for BitsImpl<276> { type Store = [u128; 3]; proof fn lemma_width() {} }
impl Bits<277> for BitsImpl<277> { type Store = [u128; 3]; proof fn lemma_width() {} }
impl Bits<278> for BitsImpl<278> { type Store = [u128; 3]; proof fn lemma_width() {} }
impl Bits<279> for BitsImpl<279> { type Store = [u128; 3]; proof fn lemma_width() {} }
impl Bits<280> for BitsImpl<280> { type Store = [u128; 3]; proof fn lemma_width() {} }
impl Bits<281> for BitsImpl<281> { type Store = [u128; 3]; proof fn lemma_width() {} }
impl Bits<282> for BitsImpl<282> { type Store = [u128; 3]; proof fn lemma_width() {} }
impl Bits<283> for BitsImpl<283> { type Store = [u128; 3]; proof fn lemma_width() {} }
impl Bits<284> for BitsImpl<284> { type Store = [u128; 3]; proof fn lemma_width() {} }
impl Bits<285> for BitsImpl<285> { type Store = [u128; 3]; proof fn lemma_width() {} }
impl Bits<286> for BitsImpl<286> { type Store = [u128; 3]; proof fn lemma_width() {} }
impl Bits<287> for BitsImpl<287> { type Store = [u128; 3]; proof fn lemma_width() {} }
impl Bits<288> for BitsImpl<288> { type Store = [u128; 3]; proof fn lemma_width() {} }
impl Bits<289> for BitsImpl<289> { type Store = [u128; 3]; proof fn lemma_width() {} }
impl Bits<290> for BitsImpl<290> { type Store = [u128; 3]; proof fn lemma_width() {} }
impl Bits<291> for BitsImpl<291> { type Store = [u128; 3]; proof fn lemma_width() {} }
impl Bits<292> for BitsImpl<292> { type Store = [u128; 3]; proof fn lemma_width() {} }
impl Bits<293> for BitsImpl<293> { type Store = [u128; 3]; proof fn lemma_width() {} }
impl Bits<294> for BitsImpl<294> { type Store = [u128; 3]; proof fn lemma_width() {} }
impl Bits<295> for BitsImpl<295> { type Store = [u128; 3]; proof fn lemma_width() {} }
impl Bits<296> for BitsImpl<296> { type Store = [u128; 3]; proof fn lemma_width() {} }
impl Bits<297> for BitsImpl<297> { type Store = [u128; 3]; proof fn lemma_width() {} }
impl Bits<298> for BitsImpl<298> { type Store = [u128; 3]; proof fn lemma_width() {} }
impl Bits<299> for BitsImpl<299> { type Store = [u128; 3]; proof fn lemma_width() {} }
impl Bits<300> for BitsImpl<300> { type Store = [u128; 3]; proof fn lemma_width() {} }
impl Bits<301> for BitsImpl<301> { type Store = [u128; 3]; proof fn lemma_width() {} }
impl Bits<302> for BitsImpl<302> { type Store = [u128; 3]; proof fn lemma_width() {} }
impl Bits<303> for BitsImpl<303> { type Store = [u128; 3]; proof fn lemma_width() {} }
impl Bits<304> for BitsImpl<304> { type Store = [u128; 3]; proof fn lemma_width() {} }
impl Bits<305> for BitsImpl<305> { type Store = [u128; 3]; proof fn lemma_width() {} }
impl Bits<306> for BitsImpl<306> { type Store = [u128; 3]; proof fn lemma_width() {} }
impl Bits<307> for BitsImpl<307> { type Store = [u128; 3]; proof fn lemma_width() {} }
impl Bits<308> for BitsImpl<308> { type Store = [u128; 3]; proof fn lemma_width() {} }
impl Bits<309> for BitsImpl<309> { type Store = [u128; 3]; proof fn lemma_width() {} }
impl Bits<310> for BitsImpl<310> { type Store = [u128; 3]; proof fn lemma_width() {} }
impl Bits<311> for BitsImpl<311> { type Store = [u128; 3]; proof fn lemma_width() {} }
impl Bits<312> for BitsImpl<312> { type Store = [u128; 3]; proof fn lemma_width() {} }
impl Bits<313> for BitsImpl<313> { type Store = [u128; 3]; proof fn lemma_width() {} }
impl Bits<314> for BitsImpl<314> { type Store = [u128; 3]; proof fn lemma_width() {} }
impl Bits<315> for BitsImpl<315> { type Store = [u128; 3]; proof fn lemma_width() {} }
impl Bits<316> for BitsImpl<316> { type Store = [u128; 3]; proof fn lemma_width() {} }
impl Bits<317> for BitsImpl<317> { type Store = [u128; 3]; proof fn lemma_width() {} }
impl Bits<318> for BitsImpl<318> { type Store = [u128; 3]; proof fn lemma_width() {} }
impl Bits<319> for BitsImpl<319> { type Store = [u128; 3]; proof fn lemma_width() {} }
impl Bits<320> for BitsImpl<320> { type Store = [u128; 3]; proof fn lemma_width() {} }
impl Bits<321> for BitsImpl<321> { type Store = [u128; 3]; proof fn lemma_width() {} }
impl Bits<322> for BitsImpl<322> { type Store = [u128; 3]; proof fn lemma_width() {} }
impl Bits<323> for BitsImpl<323> { type Store = [u128; 3]; proof fn lemma_width() {} }
impl Bits<324> for BitsImpl<324> { type Store = [u128; 3]; proof fn lemma_width() {} }
impl Bits<325> for BitsImpl<325> { type Store = [u128; 3]; proof fn lemma_width() {} }
impl Bits<326> for BitsImpl<326> { type Store = [u128; 3]; proof fn lemma_width() {} }
impl Bits<327> for BitsImpl<327> { type Store = [u128; 3]; proof fn lemma_width() {} }
impl Bits<328> for BitsImpl<328> { type Store = [u128; 3]; proof fn lemma_width() {} }
impl Bits<329> for BitsImpl<329> { type Store = [u128; 3]; proof fn lemma_width() {} }
impl Bits<330> for BitsImpl<330> { type Store = [u128; 3]; proof fn lemma_width() {} }
impl Bits<331> for BitsImpl<331> { type Store = [u128; 3]; proof fn lemma_width() {} }
impl Bits<332> for BitsImpl<332> { type Store = [u128; 3]; proof fn lemma_width() {} }
impl Bits<333> for BitsImpl<333> { type Store = [u128; 3]; proof fn lemma_width() {} }
impl Bits<334> for BitsImpl<334> { type Store = [u128; 3]; proof fn lemma_width() {} }
impl Bits<335> for BitsImpl<335> { type Store = [u128; 3]; proof fn lemma_width() {} }
impl Bits<336> for BitsImpl<336> { type Store = [u128; 3]; proof fn lemma_width() {} }
impl Bits<337> for BitsImpl<337> { type Store = [u128; 3]; proof fn lemma_width() {} }
impl Bits<338> for BitsImpl<338> { type Store = [u128; 3]; proof fn lemma_width() {} }
impl Bits<339> for BitsImpl<339> { type Store = [u128; 3]; proof fn lemma_width() {} }
impl Bits<340> for BitsImpl<340> { type Store = [u128; 3]; proof fn lemma_width() {} }
impl Bits<341> for BitsImpl<341> { type Store = [u128; 3]; proof fn lemma_width() {} }
impl Bits<342> for BitsImpl<342> { type Store = [u128; 3]; proof fn lemma_width() {} }
impl Bits<343> for BitsImpl<343> { type Store = [u128; 3]; proof fn lemma_width() {} }
impl Bits<344> for BitsImpl<344> { type Store = [u128; 3]; proof fn lemma_width() {} }
impl Bits<345> for BitsImpl<345> { type Store = [u128; 3]; proof fn lemma_width() {} }
impl Bits<346> for BitsImpl<346> { type Store = [u128; 3]; proof fn lemma_width() {} }
impl Bits<347> for BitsImpl<347> { type Store = [u128; 3]; proof fn lemma_width() {} }
impl Bits<348> for BitsImpl<348> { type Store = [u128; 3]; proof fn lemma_width() {} }
impl Bits<349> for BitsImpl<349> { type Store = [u128; 3]; proof fn lemma_width() {} }
impl Bits<350> for BitsImpl<350> { type Store = [u128; 3]; proof fn lemma_width() {} }
impl Bits<351> for BitsImpl<351> { type Store = [u128; 3]; proof fn lemma_width() {} }
impl Bits<352> for BitsImpl<352> { type Store = [u128; 3]; proof fn lemma_width() {} }
impl Bits<353> for BitsImpl<353> { type Store = [u128; 3]; proof fn lemma_width() {} }
impl Bits<354> for BitsImpl<354> { type Store = [u128; 3]; proof fn lemma_width() {} }
impl Bits<355> for BitsImpl<355> { type Store = [u128; 3]; proof fn lemma_width() {} }
impl Bits<356> for BitsImpl<356> { type Store = [u128; 3]; proof fn lemma_width() {} }
impl Bits<357> for BitsImpl<357> { type Store = [u128; 3]; proof fn lemma_width() {} }
impl Bits<358> for BitsImpl<358> { type Store = [u128; 3]; proof fn lemma_width() {} }
impl Bits<359> for BitsImpl<359> { type Store = [u128; 3]; proof fn lemma_width() {} }
impl Bits<360> for BitsImpl<360> { type Store = [u128; 3]; proof fn lemma_width() {} }
impl Bits<361> for BitsImpl<361> { type Store = [u128; 3]; proof fn lemma_width() {} }
impl Bits<362> for BitsImpl<362> { type Store = [u128; 3]; proof fn lemma_width() {} }
impl Bits<363> for BitsImpl<363> { type Store = [u128; 3]; proof fn lemma_width() {} }
impl Bits<364> for BitsImpl<364> { type Store = [u128; 3]; proof fn lemma_width() {} }
impl Bits<365> for BitsImpl<365> { type Store = [u128; 3]; proof fn lemma_width() {} }
impl Bits<366> for BitsImpl<366> { type Store = [u128; 3]; proof fn lemma_width() {} }
impl Bits<367> for BitsImpl<367> { type Store = [u128; 3]; proof fn lemma_width() {} }
impl Bits<368> for BitsImpl<368> { type Store = [u128; 3]; proof fn lemma_width() {} }
impl Bits<369> for BitsImpl<369> { type Store = [u128; 3]; proof fn lemma_width() {} }
impl Bits<370> for BitsImpl<370> { type Store = [u128; 3]; proof fn lemma_width() {} }
impl Bits<371> for BitsImpl<371> { type Store = [u128; 3]; proof fn lemma_width() {} }
impl Bits<372> for BitsImpl<372> { type Store = [u128; 3]; proof fn lemma_width() {} }
impl Bits<373> for BitsImpl<373> { type Store = [u128; 3]; proof fn lemma_width() {} }
impl Bits<374> for BitsImpl<374> { type Store = [u128; 3]; proof fn lemma_width() {} }
impl Bits<375> for BitsImpl<375> { type Store = [u128; 3]; proof fn lemma_width() {} }
impl Bits<376> for BitsImpl<376> { type Store = [u128; 3]; proof fn lemma_width() {} }
impl Bits<377> for BitsImpl<377> { type Store = [u128; 3]; proof fn lemma_width() {} }
impl Bits<378> for BitsImpl<378> { type Store = [u128; 3]; proof fn lemma_width() {} }
impl Bits<379> for BitsImpl<379> { type Store = [u128; 3]; proof fn lemma_width() {} }
impl Bits<380> for BitsImpl<380> { type Store = [u128; 3]; proof fn lemma_width() {} }
impl Bits<381> for BitsImpl<381> { type Store = [u128; 3]; proof fn lemma_width() {} }
impl Bits<382> for BitsImpl<382> { type Store = [u128; 3]; proof fn lemma_width() {} }
impl Bits<383> for BitsImpl<383> { type Store = [u128; 3]; proof fn lemma_width() {} }
impl Bits<384> for BitsImpl<384> { type Store = [u128; 3]; proof fn lemma_width() {} }

// Widths 385..=512 live in `[u128; 4]`.
impl Bits<385> for BitsImpl<385> { type Store = [u128; 4]; proof fn lemma_width() {} }
impl Bits<386> for BitsImpl<386> { type Store = [u128; 4]; proof fn lemma_width() {} }
impl Bits<387> for BitsImpl<387> { type Store = [u128; 4]; proof fn lemma_width() {} }
impl Bits<388> for BitsImpl<388> { type Store = [u128; 4]; proof fn lemma_width() {} }
impl Bits<389> for BitsImpl<389> { type Store = [u128; 4]; proof fn lemma_width() {} }
impl Bits<390> for BitsImpl<390> { type Store = [u128; 4]; proof fn lemma_width() {} }
impl Bits<391> for BitsImpl<391> { type Store = [u128; 4]; proof fn lemma_width() {} }
impl Bits<392> for BitsImpl<392> { type Store = [u128; 4]; proof fn lemma_width() {} }
impl Bits<393> for BitsImpl<393> { type Store = [u128; 4]; proof fn lemma_width() {} }
impl Bits<394> for BitsImpl<394> { type Store = [u128; 4]; proof fn lemma_width() {} }
impl Bits<395> for BitsImpl<395> { type Store = [u128; 4]; proof fn lemma_width() {} }
impl Bits<396> for BitsImpl<396> { type Store = [u128; 4]; proof fn lemma_width() {} }
impl Bits<397> for BitsImpl<397> { type Store = [u128; 4]; proof fn lemma_width() {} }
impl Bits<398> for BitsImpl<398> { type Store = [u128; 4]; proof fn lemma_width() {} }
impl Bits<399> for BitsImpl<399> { type Store = [u128; 4]; proof fn lemma_width() {} }
impl Bits<400> for BitsImpl<400> { type Store = [u128; 4]; proof fn lemma_width() {} }
impl Bits<401> for BitsImpl<401> { type Store = [u128; 4]; proof fn lemma_width() {} }
impl Bits<402> for BitsImpl<402> { type Store = [u128; 4]; proof fn lemma_width() {} }
impl Bits<403> for BitsImpl<403> { type Store = [u128; 4]; proof fn lemma_width() {} }
impl Bits<404> for BitsImpl<404> { type Store = [u128; 4]; proof fn lemma_width() {} }
impl Bits<405> for BitsImpl<405> { type Store = [u128; 4]; proof fn lemma_width() {} }
impl Bits<406> for BitsImpl<406> { type Store = [u128; 4]; proof fn lemma_width() {} }
impl Bits<407> for BitsImpl<407> { type Store = [u128; 4]; proof fn lemma_width() {} }
impl Bits<408> for BitsImpl<408> { type Store = [u128; 4]; proof fn lemma_width() {} }
impl Bits<409> for BitsImpl<409> { type Store = [u128; 4]; proof fn lemma_width() {} }
impl Bits<410> for BitsImpl<410> { type Store = [u128; 4]; proof fn lemma_width() {} }
impl Bits<411> for BitsImpl<411> { type Store = [u128; 4]; proof fn lemma_width() {} }
impl Bits<412> for BitsImpl<412> { type Store = [u128; 4]; proof fn lemma_width() {} }
impl Bits<413> for BitsImpl<413> { type Store = [u128; 4]; proof fn lemma_width() {} }
impl Bits<414> for BitsImpl<414> { type Store = [u128; 4]; proof fn lemma_width() {} }
impl Bits<415> for BitsImpl<415> { type Store = [u128; 4]; proof fn lemma_width() {} }
impl Bits<416> for BitsImpl<416> { type Store = [u128; 4]; proof fn lemma_width() {} }
impl Bits<417> for BitsImpl<417> { type Store = [u128; 4]; proof fn lemma_width() {} }
impl Bits<418> for BitsImpl<418> { type Store = [u128; 4]; proof fn lemma_width() {} }
impl Bits<419> for BitsImpl<419> { type Store = [u128; 4]; proof fn lemma_width() {} }
impl Bits<420> for BitsImpl<420> { type Store = [u128; 4]; proof fn lemma_width() {} }
impl Bits<421> for BitsImpl<421> { type Store = [u128; 4]; proof fn lemma_width() {} }
impl Bits<422> for BitsImpl<422> { type Store = [u128; 4]; proof fn lemma_width() {} }
impl Bits<423> for BitsImpl<423> { type Store = [u128; 4]; proof fn lemma_width() {} }
impl Bits<424> for BitsImpl<424> { type Store = [u128; 4]; proof fn lemma_width() {} }
impl Bits<425> for BitsImpl<425> { type Store = [u128; 4]; proof fn lemma_width() {} }
impl Bits<426> for BitsImpl<426> { type Store = [u128; 4]; proof fn lemma_width() {} }
impl Bits<427> for BitsImpl<427> { type Store = [u128; 4]; proof fn lemma_width() {} }
impl Bits<428> for BitsImpl<428> { type Store = [u128; 4]; proof fn lemma_width() {} }
impl Bits<429> for BitsImpl<429> { type Store = [u128; 4]; proof fn lemma_width() {} }
impl Bits<430> for BitsImpl<430> { type Store = [u128; 4]; proof fn lemma_width() {} }
impl Bits<431> for BitsImpl<431> { type Store = [u128; 4]; proof fn lemma_width() {} }
impl Bits<432> for BitsImpl<432> { type Store = [u128; 4]; proof fn lemma_width() {} }
impl Bits<433> for BitsImpl<433> { type Store = [u128; 4]; proof fn lemma_width() {} }
impl Bits<434> for BitsImpl<434> { type Store = [u128; 4]; proof fn lemma_width() {} }
impl Bits<435> for BitsImpl<435> { type Store = [u128; 4]; proof fn lemma_width() {} }
impl Bits<436> for BitsImpl<436> { type Store = [u128; 4]; proof fn lemma_width() {} }
impl Bits<437> for BitsImpl<437> { type Store = [u128; 4]; proof fn lemma_width() {} }
impl Bits<438> for BitsImpl<438> { type Store = [u128; 4]; proof fn lemma_width() {} }
impl Bits<439> for BitsImpl<439> { type Store = [u128; 4]; proof fn lemma_width() {} }
impl Bits<440> for BitsImpl<440> { type Store = [u128; 4]; proof fn lemma_width() {} }
impl Bits<441> for BitsImpl<441> { type Store = [u128; 4]; proof fn lemma_width() {} }
impl Bits<442> for BitsImpl<442> { type Store = [u128; 4]; proof fn lemma_width() {} }
impl Bits<443> for BitsImpl<443> { type Store = [u128; 4]; proof fn lemma_width() {} }
impl Bits<444> for BitsImpl<444> { type Store = [u128; 4]; proof fn lemma_width() {} }
impl Bits<445> for BitsImpl<445> { type Store = [u128; 4]; proof fn lemma_width() {} }
impl Bits<446> for BitsImpl<446> { type Store = [u128; 4]; proof fn lemma_width() {} }
impl Bits<447> for BitsImpl<447> { type Store = [u128; 4]; proof fn lemma_width() {} }
impl Bits<448> for BitsImpl<448> { type Store = [u128; 4]; proof fn lemma_width() {} }
impl Bits<449> for BitsImpl<449> { type Store = [u128; 4]; proof fn lemma_width() {} }
impl Bits<450> for BitsImpl<450> { type Store = [u128; 4]; proof fn lemma_width() {} }
impl Bits<451> for BitsImpl<451> { type Store = [u128; 4]; proof fn lemma_width() {} }
impl Bits<452> for BitsImpl<452> { type Store = [u128; 4]; proof fn lemma_width() {} }
impl Bits<453> for BitsImpl<453> { type Store = [u128; 4]; proof fn lemma_width() {} }
impl Bits<454> for BitsImpl<454> { type Store = [u128; 4]; proof fn lemma_width() {} }
impl Bits<455> for BitsImpl<455> { type Store = [u128; 4]; proof fn lemma_width() {} }
impl Bits<456> for BitsImpl<456> { type Store = [u128; 4]; proof fn lemma_width() {} }
impl Bits<457> for BitsImpl<457> { type Store = [u128; 4]; proof fn lemma_width() {} }
impl Bits<458> for BitsImpl<458> { type Store = [u128; 4]; proof fn lemma_width() {} }
impl Bits<459> for BitsImpl<459> { type Store = [u128; 4]; proof fn lemma_width() {} }
impl Bits<460> for BitsImpl<460> { type Store = [u128; 4]; proof fn lemma_width() {} }
impl Bits<461> for BitsImpl<461> { type Store = [u128; 4]; proof fn lemma_width() {} }
impl Bits<462> for BitsImpl<462> { type Store = [u128; 4]; proof fn lemma_width() {} }
impl Bits<463> for BitsImpl<463> { type Store = [u128; 4]; proof fn lemma_width() {} }
impl Bits<464> for BitsImpl<464> { type Store = [u128; 4]; proof fn lemma_width() {} }
impl Bits<465> for BitsImpl<465> { type Store = [u128; 4]; proof fn lemma_width() {} }
impl Bits<466> for BitsImpl<466> { type Store = [u128; 4]; proof fn lemma_width() {} }
impl Bits<467> for BitsImpl<467> { type Store = [u128; 4]; proof fn lemma_width() {} }
impl Bits<468> for BitsImpl<468> { type Store = [u128; 4]; proof fn lemma_width() {} }
impl Bits<469> for BitsImpl<469> { type Store = [u128; 4]; proof fn lemma_width() {} }
impl Bits<470> for BitsImpl<470> { type Store = [u128; 4]; proof fn lemma_width() {} }
impl Bits<471> for BitsImpl<471> { type Store = [u128; 4]; proof fn lemma_width() {} }
impl Bits<472> for BitsImpl<472> { type Store = [u128; 4]; proof fn lemma_width() {} }
impl Bits<473> for BitsImpl<473> { type Store = [u128; 4]; proof fn lemma_width() {} }
impl Bits<474> for BitsImpl<474> { type Store = [u128; 4]; proof fn lemma_width() {} }
impl Bits<475> for BitsImpl<475> { type Store = [u128; 4]; proof fn lemma_width() {} }
impl Bits<476> for BitsImpl<476> { type Store = [u128; 4]; proof fn lemma_width() {} }
impl Bits<477> for BitsImpl<477> { type Store = [u128; 4]; proof fn lemma_width() {} }
impl Bits<478> for BitsImpl<478> { type Store = [u128; 4]; proof fn lemma_width() {} }
impl Bits<479> for BitsImpl<479> { type Store = [u128; 4]; proof fn lemma_width() {} }
impl Bits<480> for BitsImpl<480> { type Store = [u128; 4]; proof fn lemma_width() {} }
impl Bits<481> for BitsImpl<481> { type Store = [u128; 4]; proof fn lemma_width() {} }
impl Bits<482> for BitsImpl<482> { type Store = [u128; 4]; proof fn lemma_width() {} }
impl Bits<483> for BitsImpl<483> { type Store = [u128; 4]; proof fn lemma_width() {} }
impl Bits<484> for BitsImpl<484> { type Store = [u128; 4]; proof fn lemma_width() {} }
impl Bits<485> for BitsImpl<485> { type Store = [u128; 4]; proof fn lemma_width() {} }
impl Bits<486> for BitsImpl<486> { type Store = [u128; 4]; proof fn lemma_width() {} }
impl Bits<487> for BitsImpl<487> { type Store = [u128; 4]; proof fn lemma_width() {} }
impl Bits<488> for BitsImpl<488> { type Store = [u128; 4]; proof fn lemma_width() {} }
impl Bits<489> for BitsImpl<489> { type Store = [u128; 4]; proof fn lemma_width() {} }
impl Bits<490> for BitsImpl<490> { type Store = [u128; 4]; proof fn lemma_width() {} }
impl Bits<491> for BitsImpl<491> { type Store = [u128; 4]; proof fn lemma_width() {} }
impl Bits<492> for BitsImpl<492> { type Store = [u128; 4]; proof fn lemma_width() {} }
impl Bits<493> for BitsImpl<493> { type Store = [u128; 4]; proof fn lemma_width() {} }
impl Bits<494> for BitsImpl<494> { type Store = [u128; 4]; proof fn lemma_width() {} }
impl Bits<495> for BitsImpl<495> { type Store = [u128; 4]; proof fn lemma_width() {} }
impl Bits<496> for BitsImpl<496> { type Store = [u128; 4]; proof fn lemma_width() {} }
impl Bits<497> for BitsImpl<497> { type Store = [u128; 4]; proof fn lemma_width() {} }
impl Bits<498> for BitsImpl<498> { type Store = [u128; 4]; proof fn lemma_width() {} }
impl Bits<499> for BitsImpl<499> { type Store = [u128; 4]; proof fn lemma_width() {} }
impl Bits<500> for BitsImpl<500> { type Store = [u128; 4]; proof fn lemma_width() {} }
impl Bits<501> for BitsImpl<501> { type Store = [u128; 4]; proof fn lemma_width() {} }
impl Bits<502> for BitsImpl<502> { type Store = [u128; 4]; proof fn lemma_width() {} }
impl Bits<503> for BitsImpl<503> { type Store = [u128; 4]; proof fn lemma_width() {} }
impl Bits<504> for BitsImpl<504> { type Store = [u128; 4]; proof fn lemma_width() {} }
impl Bits<505> for BitsImpl<505> { type Store = [u128; 4]; proof fn lemma_width() {} }
impl Bits<506> for BitsImpl<506> { type Store = [u128; 4]; proof fn lemma_width() {} }
impl Bits<507> for BitsImpl<507> { type Store = [u128; 4]; proof fn lemma_width() {} }
impl Bits<508> for BitsImpl<508> { type Store = [u128; 4]; proof fn lemma_width() {} }
impl Bits<509> for BitsImpl<509> { type Store = [u128; 4]; proof fn lemma_width() {} }
impl Bits<510> for BitsImpl<510> { type Store = [u128; 4]; proof fn lemma_width() {} }
impl Bits<511> for BitsImpl<511> { type Store = [u128; 4]; proof fn lemma_width() {} }
impl Bits<512> for BitsImpl<512> { type Store = [u128; 4]; proof fn lemma_width() {} }

// Widths 513..=640 live in `[u128; 5]`.
impl Bits<513> for BitsImpl<513> { type Store = [u128; 5]; proof fn lemma_width() {} }
impl Bits<514> for BitsImpl<514> { type Store = [u128; 5]; proof fn lemma_width() {} }
impl Bits<515> for BitsImpl<515> { type Store = [u128; 5]; proof fn lemma_width() {} }
impl Bits<516> for BitsImpl<516> { type Store = [u128; 5]; proof fn lemma_width() {} }
impl Bits<517> for BitsImpl<517> { type Store = [u128; 5]; proof fn lemma_width() {} }
impl Bits<518> for BitsImpl<518> { type Store = [u128; 5]; proof fn lemma_width() {} }
impl Bits<519> for BitsImpl<519> { type Store = [u128; 5]; proof fn lemma_width() {} }
impl Bits<520> for BitsImpl<520> { type Store = [u128; 5]; proof fn lemma_width() {} }
impl Bits<521> for BitsImpl<521> { type Store = [u128; 5]; proof fn lemma_width() {} }
impl Bits<522> for BitsImpl<522> { type Store = [u128; 5]; proof fn lemma_width() {} }
impl Bits<523> for BitsImpl<523> { type Store = [u128; 5]; proof fn lemma_width() {} }
impl Bits<524> for BitsImpl<524> { type Store = [u128; 5]; proof fn lemma_width() {} }
impl Bits<525> for BitsImpl<525> { type Store = [u128; 5]; proof fn lemma_width() {} }
impl Bits<526> for BitsImpl<526> { type Store = [u128; 5]; proof fn lemma_width() {} }
impl Bits<527> for BitsImpl<527> { type Store = [u128; 5]; proof fn lemma_width() {} }
impl Bits<528> for BitsImpl<528> { type Store = [u128; 5]; proof fn lemma_width() {} }
impl Bits<529> for BitsImpl<529> { type Store = [u128; 5]; proof fn lemma_width() {} }
impl Bits<530> for BitsImpl<530> { type Store = [u128; 5]; proof fn lemma_width() {} }
impl Bits<531> for BitsImpl<531> { type Store = [u128; 5]; proof fn lemma_width() {} }
impl Bits<532> for BitsImpl<532> { type Store = [u128; 5]; proof fn lemma_width() {} }
impl Bits<533> for BitsImpl<533> { type Store = [u128; 5]; proof fn lemma_width() {} }
impl Bits<534> for BitsImpl<534> { type Store = [u128; 5]; proof fn lemma_width() {} }
impl Bits<535> for BitsImpl<535> { type Store = [u128; 5]; proof fn lemma_width() {} }
impl Bits<536> for BitsImpl<536> { type Store = [u128; 5]; proof fn lemma_width() {} }
impl Bits<537> for BitsImpl<537> { type Store = [u128; 5]; proof fn lemma_width() {} }
impl Bits<538> for BitsImpl<538> { type Store = [u128; 5]; proof fn lemma_width() {} }
impl Bits<539> for BitsImpl<539> { type Store = [u128; 5]; proof fn lemma_width() {} }
impl Bits<540> for BitsImpl<540> { type Store = [u128; 5]; proof fn lemma_width() {} }
impl Bits<541> for BitsImpl<541> { type Store = [u128; 5]; proof fn lemma_width() {} }
impl Bits<542> for BitsImpl<542> { type Store = [u128; 5]; proof fn lemma_width() {} }
impl Bits<543> for BitsImpl<543> { type Store = [u128; 5]; proof fn lemma_width() {} }
impl Bits<544> for BitsImpl<544> { type Store = [u128; 5]; proof fn lemma_width() {} }
impl Bits<545> for BitsImpl<545> { type Store = [u128; 5]; proof fn lemma_width() {} }
impl Bits<546> for BitsImpl<546> { type Store = [u128; 5]; proof fn lemma_width() {} }
impl Bits<547> for BitsImpl<547> { type Store = [u128; 5]; proof fn lemma_width() {} }
impl Bits<548> for BitsImpl<548> { type Store = [u128; 5]; proof fn lemma_width() {} }
impl Bits<549> for BitsImpl<549> { type Store = [u128; 5]; proof fn lemma_width() {} }
impl Bits<550> for BitsImpl<550> { type Store = [u128; 5]; proof fn lemma_width() {} }
impl Bits<551> for BitsImpl<551> { type Store = [u128; 5]; proof fn lemma_width() {} }
impl Bits<552> for BitsImpl<552> { type Store = [u128; 5]; proof fn lemma_width() {} }
impl Bits<553> for BitsImpl<553> { type Store = [u128; 5]; proof fn lemma_width() {} }
impl Bits<554> for BitsImpl<554> { type Store = [u128; 5]; proof fn lemma_width() {} }
impl Bits<555> for BitsImpl<555> { type Store = [u128; 5]; proof fn lemma_width() {} }
impl Bits<556> for BitsImpl<556> { type Store = [u128; 5]; proof fn lemma_width() {} }
impl Bits<557> for BitsImpl<557> { type Store = [u128; 5]; proof fn lemma_width() {} }
impl Bits<558> for BitsImpl<558> { type Store = [u128; 5]; proof fn lemma_width() {} }
impl Bits<559> for BitsImpl<559> { type Store = [u128; 5]; proof fn lemma_width() {} }
impl Bits<560> for BitsImpl<560> { type Store = [u128; 5]; proof fn lemma_width() {} }
impl Bits<561> for BitsImpl<561> { type Store = [u128; 5]; proof fn lemma_width() {} }
impl Bits<562> for BitsImpl<562> { type Store = [u128; 5]; proof fn lemma_width() {} }
impl Bits<563> for BitsImpl<563> { type Store = [u128; 5]; proof fn lemma_width() {} }
impl Bits<564> for BitsImpl<564> { type Store = [u128; 5]; proof fn lemma_width() {} }
impl Bits<565> for BitsImpl<565> { type Store = [u128; 5]; proof fn lemma_width() {} }
impl Bits<566> for BitsImpl<566> { type Store = [u128; 5]; proof fn lemma_width() {} }
impl Bits<567> for BitsImpl<567> { type Store = [u128; 5]; proof fn lemma_width() {} }
impl Bits<568> for BitsImpl<568> { type Store = [u128; 5]; proof fn lemma_width() {} }
impl Bits<569> for BitsImpl<569> { type Store = [u128; 5]; proof fn lemma_width() {} }
impl Bits<570> for BitsImpl<570> { type Store = [u128; 5]; proof fn lemma_width() {} }
impl Bits<571> for BitsImpl<571> { type Store = [u128; 5]; proof fn lemma_width() {} }
impl Bits<572> for BitsImpl<572> { type Store = [u128; 5]; proof fn lemma_width() {} }
impl Bits<573> for BitsImpl<573> { type Store = [u128; 5]; proof fn lemma_width() {} }
impl Bits<574> for BitsImpl<574> { type Store = [u128; 5]; proof fn lemma_width() {} }
impl Bits<575> for BitsImpl<575> { type Store = [u128; 5]; proof fn lemma_width() {} }
impl Bits<576> for BitsImpl<576> { type Store = [u128; 5]; proof fn lemma_width() {} }
impl Bits<577> for BitsImpl<577> { type Store = [u128; 5]; proof fn lemma_width() {} }
impl Bits<578> for BitsImpl<578> { type Store = [u128; 5]; proof fn lemma_width() {} }
impl Bits<579> for BitsImpl<579> { type Store = [u128; 5]; proof fn lemma_width() {} }
impl Bits<580> for BitsImpl<580> { type Store = [u128; 5]; proof fn lemma_width() {} }
impl Bits<581> for BitsImpl<581> { type Store = [u128; 5]; proof fn lemma_width() {} }
impl Bits<582> for BitsImpl<582> { type Store = [u128; 5]; proof fn lemma_width() {} }
impl Bits<583> for BitsImpl<583> { type Store = [u128; 5]; proof fn lemma_width() {} }
impl Bits<584> for BitsImpl<584> { type Store = [u128; 5]; proof fn lemma_width() {} }
impl Bits<585> for BitsImpl<585> { type Store = [u128; 5]; proof fn lemma_width() {} }
impl Bits<586> for BitsImpl<586> { type Store = [u128; 5]; proof fn lemma_width() {} }
impl Bits<587> for BitsImpl<587> { type Store = [u128; 5]; proof fn lemma_width() {} }
impl Bits<588> for BitsImpl<588> { type Store = [u128; 5]; proof fn lemma_width() {} }
impl Bits<589> for BitsImpl<589> { type Store = [u128; 5]; proof fn lemma_width() {} }
impl Bits<590> for BitsImpl<590> { type Store = [u128; 5]; proof fn lemma_width() {} }
impl Bits<591> for BitsImpl<591> { type Store = [u128; 5]; proof fn lemma_width() {} }
impl Bits<592> for BitsImpl<592> { type Store = [u128; 5]; proof fn lemma_width() {} }
impl Bits<593> for BitsImpl<593> { type Store = [u128; 5]; proof fn lemma_width() {} }
impl Bits<594> for BitsImpl<594> { type Store = [u128; 5]; proof fn lemma_width() {} }
impl Bits<595> for BitsImpl<595> { type Store = [u128; 5]; proof fn lemma_width() {} }
impl Bits<596> for BitsImpl<596> { type Store = [u128; 5]; proof fn lemma_width() {} }
impl Bits<597> for BitsImpl<597> { type Store = [u128; 5]; proof fn lemma_width() {} }
impl Bits<598> for BitsImpl<598> { type Store = [u128; 5]; proof fn lemma_width() {} }
impl Bits<599> for BitsImpl<599> { type Store = [u128; 5]; proof fn lemma_width() {} }
impl Bits<600> for BitsImpl<600> { type Store = [u128; 5]; proof fn lemma_width() {} }
impl Bits<601> for BitsImpl<601> { type Store = [u128; 5]; proof fn lemma_width() {} }
impl Bits<602> for BitsImpl<602> { type Store = [u128; 5]; proof fn lemma_width() {} }
impl Bits<603> for BitsImpl<603> { type Store = [u128; 5]; proof fn lemma_width() {} }
impl Bits<604> for BitsImpl<604> { type Store = [u128; 5]; proof fn lemma_width() {} }
impl Bits<605> for BitsImpl<605> { type Store = [u128; 5]; proof fn lemma_width() {} }
impl Bits<606> for BitsImpl<606> { type Store = [u128; 5]; proof fn lemma_width() {} }
impl Bits<607> for BitsImpl<607> { type Store = [u128; 5]; proof fn lemma_width() {} }
impl Bits<608> for BitsImpl<608> { type Store = [u128; 5]; proof fn lemma_width() {} }
impl Bits<609> for BitsImpl<609> { type Store = [u128; 5]; proof fn lemma_width() {} }
impl Bits<610> for BitsImpl<610> { type Store = [u128; 5]; proof fn lemma_width() {} }
impl Bits<611> for BitsImpl<611> { type Store = [u128; 5]; proof fn lemma_width() {} }
impl Bits<612> for BitsImpl<612> { type Store = [u128; 5]; proof fn lemma_width() {} }
impl Bits<613> for BitsImpl<613> { type Store = [u128; 5]; proof fn lemma_width() {} }
impl Bits<614> for BitsImpl<614> { type Store = [u128; 5]; proof fn lemma_width() {} }
impl Bits<615> for BitsImpl<615> { type Store = [u128; 5]; proof fn lemma_width() {} }
impl Bits<616> for BitsImpl<616> { type Store = [u128; 5]; proof fn lemma_width() {} }
impl Bits<617> for BitsImpl<617> { type Store = [u128; 5]; proof fn lemma_width() {} }
impl Bits<618> for BitsImpl<618> { type Store = [u128; 5]; proof fn lemma_width() {} }
impl Bits<619> for BitsImpl<619> { type Store = [u128; 5]; proof fn lemma_width() {} }
impl Bits<620> for BitsImpl<620> { type Store = [u128; 5]; proof fn lemma_width() {} }
impl Bits<621> for BitsImpl<621> { type Store = [u128; 5]; proof fn lemma_width() {} }
impl Bits<622> for BitsImpl<622> { type Store = [u128; 5]; proof fn lemma_width() {} }
impl Bits<623> for BitsImpl<623> { type Store = [u128; 5]; proof fn lemma_width() {} }
impl Bits<624> for BitsImpl<624> { type Store = [u128; 5]; proof fn lemma_width() {} }
impl Bits<625> for BitsImpl<625> { type Store = [u128; 5]; proof fn lemma_width() {} }
impl Bits<626> for BitsImpl<626> { type Store = [u128; 5]; proof fn lemma_width() {} }
impl Bits<627> for BitsImpl<627> { type Store = [u128; 5]; proof fn lemma_width() {} }
impl Bits<628> for BitsImpl<628> { type Store = [u128; 5]; proof fn lemma_width() {} }
impl Bits<629> for BitsImpl<629> { type Store = [u128; 5]; proof fn lemma_width() {} }
impl Bits<630> for BitsImpl<630> { type Store = [u128; 5]; proof fn lemma_width() {} }
impl Bits<631> for BitsImpl<631> { type Store = [u128; 5]; proof fn lemma_width() {} }
impl Bits<632> for BitsImpl<632> { type Store = [u128; 5]; proof fn lemma_width() {} }
impl Bits<633> for BitsImpl<633> { type Store = [u128; 5]; proof fn lemma_width() {} }
impl Bits<634> for BitsImpl<634> { type Store = [u128; 5]; proof fn lemma_width() {} }
impl Bits<635> for BitsImpl<635> { type Store = [u128; 5]; proof fn lemma_width() {} }
impl Bits<636> for BitsImpl<636> { type Store = [u128; 5]; proof fn lemma_width() {} }
impl Bits<637> for BitsImpl<637> { type Store = [u128; 5]; proof fn lemma_width() {} }
impl Bits<638> for BitsImpl<638> { type Store = [u128; 5]; proof fn lemma_width() {} }
impl Bits<639> for BitsImpl<639> { type Store = [u128; 5]; proof fn lemma_width() {} }
impl Bits<640> for BitsImpl<640> { type Store = [u128; 5]; proof fn lemma_width() {} }

// Widths 641..=768 live in `[u128; 6]`.
impl Bits<641> for BitsImpl<641> { type Store = [u128; 6]; proof fn lemma_width() {} }
impl Bits<642> for BitsImpl<642> { type Store = [u128; 6]; proof fn lemma_width() {} }
impl Bits<643> for BitsImpl<643> { type Store = [u128; 6]; proof fn lemma_width() {} }
impl Bits<644> for BitsImpl<644> { type Store = [u128; 6]; proof fn lemma_width() {} }
impl Bits<645> for BitsImpl<645> { type Store = [u128; 6]; proof fn lemma_width() {} }
impl Bits<646> for BitsImpl<646> { type Store = [u128; 6]; proof fn lemma_width() {} }
impl Bits<647> for BitsImpl<647> { type Store = [u128; 6]; proof fn lemma_width() {} }
impl Bits<648> for BitsImpl<648> { type Store = [u128; 6]; proof fn lemma_width() {} }
impl Bits<649> for BitsImpl<649> { type Store = [u128; 6]; proof fn lemma_width() {} }
impl Bits<650> for BitsImpl<650> { type Store = [u128; 6]; proof fn lemma_width() {} }
impl Bits<651> for BitsImpl<651> { type Store = [u128; 6]; proof fn lemma_width() {} }
impl Bits<652> for BitsImpl<652> { type Store = [u128; 6]; proof fn lemma_width() {} }
impl Bits<653> for BitsImpl<653> { type Store = [u128; 6]; proof fn lemma_width() {} }
impl Bits<654> for BitsImpl<654> { type Store = [u128; 6]; proof fn lemma_width() {} }
impl Bits<655> for BitsImpl<655> { type Store = [u128; 6]; proof fn lemma_width() {} }
impl Bits<656> for BitsImpl<656> { type Store = [u128; 6]; proof fn lemma_width() {} }
impl Bits<657> for BitsImpl<657> { type Store = [u128; 6]; proof fn lemma_width() {} }
impl Bits<658> for BitsImpl<658> { type Store = [u128; 6]; proof fn lemma_width() {} }
impl Bits<659> for BitsImpl<659> { type Store = [u128; 6]; proof fn lemma_width() {} }
impl Bits<660> for BitsImpl<660> { type Store = [u128; 6]; proof fn lemma_width() {} }
impl Bits<661> for BitsImpl<661> { type Store = [u128; 6]; proof fn lemma_width() {} }
impl Bits<662> for BitsImpl<662> { type Store = [u128; 6]; proof fn lemma_width() {} }
impl Bits<663> for BitsImpl<663> { type Store = [u128; 6]; proof fn lemma_width() {} }
impl Bits<664> for BitsImpl<664> { type Store = [u128; 6]; proof fn lemma_width() {} }
impl Bits<665> for BitsImpl<665> { type Store = [u128; 6]; proof fn lemma_width() {} }
impl Bits<666> for BitsImpl<666> { type Store = [u128; 6]; proof fn lemma_width() {} }
impl Bits<667> for BitsImpl<667> { type Store = [u128; 6]; proof fn lemma_width() {} }
impl Bits<668> for BitsImpl<668> { type Store = [u128; 6]; proof fn lemma_width() {} }
impl Bits<669> for BitsImpl<669> { type Store = [u128; 6]; proof fn lemma_width() {} }
impl Bits<670> for BitsImpl<670> { type Store = [u128; 6]; proof fn lemma_width() {} }
impl Bits<671> for BitsImpl<671> { type Store = [u128; 6]; proof fn lemma_width() {} }
impl Bits<672> for BitsImpl<672> { type Store = [u128; 6]; proof fn lemma_width() {} }
impl Bits<673> for BitsImpl<673> { type Store = [u128; 6]; proof fn lemma_width() {} }
impl Bits<674> for BitsImpl<674> { type Store = [u128; 6]; proof fn lemma_width() {} }
impl Bits<675> for BitsImpl<675> { type Store = [u128; 6]; proof fn lemma_width() {} }
impl Bits<676> for BitsImpl<676> { type Store = [u128; 6]; proof fn lemma_width() {} }
impl Bits<677> for BitsImpl<677> { type Store = [u128; 6]; proof fn lemma_width() {} }
impl Bits<678> for BitsImpl<678> { type Store = [u128; 6]; proof fn lemma_width() {} }
impl Bits<679> for BitsImpl<679> { type Store = [u128; 6]; proof fn lemma_width() {} }
impl Bits<680> for BitsImpl<680> { type Store = [u128; 6]; proof fn lemma_width() {} }
impl Bits<681> for BitsImpl<681> { type Store = [u128; 6]; proof fn lemma_width() {} }
impl Bits<682> for BitsImpl<682> { type Store = [u128; 6]; proof fn lemma_width() {} }
impl Bits<683> for BitsImpl<683> { type Store = [u128; 6]; proof fn lemma_width() {} }
impl Bits<684> for BitsImpl<684> { type Store = [u128; 6]; proof fn lemma_width() {} }
impl Bits<685> for BitsImpl<685> { type Store = [u128; 6]; proof fn lemma_width() {} }
impl Bits<686> for BitsImpl<686> { type Store = [u128; 6]; proof fn lemma_width() {} }
impl Bits<687> for BitsImpl<687> { type Store = [u128; 6]; proof fn lemma_width() {} }
impl Bits<688> for BitsImpl<688> { type Store = [u128; 6]; proof fn lemma_width() {} }
impl Bits<689> for BitsImpl<689> { type Store = [u128; 6]; proof fn lemma_width() {} }
impl Bits<690> for BitsImpl<690> { type Store = [u128; 6]; proof fn lemma_width() {} }
impl Bits<691> for BitsImpl<691> { type Store = [u128; 6]; proof fn lemma_width() {} }
impl Bits<692> for BitsImpl<692> { type Store = [u128; 6]; proof fn lemma_width() {} }
impl Bits<693> for BitsImpl<693> { type Store = [u128; 6]; proof fn lemma_width() {} }
impl Bits<694> for BitsImpl<694> { type Store = [u128; 6]; proof fn lemma_width() {} }
impl Bits<695> for BitsImpl<695> { type Store = [u128; 6]; proof fn lemma_width() {} }
impl Bits<696> for BitsImpl<696> { type Store = [u128; 6]; proof fn lemma_width() {} }
impl Bits<697> for BitsImpl<697> { type Store = [u128; 6]; proof fn lemma_width() {} }
impl Bits<698> for BitsImpl<698> { type Store = [u128; 6]; proof fn lemma_width() {} }
impl Bits<699> for BitsImpl<699> { type Store = [u128; 6]; proof fn lemma_width() {} }
impl Bits<700> for BitsImpl<700> { type Store = [u128; 6]; proof fn lemma_width() {} }
impl Bits<701> for BitsImpl<701> { type Store = [u128; 6]; proof fn lemma_width() {} }
impl Bits<702> for BitsImpl<702> { type Store = [u128; 6]; proof fn lemma_width() {} }
impl Bits<703> for BitsImpl<703> { type Store = [u128; 6]; proof fn lemma_width() {} }
impl Bits<704> for BitsImpl<704> { type Store = [u128; 6]; proof fn lemma_width() {} }
impl Bits<705> for BitsImpl<705> { type Store = [u128; 6]; proof fn lemma_width() {} }
impl Bits<706> for BitsImpl<706> { type Store = [u128; 6]; proof fn lemma_width() {} }
impl Bits<707> for BitsImpl<707> { type Store = [u128; 6]; proof fn lemma_width() {} }
impl Bits<708> for BitsImpl<708> { type Store = [u128; 6]; proof fn lemma_width() {} }
impl Bits<709> for BitsImpl<709> { type Store = [u128; 6]; proof fn lemma_width() {} }
impl Bits<710> for BitsImpl<710> { type Store = [u128; 6]; proof fn lemma_width() {} }
impl Bits<711> for BitsImpl<711> { type Store = [u128; 6]; proof fn lemma_width() {} }
impl Bits<712> for BitsImpl<712> { type Store = [u128; 6]; proof fn lemma_width() {} }
impl Bits<713> for BitsImpl<713> { type Store = [u128; 6]; proof fn lemma_width() {} }
impl Bits<714> for BitsImpl<714> { type Store = [u128; 6]; proof fn lemma_width() {} }
impl Bits<715> for BitsImpl<715> { type Store = [u128; 6]; proof fn lemma_width() {} }
impl Bits<716> for BitsImpl<716> { type Store = [u128; 6]; proof fn lemma_width() {} }
impl Bits<717> for BitsImpl<717> { type Store = [u128; 6]; proof fn lemma_width() {} }
impl Bits<718> for BitsImpl<718> { type Store = [u128; 6]; proof fn lemma_width() {} }
impl Bits<719> for BitsImpl<719> { type Store = [u128; 6]; proof fn lemma_width() {} }
impl Bits<720> for BitsImpl<720> { type Store = [u128; 6]; proof fn lemma_width() {} }
impl Bits<721> for BitsImpl<721> { type Store = [u128; 6]; proof fn lemma_width() {} }
impl Bits<722> for BitsImpl<722> { type Store = [u128; 6]; proof fn lemma_width() {} }
impl Bits<723> for BitsImpl<723> { type Store = [u128; 6]; proof fn lemma_width() {} }
impl Bits<724> for BitsImpl<724> { type Store = [u128; 6]; proof fn lemma_width() {} }
impl Bits<725> for BitsImpl<725> { type Store = [u128; 6]; proof fn lemma_width() {} }
impl Bits<726> for BitsImpl<726> { type Store = [u128; 6]; proof fn lemma_width() {} }
impl Bits<727> for BitsImpl<727> { type Store = [u128; 6]; proof fn lemma_width() {} }
impl Bits<728> for BitsImpl<728> { type Store = [u128; 6]; proof fn lemma_width() {} }
impl Bits<729> for BitsImpl<729> { type Store = [u128; 6]; proof fn lemma_width() {} }
impl Bits<730> for BitsImpl<730> { type Store = [u128; 6]; proof fn lemma_width() {} }
impl Bits<731> for BitsImpl<731> { type Store = [u128; 6]; proof fn lemma_width() {} }
impl Bits<732> for BitsImpl<732> { type Store = [u128; 6]; proof fn lemma_width() {} }
impl Bits<733> for BitsImpl<733> { type Store = [u128; 6]; proof fn lemma_width() {} }
impl Bits<734> for BitsImpl<734> { type Store = [u128; 6]; proof fn lemma_width() {} }
impl Bits<735> for BitsImpl<735> { type Store = [u128; 6]; proof fn lemma_width() {} }
impl Bits<736> for BitsImpl<736> { type Store = [u128; 6]; proof fn lemma_width() {} }
impl Bits<737> for BitsImpl<737> { type Store = [u128; 6]; proof fn lemma_width() {} }
impl Bits<738> for BitsImpl<738> { type Store = [u128; 6]; proof fn lemma_width() {} }
impl Bits<739> for BitsImpl<739> { type Store = [u128; 6]; proof fn lemma_width() {} }
impl Bits<740> for BitsImpl<740> { type Store = [u128; 6]; proof fn lemma_width() {} }
impl Bits<741> for BitsImpl<741> { type Store = [u128; 6]; proof fn lemma_width() {} }
impl Bits<742> for BitsImpl<742> { type Store = [u128; 6]; proof fn lemma_width() {} }
impl Bits<743> for BitsImpl<743> { type Store = [u128; 6]; proof fn lemma_width() {} }
impl Bits<744> for BitsImpl<744> { type Store = [u128; 6]; proof fn lemma_width() {} }
impl Bits<745> for BitsImpl<745> { type Store = [u128; 6]; proof fn lemma_width() {} }
impl Bits<746> for BitsImpl<746> { type Store = [u128; 6]; proof fn lemma_width() {} }
impl Bits<747> for BitsImpl<747> { type Store = [u128; 6]; proof fn lemma_width() {} }
impl Bits<748> for BitsImpl<748> { type Store = [u128; 6]; proof fn lemma_width() {} }
impl Bits<749> for BitsImpl<749> { type Store = [u128; 6]; proof fn lemma_width() {} }
impl Bits<750> for BitsImpl<750> { type Store = [u128; 6]; proof fn lemma_width() {} }
impl Bits<751> for BitsImpl<751> { type Store = [u128; 6]; proof fn lemma_width() {} }
impl Bits<752> for BitsImpl<752> { type Store = [u128; 6]; proof fn lemma_width() {} }
impl Bits<753> for BitsImpl<753> { type Store = [u128; 6]; proof fn lemma_width() {} }
impl Bits<754> for BitsImpl<754> { type Store = [u128; 6]; proof fn lemma_width() {} }
impl Bits<755> for BitsImpl<755> { type Store = [u128; 6]; proof fn lemma_width() {} }
impl Bits<756> for BitsImpl<756> { type Store = [u128; 6]; proof fn lemma_width() {} }
impl Bits<757> for BitsImpl<757> { type Store = [u128; 6]; proof fn lemma_width() {} }
impl Bits<758> for BitsImpl<758> { type Store = [u128; 6]; proof fn lemma_width() {} }
impl Bits<759> for BitsImpl<759> { type Store = [u128; 6]; proof fn lemma_width() {} }
impl Bits<760> for BitsImpl<760> { type Store = [u128; 6]; proof fn lemma_width() {} }
impl Bits<761> for BitsImpl<761> { type Store = [u128; 6]; proof fn lemma_width() {} }
impl Bits<762> for BitsImpl<762> { type Store = [u128; 6]; proof fn lemma_width() {} }
impl Bits<763> for BitsImpl<763> { type Store = [u128; 6]; proof fn lemma_width() {} }
impl Bits<764> for BitsImpl<764> { type Store = [u128; 6]; proof fn lemma_width() {} }
impl Bits<765> for BitsImpl<765> { type Store = [u128; 6]; proof fn lemma_width() {} }
impl Bits<766> for BitsImpl<766> { type Store = [u128; 6]; proof fn lemma_width() {} }
impl Bits<767> for BitsImpl<767> { type Store = [u128; 6]; proof fn lemma_width() {} }
impl Bits<768> for BitsImpl<768> { type Store = [u128; 6]; proof fn lemma_width() {} }

// Widths 769..=896 live in `[u128; 7]`.
impl Bits<769> for BitsImpl<769> { type Store = [u128; 7]; proof fn lemma_width() {} }
impl Bits<770> for BitsImpl<770> { type Store = [u128; 7]; proof fn lemma_width() {} }
impl Bits<771> for BitsImpl<771> { type Store = [u128; 7]; proof fn lemma_width() {} }
impl Bits<772> for BitsImpl<772> { type Store = [u128; 7]; proof fn lemma_width() {} }
impl Bits<773> for BitsImpl<773> { type Store = [u128; 7]; proof fn lemma_width() {} }
impl Bits<774> for BitsImpl<774> { type Store = [u128; 7]; proof fn lemma_width() {} }
impl Bits<775> for BitsImpl<775> { type Store = [u128; 7]; proof fn lemma_width() {} }
impl Bits<776> for BitsImpl<776> { type Store = [u128; 7]; proof fn lemma_width() {} }
impl Bits<777> for BitsImpl<777> { type Store = [u128; 7]; proof fn lemma_width() {} }
impl Bits<778> for BitsImpl<778> { type Store = [u128; 7]; proof fn lemma_width() {} }
impl Bits<779> for BitsImpl<779> { type Store = [u128; 7]; proof fn lemma_width() {} }
impl Bits<780> for BitsImpl<780> { type Store = [u128; 7]; proof fn lemma_width() {} }
impl Bits<781> for BitsImpl<781> { type Store = [u128; 7]; proof fn lemma_width() {} }
impl Bits<782> for BitsImpl<782> { type Store = [u128; 7]; proof fn lemma_width() {} }
impl Bits<783> for BitsImpl<783> { type Store = [u128; 7]; proof fn lemma_width() {} }
impl Bits<784> for BitsImpl<784> { type Store = [u128; 7]; proof fn lemma_width() {} }
impl Bits<785> for BitsImpl<785> { type Store = [u128; 7]; proof fn lemma_width() {} }
impl Bits<786> for BitsImpl<786> { type Store = [u128; 7]; proof fn lemma_width() {} }
impl Bits<787> for BitsImpl<787> { type Store = [u128; 7]; proof fn lemma_width() {} }
impl Bits<788> for BitsImpl<788> { type Store = [u128; 7]; proof fn lemma_width() {} }
impl Bits<789> for BitsImpl<789> { type Store = [u128; 7]; proof fn lemma_width() {} }
impl Bits<790> for BitsImpl<790> { type Store = [u128; 7]; proof fn lemma_width() {} }
impl Bits<791> for BitsImpl<791> { type Store = [u128; 7]; proof fn lemma_width() {} }
impl Bits<792> for BitsImpl<792> { type Store = [u128; 7]; proof fn lemma_width() {} }
impl Bits<793> for BitsImpl<793> { type Store = [u128; 7]; proof fn lemma_width() {} }
impl Bits<794> for BitsImpl<794> { type Store = [u128; 7]; proof fn lemma_width() {} }
impl Bits<795> for BitsImpl<795> { type Store = [u128; 7]; proof fn lemma_width() {} }
impl Bits<796> for BitsImpl<796> { type Store = [u128; 7]; proof fn lemma_width() {} }
impl Bits<797> for BitsImpl<797> { type Store = [u128; 7]; proof fn lemma_width() {} }
impl Bits<798> for BitsImpl<798> { type Store = [u128; 7]; proof fn lemma_width() {} }
impl Bits<799> for BitsImpl<799> { type Store = [u128; 7]; proof fn lemma_width() {} }
impl Bits<800> for BitsImpl<800> { type Store = [u128; 7]; proof fn lemma_width() {} }
impl Bits<801> for BitsImpl<801> { type Store = [u128; 7]; proof fn lemma_width() {} }
impl Bits<802> for BitsImpl<802> { type Store = [u128; 7]; proof fn lemma_width() {} }
impl Bits<803> for BitsImpl<803> { type Store = [u128; 7]; proof fn lemma_width() {} }
impl Bits<804> for BitsImpl<804> { type Store = [u128; 7]; proof fn lemma_width() {} }
impl Bits<805> for BitsImpl<805> { type Store = [u128; 7]; proof fn lemma_width() {} }
impl Bits<806> for BitsImpl<806> { type Store = [u128; 7]; proof fn lemma_width() {} }
impl Bits<807> for BitsImpl<807> { type Store = [u128; 7]; proof fn lemma_width() {} }
impl Bits<808> for BitsImpl<808> { type Store = [u128; 7]; proof fn lemma_width() {} }
impl Bits<809> for BitsImpl<809> { type Store = [u128; 7]; proof fn lemma_width() {} }
impl Bits<810> for BitsImpl<810> { type Store = [u128; 7]; proof fn lemma_width() {} }
impl Bits<811> for BitsImpl<811> { type Store = [u128; 7]; proof fn lemma_width() {} }
impl Bits<812> for BitsImpl<812> { type Store = [u128; 7]; proof fn lemma_width() {} }
impl Bits<813> for BitsImpl<813> { type Store = [u128; 7]; proof fn lemma_width() {} }
impl Bits<814> for BitsImpl<814> { type Store = [u128; 7]; proof fn lemma_width() {} }
impl Bits<815> for BitsImpl<815> { type Store = [u128; 7]; proof fn lemma_width() {} }
impl Bits<816> for BitsImpl<816> { type Store = [u128; 7]; proof fn lemma_width() {} }
impl Bits<817> for BitsImpl<817> { type Store = [u128; 7]; proof fn lemma_width() {} }
impl Bits<818> for BitsImpl<818> { type Store = [u128; 7]; proof fn lemma_width() {} }
impl Bits<819> for BitsImpl<819> { type Store = [u128; 7]; proof fn lemma_width() {} }
impl Bits<820> for BitsImpl<820> { type Store = [u128; 7]; proof fn lemma_width() {} }
impl Bits<821> for BitsImpl<821> { type Store = [u128; 7]; proof fn lemma_width() {} }
impl Bits<822> for BitsImpl<822> { type Store = [u128; 7]; proof fn lemma_width() {} }
impl Bits<823> for BitsImpl<823> { type Store = [u128; 7]; proof fn lemma_width() {} }
impl Bits<824> for BitsImpl<824> { type Store = [u128; 7]; proof fn lemma_width() {} }
impl Bits<825> for BitsImpl<825> { type Store = [u128; 7]; proof fn lemma_width() {} }
impl Bits<826> for BitsImpl<826> { type Store = [u128; 7]; proof fn lemma_width() {} }
impl Bits<827> for BitsImpl<827> { type Store = [u128; 7]; proof fn lemma_width() {} }
impl Bits<828> for BitsImpl<828> { type Store = [u128; 7]; proof fn lemma_width() {} }
impl Bits<829> for BitsImpl<829> { type Store = [u128; 7]; proof fn lemma_width() {} }
impl Bits<830> for BitsImpl<830> { type Store = [u128; 7]; proof fn lemma_width() {} }
impl Bits<831> for BitsImpl<831> { type Store = [u128; 7]; proof fn lemma_width() {} }
impl Bits<832> for BitsImpl<832> { type Store = [u128; 7]; proof fn lemma_width() {} }
impl Bits<833> for BitsImpl<833> { type Store = [u128; 7]; proof fn lemma_width() {} }
impl Bits<834> for BitsImpl<834> { type Store = [u128; 7]; proof fn lemma_width() {} }
impl Bits<835> for BitsImpl<835> { type Store = [u128; 7]; proof fn lemma_width() {} }
impl Bits<836> for BitsImpl<836> { type Store = [u128; 7]; proof fn lemma_width() {} }
impl Bits<837> for BitsImpl<837> { type Store = [u128; 7]; proof fn lemma_width() {} }
impl Bits<838> for BitsImpl<838> { type Store = [u128; 7]; proof fn lemma_width() {} }
impl Bits<839> for BitsImpl<839> { type Store = [u128; 7]; proof fn lemma_width() {} }
impl Bits<840> for BitsImpl<840> { type Store = [u128; 7]; proof fn lemma_width() {} }
impl Bits<841> for BitsImpl<841> { type Store = [u128; 7]; proof fn lemma_width() {} }
impl Bits<842> for BitsImpl<842> { type Store = [u128; 7]; proof fn lemma_width() {} }
impl Bits<843> for BitsImpl<843> { type Store = [u128; 7]; proof fn lemma_width() {} }
impl Bits<844> for BitsImpl<844> { type Store = [u128; 7]; proof fn lemma_width() {} }
impl Bits<845> for BitsImpl<845> { type Store = [u128; 7]; proof fn lemma_width() {} }
impl Bits<846> for BitsImpl<846> { type Store = [u128; 7]; proof fn lemma_width() {} }
impl Bits<847> for BitsImpl<847> { type Store = [u128; 7]; proof fn lemma_width() {} }
impl Bits<848> for BitsImpl<848> { type Store = [u128; 7]; proof fn lemma_width() {} }
impl Bits<849> for BitsImpl<849> { type Store = [u128; 7]; proof fn lemma_width() {} }
impl Bits<850> for BitsImpl<850> { type Store = [u128; 7]; proof fn lemma_width() {} }
impl Bits<851> for BitsImpl<851> { type Store = [u128; 7]; proof fn lemma_width() {} }
impl Bits<852> for BitsImpl<852> { type Store = [u128; 7]; proof fn lemma_width() {} }
impl Bits<853> for BitsImpl<853> { type Store = [u128; 7]; proof fn lemma_width() {} }
impl Bits<854> for BitsImpl<854> { type Store = [u128; 7]; proof fn lemma_width() {} }
impl Bits<855> for BitsImpl<855> { type Store = [u128; 7]; proof fn lemma_width() {} }
impl Bits<856> for BitsImpl<856> { type Store = [u128; 7]; proof fn lemma_width() {} }
impl Bits<857> for BitsImpl<857> { type Store = [u128; 7]; proof fn lemma_width() {} }
impl Bits<858> for BitsImpl<858> { type Store = [u128; 7]; proof fn lemma_width() {} }
impl Bits<859> for BitsImpl<859> { type Store = [u128; 7]; proof fn lemma_width() {} }
impl Bits<860> for BitsImpl<860> { type Store = [u128; 7]; proof fn lemma_width() {} }
impl Bits<861> for BitsImpl<861> { type Store = [u128; 7]; proof fn lemma_width() {} }
impl Bits<862> for BitsImpl<862> { type Store = [u128; 7]; proof fn lemma_width() {} }
impl Bits<863> for BitsImpl<863> { type Store = [u128; 7]; proof fn lemma_width() {} }
impl Bits<864> for BitsImpl<864> { type Store = [u128; 7]; proof fn lemma_width() {} }
impl Bits<865> for BitsImpl<865> { type Store = [u128; 7]; proof fn lemma_width() {} }
impl Bits<866> for BitsImpl<866> { type Store = [u128; 7]; proof fn lemma_width() {} }
impl Bits<867> for BitsImpl<867> { type Store = [u128; 7]; proof fn lemma_width() {} }
impl Bits<868> for BitsImpl<868> { type Store = [u128; 7]; proof fn lemma_width() {} }
impl Bits<869> for BitsImpl<869> { type Store = [u128; 7]; proof fn lemma_width() {} }
impl Bits<870> for BitsImpl<870> { type Store = [u128; 7]; proof fn lemma_width() {} }
impl Bits<871> for BitsImpl<871> { type Store = [u128; 7]; proof fn lemma_width() {} }
impl Bits<872> for BitsImpl<872> { type Store = [u128; 7]; proof fn lemma_width() {} }
impl Bits<873> for BitsImpl<873> { type Store = [u128; 7]; proof fn lemma_width() {} }
impl Bits<874> for BitsImpl<874> { type Store = [u128; 7]; proof fn lemma_width() {} }
impl Bits<875> for BitsImpl<875> { type Store = [u128; 7]; proof fn lemma_width() {} }
impl Bits<876> for BitsImpl<876> { type Store = [u128; 7]; proof fn lemma_width() {} }
impl Bits<877> for BitsImpl<877> { type Store = [u128; 7]; proof fn lemma_width() {} }
impl Bits<878> for BitsImpl<878> { type Store = [u128; 7]; proof fn lemma_width() {} }
impl Bits<879> for BitsImpl<879> { type Store = [u128; 7]; proof fn lemma_width() {} }
impl Bits<880> for BitsImpl<880> { type Store = [u128; 7]; proof fn lemma_width() {} }
impl Bits<881> for BitsImpl<881> { type Store = [u128; 7]; proof fn lemma_width() {} }
impl Bits<882> for BitsImpl<882> { type Store = [u128; 7]; proof fn lemma_width() {} }
impl Bits<883> for BitsImpl<883> { type Store = [u128; 7]; proof fn lemma_width() {} }
impl Bits<884> for BitsImpl<884> { type Store = [u128; 7]; proof fn lemma_width() {} }
impl Bits<885> for BitsImpl<885> { type Store = [u128; 7]; proof fn lemma_width() {} }
impl Bits<886> for BitsImpl<886> { type Store = [u128; 7]; proof fn lemma_width() {} }
impl Bits<887> for BitsImpl<887> { type Store = [u128; 7]; proof fn lemma_width() {} }
impl Bits<888> for BitsImpl<888> { type Store = [u128; 7]; proof fn lemma_width() {} }
impl Bits<889> for BitsImpl<889> { type Store = [u128; 7]; proof fn lemma_width() {} }
impl Bits<890> for BitsImpl<890> { type Store = [u128; 7]; proof fn lemma_width() {} }
impl Bits<891> for BitsImpl<891> { type Store = [u128; 7]; proof fn lemma_width() {} }
impl Bits<892> for BitsImpl<892> { type Store = [u128; 7]; proof fn lemma_width() {} }
impl Bits<893> for BitsImpl<893> { type Store = [u128; 7]; proof fn lemma_width() {} }
impl Bits<894> for BitsImpl<894> { type Store = [u128; 7]; proof fn lemma_width() {} }
impl Bits<895> for BitsImpl<895> { type Store = [u128; 7]; proof fn lemma_width() {} }
impl Bits<896> for BitsImpl<896> { type Store = [u128; 7]; proof fn lemma_width() {} }

// Widths 897..=1024 live in `[u128; 8]`.
impl Bits<897> for BitsImpl<897> { type Store = [u128; 8]; proof fn lemma_width() {} }
impl Bits<898> for BitsImpl<898> { type Store = [u128; 8]; proof fn lemma_width() {} }
impl Bits<899> for BitsImpl<899> { type Store = [u128; 8]; proof fn lemma_width() {} }
impl Bits<900> for BitsImpl<900> { type Store = [u128; 8]; proof fn lemma_width() {} }
impl Bits<901> for BitsImpl<901> { type Store = [u128; 8]; proof fn lemma_width() {} }
impl Bits<902> for BitsImpl<902> { type Store = [u128; 8]; proof fn lemma_width() {} }
impl Bits<903> for BitsImpl<903> { type Store = [u128; 8]; proof fn lemma_width() {} }
impl Bits<904> for BitsImpl<904> { type Store = [u128; 8]; proof fn lemma_width() {} }
impl Bits<905> for BitsImpl<905> { type Store = [u128; 8]; proof fn lemma_width() {} }
impl Bits<906> for BitsImpl<906> { type Store = [u128; 8]; proof fn lemma_width() {} }
impl Bits<907> for BitsImpl<907> { type Store = [u128; 8]; proof fn lemma_width() {} }
impl Bits<908> for BitsImpl<908> { type Store = [u128; 8]; proof fn lemma_width() {} }
impl Bits<909> for BitsImpl<909> { type Store = [u128; 8]; proof fn lemma_width() {} }
impl Bits<910> for BitsImpl<910> { type Store = [u128; 8]; proof fn lemma_width() {} }
impl Bits<911> for BitsImpl<911> { type Store = [u128; 8]; proof fn lemma_width() {} }
impl Bits<912> for BitsImpl<912> { type Store = [u128; 8]; proof fn lemma_width() {} }
impl Bits<913> for BitsImpl<913> { type Store = [u128; 8]; proof fn lemma_width() {} }
impl Bits<914> for BitsImpl<914> { type Store = [u128; 8]; proof fn lemma_width() {} }
impl Bits<915> for BitsImpl<915> { type Store = [u128; 8]; proof fn lemma_width() {} }
impl Bits<916> for BitsImpl<916> { type Store = [u128; 8]; proof fn lemma_width() {} }
impl Bits<917> for BitsImpl<917> { type Store = [u128; 8]; proof fn lemma_width() {} }
impl Bits<918> for BitsImpl<918> { type Store = [u128; 8]; proof fn lemma_width() {} }
impl Bits<919> for BitsImpl<919> { type Store = [u128; 8]; proof fn lemma_width() {} }
impl Bits<920> for BitsImpl<920> { type Store = [u128; 8]; proof fn lemma_width() {} }
impl Bits<921> for BitsImpl<921> { type Store = [u128; 8]; proof fn lemma_width() {} }
impl Bits<922> for BitsImpl<922> { type Store = [u128; 8]; proof fn lemma_width() {} }
impl Bits<923> for BitsImpl<923> { type Store = [u128; 8]; proof fn lemma_width() {} }
impl Bits<924> for BitsImpl<924> { type Store = [u128; 8]; proof fn lemma_width() {} }
impl Bits<925> for BitsImpl<925> { type Store = [u128; 8]; proof fn lemma_width() {} }
impl Bits<926> for BitsImpl<926> { type Store = [u128; 8]; proof fn lemma_width() {} }
impl Bits<927> for BitsImpl<927> { type Store = [u128; 8]; proof fn lemma_width() {} }
impl Bits<928> for BitsImpl<928> { type Store = [u128; 8]; proof fn lemma_width() {} }
impl Bits<929> for BitsImpl<929> { type Store = [u128; 8]; proof fn lemma_width() {} }
impl Bits<930> for BitsImpl<930> { type Store = [u128; 8]; proof fn lemma_width() {} }
impl Bits<931> for BitsImpl<931> { type Store = [u128; 8]; proof fn lemma_width() {} }
impl Bits<932> for BitsImpl<932> { type Store = [u128; 8]; proof fn lemma_width() {} }
impl Bits<933> for BitsImpl<933> { type Store = [u128; 8]; proof fn lemma_width() {} }
impl Bits<934> for BitsImpl<934> { type Store = [u128; 8]; proof fn lemma_width() {} }
impl Bits<935> for BitsImpl<935> { type Store = [u128; 8]; proof fn lemma_width() {} }
impl Bits<936> for BitsImpl<936> { type Store = [u128; 8]; proof fn lemma_width() {} }
impl Bits<937> for BitsImpl<937> { type Store = [u128; 8]; proof fn lemma_width() {} }
impl Bits<938> for BitsImpl<938> { type Store = [u128; 8]; proof fn lemma_width() {} }
impl Bits<939> for BitsImpl<939> { type Store = [u128; 8]; proof fn lemma_width() {} }
impl Bits<940> for BitsImpl<940> { type Store = [u128; 8]; proof fn lemma_width() {} }
impl Bits<941> for BitsImpl<941> { type Store = [u128; 8]; proof fn lemma_width() {} }
impl Bits<942> for BitsImpl<942> { type Store = [u128; 8]; proof fn lemma_width() {} }
impl Bits<943> for BitsImpl<943> { type Store = [u128; 8]; proof fn lemma_width() {} }
impl Bits<944> for BitsImpl<944> { type Store = [u128; 8]; proof fn lemma_width() {} }
impl Bits<945> for BitsImpl<945> { type Store = [u128; 8]; proof fn lemma_width() {} }
impl Bits<946> for BitsImpl<946> { type Store = [u128; 8]; proof fn lemma_width() {} }
impl Bits<947> for BitsImpl<947> { type Store = [u128; 8]; proof fn lemma_width() {} }
impl Bits<948> for BitsImpl<948> { type Store = [u128; 8]; proof fn lemma_width() {} }
impl Bits<949> for BitsImpl<949> { type Store = [u128; 8]; proof fn lemma_width() {} }
impl Bits<950> for BitsImpl<950> { type Store = [u128; 8]; proof fn lemma_width() {} }
impl Bits<951> for BitsImpl<951> { type Store = [u128; 8]; proof fn lemma_width() {} }
impl Bits<952> for BitsImpl<952> { type Store = [u128; 8]; proof fn lemma_width() {} }
impl Bits<953> for BitsImpl<953> { type Store = [u128; 8]; proof fn lemma_width() {} }
impl Bits<954> for BitsImpl<954> { type Store = [u128; 8]; proof fn lemma_width() {} }
impl Bits<955> for BitsImpl<955> { type Store = [u128; 8]; proof fn lemma_width() {} }
impl Bits<956> for BitsImpl<956> { type Store = [u128; 8]; proof fn lemma_width() {} }
impl Bits<957> for BitsImpl<957> { type Store = [u128; 8]; proof fn lemma_width() {} }
impl Bits<958> for BitsImpl<958> { type Store = [u128; 8]; proof fn lemma_width() {} }
impl Bits<959> for BitsImpl<959> { type Store = [u128; 8]; proof fn lemma_width() {} }
impl Bits<960> for BitsImpl<960> { type Store = [u128; 8]; proof fn lemma_width() {} }
impl Bits<961> for BitsImpl<961> { type Store = [u128; 8]; proof fn lemma_width() {} }
impl Bits<962> for BitsImpl<962> { type Store = [u128; 8]; proof fn lemma_width() {} }
impl Bits<963> for BitsImpl<963> { type Store = [u128; 8]; proof fn lemma_width() {} }
impl Bits<964> for BitsImpl<964> { type Store = [u128; 8]; proof fn lemma_width() {} }
impl Bits<965> for BitsImpl<965> { type Store = [u128; 8]; proof fn lemma_width() {} }
impl Bits<966> for BitsImpl<966> { type Store = [u128; 8]; proof fn lemma_width() {} }
impl Bits<967> for BitsImpl<967> { type Store = [u128; 8]; proof fn lemma_width() {} }
impl Bits<968> for BitsImpl<968> { type Store = [u128; 8]; proof fn lemma_width() {} }
impl Bits<969> for BitsImpl<969> { type Store = [u128; 8]; proof fn lemma_width() {} }
impl Bits<970> for BitsImpl<970> { type Store = [u128; 8]; proof fn lemma_width() {} }
impl Bits<971> for BitsImpl<971> { type Store = [u128; 8]; proof fn lemma_width() {} }
impl Bits<972> for BitsImpl<972> { type Store = [u128; 8]; proof fn lemma_width() {} }
impl Bits<973> for BitsImpl<973> { type Store = [u128; 8]; proof fn lemma_width() {} }
impl Bits<974> for BitsImpl<974> { type Store = [u128; 8]; proof fn lemma_width() {} }
impl Bits<975> for BitsImpl<975> { type Store = [u128; 8]; proof fn lemma_width() {} }
impl Bits<976> for BitsImpl<976> { type Store = [u128; 8]; proof fn lemma_width() {} }
impl Bits<977> for BitsImpl<977> { type Store = [u128; 8]; proof fn lemma_width() {} }
impl Bits<978> for BitsImpl<978> { type Store = [u128; 8]; proof fn lemma_width() {} }
impl Bits<979> for BitsImpl<979> { type Store = [u128; 8]; proof fn lemma_width() {} }
impl Bits<980> for BitsImpl<980> { type Store = [u128; 8]; proof fn lemma_width() {} }
impl Bits<981> for BitsImpl<981> { type Store = [u128; 8]; proof fn lemma_width() {} }
impl Bits<982> for BitsImpl<982> { type Store = [u128; 8]; proof fn lemma_width() {} }
impl Bits<983> for BitsImpl<983> { type Store = [u128; 8]; proof fn lemma_width() {} }
impl Bits<984> for BitsImpl<984> { type Store = [u128; 8]; proof fn lemma_width() {} }
impl Bits<985> for BitsImpl<985> { type Store = [u128; 8]; proof fn lemma_width() {} }
impl Bits<986> for BitsImpl<986> { type Store = [u128; 8]; proof fn lemma_width() {} }
impl Bits<987> for BitsImpl<987> { type Store = [u128; 8]; proof fn lemma_width() {} }
impl Bits<988> for BitsImpl<988> { type Store = [u128; 8]; proof fn lemma_width() {} }
impl Bits<989> for BitsImpl<989> { type Store = [u128; 8]; proof fn lemma_width() {} }
impl Bits<990> for BitsImpl<990> { type Store = [u128; 8]; proof fn lemma_width() {} }
impl Bits<991> for BitsImpl<991> { type Store = [u128; 8]; proof fn lemma_width() {} }
impl Bits<992> for BitsImpl<992> { type Store = [u128; 8]; proof fn lemma_width() {} }
impl Bits<993> for BitsImpl<993> { type Store = [u128; 8]; proof fn lemma_width() {} }
impl Bits<994> for BitsImpl<994> { type Store = [u128; 8]; proof fn lemma_width() {} }
impl Bits<995> for BitsImpl<995> { type Store = [u128; 8]; proof fn lemma_width() {} }
impl Bits<996> for BitsImpl<996> { type Store = [u128; 8]; proof fn lemma_width() {} }
impl Bits<997> for BitsImpl<997> { type Store = [u128; 8]; proof fn lemma_width() {} }
impl Bits<998> for BitsImpl<998> { type Store = [u128; 8]; proof fn lemma_width() {} }
impl Bits<999> for BitsImpl<999> { type Store = [u128; 8]; proof fn lemma_width() {} }
impl Bits<1000> for BitsImpl<1000> { type Store = [u128; 8]; proof fn lemma_width() {} }
impl Bits<1001> for BitsImpl<1001> { type Store = [u128; 8]; proof fn lemma_width() {} }
impl Bits<1002> for BitsImpl<1002> { type Store = [u128; 8]; proof fn lemma_width() {} }
impl Bits<1003> for BitsImpl<1003> { type Store = [u128; 8]; proof fn lemma_width() {} }
impl Bits<1004> for BitsImpl<1004> { type Store = [u128; 8]; proof fn lemma_width() {} }
impl Bits<1005> for BitsImpl<1005> { type Store = [u128; 8]; proof fn lemma_width() {} }
impl Bits<1006> for BitsImpl<1006> { type Store = [u128; 8]; proof fn lemma_width() {} }
impl Bits<1007> for BitsImpl<1007> { type Store = [u128; 8]; proof fn lemma_width() {} }
impl Bits<1008> for BitsImpl<1008> { type Store = [u128; 8]; proof fn lemma_width() {} }
impl Bits<1009> for BitsImpl<1009> { type Store = [u128; 8]; proof fn lemma_width() {} }
impl Bits<1010> for BitsImpl<1010> { type Store = [u128; 8]; proof fn lemma_width() {} }
impl Bits<1011> for BitsImpl<1011> { type Store = [u128; 8]; proof fn lemma_width() {} }
impl Bits<1012> for BitsImpl<1012> { type Store = [u128; 8]; proof fn lemma_width() {} }
impl Bits<1013> for BitsImpl<1013> { type Store = [u128; 8]; proof fn lemma_width() {} }
impl Bits<1014> for BitsImpl<1014> { type Store = [u128; 8]; proof fn lemma_width() {} }
impl Bits<1015> for BitsImpl<1015> { type Store = [u128; 8]; proof fn lemma_width() {} }
impl Bits<1016> for BitsImpl<1016> { type Store = [u128; 8]; proof fn lemma_width() {} }
impl Bits<1017> for BitsImpl<1017> { type Store = [u128; 8]; proof fn lemma_width() {} }
impl Bits<1018> for BitsImpl<1018> { type Store = [u128; 8]; proof fn lemma_width() {} }
impl Bits<1019> for BitsImpl<1019> { type Store = [u128; 8]; proof fn lemma_width() {} }
impl Bits<1020> for BitsImpl<1020> { type Store = [u128; 8]; proof fn lemma_width() {} }
impl Bits<1021> for BitsImpl<1021> { type Store = [u128; 8]; proof fn lemma_width() {} }
impl Bits<1022> for BitsImpl<1022> { type Store = [u128; 8]; proof fn lemma_width() {} }
impl Bits<1023> for BitsImpl<1023> { type Store = [u128; 8]; proof fn lemma_width() {} }
impl Bits<1024> for BitsImpl<1024> { type Store = [u128; 8]; proof fn lemma_width() {} }

} // verus!
