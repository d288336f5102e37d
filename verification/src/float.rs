//! Floating-point readings as the library holds them.
//!
//! The operating system reports loads and shares as binary floating-point
//! numbers. The library keeps, for each, its IEEE 754 encoding (`to_bits`),
//! on which the comparisons that the monitor makes are exact integer
//! comparisons, and the few values that the program around it computes in
//! floating point (the text with one decimal, a whole quotient).
//!
//! For the encodings of non-negative numbers, from `+0.0` up to `+∞`, the
//! order of the encodings as unsigned integers is the order of the numbers;
//! the encodings with the sign bit set are negative numbers or `-0.0`, and
//! those above `+∞` in either half are NaN.
use vstd::prelude::*;

verus! {

/// Encoding of `+∞` as an `f32`.
pub open spec fn f32_infinity() -> u32 {
    0x7f80_0000
}

/// Encoding of `+∞` as an `f64`.
pub open spec fn f64_infinity() -> u64 {
    0x7ff0_0000_0000_0000
}

/// Whether the `f32` encoded by `bits` is greater than the positive finite
/// `f32` encoded by `bound` (`x > b`): NaN and negative numbers never are.
pub open spec fn f32_above(bits: u32, bound: u32) -> bool {
    bound < bits <= f32_infinity()
}

/// Whether the `f64` encoded by `bits` is greater than the positive finite
/// `f64` encoded by `bound` (`x > b`).
pub open spec fn f64_above(bits: u64, bound: u64) -> bool {
    bound < bits <= f64_infinity()
}

/// Whether `bits` encodes an `f32` NaN.
pub open spec fn f32_is_nan(bits: u32) -> bool {
    (f32_infinity() < bits < 0x8000_0000) || 0xff80_0000 < bits
}

/// A key whose order is the order of the `f32` numbers encoded, for every
/// encoding that is not NaN; `-0.0` and `+0.0` get the same key.
pub open spec fn f32_key(bits: u32) -> u32 {
    if bits > 0x8000_0000 {
        (0xffff_ffff - bits) as u32
    } else if bits == 0x8000_0000 {
        0x8000_0000
    } else {
        (bits + 0x8000_0000) as u32
    }
}

/// The key of an `f32` encoding.
pub fn f32_key_of(bits: u32) -> (k: u32)
    ensures
        k == f32_key(bits),
{
    if bits > 0x8000_0000 {
        0xffff_ffff - bits
    } else if bits == 0x8000_0000 {
        0x8000_0000
    } else {
        bits + 0x8000_0000
    }
}

/// Whether `bits` encodes an `f32` NaN.
pub fn f32_is_nan_bits(bits: u32) -> (b: bool)
    ensures
        b == f32_is_nan(bits),
{
    (0x7f80_0000 < bits && bits < 0x8000_0000) || 0xff80_0000 < bits
}

/// The key orders non-negative numbers as their encodings do, puts every
/// negative number below every non-negative one, and gives `-0.0` and
/// `+0.0` the same key.
pub proof fn lemma_key_order(a: u32, b: u32)
    ensures
        a <= f32_infinity() && b <= f32_infinity() ==> (f32_key(a) <= f32_key(b) <==> a <= b),
        0x8000_0000 < a <= 0xff80_0000 && b <= f32_infinity() ==> f32_key(a) < f32_key(b),
        f32_key(0x8000_0000) == f32_key(0),
{
}

} // verus!
