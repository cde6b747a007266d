//! IEEE-754 binary32 values held by their bit patterns (`f32::to_bits`).
//!
//! Scores, weights and vector components travel through the library as the
//! 32-bit patterns of their `f32` values; this module states and decides the
//! comparisons the validators make on them.
use vstd::prelude::*;

verus! {

/// The bit pattern of `0.0_f32`.
pub const F32_ZERO: u32 = 0x0000_0000;

/// The bit pattern of `0.1_f32` (the nearest binary32 value to one tenth).
pub const F32_TENTH: u32 = 0x3DCC_CCCD;

/// The bit pattern of `1.0_f32`.
pub const F32_ONE: u32 = 0x3F80_0000;

/// The bit pattern of `2.0_f32`.
pub const F32_TWO: u32 = 0x4000_0000;

/// The sign bit of a binary32 pattern.
pub const F32_SIGN: u32 = 0x8000_0000;

/// The pattern of positive infinity: every exponent bit set, no fraction bit.
pub const F32_INFINITY: u32 = 0x7F80_0000;

/// `f32::is_nan`: all exponent bits set and a non-zero fraction.
pub open spec fn f32_is_nan(b: u32) -> bool {
    b % F32_SIGN > F32_INFINITY
}

/// `f32::is_finite`: the exponent bits are not all set.
pub open spec fn f32_is_finite(b: u32) -> bool {
    b % F32_SIGN < F32_INFINITY
}

/// A key that orders the non-NaN binary32 values as their numbers do: the
/// magnitude bits, negated for a set sign bit (so both zeros map to 0).
pub open spec fn f32_order_key(b: u32) -> int {
    if b < F32_SIGN {
        b as int
    } else {
        -((b - F32_SIGN) as int)
    }
}

/// `a <= b` on the binary32 values whose patterns are `a` and `b`.
pub open spec fn f32_le(a: u32, b: u32) -> bool {
    !f32_is_nan(a) && !f32_is_nan(b) && f32_order_key(a) <= f32_order_key(b)
}

/// `(lo..=hi).contains(&x)` on binary32 values given by their patterns.
pub open spec fn f32_in_range(lo: u32, hi: u32, x: u32) -> bool {
    f32_le(lo, x) && f32_le(x, hi)
}

/// The binary32 values from 0 to 1 are exactly the patterns of `+0.0` up to
/// `1.0` and the pattern of `-0.0`.
pub proof fn lemma_unit_range_patterns(x: u32)
    ensures
        f32_in_range(F32_ZERO, F32_ONE, x) <==> (x <= 0x3F80_0000 || x == 0x8000_0000),
{
}

/// The binary32 values from 0.1 to 2.0 are exactly the patterns from that of
/// `0.1` up to that of `2.0`; all of them are finite.
pub proof fn lemma_weight_range_patterns(x: u32)
    ensures
        f32_in_range(F32_TENTH, F32_TWO, x) <==> (0x3DCC_CCCD <= x <= 0x4000_0000),
        f32_in_range(F32_TENTH, F32_TWO, x) ==> f32_is_finite(x),
{
}

/// Decides `f32_is_finite`.
pub fn f32_bits_is_finite(b: u32) -> (r: bool)
    ensures
        r == f32_is_finite(b),
{
    b % F32_SIGN < F32_INFINITY
}

fn f32_bits_order_key(b: u32) -> (r: i64)
    ensures
        r == f32_order_key(b),
{
    if b < F32_SIGN {
        b as i64
    } else {
        -((b - F32_SIGN) as i64)
    }
}

/// Decides `f32_le`.
pub fn f32_bits_le(a: u32, b: u32) -> (r: bool)
    ensures
        r == f32_le(a, b),
{
    a % F32_SIGN <= F32_INFINITY && b % F32_SIGN <= F32_INFINITY && f32_bits_order_key(a)
        <= f32_bits_order_key(b)
}

/// Decides `f32_in_range`.
pub fn f32_bits_in_range(lo: u32, hi: u32, x: u32) -> (r: bool)
    ensures
        r == f32_in_range(lo, hi, x),
{
    f32_bits_le(lo, x) && f32_bits_le(x, hi)
}

/// Whether every value of a vector is finite.
pub open spec fn all_finite(values: Seq<u32>) -> bool {
    forall|i: int| 0 <= i < values.len() ==> f32_is_finite(#[trigger] values[i])
}

/// Decides `all_finite`.
pub fn all_bits_finite(values: &Vec<u32>) -> (r: bool)
    ensures
        r == all_finite(values@),
{
    let mut i: usize = 0;
    while i < values.len()
        invariant
            i <= values@.len(),
            forall|j: int| 0 <= j < i ==> f32_is_finite(#[trigger] values@[j]),
        decreases values@.len() - i,
    {
        if !f32_bits_is_finite(values[i]) {
            return false;
        }
        i = i + 1;
    }
    true
}

} // verus!
