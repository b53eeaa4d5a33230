//! IEEE-754 double-precision values, carried by their bit patterns.
//!
//! The game's coordinates and distances are `f64` values on the wire. The library never does
//! arithmetic on them; it stores each one as the `u64` that `f64::to_bits` gives, and compares
//! two of them exactly as `f64`'s `==` does.

use vstd::prelude::*;

verus! {

/// The mask of the 52 fraction bits of a double.
pub const FRACTION_MASK: u64 = 0x000f_ffff_ffff_ffffu64;

/// The mask of every bit of a double but its sign.
pub const MAGNITUDE_MASK: u64 = 0x7fff_ffff_ffff_ffffu64;

/// The bit pattern is a NaN: all exponent bits set and a non-zero fraction.
pub open spec fn is_nan(bits: u64) -> bool {
    (bits >> 52u64) & 0x7ffu64 == 0x7ffu64 && bits & FRACTION_MASK != 0
}

/// The bit pattern is `+0.0` or `-0.0`.
pub open spec fn is_zero(bits: u64) -> bool {
    bits & MAGNITUDE_MASK == 0
}

/// `f64` equality on bit patterns: NaN equals nothing, the two zeros are equal, and any
/// other two values are equal exactly when their bits are.
pub open spec fn float_eq(a: u64, b: u64) -> bool {
    !is_nan(a) && !is_nan(b) && (a == b || (is_zero(a) && is_zero(b)))
}

/// Tells whether the bit pattern is a NaN.
pub fn bits_are_nan(bits: u64) -> (r: bool)
    ensures
        r == is_nan(bits),
{
    (bits >> 52u64) & 0x7ffu64 == 0x7ffu64 && bits & FRACTION_MASK != 0
}

/// Compares two doubles, given by their bit patterns, as `f64`'s `==` does.
pub fn doubles_equal(a: u64, b: u64) -> (r: bool)
    ensures
        r == float_eq(a, b),
{
    if bits_are_nan(a) || bits_are_nan(b) {
        false
    } else {
        a == b || (a & MAGNITUDE_MASK == 0 && b & MAGNITUDE_MASK == 0)
    }
}

/// `f64` equality is symmetric.
pub proof fn lemma_float_eq_symmetric(a: u64, b: u64)
    ensures
        float_eq(a, b) == float_eq(b, a),
{
}

/// `f64` equality is reflexive on every value but NaN.
pub proof fn lemma_float_eq_reflexive(a: u64)
    ensures
        float_eq(a, a) == !is_nan(a),
{
}

/// `f64` equality is transitive.
pub proof fn lemma_float_eq_transitive(a: u64, b: u64, c: u64)
    requires
        float_eq(a, b),
        float_eq(b, c),
    ensures
        float_eq(a, c),
{
}

} // verus!
