//! Views of IEEE 754 double-precision bit patterns.
//!
//! The library never performs floating-point arithmetic; it carries each
//! `f64` as its raw bit pattern and reasons only about the facts the bits
//! expose directly: the sign, whether the pattern is a NaN, and whether it
//! denotes a non-negative value.

use vstd::prelude::*;

verus! {

/// Bit pattern of positive zero.
pub const F64_POS_ZERO_BITS: u64 = 0x0000_0000_0000_0000;

/// Bit pattern of negative zero.
pub const F64_NEG_ZERO_BITS: u64 = 0x8000_0000_0000_0000;

/// Bit pattern of positive infinity: exponent all ones, zero payload.
pub const F64_POS_INF_BITS: u64 = 0x7FF0_0000_0000_0000;

/// Whether the sign bit of the pattern is set.
pub open spec fn f64_bits_sign(bits: u64) -> bool {
    bits >= 0x8000_0000_0000_0000
}

/// The pattern with its sign bit cleared.
pub open spec fn f64_bits_abs(bits: u64) -> u64 {
    if f64_bits_sign(bits) {
        (bits - 0x8000_0000_0000_0000) as u64
    } else {
        bits
    }
}

/// Whether the pattern encodes a NaN: exponent all ones and non-zero payload.
pub open spec fn f64_bits_is_nan(bits: u64) -> bool {
    f64_bits_abs(bits) > 0x7FF0_0000_0000_0000
}

/// Whether the pattern denotes a non-negative value: either the sign bit is
/// clear and the pattern is not a NaN (zero, positive, or positive infinity),
/// or the pattern is negative zero, which compares equal to zero.
pub open spec fn f64_bits_nonneg(bits: u64) -> bool {
    bits == F64_NEG_ZERO_BITS || (!f64_bits_sign(bits) && !f64_bits_is_nan(bits))
}

/// Runtime test of `f64_bits_nonneg`.
pub fn is_nonneg_bits(bits: u64) -> (r: bool)
    ensures
        r == f64_bits_nonneg(bits),
{
    bits == F64_NEG_ZERO_BITS || bits <= F64_POS_INF_BITS
}

} // verus!
