//! Raw IEEE-754 single-precision bit patterns.
//!
//! The orchestrator does no floating-point arithmetic: colour, position and
//! lens scalars pass through it untouched on their way to the GPU.  They are
//! therefore stored as the 32-bit patterns of the floats they denote, which
//! keeps every struct in this crate a plain integer record.  The unverified
//! driver converts with `f32::to_bits` / `f32::from_bits` at the boundary.

use vstd::prelude::*;

verus! {

/// Bit pattern of `0.0f32`.
pub const F32_ZERO_BITS: u32 = 0x0000_0000;

/// Bit pattern of `1.0f32`.
pub const F32_ONE_BITS: u32 = 0x3F80_0000;

/// Bit pattern of `-1.0f32`.
pub const F32_MINUS_ONE_BITS: u32 = 0xBF80_0000;

/// Bit pattern of `0.1f32`.
pub const F32_TENTH_BITS: u32 = 0x3DCC_CCCD;

/// Bit pattern of `45.0f32`.
pub const F32_FORTY_FIVE_BITS: u32 = 0x4234_0000;

/// Bit pattern of `1000.0f32`.
pub const F32_THOUSAND_BITS: u32 = 0x447A_0000;

/// Bit pattern of `+infinity` in single precision.
pub const F32_INFINITY_BITS: u32 = 0x7F80_0000;

/// Whether `bits` is the pattern of an IEEE-754 single-precision value that
/// compares strictly greater than zero.
///
/// Positive non-NaN patterns have a clear sign bit and an exponent/mantissa
/// field no greater than that of positive infinity; the pattern of `+0.0` is
/// excluded, and every NaN pattern either exceeds the infinity pattern or
/// has the sign bit set.
pub open spec fn positive_f32_bits(bits: u32) -> bool {
    0 < bits <= F32_INFINITY_BITS
}

} // verus!
