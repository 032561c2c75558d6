//! Single-precision numbers carried by their IEEE 754 bit pattern.
//!
//! Colours, positions and sizes travel through the compositor unchanged on
//! their way to the graphics device, so they are kept in the exact encoding
//! the device consumes. The only question the compositor ever asks of such a
//! number is whether it is zero.

use vstd::prelude::*;

verus! {

/// Encoding of positive zero.
pub const POSITIVE_ZERO_BITS: u32 = 0x0000_0000;

/// Encoding of negative zero.
pub const NEGATIVE_ZERO_BITS: u32 = 0x8000_0000;

/// Encoding of one.
pub const ONE_BITS: u32 = 0x3F80_0000;

/// Encoding of five.
pub const FIVE_BITS: u32 = 0x40A0_0000;

/// Encoding of twenty.
pub const TWENTY_BITS: u32 = 0x41A0_0000;

/// Encoding of positive infinity.
pub const INFINITY_BITS: u32 = 0x7F80_0000;

/// A single-precision IEEE 754 number, held as its 32-bit encoding.
#[derive(Clone, Copy, Debug, PartialEq, Eq, Structural)]
pub struct Scalar {
    pub bits: u32,
}

impl Scalar {
    /// Whether the encoded number compares equal to zero. Both signed zeros
    /// do; no other encoding does, not-a-number included.
    pub open spec fn spec_is_zero(self) -> bool {
        self.bits == POSITIVE_ZERO_BITS || self.bits == NEGATIVE_ZERO_BITS
    }

    /// Wraps a bit pattern.
    pub fn from_bits(bits: u32) -> (s: Scalar)
        ensures
            s.bits == bits,
    {
        Scalar { bits }
    }

    /// The bit pattern of this number.
    pub fn to_bits(self) -> (bits: u32)
        ensures
            bits == self.bits,
    {
        self.bits
    }

    /// Positive zero.
    pub fn zero() -> (s: Scalar)
        ensures
            s.bits == POSITIVE_ZERO_BITS,
            s.spec_is_zero(),
    {
        Scalar { bits: POSITIVE_ZERO_BITS }
    }

    /// Whether the encoded number compares equal to zero.
    #[verifier::when_used_as_spec(spec_is_zero)]
    pub fn is_zero(self) -> (zero: bool)
        ensures
            zero == self.spec_is_zero(),
    {
        self.bits == POSITIVE_ZERO_BITS || self.bits == NEGATIVE_ZERO_BITS
    }
}

} // verus!
