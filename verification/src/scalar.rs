//! Real-valued quantities carried by their bit patterns.
//!
//! The window model never computes with fractional numbers; it only stores
//! them and hands them on. They are therefore kept as the raw IEEE-754
//! single-precision encoding, which the caller converts at the boundary.

use vstd::prelude::*;

verus! {

/// Encoding of the number zero.
pub const ZERO_BITS: u32 = 0;

/// Encoding of the number one.
pub const ONE_BITS: u32 = 0x3f80_0000;

/// A single-precision number, held by its IEEE-754 encoding.
#[derive(Clone, Copy, Debug, PartialEq, Eq, Structural)]
pub struct FloatBits {
    pub bits: u32,
}

impl FloatBits {
    /// Wraps an encoding as it is.
    pub fn from_bits(bits: u32) -> (r: Self)
        ensures
            r.bits == bits,
    {
        FloatBits { bits }
    }

    /// The encoding of this number.
    pub fn to_bits(self) -> (r: u32)
        ensures
            r == self.bits,
    {
        self.bits
    }

    /// The number zero.
    pub fn zero() -> (r: Self)
        ensures
            r.bits == ZERO_BITS,
    {
        FloatBits { bits: ZERO_BITS }
    }

    /// The number one.
    pub fn one() -> (r: Self)
        ensures
            r.bits == ONE_BITS,
    {
        FloatBits { bits: ONE_BITS }
    }
}

/// A colour with four channels in the order red, green, blue, alpha.
#[derive(Clone, Copy, Debug, PartialEq, Eq, Structural)]
pub struct ColorF {
    pub r: FloatBits,
    pub g: FloatBits,
    pub b: FloatBits,
    pub a: FloatBits,
}

impl ColorF {
    /// Builds a colour from its four channels.
    pub fn new(r: FloatBits, g: FloatBits, b: FloatBits, a: FloatBits) -> (c: Self)
        ensures
            c == (ColorF { r, g, b, a }),
    {
        ColorF { r, g, b, a }
    }

    /// Whether every channel of the colour encodes the number one.
    pub open spec fn is_opaque_white(self) -> bool {
        &&& self.r.bits == ONE_BITS
        &&& self.g.bits == ONE_BITS
        &&& self.b.bits == ONE_BITS
        &&& self.a.bits == ONE_BITS
    }
}

/// A size in layout units: device pixels divided by the scale factor.
#[derive(Clone, Copy, Debug, PartialEq, Eq, Structural)]
pub struct LayoutSize {
    pub width: FloatBits,
    pub height: FloatBits,
}

impl LayoutSize {
    /// Builds a size from its two extents.
    pub fn new(width: FloatBits, height: FloatBits) -> (s: Self)
        ensures
            s == (LayoutSize { width, height }),
    {
        LayoutSize { width, height }
    }
}

} // verus!
