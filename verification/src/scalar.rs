//! Single-precision values carried by their IEEE-754 bit pattern.
//!
//! The engine never rounds: it stores, copies and compares the numbers that
//! the integrator and the host hand to it, and it flips a sign where a rule
//! asks for the opposite value. A bit pattern is all that takes.

use vstd::prelude::*;

verus! {

/// The sign bit of a binary32 value.
pub const SIGN_BIT: u32 = 0x8000_0000;

/// Bit pattern of positive zero.
pub const ZERO_BITS: u32 = 0x0000_0000;

/// Bit pattern of one.
pub const ONE_BITS: u32 = 0x3F80_0000;

/// A binary32 value, held as its bit pattern.
#[derive(Clone, Copy, Debug, PartialEq, Eq, Structural)]
pub struct Scalar {
    pub bits: u32,
}

impl Scalar {
    /// The value with the given bit pattern.
    pub fn from_bits(bits: u32) -> (s: Self)
        ensures
            s.bits == bits,
    {
        Scalar { bits }
    }

    /// The bit pattern of the value.
    pub fn to_bits(self) -> (bits: u32)
        ensures
            bits == self.bits,
    {
        self.bits
    }

    /// Positive zero.
    pub fn zero() -> (s: Self)
        ensures
            s == Self::spec_zero(),
    {
        Scalar { bits: ZERO_BITS }
    }

    /// One.
    pub fn one() -> (s: Self)
        ensures
            s == Self::spec_one(),
    {
        Scalar { bits: ONE_BITS }
    }

    pub open spec fn spec_zero() -> Self {
        Scalar { bits: ZERO_BITS }
    }

    pub open spec fn spec_one() -> Self {
        Scalar { bits: ONE_BITS }
    }

    /// The opposite value in spec form: the same magnitude, the other sign.
    pub open spec fn spec_negated(self) -> Self {
        Scalar { bits: self.bits ^ SIGN_BIT }
    }

    /// The opposite value: the same magnitude with the sign bit flipped.
    pub fn negated(self) -> (s: Self)
        ensures
            s == self.spec_negated(),
    {
        Scalar { bits: self.bits ^ SIGN_BIT }
    }

    /// Whether the sign bit is set.
    pub open spec fn spec_is_sign_negative(self) -> bool {
        self.bits & SIGN_BIT != 0
    }

    /// Whether the sign bit is set.
    pub fn is_sign_negative(self) -> (b: bool)
        ensures
            b == self.spec_is_sign_negative(),
    {
        self.bits & SIGN_BIT != 0
    }
}

/// Negating twice gives the value back, and negating once always changes the
/// sign.
pub proof fn lemma_negation_involutive(s: Scalar)
    ensures
        s.spec_negated().spec_negated() == s,
        s.spec_negated().spec_is_sign_negative() != s.spec_is_sign_negative(),
{
    let b = s.bits;
    assert((b ^ 0x8000_0000u32) ^ 0x8000_0000u32 == b) by (bit_vector);
    assert(((b ^ 0x8000_0000u32) & 0x8000_0000u32 != 0) != (b & 0x8000_0000u32 != 0))
        by (bit_vector);
}

/// A pair of scalars.
#[derive(Clone, Copy, Debug, PartialEq, Eq, Structural)]
pub struct Vec2 {
    pub x: Scalar,
    pub y: Scalar,
}

/// A triple of scalars.
#[derive(Clone, Copy, Debug, PartialEq, Eq, Structural)]
pub struct Vec3 {
    pub x: Scalar,
    pub y: Scalar,
    pub z: Scalar,
}

impl Vec2 {
    pub open spec fn spec_zero() -> Self {
        Vec2 { x: Scalar::spec_zero(), y: Scalar::spec_zero() }
    }

    /// Both components positive zero.
    pub fn zero() -> (v: Self)
        ensures
            v == Self::spec_zero(),
    {
        Vec2 { x: Scalar::zero(), y: Scalar::zero() }
    }
}

impl Vec3 {
    pub open spec fn spec_zero() -> Self {
        Vec3 { x: Scalar::spec_zero(), y: Scalar::spec_zero(), z: Scalar::spec_zero() }
    }

    /// All components positive zero.
    pub fn zero() -> (v: Self)
        ensures
            v == Self::spec_zero(),
    {
        Vec3 { x: Scalar::zero(), y: Scalar::zero(), z: Scalar::zero() }
    }

    /// The vector from three bit patterns.
    pub fn from_bits(x: u32, y: u32, z: u32) -> (v: Self)
        ensures
            v == (Vec3 { x: Scalar { bits: x }, y: Scalar { bits: y }, z: Scalar { bits: z } }),
    {
        Vec3 { x: Scalar { bits: x }, y: Scalar { bits: y }, z: Scalar { bits: z } }
    }
}

} // verus!
