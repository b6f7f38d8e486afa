//! Single-precision numbers as the core carries them: by bit pattern.

use vstd::prelude::*;

verus! {

/// Bit pattern of the single-precision number one.
pub const ONE_BITS: u32 = 0x3F80_0000;

/// Bit pattern of the single-precision number zero.
pub const ZERO_BITS: u32 = 0;

/// A single-precision IEEE-754 number, carried by its bit pattern.
///
/// The core hands such numbers on to the GPU and to scripts without ever
/// computing with them, so the bit pattern is all it needs to hold.
#[derive(Clone, Copy, Debug, PartialEq, Eq, Structural)]
pub struct Scalar {
    pub bits: u32,
}

impl Scalar {
    /// The number with the given bit pattern.
    pub fn from_bits(bits: u32) -> (value: Scalar)
        ensures
            value.bits == bits,
    {
        Scalar { bits }
    }

    /// The bit pattern of the number.
    pub fn to_bits(self) -> (bits: u32)
        ensures
            bits == self.bits,
    {
        self.bits
    }

    /// The number one.
    pub fn one() -> (value: Scalar)
        ensures
            value.bits == ONE_BITS,
    {
        Scalar { bits: ONE_BITS }
    }

    /// The number zero.
    pub fn zero() -> (value: Scalar)
        ensures
            value.bits == ZERO_BITS,
    {
        Scalar { bits: ZERO_BITS }
    }

    /// `value` where one is given, else `fallback`.
    pub fn or_default(value: Option<Scalar>, fallback: Scalar) -> (chosen: Scalar)
        ensures
            chosen == (match value {
                Some(given) => given,
                None => fallback,
            }),
    {
        match value {
            Some(given) => given,
            None => fallback,
        }
    }
}

} // verus!
