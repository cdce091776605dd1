//! Single-precision quantities, carried as bit patterns.

use vstd::prelude::*;

verus! {

/// A single-precision quantity of a map (a beat count, a brightness, an angle, a fraction),
/// held as its IEEE 754 binary32 bit pattern.
///
/// This library never calculates with such a quantity. It stores the pattern, hands it
/// back unchanged, and tells zero from nonzero.
#[derive(Debug, Clone, Copy, PartialEq, Eq, Structural)]
pub struct Scalar {
    pub bits: u32,
}

impl Scalar {
    /// The pattern of positive zero.
    pub open spec fn zero_spec() -> Scalar {
        Scalar { bits: 0 }
    }

    /// The pattern of `1.0`.
    pub open spec fn one_spec() -> Scalar {
        Scalar { bits: 0x3f80_0000 }
    }

    /// Whether the pattern stands for a zero. Binary32 has two: all bits clear, and the
    /// sign bit alone.
    pub open spec fn is_zero_spec(self) -> bool {
        self.bits == 0 || self.bits == 0x8000_0000
    }

    /// The pattern without its sign bit.
    pub open spec fn magnitude_spec(self) -> int {
        if self.bits >= 0x8000_0000 {
            self.bits - 0x8000_0000
        } else {
            self.bits as int
        }
    }

    /// Whether the pattern stands for no number: the exponent bits are all set and the
    /// fraction bits are not all clear.
    pub open spec fn is_nan_spec(self) -> bool {
        self.magnitude_spec() > 0x7f80_0000
    }

    /// One pattern for each quantity that the patterns stand for: the two zeros share the
    /// key of positive zero, all patterns that stand for no number share one key, and
    /// every other pattern is its own key.
    pub open spec fn key_spec(self) -> u32 {
        if self.is_nan_spec() {
            0x7fc0_0000
        } else if self.bits == 0x8000_0000 {
            0
        } else {
            self.bits
        }
    }

    /// Whether the pattern is its own key.
    pub open spec fn is_canonical(self) -> bool {
        self.key_spec() == self.bits
    }

    /// Wraps a bit pattern.
    pub fn from_bits(bits: u32) -> (s: Scalar)
        ensures
            s.bits == bits,
    {
        Scalar { bits }
    }

    /// The bit pattern.
    pub fn to_bits(&self) -> (bits: u32)
        ensures
            bits == self.bits,
    {
        self.bits
    }

    /// Positive zero.
    pub fn zero() -> (s: Scalar)
        ensures
            s == Scalar::zero_spec(),
            s.is_zero_spec(),
    {
        Scalar { bits: 0 }
    }

    /// The quantity `1.0`.
    pub fn one() -> (s: Scalar)
        ensures
            s == Scalar::one_spec(),
            !s.is_zero_spec(),
    {
        Scalar { bits: 0x3f80_0000 }
    }

    /// Whether the pattern stands for no number.
    pub fn is_nan(&self) -> (b: bool)
        ensures
            b == self.is_nan_spec(),
    {
        let magnitude = if self.bits >= 0x8000_0000 {
            self.bits - 0x8000_0000
        } else {
            self.bits
        };
        magnitude > 0x7f80_0000
    }

    /// The key of the quantity: equal for two patterns exactly when they stand for the
    /// same quantity, or both for none.
    pub fn key(&self) -> (key: u32)
        ensures
            key == self.key_spec(),
            (Scalar { bits: key }).is_canonical(),
            self.is_zero_spec() <==> key == 0,
    {
        if self.is_nan() {
            0x7fc0_0000
        } else if self.bits == 0x8000_0000 {
            0
        } else {
            self.bits
        }
    }

    /// Whether the quantity compares equal to zero: true of positive and of negative zero,
    /// false of every other pattern, a NaN included.
    pub fn is_zero(&self) -> (b: bool)
        ensures
            b == self.is_zero_spec(),
    {
        self.bits == 0 || self.bits == 0x8000_0000
    }
}

} // verus!
