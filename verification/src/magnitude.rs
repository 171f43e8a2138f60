//! Non-negative quantities that are compared but never computed with.

use vstd::prelude::*;

verus! {

/// Pattern of positive infinity, the largest pattern that is a magnitude.
pub const INFINITY_BITS: u64 = 0x7FF0_0000_0000_0000;

/// Pattern of negative zero, which is read as zero.
pub const NEGATIVE_ZERO_BITS: u64 = 0x8000_0000_0000_0000;

/// Pattern of one half.
pub const HALF_BITS: u64 = 0x3FE0_0000_0000_0000;

/// Pattern of one.
pub const ONE_BITS: u64 = 0x3FF0_0000_0000_0000;

/// Whether a 64-bit pattern encodes a non-negative number or positive
/// infinity in the IEEE 754 binary64 format: the sign bit is clear and the
/// pattern is not a NaN, or the pattern is negative zero.
pub open spec fn is_magnitude_pattern(bits: u64) -> bool {
    bits <= INFINITY_BITS || bits == NEGATIVE_ZERO_BITS
}

/// The rank of an admissible pattern: the pattern itself, with negative zero
/// folded onto zero.
pub open spec fn pattern_rank(bits: u64) -> nat {
    if bits == NEGATIVE_ZERO_BITS {
        0
    } else {
        bits as nat
    }
}

/// A non-negative quantity on the extended real line (a cost, a strength, a
/// weight, a probability, a draw from the unit interval), held as the bit
/// pattern of its IEEE 754 binary64 encoding.
///
/// Among the patterns with a clear sign bit that are not NaNs, the order of
/// the encoded numbers is the order of the patterns read as unsigned
/// integers. The view of a magnitude is that integer, its *rank*: two
/// magnitudes compare as their ranks do, and nothing else is ever asked of
/// them here.
#[derive(Clone, Copy, Debug, PartialEq, Eq, Structural)]
pub struct Magnitude {
    bits: u64,
}

impl View for Magnitude {
    type V = nat;

    closed spec fn view(&self) -> nat {
        self.bits as nat
    }
}

impl Magnitude {
    #[verifier::type_invariant]
    spec fn in_range(self) -> bool {
        self.bits <= INFINITY_BITS
    }

    /// Reads a pattern. NaNs and negative numbers are refused; negative zero
    /// is zero.
    pub fn from_bits(bits: u64) -> (m: Option<Magnitude>)
        ensures
            m is Some <==> is_magnitude_pattern(bits),
            m matches Some(x) ==> x@ == pattern_rank(bits),
    {
        if bits <= INFINITY_BITS {
            Some(Magnitude { bits })
        } else if bits == NEGATIVE_ZERO_BITS {
            Some(Magnitude { bits: 0 })
        } else {
            None
        }
    }

    /// The pattern of this magnitude.
    pub fn to_bits(self) -> (bits: u64)
        ensures
            bits as nat == self@,
            bits <= INFINITY_BITS,
    {
        proof {
            use_type_invariant(&self);
        }
        self.bits
    }

    /// Zero.
    pub fn zero() -> (m: Magnitude)
        ensures
            m@ == 0,
    {
        Magnitude { bits: 0 }
    }

    /// One half.
    pub fn half() -> (m: Magnitude)
        ensures
            m@ == HALF_BITS,
    {
        Magnitude { bits: HALF_BITS }
    }

    /// One.
    pub fn one() -> (m: Magnitude)
        ensures
            m@ == ONE_BITS,
    {
        Magnitude { bits: ONE_BITS }
    }

    /// Positive infinity, above every other magnitude.
    pub fn infinity() -> (m: Magnitude)
        ensures
            m@ == INFINITY_BITS,
    {
        Magnitude { bits: INFINITY_BITS }
    }

    /// Whether this magnitude is a number rather than infinity.
    pub fn is_finite(self) -> (finite: bool)
        ensures
            finite == (self@ < INFINITY_BITS),
    {
        self.bits < INFINITY_BITS
    }

    /// Whether this magnitude is strictly greater than `other`.
    pub fn exceeds(self, other: Magnitude) -> (greater: bool)
        ensures
            greater == (self@ > other@),
    {
        self.bits > other.bits
    }

    /// The smaller of two magnitudes.
    pub fn smaller(self, other: Magnitude) -> (m: Magnitude)
        ensures
            m@ == if self@ <= other@ { self@ } else { other@ },
            m == self || m == other,
    {
        if self.bits <= other.bits {
            self
        } else {
            other
        }
    }

    /// The larger of two magnitudes.
    pub fn larger(self, other: Magnitude) -> (m: Magnitude)
        ensures
            m@ == if self@ >= other@ { self@ } else { other@ },
            m == self || m == other,
    {
        if self.bits >= other.bits {
            self
        } else {
            other
        }
    }
}

} // verus!
