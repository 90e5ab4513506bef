//! Measured numbers, carried by their binary64 bit pattern.
//!
//! The library moves measurements from one record to another and compares them; it never does
//! arithmetic on them. A `Scalar` therefore holds the 64 bits of an IEEE 754 double, and the
//! caller converts to and from its own number type at the edge.

use vstd::prelude::*;

verus! {

/// All bits but the sign.
pub const MAGNITUDE_MASK: u64 = 0x7fff_ffff_ffff_ffff;

/// The magnitude bits of positive infinity; every NaN has a larger magnitude.
pub const INFINITY_BITS: u64 = 0x7ff0_0000_0000_0000;

/// A binary64 number, held as its bit pattern.
#[derive(Debug, Clone, Copy, PartialEq, Eq, Structural)]
pub struct Scalar {
    pub bits: u64,
}

impl Scalar {
    /// Not a number: the magnitude lies above infinity's.
    pub open spec fn is_nan(self) -> bool {
        (self.bits & MAGNITUDE_MASK) > INFINITY_BITS
    }

    /// Positive or negative zero.
    pub open spec fn is_zero(self) -> bool {
        (self.bits & MAGNITUDE_MASK) == 0
    }

    /// Equality of the two numbers as IEEE 754 has it: a NaN equals nothing, the two zeros
    /// equal each other, and every other number equals only its own bit pattern.
    pub open spec fn same_number(self, other: Scalar) -> bool {
        !self.is_nan() && !other.is_nan() && (self.bits == other.bits || (self.is_zero()
            && other.is_zero()))
    }

    /// The number with the given bit pattern.
    pub fn from_bits(bits: u64) -> (s: Scalar)
        ensures
            s.bits == bits,
    {
        Scalar { bits }
    }

    /// The bit pattern of the number.
    pub fn to_bits(self) -> (bits: u64)
        ensures
            bits == self.bits,
    {
        self.bits
    }

    /// Positive zero.
    pub fn zero() -> (s: Scalar)
        ensures
            s.bits == 0,
    {
        Scalar { bits: 0 }
    }

    /// Whether both stand for the same number.
    pub fn equals(self, other: Scalar) -> (r: bool)
        ensures
            r == self.same_number(other),
    {
        let a: u64 = self.bits & MAGNITUDE_MASK;
        let b: u64 = other.bits & MAGNITUDE_MASK;
        a <= INFINITY_BITS && b <= INFINITY_BITS && (self.bits == other.bits || (a == 0 && b == 0))
    }
}

/// Whether two optional numbers agree: both absent, or both present and the same number.
pub open spec fn same_optional_number(a: Option<Scalar>, b: Option<Scalar>) -> bool {
    match (a, b) {
        (Some(x), Some(y)) => x.same_number(y),
        (None, None) => true,
        _ => false,
    }
}

/// Equality of numbers is symmetric.
pub proof fn lemma_same_number_symmetric(a: Scalar, b: Scalar)
    ensures
        a.same_number(b) == b.same_number(a),
{
}

/// A number that is not NaN equals itself.
pub proof fn lemma_same_number_reflexive(a: Scalar)
    requires
        !a.is_nan(),
    ensures
        a.same_number(a),
{
}

} // verus!
