//! Script numbers and triples of them.

use vstd::prelude::*;

verus! {

/// Bit pattern of `0.0`.
pub const ZERO_BITS: u64 = 0;

/// Bit patterns of `1.0`, `2.0`, `3.0` and `4.0`: the keys under which a
/// table holds its first four items.
pub const ONE_BITS: u64 = 0x3FF0_0000_0000_0000;

pub const TWO_BITS: u64 = 0x4000_0000_0000_0000;

pub const THREE_BITS: u64 = 0x4008_0000_0000_0000;

pub const FOUR_BITS: u64 = 0x4010_0000_0000_0000;

/// The sign bit of a double.
pub const SIGN_BIT: u64 = 0x8000_0000_0000_0000;

/// Bit pattern of `1e10`, the large but finite extent that stands in for
/// "unbounded" wherever a box must stay finite.
pub const INFINITY_BITS: u64 = 0x4202_A05F_2000_0000;

/// Bit pattern of `-1e10`.
pub const NEG_INFINITY_BITS: u64 = 0xC202_A05F_2000_0000;

/// Bit pattern of positive infinity: the largest pattern that is a number
/// and not negative.
pub const LARGEST_BITS: u64 = 0x7FF0_0000_0000_0000;

/// A script number.
///
/// The library does no arithmetic that could round: it tells numbers
/// apart from other values, hands them on, and at most looks at or flips
/// their sign. A number is therefore kept as the bit pattern of its
/// IEEE-754 double, and two numbers are equal when their bit patterns are.
#[derive(Clone, Copy, Debug, PartialEq, Eq, Structural)]
pub struct Number {
    pub bits: u64,
}

impl Number {
    /// The number `0.0`.
    pub open spec fn spec_zero() -> Number {
        Number { bits: ZERO_BITS }
    }

    /// The number `1.0`.
    pub open spec fn spec_one() -> Number {
        Number { bits: ONE_BITS }
    }

    /// The number `2.0`.
    pub open spec fn spec_two() -> Number {
        Number { bits: TWO_BITS }
    }

    /// The number `3.0`.
    pub open spec fn spec_three() -> Number {
        Number { bits: THREE_BITS }
    }

    /// The number `4.0`.
    pub open spec fn spec_four() -> Number {
        Number { bits: FOUR_BITS }
    }

    /// The sentinel `1e10`.
    pub open spec fn spec_infinity() -> Number {
        Number { bits: INFINITY_BITS }
    }

    /// The sentinel `-1e10`.
    pub open spec fn spec_neg_infinity() -> Number {
        Number { bits: NEG_INFINITY_BITS }
    }

    /// This number with its sign flipped.
    pub open spec fn spec_negated(self) -> Number {
        Number { bits: self.bits ^ SIGN_BIT }
    }

    /// Whether the double is zero or more. A pattern with the sign bit
    /// clear is, up to positive infinity; beyond that it is not a number.
    /// With the sign bit set only negative zero is.
    pub open spec fn spec_is_non_negative(self) -> bool {
        self.bits <= LARGEST_BITS || self.bits == SIGN_BIT
    }

    /// This number as a rounding radius: itself where it is zero or more,
    /// and zero where it is negative or not a number.
    pub open spec fn spec_radius(self) -> Number {
        if self.is_non_negative() {
            self
        } else {
            Number::zero()
        }
    }

    pub fn from_bits(bits: u64) -> (r: Number)
        ensures
            r.bits == bits,
    {
        Number { bits }
    }

    pub fn to_bits(&self) -> (r: u64)
        ensures
            r == self.bits,
    {
        self.bits
    }

    #[verifier::when_used_as_spec(spec_zero)]
    pub fn zero() -> (r: Number)
        ensures
            r == Number::spec_zero(),
    {
        Number { bits: ZERO_BITS }
    }

    #[verifier::when_used_as_spec(spec_one)]
    pub fn one() -> (r: Number)
        ensures
            r == Number::spec_one(),
    {
        Number { bits: ONE_BITS }
    }

    #[verifier::when_used_as_spec(spec_two)]
    pub fn two() -> (r: Number)
        ensures
            r == Number::spec_two(),
    {
        Number { bits: TWO_BITS }
    }

    #[verifier::when_used_as_spec(spec_three)]
    pub fn three() -> (r: Number)
        ensures
            r == Number::spec_three(),
    {
        Number { bits: THREE_BITS }
    }

    #[verifier::when_used_as_spec(spec_four)]
    pub fn four() -> (r: Number)
        ensures
            r == Number::spec_four(),
    {
        Number { bits: FOUR_BITS }
    }

    #[verifier::when_used_as_spec(spec_infinity)]
    pub fn infinity() -> (r: Number)
        ensures
            r == Number::spec_infinity(),
    {
        Number { bits: INFINITY_BITS }
    }

    #[verifier::when_used_as_spec(spec_neg_infinity)]
    pub fn neg_infinity() -> (r: Number)
        ensures
            r == Number::spec_neg_infinity(),
    {
        Number { bits: NEG_INFINITY_BITS }
    }

    /// Whether this number is zero or more; what is not a number is not.
    #[verifier::when_used_as_spec(spec_is_non_negative)]
    pub fn is_non_negative(self) -> (r: bool)
        ensures
            r == self.spec_is_non_negative(),
    {
        self.bits <= LARGEST_BITS || self.bits == SIGN_BIT
    }

    /// This number as a rounding radius. A radius is never negative: what
    /// is below zero, or not a number, counts as zero.
    #[verifier::when_used_as_spec(spec_radius)]
    pub fn radius(self) -> (r: Number)
        ensures
            r == self.spec_radius(),
            r.is_non_negative(),
            self.is_non_negative() ==> r == self,
    {
        if self.is_non_negative() {
            self
        } else {
            Number::zero()
        }
    }

    /// Negation of a double flips its sign bit and nothing else.
    #[verifier::when_used_as_spec(spec_negated)]
    pub fn negated(self) -> (r: Number)
        ensures
            r == self.spec_negated(),
    {
        Number { bits: self.bits ^ SIGN_BIT }
    }
}

/// Negating twice gives the number back.
pub proof fn lemma_negated_twice(n: Number)
    ensures
        n.negated().negated() == n,
{
    let b = n.bits;
    assert((b ^ 0x8000_0000_0000_0000u64) ^ 0x8000_0000_0000_0000u64 == b) by (bit_vector);
}

/// Three numbers: a point, a direction, or one amount per axis.
#[derive(Clone, Copy, Debug, PartialEq, Eq, Structural)]
pub struct Vector {
    pub x: Number,
    pub y: Number,
    pub z: Number,
}

impl Vector {
    pub fn new(x: Number, y: Number, z: Number) -> (r: Vector)
        ensures
            r == (Vector { x, y, z }),
    {
        Vector { x, y, z }
    }
}

} // verus!
