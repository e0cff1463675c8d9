//! Floating-point settings, carried as their bits.

use vstd::prelude::*;

verus! {

/// The IEEE 754 binary64 encoding of a floating-point setting.
#[derive(Clone, Copy, Debug)]
pub struct FloatBits {
    pub bits: u64,
}

impl FloatBits {
    /// The encoding without its sign.
    pub open spec fn magnitude(self) -> int {
        self.bits as int % 0x8000_0000_0000_0000
    }

    /// Whether a number is encoded: no magnitude beyond that of infinity is one.
    pub open spec fn is_number(self) -> bool {
        self.magnitude() <= 0x7ff0_0000_0000_0000
    }

    /// Whether the two encode the same number. Zero has two encodings, and what is no number is
    /// not even equal to itself.
    pub open spec fn same_number(self, other: Self) -> bool {
        &&& self.is_number()
        &&& other.is_number()
        &&& self.bits == other.bits || self.magnitude() == 0 && other.magnitude() == 0
    }

    /// Whether the encoded number is greater than zero: neither a zero, nor negative, nor no
    /// number at all. The largest such encoding is that of infinity.
    pub open spec fn positive(self) -> bool {
        0 < self.bits <= 0x7ff0_0000_0000_0000
    }

    /// Whether the encoded number is greater than zero.
    pub fn is_positive(self) -> (positive: bool)
        ensures
            positive == self.positive(),
    {
        0 < self.bits && self.bits <= 0x7ff0_0000_0000_0000
    }
}

impl PartialEq for FloatBits {
    fn eq(&self, other: &Self) -> (equal: bool) {
        let magnitude: u64 = self.bits % 0x8000_0000_0000_0000;
        let other_magnitude: u64 = other.bits % 0x8000_0000_0000_0000;
        magnitude <= 0x7ff0_0000_0000_0000 && other_magnitude <= 0x7ff0_0000_0000_0000 && (
        self.bits == other.bits || magnitude == 0 && other_magnitude == 0)
    }
}

impl vstd::std_specs::cmp::PartialEqSpecImpl for FloatBits {
    open spec fn obeys_eq_spec() -> bool {
        true
    }

    open spec fn eq_spec(&self, other: &Self) -> bool {
        self.same_number(*other)
    }
}

impl FloatBits {
    /// The place of the encoded number among all of them: encodings with the sign bit count down
    /// from zero, the others count up.
    pub open spec fn signed_magnitude(self) -> int {
        if self.bits < 0x8000_0000_0000_0000 {
            self.bits as int
        } else {
            0x8000_0000_0000_0000 - self.bits
        }
    }

    /// Whether the encoding lies beyond the infinities.
    pub open spec fn beyond_infinity(self) -> bool {
        self.signed_magnitude() > 0x7ff0_0000_0000_0000 || self.signed_magnitude()
            < -0x7ff0_0000_0000_0000
    }

    /// Whether the encoded number is greater than that of the all-zero encoding.
    pub open spec fn exceeds_zero(self) -> bool {
        0 < self.signed_magnitude() && !self.beyond_infinity()
    }
}

/// Numbers are equal exactly when they have the same place, and positive exactly when their place
/// is above that of zero; encodings beyond the infinities are no numbers.
pub proof fn law_floats_compare_by_signed_magnitude(one: FloatBits, other: FloatBits)
    ensures
        one.is_number() <==> !one.beyond_infinity(),
        one.same_number(other) <==> {
            &&& one.signed_magnitude() == other.signed_magnitude()
            &&& !one.beyond_infinity()
            &&& !other.beyond_infinity()
        },
        one.positive() <==> one.exceeds_zero(),
        forall|positive: bool| #[trigger]
            call_ensures(FloatBits::is_positive, (one,), positive) ==> positive
                == one.exceeds_zero(),
{
}

/// Equality is that of numbers: it holds of every number and itself, goes both ways, and tells a
/// positive number from any that is not.
pub proof fn law_equality_is_that_of_numbers(one: FloatBits, other: FloatBits)
    ensures
        one.same_number(one) <==> one.is_number(),
        one.same_number(other) ==> other.same_number(one),
        one.same_number(other) ==> one.positive() == other.positive(),
{
}

/// The encoding of 0.
pub fn float_zero() -> (zero: FloatBits)
    ensures
        zero.bits == 0,
{
    FloatBits { bits: 0 }
}

/// The encoding of 1.
pub fn float_one() -> (one: FloatBits)
    ensures
        one.bits == 0x3ff0_0000_0000_0000,
{
    FloatBits { bits: 0x3ff0_0000_0000_0000 }
}

/// The encoding of 60.
pub fn float_sixty() -> (sixty: FloatBits)
    ensures
        sixty.bits == 0x404e_0000_0000_0000,
{
    FloatBits { bits: 0x404e_0000_0000_0000 }
}

} // verus!
