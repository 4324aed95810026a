//! Double-precision numbers as bit patterns.

use vstd::prelude::*;
use vstd::std_specs::cmp::PartialEqSpecImpl;

verus! {

/// The sign bit of a double.
pub const SIGN_BIT: u64 = 0x8000_0000_0000_0000;

/// The bit pattern of positive infinity: every larger magnitude is a NaN.
pub const INFINITY_BITS: u64 = 0x7ff0_0000_0000_0000;

/// The bit pattern of `1.0`.
pub const ONE_BITS: u64 = 0x3ff0_0000_0000_0000;

/// An IEEE-754 binary64 number, held as its bit pattern.
///
/// The number is never computed with here: the library only needs to know
/// whether it is a NaN, a zero or positive, and how two of them compare.
/// Those questions have exact answers on the bit pattern.
#[derive(Clone, Copy, Debug)]
pub struct Float64 {
    pub bits: u64,
}

impl Float64 {
    /// The bit pattern without its sign bit.
    pub open spec fn magnitude(self) -> int {
        if self.bits >= SIGN_BIT {
            self.bits - SIGN_BIT
        } else {
            self.bits as int
        }
    }

    /// Whether the sign bit is set.
    pub open spec fn sign_bit(self) -> bool {
        self.bits >= SIGN_BIT
    }

    /// A NaN has all exponent bits set and a non-zero fraction.
    pub open spec fn spec_is_nan(self) -> bool {
        self.magnitude() > INFINITY_BITS
    }

    /// Positive and negative zero.
    pub open spec fn spec_is_zero(self) -> bool {
        self.magnitude() == 0
    }

    /// The position of a number that is not a NaN on the number line:
    /// doubles of one sign are ordered as their magnitudes are, and the two
    /// zeros share position 0.
    pub open spec fn rank(self) -> int {
        if self.sign_bit() {
            -self.magnitude()
        } else {
            self.magnitude()
        }
    }

    /// `self >= other` as IEEE-754 defines it: false when either is a NaN.
    pub open spec fn spec_ge(self, other: Float64) -> bool {
        !self.spec_is_nan() && !other.spec_is_nan() && self.rank() >= other.rank()
    }

    /// `self <= other` as IEEE-754 defines it: false when either is a NaN.
    pub open spec fn spec_le(self, other: Float64) -> bool {
        other.spec_ge(self)
    }

    /// `self == other` as IEEE-754 defines it: a NaN equals nothing, and
    /// the two zeros are equal.
    pub open spec fn spec_equals(self, other: Float64) -> bool {
        !self.spec_is_nan() && !other.spec_is_nan() && self.rank() == other.rank()
    }

    /// `self > 0.0`.
    pub open spec fn spec_is_positive(self) -> bool {
        !self.spec_is_nan() && self.rank() > 0
    }

    /// `self >= 0.0`.
    pub open spec fn spec_is_non_negative(self) -> bool {
        !self.spec_is_nan() && self.rank() >= 0
    }

    /// Positive zero.
    pub open spec fn spec_zero() -> Float64 {
        Float64 { bits: 0 }
    }

    /// The number with the given bit pattern.
    pub fn from_bits(bits: u64) -> (x: Float64)
        ensures
            x.bits == bits,
    {
        Float64 { bits }
    }

    /// The bit pattern of the number.
    pub fn to_bits(self) -> (bits: u64)
        ensures
            bits == self.bits,
    {
        self.bits
    }

    /// Positive zero.
    #[verifier::when_used_as_spec(spec_zero)]
    pub fn zero() -> (x: Float64)
        ensures
            x == Float64::spec_zero(),
            x.spec_is_zero(),
    {
        Float64 { bits: 0 }
    }

    fn magnitude_bits(self) -> (m: u64)
        ensures
            m == self.magnitude(),
    {
        if self.bits >= SIGN_BIT {
            self.bits - SIGN_BIT
        } else {
            self.bits
        }
    }

    #[verifier::when_used_as_spec(spec_is_nan)]
    pub fn is_nan(self) -> (r: bool)
        ensures
            r == self.spec_is_nan(),
    {
        self.magnitude_bits() > INFINITY_BITS
    }

    #[verifier::when_used_as_spec(spec_is_zero)]
    pub fn is_zero(self) -> (r: bool)
        ensures
            r == self.spec_is_zero(),
    {
        self.magnitude_bits() == 0
    }

    /// Whether the number is greater than zero. Positive infinity is; a NaN
    /// and the zeros are not.
    #[verifier::when_used_as_spec(spec_is_positive)]
    pub fn is_positive(self) -> (r: bool)
        ensures
            r == self.spec_is_positive(),
            r == (0 < self.bits <= INFINITY_BITS),
    {
        0 < self.bits && self.bits <= INFINITY_BITS
    }

    /// Whether the number is zero or greater. Negative zero is; a NaN is not.
    #[verifier::when_used_as_spec(spec_is_non_negative)]
    pub fn is_non_negative(self) -> (r: bool)
        ensures
            r == self.spec_is_non_negative(),
            r == (self.bits <= INFINITY_BITS || self.bits == SIGN_BIT),
    {
        self.bits <= INFINITY_BITS || self.bits == SIGN_BIT
    }

    /// Whether `self >= other`.
    #[verifier::when_used_as_spec(spec_ge)]
    pub fn ge(self, other: Float64) -> (r: bool)
        ensures
            r == self.spec_ge(other),
    {
        if self.is_nan() || other.is_nan() {
            return false;
        }
        let a: u64 = self.magnitude_bits();
        let b: u64 = other.magnitude_bits();
        if self.bits >= SIGN_BIT {
            if other.bits >= SIGN_BIT {
                a <= b
            } else {
                a == 0 && b == 0
            }
        } else {
            if other.bits >= SIGN_BIT {
                true
            } else {
                a >= b
            }
        }
    }

    /// Whether `self <= other`.
    #[verifier::when_used_as_spec(spec_le)]
    pub fn le(self, other: Float64) -> (r: bool)
        ensures
            r == self.spec_le(other),
    {
        other.ge(self)
    }

    /// Whether the two are equal as numbers.
    #[verifier::when_used_as_spec(spec_equals)]
    pub fn equals(self, other: Float64) -> (r: bool)
        ensures
            r == self.spec_equals(other),
    {
        if self.is_nan() || other.is_nan() {
            return false;
        }
        let a: u64 = self.magnitude_bits();
        let b: u64 = other.magnitude_bits();
        (a == 0 && b == 0) || self.bits == other.bits
    }
}

impl PartialEq for Float64 {
    fn eq(&self, other: &Float64) -> (r: bool) {
        self.equals(*other)
    }
}

impl PartialEqSpecImpl for Float64 {
    open spec fn obeys_eq_spec() -> bool {
        true
    }

    open spec fn eq_spec(&self, other: &Float64) -> bool {
        self.spec_equals(*other)
    }
}

/// On numbers that are not NaNs, greater-or-equal is a total order up to
/// equality: any two compare, and each is at least the other exactly when
/// they are equal.
pub proof fn lemma_ge_total(a: Float64, b: Float64)
    requires
        !a.spec_is_nan(),
        !b.spec_is_nan(),
    ensures
        a.spec_ge(b) || b.spec_ge(a),
        a.spec_ge(b) && b.spec_ge(a) <==> a.spec_equals(b),
        a.spec_ge(a),
{
}

/// Greater-or-equal is transitive.
pub proof fn lemma_ge_transitive(a: Float64, b: Float64, c: Float64)
    requires
        a.spec_ge(b),
        b.spec_ge(c),
    ensures
        a.spec_ge(c),
{
}

/// How a number stands to zero: it is zero or more exactly when it is at
/// least zero, which is when it is positive or a zero; and it is not "at
/// most zero" exactly when it is positive or a NaN.
pub proof fn lemma_sign(x: Float64)
    ensures
        x.spec_is_non_negative() <==> x.spec_ge(Float64::spec_zero()),
        x.spec_is_non_negative() <==> x.spec_is_positive() || x.spec_is_zero(),
        !x.spec_le(Float64::spec_zero()) <==> x.spec_is_positive() || x.spec_is_nan(),
        !(x.spec_is_positive() && x.spec_is_zero()),
{
}

/// Two numbers that are greater than zero are equal exactly when their bit
/// patterns are.
pub proof fn lemma_positive_equal_is_identical(a: Float64, b: Float64)
    requires
        a.spec_is_positive(),
        b.spec_is_positive(),
    ensures
        a.spec_equals(b) <==> a == b,
{
}

} // verus!
