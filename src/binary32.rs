use vstd::prelude::*;

verus! {

/// An IEEE-754 binary32 value, held as its bit pattern.
///
/// Bit 31 is the sign, bits 23..31 the biased exponent, bits 0..23 the
/// fraction. Comparisons follow IEEE-754: a NaN compares with nothing, and
/// the two zeros are equal.
#[derive(Clone, Copy, Debug)]
pub struct Binary32 {
    pub bits: u32,
}

/// Bit pattern of `0.0`.
pub const ZERO_BITS: u32 = 0x0000_0000;

/// Bit pattern of `1.0`.
pub const ONE_BITS: u32 = 0x3f80_0000;

/// Bit pattern of the largest finite value, `f32::MAX`.
pub const MAX_BITS: u32 = 0x7f7f_ffff;

/// Bit pattern of positive infinity.
pub const INFINITY_BITS: u32 = 0x7f80_0000;

impl Binary32 {
    /// The sign bit is set.
    pub open spec fn is_negative(self) -> bool {
        self.bits >= 0x8000_0000
    }

    /// Everything but the sign bit: the encoding of `|self|`.
    pub open spec fn magnitude(self) -> nat {
        (self.bits % 0x8000_0000) as nat
    }

    /// The biased exponent field.
    pub open spec fn exponent(self) -> nat {
        (self.magnitude() / 0x80_0000) as nat
    }

    /// The fraction field.
    pub open spec fn fraction(self) -> nat {
        (self.bits % 0x80_0000) as nat
    }

    pub open spec fn nan(self) -> bool {
        self.magnitude() > INFINITY_BITS
    }

    /// Position of a non-NaN value on the real line: the encodings of
    /// non-negative values grow with the value, so the magnitude, signed,
    /// orders all non-NaN values (and puts both zeros at 0).
    pub open spec fn rank(self) -> int {
        if self.is_negative() {
            -(self.magnitude() as int)
        } else {
            self.magnitude() as int
        }
    }

    /// IEEE-754 `self < other`.
    pub open spec fn spec_lt(self, other: Binary32) -> bool {
        !self.nan() && !other.nan() && self.rank() < other.rank()
    }

    /// IEEE-754 `self <= other`.
    pub open spec fn spec_le(self, other: Binary32) -> bool {
        !self.nan() && !other.nan() && self.rank() <= other.rank()
    }

    /// Result of `f32::min`: a NaN argument yields the other one.
    pub open spec fn spec_min(self, other: Binary32) -> Binary32 {
        if self.nan() {
            other
        } else if other.nan() {
            self
        } else if other.spec_lt(self) {
            other
        } else {
            self
        }
    }

    /// Result of `f32::max`: a NaN argument yields the other one.
    pub open spec fn spec_max(self, other: Binary32) -> Binary32 {
        if self.nan() {
            other
        } else if other.nan() {
            self
        } else if self.spec_lt(other) {
            other
        } else {
            self
        }
    }

    /// IEEE-754 `0 < self`.
    pub open spec fn spec_positive(self) -> bool {
        Binary32 { bits: ZERO_BITS }.spec_lt(self)
    }

    /// IEEE-754 `self < 0`.
    pub open spec fn spec_below_zero(self) -> bool {
        self.spec_lt(Binary32 { bits: ZERO_BITS })
    }

    pub fn from_bits(bits: u32) -> (r: Binary32)
        ensures
            r.bits == bits,
    {
        Binary32 { bits }
    }

    pub fn zero() -> (r: Binary32)
        ensures
            r.bits == ZERO_BITS,
    {
        Binary32 { bits: ZERO_BITS }
    }

    pub fn one() -> (r: Binary32)
        ensures
            r.bits == ONE_BITS,
    {
        Binary32 { bits: ONE_BITS }
    }

    pub fn max_finite() -> (r: Binary32)
        ensures
            r.bits == MAX_BITS,
    {
        Binary32 { bits: MAX_BITS }
    }

    pub fn is_nan(&self) -> (r: bool)
        ensures
            r == self.nan(),
    {
        self.bits % 0x8000_0000 > INFINITY_BITS
    }

    /// IEEE-754 `0 < self`.
    pub fn is_positive(&self) -> (r: bool)
        ensures
            r == self.spec_positive(),
    {
        Binary32::zero().lt(self)
    }

    /// IEEE-754 `self < 0`.
    pub fn is_below_zero(&self) -> (r: bool)
        ensures
            r == self.spec_below_zero(),
    {
        self.lt(&Binary32::zero())
    }

    /// IEEE-754 `self < other`.
    pub fn lt(&self, other: &Binary32) -> (r: bool)
        ensures
            r == self.spec_lt(*other),
    {
        if self.is_nan() || other.is_nan() {
            return false;
        }
        let a: i64 = self.signed_magnitude();
        let b: i64 = other.signed_magnitude();
        a < b
    }

    /// IEEE-754 `self <= other`.
    pub fn le(&self, other: &Binary32) -> (r: bool)
        ensures
            r == self.spec_le(*other),
    {
        if self.is_nan() || other.is_nan() {
            return false;
        }
        let a: i64 = self.signed_magnitude();
        let b: i64 = other.signed_magnitude();
        a <= b
    }

    fn signed_magnitude(&self) -> (r: i64)
        ensures
            r == self.rank(),
    {
        let m: i64 = (self.bits % 0x8000_0000) as i64;
        if self.bits >= 0x8000_0000 {
            -m
        } else {
            m
        }
    }

    /// `f32::abs`: the sign bit cleared.
    pub fn abs(&self) -> (r: Binary32)
        ensures
            r.bits == self.magnitude(),
            !r.is_negative(),
            r.magnitude() == self.magnitude(),
    {
        Binary32 { bits: self.bits % 0x8000_0000 }
    }

    /// `f32::min`.
    pub fn min(&self, other: &Binary32) -> (r: Binary32)
        ensures
            r == self.spec_min(*other),
    {
        if self.is_nan() {
            *other
        } else if other.is_nan() {
            *self
        } else if other.lt(self) {
            *other
        } else {
            *self
        }
    }

    /// `f32::max`.
    pub fn max(&self, other: &Binary32) -> (r: Binary32)
        ensures
            r == self.spec_max(*other),
    {
        if self.is_nan() {
            *other
        } else if other.is_nan() {
            *self
        } else if self.lt(other) {
            *other
        } else {
            *self
        }
    }
}

} // verus!
