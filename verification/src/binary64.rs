//! Double precision numbers, held by their bit pattern.
//!
//! Playback rates and picture levels are double precision numbers to the
//! decode backend. The engine only ever orders them: it tells a forward rate
//! from a reverse one and keeps a level inside its domain. The order of two
//! IEEE 754 binary64 numbers can be read off their bit patterns, so the engine
//! holds the pattern and never computes with the number itself.
//!
//! The top bit of a pattern is the sign and the lower 63 bits are the
//! magnitude. Among patterns that are numbers, a larger magnitude is a number
//! further from zero. Magnitudes above that of infinity are not numbers.

use vstd::prelude::*;

verus! {

/// The pattern whose only set bit is the sign; also the pattern of `-0`.
pub const SIGN_BIT: u64 = 0x8000_0000_0000_0000;

/// The pattern of positive infinity, the largest magnitude that is a number.
pub const INFINITY_BITS: u64 = 0x7FF0_0000_0000_0000;

/// The pattern of `0`.
pub const ZERO_BITS: u64 = 0;

/// The pattern of `1`.
pub const ONE_BITS: u64 = 0x3FF0_0000_0000_0000;

/// The pattern of `2`.
pub const TWO_BITS: u64 = 0x4000_0000_0000_0000;

/// The pattern of `3`.
pub const THREE_BITS: u64 = 0x4008_0000_0000_0000;

/// The pattern of `-1`.
pub const MINUS_ONE_BITS: u64 = 0xBFF0_0000_0000_0000;

/// A double precision number, held by its bit pattern. Two values are equal
/// when their patterns are, which tells `0` from `-0`.
#[derive(Clone, Copy, Debug, PartialEq, Eq, Structural)]
pub struct Binary64 {
    pub bits: u64,
}

impl Binary64 {
    /// Whether the sign bit is set.
    pub open spec fn sign(self) -> bool {
        self.bits >= SIGN_BIT
    }

    /// The pattern without its sign bit.
    pub open spec fn magnitude(self) -> int {
        if self.bits >= SIGN_BIT {
            self.bits - SIGN_BIT
        } else {
            self.bits as int
        }
    }

    /// Whether the pattern is not a number.
    pub open spec fn is_nan(self) -> bool {
        self.magnitude() > INFINITY_BITS
    }

    /// The place of a number in the order of all numbers: numbers compare as
    /// their ranks do. Both zeros have rank zero.
    pub open spec fn rank(self) -> int {
        if self.sign() {
            -self.magnitude()
        } else {
            self.magnitude()
        }
    }

    /// Whether `self` is a number less than the number `other`. Nothing is
    /// less than, or greater than, a pattern that is not a number.
    pub open spec fn lt(self, other: Binary64) -> bool {
        !self.is_nan() && !other.is_nan() && self.rank() < other.rank()
    }

    /// Whether `self` is a number no greater than the number `other`.
    pub open spec fn le(self, other: Binary64) -> bool {
        !self.is_nan() && !other.is_nan() && self.rank() <= other.rank()
    }

    /// `self` restricted to the interval from `min` to `max`: `min` where
    /// `self` is less, `max` where it is greater, and `self` otherwise, which
    /// includes every `self` that is not a number.
    pub open spec fn clamped(self, min: Binary64, max: Binary64) -> Binary64 {
        if self.lt(min) {
            min
        } else if max.lt(self) {
            max
        } else {
            self
        }
    }

    /// The number with the given bit pattern.
    pub fn from_bits(bits: u64) -> (r: Binary64)
        ensures
            r.bits == bits,
    {
        Binary64 { bits }
    }

    /// The bit pattern of the number.
    pub fn to_bits(self) -> (bits: u64)
        ensures
            bits == self.bits,
    {
        self.bits
    }

    /// The pattern without its sign bit.
    fn magnitude_bits(self) -> (m: u64)
        ensures
            m == self.magnitude(),
    {
        if self.bits >= SIGN_BIT {
            self.bits - SIGN_BIT
        } else {
            self.bits
        }
    }

    /// Tells whether the pattern is not a number.
    pub fn not_a_number(self) -> (r: bool)
        ensures
            r == self.is_nan(),
    {
        self.magnitude_bits() > INFINITY_BITS
    }

    /// Tells whether `self` is less than `other`.
    pub fn less_than(self, other: Binary64) -> (r: bool)
        ensures
            r == self.lt(other),
    {
        if self.not_a_number() || other.not_a_number() {
            return false;
        }
        let a: u64 = self.magnitude_bits();
        let b: u64 = other.magnitude_bits();
        if self.bits >= SIGN_BIT {
            if other.bits >= SIGN_BIT {
                b < a
            } else {
                a > 0 || b > 0
            }
        } else {
            if other.bits >= SIGN_BIT {
                false
            } else {
                a < b
            }
        }
    }

    /// Tells whether `self` is greater than zero.
    pub fn is_positive(self) -> (r: bool)
        ensures
            r == (Binary64 { bits: ZERO_BITS }).lt(self),
    {
        Binary64 { bits: ZERO_BITS }.less_than(self)
    }

    /// Restricts `self` to the interval from `min` to `max`.
    pub fn clamp(self, min: Binary64, max: Binary64) -> (r: Binary64)
        requires
            min.le(max),
        ensures
            r == self.clamped(min, max),
    {
        if self.less_than(min) {
            min
        } else if max.less_than(self) {
            max
        } else {
            self
        }
    }
}

/// A clamped number lies in the interval, and a number that lies in the
/// interval is left as it is.
pub proof fn lemma_clamped_in_interval(x: Binary64, min: Binary64, max: Binary64)
    requires
        min.le(max),
        !x.is_nan(),
    ensures
        min.le(x.clamped(min, max)),
        x.clamped(min, max).le(max),
        min.le(x) && x.le(max) ==> x.clamped(min, max) == x,
{
}

} // verus!
