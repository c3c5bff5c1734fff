//! Real numbers as they come from the command line and from configuration
//! files: IEEE 754 binary64 values, held and compared by their bit patterns.

use vstd::arithmetic::power2::pow2;
use vstd::prelude::*;

verus! {

/// The sign bit of a pattern.
pub const SIGN: u64 = 0x8000_0000_0000_0000;

/// The pattern of positive infinity; larger magnitudes are no numbers.
pub const INFINITY: u64 = 0x7ff0_0000_0000_0000;

/// The weight of the lowest exponent bit: two to the power 52.
pub const MANTISSA: u64 = 0x10_0000_0000_0000;

/// A binary64 number.
#[derive(Debug, Clone, Copy, PartialEq, Eq, Structural)]
pub struct Real {
    pub bits: u64,
}

/// The pattern of the number one.
pub const ONE: u64 = 0x3ff0_0000_0000_0000;

impl Real {
    /// No number at all.
    pub open spec fn nan(self) -> bool {
        self.bits % SIGN > INFINITY
    }

    /// Orders the numbers: the rank of the larger number is larger, and both
    /// zeros have rank zero.
    pub open spec fn rank(self) -> int {
        if self.bits >= SIGN {
            -(self.bits - SIGN)
        } else {
            self.bits as int
        }
    }

    pub open spec fn less(self, other: Real) -> bool {
        !self.nan() && !other.nan() && self.rank() < other.rank()
    }

    /// The exponent of two by which the significand is scaled.
    pub open spec fn exponent(self) -> int {
        self.bits % SIGN / MANTISSA - 1023
    }

    /// For a positive normal number: its value times two to the power 52,
    /// rounded down.
    pub open spec fn scaled(self) -> int {
        let significand: int = self.bits % MANTISSA + MANTISSA;
        if self.exponent() >= 0 {
            significand * pow2(self.exponent() as nat)
        } else {
            significand / (pow2((-self.exponent()) as nat) as int)
        }
    }

    pub fn is_nan(self) -> (r: bool)
        ensures
            r == self.nan(),
    {
        self.bits % SIGN > INFINITY
    }

    /// `self < other`; false where either is no number.
    pub fn lt(self, other: Real) -> (r: bool)
        ensures
            r == self.less(other),
    {
        if self.is_nan() || other.is_nan() {
            return false;
        }
        if self.bits >= SIGN {
            if other.bits >= SIGN {
                self.bits > other.bits
            } else {
                self.bits != SIGN || other.bits != 0
            }
        } else {
            other.bits < SIGN && self.bits < other.bits
        }
    }

    /// `self > 0`.
    pub open spec fn positive(self) -> bool {
        !self.nan() && self.rank() > 0
    }

    pub fn is_positive(self) -> (r: bool)
        ensures
            r == self.positive(),
    {
        !self.is_nan() && 0 < self.bits && self.bits < SIGN
    }

    /// The larger of two numbers; the other one where one is no number.
    pub open spec fn larger(self, other: Real) -> Real {
        if self.nan() {
            other
        } else if self.less(other) {
            other
        } else {
            self
        }
    }

    pub fn max(self, other: Real) -> (r: Real)
        ensures
            r == self.larger(other),
    {
        if self.is_nan() || self.lt(other) {
            other
        } else {
            self
        }
    }
}

/// The larger of two numbers is one of them, and neither is above it; what is no
/// number never counts.
pub proof fn the_larger_is_one_of_both(a: Real, b: Real)
    ensures
        a.larger(b) == a || a.larger(b) == b,
        !a.nan() && !b.nan() ==> a.rank() <= a.larger(b).rank() && b.rank() <= a.larger(b).rank(),
        a.nan() ==> a.larger(b) == b,
        !a.nan() && b.nan() ==> a.larger(b) == a,
        a.less(b) <==> !a.nan() && !b.nan() && a.rank() < b.rank(),
{
}

} // verus!
