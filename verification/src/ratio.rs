//! Exact quotients of two integers.
//!
//! Size-derived metrics are kept as a numerator and a denominator so that no
//! rounding happens inside the library; a caller that wants a binary
//! floating-point number divides the two at its own boundary.

use vstd::prelude::*;

verus! {

/// The mathematical model of a [`Ratio`]: the quotient `num / den` of two
/// unbounded integers.
pub struct Fraction {
    pub num: int,
    pub den: int,
}

impl Fraction {
    /// The canonical zero, `0 / 1`.
    pub open spec fn zero() -> Fraction {
        Fraction { num: 0, den: 1 }
    }

    /// A fraction denotes a number only when its denominator is not zero.
    pub open spec fn wf(self) -> bool {
        self.den != 0
    }

    /// The additive inverse: the numerator changes sign, the denominator stays.
    pub open spec fn neg(self) -> Fraction {
        Fraction { num: -self.num, den: self.den }
    }

    /// The denoted number lies in the closed interval `[-1, 1]`.
    pub open spec fn within_unit(self) -> bool {
        if self.den > 0 {
            -self.den <= self.num <= self.den
        } else {
            self.den <= self.num <= -self.den
        }
    }
}

/// An exact quotient of two machine integers.
///
/// The fields are wide enough to hold the sum and the difference of any two
/// `i64` values.
#[derive(Clone, Copy, Debug, PartialEq, Eq, Structural)]
pub struct Ratio {
    pub num: i128,
    pub den: i128,
}

impl View for Ratio {
    type V = Fraction;

    open spec fn view(&self) -> Fraction {
        Fraction { num: self.num as int, den: self.den as int }
    }
}

} // verus!
