//! An exact rational estimate in place of a floating-point interpolation
//! factor.
//!
//! A [`Fraction`] is a ratio of two machine integers. It is deliberately not
//! kept in any canonical form: an estimator may hand back a fraction above one
//! (the analogue of an out-of-range float) or one with a zero denominator (the
//! analogue of a non-finite float). The search normalizes every estimate
//! before using it, so such values degrade an estimate to a safe default
//! instead of derailing the search.

use vstd::prelude::*;

verus! {

/// A ratio `num / den` of unsigned integers, used as a position estimate.
///
/// A value is only a meaningful estimate when it is normalized (see
/// [`Fraction::is_normalized`]); anything else stands for a degenerate
/// estimate and is mapped to a safe value before use.
#[derive(Clone, Copy, Debug, PartialEq, Eq, Structural)]
pub struct Fraction {
    /// Numerator.
    pub num: u64,
    /// Denominator; zero marks a degenerate (non-finite) estimate.
    pub den: u64,
}

/// One half, the neutral estimate used when the boundary values give no
/// information about the target's position.
pub open spec fn spec_half() -> Fraction {
    Fraction { num: 1, den: 2 }
}

impl Fraction {
    /// True when the fraction is a well-formed estimate in the unit range:
    /// the denominator is positive and the ratio is at most one.
    pub open spec fn is_normalized(self) -> bool {
        0 < self.den && self.num <= self.den
    }

    /// Builds the fraction `num / den`.
    pub fn new(num: u64, den: u64) -> (r: Fraction)
        ensures
            r == (Fraction { num, den }),
    {
        Fraction { num, den }
    }

    /// The neutral estimate of one half.
    pub fn half() -> (r: Fraction)
        ensures
            r == spec_half(),
            r.is_normalized(),
    {
        Fraction { num: 1, den: 2 }
    }

    /// The estimate zero: the target is thought to sit at the low boundary.
    pub fn zero() -> (r: Fraction)
        ensures
            r == (Fraction { num: 0, den: 1 }),
            r.is_normalized(),
    {
        Fraction { num: 0, den: 1 }
    }

    /// The estimate one: the target is thought to sit at the high boundary.
    pub fn one() -> (r: Fraction)
        ensures
            r == (Fraction { num: 1, den: 1 }),
            r.is_normalized(),
    {
        Fraction { num: 1, den: 1 }
    }
}

} // verus!
