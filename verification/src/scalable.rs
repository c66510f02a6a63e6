//! Scaling one distance by another into a position estimate.
//!
//! A [`Scalable`] distance can say which fraction of another distance it is:
//! the raw ratio of the two, with a zero divisor standing for the degenerate
//! case and answered with the neutral one half. The ratio is not clamped; a
//! distance larger than the one it is scaled by yields a fraction above one,
//! which the search's normalization step later clamps.

use crate::fraction::Fraction;
use crate::fraction::spec_half;
use crate::interpolation_factor::reduce_fraction;
use crate::interpolation_factor::spec_reduce;
use crate::time::Duration;
use vstd::prelude::*;

verus! {

/// The denominator of a byte-vector fraction: the square of the base that
/// weights successive byte positions.
pub const BYTE_FRACTION_DEN: u64 = 65535 * 65535;

/// The raw ratio `num / den` of two nonnegative distances: one half when the
/// divisor is zero, otherwise the pair halved together until it fits a
/// machine word.
pub open spec fn spec_uint_fraction(num: int, den: int) -> Fraction {
    if den == 0 {
        spec_half()
    } else {
        spec_reduce(num, den)
    }
}

/// A distance that can be expressed as a fraction of another distance of the
/// same type.
pub trait Scalable: Sized {
    /// The exact fraction this type's scaling returns.
    spec fn fraction_spec(self, other: Self, r: Fraction) -> bool;

    /// Returns `self` as a fraction of `other`.
    fn fraction_of(&self, other: &Self) -> (r: Fraction)
        ensures
            self.fraction_spec(*other, r),
    ;
}

/// Computes the raw ratio of two word-or-wider counts.
pub fn uint_fraction(num: u128, den: u128) -> (r: Fraction)
    ensures
        r == spec_uint_fraction(num as int, den as int),
{
    if den == 0 {
        Fraction::half()
    } else {
        reduce_fraction(num, den)
    }
}

impl Scalable for u8 {
    open spec fn fraction_spec(self, other: Self, r: Fraction) -> bool {
        r == spec_uint_fraction(self as int, other as int)
    }

    fn fraction_of(&self, other: &Self) -> (r: Fraction) {
        uint_fraction(*self as u128, *other as u128)
    }
}

impl Scalable for u16 {
    open spec fn fraction_spec(self, other: Self, r: Fraction) -> bool {
        r == spec_uint_fraction(self as int, other as int)
    }

    fn fraction_of(&self, other: &Self) -> (r: Fraction) {
        uint_fraction(*self as u128, *other as u128)
    }
}

impl Scalable for u32 {
    open spec fn fraction_spec(self, other: Self, r: Fraction) -> bool {
        r == spec_uint_fraction(self as int, other as int)
    }

    fn fraction_of(&self, other: &Self) -> (r: Fraction) {
        uint_fraction(*self as u128, *other as u128)
    }
}

impl Scalable for u64 {
    open spec fn fraction_spec(self, other: Self, r: Fraction) -> bool {
        r == spec_uint_fraction(self as int, other as int)
    }

    fn fraction_of(&self, other: &Self) -> (r: Fraction) {
        uint_fraction(*self as u128, *other as u128)
    }
}

impl Scalable for u128 {
    open spec fn fraction_spec(self, other: Self, r: Fraction) -> bool {
        r == spec_uint_fraction(self as int, other as int)
    }

    fn fraction_of(&self, other: &Self) -> (r: Fraction) {
        uint_fraction(*self, *other)
    }
}

impl Scalable for usize {
    open spec fn fraction_spec(self, other: Self, r: Fraction) -> bool {
        r == spec_uint_fraction(self as int, other as int)
    }

    fn fraction_of(&self, other: &Self) -> (r: Fraction) {
        uint_fraction(*self as u128, *other as u128)
    }
}

impl Scalable for Duration {
    open spec fn fraction_spec(self, other: Self, r: Fraction) -> bool {
        r == spec_uint_fraction(self.spec_total_nanos(), other.spec_total_nanos())
    }

    fn fraction_of(&self, other: &Self) -> (r: Fraction) {
        uint_fraction(self.total_nanos(), other.total_nanos())
    }
}

/// One byte position's contribution to a byte-vector fraction, scaled so that
/// position `i` weighs `scale` units of the common denominator: the raw byte
/// ratio at that position, or one half of the weight when the divisor byte is
/// zero, or nothing when either vector ends before the position.
pub open spec fn spec_byte_term(a: Seq<u8>, b: Seq<u8>, i: int, scale: int) -> int {
    if 0 <= i < a.len() && i < b.len() {
        if b[i] == 0 {
            scale / 2
        } else {
            (a[i] * scale) / (b[i] as int)
        }
    } else {
        0
    }
}

/// The fraction one byte vector is of another: the per-position byte ratios
/// summed with weights falling by a factor of the base per position, over a
/// common denominator of the base squared. Positions past the second lie
/// below the denominator's resolution and are dropped.
pub open spec fn spec_vec_fraction(a: Seq<u8>, b: Seq<u8>) -> Fraction {
    Fraction {
        num: (spec_byte_term(a, b, 0, BYTE_FRACTION_DEN as int) + spec_byte_term(a, b, 1, 65535int)
            + spec_byte_term(a, b, 2, 1int)) as u64,
        den: BYTE_FRACTION_DEN,
    }
}

/// Computes one byte position's scaled contribution.
fn byte_term(a: &Vec<u8>, b: &Vec<u8>, i: usize, scale: u64) -> (t: u64)
    requires
        scale <= 65535 * 65535,
    ensures
        t == spec_byte_term(a@, b@, i as int, scale as int),
        t <= 255 * scale,
{
    if i < a.len() && i < b.len() {
        let ai: u64 = a[i] as u64;
        let bi: u64 = b[i] as u64;
        proof {
            vstd::arithmetic::mul::lemma_mul_upper_bound(ai as int, 255, scale as int, scale as int);
        }
        if bi == 0 {
            scale / 2
        } else {
            proof {
                vstd::arithmetic::div_mod::lemma_div_basics_5(
                    ai as int * scale as int,
                    bi as int,
                );
            }
            (ai * scale) / bi
        }
    } else {
        0
    }
}

impl Scalable for Vec<u8> {
    open spec fn fraction_spec(self, other: Self, r: Fraction) -> bool {
        r == spec_vec_fraction(self@, other@)
    }

    fn fraction_of(&self, other: &Self) -> (r: Fraction) {
        let t0: u64 = byte_term(self, other, 0, 65535 * 65535);
        let t1: u64 = byte_term(self, other, 1, 65535);
        let t2: u64 = byte_term(self, other, 2, 1);
        Fraction { num: t0 + t1 + t2, den: BYTE_FRACTION_DEN }
    }
}

} // verus!
