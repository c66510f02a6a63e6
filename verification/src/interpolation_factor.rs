//! The position estimator: where does a target sit between two boundary
//! values?
//!
//! Each element type answers through [`InterpolationFactor`], returning an
//! exact rational [`Fraction`] instead of a floating-point number. Integer
//! types measure the target's offset within the boundary span; the offset is
//! clamped into the span first, so the estimate is always within the unit
//! range. Spans wider than a machine word are halved until they fit, which
//! keeps the ratio while rounding away only low-order precision.

use crate::fraction::Fraction;
use crate::fraction::spec_half;
use crate::order::TotalOrder;
use crate::order::eqv;
use vstd::prelude::*;

verus! {

/// Clamps `t` into the closed interval `[lo, hi]`.
pub open spec fn spec_clamp(t: int, lo: int, hi: int) -> int {
    if t < lo {
        lo
    } else if t > hi {
        hi
    } else {
        t
    }
}

/// Absolute value.
pub open spec fn spec_abs(x: int) -> int {
    if x < 0 {
        -x
    } else {
        x
    }
}

/// Halves numerator and denominator together until both fit in a machine
/// word, then packs them into a [`Fraction`]. Halving both sides keeps the
/// ratio up to rounding and preserves `num <= den`.
pub open spec fn spec_reduce(num: int, den: int) -> Fraction
    decreases num + den,
{
    if 0 <= num && 0 <= den && (num > u64::MAX || den > u64::MAX) {
        spec_reduce(num / 2, den / 2)
    } else {
        Fraction { num: num as u64, den: den as u64 }
    }
}

/// The estimate for a target `t` between integer boundary values `a` and `b`:
/// one half when the boundaries coincide, otherwise the distance from `a` to
/// `t` (clamped into the boundary span) as a fraction of the whole span.
pub open spec fn spec_factor(t: int, a: int, b: int) -> Fraction {
    if a == b {
        spec_half()
    } else {
        let lo = if a <= b {
            a
        } else {
            b
        };
        let hi = if a <= b {
            b
        } else {
            a
        };
        spec_reduce(spec_abs(spec_clamp(t, lo, hi) - a), spec_abs(b - a))
    }
}

/// A reduced fraction with a nonnegative numerator at most the denominator is
/// a normalized estimate.
pub proof fn lemma_reduce_normalized(num: int, den: int)
    requires
        0 <= num <= den,
        1 <= den,
    ensures
        spec_reduce(num, den).is_normalized(),
    decreases num + den,
{
    if num > u64::MAX || den > u64::MAX {
        lemma_reduce_normalized(num / 2, den / 2);
    }
}

/// The integer estimate is a normalized fraction for every input.
pub proof fn lemma_factor_normalized(t: int, a: int, b: int)
    ensures
        spec_factor(t, a, b).is_normalized(),
{
    if a != b {
        let lo = if a <= b {
            a
        } else {
            b
        };
        let hi = if a <= b {
            b
        } else {
            a
        };
        lemma_reduce_normalized(spec_abs(spec_clamp(t, lo, hi) - a), spec_abs(b - a));
    }
}

/// Supplies the position estimate the search interpolates with: a normalized
/// fraction saying where `self` is expected to lie between the boundary
/// values `a` and `b`.
///
/// Every implementation must satisfy the consistency contract: whenever
/// `a <= self <= b` under the type's [`TotalOrder`], the estimate lies in the
/// unit range, and equivalent boundaries give the neutral estimate of one
/// half. `factor_spec` additionally pins, per type, the exact fraction
/// returned.
pub trait InterpolationFactor: TotalOrder {
    /// The exact estimate this type's estimator returns.
    spec fn factor_spec(self, a: Self, b: Self, r: Fraction) -> bool;

    /// Returns the estimate of where `self` lies between `a` and `b`.
    fn interpolation_factor(&self, a: &Self, b: &Self) -> (r: Fraction)
        ensures
            self.factor_spec(*a, *b, r),
            a.le_spec(*self) && self.le_spec(*b) ==> r.is_normalized(),
            eqv(*a, *b) ==> r == spec_half(),
    ;
}

/// The estimate for a target between two integer boundary values whose span
/// fits in a machine word; all integer types up to a machine word wide
/// delegate here.
pub fn int_factor(t: i128, a: i128, b: i128) -> (r: Fraction)
    requires
        spec_abs(b as int - a as int) <= u64::MAX,
    ensures
        r == spec_factor(t as int, a as int, b as int),
        r.is_normalized(),
{
    proof {
        lemma_factor_normalized(t as int, a as int, b as int);
    }
    if a == b {
        Fraction::half()
    } else {
        let lo: i128 = if a <= b {
            a
        } else {
            b
        };
        let hi: i128 = if a <= b {
            b
        } else {
            a
        };
        let m: i128 = if t < lo {
            lo
        } else if t > hi {
            hi
        } else {
            t
        };
        let num: u64 = if m >= a {
            (m - a) as u64
        } else {
            (a - m) as u64
        };
        let den: u64 = if b >= a {
            (b - a) as u64
        } else {
            (a - b) as u64
        };
        Fraction { num, den }
    }
}

impl InterpolationFactor for u8 {
    open spec fn factor_spec(self, a: Self, b: Self, r: Fraction) -> bool {
        r == spec_factor(self as int, a as int, b as int)
    }

    fn interpolation_factor(&self, a: &Self, b: &Self) -> (r: Fraction) {
        int_factor(*self as i128, *a as i128, *b as i128)
    }
}

/// Absolute difference of two unsigned double words.
fn abs_diff_u128(x: u128, y: u128) -> (d: u128)
    ensures
        d == spec_abs(x as int - y as int),
{
    if x >= y {
        x - y
    } else {
        y - x
    }
}

/// Absolute difference of two signed double words; the result can overflow
/// the signed range, so it is returned unsigned.
pub(crate) fn abs_diff_i128(x: i128, y: i128) -> (d: u128)
    ensures
        d == spec_abs(x as int - y as int),
{
    let lo: i128 = if x <= y {
        x
    } else {
        y
    };
    let hi: i128 = if x <= y {
        y
    } else {
        x
    };
    if lo >= 0 || hi < 0 {
        (hi - lo) as u128
    } else {
        ((-(lo + 1)) as u128) + 1 + (hi as u128)
    }
}

/// Packs a wide ratio into a [`Fraction`], halving both sides together until
/// they fit in a machine word.
pub(crate) fn reduce_fraction(num: u128, den: u128) -> (r: Fraction)
    ensures
        r == spec_reduce(num as int, den as int),
{
    let mut n: u128 = num;
    let mut d: u128 = den;
    while n > u64::MAX as u128 || d > u64::MAX as u128
        invariant
            spec_reduce(n as int, d as int) == spec_reduce(num as int, den as int),
        decreases n + d,
    {
        n = n / 2;
        d = d / 2;
    }
    Fraction { num: n as u64, den: d as u64 }
}

/// The estimate for a target between two boundary values a whole unsigned
/// double word wide.
pub fn wide_factor_u128(t: u128, a: u128, b: u128) -> (r: Fraction)
    ensures
        r == spec_factor(t as int, a as int, b as int),
        r.is_normalized(),
{
    proof {
        lemma_factor_normalized(t as int, a as int, b as int);
    }
    if a == b {
        Fraction::half()
    } else {
        let lo: u128 = if a <= b {
            a
        } else {
            b
        };
        let hi: u128 = if a <= b {
            b
        } else {
            a
        };
        let m: u128 = if t < lo {
            lo
        } else if t > hi {
            hi
        } else {
            t
        };
        reduce_fraction(abs_diff_u128(m, a), abs_diff_u128(b, a))
    }
}

/// The estimate for a target between two boundary values a whole signed
/// double word wide.
pub fn wide_factor_i128(t: i128, a: i128, b: i128) -> (r: Fraction)
    ensures
        r == spec_factor(t as int, a as int, b as int),
        r.is_normalized(),
{
    proof {
        lemma_factor_normalized(t as int, a as int, b as int);
    }
    if a == b {
        Fraction::half()
    } else {
        let lo: i128 = if a <= b {
            a
        } else {
            b
        };
        let hi: i128 = if a <= b {
            b
        } else {
            a
        };
        let m: i128 = if t < lo {
            lo
        } else if t > hi {
            hi
        } else {
            t
        };
        reduce_fraction(abs_diff_i128(m, a), abs_diff_i128(b, a))
    }
}

impl InterpolationFactor for u16 {
    open spec fn factor_spec(self, a: Self, b: Self, r: Fraction) -> bool {
        r == spec_factor(self as int, a as int, b as int)
    }

    fn interpolation_factor(&self, a: &Self, b: &Self) -> (r: Fraction) {
        int_factor(*self as i128, *a as i128, *b as i128)
    }
}

impl InterpolationFactor for u32 {
    open spec fn factor_spec(self, a: Self, b: Self, r: Fraction) -> bool {
        r == spec_factor(self as int, a as int, b as int)
    }

    fn interpolation_factor(&self, a: &Self, b: &Self) -> (r: Fraction) {
        int_factor(*self as i128, *a as i128, *b as i128)
    }
}

impl InterpolationFactor for u64 {
    open spec fn factor_spec(self, a: Self, b: Self, r: Fraction) -> bool {
        r == spec_factor(self as int, a as int, b as int)
    }

    fn interpolation_factor(&self, a: &Self, b: &Self) -> (r: Fraction) {
        int_factor(*self as i128, *a as i128, *b as i128)
    }
}

impl InterpolationFactor for usize {
    open spec fn factor_spec(self, a: Self, b: Self, r: Fraction) -> bool {
        r == spec_factor(self as int, a as int, b as int)
    }

    fn interpolation_factor(&self, a: &Self, b: &Self) -> (r: Fraction) {
        int_factor(*self as i128, *a as i128, *b as i128)
    }
}

impl InterpolationFactor for i8 {
    open spec fn factor_spec(self, a: Self, b: Self, r: Fraction) -> bool {
        r == spec_factor(self as int, a as int, b as int)
    }

    fn interpolation_factor(&self, a: &Self, b: &Self) -> (r: Fraction) {
        int_factor(*self as i128, *a as i128, *b as i128)
    }
}

impl InterpolationFactor for i16 {
    open spec fn factor_spec(self, a: Self, b: Self, r: Fraction) -> bool {
        r == spec_factor(self as int, a as int, b as int)
    }

    fn interpolation_factor(&self, a: &Self, b: &Self) -> (r: Fraction) {
        int_factor(*self as i128, *a as i128, *b as i128)
    }
}

impl InterpolationFactor for i32 {
    open spec fn factor_spec(self, a: Self, b: Self, r: Fraction) -> bool {
        r == spec_factor(self as int, a as int, b as int)
    }

    fn interpolation_factor(&self, a: &Self, b: &Self) -> (r: Fraction) {
        int_factor(*self as i128, *a as i128, *b as i128)
    }
}

impl InterpolationFactor for i64 {
    open spec fn factor_spec(self, a: Self, b: Self, r: Fraction) -> bool {
        r == spec_factor(self as int, a as int, b as int)
    }

    fn interpolation_factor(&self, a: &Self, b: &Self) -> (r: Fraction) {
        int_factor(*self as i128, *a as i128, *b as i128)
    }
}

impl InterpolationFactor for isize {
    open spec fn factor_spec(self, a: Self, b: Self, r: Fraction) -> bool {
        r == spec_factor(self as int, a as int, b as int)
    }

    fn interpolation_factor(&self, a: &Self, b: &Self) -> (r: Fraction) {
        int_factor(*self as i128, *a as i128, *b as i128)
    }
}

impl InterpolationFactor for u128 {
    open spec fn factor_spec(self, a: Self, b: Self, r: Fraction) -> bool {
        r == spec_factor(self as int, a as int, b as int)
    }

    fn interpolation_factor(&self, a: &Self, b: &Self) -> (r: Fraction) {
        wide_factor_u128(*self, *a, *b)
    }
}

impl InterpolationFactor for i128 {
    open spec fn factor_spec(self, a: Self, b: Self, r: Fraction) -> bool {
        r == spec_factor(self as int, a as int, b as int)
    }

    fn interpolation_factor(&self, a: &Self, b: &Self) -> (r: Fraction) {
        wide_factor_i128(*self, *a, *b)
    }
}

impl InterpolationFactor for char {
    open spec fn factor_spec(self, a: Self, b: Self, r: Fraction) -> bool {
        r == spec_factor((self as u32) as int, (a as u32) as int, (b as u32) as int)
    }

    fn interpolation_factor(&self, a: &Self, b: &Self) -> (r: Fraction) {
        int_factor((*self as u32) as i128, (*a as u32) as i128, (*b as u32) as i128)
    }
}

} // verus!
