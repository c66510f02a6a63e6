//! Composite elements: pairs of orderable types.
//!
//! A pair orders lexicographically, and its position estimate delegates to
//! the first field when the boundary pairs differ there, and to the second
//! field otherwise. Estimators therefore compose by field: any types with an
//! order and an estimator combine into an ordered, estimating pair, and
//! nesting pairs extends this to any number of fields.

use core::cmp::Ordering;
use crate::fraction::Fraction;
use crate::interpolation_factor::InterpolationFactor;
use crate::order::TotalOrder;
use crate::order::eqv;
use crate::order::lemma_eqv_trans;
use crate::order::lemma_le_lt_trans;
use crate::order::lemma_lt_le_trans;
use crate::order::lt;
use vstd::prelude::*;

verus! {

impl<A: TotalOrder, B: TotalOrder> TotalOrder for (A, B) {
    open spec fn le_spec(self, other: Self) -> bool {
        lt(self.0, other.0) || (eqv(self.0, other.0) && self.1.le_spec(other.1))
    }

    proof fn lemma_total(a: Self, b: Self) {
        A::lemma_total(a.0, b.0);
        B::lemma_total(a.1, b.1);
    }

    proof fn lemma_transitive(a: Self, b: Self, c: Self) {
        if eqv(a.0, b.0) && eqv(b.0, c.0) {
            lemma_eqv_trans::<A>(a.0, b.0, c.0);
            B::lemma_transitive(a.1, b.1, c.1);
        } else if eqv(a.0, b.0) {
            lemma_le_lt_trans::<A>(a.0, b.0, c.0);
        } else {
            lemma_lt_le_trans::<A>(a.0, b.0, c.0);
        }
    }

    fn compare(&self, other: &Self) -> (c: Ordering) {
        match self.0.compare(&other.0) {
            Ordering::Equal => self.1.compare(&other.1),
            Ordering::Less => Ordering::Less,
            Ordering::Greater => Ordering::Greater,
        }
    }
}

impl<A: InterpolationFactor, B: InterpolationFactor> InterpolationFactor for (A, B) {
    open spec fn factor_spec(self, a: Self, b: Self, r: Fraction) -> bool {
        if eqv(a.0, b.0) {
            self.1.factor_spec(a.1, b.1, r)
        } else {
            self.0.factor_spec(a.0, b.0, r)
        }
    }

    fn interpolation_factor(&self, a: &Self, b: &Self) -> (r: Fraction) {
        match a.0.compare(&b.0) {
            Ordering::Equal => {
                let r = self.1.interpolation_factor(&a.1, &b.1);
                proof {
                    if a.le_spec(*self) && self.le_spec(*b) {
                        if lt(a.0, self.0) {
                            lemma_lt_le_trans::<A>(a.0, self.0, b.0);
                        }
                        if lt(self.0, b.0) {
                            lemma_le_lt_trans::<A>(a.0, self.0, b.0);
                        }
                    }
                }
                r
            },
            _ => {
                self.0.interpolation_factor(&a.0, &b.0)
            },
        }
    }
}

} // verus!
