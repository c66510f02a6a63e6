//! A total order with a specification-level relation.
//!
//! The search compares elements through this trait rather than through the
//! standard comparison traits, so that its contract can speak about
//! sortedness, matches and insertion points for every element type, including
//! ones whose standard ordering carries no specification.
//!
//! The order is purely relational: two values may compare equal without being
//! the same value (for example two distinct strings with equal contents), so
//! the derived notion of a match is the equivalence [`eqv`], not equality.

use core::cmp::Ordering;
use vstd::prelude::*;

verus! {

/// A total order on `Self`: a specification-level `<=` relation that is total
/// and transitive, together with an executable three-way comparison that
/// agrees with it.
pub trait TotalOrder: Sized {
    /// The order relation itself: `self` comes no later than `other`.
    spec fn le_spec(self, other: Self) -> bool;

    /// The relation is total: of any two values, one comes no later than the
    /// other.
    proof fn lemma_total(a: Self, b: Self)
        ensures
            a.le_spec(b) || b.le_spec(a),
    ;

    /// The relation is transitive.
    proof fn lemma_transitive(a: Self, b: Self, c: Self)
        requires
            a.le_spec(b),
            b.le_spec(c),
        ensures
            a.le_spec(c),
    ;

    /// Three-way comparison agreeing with the specification relation.
    fn compare(&self, other: &Self) -> (c: Ordering)
        ensures
            c == Ordering::Less ==> self.le_spec(*other) && !other.le_spec(*self),
            c == Ordering::Equal ==> self.le_spec(*other) && other.le_spec(*self),
            c == Ordering::Greater ==> other.le_spec(*self) && !self.le_spec(*other),
    ;
}

/// Strictly earlier in the order: `a <= b` holds and `b <= a` does not.
pub open spec fn lt<T: TotalOrder>(a: T, b: T) -> bool {
    a.le_spec(b) && !b.le_spec(a)
}

/// Equivalent under the order: each comes no later than the other.
pub open spec fn eqv<T: TotalOrder>(a: T, b: T) -> bool {
    a.le_spec(b) && b.le_spec(a)
}

/// Exactly one of `lt(a, b)`, `eqv(a, b)`, `lt(b, a)` holds.
pub proof fn lemma_trichotomy<T: TotalOrder>(a: T, b: T)
    ensures
        lt(a, b) || eqv(a, b) || lt(b, a),
        lt(a, b) ==> !eqv(a, b) && !lt(b, a),
        eqv(a, b) ==> !lt(a, b) && !lt(b, a),
{
    T::lemma_total(a, b);
}

/// Equivalence under the order is transitive.
pub proof fn lemma_eqv_trans<T: TotalOrder>(a: T, b: T, c: T)
    requires
        eqv(a, b),
        eqv(b, c),
    ensures
        eqv(a, c),
{
    T::lemma_transitive(a, b, c);
    T::lemma_transitive(c, b, a);
}

/// A strict step followed by a lax one stays strict.
pub proof fn lemma_lt_le_trans<T: TotalOrder>(a: T, b: T, c: T)
    requires
        lt(a, b),
        b.le_spec(c),
    ensures
        lt(a, c),
{
    T::lemma_transitive(a, b, c);
    if c.le_spec(a) {
        T::lemma_transitive(b, c, a);
    }
}

/// A lax step followed by a strict one stays strict.
pub proof fn lemma_le_lt_trans<T: TotalOrder>(a: T, b: T, c: T)
    requires
        a.le_spec(b),
        lt(b, c),
    ensures
        lt(a, c),
{
    T::lemma_transitive(a, b, c);
    if c.le_spec(a) {
        T::lemma_transitive(c, a, b);
    }
}

impl TotalOrder for u8 {
    open spec fn le_spec(self, other: Self) -> bool {
        self <= other
    }

    proof fn lemma_total(a: Self, b: Self) {
    }

    proof fn lemma_transitive(a: Self, b: Self, c: Self) {
    }

    fn compare(&self, other: &Self) -> (c: Ordering) {
        if *self < *other {
            Ordering::Less
        } else if *self > *other {
            Ordering::Greater
        } else {
            Ordering::Equal
        }
    }
}

impl TotalOrder for u16 {
    open spec fn le_spec(self, other: Self) -> bool {
        self <= other
    }

    proof fn lemma_total(a: Self, b: Self) {
    }

    proof fn lemma_transitive(a: Self, b: Self, c: Self) {
    }

    fn compare(&self, other: &Self) -> (c: Ordering) {
        if *self < *other {
            Ordering::Less
        } else if *self > *other {
            Ordering::Greater
        } else {
            Ordering::Equal
        }
    }
}

impl TotalOrder for u32 {
    open spec fn le_spec(self, other: Self) -> bool {
        self <= other
    }

    proof fn lemma_total(a: Self, b: Self) {
    }

    proof fn lemma_transitive(a: Self, b: Self, c: Self) {
    }

    fn compare(&self, other: &Self) -> (c: Ordering) {
        if *self < *other {
            Ordering::Less
        } else if *self > *other {
            Ordering::Greater
        } else {
            Ordering::Equal
        }
    }
}

impl TotalOrder for u64 {
    open spec fn le_spec(self, other: Self) -> bool {
        self <= other
    }

    proof fn lemma_total(a: Self, b: Self) {
    }

    proof fn lemma_transitive(a: Self, b: Self, c: Self) {
    }

    fn compare(&self, other: &Self) -> (c: Ordering) {
        if *self < *other {
            Ordering::Less
        } else if *self > *other {
            Ordering::Greater
        } else {
            Ordering::Equal
        }
    }
}

impl TotalOrder for u128 {
    open spec fn le_spec(self, other: Self) -> bool {
        self <= other
    }

    proof fn lemma_total(a: Self, b: Self) {
    }

    proof fn lemma_transitive(a: Self, b: Self, c: Self) {
    }

    fn compare(&self, other: &Self) -> (c: Ordering) {
        if *self < *other {
            Ordering::Less
        } else if *self > *other {
            Ordering::Greater
        } else {
            Ordering::Equal
        }
    }
}

impl TotalOrder for usize {
    open spec fn le_spec(self, other: Self) -> bool {
        self <= other
    }

    proof fn lemma_total(a: Self, b: Self) {
    }

    proof fn lemma_transitive(a: Self, b: Self, c: Self) {
    }

    fn compare(&self, other: &Self) -> (c: Ordering) {
        if *self < *other {
            Ordering::Less
        } else if *self > *other {
            Ordering::Greater
        } else {
            Ordering::Equal
        }
    }
}

impl TotalOrder for i8 {
    open spec fn le_spec(self, other: Self) -> bool {
        self <= other
    }

    proof fn lemma_total(a: Self, b: Self) {
    }

    proof fn lemma_transitive(a: Self, b: Self, c: Self) {
    }

    fn compare(&self, other: &Self) -> (c: Ordering) {
        if *self < *other {
            Ordering::Less
        } else if *self > *other {
            Ordering::Greater
        } else {
            Ordering::Equal
        }
    }
}

impl TotalOrder for i16 {
    open spec fn le_spec(self, other: Self) -> bool {
        self <= other
    }

    proof fn lemma_total(a: Self, b: Self) {
    }

    proof fn lemma_transitive(a: Self, b: Self, c: Self) {
    }

    fn compare(&self, other: &Self) -> (c: Ordering) {
        if *self < *other {
            Ordering::Less
        } else if *self > *other {
            Ordering::Greater
        } else {
            Ordering::Equal
        }
    }
}

impl TotalOrder for i32 {
    open spec fn le_spec(self, other: Self) -> bool {
        self <= other
    }

    proof fn lemma_total(a: Self, b: Self) {
    }

    proof fn lemma_transitive(a: Self, b: Self, c: Self) {
    }

    fn compare(&self, other: &Self) -> (c: Ordering) {
        if *self < *other {
            Ordering::Less
        } else if *self > *other {
            Ordering::Greater
        } else {
            Ordering::Equal
        }
    }
}

impl TotalOrder for i64 {
    open spec fn le_spec(self, other: Self) -> bool {
        self <= other
    }

    proof fn lemma_total(a: Self, b: Self) {
    }

    proof fn lemma_transitive(a: Self, b: Self, c: Self) {
    }

    fn compare(&self, other: &Self) -> (c: Ordering) {
        if *self < *other {
            Ordering::Less
        } else if *self > *other {
            Ordering::Greater
        } else {
            Ordering::Equal
        }
    }
}

impl TotalOrder for i128 {
    open spec fn le_spec(self, other: Self) -> bool {
        self <= other
    }

    proof fn lemma_total(a: Self, b: Self) {
    }

    proof fn lemma_transitive(a: Self, b: Self, c: Self) {
    }

    fn compare(&self, other: &Self) -> (c: Ordering) {
        if *self < *other {
            Ordering::Less
        } else if *self > *other {
            Ordering::Greater
        } else {
            Ordering::Equal
        }
    }
}

impl TotalOrder for isize {
    open spec fn le_spec(self, other: Self) -> bool {
        self <= other
    }

    proof fn lemma_total(a: Self, b: Self) {
    }

    proof fn lemma_transitive(a: Self, b: Self, c: Self) {
    }

    fn compare(&self, other: &Self) -> (c: Ordering) {
        if *self < *other {
            Ordering::Less
        } else if *self > *other {
            Ordering::Greater
        } else {
            Ordering::Equal
        }
    }
}

impl TotalOrder for char {
    open spec fn le_spec(self, other: Self) -> bool {
        self as u32 <= other as u32
    }

    proof fn lemma_total(a: Self, b: Self) {
    }

    proof fn lemma_transitive(a: Self, b: Self, c: Self) {
    }

    fn compare(&self, other: &Self) -> (c: Ordering) {
        let a: u32 = *self as u32;
        let b: u32 = *other as u32;
        if a < b {
            Ordering::Less
        } else if a > b {
            Ordering::Greater
        } else {
            Ordering::Equal
        }
    }
}

} // verus!
