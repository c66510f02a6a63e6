//! Points in time and spans between them, as plain values.
//!
//! A [`Timestamp`] is an instant, counted in whole seconds and nanoseconds
//! from some fixed epoch; a [`Duration`] is a nonnegative span in the same
//! units. Both order themselves by their total nanosecond count, so a
//! timestamp with an overlong nanosecond field still compares consistently.
//! The span from one timestamp back to an earlier one is floored to zero,
//! never negative.

use crate::fraction::Fraction;
use crate::fraction::spec_half;
use crate::interpolation_factor::InterpolationFactor;
use crate::interpolation_factor::reduce_fraction;
use crate::interpolation_factor::spec_reduce;
use crate::order::TotalOrder;
use core::cmp::Ordering;
use vstd::prelude::*;

verus! {

/// Nanoseconds in one second.
pub const NANOS_PER_SEC: u32 = 1_000_000_000;

/// An instant: seconds and additional nanoseconds since a fixed epoch.
#[derive(Clone, Copy, Debug, PartialEq, Eq, Structural)]
pub struct Timestamp {
    /// Whole seconds since the epoch.
    pub secs: u64,
    /// Nanoseconds on top of the seconds.
    pub nanos: u32,
}

/// A nonnegative span of time: seconds and additional nanoseconds.
#[derive(Clone, Copy, Debug, PartialEq, Eq, Structural)]
pub struct Duration {
    /// Whole seconds of the span.
    pub secs: u64,
    /// Nanoseconds on top of the seconds.
    pub nanos: u32,
}

impl Timestamp {
    /// The instant as a total count of nanoseconds since the epoch.
    pub open spec fn spec_total_nanos(self) -> int {
        self.secs as int * NANOS_PER_SEC as int + self.nanos as int
    }

    /// The nanosecond field names less than one second.
    pub open spec fn is_canonical(self) -> bool {
        self.nanos < NANOS_PER_SEC
    }

    /// Builds the instant `secs` seconds and `nanos` nanoseconds past the
    /// epoch.
    pub fn new(secs: u64, nanos: u32) -> (r: Timestamp)
        requires
            nanos < NANOS_PER_SEC,
        ensures
            r == (Timestamp { secs, nanos }),
            r.is_canonical(),
    {
        Timestamp { secs, nanos }
    }

    /// Builds the instant a whole number of seconds past the epoch.
    pub fn from_secs(secs: u64) -> (r: Timestamp)
        ensures
            r == (Timestamp { secs, nanos: 0 }),
            r.is_canonical(),
    {
        Timestamp { secs, nanos: 0 }
    }

    /// The instant `d` later than `self`.
    pub fn plus(&self, d: &Duration) -> (r: Timestamp)
        requires
            self.spec_total_nanos() + d.spec_total_nanos() <= u64::MAX * (
            NANOS_PER_SEC as int) + (NANOS_PER_SEC - 1),
        ensures
            r.spec_total_nanos() == self.spec_total_nanos() + d.spec_total_nanos(),
            r.is_canonical(),
    {
        let total: u128 = self.total_nanos() + d.total_nanos();
        proof {
            vstd::arithmetic::div_mod::lemma_fundamental_div_mod(
                total as int,
                NANOS_PER_SEC as int,
            );
            vstd::arithmetic::div_mod::lemma_div_is_ordered(
                total as int,
                u64::MAX * (NANOS_PER_SEC as int) + (NANOS_PER_SEC - 1),
                NANOS_PER_SEC as int,
            );
        }
        Timestamp {
            secs: (total / (NANOS_PER_SEC as u128)) as u64,
            nanos: (total % (NANOS_PER_SEC as u128)) as u32,
        }
    }

    /// The span from `self` forward to `other`, floored to zero when `other`
    /// is earlier.
    pub fn span_to(&self, other: &Timestamp) -> (d: Duration)
        requires
            other.is_canonical(),
        ensures
            d.spec_total_nanos() == if self.spec_total_nanos() <= other.spec_total_nanos() {
                other.spec_total_nanos() - self.spec_total_nanos()
            } else {
                0
            },
            d.is_canonical(),
    {
        let a: u128 = self.total_nanos();
        let b: u128 = other.total_nanos();
        if a <= b {
            let diff: u128 = b - a;
            proof {
                vstd::arithmetic::div_mod::lemma_fundamental_div_mod(
                    diff as int,
                    NANOS_PER_SEC as int,
                );
                vstd::arithmetic::div_mod::lemma_div_is_ordered(
                    diff as int,
                    u64::MAX * (NANOS_PER_SEC as int) + (NANOS_PER_SEC - 1),
                    NANOS_PER_SEC as int,
                );
            }
            Duration {
                secs: (diff / (NANOS_PER_SEC as u128)) as u64,
                nanos: (diff % (NANOS_PER_SEC as u128)) as u32,
            }
        } else {
            Duration { secs: 0, nanos: 0 }
        }
    }

    /// The instant's total nanosecond count.
    pub fn total_nanos(&self) -> (r: u128)
        ensures
            r == self.spec_total_nanos(),
    {
        proof {
            vstd::arithmetic::mul::lemma_mul_upper_bound(
                self.secs as int,
                u64::MAX as int,
                NANOS_PER_SEC as int,
                NANOS_PER_SEC as int,
            );
        }
        (self.secs as u128) * (NANOS_PER_SEC as u128) + (self.nanos as u128)
    }
}

impl Duration {
    /// The span as a total count of nanoseconds.
    pub open spec fn spec_total_nanos(self) -> int {
        self.secs as int * NANOS_PER_SEC as int + self.nanos as int
    }

    /// The nanosecond field names less than one second.
    pub open spec fn is_canonical(self) -> bool {
        self.nanos < NANOS_PER_SEC
    }

    /// Builds the span of `secs` seconds and `nanos` nanoseconds.
    pub fn new(secs: u64, nanos: u32) -> (r: Duration)
        requires
            nanos < NANOS_PER_SEC,
        ensures
            r == (Duration { secs, nanos }),
            r.is_canonical(),
    {
        Duration { secs, nanos }
    }

    /// The empty span.
    pub fn zero() -> (r: Duration)
        ensures
            r == (Duration { secs: 0, nanos: 0 }),
            r.spec_total_nanos() == 0,
    {
        Duration { secs: 0, nanos: 0 }
    }

    /// A span of whole seconds.
    pub fn from_secs(secs: u64) -> (r: Duration)
        ensures
            r == (Duration { secs, nanos: 0 }),
            r.is_canonical(),
    {
        Duration { secs, nanos: 0 }
    }

    /// A span of whole milliseconds.
    pub fn from_millis(millis: u64) -> (r: Duration)
        ensures
            r.spec_total_nanos() == millis * 1_000_000,
            r.is_canonical(),
    {
        Duration {
            secs: millis / 1_000,
            nanos: ((millis % 1_000) * 1_000_000) as u32,
        }
    }

    /// The span's total nanosecond count.
    pub fn total_nanos(&self) -> (r: u128)
        ensures
            r == self.spec_total_nanos(),
    {
        proof {
            vstd::arithmetic::mul::lemma_mul_upper_bound(
                self.secs as int,
                u64::MAX as int,
                NANOS_PER_SEC as int,
                NANOS_PER_SEC as int,
            );
        }
        (self.secs as u128) * (NANOS_PER_SEC as u128) + (self.nanos as u128)
    }

    /// True when the span is empty.
    pub fn is_zero(&self) -> (r: bool)
        ensures
            r == (self.spec_total_nanos() == 0),
    {
        self.secs == 0 && self.nanos == 0
    }
}

impl TotalOrder for Timestamp {
    open spec fn le_spec(self, other: Self) -> bool {
        self.spec_total_nanos() <= other.spec_total_nanos()
    }

    proof fn lemma_total(a: Self, b: Self) {
    }

    proof fn lemma_transitive(a: Self, b: Self, c: Self) {
    }

    fn compare(&self, other: &Self) -> (c: Ordering) {
        let a: u128 = self.total_nanos();
        let b: u128 = other.total_nanos();
        if a < b {
            Ordering::Less
        } else if a > b {
            Ordering::Greater
        } else {
            Ordering::Equal
        }
    }
}

impl TotalOrder for Duration {
    open spec fn le_spec(self, other: Self) -> bool {
        self.spec_total_nanos() <= other.spec_total_nanos()
    }

    proof fn lemma_total(a: Self, b: Self) {
    }

    proof fn lemma_transitive(a: Self, b: Self, c: Self) {
    }

    fn compare(&self, other: &Self) -> (c: Ordering) {
        let a: u128 = self.total_nanos();
        let b: u128 = other.total_nanos();
        if a < b {
            Ordering::Less
        } else if a > b {
            Ordering::Greater
        } else {
            Ordering::Equal
        }
    }
}

/// The estimate for a target instant between two boundary instants, all given
/// as total nanosecond counts: the span from the low boundary to the target
/// (floored to zero) as a fraction of the span between the boundaries
/// (likewise floored, a zero denominator marking a backwards pair).
pub open spec fn spec_time_factor(t: int, a: int, b: int) -> Fraction {
    if a == b {
        spec_half()
    } else {
        let num = if t >= a {
            t - a
        } else {
            0
        };
        let den = if b >= a {
            b - a
        } else {
            0
        };
        spec_reduce(num, den)
    }
}

impl InterpolationFactor for Timestamp {
    open spec fn factor_spec(self, a: Self, b: Self, r: Fraction) -> bool {
        r == spec_time_factor(self.spec_total_nanos(), a.spec_total_nanos(), b.spec_total_nanos())
    }

    fn interpolation_factor(&self, a: &Self, b: &Self) -> (r: Fraction) {
        let t: u128 = self.total_nanos();
        let lo: u128 = a.total_nanos();
        let hi: u128 = b.total_nanos();
        if lo == hi {
            Fraction::half()
        } else {
            let num: u128 = if t >= lo {
                t - lo
            } else {
                0
            };
            let den: u128 = if hi >= lo {
                hi - lo
            } else {
                0
            };
            proof {
                if a.le_spec(*self) && self.le_spec(*b) {
                    crate::interpolation_factor::lemma_reduce_normalized(num as int, den as int);
                }
            }
            reduce_fraction(num, den)
        }
    }
}

} // verus!
