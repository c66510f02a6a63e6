//! Distances between values of a "linear" type.
//!
//! A [`Linear`] type can measure the distance from one of its values to
//! another, as a value of a [`Scalable`] distance type. Composed with
//! [`Scalable::fraction_of`], two such distances reproduce a position
//! estimate: the distance from the low boundary to the target, scaled by the
//! distance between the boundaries. Unsigned types measure forward only;
//! signed types measure the absolute difference; characters and timestamps
//! measure forward and floor backward distances to zero; strings measure
//! per-character distances over their common length.

use crate::interpolation_factor::abs_diff_i128;
use crate::interpolation_factor::spec_abs;
use crate::scalable::Scalable;
use crate::time::Duration;
use crate::time::Timestamp;
use vstd::prelude::*;

verus! {

/// A type with a distance between its values, measured in a [`Scalable`]
/// distance type.
pub trait Linear<Distance: Scalable = Self>: Sized {
    /// When the distance is defined.
    spec fn distance_requires(self, other: Self) -> bool;

    /// Pins, per type, the exact distance returned.
    spec fn distance_spec(self, other: Self, d: Distance) -> bool;

    /// The distance from `self` to `other`.
    fn distance_to(&self, other: &Self) -> (d: Distance)
        requires
            self.distance_requires(*other),
        ensures
            self.distance_spec(*other, d),
    ;
}

impl Linear for u8 {
    open spec fn distance_requires(self, other: Self) -> bool {
        self <= other
    }

    open spec fn distance_spec(self, other: Self, d: Self) -> bool {
        d as int == other as int - self as int
    }

    fn distance_to(&self, other: &Self) -> (d: Self) {
        *other - *self
    }
}

impl Linear for u16 {
    open spec fn distance_requires(self, other: Self) -> bool {
        self <= other
    }

    open spec fn distance_spec(self, other: Self, d: Self) -> bool {
        d as int == other as int - self as int
    }

    fn distance_to(&self, other: &Self) -> (d: Self) {
        *other - *self
    }
}

impl Linear for u32 {
    open spec fn distance_requires(self, other: Self) -> bool {
        self <= other
    }

    open spec fn distance_spec(self, other: Self, d: Self) -> bool {
        d as int == other as int - self as int
    }

    fn distance_to(&self, other: &Self) -> (d: Self) {
        *other - *self
    }
}

impl Linear for u64 {
    open spec fn distance_requires(self, other: Self) -> bool {
        self <= other
    }

    open spec fn distance_spec(self, other: Self, d: Self) -> bool {
        d as int == other as int - self as int
    }

    fn distance_to(&self, other: &Self) -> (d: Self) {
        *other - *self
    }
}

impl Linear for u128 {
    open spec fn distance_requires(self, other: Self) -> bool {
        self <= other
    }

    open spec fn distance_spec(self, other: Self, d: Self) -> bool {
        d as int == other as int - self as int
    }

    fn distance_to(&self, other: &Self) -> (d: Self) {
        *other - *self
    }
}

impl Linear for usize {
    open spec fn distance_requires(self, other: Self) -> bool {
        self <= other
    }

    open spec fn distance_spec(self, other: Self, d: Self) -> bool {
        d as int == other as int - self as int
    }

    fn distance_to(&self, other: &Self) -> (d: Self) {
        *other - *self
    }
}

impl Linear<u8> for i8 {
    open spec fn distance_requires(self, other: Self) -> bool {
        true
    }

    open spec fn distance_spec(self, other: Self, d: u8) -> bool {
        d as int == spec_abs(other as int - self as int)
    }

    fn distance_to(&self, other: &Self) -> (d: u8) {
        let a: i128 = *self as i128;
        let b: i128 = *other as i128;
        let diff: i128 = if b >= a {
            b - a
        } else {
            a - b
        };
        diff as u8
    }
}

impl Linear<u16> for i16 {
    open spec fn distance_requires(self, other: Self) -> bool {
        true
    }

    open spec fn distance_spec(self, other: Self, d: u16) -> bool {
        d as int == spec_abs(other as int - self as int)
    }

    fn distance_to(&self, other: &Self) -> (d: u16) {
        let a: i128 = *self as i128;
        let b: i128 = *other as i128;
        let diff: i128 = if b >= a {
            b - a
        } else {
            a - b
        };
        diff as u16
    }
}

impl Linear<u32> for i32 {
    open spec fn distance_requires(self, other: Self) -> bool {
        true
    }

    open spec fn distance_spec(self, other: Self, d: u32) -> bool {
        d as int == spec_abs(other as int - self as int)
    }

    fn distance_to(&self, other: &Self) -> (d: u32) {
        let a: i128 = *self as i128;
        let b: i128 = *other as i128;
        let diff: i128 = if b >= a {
            b - a
        } else {
            a - b
        };
        diff as u32
    }
}

impl Linear<u64> for i64 {
    open spec fn distance_requires(self, other: Self) -> bool {
        true
    }

    open spec fn distance_spec(self, other: Self, d: u64) -> bool {
        d as int == spec_abs(other as int - self as int)
    }

    fn distance_to(&self, other: &Self) -> (d: u64) {
        let a: i128 = *self as i128;
        let b: i128 = *other as i128;
        let diff: i128 = if b >= a {
            b - a
        } else {
            a - b
        };
        diff as u64
    }
}

impl Linear<u128> for i128 {
    open spec fn distance_requires(self, other: Self) -> bool {
        true
    }

    open spec fn distance_spec(self, other: Self, d: u128) -> bool {
        d as int == spec_abs(other as int - self as int)
    }

    fn distance_to(&self, other: &Self) -> (d: u128) {
        abs_diff_i128(*self, *other)
    }
}

impl Linear<usize> for isize {
    open spec fn distance_requires(self, other: Self) -> bool {
        true
    }

    open spec fn distance_spec(self, other: Self, d: usize) -> bool {
        d as int == spec_abs(other as int - self as int)
    }

    fn distance_to(&self, other: &Self) -> (d: usize) {
        let a: i128 = *self as i128;
        let b: i128 = *other as i128;
        let diff: i128 = if b >= a {
            b - a
        } else {
            a - b
        };
        diff as usize
    }
}

/// The distance from character `a` forward to character `b`, in the low
/// sixteen bits of their code points: zero when `b` does not come after `a`,
/// or when the low bits alone order the two the other way around.
pub open spec fn spec_char_distance(a: char, b: char) -> int {
    if (b as u32) <= (a as u32) {
        0
    } else {
        let al = (a as u32) % 0x10000;
        let bl = (b as u32) % 0x10000;
        if bl > al {
            bl - al
        } else {
            0
        }
    }
}

impl Linear<u16> for char {
    open spec fn distance_requires(self, other: Self) -> bool {
        true
    }

    open spec fn distance_spec(self, other: Self, d: u16) -> bool {
        d as int == spec_char_distance(self, other)
    }

    fn distance_to(&self, other: &Self) -> (d: u16) {
        let s: u32 = *self as u32;
        let o: u32 = *other as u32;
        if o <= s {
            0
        } else {
            let sl: u32 = s % 0x10000;
            let ol: u32 = o % 0x10000;
            if ol > sl {
                (ol - sl) as u16
            } else {
                0
            }
        }
    }
}

impl Linear<Duration> for Timestamp {
    open spec fn distance_requires(self, other: Self) -> bool {
        other.is_canonical()
    }

    open spec fn distance_spec(self, other: Self, d: Duration) -> bool {
        &&& d.spec_total_nanos() == if self.spec_total_nanos() <= other.spec_total_nanos() {
            other.spec_total_nanos() - self.spec_total_nanos()
        } else {
            0
        }
        &&& d.is_canonical()
    }

    fn distance_to(&self, other: &Self) -> (d: Duration) {
        self.span_to(other)
    }
}

/// Caps a distance at the largest value a byte can hold.
pub open spec fn spec_cap_byte(d: int) -> u8 {
    if d > 255 {
        255u8
    } else {
        d as u8
    }
}

/// The per-character distances between two strings over their common length,
/// each capped at the largest byte value.
pub open spec fn spec_text_distance(a: Seq<char>, b: Seq<char>) -> Seq<u8> {
    let n = if a.len() <= b.len() {
        a.len()
    } else {
        b.len()
    };
    Seq::new(n, |i: int| spec_cap_byte(spec_char_distance(a[i], b[i])))
}

/// Computes the per-character distance vector of two strings.
pub fn text_distance(a: &str, b: &str) -> (d: Vec<u8>)
    ensures
        d@ == spec_text_distance(a@, b@),
{
    let alen: usize = a.unicode_len();
    let blen: usize = b.unicode_len();
    let n: usize = if alen <= blen {
        alen
    } else {
        blen
    };
    let mut out: Vec<u8> = Vec::new();
    let mut i: usize = 0;
    while i < n
        invariant
            0 <= i <= n,
            n <= alen && n <= blen,
            alen == a@.len(),
            blen == b@.len(),
            out@.len() == i,
            forall|j: int| 0 <= j < i ==> out@[j] == spec_cap_byte(
                spec_char_distance(a@[j], b@[j]),
            ),
        decreases n - i,
    {
        let ca = a.get_char(i);
        let cb = b.get_char(i);
        let dd: u16 = ca.distance_to(&cb);
        let capped: u8 = if dd > 255 {
            255
        } else {
            dd as u8
        };
        out.push(capped);
        i = i + 1;
    }
    proof {
        assert(out@ =~= spec_text_distance(a@, b@));
    }
    out
}

impl<'a> Linear<Vec<u8>> for &'a str {
    open spec fn distance_requires(self, other: Self) -> bool {
        true
    }

    open spec fn distance_spec(self, other: Self, d: Vec<u8>) -> bool {
        d@ == spec_text_distance(self@, other@)
    }

    fn distance_to(&self, other: &Self) -> (d: Vec<u8>) {
        text_distance(self, other)
    }
}

impl Linear<Vec<u8>> for String {
    open spec fn distance_requires(self, other: Self) -> bool {
        true
    }

    open spec fn distance_spec(self, other: Self, d: Vec<u8>) -> bool {
        d@ == spec_text_distance(self@, other@)
    }

    fn distance_to(&self, other: &Self) -> (d: Vec<u8>) {
        text_distance(self.as_str(), other.as_str())
    }
}

} // verus!
