//! Text as a searchable element type: lexicographic order by code point, and
//! a character-wise position estimate.
//!
//! The estimate for a target string between two boundary strings looks at the
//! first character position where the two boundaries disagree and delegates
//! the integer estimator to that single character triple; if the boundaries
//! agree up to the shortest of the three strings, the estimate is the neutral
//! one half. This gives an interpolation consistent with lexicographic order
//! without encoding whole strings as numbers.

use core::cmp::Ordering;
use crate::fraction::Fraction;
use crate::fraction::spec_half;
use crate::interpolation_factor::InterpolationFactor;
use crate::interpolation_factor::int_factor;
use crate::interpolation_factor::lemma_factor_normalized;
use crate::interpolation_factor::spec_factor;
use crate::order::TotalOrder;
use vstd::prelude::*;

verus! {

/// Lexicographic `<=` on character sequences, by code point: the empty
/// sequence comes first, and otherwise the first characters decide, with ties
/// passed to the rest.
pub open spec fn lex_le(a: Seq<char>, b: Seq<char>) -> bool
    decreases a.len(),
{
    if a.len() == 0 {
        true
    } else if b.len() == 0 {
        false
    } else if (a[0] as u32) < (b[0] as u32) {
        true
    } else if (b[0] as u32) < (a[0] as u32) {
        false
    } else {
        lex_le(a.skip(1), b.skip(1))
    }
}

/// Lexicographic order is total.
pub proof fn lemma_lex_total(a: Seq<char>, b: Seq<char>)
    ensures
        lex_le(a, b) || lex_le(b, a),
    decreases a.len(),
{
    if a.len() > 0 && b.len() > 0 && (a[0] as u32) == (b[0] as u32) {
        lemma_lex_total(a.skip(1), b.skip(1));
    }
}

/// Lexicographic order is transitive.
pub proof fn lemma_lex_transitive(a: Seq<char>, b: Seq<char>, c: Seq<char>)
    requires
        lex_le(a, b),
        lex_le(b, c),
    ensures
        lex_le(a, c),
    decreases a.len(),
{
    if a.len() > 0 && b.len() > 0 && c.len() > 0 && (a[0] as u32) == (b[0] as u32) && (b[0] as u32)
        == (c[0] as u32) {
        lemma_lex_transitive(a.skip(1), b.skip(1), c.skip(1));
    }
}

/// Sequences that come no later than each other are equal.
pub proof fn lemma_lex_antisymmetric(a: Seq<char>, b: Seq<char>)
    requires
        lex_le(a, b),
        lex_le(b, a),
    ensures
        a == b,
    decreases a.len(),
{
    if a.len() == 0 {
        assert(b.len() == 0);
        assert(a =~= b);
    } else {
        assert(b.len() > 0);
        vstd::utf8::char_u32_cast(a[0], a[0] as u32);
        vstd::utf8::char_u32_cast(b[0], b[0] as u32);
        assert(a[0] == b[0]);
        lemma_lex_antisymmetric(a.skip(1), b.skip(1));
        assert forall|j: int| 0 <= j < a.len() implies a[j] == b[j] by {
            if j > 0 {
                assert(a[j] == a.skip(1)[j - 1]);
                assert(b[j] == b.skip(1)[j - 1]);
            }
        }
        assert(a =~= b);
    }
}

/// Dropping a common prefix changes neither direction of the order.
pub proof fn lemma_lex_skip_common(a: Seq<char>, b: Seq<char>, i: int)
    requires
        0 <= i <= a.len(),
        i <= b.len(),
        forall|j: int| 0 <= j < i ==> a[j] == b[j],
    ensures
        lex_le(a, b) == lex_le(a.skip(i), b.skip(i)),
    decreases i,
{
    if i > 0 {
        lemma_lex_skip_common(a.skip(1), b.skip(1), i - 1);
        assert(a.skip(1).skip(i - 1) =~= a.skip(i));
        assert(b.skip(1).skip(i - 1) =~= b.skip(i));
    } else {
        assert(a.skip(0) =~= a);
        assert(b.skip(0) =~= b);
    }
}

/// Three-way lexicographic comparison of two strings, by code point.
pub fn compare_text(a: &str, b: &str) -> (c: Ordering)
    ensures
        c == Ordering::Less ==> lex_le(a@, b@) && !lex_le(b@, a@),
        c == Ordering::Equal ==> lex_le(a@, b@) && lex_le(b@, a@),
        c == Ordering::Greater ==> lex_le(b@, a@) && !lex_le(a@, b@),
{
    let alen: usize = a.unicode_len();
    let blen: usize = b.unicode_len();
    let min_len: usize = if alen < blen {
        alen
    } else {
        blen
    };
    let mut i: usize = 0;
    while i < min_len
        invariant
            0 <= i <= min_len,
            min_len == if alen < blen {
                alen
            } else {
                blen
            },
            alen == a@.len(),
            blen == b@.len(),
            forall|j: int| 0 <= j < i ==> a@[j] == b@[j],
        decreases min_len - i,
    {
        let ca = a.get_char(i);
        let cb = b.get_char(i);
        if (ca as u32) < (cb as u32) {
            proof {
                lemma_lex_skip_common(a@, b@, i as int);
                lemma_lex_skip_common(b@, a@, i as int);
            }
            return Ordering::Less;
        }
        if (cb as u32) < (ca as u32) {
            proof {
                lemma_lex_skip_common(a@, b@, i as int);
                lemma_lex_skip_common(b@, a@, i as int);
            }
            return Ordering::Greater;
        }
        proof {
            assert(a@[i as int] == b@[i as int]);
        }
        i = i + 1;
    }
    proof {
        lemma_lex_skip_common(a@, b@, i as int);
        lemma_lex_skip_common(b@, a@, i as int);
    }
    if alen < blen {
        Ordering::Less
    } else if blen < alen {
        Ordering::Greater
    } else {
        Ordering::Equal
    }
}

/// The estimate for a target string between two boundary strings: the first
/// character position where the boundaries disagree decides, through the
/// integer estimator on that character triple; boundaries that agree up to
/// the shortest of the three strings give one half.
pub open spec fn spec_text_factor(t: Seq<char>, a: Seq<char>, b: Seq<char>) -> Fraction
    decreases t.len(),
{
    if t.len() == 0 || a.len() == 0 || b.len() == 0 {
        spec_half()
    } else if a[0] != b[0] {
        spec_factor((t[0] as u32) as int, (a[0] as u32) as int, (b[0] as u32) as int)
    } else {
        spec_text_factor(t.skip(1), a.skip(1), b.skip(1))
    }
}

/// The text estimate is a normalized fraction for every input.
pub proof fn lemma_text_factor_normalized(t: Seq<char>, a: Seq<char>, b: Seq<char>)
    ensures
        spec_text_factor(t, a, b).is_normalized(),
    decreases t.len(),
{
    if t.len() == 0 || a.len() == 0 || b.len() == 0 {
    } else if a[0] != b[0] {
        lemma_factor_normalized((t[0] as u32) as int, (a[0] as u32) as int, (b[0] as u32) as int);
    } else {
        lemma_text_factor_normalized(t.skip(1), a.skip(1), b.skip(1));
    }
}

/// Equal boundary strings give the neutral estimate.
pub proof fn lemma_text_factor_same(t: Seq<char>, a: Seq<char>)
    ensures
        spec_text_factor(t, a, a) == spec_half(),
    decreases t.len(),
{
    if t.len() > 0 && a.len() > 0 {
        lemma_text_factor_same(t.skip(1), a.skip(1));
    }
}

/// Dropping a prefix on which the boundaries agree leaves the estimate alone.
pub proof fn lemma_text_factor_skip_common(t: Seq<char>, a: Seq<char>, b: Seq<char>, i: int)
    requires
        0 <= i <= t.len(),
        i <= a.len(),
        i <= b.len(),
        forall|j: int| 0 <= j < i ==> a[j] == b[j],
    ensures
        spec_text_factor(t, a, b) == spec_text_factor(t.skip(i), a.skip(i), b.skip(i)),
    decreases i,
{
    if i > 0 {
        lemma_text_factor_skip_common(t.skip(1), a.skip(1), b.skip(1), i - 1);
        assert(t.skip(1).skip(i - 1) =~= t.skip(i));
        assert(a.skip(1).skip(i - 1) =~= a.skip(i));
        assert(b.skip(1).skip(i - 1) =~= b.skip(i));
    } else {
        assert(t.skip(0) =~= t);
        assert(a.skip(0) =~= a);
        assert(b.skip(0) =~= b);
    }
}

/// Computes the text estimate: scans for the first character position where
/// the boundary strings disagree and interpolates on that character triple.
pub fn text_factor(t: &str, a: &str, b: &str) -> (r: Fraction)
    ensures
        r == spec_text_factor(t@, a@, b@),
        r.is_normalized(),
{
    proof {
        lemma_text_factor_normalized(t@, a@, b@);
    }
    let tlen: usize = t.unicode_len();
    let alen: usize = a.unicode_len();
    let blen: usize = b.unicode_len();
    let ab_min: usize = if alen < blen {
        alen
    } else {
        blen
    };
    let min_len: usize = if tlen < ab_min {
        tlen
    } else {
        ab_min
    };
    let mut i: usize = 0;
    while i < min_len
        invariant
            0 <= i <= min_len,
            min_len <= tlen && min_len <= alen && min_len <= blen,
            min_len == tlen || min_len == alen || min_len == blen,
            tlen == t@.len(),
            alen == a@.len(),
            blen == b@.len(),
            forall|j: int| 0 <= j < i ==> a@[j] == b@[j],
        decreases min_len - i,
    {
        let ca = a.get_char(i);
        let cb = b.get_char(i);
        if ca as u32 != cb as u32 {
            let ct = t.get_char(i);
            proof {
                lemma_text_factor_skip_common(t@, a@, b@, i as int);
            }
            return int_factor((ct as u32) as i128, (ca as u32) as i128, (cb as u32) as i128);
        }
        proof {
            assert(a@[i as int] == b@[i as int]);
        }
        i = i + 1;
    }
    proof {
        lemma_text_factor_skip_common(t@, a@, b@, i as int);
    }
    Fraction::half()
}

impl<'a> TotalOrder for &'a str {
    open spec fn le_spec(self, other: Self) -> bool {
        lex_le(self@, other@)
    }

    proof fn lemma_total(a: Self, b: Self) {
        lemma_lex_total(a@, b@);
    }

    proof fn lemma_transitive(a: Self, b: Self, c: Self) {
        lemma_lex_transitive(a@, b@, c@);
    }

    fn compare(&self, other: &Self) -> (c: Ordering) {
        compare_text(self, other)
    }
}

impl<'a> InterpolationFactor for &'a str {
    open spec fn factor_spec(self, a: Self, b: Self, r: Fraction) -> bool {
        r == spec_text_factor(self@, a@, b@)
    }

    fn interpolation_factor(&self, a: &Self, b: &Self) -> (r: Fraction) {
        proof {
            if lex_le(a@, b@) && lex_le(b@, a@) {
                lemma_lex_antisymmetric(a@, b@);
                lemma_text_factor_same(self@, a@);
            }
        }
        text_factor(self, a, b)
    }
}

impl TotalOrder for String {
    open spec fn le_spec(self, other: Self) -> bool {
        lex_le(self@, other@)
    }

    proof fn lemma_total(a: Self, b: Self) {
        lemma_lex_total(a@, b@);
    }

    proof fn lemma_transitive(a: Self, b: Self, c: Self) {
        lemma_lex_transitive(a@, b@, c@);
    }

    fn compare(&self, other: &Self) -> (c: Ordering) {
        compare_text(self.as_str(), other.as_str())
    }
}

impl InterpolationFactor for String {
    open spec fn factor_spec(self, a: Self, b: Self, r: Fraction) -> bool {
        r == spec_text_factor(self@, a@, b@)
    }

    fn interpolation_factor(&self, a: &Self, b: &Self) -> (r: Fraction) {
        proof {
            if lex_le(a@, b@) && lex_le(b@, a@) {
                lemma_lex_antisymmetric(a@, b@);
                lemma_text_factor_same(self@, a@);
            }
        }
        text_factor(self.as_str(), a.as_str(), b.as_str())
    }
}

} // verus!
