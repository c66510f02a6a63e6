//! The search loop: narrowing a half-open index window over a sorted slice
//! with interpolated candidate indices.
//!
//! Degenerate estimates cannot derail the loop: [`normalize`] maps a fraction
//! with a zero denominator to one half and clamps an over-unit fraction to
//! one, and [`lerp_idx`] keeps the candidate strictly inside the window, so
//! every iteration strictly narrows the window and the search terminates on
//! every input, whether or not the slice is sorted.

use core::cmp::Ordering;
use crate::fraction::Fraction;
use crate::fraction::spec_half;
use crate::interpolation_factor::InterpolationFactor;
use crate::order::TotalOrder;
use crate::order::eqv;
use crate::order::lt;
use crate::order::lemma_eqv_trans;
use crate::order::lemma_le_lt_trans;
use crate::order::lemma_lt_le_trans;
use vstd::prelude::*;
use vstd::slice::slice_index_get;

verus! {

/// The sequence is sorted under the element type's total order.
pub open spec fn sorted<T: TotalOrder>(s: Seq<T>) -> bool {
    forall|i: int, j: int| 0 <= i <= j < s.len() ==> s[i].le_spec(s[j])
}

/// What a search outcome promises about contents `s` and target `t`:
/// `Ok(i)` points at an element equivalent to the target, and `Err(i)` is the
/// insertion point, with everything before it strictly below the target and
/// everything from it on strictly above.
pub open spec fn search_result_spec<T: TotalOrder>(
    s: Seq<T>,
    t: T,
    r: Result<usize, usize>,
) -> bool {
    match r {
        Ok(i) => i < s.len() && eqv(s[i as int], t),
        Err(i) => {
            &&& i <= s.len()
            &&& forall|j: int| 0 <= j < i ==> lt(#[trigger] s[j], t)
            &&& forall|j: int| i <= j < s.len() ==> lt(t, #[trigger] s[j])
        },
    }
}

/// The sequence is sorted by the keys a key extractor can hand back for its
/// elements: whenever the extractor can return `ki` for an earlier element
/// and `kj` for a later one, `ki` comes no later than `kj` in the key order.
pub open spec fn sorted_by_key<T, K: TotalOrder, F: Fn(&T) -> &K>(s: Seq<T>, key: F) -> bool {
    forall|i: int, j: int, ki: &K, kj: &K|
        0 <= i <= j < s.len() && #[trigger] call_ensures(key, (&s[i],), ki) && #[trigger] call_ensures(
            key,
            (&s[j],),
            kj,
        ) ==> ki.le_spec(*kj)
}

/// What a keyed search outcome promises: `Ok(i)` points at an element every
/// possible key of which is equivalent to the target key, and `Err(i)` is the
/// insertion point, with every possible key before it strictly below the
/// target key and every possible key from it on strictly above.
pub open spec fn search_by_key_result_spec<T, K: TotalOrder, F: Fn(&T) -> &K>(
    s: Seq<T>,
    t: K,
    key: F,
    r: Result<usize, usize>,
) -> bool {
    match r {
        Ok(i) => {
            &&& i < s.len()
            &&& exists|k: &K| #[trigger] call_ensures(key, (&s[i as int],), k) && eqv(*k, t)
            &&& forall|k: &K| #[trigger] call_ensures(key, (&s[i as int],), k) ==> eqv(*k, t)
        },
        Err(i) => {
            &&& i <= s.len()
            &&& forall|j: int, k: &K|
                0 <= j < i && #[trigger] call_ensures(key, (&s[j],), k) ==> lt(*k, t)
            &&& forall|j: int, k: &K|
                i <= j < s.len() && #[trigger] call_ensures(key, (&s[j],), k) ==> lt(t, *k)
        },
    }
}

/// The normalized form of an estimate: a degenerate fraction with a zero
/// denominator becomes one half, an over-unit fraction is clamped to one, and
/// anything already in the unit range is kept as it is.
pub open spec fn spec_normalize(f: Fraction) -> Fraction {
    if f.den == 0 {
        spec_half()
    } else if f.num > f.den {
        Fraction { num: f.den, den: f.den }
    } else {
        f
    }
}

/// Maps an arbitrary estimate into the unit range, so that a degenerate
/// estimator degrades the search to a safe step instead of breaking it.
pub fn normalize(f: Fraction) -> (r: Fraction)
    ensures
        r == spec_normalize(f),
        r.is_normalized(),
{
    if f.den == 0 {
        Fraction::half()
    } else if f.num > f.den {
        Fraction { num: f.den, den: f.den }
    } else {
        f
    }
}

/// The candidate index for a window `[first, last)` and an estimate `f`:
/// the estimate, once normalized, is mapped linearly onto the window and
/// clamped to stay strictly below `last`.
pub open spec fn spec_lerp_idx(first: int, last: int, f: Fraction) -> int {
    if first >= last {
        first
    } else {
        let g = spec_normalize(f);
        let c = first + ((last - first) * g.num) / (g.den as int);
        if c > last - 1 {
            last - 1
        } else {
            c
        }
    }
}

/// Picks the candidate index inside the half-open window `[first, last)` by
/// linear interpolation with the (normalized) estimate `f`.
///
/// For a nonempty window the candidate always lies strictly inside it,
/// whatever the estimate was, which is what makes every search iteration
/// strictly narrow the window.
pub fn lerp_idx(first: usize, last: usize, f: Fraction) -> (r: usize)
    ensures
        r == spec_lerp_idx(first as int, last as int, f),
        first < last ==> first <= r < last,
        first >= last ==> r == first,
{
    if first >= last {
        return first;
    }
    let g = normalize(f);
    let span: usize = last - first;
    proof {
        vstd::arithmetic::mul::lemma_mul_upper_bound(
            span as int,
            u64::MAX as int,
            g.num as int,
            u64::MAX as int,
        );
    }
    let scaled: u128 = (span as u128) * (g.num as u128);
    let offset: u128 = scaled / (g.den as u128);
    proof {
        vstd::arithmetic::mul::lemma_mul_inequality(g.num as int, g.den as int, span as int);
        vstd::arithmetic::div_mod::lemma_div_is_ordered(
            span as int * g.num as int,
            span as int * g.den as int,
            g.den as int,
        );
        vstd::arithmetic::div_mod::lemma_div_by_multiple(span as int, g.den as int);
    }
    let c: usize = first + (offset as usize);
    if c > last - 1 {
        last - 1
    } else {
        c
    }
}

/// A search that meets the contract finds a match exactly when the sorted
/// sequence holds an element equivalent to the target; otherwise it reports
/// an insertion point.
pub proof fn lemma_found_iff_present<T: TotalOrder>(s: Seq<T>, t: T, r: Result<usize, usize>)
    requires
        sorted(s),
        search_result_spec(s, t, r),
    ensures
        (r is Ok) <==> exists|j: int| 0 <= j < s.len() && eqv(#[trigger] s[j], t),
{
}

/// Any two outcomes that both meet the search contract for the same sorted
/// sequence and target agree: both are matches, at indices holding equivalent
/// elements, or both are the same insertion point. A reference search with
/// the same contract — a standard binary search — therefore agrees with the
/// interpolated one.
pub proof fn lemma_search_agrees_with_reference<T: TotalOrder>(
    s: Seq<T>,
    t: T,
    r1: Result<usize, usize>,
    r2: Result<usize, usize>,
)
    requires
        sorted(s),
        search_result_spec(s, t, r1),
        search_result_spec(s, t, r2),
    ensures
        (r1 is Ok) <==> (r2 is Ok),
        r1 matches Err(i1) ==> r2 == Err::<usize, usize>(i1),
{
    lemma_found_iff_present(s, t, r1);
    lemma_found_iff_present(s, t, r2);
    match (r1, r2) {
        (Err(i1), Err(i2)) => {
            if i1 < i2 {
                assert(lt(s[i1 as int], t));
                assert(lt(t, s[i1 as int]));
            }
            if i2 < i1 {
                assert(lt(s[i2 as int], t));
                assert(lt(t, s[i2 as int]));
            }
        },
        _ => {},
    }
}

/// Searching an empty sequence gives the insertion point zero; searching a
/// single-element sequence gives the match at zero when the element is
/// equivalent to the target, and otherwise the insertion point zero or one,
/// by order.
pub proof fn lemma_search_boundaries<T: TotalOrder>(s: Seq<T>, t: T, r: Result<usize, usize>)
    requires
        search_result_spec(s, t, r),
    ensures
        s.len() == 0 ==> r == Err::<usize, usize>(0),
        s.len() == 1 && eqv(s[0], t) ==> r == Ok::<usize, usize>(0),
        s.len() == 1 && lt(t, s[0]) ==> r == Err::<usize, usize>(0),
        s.len() == 1 && lt(s[0], t) ==> r == Err::<usize, usize>(1),
{
}

/// Searching a nonempty sequence of elements all equivalent to the target
/// finds one of them.
pub proof fn lemma_search_duplicates<T: TotalOrder>(s: Seq<T>, t: T, r: Result<usize, usize>)
    requires
        s.len() > 0,
        forall|j: int| 0 <= j < s.len() ==> eqv(#[trigger] s[j], t),
        search_result_spec(s, t, r),
    ensures
        r matches Ok(i) && i < s.len(),
{
    match r {
        Err(i) => {
            if i > 0 {
                assert(eqv(s[0], t));
                assert(lt(s[0], t));
            } else {
                assert(eqv(s[0], t));
                assert(lt(t, s[0]));
            }
        },
        _ => {},
    }
}

/// Every iteration strictly narrows the window: in a nonempty window the
/// candidate index lies strictly inside, whatever the estimate was, so both
/// windows an iteration can continue with are strictly smaller than the one
/// it started from. The search is therefore bounded by the window's size on
/// every input.
pub proof fn lemma_window_strictly_shrinks(first: int, last: int, f: Fraction)
    requires
        0 <= first < last,
    ensures
        first <= spec_lerp_idx(first, last, f) < last,
        spec_lerp_idx(first, last, f) - first < last - first,
        last - (spec_lerp_idx(first, last, f) + 1) < last - first,
{
    let g = spec_normalize(f);
    vstd::arithmetic::mul::lemma_mul_nonnegative(last - first, g.num as int);
    vstd::arithmetic::div_mod::lemma_div_pos_is_pos((last - first) * g.num, g.den as int);
}

/// Interpolation search over the elements of a collection, under the element
/// type's [`TotalOrder`].
///
/// `Ok(i)` means the element at `i` compares equal to the target; `Err(i)`
/// means the target is absent and `i` is the unique index where it could be
/// inserted keeping the contents sorted. When the contents are not sorted the
/// outcome is meaningless, but the search still terminates and still returns
/// an index within bounds.
pub trait InterpolationSearch<T> {
    /// The elements, viewed as a sequence.
    spec fn contents(&self) -> Seq<T>;

    /// Searches for `target`, estimating candidate positions by linear
    /// interpolation between the window's boundary elements.
    fn interpolation_search(&self, target: &T) -> (r: Result<usize, usize>) where
        T: InterpolationFactor,

        ensures
            r matches Ok(i) ==> i < self.contents().len(),
            r matches Err(i) ==> i <= self.contents().len(),
            sorted(self.contents()) ==> search_result_spec(self.contents(), *target, r),
    ;

    /// Searches for a target key, extracting each element's comparison key
    /// with `key` before every comparison and estimate.
    fn interpolation_search_by_key<K: InterpolationFactor, F: Fn(&T) -> &K>(
        &self,
        target: &K,
        key: F,
    ) -> (r: Result<usize, usize>)
        requires
            forall|j: int|
                0 <= j < self.contents().len() ==> call_requires(key, (&self.contents()[j],)),
        ensures
            r matches Ok(i) ==> i < self.contents().len(),
            r matches Err(i) ==> i <= self.contents().len(),
            sorted_by_key(self.contents(), key) ==> search_by_key_result_spec(
                self.contents(),
                *target,
                key,
                r,
            ),
    ;
}

impl<T> InterpolationSearch<T> for [T] {
    open spec fn contents(&self) -> Seq<T> {
        self@
    }

    fn interpolation_search(&self, target: &T) -> (r: Result<usize, usize>) where
        T: InterpolationFactor,
    {
        let mut first_idx: usize = 0;
        let mut last_idx: usize = self.len();
        loop
            invariant
                first_idx <= last_idx <= self@.len(),
                sorted(self@) ==> forall|j: int|
                    0 <= j < first_idx ==> lt(#[trigger] self@[j], *target),
                sorted(self@) ==> forall|j: int|
                    last_idx <= j < self@.len() ==> lt(*target, #[trigger] self@[j]),
            decreases last_idx - first_idx,
        {
            if first_idx == last_idx {
                return Err(first_idx);
            }
            let first = slice_index_get(self, first_idx);
            match target.compare(first) {
                Ordering::Less => {
                    proof {
                        if sorted(self@) {
                            assert forall|j: int|
                                first_idx <= j < self@.len() implies lt(*target, self@[j]) by {
                                lemma_lt_le_trans(*target, self@[first_idx as int], self@[j]);
                            }
                        }
                    }
                    return Err(first_idx);
                },
                _ => {},
            }
            if last_idx - first_idx == 1 {
                return match first.compare(target) {
                    Ordering::Equal => Ok(first_idx),
                    Ordering::Less => Err(last_idx),
                    Ordering::Greater => Err(first_idx),
                };
            }
            let last = slice_index_get(self, last_idx - 1);
            match last.compare(target) {
                Ordering::Less => {
                    proof {
                        if sorted(self@) {
                            assert forall|j: int| 0 <= j < last_idx implies lt(self@[j], *target) by {
                                lemma_le_lt_trans(self@[j], self@[last_idx - 1], *target);
                            }
                        }
                    }
                    return Err(last_idx);
                },
                _ => {},
            }
            let f = target.interpolation_factor(first, last);
            let mid_idx = lerp_idx(first_idx, last_idx, f);
            let mid = slice_index_get(self, mid_idx);
            match mid.compare(target) {
                Ordering::Equal => {
                    return Ok(mid_idx);
                },
                Ordering::Greater => {
                    proof {
                        if sorted(self@) {
                            assert forall|j: int|
                                mid_idx <= j < self@.len() implies lt(*target, self@[j]) by {
                                lemma_lt_le_trans(*target, self@[mid_idx as int], self@[j]);
                            }
                        }
                    }
                    last_idx = mid_idx;
                },
                Ordering::Less => {
                    proof {
                        if sorted(self@) {
                            assert forall|j: int| 0 <= j < mid_idx + 1 implies lt(self@[j], *target) by {
                                lemma_le_lt_trans(self@[j], self@[mid_idx as int], *target);
                            }
                        }
                    }
                    first_idx = mid_idx + 1;
                },
            }
        }
    }

    fn interpolation_search_by_key<K: InterpolationFactor, F: Fn(&T) -> &K>(
        &self,
        target: &K,
        key: F,
    ) -> (r: Result<usize, usize>) {
        proof {
            assert(self.contents() == self@);
        }
        let mut first_idx: usize = 0;
        let mut last_idx: usize = self.len();
        loop
            invariant
                first_idx <= last_idx <= self@.len(),
                forall|j: int| 0 <= j < self@.len() ==> call_requires(key, (&self@[j],)),
                sorted_by_key(self@, key) ==> forall|j: int, k: &K|
                    0 <= j < first_idx && #[trigger] call_ensures(key, (&self@[j],), k) ==> lt(
                        *k,
                        *target,
                    ),
                sorted_by_key(self@, key) ==> forall|j: int, k: &K|
                    last_idx <= j < self@.len() && #[trigger] call_ensures(key, (&self@[j],), k)
                        ==> lt(*target, *k),
            decreases last_idx - first_idx,
        {
            if first_idx == last_idx {
                return Err(first_idx);
            }
            let first = slice_index_get(self, first_idx);
            let kf = key(first);
            match target.compare(kf) {
                Ordering::Less => {
                    proof {
                        if sorted_by_key(self@, key) {
                            assert forall|j: int, k: &K|
                                first_idx <= j < self@.len() && #[trigger] call_ensures(
                                    key,
                                    (&self@[j],),
                                    k,
                                ) implies lt(*target, *k) by {
                                lemma_lt_le_trans(*target, *kf, *k);
                            }
                        }
                    }
                    return Err(first_idx);
                },
                _ => {},
            }
            if last_idx - first_idx == 1 {
                return match kf.compare(target) {
                    Ordering::Equal => {
                        proof {
                            if sorted_by_key(self@, key) {
                                assert forall|k: &K| #[trigger] call_ensures(
                                    key,
                                    (&self@[first_idx as int],),
                                    k,
                                ) implies eqv(*k, *target) by {
                                    lemma_eqv_trans(*k, *kf, *target);
                                }
                            }
                        }
                        Ok(first_idx)
                    },
                    Ordering::Less => {
                        proof {
                            if sorted_by_key(self@, key) {
                                assert forall|j: int, k: &K|
                                    0 <= j < last_idx && #[trigger] call_ensures(
                                        key,
                                        (&self@[j],),
                                        k,
                                    ) implies lt(*k, *target) by {
                                    if j == first_idx {
                                        lemma_le_lt_trans(*k, *kf, *target);
                                    }
                                }
                            }
                        }
                        Err(last_idx)
                    },
                    Ordering::Greater => {
                        proof {
                            if sorted_by_key(self@, key) {
                                assert forall|j: int, k: &K|
                                    first_idx <= j < self@.len() && #[trigger] call_ensures(
                                        key,
                                        (&self@[j],),
                                        k,
                                    ) implies lt(*target, *k) by {
                                    if j == first_idx {
                                        lemma_lt_le_trans(*target, *kf, *k);
                                    }
                                }
                            }
                        }
                        Err(first_idx)
                    },
                };
            }
            let last = slice_index_get(self, last_idx - 1);
            let kl = key(last);
            match kl.compare(target) {
                Ordering::Less => {
                    proof {
                        if sorted_by_key(self@, key) {
                            assert forall|j: int, k: &K|
                                0 <= j < last_idx && #[trigger] call_ensures(
                                    key,
                                    (&self@[j],),
                                    k,
                                ) implies lt(*k, *target) by {
                                lemma_le_lt_trans(*k, *kl, *target);
                            }
                        }
                    }
                    return Err(last_idx);
                },
                _ => {},
            }
            let f = target.interpolation_factor(kf, kl);
            let mid_idx = lerp_idx(first_idx, last_idx, f);
            let mid = slice_index_get(self, mid_idx);
            let km = key(mid);
            match km.compare(target) {
                Ordering::Equal => {
                    proof {
                        if sorted_by_key(self@, key) {
                            assert forall|k: &K| #[trigger] call_ensures(
                                key,
                                (&self@[mid_idx as int],),
                                k,
                            ) implies eqv(*k, *target) by {
                                lemma_eqv_trans(*k, *km, *target);
                            }
                        }
                    }
                    return Ok(mid_idx);
                },
                Ordering::Greater => {
                    proof {
                        if sorted_by_key(self@, key) {
                            assert forall|j: int, k: &K|
                                mid_idx <= j < self@.len() && #[trigger] call_ensures(
                                    key,
                                    (&self@[j],),
                                    k,
                                ) implies lt(*target, *k) by {
                                lemma_lt_le_trans(*target, *km, *k);
                            }
                        }
                    }
                    last_idx = mid_idx;
                },
                Ordering::Less => {
                    proof {
                        if sorted_by_key(self@, key) {
                            assert forall|j: int, k: &K|
                                0 <= j < mid_idx + 1 && #[trigger] call_ensures(
                                    key,
                                    (&self@[j],),
                                    k,
                                ) implies lt(*k, *target) by {
                                lemma_le_lt_trans(*k, *km, *target);
                            }
                        }
                    }
                    first_idx = mid_idx + 1;
                },
            }
        }
    }
}

} // verus!
