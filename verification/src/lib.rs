//! Interpolation search: lookup in a sorted slice that estimates the target's
//! position by linear interpolation between the window's boundary values,
//! instead of always bisecting as binary search does.
//!
//! The estimate of where a target lies between two boundary values is an exact
//! rational [`Fraction`], produced per element type through the
//! [`InterpolationFactor`] trait. The search itself is exposed on slices by the
//! [`InterpolationSearch`] trait and returns `Ok(index)` when an element
//! compares equal to the target, or `Err(index)` with the insertion point that
//! keeps the slice sorted.
//!
//! Elements are compared through the [`TotalOrder`] trait, a total order with
//! a specification-level relation, so that the search's contract can speak of
//! sortedness and of insertion points for any element type. Integers,
//! characters, strings, timestamps and pairs of such types come ready-made;
//! pairs order lexicographically and estimate on the first field that
//! distinguishes the boundaries, so estimators compose by field.
//!
//! A degenerate estimate (a fraction with a zero denominator, or one that lies
//! above one) never derails the search: every estimate is first normalized to
//! the unit range, and the candidate index is clamped strictly inside the
//! current window, so each iteration strictly narrows the window and the loop
//! terminates on every input, sorted or not.

pub mod fraction;
pub mod interpolation_factor;
pub mod interpolation_search;
pub mod linear;
pub mod order;
pub mod pair;
pub mod scalable;
pub mod text;
pub mod time;

pub use fraction::Fraction;
pub use interpolation_factor::InterpolationFactor;
pub use interpolation_search::InterpolationSearch;
pub use interpolation_search::lerp_idx;
pub use interpolation_search::normalize;
pub use linear::Linear;
pub use order::TotalOrder;
pub use scalable::Scalable;
pub use time::Duration;
pub use time::Timestamp;
