//! Linear interpolation of a number from one interval onto another, for every
//! primitive integer width, without overflow, wraparound or panics.
//!
//! [`MapRange::map_range`] computes the image exactly, in 128-bit arithmetic;
//! [`MapRange::map_range_uncasted`] stays inside the value's own type and
//! gives up as soon as an intermediate result no longer fits.

pub mod arith;
pub mod cast;
pub mod laws;
pub mod model;
pub mod wide;

use crate::arith::CheckedNumberArithmetics;
use crate::cast::CheckedNumberCasts;
use crate::laws::{lemma_checked_succeeds, lemma_result_in_target};
use crate::model::{between, fits, interpolate, interpolate_checked, lemma_trunc_div_shrinks};
use crate::wide::interpolate_wide;
use vstd::prelude::*;

verus! {

/// Maps a number from one range to another.
pub trait MapRange: Sized + Copy + PartialOrd + CheckedNumberArithmetics + CheckedNumberCasts {
    /// Maps the value over the given ranges.
    ///
    /// The value must lie inside `from_range`; the result then lies inside
    /// `to_range`. It is the rational image
    /// `to.0 + (value - from.0) * (to.1 - to.0) / (from.1 - from.0)`, rounded
    /// toward zero. No intermediate result can overflow, so the mapping
    /// succeeds for every value inside a source range that has some width.
    fn map_range(&self, from_range: (Self, Self), to_range: (Self, Self)) -> (r: Option<Self>)
        ensures
            match r {
                Some(x) => interpolate(
                    self.value(),
                    from_range.0.value(),
                    from_range.1.value(),
                    to_range.0.value(),
                    to_range.1.value(),
                ) == Some(x.value()),
                None => interpolate(
                    self.value(),
                    from_range.0.value(),
                    from_range.1.value(),
                    to_range.0.value(),
                    to_range.1.value(),
                ) is None,
            },
            self.value() < from_range.0.value() || self.value() > from_range.1.value() ==> r
                is None,
            from_range.0.value() == from_range.1.value() ==> r is None,
            from_range.0.value() <= self.value() <= from_range.1.value() && from_range.0.value()
                < from_range.1.value() ==> r is Some,
            r matches Some(x) ==> between(to_range.0.value(), to_range.1.value(), x.value()),
    {
        let value = self.checked_wide_cast()?;
        let from_wide = (from_range.0.checked_wide_cast()?, from_range.1.checked_wide_cast()?);
        let to_wide = (to_range.0.checked_wide_cast()?, to_range.1.checked_wide_cast()?);
        proof {
            Self::lemma_window();
            from_range.0.lemma_value_fits();
            from_range.1.lemma_value_fits();
            to_range.0.lemma_value_fits();
            to_range.1.lemma_value_fits();
        }
        let result = interpolate_wide(value, from_wide, to_wide)?;
        proof {
            lemma_result_in_target(
                value as int,
                from_wide.0 as int,
                from_wide.1 as int,
                to_wide.0 as int,
                to_wide.1 as int,
            );
        }
        Self::checked_cast_back(result)
    }

    /// Maps the value over the given ranges, using only the arithmetic of the
    /// value's own type.
    ///
    /// The value must lie inside `from_range`. The three differences, their
    /// product, the quotient (rounded toward zero) and the final sum are each
    /// formed with an overflow check, and the mapping fails as soon as one of
    /// them does not fit the type. Prefer [`MapRange::map_range`] unless the
    /// ranges are known to be small.
    fn map_range_uncasted(&self, from_range: (Self, Self), to_range: (Self, Self)) -> (r: Option<
        Self,
    >)
        ensures
            match r {
                Some(x) => interpolate_checked(
                    Self::min_value(),
                    Self::max_value(),
                    self.value(),
                    from_range.0.value(),
                    from_range.1.value(),
                    to_range.0.value(),
                    to_range.1.value(),
                ) == Some(x.value()),
                None => interpolate_checked(
                    Self::min_value(),
                    Self::max_value(),
                    self.value(),
                    from_range.0.value(),
                    from_range.1.value(),
                    to_range.0.value(),
                    to_range.1.value(),
                ) is None,
            },
            self.value() < from_range.0.value() || self.value() > from_range.1.value() ==> r
                is None,
            from_range.0.value() == from_range.1.value() ==> r is None,
            !fits(
                Self::min_value(),
                Self::max_value(),
                (self.value() - from_range.0.value()) * (to_range.1.value() - to_range.0.value()),
            ) ==> r is None,
            r matches Some(x) ==> between(to_range.0.value(), to_range.1.value(), x.value()),
    {
        if self.less_than(from_range.0) || from_range.1.less_than(*self) {
            return None;
        }
        let diff_self_from = self.checked_sub_mr(from_range.0)?;
        let diff_to = to_range.1.checked_sub_mr(to_range.0)?;
        let diff_from = from_range.1.checked_sub_mr(from_range.0)?;
        let product = diff_self_from.checked_mul_mr(diff_to)?;
        proof {
            Self::lemma_zero_fits();
            if diff_from.value() > 0 {
                lemma_trunc_div_shrinks(product.value(), diff_from.value());
                product.lemma_value_fits();
            }
        }
        let quotient = product.checked_div_mr(diff_from)?;
        let sum = to_range.0.checked_add_mr(quotient);
        proof {
            diff_self_from.lemma_value_fits();
            diff_to.lemma_value_fits();
            diff_from.lemma_value_fits();
            product.lemma_value_fits();
            if let Some(x) = sum {
                x.lemma_value_fits();
                to_range.0.lemma_value_fits();
                to_range.1.lemma_value_fits();
                lemma_checked_succeeds(
                    Self::min_value(),
                    Self::max_value(),
                    self.value(),
                    from_range.0.value(),
                    from_range.1.value(),
                    to_range.0.value(),
                    to_range.1.value(),
                );
            }
        }
        sum
    }
}

impl MapRange for u8 {}

impl MapRange for u16 {}

impl MapRange for u32 {}

impl MapRange for u64 {}

impl MapRange for usize {}

impl MapRange for i8 {}

impl MapRange for i16 {}

impl MapRange for i32 {}

impl MapRange for i64 {}

impl MapRange for isize {}

} // verus!
