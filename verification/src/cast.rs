//! Lossless passage between each integer representation and the 128-bit
//! integers in which a mapping is computed exactly.

use crate::arith::CheckedNumberArithmetics;
use crate::model::fits;
use vstd::prelude::*;

verus! {

/// Casts from a representation up to `i128`, and back down with a bounds
/// check.
pub trait CheckedNumberCasts: CheckedNumberArithmetics {
    /// The representation is at most 64 bits wide: it lies inside
    /// `[i64::MIN, u64::MAX]` and spans at most `u64::MAX`.
    proof fn lemma_window()
        ensures
            i64::MIN <= Self::min_value(),
            Self::max_value() <= u64::MAX,
            Self::max_value() - Self::min_value() <= u64::MAX,
    ;

    /// The same integer as an `i128`. Widening never fails.
    fn checked_wide_cast(&self) -> (r: Option<i128>)
        ensures
            r matches Some(w) && w as int == self.value(),
    ;

    /// The same integer in this representation, unless it lies outside
    /// `[min_value(), max_value()]`.
    fn checked_cast_back(other: i128) -> (r: Option<Self>)
        ensures
            match r {
                Some(x) => x.value() == other as int,
                None => !fits(Self::min_value(), Self::max_value(), other as int),
            },
    ;
}

impl CheckedNumberCasts for u8 {
    proof fn lemma_window() {
    }

    fn checked_wide_cast(&self) -> (r: Option<i128>) {
        Some(*self as i128)
    }

    fn checked_cast_back(other: i128) -> (r: Option<Self>) {
        if other > u8::MAX as i128 || other < u8::MIN as i128 {
            return None;
        }
        Some(other as u8)
    }
}

impl CheckedNumberCasts for u16 {
    proof fn lemma_window() {
    }

    fn checked_wide_cast(&self) -> (r: Option<i128>) {
        Some(*self as i128)
    }

    fn checked_cast_back(other: i128) -> (r: Option<Self>) {
        if other > u16::MAX as i128 || other < u16::MIN as i128 {
            return None;
        }
        Some(other as u16)
    }
}

impl CheckedNumberCasts for u32 {
    proof fn lemma_window() {
    }

    fn checked_wide_cast(&self) -> (r: Option<i128>) {
        Some(*self as i128)
    }

    fn checked_cast_back(other: i128) -> (r: Option<Self>) {
        if other > u32::MAX as i128 || other < u32::MIN as i128 {
            return None;
        }
        Some(other as u32)
    }
}

impl CheckedNumberCasts for u64 {
    proof fn lemma_window() {
    }

    fn checked_wide_cast(&self) -> (r: Option<i128>) {
        Some(*self as i128)
    }

    fn checked_cast_back(other: i128) -> (r: Option<Self>) {
        if other > u64::MAX as i128 || other < u64::MIN as i128 {
            return None;
        }
        Some(other as u64)
    }
}

impl CheckedNumberCasts for usize {
    proof fn lemma_window() {
    }

    fn checked_wide_cast(&self) -> (r: Option<i128>) {
        Some(*self as i128)
    }

    fn checked_cast_back(other: i128) -> (r: Option<Self>) {
        if other > usize::MAX as i128 || other < usize::MIN as i128 {
            return None;
        }
        Some(other as usize)
    }
}

impl CheckedNumberCasts for i8 {
    proof fn lemma_window() {
    }

    fn checked_wide_cast(&self) -> (r: Option<i128>) {
        Some(*self as i128)
    }

    fn checked_cast_back(other: i128) -> (r: Option<Self>) {
        if other > i8::MAX as i128 || other < i8::MIN as i128 {
            return None;
        }
        Some(other as i8)
    }
}

impl CheckedNumberCasts for i16 {
    proof fn lemma_window() {
    }

    fn checked_wide_cast(&self) -> (r: Option<i128>) {
        Some(*self as i128)
    }

    fn checked_cast_back(other: i128) -> (r: Option<Self>) {
        if other > i16::MAX as i128 || other < i16::MIN as i128 {
            return None;
        }
        Some(other as i16)
    }
}

impl CheckedNumberCasts for i32 {
    proof fn lemma_window() {
    }

    fn checked_wide_cast(&self) -> (r: Option<i128>) {
        Some(*self as i128)
    }

    fn checked_cast_back(other: i128) -> (r: Option<Self>) {
        if other > i32::MAX as i128 || other < i32::MIN as i128 {
            return None;
        }
        Some(other as i32)
    }
}

impl CheckedNumberCasts for i64 {
    proof fn lemma_window() {
    }

    fn checked_wide_cast(&self) -> (r: Option<i128>) {
        Some(*self as i128)
    }

    fn checked_cast_back(other: i128) -> (r: Option<Self>) {
        if other > i64::MAX as i128 || other < i64::MIN as i128 {
            return None;
        }
        Some(other as i64)
    }
}

impl CheckedNumberCasts for isize {
    proof fn lemma_window() {
    }

    fn checked_wide_cast(&self) -> (r: Option<i128>) {
        Some(*self as i128)
    }

    fn checked_cast_back(other: i128) -> (r: Option<Self>) {
        if other > isize::MAX as i128 || other < isize::MIN as i128 {
            return None;
        }
        Some(other as isize)
    }
}

} // verus!
