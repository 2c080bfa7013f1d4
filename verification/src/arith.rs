//! Overflow-checked arithmetic as a capability of each integer representation.

use crate::model::{fits, trunc_div};
use vstd::prelude::*;

verus! {

/// The order and the four checked operations that range mapping needs from a
/// numeric representation.
///
/// A representation is a finite window `[min_value(), max_value()]` of the
/// mathematical integers, and `value` says which integer a machine value
/// stands for. Every operation yields the exact mathematical result, or `None`
/// when that result leaves the window; division also yields `None` for a zero
/// divisor and rounds toward zero otherwise.
pub trait CheckedNumberArithmetics: Sized {
    /// The integer this machine value stands for.
    spec fn value(&self) -> int;

    /// The least integer the representation holds.
    spec fn min_value() -> int;

    /// The greatest integer the representation holds.
    spec fn max_value() -> int;

    /// Every machine value stands for an integer of the window.
    proof fn lemma_value_fits(&self)
        ensures
            fits(Self::min_value(), Self::max_value(), self.value()),
    ;

    /// The window contains zero.
    proof fn lemma_zero_fits()
        ensures
            fits(Self::min_value(), Self::max_value(), 0),
    ;

    /// Two machine values that stand for the same integer are the same value.
    proof fn lemma_value_injective(&self, other: Self)
        requires
            self.value() == other.value(),
        ensures
            *self == other,
    ;

    /// Whether `self` is strictly below `other`.
    fn less_than(&self, other: Self) -> (r: bool)
        ensures
            r == (self.value() < other.value()),
    ;

    /// `self + other`, unless the sum leaves the representation.
    fn checked_add_mr(&self, other: Self) -> (r: Option<Self>)
        ensures
            match r {
                Some(x) => x.value() == self.value() + other.value(),
                None => !fits(Self::min_value(), Self::max_value(), self.value() + other.value()),
            },
    ;

    /// `self - other`, unless the difference leaves the representation.
    fn checked_sub_mr(&self, other: Self) -> (r: Option<Self>)
        ensures
            match r {
                Some(x) => x.value() == self.value() - other.value(),
                None => !fits(Self::min_value(), Self::max_value(), self.value() - other.value()),
            },
    ;

    /// `self * other`, unless the product leaves the representation.
    fn checked_mul_mr(&self, other: Self) -> (r: Option<Self>)
        ensures
            match r {
                Some(x) => x.value() == self.value() * other.value(),
                None => !fits(Self::min_value(), Self::max_value(), self.value() * other.value()),
            },
    ;

    /// `self / other` rounded toward zero, unless `other` is zero or the
    /// quotient leaves the representation.
    fn checked_div_mr(&self, other: Self) -> (r: Option<Self>)
        ensures
            match r {
                Some(x) => other.value() != 0 && x.value() == trunc_div(
                    self.value(),
                    other.value(),
                ),
                None => other.value() == 0 || !fits(
                    Self::min_value(),
                    Self::max_value(),
                    trunc_div(self.value(), other.value()),
                ),
            },
    ;
}

impl CheckedNumberArithmetics for u8 {
    open spec fn value(&self) -> int {
        *self as int
    }

    open spec fn min_value() -> int {
        u8::MIN as int
    }

    open spec fn max_value() -> int {
        u8::MAX as int
    }

    proof fn lemma_value_fits(&self) {
    }

    proof fn lemma_zero_fits() {
    }

    proof fn lemma_value_injective(&self, other: Self) {
    }

    fn less_than(&self, other: Self) -> (r: bool) {
        *self < other
    }

    fn checked_add_mr(&self, other: Self) -> (r: Option<Self>) {
        self.checked_add(other)
    }

    fn checked_sub_mr(&self, other: Self) -> (r: Option<Self>) {
        self.checked_sub(other)
    }

    fn checked_mul_mr(&self, other: Self) -> (r: Option<Self>) {
        self.checked_mul(other)
    }

    fn checked_div_mr(&self, other: Self) -> (r: Option<Self>) {
        self.checked_div(other)
    }
}

impl CheckedNumberArithmetics for u16 {
    open spec fn value(&self) -> int {
        *self as int
    }

    open spec fn min_value() -> int {
        u16::MIN as int
    }

    open spec fn max_value() -> int {
        u16::MAX as int
    }

    proof fn lemma_value_fits(&self) {
    }

    proof fn lemma_zero_fits() {
    }

    proof fn lemma_value_injective(&self, other: Self) {
    }

    fn less_than(&self, other: Self) -> (r: bool) {
        *self < other
    }

    fn checked_add_mr(&self, other: Self) -> (r: Option<Self>) {
        self.checked_add(other)
    }

    fn checked_sub_mr(&self, other: Self) -> (r: Option<Self>) {
        self.checked_sub(other)
    }

    fn checked_mul_mr(&self, other: Self) -> (r: Option<Self>) {
        self.checked_mul(other)
    }

    fn checked_div_mr(&self, other: Self) -> (r: Option<Self>) {
        self.checked_div(other)
    }
}

impl CheckedNumberArithmetics for u32 {
    open spec fn value(&self) -> int {
        *self as int
    }

    open spec fn min_value() -> int {
        u32::MIN as int
    }

    open spec fn max_value() -> int {
        u32::MAX as int
    }

    proof fn lemma_value_fits(&self) {
    }

    proof fn lemma_zero_fits() {
    }

    proof fn lemma_value_injective(&self, other: Self) {
    }

    fn less_than(&self, other: Self) -> (r: bool) {
        *self < other
    }

    fn checked_add_mr(&self, other: Self) -> (r: Option<Self>) {
        self.checked_add(other)
    }

    fn checked_sub_mr(&self, other: Self) -> (r: Option<Self>) {
        self.checked_sub(other)
    }

    fn checked_mul_mr(&self, other: Self) -> (r: Option<Self>) {
        self.checked_mul(other)
    }

    fn checked_div_mr(&self, other: Self) -> (r: Option<Self>) {
        self.checked_div(other)
    }
}

impl CheckedNumberArithmetics for u64 {
    open spec fn value(&self) -> int {
        *self as int
    }

    open spec fn min_value() -> int {
        u64::MIN as int
    }

    open spec fn max_value() -> int {
        u64::MAX as int
    }

    proof fn lemma_value_fits(&self) {
    }

    proof fn lemma_zero_fits() {
    }

    proof fn lemma_value_injective(&self, other: Self) {
    }

    fn less_than(&self, other: Self) -> (r: bool) {
        *self < other
    }

    fn checked_add_mr(&self, other: Self) -> (r: Option<Self>) {
        self.checked_add(other)
    }

    fn checked_sub_mr(&self, other: Self) -> (r: Option<Self>) {
        self.checked_sub(other)
    }

    fn checked_mul_mr(&self, other: Self) -> (r: Option<Self>) {
        self.checked_mul(other)
    }

    fn checked_div_mr(&self, other: Self) -> (r: Option<Self>) {
        self.checked_div(other)
    }
}

impl CheckedNumberArithmetics for usize {
    open spec fn value(&self) -> int {
        *self as int
    }

    open spec fn min_value() -> int {
        usize::MIN as int
    }

    open spec fn max_value() -> int {
        usize::MAX as int
    }

    proof fn lemma_value_fits(&self) {
    }

    proof fn lemma_zero_fits() {
    }

    proof fn lemma_value_injective(&self, other: Self) {
    }

    fn less_than(&self, other: Self) -> (r: bool) {
        *self < other
    }

    fn checked_add_mr(&self, other: Self) -> (r: Option<Self>) {
        self.checked_add(other)
    }

    fn checked_sub_mr(&self, other: Self) -> (r: Option<Self>) {
        self.checked_sub(other)
    }

    fn checked_mul_mr(&self, other: Self) -> (r: Option<Self>) {
        self.checked_mul(other)
    }

    fn checked_div_mr(&self, other: Self) -> (r: Option<Self>) {
        self.checked_div(other)
    }
}

impl CheckedNumberArithmetics for i8 {
    open spec fn value(&self) -> int {
        *self as int
    }

    open spec fn min_value() -> int {
        i8::MIN as int
    }

    open spec fn max_value() -> int {
        i8::MAX as int
    }

    proof fn lemma_value_fits(&self) {
    }

    proof fn lemma_zero_fits() {
    }

    proof fn lemma_value_injective(&self, other: Self) {
    }

    fn less_than(&self, other: Self) -> (r: bool) {
        *self < other
    }

    fn checked_add_mr(&self, other: Self) -> (r: Option<Self>) {
        self.checked_add(other)
    }

    fn checked_sub_mr(&self, other: Self) -> (r: Option<Self>) {
        self.checked_sub(other)
    }

    fn checked_mul_mr(&self, other: Self) -> (r: Option<Self>) {
        self.checked_mul(other)
    }

    fn checked_div_mr(&self, other: Self) -> (r: Option<Self>) {
        self.checked_div(other)
    }
}

impl CheckedNumberArithmetics for i16 {
    open spec fn value(&self) -> int {
        *self as int
    }

    open spec fn min_value() -> int {
        i16::MIN as int
    }

    open spec fn max_value() -> int {
        i16::MAX as int
    }

    proof fn lemma_value_fits(&self) {
    }

    proof fn lemma_zero_fits() {
    }

    proof fn lemma_value_injective(&self, other: Self) {
    }

    fn less_than(&self, other: Self) -> (r: bool) {
        *self < other
    }

    fn checked_add_mr(&self, other: Self) -> (r: Option<Self>) {
        self.checked_add(other)
    }

    fn checked_sub_mr(&self, other: Self) -> (r: Option<Self>) {
        self.checked_sub(other)
    }

    fn checked_mul_mr(&self, other: Self) -> (r: Option<Self>) {
        self.checked_mul(other)
    }

    fn checked_div_mr(&self, other: Self) -> (r: Option<Self>) {
        self.checked_div(other)
    }
}

impl CheckedNumberArithmetics for i32 {
    open spec fn value(&self) -> int {
        *self as int
    }

    open spec fn min_value() -> int {
        i32::MIN as int
    }

    open spec fn max_value() -> int {
        i32::MAX as int
    }

    proof fn lemma_value_fits(&self) {
    }

    proof fn lemma_zero_fits() {
    }

    proof fn lemma_value_injective(&self, other: Self) {
    }

    fn less_than(&self, other: Self) -> (r: bool) {
        *self < other
    }

    fn checked_add_mr(&self, other: Self) -> (r: Option<Self>) {
        self.checked_add(other)
    }

    fn checked_sub_mr(&self, other: Self) -> (r: Option<Self>) {
        self.checked_sub(other)
    }

    fn checked_mul_mr(&self, other: Self) -> (r: Option<Self>) {
        self.checked_mul(other)
    }

    fn checked_div_mr(&self, other: Self) -> (r: Option<Self>) {
        self.checked_div(other)
    }
}

impl CheckedNumberArithmetics for i64 {
    open spec fn value(&self) -> int {
        *self as int
    }

    open spec fn min_value() -> int {
        i64::MIN as int
    }

    open spec fn max_value() -> int {
        i64::MAX as int
    }

    proof fn lemma_value_fits(&self) {
    }

    proof fn lemma_zero_fits() {
    }

    proof fn lemma_value_injective(&self, other: Self) {
    }

    fn less_than(&self, other: Self) -> (r: bool) {
        *self < other
    }

    fn checked_add_mr(&self, other: Self) -> (r: Option<Self>) {
        self.checked_add(other)
    }

    fn checked_sub_mr(&self, other: Self) -> (r: Option<Self>) {
        self.checked_sub(other)
    }

    fn checked_mul_mr(&self, other: Self) -> (r: Option<Self>) {
        self.checked_mul(other)
    }

    fn checked_div_mr(&self, other: Self) -> (r: Option<Self>) {
        self.checked_div(other)
    }
}

impl CheckedNumberArithmetics for isize {
    open spec fn value(&self) -> int {
        *self as int
    }

    open spec fn min_value() -> int {
        isize::MIN as int
    }

    open spec fn max_value() -> int {
        isize::MAX as int
    }

    proof fn lemma_value_fits(&self) {
    }

    proof fn lemma_zero_fits() {
    }

    proof fn lemma_value_injective(&self, other: Self) {
    }

    fn less_than(&self, other: Self) -> (r: bool) {
        *self < other
    }

    fn checked_add_mr(&self, other: Self) -> (r: Option<Self>) {
        self.checked_add(other)
    }

    fn checked_sub_mr(&self, other: Self) -> (r: Option<Self>) {
        self.checked_sub(other)
    }

    fn checked_mul_mr(&self, other: Self) -> (r: Option<Self>) {
        self.checked_mul(other)
    }

    fn checked_div_mr(&self, other: Self) -> (r: Option<Self>) {
        self.checked_div(other)
    }
}

} // verus!
