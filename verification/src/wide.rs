//! Exact range mapping in 128-bit arithmetic.
//!
//! Every supported representation is at most 64 bits wide, so the product of
//! two differences always fits in a `u128`. This is where the mapping is
//! actually computed when no intermediate step may be lost to overflow.

use crate::model::{interpolate, lemma_trunc_div_parts};
use vstd::arithmetic::div_mod::{lemma_fundamental_div_mod, lemma_mod_bound};
use vstd::prelude::*;

verus! {

/// The five operands of a mapping lie close enough together for the
/// computation to be carried out in 128 bits: the source interval is at most
/// `u64::MAX` wide, the target endpoints are at most `u64::MAX` apart, and the
/// target's lower bound is itself within 64-bit reach.
pub open spec fn within_reach(f0: int, f1: int, t0: int, t1: int) -> bool {
    &&& f1 - f0 <= u64::MAX
    &&& -(u64::MAX as int) <= t1 - t0 <= u64::MAX
    &&& i64::MIN <= t0 <= u64::MAX
}

/// Maps `value` from `from_range` onto `to_range`, exactly.
///
/// The result is the rational image of `value`, rounded toward zero; it is
/// absent when `value` is outside `from_range` or `from_range` has no width.
/// The operands must be [`within_reach`], which operands widened from any
/// one type of 64 bits or fewer always are.
pub fn interpolate_wide(value: i128, from_range: (i128, i128), to_range: (i128, i128)) -> (r:
    Option<i128>)
    requires
        within_reach(
            from_range.0 as int,
            from_range.1 as int,
            to_range.0 as int,
            to_range.1 as int,
        ),
    ensures
        match r {
            Some(x) => interpolate(
                value as int,
                from_range.0 as int,
                from_range.1 as int,
                to_range.0 as int,
                to_range.1 as int,
            ) == Some(x as int),
            None => interpolate(
                value as int,
                from_range.0 as int,
                from_range.1 as int,
                to_range.0 as int,
                to_range.1 as int,
            ) is None,
        },
{
    let (f0, f1) = from_range;
    let (t0, t1) = to_range;
    if value < f0 || value > f1 {
        return None;
    }
    let width: i128 = f1 - f0;
    if width == 0 {
        return None;
    }
    let offset: i128 = value - f0;
    let rising = t1 >= t0;
    let span: i128 = if rising {
        t1 - t0
    } else {
        t0 - t1
    };
    assert(offset * span <= u64::MAX * u64::MAX && 0 <= offset * span <= width * span)
        by (nonlinear_arith)
        requires
            0 <= offset <= width <= u64::MAX,
            0 <= span <= u64::MAX,
    ;
    let product: u128 = (offset as u128) * (span as u128);
    let quotient: u128 = product / (width as u128);
    let rem: u128 = product % (width as u128);
    proof {
        let d = width as int;
        let q = quotient as int;
        lemma_fundamental_div_mod(product as int, d);
        lemma_mod_bound(product as int, d);
        assert(product == q * d + rem) by (nonlinear_arith)
            requires
                product == d * q + rem,
        ;
        assert(q <= span) by (nonlinear_arith)
            requires
                d > 0,
                q * d + rem <= d * span,
                rem >= 0,
        ;
        let n = t0 * d + offset * (t1 - t0);
        if rising {
            assert(n == (t0 + q) * d + rem) by (nonlinear_arith)
                requires
                    n == t0 * d + offset * (t1 - t0),
                    offset * span == q * d + rem,
                    span == t1 - t0,
            ;
            lemma_trunc_div_parts(t0 + q, rem as int, d);
        } else if rem == 0 {
            assert(n == (t0 - q) * d) by (nonlinear_arith)
                requires
                    n == t0 * d + offset * (t1 - t0),
                    offset * span == q * d,
                    span == t0 - t1,
            ;
            lemma_trunc_div_parts(t0 - q, 0, d);
        } else {
            assert(n == (t0 - q - 1) * d + (d - rem)) by (nonlinear_arith)
                requires
                    n == t0 * d + offset * (t1 - t0),
                    offset * span == q * d + rem,
                    span == t0 - t1,
            ;
            lemma_trunc_div_parts(t0 - q - 1, d - rem, d);
        }
    }
    let step: i128 = quotient as i128;
    let result: i128 = if rising {
        let below: i128 = t0 + step;
        if rem != 0 && below < 0 {
            below + 1
        } else {
            below
        }
    } else {
        let above: i128 = t0 - step;
        if rem != 0 && above > 0 {
            above - 1
        } else {
            above
        }
    };
    Some(result)
}

} // verus!
