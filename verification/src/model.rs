//! The mathematics of range mapping, over unbounded integers.
//!
//! Everything the executable code promises is stated against the two
//! functions defined here: [`interpolate`], the exact result, and
//! [`interpolate_checked`], the result of carrying the computation out step by
//! step inside a bounded representation.

use vstd::arithmetic::div_mod::lemma_fundamental_div_mod_converse;
use vstd::prelude::*;

verus! {

/// The quotient `n / d` rounded toward zero, as machine division rounds it
/// (the built-in `/` on `int` rounds toward negative infinity instead).
pub open spec fn trunc_div(n: int, d: int) -> int
    recommends
        d != 0,
{
    if d > 0 {
        if n >= 0 {
            n / d
        } else {
            -((-n) / d)
        }
    } else {
        if n >= 0 {
            -(n / (-d))
        } else {
            (-n) / (-d)
        }
    }
}

/// Where `value` lands when the interval `[f0, f1]` is stretched onto
/// `[t0, t1]`: the rational number `t0 + (value - f0) * (t1 - t0) / (f1 - f0)`,
/// rounded toward zero.
///
/// There is no result when `value` lies outside `[f0, f1]`, nor when the
/// interval has no width. An interval given with `f0 > f1` contains nothing.
pub open spec fn interpolate(value: int, f0: int, f1: int, t0: int, t1: int) -> Option<int> {
    if value < f0 || value > f1 || f0 == f1 {
        None
    } else {
        Some(trunc_div(t0 * (f1 - f0) + (value - f0) * (t1 - t0), f1 - f0))
    }
}

/// `lo <= x <= hi`: the integer `x` can be held by a representation that
/// spans `[lo, hi]`.
pub open spec fn fits(lo: int, hi: int, x: int) -> bool {
    lo <= x <= hi
}

/// `x` lies between `a` and `b`, whichever of the two is the greater.
pub open spec fn between(a: int, b: int, x: int) -> bool {
    a <= x <= b || b <= x <= a
}

/// The same mapping, carried out inside a representation that spans
/// `[lo, hi]`: the three differences, their product, the quotient and the
/// final sum are formed one after the other, the quotient is rounded toward
/// zero before the sum is taken, and there is no result unless every one of
/// them stays inside `[lo, hi]`.
pub open spec fn interpolate_checked(
    lo: int,
    hi: int,
    value: int,
    f0: int,
    f1: int,
    t0: int,
    t1: int,
) -> Option<int> {
    let offset = value - f0;
    let span = t1 - t0;
    let width = f1 - f0;
    let product = offset * span;
    let quotient = trunc_div(product, width);
    let sum = t0 + quotient;
    if value < f0 || value > f1 || width == 0 {
        None
    } else if fits(lo, hi, offset) && fits(lo, hi, span) && fits(lo, hi, width) && fits(
        lo,
        hi,
        product,
    ) && fits(lo, hi, quotient) && fits(lo, hi, sum) {
        Some(sum)
    } else {
        None
    }
}

/// Rounding `k * d + rem` toward zero gives `k`, or `k + 1` when the number is
/// negative and `rem` is a proper remainder.
pub proof fn lemma_trunc_div_parts(k: int, rem: int, d: int)
    requires
        d > 0,
        0 <= rem < d,
    ensures
        trunc_div(k * d + rem, d) == if k >= 0 || rem == 0 {
            k
        } else {
            k + 1
        },
{
    let n = k * d + rem;
    if k >= 0 {
        assert(k * d >= 0) by (nonlinear_arith)
            requires
                k >= 0,
                d > 0,
        ;
        lemma_fundamental_div_mod_converse(n, d, k, rem);
    } else if rem == 0 {
        assert(k * d < 0 && -(k * d) == (-k) * d) by (nonlinear_arith)
            requires
                k < 0,
                d > 0,
        ;
        lemma_fundamental_div_mod_converse(-n, d, -k, 0);
    } else {
        assert(k * d <= -d && -(k * d + rem) == (-k - 1) * d + (d - rem)) by (nonlinear_arith)
            requires
                k < 0,
                d > 0,
        ;
        lemma_fundamental_div_mod_converse(-n, d, -k - 1, d - rem);
    }
}

/// Rounding toward zero never leaves the integers that enclose the fraction:
/// from `a <= n / d <= b` follows `a <= trunc_div(n, d) <= b`.
pub proof fn lemma_trunc_div_between(n: int, d: int, a: int, b: int)
    requires
        d > 0,
        a * d <= n <= b * d,
    ensures
        a <= trunc_div(n, d) <= b,
{
    let k = n / d;
    let rem = n % d;
    vstd::arithmetic::div_mod::lemma_fundamental_div_mod(n, d);
    vstd::arithmetic::div_mod::lemma_mod_bound(n, d);
    assert(n == k * d + rem) by (nonlinear_arith)
        requires
            n == d * k + rem,
    ;
    lemma_trunc_div_parts(k, rem, d);
    let r = trunc_div(n, d);
    assert(a <= k) by (nonlinear_arith)
        requires
            d > 0,
            a * d <= k * d + rem,
            rem < d,
    ;
    assert(k <= b) by (nonlinear_arith)
        requires
            d > 0,
            k * d + rem <= b * d,
            0 <= rem,
    ;
    if r == k + 1 {
        assert(k + 1 <= b) by (nonlinear_arith)
            requires
                d > 0,
                k * d + rem <= b * d,
                0 < rem,
        ;
    }
}

/// Dividing by a positive number, rounding toward zero, never increases the
/// magnitude: the quotient lies between zero and the dividend.
pub proof fn lemma_trunc_div_shrinks(n: int, d: int)
    requires
        d > 0,
    ensures
        n >= 0 ==> 0 <= trunc_div(n, d) <= n,
        n <= 0 ==> n <= trunc_div(n, d) <= 0,
{
    if n >= 0 {
        assert(0 * d <= n <= n * d) by (nonlinear_arith)
            requires
                n >= 0,
                d > 0,
        ;
        lemma_trunc_div_between(n, d, 0, n);
    }
    if n <= 0 {
        assert(n * d <= n <= 0 * d) by (nonlinear_arith)
            requires
                n <= 0,
                d > 0,
        ;
        lemma_trunc_div_between(n, d, n, 0);
    }
}

} // verus!
