//! What holds of every mapping, whatever the representation.

use crate::arith::CheckedNumberArithmetics;
use crate::model::{
    between, fits, interpolate, interpolate_checked, lemma_trunc_div_between,
    lemma_trunc_div_parts, trunc_div,
};
use crate::MapRange;
use vstd::arithmetic::div_mod::{lemma_fundamental_div_mod, lemma_mod_bound};
use vstd::prelude::*;

verus! {

/// A mapped value never leaves the target interval, whichever way round the
/// target is given.
pub proof fn lemma_result_in_target(value: int, f0: int, f1: int, t0: int, t1: int)
    requires
        f0 <= value <= f1,
        f0 < f1,
    ensures
        interpolate(value, f0, f1, t0, t1) matches Some(r) && between(t0, t1, r),
{
    let d = f1 - f0;
    let o = value - f0;
    let n = t0 * d + o * (t1 - t0);
    if t0 <= t1 {
        assert(t0 * d <= n <= t1 * d) by (nonlinear_arith)
            requires
                n == t0 * d + o * (t1 - t0),
                0 <= o <= d,
                t0 <= t1,
        ;
        lemma_trunc_div_between(n, d, t0, t1);
    } else {
        assert(t1 * d <= n <= t0 * d) by (nonlinear_arith)
            requires
                n == t0 * d + o * (t1 - t0),
                0 <= o <= d,
                t1 < t0,
        ;
        lemma_trunc_div_between(n, d, t1, t0);
    }
}

/// Mapping an interval that has some width onto itself leaves every value of
/// it where it is.
pub proof fn lemma_identity(value: int, a: int, b: int)
    requires
        a <= value <= b,
        a < b,
    ensures
        interpolate(value, a, b, a, b) == Some(value),
{
    let d = b - a;
    assert(a * d + (value - a) * d == value * d + 0) by (nonlinear_arith);
    lemma_trunc_div_parts(value, 0, d);
}

/// The lower end of the source interval is mapped to the lower end of the
/// target, and the upper end to the upper end.
pub proof fn lemma_endpoints(f0: int, f1: int, t0: int, t1: int)
    requires
        f0 < f1,
    ensures
        interpolate(f0, f0, f1, t0, t1) == Some(t0),
        interpolate(f1, f0, f1, t0, t1) == Some(t1),
{
    let d = f1 - f0;
    assert(t0 * d + (f0 - f0) * (t1 - t0) == t0 * d + 0) by (nonlinear_arith);
    lemma_trunc_div_parts(t0, 0, d);
    assert(t0 * d + (f1 - f0) * (t1 - t0) == t1 * d + 0) by (nonlinear_arith)
        requires
            d == f1 - f0,
    ;
    lemma_trunc_div_parts(t1, 0, d);
}

/// Every result `map_range` can return for a value inside an interval that is
/// mapped onto itself is that value.
pub proof fn lemma_map_range_identity<T: MapRange>(value: T, a: T, b: T, r: Option<T>)
    requires
        a.value() <= value.value() <= b.value(),
        a.value() < b.value(),
        call_ensures(T::map_range, (&value, (a, b), (a, b)), r),
    ensures
        r == Some(value),
{
    lemma_identity(value.value(), a.value(), b.value());
    value.lemma_value_injective(r.unwrap());
}

/// Every result `map_range` can return for the two ends of a source interval
/// that has some width is the corresponding end of the target.
pub proof fn lemma_map_range_endpoints<T: MapRange>(
    from_range: (T, T),
    to_range: (T, T),
    low: Option<T>,
    high: Option<T>,
)
    requires
        from_range.0.value() < from_range.1.value(),
        call_ensures(T::map_range, (&from_range.0, from_range, to_range), low),
        call_ensures(T::map_range, (&from_range.1, from_range, to_range), high),
    ensures
        low == Some(to_range.0),
        high == Some(to_range.1),
{
    lemma_endpoints(
        from_range.0.value(),
        from_range.1.value(),
        to_range.0.value(),
        to_range.1.value(),
    );
    to_range.0.lemma_value_injective(low.unwrap());
    to_range.1.lemma_value_injective(high.unwrap());
}

/// Where the division leaves no remainder the mapping is exact: the result is
/// `t0 + (value - f0) * (t1 - t0) / (f1 - f0)` with nothing rounded away.
pub proof fn lemma_exact_when_divisible(value: int, f0: int, f1: int, t0: int, t1: int)
    requires
        f0 <= value <= f1,
        f0 < f1,
        ((value - f0) * (t1 - t0)) % (f1 - f0) == 0,
    ensures
        interpolate(value, f0, f1, t0, t1) == Some(t0 + ((value - f0) * (t1 - t0)) / (f1 - f0)),
        (interpolate(value, f0, f1, t0, t1).unwrap() - t0) * (f1 - f0) == (value - f0) * (t1 - t0),
{
    let d = f1 - f0;
    let p = (value - f0) * (t1 - t0);
    let k = p / d;
    lemma_fundamental_div_mod(p, d);
    assert(t0 * d + p == (t0 + k) * d + 0 && k * d == p) by (nonlinear_arith)
        requires
            p == d * k + 0,
    ;
    lemma_trunc_div_parts(t0 + k, 0, d);
}

/// The result is the rational image with its fraction cut off: it differs
/// from `t0 + (value - f0) * (t1 - t0) / (f1 - f0)` by less than one, and is
/// never further from zero. Here `n / (f1 - f0)` is that rational image.
pub proof fn lemma_rounds_toward_zero(value: int, f0: int, f1: int, t0: int, t1: int)
    requires
        f0 <= value <= f1,
        f0 < f1,
    ensures
        ({
            let d = f1 - f0;
            let n = t0 * d + (value - f0) * (t1 - t0);
            let r = interpolate(value, f0, f1, t0, t1).unwrap();
            &&& interpolate(value, f0, f1, t0, t1) is Some
            &&& n >= 0 ==> r * d <= n < (r + 1) * d
            &&& n <= 0 ==> (r - 1) * d < n <= r * d
        }),
{
    let d = f1 - f0;
    let n = t0 * d + (value - f0) * (t1 - t0);
    let k = n / d;
    let rem = n % d;
    lemma_fundamental_div_mod(n, d);
    lemma_mod_bound(n, d);
    assert(n == k * d + rem) by (nonlinear_arith)
        requires
            n == d * k + rem,
    ;
    lemma_trunc_div_parts(k, rem, d);
    let r = trunc_div(n, d);
    assert((r + 1) * d == r * d + d && (r - 1) * d == r * d - d) by (nonlinear_arith);
    if n >= 0 {
        assert(k >= 0) by (nonlinear_arith)
            requires
                k * d + rem >= 0,
                rem < d,
                d > 0,
        ;
    }
    if n <= 0 && rem > 0 {
        assert(k < 0) by (nonlinear_arith)
            requires
                k * d + rem <= 0,
                rem > 0,
                d > 0,
        ;
    }
}

/// Inside a representation `[lo, hi]` that contains zero and both target
/// bounds, the step-by-step mapping can only fail early: once the three
/// differences and their product fit, the quotient and the final sum fit too,
/// and the sum lies in the target interval.
pub proof fn lemma_checked_succeeds(
    lo: int,
    hi: int,
    value: int,
    f0: int,
    f1: int,
    t0: int,
    t1: int,
)
    requires
        fits(lo, hi, 0),
        fits(lo, hi, t0),
        fits(lo, hi, t1),
        f0 <= value <= f1,
        f0 < f1,
        fits(lo, hi, value - f0),
        fits(lo, hi, t1 - t0),
        fits(lo, hi, f1 - f0),
        fits(lo, hi, (value - f0) * (t1 - t0)),
    ensures
        interpolate_checked(lo, hi, value, f0, f1, t0, t1) matches Some(r) && between(t0, t1, r),
{
    let o = value - f0;
    let s = t1 - t0;
    let d = f1 - f0;
    if s >= 0 {
        assert(0 * d <= o * s <= s * d) by (nonlinear_arith)
            requires
                0 <= o <= d,
                s >= 0,
        ;
        lemma_trunc_div_between(o * s, d, 0, s);
    } else {
        assert(s * d <= o * s <= 0 * d) by (nonlinear_arith)
            requires
                0 <= o <= d,
                s < 0,
        ;
        lemma_trunc_div_between(o * s, d, s, 0);
    }
}

/// Whenever the step-by-step mapping has a result, the exact mapping has one
/// too and the two are at most one apart. They are equal when the division
/// leaves no remainder, and when the target runs away from zero (it rises
/// from a bound that is not negative, or falls from one that is not
/// positive): only then is rounding the quotient the same as rounding the sum.
pub proof fn lemma_checked_close_to_exact(
    lo: int,
    hi: int,
    value: int,
    f0: int,
    f1: int,
    t0: int,
    t1: int,
)
    requires
        interpolate_checked(lo, hi, value, f0, f1, t0, t1) is Some,
    ensures
        ({
            let checked = interpolate_checked(lo, hi, value, f0, f1, t0, t1).unwrap();
            let exact = interpolate(value, f0, f1, t0, t1).unwrap();
            &&& interpolate(value, f0, f1, t0, t1) is Some
            &&& checked - 1 <= exact <= checked + 1
            &&& ((value - f0) * (t1 - t0)) % (f1 - f0) == 0 ==> exact == checked
            &&& 0 <= t0 <= t1 ==> exact == checked
            &&& t1 <= t0 <= 0 ==> exact == checked
        }),
{
    let o = value - f0;
    let s = t1 - t0;
    let d = f1 - f0;
    let p = o * s;
    let k = p / d;
    let rem = p % d;
    lemma_fundamental_div_mod(p, d);
    lemma_mod_bound(p, d);
    assert(p == k * d + rem && t0 * d + p == (t0 + k) * d + rem) by (nonlinear_arith)
        requires
            p == d * k + rem,
    ;
    lemma_trunc_div_parts(k, rem, d);
    lemma_trunc_div_parts(t0 + k, rem, d);
    if 0 <= t0 <= t1 {
        assert(k >= 0) by (nonlinear_arith)
            requires
                p == k * d + rem,
                p == o * s,
                o >= 0,
                s >= 0,
                rem < d,
                d > 0,
        ;
    }
    if t1 <= t0 <= 0 && rem > 0 {
        assert(k < 0) by (nonlinear_arith)
            requires
                p == k * d + rem,
                p == o * s,
                o >= 0,
                s <= 0,
                rem > 0,
                d > 0,
        ;
    }
}

/// Every result `map_range_uncasted` can return is matched by `map_range`:
/// where the first succeeds the second does too, at most one away, and with
/// the very same result when the target rises from a bound that is not
/// negative.
pub proof fn lemma_uncasted_close_to_map_range<T: MapRange>(
    value: T,
    from_range: (T, T),
    to_range: (T, T),
    uncasted: Option<T>,
    exact: Option<T>,
)
    requires
        call_ensures(T::map_range_uncasted, (&value, from_range, to_range), uncasted),
        call_ensures(T::map_range, (&value, from_range, to_range), exact),
        uncasted is Some,
    ensures
        exact is Some,
        uncasted.unwrap().value() - 1 <= exact.unwrap().value() <= uncasted.unwrap().value() + 1,
        0 <= to_range.0.value() <= to_range.1.value() ==> exact == uncasted,
{
    lemma_checked_close_to_exact(
        T::min_value(),
        T::max_value(),
        value.value(),
        from_range.0.value(),
        from_range.1.value(),
        to_range.0.value(),
        to_range.1.value(),
    );
    if 0 <= to_range.0.value() <= to_range.1.value() {
        exact.unwrap().lemma_value_injective(uncasted.unwrap());
    }
}

} // verus!
