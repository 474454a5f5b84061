//! Saturating fixed-point arithmetic with six decimal places.
//!
//! A raw value `r` stands for the number `r / SCALE`. Every operation is total:
//! results outside the range of `i64` stay at the nearest end of the range, and
//! quotients round toward zero.

use vstd::prelude::*;

verus! {

/// Raw units per whole unit.
pub const SCALE: i64 = 1_000_000;

/// The nearest value to `x` that an `i64` can hold.
pub open spec fn saturate(x: int) -> int {
    if x > i64::MAX as int {
        i64::MAX as int
    } else if x < i64::MIN as int {
        i64::MIN as int
    } else {
        x
    }
}

/// Quotient of `n` by `d`, rounded toward zero. Meaningful for `d != 0`.
pub open spec fn trunc_div(n: int, d: int) -> int {
    if n >= 0 && d > 0 {
        n / d
    } else if n < 0 && d < 0 {
        (-n) / (-d)
    } else if n < 0 {
        -((-n) / d)
    } else {
        -(n / (-d))
    }
}

/// Sum of two raw values.
pub open spec fn sum(a: int, b: int) -> int {
    saturate(a + b)
}

/// Difference of two raw values.
pub open spec fn difference(a: int, b: int) -> int {
    saturate(a - b)
}

/// Negation of a raw value.
pub open spec fn negation(a: int) -> int {
    saturate(-a)
}

/// Product of the numbers that two raw values stand for, as a raw value.
pub open spec fn product(a: int, b: int) -> int {
    saturate(trunc_div(a * b, SCALE as int))
}

/// Quotient of the numbers that two raw values stand for, as a raw value.
/// Division by zero saturates in the direction of the dividend's sign, and
/// zero divided by zero is zero.
pub open spec fn quotient(a: int, b: int) -> int {
    if b == 0 {
        if a > 0 {
            i64::MAX as int
        } else if a < 0 {
            i64::MIN as int
        } else {
            0
        }
    } else {
        saturate(trunc_div(a * (SCALE as int), b))
    }
}

/// The smaller of two values.
pub open spec fn lesser(a: int, b: int) -> int {
    if a <= b {
        a
    } else {
        b
    }
}

/// The larger of two values.
pub open spec fn greater(a: int, b: int) -> int {
    if a >= b {
        a
    } else {
        b
    }
}

/// `x` held within `[lo, hi]`; the lower bound wins when the bounds cross.
pub open spec fn bounded(x: int, lo: int, hi: int) -> int {
    if x < lo {
        lo
    } else if x > hi {
        hi
    } else {
        x
    }
}

/// Magnitude of a raw value.
pub open spec fn magnitude(a: int) -> int {
    saturate(if a < 0 { -a } else { a })
}

/// Narrow a wide intermediate result to `i64`, saturating at the ends.
pub fn narrow(x: i128) -> (r: i64)
    ensures
        r as int == saturate(x as int),
{
    if x > i64::MAX as i128 {
        i64::MAX
    } else if x < i64::MIN as i128 {
        i64::MIN
    } else {
        x as i64
    }
}

/// Divide two wide values, rounding toward zero.
pub fn wide_trunc_div(n: i128, d: i128) -> (q: i128)
    requires
        d != 0,
        i128::MIN < n,
        i128::MIN < d,
    ensures
        q as int == trunc_div(n as int, d as int),
{
    let nn: i128 = if n < 0 { -n } else { n };
    let dd: i128 = if d < 0 { -d } else { d };
    let m: i128 = nn / dd;
    assert(0 <= m <= nn) by (nonlinear_arith)
        requires
            m == nn / dd,
            nn >= 0,
            dd > 0,
    ;
    if (n < 0) != (d < 0) {
        -m
    } else {
        m
    }
}

/// Saturating sum.
pub fn plus(a: i64, b: i64) -> (r: i64)
    ensures
        r as int == sum(a as int, b as int),
{
    narrow(a as i128 + b as i128)
}

/// Saturating difference.
pub fn minus(a: i64, b: i64) -> (r: i64)
    ensures
        r as int == difference(a as int, b as int),
{
    narrow(a as i128 - b as i128)
}

/// Saturating negation.
pub fn negate(a: i64) -> (r: i64)
    ensures
        r as int == negation(a as int),
{
    narrow(-(a as i128))
}

/// Saturating fixed-point product.
pub fn times(a: i64, b: i64) -> (r: i64)
    ensures
        r as int == product(a as int, b as int),
{
    assert(-0x4000_0000_0000_0000_0000_0000_0000_0000 <= (a as int) * (b as int)
        <= 0x4000_0000_0000_0000_0000_0000_0000_0000) by (nonlinear_arith)
        requires
            -0x8000_0000_0000_0000 <= a as int <= 0x8000_0000_0000_0000,
            -0x8000_0000_0000_0000 <= b as int <= 0x8000_0000_0000_0000,
    ;
    let p: i128 = (a as i128) * (b as i128);
    narrow(wide_trunc_div(p, SCALE as i128))
}

/// Saturating fixed-point quotient.
pub fn over(a: i64, b: i64) -> (r: i64)
    ensures
        r as int == quotient(a as int, b as int),
{
    if b == 0 {
        if a > 0 {
            i64::MAX
        } else if a < 0 {
            i64::MIN
        } else {
            0
        }
    } else {
        assert(SCALE == 1_000_000);
        let n: i128 = (a as i128) * 1_000_000;
        narrow(wide_trunc_div(n, b as i128))
    }
}

/// The smaller of two raw values.
pub fn at_most(a: i64, b: i64) -> (r: i64)
    ensures
        r as int == lesser(a as int, b as int),
{
    if a <= b {
        a
    } else {
        b
    }
}

/// The larger of two raw values.
pub fn at_least(a: i64, b: i64) -> (r: i64)
    ensures
        r as int == greater(a as int, b as int),
{
    if a >= b {
        a
    } else {
        b
    }
}

/// Hold `x` within `[lo, hi]`.
pub fn clamp(x: i64, lo: i64, hi: i64) -> (r: i64)
    ensures
        r as int == bounded(x as int, lo as int, hi as int),
{
    if x < lo {
        lo
    } else if x > hi {
        hi
    } else {
        x
    }
}

/// Saturating magnitude.
pub fn abs(a: i64) -> (r: i64)
    ensures
        r as int == magnitude(a as int),
{
    if a < 0 {
        negate(a)
    } else {
        a
    }
}

/// Rounding toward zero keeps the order of dividends over a positive divisor.
pub proof fn lemma_trunc_div_grows_with_dividend(n1: int, n2: int, d: int)
    requires
        d > 0,
        n1 <= n2,
    ensures
        trunc_div(n1, d) <= trunc_div(n2, d),
{
    if n1 >= 0 {
        assert(n1 / d <= n2 / d) by (nonlinear_arith)
            requires
                d > 0,
                0 <= n1 <= n2,
        ;
    } else if n2 >= 0 {
        assert((-n1) / d >= 0) by (nonlinear_arith)
            requires
                d > 0,
                -n1 > 0,
        ;
        assert(n2 / d >= 0) by (nonlinear_arith)
            requires
                d > 0,
                n2 >= 0,
        ;
    } else {
        assert((-n2) / d <= (-n1) / d) by (nonlinear_arith)
            requires
                d > 0,
                0 < -n2 <= -n1,
        ;
    }
}

/// A whole multiple of the divisor divides back exactly.
pub proof fn lemma_trunc_div_of_multiple(q: int, d: int)
    requires
        d > 0,
    ensures
        trunc_div(q * d, d) == q,
{
    if q >= 0 {
        assert(q * d >= 0 && (q * d) / d == q) by (nonlinear_arith)
            requires
                d > 0,
                q >= 0,
        ;
    } else {
        assert(q * d < 0 && (-(q * d)) / d == -q) by (nonlinear_arith)
            requires
                d > 0,
                q < 0,
        ;
    }
}

/// Multiplying by one changes nothing.
pub proof fn lemma_product_by_one(a: int)
    ensures
        product(a, SCALE as int) == saturate(a),
{
    lemma_trunc_div_of_multiple(a, SCALE as int);
}

/// Multiplying by zero gives zero.
pub proof fn lemma_product_by_zero(a: int)
    ensures
        product(a, 0) == 0,
        product(0, a) == 0,
{
    assert(a * 0 == 0 && 0 * a == 0) by (nonlinear_arith);
}

/// A non-negative factor keeps the order of what it multiplies.
pub proof fn lemma_product_grows_with_factor(a: int, b1: int, b2: int)
    requires
        a >= 0,
        b1 <= b2,
    ensures
        product(a, b1) <= product(a, b2),
{
    assert(a * b1 <= a * b2) by (nonlinear_arith)
        requires
            a >= 0,
            b1 <= b2,
    ;
    lemma_trunc_div_grows_with_dividend(a * b1, a * b2, SCALE as int);
}

/// A positive divisor keeps the order of what it divides.
pub proof fn lemma_quotient_grows_with_dividend(a1: int, a2: int, b: int)
    requires
        b > 0,
        a1 <= a2,
    ensures
        quotient(a1, b) <= quotient(a2, b),
{
    lemma_trunc_div_grows_with_dividend(a1 * (SCALE as int), a2 * (SCALE as int), b);
}

/// Over a positive divisor, a quotient is at least one exactly when the
/// dividend is at least the divisor.
pub proof fn lemma_quotient_against_one(a: int, b: int)
    requires
        b > 0,
    ensures
        a >= b ==> quotient(a, b) >= SCALE as int,
        a < b ==> quotient(a, b) < SCALE as int,
{
    let s = SCALE as int;
    lemma_trunc_div_of_multiple(s, b);
    assert(s * b == b * s) by (nonlinear_arith);
    if a >= b {
        lemma_trunc_div_grows_with_dividend(b * s, a * s, b);
    } else if a >= 0 {
        assert((a * s) / b < s) by (nonlinear_arith)
            requires
                0 <= a < b,
                s > 0,
        ;
        assert(a * s >= 0) by (nonlinear_arith)
            requires
                a >= 0,
                s > 0,
        ;
    } else {
        lemma_trunc_div_of_multiple(0, b);
        assert(0 * b == 0);
        lemma_trunc_div_grows_with_dividend(a * s, 0, b);
    }
}

/// A positive value times a fraction below one is less than the value.
pub proof fn lemma_product_by_less_than_one(a: int, b: int)
    requires
        0 < a <= i64::MAX as int,
        b < SCALE as int,
    ensures
        product(a, b) < a,
{
    let s = SCALE as int;
    lemma_trunc_div_of_multiple(a, s);
    if b >= 0 {
        assert(0 <= a * b && (a * b) / s < a) by (nonlinear_arith)
            requires
                a > 0,
                0 <= b < s,
                s > 0,
        ;
    } else {
        lemma_product_by_zero(a);
        lemma_product_grows_with_factor(a, b, 0);
    }
}

} // verus!
