//! Integer division as the formulas of this library use it.

use vstd::prelude::*;
use vstd::arithmetic::div_mod::{
    lemma_div_is_ordered, lemma_fundamental_div_mod, lemma_fundamental_div_mod_converse,
};

verus! {

/// The quotient of `a` by a positive `b`, rounded toward zero.
pub open spec fn quotient(a: int, b: int) -> int
    recommends
        b > 0,
{
    if a >= 0 {
        a / b
    } else {
        -((-a) / b)
    }
}

/// Whether a positive `b` divides `a`: the quotient, multiplied back, gives `a`.
#[verifier::inline]
pub open spec fn divides(b: int, a: int) -> bool
    recommends
        b > 0,
{
    quotient(a, b) * b == a
}

/// A divisor floored to one, so that no division by zero can occur.
#[verifier::inline]
pub open spec fn at_least_one(x: int) -> int {
    if x < 1 {
        1
    } else {
        x
    }
}

/// The larger of two integers.
#[verifier::inline]
pub open spec fn larger(x: int, y: int) -> int {
    if x < y {
        y
    } else {
        x
    }
}

/// A positive `b` divides `a` exactly when division leaves nothing over, whichever way
/// the quotient is rounded.
pub proof fn lemma_divides_iff_no_remainder(b: int, a: int)
    requires
        b > 0,
    ensures
        divides(b, a) <==> a % b == 0,
        divides(b, a) <==> (-a) % b == 0,
{
    lemma_fundamental_div_mod(a, b);
    lemma_fundamental_div_mod(-a, b);
    if a % b == 0 {
        lemma_multiple_negation(b, a);
    }
    if (-a) % b == 0 {
        lemma_multiple_negation(b, -a);
    }
    assert((a / b) * b == b * (a / b)) by (nonlinear_arith);
    assert((-((-a) / b)) * b == -(b * ((-a) / b))) by (nonlinear_arith);
}

/// If a positive `b` divides `a`, it divides `-a`.
proof fn lemma_multiple_negation(b: int, a: int)
    requires
        b > 0,
        a % b == 0,
    ensures
        (-a) % b == 0,
{
    let q = a / b;
    lemma_fundamental_div_mod(a, b);
    assert(-a == (-q) * b + 0) by (nonlinear_arith)
        requires
            a == b * q + 0,
    ;
    lemma_fundamental_div_mod_converse(-a, b, -q, 0);
}

/// A quotient rounded toward zero lies between zero and the dividend.
pub proof fn lemma_quotient_bounds(a: int, b: int)
    requires
        b > 0,
    ensures
        a >= 0 ==> 0 <= quotient(a, b) <= a,
        a <= 0 ==> a <= quotient(a, b) <= 0,
        b == 1 ==> quotient(a, b) == a,
{
    if a >= 0 {
        assert(0 <= a / b <= a && (b == 1 ==> a / b == a)) by (nonlinear_arith)
            requires
                a >= 0,
                b > 0,
        ;
    } else {
        assert(0 <= (-a) / b <= -a && (b == 1 ==> (-a) / b == -a)) by (nonlinear_arith)
            requires
                a < 0,
                b > 0,
        ;
    }
}

/// Rounding toward zero keeps the order of the dividends.
pub proof fn lemma_quotient_monotone(a: int, c: int, b: int)
    requires
        b > 0,
        a <= c,
    ensures
        quotient(a, b) <= quotient(c, b),
{
    lemma_quotient_bounds(a, b);
    lemma_quotient_bounds(c, b);
    if a >= 0 {
        lemma_div_is_ordered(a, c, b);
    } else if c <= 0 {
        lemma_div_is_ordered(-c, -a, b);
    }
}

/// What rounding toward zero leaves over is smaller than the divisor in magnitude.
pub proof fn lemma_quotient_remainder(a: int, b: int)
    requires
        b > 0,
    ensures
        -b < a - b * quotient(a, b) < b,
{
    if a >= 0 {
        lemma_fundamental_div_mod(a, b);
    } else {
        lemma_fundamental_div_mod(-a, b);
        assert(b * -((-a) / b) == -(b * ((-a) / b))) by (nonlinear_arith);
    }
}

/// Raising the dividend by `d` raises the quotient by at most `d`.
pub proof fn lemma_quotient_step(a: int, d: int, b: int)
    requires
        b > 0,
        d >= 0,
    ensures
        quotient(a, b) <= quotient(a + d, b) <= quotient(a, b) + d,
{
    lemma_quotient_monotone(a, a + d, b);
    lemma_quotient_remainder(a, b);
    lemma_quotient_remainder(a + d, b);
    let f = quotient(a, b);
    let g = quotient(a + d, b);
    if d > 0 {
        assert(g - f <= d) by (nonlinear_arith)
            requires
                b > 0,
                d > 0,
                -b < a - b * f < b,
                -b < a + d - b * g < b,
        ;
    }
}

/// The quotient of `q * b + r` by `b` is `q`, where `q` is not negative and `r` is a
/// remainder of the division.
pub proof fn lemma_quotient_of_sum(q: int, b: int, r: int)
    requires
        b > 0,
        q >= 0,
        0 <= r < b,
    ensures
        quotient(q * b + r, b) == q,
        r != 0 ==> quotient(q * b + r, b) * b != q * b + r,
{
    assert(q * b + r >= 0) by (nonlinear_arith)
        requires
            b > 0,
            q >= 0,
            r >= 0,
    ;
    lemma_fundamental_div_mod_converse(q * b + r, b, q, r);
}

/// Divides `a` by a positive `b`, rounding toward zero.
pub fn divide(a: i64, b: i64) -> (q: i64)
    requires
        b > 0,
    ensures
        q == quotient(a as int, b as int),
        a >= 0 ==> 0 <= q <= a,
        a <= 0 ==> a <= q <= 0,
        b == 1 ==> q == a,
{
    proof {
        lemma_quotient_bounds(a as int, b as int);
    }
    a / b
}

/// Whether a positive `b` divides `a`.
pub fn is_multiple(a: i64, b: i64) -> (r: bool)
    requires
        b > 0,
    ensures
        r == divides(b as int, a as int),
{
    proof {
        lemma_divides_iff_no_remainder(b as int, a as int);
    }
    a % b == 0
}

/// Floors a divisor to one.
pub fn floor_to_one(x: i32) -> (r: i64)
    ensures
        r == at_least_one(x as int),
        1 <= r <= i32::MAX,
{
    if x < 1 {
        1
    } else {
        x as i64
    }
}

} // verus!
