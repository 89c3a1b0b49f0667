//! Facts about the raw fixed-point operations.

use vstd::prelude::*;
use vstd::arithmetic::div_mod::{
    lemma_div_is_ordered, lemma_div_multiples_vanish, lemma_div_pos_is_pos,
    lemma_fundamental_div_mod, lemma_div_denominator,
};
use vstd::arithmetic::mul::{lemma_mul_inequality, lemma_mul_is_associative, lemma_mul_is_commutative};
use crate::fixed_point::{div_raw, mul_raw, scale, trunc_div};

verus! {

/// Multiplying by a whole number is exact.
pub proof fn lemma_mul_whole(a: int, n: int)
    ensures
        mul_raw(a, n * scale()) == a * n,
        mul_raw(n * scale(), a) == a * n,
{
    lemma_mul_is_associative(a, n, scale());
    lemma_mul_is_commutative(a, n * scale());
    lemma_div_multiples_vanish(a * n, scale());
}

/// Truncating division is monotone in the numerator.
pub proof fn lemma_trunc_div_monotone(n1: int, n2: int, d: int)
    requires
        d > 0,
        n1 <= n2,
    ensures
        trunc_div(n1, d) <= trunc_div(n2, d),
{
    if n1 >= 0 {
        lemma_div_is_ordered(n1, n2, d);
    } else if n2 >= 0 {
        lemma_div_pos_is_pos(-n1, d);
        lemma_div_pos_is_pos(n2, d);
    } else {
        lemma_div_is_ordered(-n2, -n1, d);
    }
}

/// Truncating division of a multiple is exact.
pub proof fn lemma_trunc_div_multiple(q: int, d: int)
    requires
        d > 0,
    ensures
        trunc_div(q * d, d) == q,
{
    if q >= 0 {
        assert(q * d >= 0) by (nonlinear_arith)
            requires
                q >= 0,
                d > 0,
        ;
        lemma_mul_is_commutative(q, d);
        lemma_div_multiples_vanish(q, d);
    } else {
        assert(q * d < 0 && -(q * d) == (-q) * d) by (nonlinear_arith)
            requires
                q < 0,
                d > 0,
        ;
        lemma_mul_is_commutative(-q, d);
        lemma_div_multiples_vanish(-q, d);
    }
}

/// A truncated quotient by a positive divisor keeps the sign of the
/// numerator and is no further from zero.
pub proof fn lemma_trunc_div_shrinks(n: int, d: int)
    requires
        d > 0,
    ensures
        n >= 0 ==> 0 <= trunc_div(n, d) <= n,
        n <= 0 ==> n <= trunc_div(n, d) <= 0,
{
    if n >= 0 {
        assert(0 * d <= n <= n * d) by (nonlinear_arith)
            requires
                n >= 0,
                d > 0,
        ;
        lemma_trunc_div_between(n, d, 0, n);
    } else {
        assert(n * d <= n <= 0 * d) by (nonlinear_arith)
            requires
                n < 0,
                d > 0,
        ;
        lemma_trunc_div_between(n, d, n, 0);
    }
}

/// A truncated quotient lies between any two whole bounds of the exact one.
pub proof fn lemma_trunc_div_between(n: int, d: int, lo: int, hi: int)
    requires
        d > 0,
        lo * d <= n <= hi * d,
    ensures
        lo <= trunc_div(n, d) <= hi,
{
    lemma_trunc_div_multiple(lo, d);
    lemma_trunc_div_multiple(hi, d);
    lemma_trunc_div_monotone(lo * d, n, d);
    lemma_trunc_div_monotone(n, hi * d, d);
}

/// Scaling numerator and denominator alike leaves a truncated quotient
/// unchanged.
pub proof fn lemma_trunc_div_cancel(n: int, d: int, k: int)
    requires
        d != 0,
        k > 0,
    ensures
        trunc_div(n * k, d * k) == trunc_div(n, d),
{
    let an = if n >= 0 { n } else { -n };
    let ad = if d > 0 { d } else { -d };
    assert(an * k >= 0 && ad * k > 0) by (nonlinear_arith)
        requires
            an >= 0,
            ad > 0,
            k > 0,
    ;
    assert((n >= 0 ==> n * k == an * k) && (n < 0 ==> n * k < 0 && -(n * k) == an * k))
        by (nonlinear_arith)
        requires
            k > 0,
            an == if n >= 0 { n } else { -n },
    ;
    assert((d > 0 ==> d * k == ad * k) && (d < 0 ==> d * k < 0 && -(d * k) == ad * k))
        by (nonlinear_arith)
        requires
            k > 0,
            d != 0,
            ad == if d > 0 { d } else { -d },
    ;
    // (an * k) / (ad * k) == an / ad
    lemma_mul_is_commutative(ad, k);
    lemma_mul_is_commutative(an, k);
    lemma_div_denominator(an * k, k, ad);
    lemma_div_multiples_vanish(an, k);
}

/// Dividing by a positive whole number divides the raw integer by it.
pub proof fn lemma_div_whole(a: int, n: int)
    requires
        n > 0,
    ensures
        div_raw(a, n * scale()) == trunc_div(a, n),
{
    lemma_trunc_div_cancel(a, n, scale());
}

/// The raw product is monotone in its second factor when the first is not
/// negative.
pub proof fn lemma_mul_raw_monotone(a: int, b1: int, b2: int)
    requires
        a >= 0,
        b1 <= b2,
    ensures
        mul_raw(a, b1) <= mul_raw(a, b2),
{
    lemma_mul_inequality(b1, b2, a);
    lemma_mul_is_commutative(a, b1);
    lemma_mul_is_commutative(a, b2);
    lemma_div_is_ordered(a * b1, a * b2, scale());
}

/// A raw product with zero is zero.
pub proof fn lemma_mul_raw_zero(a: int)
    ensures
        mul_raw(a, 0) == 0,
        mul_raw(0, a) == 0,
{
    assert(a * 0 == 0 && 0 * a == 0) by (nonlinear_arith);
}

/// The division identity for a truncated quotient: the remainder has the
/// sign of the numerator and is smaller than the divisor.
pub proof fn lemma_trunc_div_remainder(n: int, d: int)
    requires
        d > 0,
    ensures
        n >= 0 ==> 0 <= n - trunc_div(n, d) * d < d,
        n < 0 ==> -d < n - trunc_div(n, d) * d <= 0,
{
    if n >= 0 {
        lemma_fundamental_div_mod(n, d);
        lemma_mul_is_commutative(d, n / d);
    } else {
        lemma_fundamental_div_mod(-n, d);
        lemma_mul_is_commutative(d, (-n) / d);
        assert((-((-n) / d)) * d == -(((-n) / d) * d)) by (nonlinear_arith);
    }
}

} // verus!
