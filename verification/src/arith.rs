use vstd::prelude::*;

verus! {

/// `a / b` rounded up, for a divisor `b > 0` and `a >= 0`.
pub open spec fn ceil_div(a: int, b: int) -> int {
    (a + b - 1) / b
}

/// The rounded-up quotient is the least `q` with `b * q >= a`.
pub proof fn lemma_ceil_div_bounds(a: int, b: int)
    requires
        a >= 0,
        b > 0,
    ensures
        ceil_div(a, b) >= 0,
        b * ceil_div(a, b) >= a,
        b * (ceil_div(a, b) - 1) < a || a == 0,
        a == 0 ==> ceil_div(a, b) == 0,
        a > 0 ==> ceil_div(a, b) >= 1,
{
    let q = ceil_div(a, b);
    let r = (a + b - 1) % b;
    vstd::arithmetic::div_mod::lemma_fundamental_div_mod(a + b - 1, b);
    assert(0 <= r < b) by {
        vstd::arithmetic::div_mod::lemma_mod_bound(a + b - 1, b);
    }
    assert(a + b - 1 == b * q + r);
    assert(b * (q - 1) == b * q - b) by (nonlinear_arith);
    assert(q >= 0) by (nonlinear_arith)
        requires
            a + b - 1 == b * q + r,
            0 <= r < b,
            a >= 0,
            b > 0,
    ;
    if a == 0 {
        assert(q == 0) by (nonlinear_arith)
            requires
                b - 1 == b * q + r,
                0 <= r < b,
                b > 0,
        ;
    }
    if a > 0 {
        assert(q >= 1) by (nonlinear_arith)
            requires
                a + b - 1 == b * q + r,
                0 <= r < b,
                a > 0,
                b > 0,
        ;
    }
}

/// Rounding up keeps the order of the dividends.
pub proof fn lemma_ceil_div_monotone(a1: int, a2: int, b: int)
    requires
        0 <= a1 <= a2,
        b > 0,
    ensures
        ceil_div(a1, b) <= ceil_div(a2, b),
{
    vstd::arithmetic::div_mod::lemma_div_is_ordered(a1 + b - 1, a2 + b - 1, b);
}

/// A dividend above `b * (s - 1)` rounds up to at least `s`.
pub proof fn lemma_ceil_div_at_least(a: int, b: int, s: int)
    requires
        a >= 0,
        b > 0,
        a > b * (s - 1),
    ensures
        ceil_div(a, b) >= s,
{
    lemma_ceil_div_bounds(a, b);
    let q = ceil_div(a, b);
    if q < s {
        assert(b * q <= b * (s - 1)) by (nonlinear_arith)
            requires
                q <= s - 1,
                b > 0,
        ;
    }
}

/// A dividend at most `b * s` rounds up to at most `s`.
pub proof fn lemma_ceil_div_at_most(a: int, b: int, s: int)
    requires
        a >= 0,
        b > 0,
        a <= b * s,
    ensures
        ceil_div(a, b) <= s,
{
    lemma_ceil_div_bounds(a, b);
    let q = ceil_div(a, b);
    if q > s && a > 0 {
        assert(b * (q - 1) >= b * s) by (nonlinear_arith)
            requires
                q - 1 >= s,
                b > 0,
        ;
    }
    if a == 0 {
        assert(s >= 0) by (nonlinear_arith)
            requires
                0 <= b * s,
                b > 0,
        ;
    }
}

} // verus!
