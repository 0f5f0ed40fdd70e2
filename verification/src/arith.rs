//! Shared arithmetic lemmas for exact fixed-point scaling.

use vstd::prelude::*;

verus! {

/// Dividing numerator and denominator by a common positive factor keeps the
/// floored quotient.
pub proof fn lemma_div_common_factor(a: int, b: int, c: int)
    requires
        a >= 0,
        b >= 1,
        c >= 1,
    ensures
        (a * c) / (b * c) == a / b,
{
    let q = a / b;
    let r = a % b;
    vstd::arithmetic::div_mod::lemma_fundamental_div_mod(a, b);
    assert(a * c == q * (b * c) + r * c) by (nonlinear_arith)
        requires
            a == q * b + r,
    ;
    assert(0 <= r * c < b * c) by (nonlinear_arith)
        requires
            0 <= r < b,
            c >= 1,
    ;
    assert(b * c >= 1) by (nonlinear_arith)
        requires
            b >= 1,
            c >= 1,
    ;
    vstd::arithmetic::div_mod::lemma_fundamental_div_mod_converse(a * c, b * c, q, r * c);
}

/// Scaling a non-negative value by `m / d` with `m <= d` cannot grow it.
pub proof fn lemma_scale_down_bounded(x: int, m: int, d: int)
    requires
        0 <= x,
        0 <= m <= d,
        1 <= d,
    ensures
        0 <= x * m / d <= x,
{
    assert(0 <= x * m <= x * d) by (nonlinear_arith)
        requires
            0 <= x,
            0 <= m <= d,
    ;
    vstd::arithmetic::div_mod::lemma_div_is_ordered(x * m, x * d, d);
    lemma_div_common_factor(x, 1, d);
    vstd::arithmetic::div_mod::lemma_div_pos_is_pos(x * m, d);
    assert(x / 1 == x) by {
        vstd::arithmetic::div_mod::lemma_div_basics(x);
    }
}

} // verus!
