//! Integer division with an explicit "no result" outcome, and a sibling that
//! insists on a quotient and aborts when there is none.

use vstd::prelude::*;

verus! {

/// Truncating integer division: the quotient of `a` and `b` with the
/// fractional part discarded toward zero, as two's-complement division
/// computes it. (Spec-level `/` on `int` is Euclidean division, so the
/// negative case is spelled out.)
pub open spec fn trunc_div(a: int, b: int) -> int
    recommends
        b != 0,
{
    if a >= 0 {
        a / b
    } else {
        -((-a) / b)
    }
}

/// The remainder that the truncating quotient leaves: what is left of `a`
/// after `trunc_div(a, b)` takes its multiple of `b`.
pub open spec fn trunc_rem(a: int, b: int) -> int
    recommends
        b != 0,
{
    a - trunc_div(a, b) * b
}

/// The truncating quotient rounds toward zero: the remainder it leaves is
/// smaller in magnitude than the divisor and never of the opposite sign to
/// the dividend, which pins `trunc_div(a, b)` as a / b with the fractional
/// part discarded.
pub proof fn lemma_trunc_div_rounds_toward_zero(a: int, b: int)
    requires
        b != 0,
    ensures
        a == trunc_div(a, b) * b + trunc_rem(a, b),
        vstd::math::abs(trunc_rem(a, b)) < vstd::math::abs(b),
        a >= 0 ==> trunc_rem(a, b) >= 0,
        a <= 0 ==> trunc_rem(a, b) <= 0,
{
    if a >= 0 {
        vstd::arithmetic::div_mod::lemma_fundamental_div_mod(a, b);
        assert(trunc_div(a, b) * b == b * (a / b)) by (nonlinear_arith)
            requires
                trunc_div(a, b) == a / b,
        ;
        if a == 0 {
            assert(a % b == 0) by (nonlinear_arith)
                requires
                    a == 0 && b != 0,
            ;
        }
    } else {
        vstd::arithmetic::div_mod::lemma_fundamental_div_mod(-a, b);
        assert(trunc_div(a, b) * b == -(b * ((-a) / b))) by (nonlinear_arith)
            requires
                b != 0 && a < 0 && trunc_div(a, b) == -((-a) / b),
        ;
    }
}

/// What dividing `a` by `b` yields: no result when `b` is zero, otherwise
/// the truncating quotient.
pub open spec fn spec_divide(a: i32, b: i32) -> Option<i32>
    recommends
        !(a == i32::MIN && b == -1),
{
    if b == 0 {
        None
    } else {
        Some(trunc_div(a as int, b as int) as i32)
    }
}

/// Divides `a` by `b`, reporting division by zero as an absent result rather
/// than failing. The one input pair excluded is the quotient that does not
/// fit in `i32`.
pub fn divide_safely(a: i32, b: i32) -> (r: Option<i32>)
    requires
        !(a == i32::MIN && b == -1),
    ensures
        r == spec_divide(a, b),
        r is None <==> b == 0,
{
    if b == 0 {
        None
    } else {
        Some(a / b)
    }
}

/// Divides `a` by `b` and unwraps the result; a zero divisor is treated as a
/// caller error, so it is excluded here, and an unverified caller that passes
/// one anyway aborts at the unwrap exactly as the quotient is demanded.
pub fn divide_with_no_remorse(a: i32, b: i32) -> (r: i32)
    requires
        b != 0,
        !(a == i32::MIN && b == -1),
    ensures
        Some(r) == spec_divide(a, b),
{
    divide_safely(a, b).unwrap()
}

} // verus!
