//! Rounding of non-negative fractions to the nearest whole number.

use vstd::prelude::*;
use vstd::arithmetic::div_mod::{lemma_fundamental_div_mod, lemma_fundamental_div_mod_converse_div};

verus! {

/// The whole number nearest to `num / den`, a half going up.
///
/// For the non-negative fractions this library works with, "up" is away from zero.
pub open spec fn round_half_up(num: int, den: int) -> int
    recommends
        num >= 0,
        den > 0,
{
    (2 * num + den) / (2 * den)
}

/// `round_half_up(num, den)` lies within a half of `num / den`:
/// `num / den - 1/2 < r <= num / den + 1/2`, written without fractions.
pub proof fn lemma_round_half_up_bounds(num: int, den: int)
    requires
        num >= 0,
        den > 0,
    ensures
        round_half_up(num, den) >= 0,
        2 * den * round_half_up(num, den) <= 2 * num + den,
        2 * num + den < 2 * den * round_half_up(num, den) + 2 * den,
{
    let r = round_half_up(num, den);
    lemma_fundamental_div_mod(2 * num + den, 2 * den);
    assert(2 * num + den == (2 * den) * r + (2 * num + den) % (2 * den));
    assert(r >= 0) by (nonlinear_arith)
        requires
            2 * num + den >= 0,
            den > 0,
            r == (2 * num + den) / (2 * den),
    ;
}

/// Only one whole number lies within a half of `num / den` in the sense of
/// [`lemma_round_half_up_bounds`], so any `r` that does is the rounded value.
pub proof fn lemma_round_half_up_unique(num: int, den: int, r: int)
    requires
        den > 0,
        2 * den * r <= 2 * num + den,
        2 * num + den < 2 * den * r + 2 * den,
    ensures
        r == round_half_up(num, den),
{
    let rem = 2 * num + den - 2 * den * r;
    assert(2 * num + den == r * (2 * den) + rem) by (nonlinear_arith)
        requires
            rem == 2 * num + den - 2 * den * r,
    ;
    lemma_fundamental_div_mod_converse_div(2 * num + den, 2 * den, r, rem);
}

/// A larger fraction never rounds to a smaller number.
pub proof fn lemma_round_half_up_monotonic(num1: int, num2: int, den: int)
    requires
        0 <= num1 <= num2,
        den > 0,
    ensures
        round_half_up(num1, den) <= round_half_up(num2, den),
{
    let r1 = round_half_up(num1, den);
    let r2 = round_half_up(num2, den);
    lemma_round_half_up_bounds(num1, den);
    lemma_round_half_up_bounds(num2, den);
    assert(r1 <= r2) by (nonlinear_arith)
        requires
            den > 0,
            2 * den * r1 <= 2 * num1 + den,
            num1 <= num2,
            2 * num2 + den < 2 * den * r2 + 2 * den,
    ;
}

/// Rounds `value` to whole `unit`s and gives their number: the whole number
/// nearest to `value / unit`, a half going up.
pub fn round_to(value: u128, unit: u128) -> (r: u128)
    requires
        unit > 0,
    ensures
        r == round_half_up(value as int, unit as int),
{
    let num = value;
    let den = unit;
    let quotient: u128 = num / den;
    let remainder: u128 = num % den;
    proof {
        lemma_fundamental_div_mod(num as int, den as int);
        assert(quotient * den <= num) by (nonlinear_arith)
            requires
                num == den * quotient + remainder,
                remainder >= 0,
        ;
    }
    if remainder >= den - remainder {
        proof {
            assert(quotient + 1 <= u128::MAX) by (nonlinear_arith)
                requires
                    num == den * quotient + remainder,
                    2 * remainder >= den,
                    den > 0,
                    quotient >= 0,
                    num <= u128::MAX,
            ;
            assert(2 * den * (quotient + 1) <= 2 * num + den && 2 * num + den < 2 * den * (quotient
                + 1) + 2 * den) by (nonlinear_arith)
                requires
                    num == den * quotient + remainder,
                    2 * remainder >= den,
                    remainder < den,
            ;
            lemma_round_half_up_unique(num as int, den as int, quotient + 1);
        }
        quotient + 1
    } else {
        proof {
            assert(2 * den * quotient <= 2 * num + den && 2 * num + den < 2 * den * quotient + 2
                * den) by (nonlinear_arith)
                requires
                    num == den * quotient + remainder,
                    2 * remainder < den,
                    remainder >= 0,
            ;
            lemma_round_half_up_unique(num as int, den as int, quotient as int);
        }
        quotient
    }
}

} // verus!
