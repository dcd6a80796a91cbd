//! Rounding of ratios to the nearest integer, ties to even, and the text of a
//! ratio written with a fixed number of decimal places.

use vstd::prelude::*;
use crate::text::{decimal_text, fixed_digits, push_decimal, push_fixed_digits};

verus! {

/// `num / den` rounded to the nearest natural number; a ratio that lies exactly
/// half way between two naturals goes to the even one.
pub open spec fn round_half_even(num: nat, den: nat) -> nat
    recommends
        den > 0,
{
    let q = num / den;
    let r = num % den;
    if 2 * r < den || (2 * r == den && q % 2 == 0) {
        q
    } else {
        q + 1
    }
}

/// Ten to the power `d`.
pub open spec fn pow10(d: nat) -> nat
    decreases d,
{
    if d == 0 {
        1
    } else {
        10 * pow10((d - 1) as nat)
    }
}

/// The text of `num / den` rounded half-to-even to `decimals` decimal places:
/// the whole part, then, where `decimals` is not zero, a point and exactly
/// `decimals` digits.
pub open spec fn fixed_text(num: nat, den: nat, decimals: nat) -> Seq<char>
    recommends
        den > 0,
{
    let scaled = round_half_even(num * pow10(decimals), den);
    let whole = decimal_text(scaled / pow10(decimals));
    if decimals == 0 {
        whole
    } else {
        whole + seq!['.'] + fixed_digits(scaled % pow10(decimals), decimals)
    }
}

/// Rounding half-to-even never moves a ratio by more than one half: twice the
/// distance between `num` and the rounded value times `den` is at most `den`.
pub proof fn lemma_round_half_even_nearest(num: nat, den: nat)
    requires
        den > 0,
    ensures
        2 * (round_half_even(num, den) * den - num) <= den,
        2 * (num - round_half_even(num, den) * den) <= den,
{
    let q = num / den;
    let r = num % den;
    assert(num == q * den + r && 0 <= r < den) by {
        vstd::arithmetic::div_mod::lemma_fundamental_div_mod(num as int, den as int);
        vstd::arithmetic::div_mod::lemma_mod_bound(num as int, den as int);
        assert(den * q == q * den) by (nonlinear_arith);
    }
    assert((q + 1) * den == q * den + den) by (nonlinear_arith);
}

/// `num / den` rounded to the nearest integer, ties to even.
pub fn round_half_even_u128(num: u128, den: u128) -> (rounded: u128)
    requires
        den > 0,
    ensures
        rounded == round_half_even(num as nat, den as nat),
{
    let q: u128 = num / den;
    let r: u128 = num % den;
    let rest: u128 = den - r;
    if r < rest || (r == rest && q % 2 == 0) {
        q
    } else {
        proof {
            assert(den >= 2);
            assert(num == q * den + r) by {
                vstd::arithmetic::div_mod::lemma_fundamental_div_mod(num as int, den as int);
                assert(den * q == q * den) by (nonlinear_arith);
            }
            assert(q < u128::MAX) by (nonlinear_arith)
                requires
                    num == q * den + r,
                    den >= 2,
                    r >= 1,
                    num <= u128::MAX,
            ;
        }
        q + 1
    }
}

/// The powers of ten grow with the exponent, and the largest that fits 128
/// bits is the one of 38.
pub proof fn lemma_pow10_bounds(d: nat, e: nat)
    requires
        d <= e,
    ensures
        1 <= pow10(d) <= pow10(e),
        pow10(0) == 1,
        pow10(1) == 10,
        pow10(2) == 100,
        pow10(16) == 10_000_000_000_000_000,
        pow10(38) == 100_000_000_000_000_000_000_000_000_000_000_000_000,
    decreases e,
{
    reveal_with_fuel(pow10, 3);
    assert(pow10(16) == 10_000_000_000_000_000) by {
        reveal_with_fuel(pow10, 17);
    }
    assert(pow10(38) == 100_000_000_000_000_000_000_000_000_000_000_000_000) by {
        reveal_with_fuel(pow10, 23);
        assert(pow10(22) == 10_000_000_000_000_000_000_000);
        assert(pow10(38) == 10_000_000_000_000_000 * pow10(22)) by {
            reveal_with_fuel(pow10, 17);
        }
    }
    if d < e {
        lemma_pow10_bounds(d, (e - 1) as nat);
    } else if d > 0 {
        lemma_pow10_bounds((d - 1) as nat, (e - 1) as nat);
    }
}

/// Ten to the power `d`.
pub fn pow10_u128(d: u32) -> (p: u128)
    requires
        d <= 38,
    ensures
        p == pow10(d as nat),
        p >= 1,
{
    let mut p: u128 = 1;
    let mut i: u32 = 0;
    while i < d
        invariant
            i <= d <= 38,
            p == pow10(i as nat),
            p >= 1,
        decreases d - i,
    {
        proof {
            lemma_pow10_bounds((i + 1) as nat, 38);
        }
        p = p * 10;
        i += 1;
    }
    p
}

/// Appends to `out` the text of `num / den` rounded half-to-even to `decimals`
/// decimal places.
pub fn push_fixed(out: &mut String, num: u128, den: u128, decimals: u32)
    requires
        den > 0,
        decimals <= 38,
        num * pow10(decimals as nat) <= u128::MAX,
    ensures
        final(out)@ == old(out)@ + fixed_text(num as nat, den as nat, decimals as nat),
{
    let p: u128 = pow10_u128(decimals);
    let scaled: u128 = round_half_even_u128(num * p, den);
    push_decimal(out, scaled / p);
    if decimals > 0 {
        out.push('.');
        push_fixed_digits(out, scaled % p, decimals);
    }
    proof {
        assert(final(out)@ =~= old(out)@ + fixed_text(num as nat, den as nat, decimals as nat));
    }
}

} // verus!
