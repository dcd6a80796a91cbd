//! Readings that the labels print.
//!
//! Such a reading is a dyadic rational with a sign, `mantissa / 2^shift`: the
//! numbers that binary floating point holds are of this form, so a host that
//! measures in floating point hands its readings over without loss.

use vstd::prelude::*;
use vstd::arithmetic::power2::{lemma_pow2_strictly_increases, pow2};
use crate::binary64::{lemma_pow2_127, pow2_u128};
use crate::rounding::{fixed_text, lemma_pow10_bounds, pow10, push_fixed, round_half_even};

verus! {

/// A reading: `mantissa / 2^shift`, below zero where `negative` is set.
#[derive(Clone, Copy, Debug, PartialEq, Eq, Structural)]
pub struct Reading {
    pub negative: bool,
    pub mantissa: u64,
    pub shift: u8,
}

/// The text of a reading written with `decimals` decimal places, rounded
/// half-to-even: a minus sign where the reading is negative, then the rounded
/// magnitude. A negative reading that rounds to zero keeps its sign.
pub open spec fn reading_fixed_text(reading: Reading, decimals: nat) -> Seq<char> {
    let digits = fixed_text(reading.mantissa as nat, pow2(reading.shift as nat), decimals);
    if reading.negative {
        seq!['-'] + digits
    } else {
        digits
    }
}

/// The least whole number that is not below the reading, and zero for a
/// negative reading.
pub open spec fn reading_ceil(reading: Reading) -> nat {
    if reading.negative {
        0
    } else {
        ((reading.mantissa + pow2(reading.shift as nat) - 1) / (pow2(
            reading.shift as nat,
        ) as int)) as nat
    }
}

/// A magnitude whose denominator is beyond 2^127 is less than half of
/// `10^-decimals`, and so rounds to zero.
proof fn lemma_tiny_rounds_to_zero(mantissa: nat, shift: nat, decimals: nat)
    requires
        mantissa <= u64::MAX,
        shift > 127,
        decimals <= 16,
    ensures
        round_half_even(mantissa * pow10(decimals), pow2(shift)) == 0,
        fixed_text(mantissa, pow2(shift), decimals) == fixed_text(0, 1, decimals),
        (mantissa + pow2(shift) - 1) / (pow2(shift) as int) == (if mantissa == 0 {
            0int
        } else {
            1int
        }),
{
    lemma_pow10_bounds(decimals, 16);
    lemma_pow2_127();
    lemma_pow2_strictly_increases(127, shift);
    let num = mantissa * pow10(decimals);
    let den = pow2(shift);
    assert(num <= u64::MAX * 10_000_000_000_000_000) by (nonlinear_arith)
        requires
            num == mantissa * pow10(decimals),
            mantissa <= u64::MAX,
            pow10(decimals) <= 10_000_000_000_000_000,
    ;
    assert(2 * num < den);
    vstd::arithmetic::div_mod::lemma_small_mod(num, den);
    vstd::arithmetic::div_mod::lemma_basic_div(num as int, den as int);
    assert(0 * pow10(decimals) == 0) by (nonlinear_arith);
    assert(round_half_even(0, 1) == 0);
    if mantissa == 0 {
        vstd::arithmetic::div_mod::lemma_basic_div((den - 1) as int, den as int);
    } else {
        let top = (mantissa + den - 1) as int;
        vstd::arithmetic::div_mod::lemma_fundamental_div_mod_converse(
            top,
            den as int,
            1,
            (mantissa - 1) as int,
        );
    }
}

impl Reading {
    /// Appends the reading to `out`, written with `decimals` decimal places:
    /// at most sixteen, which is as many as the digits have room for.
    pub fn push_fixed(&self, out: &mut String, decimals: u32)
        requires
            decimals <= 16,
        ensures
            final(out)@ == old(out)@ + reading_fixed_text(*self, decimals as nat),
    {
        if self.negative {
            out.push('-');
        }
        proof {
            lemma_pow10_bounds(decimals as nat, 16);
            assert(self.mantissa * pow10(decimals as nat) <= u128::MAX) by (nonlinear_arith)
                requires
                    self.mantissa <= u64::MAX,
                    pow10(decimals as nat) <= 10_000_000_000_000_000,
            ;
        }
        if self.shift <= 127 {
            let den: u128 = pow2_u128(self.shift as u32);
            push_fixed(out, self.mantissa as u128, den, decimals);
        } else {
            proof {
                lemma_tiny_rounds_to_zero(self.mantissa as nat, self.shift as nat, decimals as nat);
                assert(0 * pow10(decimals as nat) == 0) by (nonlinear_arith);
            }
            push_fixed(out, 0, 1, decimals);
        }
        proof {
            assert(final(out)@ =~= old(out)@ + reading_fixed_text(*self, decimals as nat));
        }
    }

    /// The reading rounded up to a whole number; zero for a negative reading.
    pub fn ceil_to_u64(&self) -> (whole: u64)
        ensures
            whole == reading_ceil(*self),
    {
        if self.negative {
            0
        } else if self.shift <= 127 {
            let den: u128 = pow2_u128(self.shift as u32);
            let top: u128 = (self.mantissa as u128) + den - 1;
            proof {
                assert(top / den <= u64::MAX) by (nonlinear_arith)
                    requires
                        top == self.mantissa + den - 1,
                        den >= 1,
                        self.mantissa <= u64::MAX,
                ;
            }
            (top / den) as u64
        } else {
            proof {
                lemma_tiny_rounds_to_zero(self.mantissa as nat, self.shift as nat, 0);
            }
            if self.mantissa == 0 {
                0
            } else {
                1
            }
        }
    }
}

} // verus!
