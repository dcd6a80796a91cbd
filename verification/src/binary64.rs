//! Integer model of the binary64 floating-point results that the magnitude
//! labels are printed from.
//!
//! A byte count is scaled to its unit by one binary64 division of the count,
//! stored as a binary64 number, by the unit's divisor. Every such result is a
//! dyadic rational, a natural number over a power of two, and this module
//! computes it exactly with integers: the stored count is the count rounded to
//! 53 significant bits, and the quotient is the ratio rounded to 53 significant
//! bits, both to nearest with ties to even.

use vstd::prelude::*;
use vstd::arithmetic::power2::{
    lemma2_to64, lemma2_to64_rest, lemma_pow2_adds, lemma_pow2_pos,
    lemma_pow2_strictly_increases, lemma_pow2_unfold, pow2,
};
use crate::rounding::{lemma_round_half_even_nearest, round_half_even, round_half_even_u128};

verus! {

/// A dyadic rational: `mantissa / 2^shift`.
#[derive(Clone, Copy, Debug, PartialEq, Eq, Structural)]
pub struct Dyadic {
    pub mantissa: u128,
    pub shift: u32,
}

impl Dyadic {
    /// The numerator of the rational.
    pub open spec fn num(self) -> nat {
        self.mantissa as nat
    }

    /// The denominator of the rational, a power of two.
    pub open spec fn den(self) -> nat {
        pow2(self.shift as nat)
    }
}

/// How often `n` must be halved, rounding down, to come below `bound`.
pub open spec fn halvings(n: nat, bound: nat) -> nat
    decreases n,
{
    if n < bound || n == 0 {
        0
    } else {
        1 + halvings(n / 2, bound)
    }
}

/// How often `a` must be doubled to reach `target`.
pub open spec fn doublings(a: nat, target: nat) -> nat
    decreases (if a < target {
        target - a
    } else {
        0
    }),
{
    if a == 0 || a >= target {
        0
    } else {
        1 + doublings(2 * a, target)
    }
}

/// The value that the natural number `n` has once it is stored as a binary64
/// number: `n` itself while it has at most 53 significant bits, else `n`
/// rounded to its 53 leading bits, ties to even.
pub open spec fn binary64_of(n: nat) -> nat {
    let dropped = halvings(n, pow2(53));
    round_half_even(n, pow2(dropped)) * pow2(dropped)
}

/// The number of binary places of the binary64 quotient of `a` by `b`, for
/// `b <= a`: the shift that brings `a / b` into the range of a 53-bit
/// significand.
pub open spec fn quotient_shift(a: nat, b: nat) -> nat {
    doublings(a, b * pow2(52))
}

/// The significand of the binary64 quotient of `a` by `b`, for `b <= a`: the
/// quotient is `quotient_mantissa(a, b) / 2^quotient_shift(a, b)`, the dyadic
/// rational with a 53-bit significand that is nearest to `a / b`, ties to even.
pub open spec fn quotient_mantissa(a: nat, b: nat) -> nat {
    round_half_even(a * pow2(quotient_shift(a, b)), b)
}

/// The stored value of `n` is `n` itself below 2^53, and never further from
/// `n` than half of the place value of its last kept bit.
pub proof fn lemma_binary64_of_nearest(n: nat)
    ensures
        n < pow2(53) ==> binary64_of(n) == n,
        2 * (binary64_of(n) - n) <= pow2(halvings(n, pow2(53))),
        2 * (n - binary64_of(n)) <= pow2(halvings(n, pow2(53))),
{
    let dropped = halvings(n, pow2(53));
    lemma_pow2_pos(dropped);
    lemma_round_half_even_nearest(n, pow2(dropped));
    if n < pow2(53) {
        assert(dropped == 0);
        lemma2_to64();
    }
}

/// The binary64 quotient of `a` by `b` is never further from `a / b` than half
/// of the place value of its last bit: with `m` the significand and `s` the
/// shift, `m / 2^s` differs from `a / b` by at most `1 / 2^(s + 1)`.
pub proof fn lemma_quotient_nearest(a: nat, b: nat)
    requires
        b > 0,
    ensures
        2 * (quotient_mantissa(a, b) * b - a * pow2(quotient_shift(a, b))) <= b,
        2 * (a * pow2(quotient_shift(a, b)) - quotient_mantissa(a, b) * b) <= b,
{
    lemma_round_half_even_nearest(a * pow2(quotient_shift(a, b)), b);
}

/// Two to the power 127, the largest power of two that fits 128 bits.
pub proof fn lemma_pow2_127()
    ensures
        pow2(127) == 0x80000000000000000000000000000000,
{
    lemma2_to64();
    lemma2_to64_rest();
    lemma_pow2_adds(64, 63);
    assert(0x10000000000000000 * 0x8000000000000000 == 0x80000000000000000000000000000000)
        by (nonlinear_arith);
}

/// Two to the power `k`.
pub fn pow2_u128(k: u32) -> (p: u128)
    requires
        k <= 127,
    ensures
        p == pow2(k as nat),
        1 <= p <= 0x80000000000000000000000000000000,
{
    let mut p: u128 = 1;
    let mut i: u32 = 0;
    proof {
        lemma2_to64();
        lemma_pow2_127();
    }
    while i < k
        invariant
            i <= k <= 127,
            p == pow2(i as nat),
            1 <= p <= 0x80000000000000000000000000000000,
            pow2(127) == 0x80000000000000000000000000000000,
        decreases k - i,
    {
        proof {
            lemma_pow2_unfold((i + 1) as nat);
            if i + 1 < 127 {
                lemma_pow2_strictly_increases((i + 1) as nat, 127);
            }
        }
        p = p * 2;
        i += 1;
    }
    p
}

/// The value of `n` stored as a binary64 number.
pub fn binary64_of_u64(n: u64) -> (stored: u128)
    ensures
        stored == binary64_of(n as nat),
        n - 2048 <= stored <= n + 2048,
        n < 0x20000000000000 ==> stored == n,
{
    let mut x: u64 = n;
    let mut dropped: u32 = 0;
    let mut unit: u128 = 1;
    proof {
        lemma2_to64();
        lemma2_to64_rest();
    }
    while x >= 0x20000000000000
        invariant
            pow2(53) == 0x20000000000000,
            pow2(11) == 2048,
            unit == pow2(dropped as nat),
            1 <= unit <= 4096,
            x * unit <= n,
            halvings(n as nat, pow2(53)) == dropped + halvings(x as nat, pow2(53)),
        decreases x,
    {
        proof {
            assert(unit < 2048) by (nonlinear_arith)
                requires
                    x >= 0x20000000000000,
                    x * unit <= n,
                    n < 0x10000000000000000,
            ;
            assert(dropped < 11) by {
                if dropped > 11 {
                    lemma_pow2_strictly_increases(11, dropped as nat);
                }
            }
            lemma_pow2_unfold((dropped + 1) as nat);
            assert((x / 2) * (unit * 2) <= x * unit) by (nonlinear_arith)
                requires
                    x >= 0,
                    unit >= 0,
            ;
        }
        x = x / 2;
        unit = unit * 2;
        dropped += 1;
    }
    let rounded: u128 = round_half_even_u128(n as u128, unit);
    proof {
        lemma_round_half_even_nearest(n as nat, unit as nat);
        if n < 0x20000000000000 {
            assert(dropped == 0);
            assert(pow2(0) == 1);
        }
    }
    rounded * unit
}

/// The binary64 quotient of `a` by `b`, where `a` holds a value stored as
/// binary64 and the true quotient is at least one and below 2^53.
pub(crate) fn binary64_quotient(a: u128, b: u64) -> (q: Dyadic)
    requires
        0 < b <= a,
        a < b * 0x20000000000000,
    ensures
        q.shift == quotient_shift(a as nat, b as nat),
        q.mantissa == quotient_mantissa(a as nat, b as nat),
        q.shift <= 52,
        q.mantissa <= 0x20000000000000,
{
    proof {
        lemma2_to64();
        lemma2_to64_rest();
    }
    let target: u128 = (b as u128) * 0x10000000000000;
    let mut x: u128 = a;
    let mut shift: u32 = 0;
    while x < target
        invariant
            pow2(52) == 0x10000000000000,
            target == b * pow2(52),
            0 < b,
            shift <= 52,
            x == a * pow2(shift as nat),
            x >= b * pow2(shift as nat),
            x >= 1,
            x < 2 * target,
            doublings(a as nat, target as nat) == shift + doublings(x as nat, target as nat),
        decreases
                (if x < target {
                    target - x
                } else {
                    0
                }),
    {
        proof {
            lemma_pow2_unfold((shift + 1) as nat);
            assert(shift < 52) by {
                if shift >= 52 {
                    if shift > 52 {
                        lemma_pow2_strictly_increases(52, shift as nat);
                    }
                    assert(b * pow2(shift as nat) >= b * pow2(52)) by (nonlinear_arith)
                        requires
                            pow2(shift as nat) >= pow2(52),
                            b > 0,
                    ;
                }
            }
            let unit = pow2(shift as nat);
            assert(2 * (a * unit) == a * (2 * unit)) by (nonlinear_arith);
            assert(2 * (b * unit) == b * (2 * unit)) by (nonlinear_arith);
        }
        x = x * 2;
        shift += 1;
    }
    let mantissa: u128 = round_half_even_u128(x, b as u128);
    proof {
        lemma_round_half_even_nearest(x as nat, b as nat);
        assert(mantissa <= 0x20000000000000) by (nonlinear_arith)
            requires
                2 * (mantissa * b - x) <= b,
                x < 2 * (b * 0x10000000000000),
                b >= 1,
        ;
    }
    Dyadic { mantissa, shift }
}

} // verus!
