//! Magnitude prefixes: which unit a byte count is shown in, and the count
//! scaled to that unit.

use vstd::prelude::*;
use vstd::arithmetic::power2::{lemma2_to64, pow2};
use crate::binary64::{
    binary64_of, binary64_of_u64, binary64_quotient, pow2_u128, quotient_mantissa, quotient_shift,
    Dyadic,
};
use crate::rounding::{fixed_text, lemma_pow10_bounds, pow10, push_fixed};
use crate::text::lemma_concat_contains;

verus! {

pub const KILO_LIMIT: u64 = 1_000;

pub const MEGA_LIMIT: u64 = 1_000_000;

pub const GIGA_LIMIT: u64 = 1_000_000_000;

pub const TERA_LIMIT: u64 = 1_000_000_000_000;

pub const KIBI_LIMIT: u64 = 1_024;

pub const MEBI_LIMIT: u64 = 1_048_576;

pub const GIBI_LIMIT: u64 = 1_073_741_824;

pub const TEBI_LIMIT: u64 = 1_099_511_627_776;

/// The rank of the binary unit that `v` is shown in: 0 for the bare unit, 1 for
/// kibi, 2 for mebi, 3 for gibi, 4 for tebi.
pub open spec fn binary_rank(v: nat) -> nat {
    if v < 1_024 {
        0
    } else if v < 1_048_576 {
        1
    } else if v < 1_073_741_824 {
        2
    } else if v < 1_099_511_627_776 {
        3
    } else {
        4
    }
}

/// The rank of the decimal unit that `v` is shown in: 0 for the bare unit, 1
/// for kilo, 2 for mega, 3 for giga, 4 for tera.
pub open spec fn decimal_rank(v: nat) -> nat {
    if v < 1_000 {
        0
    } else if v < 1_000_000 {
        1
    } else if v < 1_000_000_000 {
        2
    } else if v < 1_000_000_000_000 {
        3
    } else {
        4
    }
}

/// The prefix of the binary unit of a rank.
pub open spec fn binary_prefix_text(rank: nat) -> Seq<char> {
    if rank == 0 {
        ""@
    } else if rank == 1 {
        "Ki"@
    } else if rank == 2 {
        "Mi"@
    } else if rank == 3 {
        "Gi"@
    } else {
        "Ti"@
    }
}

/// The prefix of the decimal unit of a rank.
pub open spec fn decimal_prefix_text(rank: nat) -> Seq<char> {
    if rank == 0 {
        ""@
    } else if rank == 1 {
        "K"@
    } else if rank == 2 {
        "M"@
    } else if rank == 3 {
        "G"@
    } else {
        "T"@
    }
}

/// The divisor of the decimal unit of a rank: a thousand to the power `rank`.
pub open spec fn decimal_divisor(rank: nat) -> nat {
    if rank == 0 {
        1
    } else if rank == 1 {
        1_000
    } else if rank == 2 {
        1_000_000
    } else if rank == 3 {
        1_000_000_000
    } else {
        1_000_000_000_000
    }
}

/// The numerator and the denominator of `v` scaled to its binary unit: the
/// count as binary64 stores it, over 1024 to the power of the unit's rank.
pub open spec fn binary_scaled(v: nat) -> (nat, nat) {
    (binary64_of(v), pow2(10 * binary_rank(v)))
}

/// The numerator and the denominator of `v` scaled to its decimal unit: below
/// a thousand the count itself, else the binary64 quotient of the stored count
/// by the unit's divisor.
pub open spec fn decimal_scaled(v: nat) -> (nat, nat) {
    let rank = decimal_rank(v);
    if rank == 0 {
        (v, 1)
    } else {
        let stored = binary64_of(v);
        let divisor = decimal_divisor(rank);
        (quotient_mantissa(stored, divisor), pow2(quotient_shift(stored, divisor)))
    }
}

/// The name of a unit holds no decimal point: neither a prefix nor the `B` of
/// bytes.
pub proof fn lemma_unit_texts_have_no_point(rank: nat)
    ensures
        !(binary_prefix_text(rank) + "B"@).contains('.'),
        !(decimal_prefix_text(rank) + "B"@).contains('.'),
        !"/s"@.contains('.'),
{
    reveal_strlit("");
    reveal_strlit("Ki");
    reveal_strlit("Mi");
    reveal_strlit("Gi");
    reveal_strlit("Ti");
    reveal_strlit("K");
    reveal_strlit("M");
    reveal_strlit("G");
    reveal_strlit("T");
    reveal_strlit("B");
    reveal_strlit("/s");
    lemma_concat_contains(binary_prefix_text(rank), "B"@, '.');
    lemma_concat_contains(decimal_prefix_text(rank), "B"@, '.');
    let binary = binary_prefix_text(rank);
    let decimal = decimal_prefix_text(rank);
    assert(forall|i: int| 0 <= i < binary.len() ==> binary[i] != '.');
    assert(forall|i: int| 0 <= i < decimal.len() ==> decimal[i] != '.');
    assert(forall|i: int| 0 <= i < "B"@.len() ==> "B"@[i] != '.');
    assert(forall|i: int| 0 <= i < "/s"@.len() ==> "/s"@[i] != '.');
}

/// The text of a scaled value, a numerator over a denominator, written with
/// `decimals` decimal places.
pub open spec fn scaled_text(scaled: (nat, nat), decimals: nat) -> Seq<char> {
    fixed_text(scaled.0, scaled.1, decimals)
}

/// Appends to `out` the dyadic rational `value` written with `decimals`
/// decimal places, rounded half-to-even.
pub fn push_dyadic(out: &mut String, value: Dyadic, decimals: u32)
    requires
        value.shift <= 127,
        decimals <= 38,
        value.mantissa * pow10(decimals as nat) <= u128::MAX,
    ensures
        final(out)@ == old(out)@ + fixed_text(value.num(), value.den(), decimals as nat),
{
    let den: u128 = pow2_u128(value.shift);
    push_fixed(out, value.mantissa, den, decimals);
}

/// Appends to `out` a scaled count written with at most one decimal place.
pub(crate) fn push_scaled(out: &mut String, value: Dyadic, decimals: u32)
    requires
        value.shift <= 52,
        value.mantissa < 0x20000000000000000,
        decimals <= 1,
    ensures
        final(out)@ == old(out)@ + fixed_text(value.num(), value.den(), decimals as nat),
{
    proof {
        lemma_pow10_bounds(decimals as nat, 1);
        assert(value.mantissa * pow10(decimals as nat) <= u128::MAX) by (nonlinear_arith)
            requires
                value.mantissa < 0x20000000000000000,
                pow10(decimals as nat) <= 10,
        ;
    }
    push_dyadic(out, value, decimals);
}

/// Scales a quantity to its binary unit. Returns the scaled value and the
/// unit's name: `unit` behind the prefix of the rank.
pub fn get_binary_prefix(quantity: u64, unit: &str) -> (res: (Dyadic, String))
    ensures
        (res.0.num(), res.0.den()) == binary_scaled(quantity as nat),
        res.0.shift <= 40,
        res.0.mantissa < 0x20000000000000000,
        res.1@ == binary_prefix_text(binary_rank(quantity as nat)) + unit@,
{
    let stored: u128 = binary64_of_u64(quantity);
    let (shift, prefix): (u32, &str) = if quantity < KIBI_LIMIT {
        (0, "")
    } else if quantity < MEBI_LIMIT {
        (10, "Ki")
    } else if quantity < GIBI_LIMIT {
        (20, "Mi")
    } else if quantity < TEBI_LIMIT {
        (30, "Gi")
    } else {
        (40, "Ti")
    };
    let mut name: String = String::new();
    name.append(prefix);
    name.append(unit);
    proof {
        assert(name@ =~= binary_prefix_text(binary_rank(quantity as nat)) + unit@);
    }
    (Dyadic { mantissa: stored, shift }, name)
}

/// Scales a count of bytes to its binary unit.
pub fn get_binary_bytes(bytes: u64) -> (res: (Dyadic, String))
    ensures
        (res.0.num(), res.0.den()) == binary_scaled(bytes as nat),
        res.0.shift <= 40,
        res.0.mantissa < 0x20000000000000000,
        res.1@ == binary_prefix_text(binary_rank(bytes as nat)) + "B"@,
{
    get_binary_prefix(bytes, "B")
}

/// Scales a quantity to its decimal unit. Returns the scaled value and the
/// unit's name: `unit` behind the prefix of the rank.
pub fn get_decimal_prefix(quantity: u64, unit: &str) -> (res: (Dyadic, String))
    ensures
        (res.0.num(), res.0.den()) == decimal_scaled(quantity as nat),
        res.0.shift <= 52,
        res.0.mantissa <= 0x20000000000000,
        res.1@ == decimal_prefix_text(decimal_rank(quantity as nat)) + unit@,
{
    proof {
        lemma2_to64();
    }
    let (scaled, prefix): (Dyadic, &str) = if quantity < KILO_LIMIT {
        (Dyadic { mantissa: quantity as u128, shift: 0 }, "")
    } else {
        let stored: u128 = binary64_of_u64(quantity);
        if quantity < MEGA_LIMIT {
            (binary64_quotient(stored, KILO_LIMIT), "K")
        } else if quantity < GIGA_LIMIT {
            (binary64_quotient(stored, MEGA_LIMIT), "M")
        } else if quantity < TERA_LIMIT {
            (binary64_quotient(stored, GIGA_LIMIT), "G")
        } else {
            (binary64_quotient(stored, TERA_LIMIT), "T")
        }
    };
    let mut name: String = String::new();
    name.append(prefix);
    name.append(unit);
    proof {
        assert(name@ =~= decimal_prefix_text(decimal_rank(quantity as nat)) + unit@);
    }
    (scaled, name)
}

/// Scales a count of bytes to its decimal unit.
pub fn get_decimal_bytes(bytes: u64) -> (res: (Dyadic, String))
    ensures
        (res.0.num(), res.0.den()) == decimal_scaled(bytes as nat),
        res.0.shift <= 52,
        res.0.mantissa <= 0x20000000000000,
        res.1@ == decimal_prefix_text(decimal_rank(bytes as nat)) + "B"@,
{
    get_decimal_prefix(bytes, "B")
}

} // verus!
