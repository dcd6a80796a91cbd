//! The labels of memory and swap: the share in use, and the amounts.

use vstd::prelude::*;
use vstd::arithmetic::power2::pow2;
use crate::binary64::{binary64_of, binary64_of_u64, Dyadic};
use crate::data_farmer::MemHarvest;
use crate::reading::{reading_fixed_text, Reading};
use crate::rounding::fixed_text;
use crate::text::{padded_left, push_padded_left};
use crate::units::{push_scaled, GIBI_LIMIT, KIBI_LIMIT, MEBI_LIMIT};

verus! {

/// The rank of the unit that an amount of memory is shown in, chosen by the
/// total in kibibytes: 0 for KiB, 1 for MiB, 2 for GiB, 3 for TiB.
pub open spec fn mem_unit_rank(mem_total_kib: nat) -> nat {
    if mem_total_kib < 1_024 {
        0
    } else if mem_total_kib < 1_048_576 {
        1
    } else if mem_total_kib < 1_073_741_824 {
        2
    } else {
        3
    }
}

/// The name of the memory unit of a rank.
pub open spec fn mem_unit_text(rank: nat) -> Seq<char> {
    if rank == 0 {
        "KiB"@
    } else if rank == 1 {
        "MiB"@
    } else if rank == 2 {
        "GiB"@
    } else {
        "TiB"@
    }
}

/// An amount of `kib` kibibytes in the unit of `rank`, with one decimal place:
/// the amount as binary64 stores it, over 1024 to the power `rank`.
pub open spec fn mem_amount_text(kib: nat, rank: nat) -> Seq<char> {
    fixed_text(binary64_of(kib), pow2(10 * rank), 1)
}

/// The share in use as the label shows it: in percent without decimal places,
/// right-aligned in three characters; zero where there is no reading.
pub open spec fn mem_percent_text(use_percent: Option<Reading>) -> Seq<char> {
    let percent = match use_percent {
        Some(percent) => percent,
        None => Reading { negative: false, mantissa: 0, shift: 0 },
    };
    padded_left(reading_fixed_text(percent, 0), 3) + "%"@
}

/// The amounts as the label shows them: three spaces, the amount used, a
/// slash, the total, and the unit once, behind the total. Both amounts are in
/// the unit that the total calls for.
pub open spec fn mem_absolute_text(harvest: MemHarvest) -> Seq<char> {
    let rank = mem_unit_rank(harvest.mem_total_in_kib as nat);
    "   "@ + mem_amount_text(harvest.mem_used_in_kib as nat, rank) + "/"@ + mem_amount_text(
        harvest.mem_total_in_kib as nat,
        rank,
    ) + mem_unit_text(rank)
}

/// The two texts of a memory label, and none where the total is zero.
pub open spec fn mem_label_of(harvest: MemHarvest) -> Option<(Seq<char>, Seq<char>)> {
    if harvest.mem_total_in_kib > 0 {
        Some((mem_percent_text(harvest.use_percent), mem_absolute_text(harvest)))
    } else {
        None
    }
}

/// The texts of a label.
pub open spec fn label_texts(label: Option<(String, String)>) -> Option<(Seq<char>, Seq<char>)> {
    match label {
        Some((percent, absolute)) => Some((percent@, absolute@)),
        None => None,
    }
}

/// Returns the unit type and the binary places of its denominator for a given
/// total amount of memory in kibibytes.
fn return_unit_and_denominator_for_mem_kib(mem_total_kib: u64) -> (res: (&'static str, u32))
    ensures
        res.0@ == mem_unit_text(mem_unit_rank(mem_total_kib as nat)),
        res.1 == 10 * mem_unit_rank(mem_total_kib as nat),
{
    if mem_total_kib < KIBI_LIMIT {
        ("KiB", 0)
    } else if mem_total_kib < MEBI_LIMIT {
        ("MiB", 10)
    } else if mem_total_kib < GIBI_LIMIT {
        ("GiB", 20)
    } else {
        ("TiB", 30)
    }
}

/// The label of memory or of swap.
pub fn mem_label(harvest: &MemHarvest) -> (label: Option<(String, String)>)
    ensures
        label_texts(label) == mem_label_of(*harvest),
{
    if harvest.mem_total_in_kib > 0 {
        let percent: Reading = match harvest.use_percent {
            Some(percent) => percent,
            None => Reading { negative: false, mantissa: 0, shift: 0 },
        };
        let mut number: String = String::new();
        percent.push_fixed(&mut number, 0);
        let mut percent_text: String = String::new();
        push_padded_left(&mut percent_text, number.as_str(), 3);
        percent_text.append("%");

        let (unit, places) = return_unit_and_denominator_for_mem_kib(harvest.mem_total_in_kib);
        let used = Dyadic { mantissa: binary64_of_u64(harvest.mem_used_in_kib), shift: places };
        let total = Dyadic { mantissa: binary64_of_u64(harvest.mem_total_in_kib), shift: places };
        let mut absolute_text: String = String::new();
        absolute_text.append("   ");
        push_scaled(&mut absolute_text, used, 1);
        absolute_text.append("/");
        push_scaled(&mut absolute_text, total, 1);
        absolute_text.append(unit);
        proof {
            assert(percent_text@ =~= mem_percent_text(harvest.use_percent));
            assert(absolute_text@ =~= mem_absolute_text(*harvest));
        }
        Some((percent_text, absolute_text))
    } else {
        None
    }
}

} // verus!
