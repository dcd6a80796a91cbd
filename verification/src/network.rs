//! The network widget: how rates are scaled for the graph, and the texts of
//! rates and totals.

use vstd::prelude::*;
use crate::binary64::Dyadic;
use crate::data_farmer::{AxisScaling, DataUnit, NetworkHarvest};
use crate::rounding::fixed_text;
use crate::series::Point;
use crate::text::{padded_right, push_padded_right};
use crate::units::{
    binary_prefix_text, binary_rank, binary_scaled, decimal_prefix_text, decimal_rank,
    decimal_scaled, get_binary_prefix, get_decimal_prefix, push_scaled, scaled_text,
};

verus! {

/// How a rate in bits per second becomes the value that the network graph
/// draws. The arithmetic is the host's, in the type it measures in.
#[derive(Clone, Copy, Debug, PartialEq, Eq, Structural)]
pub enum NetworkScaling {
    /// The rate divided by `divisor`.
    Linear { divisor: u8 },
    /// The logarithm to base two of the rate, less `subtrahend`.
    Log2 { subtrahend: u8 },
    /// The logarithm to base ten of the rate divided by `divisor`.
    Log10 { divisor: u8 },
}

/// The scaling of the network graph. Rates are counted in bits, so bytes take
/// a division by eight, which on the binary logarithmic axis is a subtraction
/// of three.
pub open spec fn network_scaling_of(
    network_scale_type: AxisScaling,
    network_unit_type: DataUnit,
    network_use_binary_prefix: bool,
) -> NetworkScaling {
    match network_scale_type {
        AxisScaling::Log => if network_use_binary_prefix {
            match network_unit_type {
                DataUnit::Byte => NetworkScaling::Log2 { subtrahend: 3 },
                DataUnit::Bit => NetworkScaling::Log2 { subtrahend: 0 },
            }
        } else {
            match network_unit_type {
                DataUnit::Byte => NetworkScaling::Log10 { divisor: 8 },
                DataUnit::Bit => NetworkScaling::Log10 { divisor: 1 },
            }
        },
        AxisScaling::Linear => match network_unit_type {
            DataUnit::Byte => NetworkScaling::Linear { divisor: 8 },
            DataUnit::Bit => NetworkScaling::Linear { divisor: 1 },
        },
    }
}

/// The scaling of the network graph.
pub fn network_scaling(
    network_scale_type: &AxisScaling,
    network_unit_type: &DataUnit,
    network_use_binary_prefix: bool,
) -> (scaling: NetworkScaling)
    ensures
        scaling == network_scaling_of(
            *network_scale_type,
            *network_unit_type,
            network_use_binary_prefix,
        ),
{
    match network_scale_type {
        AxisScaling::Log => {
            if network_use_binary_prefix {
                match network_unit_type {
                    DataUnit::Byte => NetworkScaling::Log2 { subtrahend: 3 },
                    DataUnit::Bit => NetworkScaling::Log2 { subtrahend: 0 },
                }
            } else {
                match network_unit_type {
                    DataUnit::Byte => NetworkScaling::Log10 { divisor: 8 },
                    DataUnit::Bit => NetworkScaling::Log10 { divisor: 1 },
                }
            }
        },
        AxisScaling::Linear => match network_unit_type {
            DataUnit::Byte => NetworkScaling::Linear { divisor: 8 },
            DataUnit::Bit => NetworkScaling::Linear { divisor: 1 },
        },
    }
}

/// Whether `scaled` is `raw` with every reading put through `apply` under
/// `scaling`, the times kept.
pub open spec fn is_scaled_series<V, F: Fn(NetworkScaling, V) -> V>(
    scaled: Seq<Point<V>>,
    raw: Seq<Point<V>>,
    scaling: NetworkScaling,
    apply: &F,
) -> bool {
    &&& scaled.len() == raw.len()
    &&& forall|i: int|
        0 <= i < raw.len() ==> (#[trigger] scaled[i]).0 == raw[i].0 && call_ensures(
            *apply,
            (scaling, raw[i].1),
            scaled[i].1,
        )
}

/// `raw` with every reading put through `apply` under `scaling`.
pub fn scale_series<V: Copy, F: Fn(NetworkScaling, V) -> V>(
    raw: &Vec<Point<V>>,
    scaling: NetworkScaling,
    apply: &F,
) -> (scaled: Vec<Point<V>>)
    requires
        forall|value: V| call_requires(*apply, (scaling, value)),
    ensures
        is_scaled_series(scaled@, raw@, scaling, apply),
{
    let mut scaled: Vec<Point<V>> = Vec::new();
    let mut i: usize = 0;
    while i < raw.len()
        invariant
            i <= raw.len(),
            forall|value: V| call_requires(*apply, (scaling, value)),
            is_scaled_series(scaled@, raw@.take(i as int), scaling, apply),
        decreases raw.len() - i,
    {
        let point = raw[i];
        let value: V = apply(scaling, point.1);
        scaled.push((point.0, value));
        i += 1;
    }
    proof {
        assert(raw@.take(raw.len() as int) =~= raw@);
    }
    scaled
}

/// The unit of a rate.
pub open spec fn rate_unit_text(network_unit_type: DataUnit) -> Seq<char> {
    match network_unit_type {
        DataUnit::Byte => "B/s"@,
        DataUnit::Bit => "b/s"@,
    }
}

/// A rate counted in bits, in the unit that rates are shown in.
pub open spec fn shown_rate(bits: nat, network_unit_type: DataUnit) -> nat {
    match network_unit_type {
        DataUnit::Byte => bits / 8,
        DataUnit::Bit => bits,
    }
}

/// `quantity` scaled to its unit, binary or decimal, and written with one
/// decimal place.
pub open spec fn prefixed_value_text(quantity: nat, binary: bool) -> Seq<char> {
    if binary {
        scaled_text(binary_scaled(quantity), 1)
    } else {
        scaled_text(decimal_scaled(quantity), 1)
    }
}

/// The name of the unit that `quantity` is scaled to: `unit` behind the prefix.
pub open spec fn prefixed_unit_text(quantity: nat, unit: Seq<char>, binary: bool) -> Seq<char> {
    if binary {
        binary_prefix_text(binary_rank(quantity)) + unit
    } else {
        decimal_prefix_text(decimal_rank(quantity)) + unit
    }
}

/// A quantity as one field of the layout with four fields: the scaled value
/// with one decimal place, and the unit.
pub open spec fn field_text(quantity: nat, unit: Seq<char>, binary: bool) -> Seq<char> {
    prefixed_value_text(quantity, binary) + prefixed_unit_text(quantity, unit, binary)
}

/// A quantity inside a combined line: the scaled value with one decimal place,
/// and the unit padded to three characters with binary prefixes, to two with
/// decimal ones.
pub open spec fn padded_field_text(quantity: nat, unit: Seq<char>, binary: bool) -> Seq<char> {
    prefixed_value_text(quantity, binary) + padded_right(
        prefixed_unit_text(quantity, unit, binary),
        if binary {
            3
        } else {
            2
        },
    )
}

/// The combined line of one direction: the rate, padded to ten characters, and
/// the total.
pub open spec fn combined_line_text(
    direction: Seq<char>,
    rate: nat,
    rate_unit: Seq<char>,
    total_bytes: nat,
    binary: bool,
) -> Seq<char> {
    direction + ": "@ + padded_right(padded_field_text(rate, rate_unit, binary), 10) + "  All: "@
        + padded_field_text(total_bytes, "B"@, binary)
}

/// Scales `quantity` to its unit, binary or decimal.
fn get_prefix(quantity: u64, unit: &str, binary: bool) -> (res: (Dyadic, String))
    ensures
        fixed_text(res.0.num(), res.0.den(), 1) == prefixed_value_text(quantity as nat, binary),
        res.1@ == prefixed_unit_text(quantity as nat, unit@, binary),
        res.0.shift <= 52,
        res.0.mantissa < 0x20000000000000000,
{
    if binary {
        get_binary_prefix(quantity, unit)
    } else {
        get_decimal_prefix(quantity, unit)
    }
}

/// A quantity as one field of the layout with four fields.
pub fn field_string(quantity: u64, unit: &str, binary: bool) -> (text: String)
    ensures
        text@ == field_text(quantity as nat, unit@, binary),
{
    let converted = get_prefix(quantity, unit, binary);
    let mut text: String = String::new();
    push_scaled(&mut text, converted.0, 1);
    text.append(converted.1.as_str());
    proof {
        assert(text@ =~= field_text(quantity as nat, unit@, binary));
    }
    text
}

/// A quantity inside a combined line.
fn padded_field_string(quantity: u64, unit: &str, binary: bool) -> (text: String)
    ensures
        text@ == padded_field_text(quantity as nat, unit@, binary),
{
    let converted = get_prefix(quantity, unit, binary);
    let mut text: String = String::new();
    push_scaled(&mut text, converted.0, 1);
    if binary {
        push_padded_right(&mut text, converted.1.as_str(), 3);
    } else {
        push_padded_right(&mut text, converted.1.as_str(), 2);
    }
    proof {
        assert(text@ =~= padded_field_text(quantity as nat, unit@, binary));
    }
    text
}

/// The combined line of one direction.
pub fn combined_line_string(
    direction: &str,
    rate: u64,
    rate_unit: &str,
    total_bytes: u64,
    binary: bool,
) -> (text: String)
    ensures
        text@ == combined_line_text(
            direction@,
            rate as nat,
            rate_unit@,
            total_bytes as nat,
            binary,
        ),
{
    let rate_field = padded_field_string(rate, rate_unit, binary);
    let total_field = padded_field_string(total_bytes, "B", binary);
    let mut text: String = String::new();
    text.append(direction);
    text.append(": ");
    push_padded_right(&mut text, rate_field.as_str(), 10);
    text.append("  All: ");
    text.append(total_field.as_str());
    proof {
        assert(text@ =~= combined_line_text(
            direction@,
            rate as nat,
            rate_unit@,
            total_bytes as nat,
            binary,
        ));
    }
    text
}

/// The texts of the network widget for the latest counters. With
/// `need_four_points` the rates and the totals are four fields; without, there
/// are two combined lines and no totals of their own. The totals are always
/// shown in bytes.
pub open spec fn network_texts_of(
    harvest: NetworkHarvest,
    need_four_points: bool,
    network_unit_type: DataUnit,
    binary: bool,
) -> (Seq<char>, Seq<char>, Option<Seq<char>>, Option<Seq<char>>) {
    let unit = rate_unit_text(network_unit_type);
    let rx = shown_rate(harvest.rx as nat, network_unit_type);
    let tx = shown_rate(harvest.tx as nat, network_unit_type);
    let total_rx = (harvest.total_rx / 8) as nat;
    let total_tx = (harvest.total_tx / 8) as nat;
    if need_four_points {
        (
            field_text(rx, unit, binary),
            field_text(tx, unit, binary),
            Some(field_text(total_rx, "B"@, binary)),
            Some(field_text(total_tx, "B"@, binary)),
        )
    } else {
        (
            combined_line_text("RX"@, rx, unit, total_rx, binary),
            combined_line_text("TX"@, tx, unit, total_tx, binary),
            None,
            None,
        )
    }
}

} // verus!
