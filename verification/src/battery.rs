//! The battery widget: names, rates and the time that is left.

use vstd::prelude::*;
use crate::data_conversion::ConvertedBatteryData;
use crate::data_farmer::BatteryHarvest;
use crate::outside::{whole_hours, whole_minutes, whole_seconds, whole_units};
use crate::reading::reading_fixed_text;
use crate::text::{
    decimal_text, optional_text, push_decimal, push_signed_decimal, signed_decimal_text,
};

verus! {

/// The ending of a unit's name behind the count `n`: none for one, else `s`.
pub open spec fn plural_text(n: int) -> Seq<char> {
    if n == 1 {
        ""@
    } else {
        "s"@
    }
}

/// A count of seconds as hours, minutes and seconds, each with its own
/// singular or plural.
pub open spec fn duration_text(secs: int) -> Seq<char> {
    let hours = whole_units(secs, 3600);
    let minutes = whole_units(secs, 60) - hours * 60;
    let seconds = secs - whole_units(secs, 60) * 60;
    signed_decimal_text(hours) + " hour"@ + plural_text(hours) + ", "@ + signed_decimal_text(
        minutes,
    ) + " minute"@ + plural_text(minutes) + ", "@ + signed_decimal_text(seconds) + " second"@
        + plural_text(seconds)
}

/// The text of a count of seconds where there is one.
pub open spec fn optional_duration_text(secs: Option<i64>) -> Option<Seq<char>> {
    match secs {
        Some(secs) => Some(duration_text(secs as int)),
        None => None,
    }
}

/// Whether `converted` shows the battery `harvest` with the index `index`.
pub open spec fn shows_battery<V>(
    converted: ConvertedBatteryData<V>,
    harvest: BatteryHarvest<V>,
    index: nat,
) -> bool {
    &&& converted.battery_name@ == "Battery "@ + decimal_text(index)
    &&& converted.charge_percentage == harvest.charge_percent
    &&& converted.watt_consumption@ == reading_fixed_text(
        harvest.power_consumption_rate_watts,
        2,
    ) + "W"@
    &&& optional_text(converted.duration_until_empty) == optional_duration_text(
        harvest.secs_until_empty,
    )
    &&& optional_text(converted.duration_until_full) == optional_duration_text(
        harvest.secs_until_full,
    )
    &&& converted.health@ == reading_fixed_text(harvest.health_percent, 2) + "%"@
}

/// Appends a count and the name of its unit, in the singular for one.
fn push_counted(out: &mut String, n: i64, unit: &str)
    ensures
        final(out)@ == old(out)@ + signed_decimal_text(n as int) + unit@ + plural_text(n as int),
{
    push_signed_decimal(out, n);
    out.append(unit);
    let ending = if n == 1 {
        ""
    } else {
        "s"
    };
    out.append(ending);
    proof {
        assert(final(out)@ =~= old(out)@ + signed_decimal_text(n as int) + unit@ + plural_text(
            n as int,
        ));
    }
}

/// A count of seconds as hours, minutes and seconds.
pub fn duration_string(secs: i64) -> (text: String)
    ensures
        text@ == duration_text(secs as int),
{
    let num_hours: i64 = whole_hours(secs);
    let whole_mins: i64 = whole_minutes(secs);
    let num_minutes: i64 = whole_mins - num_hours * 60;
    let num_seconds: i64 = whole_seconds(secs) - whole_mins * 60;
    let mut text: String = String::new();
    push_counted(&mut text, num_hours, " hour");
    text.append(", ");
    push_counted(&mut text, num_minutes, " minute");
    text.append(", ");
    push_counted(&mut text, num_seconds, " second");
    proof {
        assert(text@ =~= duration_text(secs as int));
    }
    text
}

/// What the battery widget shows of the battery `battery_harvest` with the
/// index `itx`.
pub fn convert_battery<V: Copy>(itx: usize, battery_harvest: &BatteryHarvest<V>) -> (converted:
    ConvertedBatteryData<V>)
    ensures
        shows_battery(converted, *battery_harvest, itx as nat),
{
    let mut battery_name: String = String::new();
    battery_name.append("Battery ");
    push_decimal(&mut battery_name, itx as u128);
    let mut watt_consumption: String = String::new();
    battery_harvest.power_consumption_rate_watts.push_fixed(&mut watt_consumption, 2);
    watt_consumption.append("W");
    let duration_until_empty = if let Some(secs_till_empty) = battery_harvest.secs_until_empty {
        Some(duration_string(secs_till_empty))
    } else {
        None
    };
    let duration_until_full = if let Some(secs_till_full) = battery_harvest.secs_until_full {
        Some(duration_string(secs_till_full))
    } else {
        None
    };
    let mut health: String = String::new();
    battery_harvest.health_percent.push_fixed(&mut health, 2);
    health.append("%");
    ConvertedBatteryData {
        battery_name,
        charge_percentage: battery_harvest.charge_percent,
        watt_consumption,
        duration_until_empty,
        duration_until_full,
        health,
    }
}

} // verus!
