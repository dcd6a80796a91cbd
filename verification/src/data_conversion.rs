//! Conversion of collected readings into the series and labels that the
//! widgets draw.

use fxhash::FxHashMap;
use kstring::KString;
use vstd::prelude::*;
use crate::battery::{convert_battery, shows_battery};
use crate::data_farmer::{
    AxisScaling, CpuData, CpuDataType, DataCollection, DataUnit, DiskHarvest, Metric, TempHarvest,
    TemperatureType, TimedData,
};
use crate::memory::{label_texts, mem_label, mem_label_of};
use crate::network::{
    combined_line_string, field_string, is_scaled_series, network_scaling, network_scaling_of,
    network_texts_of, scale_series, NetworkScaling,
};
use crate::outside::{kstring_from_ref, kstring_text};
use crate::reading::reading_ceil;
use crate::rounding::{pow10, round_half_even};
use crate::series::{collect_series, series_of, Point};
use crate::text::{
    decimal_text, digit_char, fixed_digits, lemma_concat_contains,
    lemma_decimal_text_has_no_point, optional_text,
};
use crate::units::{
    binary_prefix_text, binary_rank, binary_scaled, decimal_prefix_text, decimal_rank,
    decimal_scaled, get_binary_bytes, get_decimal_bytes, lemma_unit_texts_have_no_point,
    push_scaled, scaled_text, GIBI_LIMIT, GIGA_LIMIT,
};

verus! {

/// The identifier of a process.
pub type Pid = i32;

/// What a cell of a table shows: one text, or a text with a shorter one to
/// take its place where room is short.
#[derive(Clone, Debug)]
pub enum CellContent {
    Simple(String),
    HasAlt { alt: String, main: String },
}

/// The rows of a table and the widths of its columns.
#[derive(Debug)]
pub struct TableData {
    pub data: Vec<TableRow>,
    pub col_widths: Vec<usize>,
}

/// A row of a table, with a style of its own or without.
#[derive(Debug)]
pub enum TableRow {
    Raw(Vec<CellContent>),
    Styled(Vec<CellContent>, tui::style::Style),
}

impl TableRow {
    /// The cells of the row.
    pub open spec fn cells(self) -> Seq<CellContent> {
        match self {
            TableRow::Raw(data) => data@,
            TableRow::Styled(data, _) => data@,
        }
    }

    /// The cells of the row, whatever its style.
    pub fn row(&self) -> (cells: &[CellContent])
        ensures
            cells@ == self.cells(),
    {
        match self {
            TableRow::Raw(data) => data.as_slice(),
            TableRow::Styled(data, _) => data.as_slice(),
        }
    }
}

/// What the disk widget shows of one disk.
pub struct DiskWidgetData {
    pub name: KString,
    pub mount_point: KString,
    pub free_bytes: Option<u64>,
    pub used_bytes: Option<u64>,
    pub total_bytes: Option<u64>,
    pub io_read: KString,
    pub io_write: KString,
}

/// What the temperature widget shows of one sensor.
pub struct TempWidgetData {
    pub sensor: KString,
    pub temperature_value: u64,
    pub temperature_type: TemperatureType,
}

/// One entry of the processor widget: the place of the line for all cores, or
/// one core with its series and its latest load.
#[derive(Clone, Debug)]
pub enum CpuWidgetData<V> {
    All,
    Entry {
        data_type: CpuDataType,
        /// A point here represents time (x) and value (y).
        data: Vec<Point<V>>,
        last_entry: V,
    },
}

/// What the battery widget shows of one battery.
#[derive(Debug)]
pub struct ConvertedBatteryData<V> {
    pub battery_name: String,
    pub charge_percentage: V,
    pub watt_consumption: String,
    pub duration_until_full: Option<String>,
    pub duration_until_empty: Option<String>,
    pub health: String,
}

/// What the network widget shows: the two series, and the texts of the
/// current rates and of the totals since the start.
#[derive(Debug)]
pub struct ConvertedNetworkData<V> {
    pub rx: Vec<Point<V>>,
    pub tx: Vec<Point<V>>,
    pub rx_display: String,
    pub tx_display: String,
    pub total_rx_display: Option<String>,
    pub total_tx_display: Option<String>,
}

/// Everything the widgets show, rebuilt from the collector's data before a
/// draw.
pub struct ConvertedData<V> {
    pub rx_display: String,
    pub tx_display: String,
    pub total_rx_display: String,
    pub total_tx_display: String,
    pub network_data_rx: Vec<Point<V>>,
    pub network_data_tx: Vec<Point<V>>,
    pub disk_data: Vec<DiskWidgetData>,
    pub temp_data: Vec<TempWidgetData>,
    /// A mapping from a process name to any PID with that name.
    pub process_name_pid_map: FxHashMap<String, Vec<Pid>>,
    /// A mapping from a process command to any PID with that name.
    pub process_cmd_pid_map: FxHashMap<String, Vec<Pid>>,
    pub mem_labels: Option<(String, String)>,
    pub swap_labels: Option<(String, String)>,
    pub mem_data: Vec<Point<V>>,
    pub swap_data: Vec<Point<V>>,
    pub load_avg_data: [V; 3],
    pub cpu_data: Vec<CpuWidgetData<V>>,
    pub battery_data: Vec<ConvertedBatteryData<V>>,
}

/// The number of decimal places of a byte count shown in binary units: none
/// below a gibibyte, one from there on.
pub open spec fn binary_byte_decimals(value: nat) -> nat {
    if value >= 1_073_741_824 {
        1
    } else {
        0
    }
}

/// The number of decimal places of a rate shown in decimal units: none below a
/// gigabyte per second, one from there on.
pub open spec fn dec_bytes_per_second_decimals(value: nat) -> nat {
    if value >= 1_000_000_000 {
        1
    } else {
        0
    }
}

/// The text of a byte count in the closest binary unit.
pub open spec fn binary_byte_text(value: nat) -> Seq<char> {
    scaled_text(binary_scaled(value), binary_byte_decimals(value)) + (binary_prefix_text(
        binary_rank(value),
    ) + "B"@)
}

/// The text of a rate in bytes per second in the closest decimal unit.
pub open spec fn dec_bytes_per_second_text(value: nat) -> Seq<char> {
    scaled_text(decimal_scaled(value), dec_bytes_per_second_decimals(value)) + (
    decimal_prefix_text(decimal_rank(value)) + "B"@) + "/s"@
}

/// The value of `scaled`, a numerator over a denominator, in units of
/// `10^-decimals`, rounded half-to-even.
pub open spec fn scaled_units(scaled: (nat, nat), decimals: nat) -> nat {
    round_half_even(scaled.0 * pow10(decimals), scaled.1)
}

/// A scaled value written without decimal places is the numeral of its rounded
/// value and nothing else, and holds no decimal point; written with one
/// decimal place it is the numeral of the whole part, a point, and one digit.
pub proof fn lemma_scaled_text_places(scaled: (nat, nat))
    ensures
        scaled_text(scaled, 0) == decimal_text(scaled_units(scaled, 0)),
        !scaled_text(scaled, 0).contains('.'),
        scaled_text(scaled, 1) == decimal_text(scaled_units(scaled, 1) / 10) + seq![
            '.',
            digit_char(scaled_units(scaled, 1) % 10),
        ],
        scaled_text(scaled, 1).contains('.'),
{
    lemma_decimal_text_has_no_point(scaled_units(scaled, 0));
    reveal_with_fuel(pow10, 3);
    reveal_with_fuel(fixed_digits, 3);
    let whole = scaled_units(scaled, 0);
    assert(pow10(0) == 1);
    assert(whole / 1 == whole);
    let u = scaled_units(scaled, 1);
    assert(pow10(1) == 10);
    assert(fixed_digits(u % 10, 1) =~= seq![digit_char(u % 10)]);
    assert(scaled_text(scaled, 1) =~= decimal_text(u / 10) + seq!['.', digit_char(u % 10)]);
    assert(scaled_text(scaled, 1)[decimal_text(u / 10).len() as int] == '.');
}

/// Returns the text of a byte count converted to the closest binary unit,
/// without decimal places below a gibibyte and with exactly one from there on.
pub fn binary_byte_string(value: u64) -> (text: String)
    ensures
        text@ == binary_byte_text(value as nat),
        text@.contains('.') <==> value >= 1_073_741_824,
        value < 1_073_741_824 ==> text@ == decimal_text(
            scaled_units(binary_scaled(value as nat), 0),
        ) + (binary_prefix_text(binary_rank(value as nat)) + "B"@),
        value >= 1_073_741_824 ==> text@ == decimal_text(
            scaled_units(binary_scaled(value as nat), 1) / 10,
        ) + seq!['.', digit_char(scaled_units(binary_scaled(value as nat), 1) % 10)] + (
        binary_prefix_text(binary_rank(value as nat)) + "B"@),
{
    let converted_values = get_binary_bytes(value);
    let mut text: String = String::new();
    if value >= GIBI_LIMIT {
        push_scaled(&mut text, converted_values.0, 1);
    } else {
        push_scaled(&mut text, converted_values.0, 0);
    }
    text.append(converted_values.1.as_str());
    proof {
        lemma_scaled_text_places(binary_scaled(value as nat));
        lemma_unit_texts_have_no_point(binary_rank(value as nat));
        lemma_concat_contains(
            scaled_text(binary_scaled(value as nat), binary_byte_decimals(value as nat)),
            binary_prefix_text(binary_rank(value as nat)) + "B"@,
            '.',
        );
        assert(text@ =~= binary_byte_text(value as nat));
    }
    text
}

/// Returns the text of a rate in bytes per second converted to the closest
/// decimal unit, without decimal places below a gigabyte per second and with
/// exactly one from there on.
pub fn dec_bytes_per_second_string(value: u64) -> (text: String)
    ensures
        text@ == dec_bytes_per_second_text(value as nat),
        text@.contains('.') <==> value >= 1_000_000_000,
        value < 1_000_000_000 ==> text@ == decimal_text(
            scaled_units(decimal_scaled(value as nat), 0),
        ) + (decimal_prefix_text(decimal_rank(value as nat)) + "B"@) + "/s"@,
        value >= 1_000_000_000 ==> text@ == decimal_text(
            scaled_units(decimal_scaled(value as nat), 1) / 10,
        ) + seq!['.', digit_char(scaled_units(decimal_scaled(value as nat), 1) % 10)] + (
        decimal_prefix_text(decimal_rank(value as nat)) + "B"@) + "/s"@,
{
    let converted_values = get_decimal_bytes(value);
    let mut text: String = String::new();
    if value >= GIGA_LIMIT {
        push_scaled(&mut text, converted_values.0, 1);
    } else {
        push_scaled(&mut text, converted_values.0, 0);
    }
    text.append(converted_values.1.as_str());
    text.append("/s");
    proof {
        lemma_scaled_text_places(decimal_scaled(value as nat));
        lemma_unit_texts_have_no_point(decimal_rank(value as nat));
        let number = scaled_text(
            decimal_scaled(value as nat),
            dec_bytes_per_second_decimals(value as nat),
        );
        let unit = decimal_prefix_text(decimal_rank(value as nat)) + "B"@;
        lemma_concat_contains(number, unit, '.');
        lemma_concat_contains(number + unit, "/s"@, '.');
        assert(text@ =~= dec_bytes_per_second_text(value as nat));
    }
    text
}

/// The series of the share of memory in use.
pub fn convert_mem_data_points<V: Copy>(current_data: &DataCollection<V>) -> (series: Vec<Point<V>>)
    ensures
        series@ == series_of(
            current_data.timed_data_vec@,
            Metric::Mem,
            current_data.display_instant(),
        ),
{
    collect_series(current_data, Metric::Mem)
}

/// The series of the share of swap in use.
pub fn convert_swap_data_points<V: Copy>(current_data: &DataCollection<V>) -> (series: Vec<
    Point<V>,
>)
    ensures
        series@ == series_of(
            current_data.timed_data_vec@,
            Metric::Swap,
            current_data.display_instant(),
        ),
{
    collect_series(current_data, Metric::Swap)
}

/// The labels of memory and of swap: for each the share in use and the
/// amounts, and none where the total is zero.
pub fn convert_mem_labels<V>(current_data: &DataCollection<V>) -> (labels: (
    Option<(String, String)>,
    Option<(String, String)>,
))
    ensures
        label_texts(labels.0) == mem_label_of(current_data.memory_harvest),
        label_texts(labels.1) == mem_label_of(current_data.swap_harvest),
{
    (mem_label(&current_data.memory_harvest), mem_label(&current_data.swap_harvest))
}

/// The two series of the network graph, received and sent: each reading of the
/// history is put through `apply` under the scaling that the settings ask for.
pub fn get_rx_tx_data_points<V: Copy, F: Fn(NetworkScaling, V) -> V>(
    current_data: &DataCollection<V>,
    network_scale_type: &AxisScaling,
    network_unit_type: &DataUnit,
    network_use_binary_prefix: bool,
    apply: &F,
) -> (series: (Vec<Point<V>>, Vec<Point<V>>))
    requires
        forall|value: V|
            call_requires(
                *apply,
                (
                    network_scaling_of(
                        *network_scale_type,
                        *network_unit_type,
                        network_use_binary_prefix,
                    ),
                    value,
                ),
            ),
    ensures
        is_scaled_series(
            series.0@,
            series_of(current_data.timed_data_vec@, Metric::Rx, current_data.display_instant()),
            network_scaling_of(*network_scale_type, *network_unit_type, network_use_binary_prefix),
            apply,
        ),
        is_scaled_series(
            series.1@,
            series_of(current_data.timed_data_vec@, Metric::Tx, current_data.display_instant()),
            network_scaling_of(*network_scale_type, *network_unit_type, network_use_binary_prefix),
            apply,
        ),
{
    let scaling = network_scaling(network_scale_type, network_unit_type, network_use_binary_prefix);
    let raw_rx = collect_series(current_data, Metric::Rx);
    let raw_tx = collect_series(current_data, Metric::Tx);
    let rx = scale_series(&raw_rx, scaling, apply);
    let tx = scale_series(&raw_tx, scaling, apply);
    (rx, tx)
}

/// Everything the network widget shows: the two scaled series of the history,
/// and the texts of the latest rates and totals.
pub fn convert_network_data_points<V: Copy, F: Fn(NetworkScaling, V) -> V>(
    current_data: &DataCollection<V>,
    need_four_points: bool,
    network_scale_type: &AxisScaling,
    network_unit_type: &DataUnit,
    network_use_binary_prefix: bool,
    apply: &F,
) -> (converted: ConvertedNetworkData<V>)
    requires
        forall|value: V|
            call_requires(
                *apply,
                (
                    network_scaling_of(
                        *network_scale_type,
                        *network_unit_type,
                        network_use_binary_prefix,
                    ),
                    value,
                ),
            ),
    ensures
        is_scaled_series(
            converted.rx@,
            series_of(current_data.timed_data_vec@, Metric::Rx, current_data.display_instant()),
            network_scaling_of(*network_scale_type, *network_unit_type, network_use_binary_prefix),
            apply,
        ),
        is_scaled_series(
            converted.tx@,
            series_of(current_data.timed_data_vec@, Metric::Tx, current_data.display_instant()),
            network_scaling_of(*network_scale_type, *network_unit_type, network_use_binary_prefix),
            apply,
        ),
        (
            converted.rx_display@,
            converted.tx_display@,
            optional_text(converted.total_rx_display),
            optional_text(converted.total_tx_display),
        ) == network_texts_of(
            current_data.network_harvest,
            need_four_points,
            *network_unit_type,
            network_use_binary_prefix,
        ),
{
    let (rx, tx) = get_rx_tx_data_points(
        current_data,
        network_scale_type,
        network_unit_type,
        network_use_binary_prefix,
        apply,
    );

    let unit = match network_unit_type {
        DataUnit::Byte => "B/s",
        DataUnit::Bit => "b/s",
    };

    let (rx_data, tx_data, total_rx_data, total_tx_data) = match network_unit_type {
        DataUnit::Byte => (
            current_data.network_harvest.rx / 8,
            current_data.network_harvest.tx / 8,
            current_data.network_harvest.total_rx / 8,
            current_data.network_harvest.total_tx / 8,
        ),
        DataUnit::Bit => (
            current_data.network_harvest.rx,
            current_data.network_harvest.tx,
            current_data.network_harvest.total_rx / 8,
            current_data.network_harvest.total_tx / 8,
        ),
    };

    if need_four_points {
        let rx_display = field_string(rx_data, unit, network_use_binary_prefix);
        let total_rx_display = Some(field_string(total_rx_data, "B", network_use_binary_prefix));
        let tx_display = field_string(tx_data, unit, network_use_binary_prefix);
        let total_tx_display = Some(field_string(total_tx_data, "B", network_use_binary_prefix));
        ConvertedNetworkData { rx, tx, rx_display, tx_display, total_rx_display, total_tx_display }
    } else {
        let rx_display = combined_line_string(
            "RX",
            rx_data,
            unit,
            total_rx_data,
            network_use_binary_prefix,
        );
        let tx_display = combined_line_string(
            "TX",
            tx_data,
            unit,
            total_tx_data,
            network_use_binary_prefix,
        );
        ConvertedNetworkData {
            rx,
            tx,
            rx_display,
            tx_display,
            total_rx_display: None,
            total_tx_display: None,
        }
    }
}

/// What the battery widget shows: one entry for each battery, in order, named
/// by its index.
pub fn convert_battery_harvest<V: Copy>(current_data: &DataCollection<V>) -> (converted: Vec<
    ConvertedBatteryData<V>,
>)
    ensures
        converted@.len() == current_data.battery_harvest@.len(),
        forall|i: int|
            0 <= i < converted@.len() ==> shows_battery(
                #[trigger] converted@[i],
                current_data.battery_harvest@[i],
                i as nat,
            ),
{
    let mut converted: Vec<ConvertedBatteryData<V>> = Vec::new();
    let mut itx: usize = 0;
    while itx < current_data.battery_harvest.len()
        invariant
            itx <= current_data.battery_harvest@.len(),
            converted@.len() == itx,
            forall|i: int|
                0 <= i < itx ==> shows_battery(
                    #[trigger] converted@[i],
                    current_data.battery_harvest@[i],
                    i as nat,
                ),
        decreases current_data.battery_harvest@.len() - itx,
    {
        converted.push(convert_battery(itx, &current_data.battery_harvest[itx]));
        itx += 1;
    }
    converted
}

/// Whether `shown` shows the disk `disk` with the rates `io`.
pub open spec fn shows_disk(
    shown: DiskWidgetData,
    disk: DiskHarvest,
    io: (String, String),
) -> bool {
    &&& kstring_text(shown.name) == disk.name@
    &&& kstring_text(shown.mount_point) == disk.mount_point@
    &&& shown.free_bytes == disk.free_space
    &&& shown.used_bytes == disk.used_space
    &&& shown.total_bytes == disk.total_space
    &&& kstring_text(shown.io_read) == io.0@
    &&& kstring_text(shown.io_write) == io.1@
}

/// Whether `shown` shows the sensor `sensor` in the unit `temperature_type`:
/// the temperature is rounded up to a whole number.
pub open spec fn shows_temp(
    shown: TempWidgetData,
    sensor: TempHarvest,
    temperature_type: TemperatureType,
) -> bool {
    &&& kstring_text(shown.sensor) == sensor.name@
    &&& shown.temperature_value == reading_ceil(sensor.temperature)
    &&& shown.temperature_type == temperature_type
}

/// The lesser of two lengths.
pub open spec fn shorter(a: nat, b: nat) -> nat {
    if a <= b {
        a
    } else {
        b
    }
}

impl<V> ConvertedData<V> {
    /// Whether `self` and `before` differ in nothing but the disks, the
    /// sensors and the processor entries.
    pub open spec fn same_but_lists(self, before: ConvertedData<V>) -> bool {
        &&& self.rx_display == before.rx_display
        &&& self.tx_display == before.tx_display
        &&& self.total_rx_display == before.total_rx_display
        &&& self.total_tx_display == before.total_tx_display
        &&& self.network_data_rx == before.network_data_rx
        &&& self.network_data_tx == before.network_data_tx
        &&& self.process_name_pid_map == before.process_name_pid_map
        &&& self.process_cmd_pid_map == before.process_cmd_pid_map
        &&& self.mem_labels == before.mem_labels
        &&& self.swap_labels == before.swap_labels
        &&& self.mem_data == before.mem_data
        &&& self.swap_data == before.swap_data
        &&& self.load_avg_data == before.load_avg_data
        &&& self.battery_data == before.battery_data
    }

    /// Replaces the disks shown by those of the latest harvest: one entry for
    /// each disk that has its rates, in order.
    pub fn ingest_disk(&mut self, data: &DataCollection<V>)
        ensures
            final(self).same_but_lists(*old(self)),
            final(self).temp_data == old(self).temp_data,
            final(self).cpu_data == old(self).cpu_data,
            final(self).disk_data@.len() == shorter(
                data.disk_harvest@.len(),
                data.io_labels@.len(),
            ),
            forall|i: int|
                0 <= i < final(self).disk_data@.len() ==> shows_disk(
                    #[trigger] final(self).disk_data@[i],
                    data.disk_harvest@[i],
                    data.io_labels@[i],
                ),
    {
        let mut disk_data: Vec<DiskWidgetData> = Vec::new();
        let mut i: usize = 0;
        while i < data.disk_harvest.len() && i < data.io_labels.len()
            invariant
                i <= data.disk_harvest@.len(),
                i <= data.io_labels@.len(),
                disk_data@.len() == i,
                forall|j: int|
                    0 <= j < i ==> shows_disk(
                        #[trigger] disk_data@[j],
                        data.disk_harvest@[j],
                        data.io_labels@[j],
                    ),
            decreases data.disk_harvest@.len() - i,
        {
            let disk = &data.disk_harvest[i];
            let io = &data.io_labels[i];
            disk_data.push(
                DiskWidgetData {
                    name: kstring_from_ref(disk.name.as_str()),
                    mount_point: kstring_from_ref(disk.mount_point.as_str()),
                    free_bytes: disk.free_space,
                    used_bytes: disk.used_space,
                    total_bytes: disk.total_space,
                    io_read: kstring_from_ref(io.0.as_str()),
                    io_write: kstring_from_ref(io.1.as_str()),
                },
            );
            i += 1;
        }
        self.disk_data = disk_data;
    }

    /// Replaces the sensors shown by those of the latest harvest, in order,
    /// each with its temperature rounded up.
    pub fn ingest_temp(&mut self, data: &DataCollection<V>, temperature_type: TemperatureType)
        ensures
            final(self).same_but_lists(*old(self)),
            final(self).disk_data == old(self).disk_data,
            final(self).cpu_data == old(self).cpu_data,
            final(self).temp_data@.len() == data.temp_harvest@.len(),
            forall|i: int|
                0 <= i < final(self).temp_data@.len() ==> shows_temp(
                    #[trigger] final(self).temp_data@[i],
                    data.temp_harvest@[i],
                    temperature_type,
                ),
    {
        let mut temp_data: Vec<TempWidgetData> = Vec::new();
        let mut i: usize = 0;
        while i < data.temp_harvest.len()
            invariant
                i <= data.temp_harvest@.len(),
                temp_data@.len() == i,
                forall|j: int|
                    0 <= j < i ==> shows_temp(
                        #[trigger] temp_data@[j],
                        data.temp_harvest@[j],
                        temperature_type,
                    ),
            decreases data.temp_harvest@.len() - i,
        {
            let temp_harvest = &data.temp_harvest[i];
            temp_data.push(
                TempWidgetData {
                    sensor: kstring_from_ref(temp_harvest.name.as_str()),
                    temperature_value: temp_harvest.temperature.ceil_to_u64(),
                    temperature_type,
                },
            );
            i += 1;
        }
        self.temp_data = temp_data;
    }
}

impl<V> CpuWidgetData<V> {
    /// Whether this is the entry of a core of the kind `data_type` with the
    /// series `data` and the latest load `last_entry`.
    pub open spec fn is_entry(
        self,
        data_type: CpuDataType,
        data: Seq<Point<V>>,
        last_entry: V,
    ) -> bool {
        &&& self is Entry
        &&& self->data_type == data_type
        &&& self->data@ == data
        &&& self->last_entry == last_entry
    }
}

impl<V: Copy> ConvertedData<V> {
    /// Every processor entry but the first is the entry of a core.
    pub open spec fn cpu_entries_wf(self) -> bool {
        forall|i: int| 1 <= i < self.cpu_data@.len() ==> (#[trigger] self.cpu_data@[i]) is Entry
    }

    /// Whether the processor entries were made anew for the latest poll
    /// `latest` and the harvest `cpu_harvest`: the place of the line for all
    /// cores, then one entry for each core that both know, with an empty series.
    pub open spec fn cpu_entries_rebuilt(
        self,
        latest: Seq<V>,
        cpu_harvest: Seq<CpuData<V>>,
    ) -> bool {
        &&& self.cpu_data@.len() == shorter(latest.len(), cpu_harvest.len()) + 1
        &&& self.cpu_data@[0] is All
        &&& forall|i: int|
            1 <= i < self.cpu_data@.len() ==> (#[trigger] self.cpu_data@[i]).is_entry(
                cpu_harvest[i - 1].data_type,
                Seq::empty(),
                latest[i - 1],
            )
    }

    /// Whether the processor entries are those of `before`, each core with an
    /// empty series and its load of the latest poll `latest`.
    pub open spec fn cpu_entries_refreshed(self, before: ConvertedData<V>, latest: Seq<V>) -> bool {
        &&& self.cpu_data@.len() == before.cpu_data@.len()
        &&& self.cpu_data@[0] == before.cpu_data@[0]
        &&& forall|i: int|
            1 <= i < self.cpu_data@.len() ==> (#[trigger] self.cpu_data@[i]).is_entry(
                before.cpu_data@[i]->data_type,
                Seq::empty(),
                latest[i - 1],
            )
    }

    /// Whether the processor entries are those of `before`, each core with the
    /// series of its load over `history`.
    pub open spec fn cpu_entries_filled(
        self,
        before: ConvertedData<V>,
        history: Seq<(u64, TimedData<V>)>,
        now: u64,
    ) -> bool {
        &&& self.cpu_data@.len() == before.cpu_data@.len()
        &&& before.cpu_data@.len() > 0 ==> self.cpu_data@[0] == before.cpu_data@[0]
        &&& forall|i: int|
            1 <= i < self.cpu_data@.len() ==> (#[trigger] self.cpu_data@[i]).is_entry(
                before.cpu_data@[i]->data_type,
                series_of(history, Metric::Cpu((i - 1) as usize), now),
                before.cpu_data@[i]->last_entry,
            )
    }

    /// Brings the processor entries in line with the latest poll. Where the
    /// number of cores of that poll, and one for the line of all cores, is not
    /// the number of entries, the entries are made anew; else each core gets
    /// its load of that poll. Every series is empty afterwards. Without a poll
    /// nothing changes.
    pub fn reconcile_cpu_entries(&mut self, current_data: &DataCollection<V>)
        requires
            old(self).cpu_entries_wf(),
        ensures
            final(self).same_but_lists(*old(self)),
            final(self).disk_data == old(self).disk_data,
            final(self).temp_data == old(self).temp_data,
            final(self).cpu_entries_wf(),
            current_data.timed_data_vec@.len() == 0 ==> final(self).cpu_data == old(self).cpu_data,
            current_data.timed_data_vec@.len() > 0 ==> {
                let latest = current_data.timed_data_vec@.last().1.cpu_data@;
                if latest.len() + 1 != old(self).cpu_data@.len() {
                    final(self).cpu_entries_rebuilt(latest, current_data.cpu_harvest@)
                } else {
                    final(self).cpu_entries_refreshed(*old(self), latest)
                }
            },
    {
        let polls: usize = current_data.timed_data_vec.len();
        if polls == 0 {
            return ;
        }
        let data = &current_data.timed_data_vec[polls - 1].1;
        let ghost latest = data.cpu_data@;
        let cores: usize = data.cpu_data.len();
        let entries: usize = self.cpu_data.len();
        if entries == 0 || cores != entries - 1 {
            let mut cpu_data: Vec<CpuWidgetData<V>> = Vec::new();
            cpu_data.push(CpuWidgetData::All);
            let mut i: usize = 0;
            while i < cores && i < current_data.cpu_harvest.len()
                invariant
                    cores == latest.len(),
                    latest == data.cpu_data@,
                    i <= cores,
                    i <= current_data.cpu_harvest@.len(),
                    cpu_data@.len() == i + 1,
                    cpu_data@[0] is All,
                    forall|j: int|
                        1 <= j < cpu_data@.len() ==> (#[trigger] cpu_data@[j]).is_entry(
                            current_data.cpu_harvest@[j - 1].data_type,
                            Seq::empty(),
                            latest[j - 1],
                        ),
                decreases cores - i,
            {
                cpu_data.push(
                    CpuWidgetData::Entry {
                        data_type: current_data.cpu_harvest[i].data_type,
                        data: Vec::new(),
                        last_entry: data.cpu_data[i],
                    },
                );
                i += 1;
            }
            self.cpu_data = cpu_data;
        } else {
            let mut i: usize = 1;
            while i < entries
                invariant
                    cores == latest.len(),
                    latest == data.cpu_data@,
                    entries == self.cpu_data@.len(),
                    entries == old(self).cpu_data@.len(),
                    entries == cores + 1,
                    self.same_but_lists(*old(self)),
                    self.disk_data == old(self).disk_data,
                    self.temp_data == old(self).temp_data,
                    old(self).cpu_entries_wf(),
                    1 <= i <= entries,
                    self.cpu_data@[0] == old(self).cpu_data@[0],
                    forall|j: int|
                        1 <= j < i ==> (#[trigger] self.cpu_data@[j]).is_entry(
                            old(self).cpu_data@[j]->data_type,
                            Seq::empty(),
                            latest[j - 1],
                        ),
                    forall|j: int|
                        i <= j < entries ==> (#[trigger] self.cpu_data@[j])
                            == old(self).cpu_data@[j],
                decreases entries - i,
            {
                let data_type = cpu_entry_type(&self.cpu_data[i]);
                self.cpu_data.set(
                    i,
                    CpuWidgetData::Entry {
                        data_type,
                        data: Vec::new(),
                        last_entry: data.cpu_data[i - 1],
                    },
                );
                i += 1;
            }
        }
    }

    /// Replaces the series of every core by the series of its load over the
    /// history. The first entry, the kinds and the latest loads stay.
    pub fn fill_cpu_series(&mut self, current_data: &DataCollection<V>)
        requires
            old(self).cpu_entries_wf(),
        ensures
            final(self).same_but_lists(*old(self)),
            final(self).disk_data == old(self).disk_data,
            final(self).temp_data == old(self).temp_data,
            final(self).cpu_entries_wf(),
            final(self).cpu_entries_filled(
                *old(self),
                current_data.timed_data_vec@,
                current_data.display_instant(),
            ),
    {
        let entries: usize = self.cpu_data.len();
        let mut i: usize = 1;
        while i < entries
            invariant
                entries == self.cpu_data@.len(),
                entries == old(self).cpu_data@.len(),
                self.same_but_lists(*old(self)),
                self.disk_data == old(self).disk_data,
                self.temp_data == old(self).temp_data,
                old(self).cpu_entries_wf(),
                1 <= i,
                entries > 0 ==> self.cpu_data@[0] == old(self).cpu_data@[0],
                forall|j: int|
                    1 <= j < i && j < entries ==> (#[trigger] self.cpu_data@[j]).is_entry(
                        old(self).cpu_data@[j]->data_type,
                        series_of(
                            current_data.timed_data_vec@,
                            Metric::Cpu((j - 1) as usize),
                            current_data.display_instant(),
                        ),
                        old(self).cpu_data@[j]->last_entry,
                    ),
                forall|j: int|
                    i <= j < entries ==> (#[trigger] self.cpu_data@[j]) == old(self).cpu_data@[j],
            decreases entries - i,
        {
            let data_type = cpu_entry_type(&self.cpu_data[i]);
            let last_entry = cpu_entry_last(&self.cpu_data[i]);
            let data = collect_series(current_data, Metric::Cpu(i - 1));
            self.cpu_data.set(i, CpuWidgetData::Entry { data_type, data, last_entry });
            i += 1;
        }
    }

    /// Rebuilds the processor entries for a draw: first the entries are brought
    /// in line with the latest poll, then every core gets the series of its
    /// load over the history.
    pub fn convert_cpu_data_points(&mut self, current_data: &DataCollection<V>)
        requires
            old(self).cpu_entries_wf(),
        ensures
            final(self).same_but_lists(*old(self)),
            final(self).disk_data == old(self).disk_data,
            final(self).temp_data == old(self).temp_data,
            final(self).cpu_entries_wf(),
            current_data.timed_data_vec@.len() == 0 ==> final(self).cpu_entries_filled(
                *old(self),
                current_data.timed_data_vec@,
                current_data.display_instant(),
            ),
            current_data.timed_data_vec@.len() > 0 ==> {
                let latest = current_data.timed_data_vec@.last().1.cpu_data@;
                let rebuilt = latest.len() + 1 != old(self).cpu_data@.len();
                &&& final(self).cpu_data@.len() == if rebuilt {
                    shorter(latest.len(), current_data.cpu_harvest@.len()) + 1
                } else {
                    old(self).cpu_data@.len()
                }
                &&& final(self).cpu_data@[0] == if rebuilt {
                    CpuWidgetData::All
                } else {
                    old(self).cpu_data@[0]
                }
                &&& forall|i: int|
                    1 <= i < final(self).cpu_data@.len() ==> (
                    #[trigger] final(self).cpu_data@[i]).is_entry(
                        if rebuilt {
                            current_data.cpu_harvest@[i - 1].data_type
                        } else {
                            old(self).cpu_data@[i]->data_type
                        },
                        series_of(
                            current_data.timed_data_vec@,
                            Metric::Cpu((i - 1) as usize),
                            current_data.display_instant(),
                        ),
                        latest[i - 1],
                    )
            },
    {
        self.reconcile_cpu_entries(current_data);
        self.fill_cpu_series(current_data);
    }
}

/// The kind of core of an entry.
fn cpu_entry_type<V>(entry: &CpuWidgetData<V>) -> (data_type: CpuDataType)
    requires
        entry is Entry,
    ensures
        data_type == entry->data_type,
{
    match entry {
        CpuWidgetData::Entry { data_type, data: _, last_entry: _ } => *data_type,
        CpuWidgetData::All => vstd::pervasive::unreached(),
    }
}

/// The latest load of an entry.
fn cpu_entry_last<V: Copy>(entry: &CpuWidgetData<V>) -> (last_entry: V)
    requires
        entry is Entry,
    ensures
        last_entry == entry->last_entry,
{
    match entry {
        CpuWidgetData::Entry { data_type: _, data: _, last_entry } => *last_entry,
        CpuWidgetData::All => vstd::pervasive::unreached(),
    }
}

/// Where the harvest knows every core of the latest poll, entries made anew
/// are one more than the cores of that poll, and the series of every core is
/// empty.
pub proof fn lemma_cpu_entries_rebuilt<V: Copy>(
    rebuilt: ConvertedData<V>,
    latest: Seq<V>,
    cpu_harvest: Seq<CpuData<V>>,
)
    requires
        rebuilt.cpu_entries_rebuilt(latest, cpu_harvest),
        cpu_harvest.len() >= latest.len(),
    ensures
        rebuilt.cpu_data@.len() == latest.len() + 1,
        forall|i: int|
            1 <= i < rebuilt.cpu_data@.len() ==> (#[trigger] rebuilt.cpu_data@[i]) is Entry
                && rebuilt.cpu_data@[i]->data@.len() == 0,
{
    assert forall|i: int| 1 <= i < rebuilt.cpu_data@.len() implies (
    #[trigger] rebuilt.cpu_data@[i]) is Entry && rebuilt.cpu_data@[i]->data@.len() == 0 by {
        assert(rebuilt.cpu_data@[i].is_entry(
            cpu_harvest[i - 1].data_type,
            Seq::empty(),
            latest[i - 1],
        ));
    }
}

/// On a logarithmic axis with binary prefixes, every rate shown in bytes is
/// the logarithm to base two of the rate in bits, less three: that is the
/// scaling under which `apply` made each point of the series.
pub proof fn lemma_network_log_scaling_of_bytes<V, F: Fn(NetworkScaling, V) -> V>(
    scaled: Seq<Point<V>>,
    raw: Seq<Point<V>>,
    apply: &F,
)
    requires
        is_scaled_series(
            scaled,
            raw,
            network_scaling_of(AxisScaling::Log, DataUnit::Byte, true),
            apply,
        ),
    ensures
        scaled.len() == raw.len(),
        forall|i: int|
            0 <= i < raw.len() ==> (#[trigger] scaled[i]).0 == raw[i].0 && call_ensures(
                *apply,
                (NetworkScaling::Log2 { subtrahend: 3 }, raw[i].1),
                scaled[i].1,
            ),
{
}

impl<V: Default> Default for ConvertedData<V> {
    /// Nothing to show yet: every list is empty, every text is empty, and
    /// there are no labels.
    fn default() -> (data: Self)
        ensures
            data.rx_display@.len() == 0,
            data.tx_display@.len() == 0,
            data.total_rx_display@.len() == 0,
            data.total_tx_display@.len() == 0,
            data.network_data_rx@.len() == 0,
            data.network_data_tx@.len() == 0,
            data.disk_data@.len() == 0,
            data.temp_data@.len() == 0,
            data.mem_labels is None,
            data.swap_labels is None,
            data.mem_data@.len() == 0,
            data.swap_data@.len() == 0,
            data.cpu_data@.len() == 0,
            data.battery_data@.len() == 0,
    {
        ConvertedData {
            rx_display: String::new(),
            tx_display: String::new(),
            total_rx_display: String::new(),
            total_tx_display: String::new(),
            network_data_rx: Vec::new(),
            network_data_tx: Vec::new(),
            disk_data: Vec::new(),
            temp_data: Vec::new(),
            process_name_pid_map: FxHashMap::default(),
            process_cmd_pid_map: FxHashMap::default(),
            mem_labels: None,
            swap_labels: None,
            mem_data: Vec::new(),
            swap_data: Vec::new(),
            load_avg_data: [V::default(), V::default(), V::default()],
            cpu_data: Vec::new(),
            battery_data: Vec::new(),
        }
    }
}

impl<V> Default for ConvertedNetworkData<V> {
    /// No series and empty texts.
    fn default() -> (data: Self)
        ensures
            data.rx@.len() == 0,
            data.tx@.len() == 0,
            data.rx_display@.len() == 0,
            data.tx_display@.len() == 0,
            data.total_rx_display is None,
            data.total_tx_display is None,
    {
        ConvertedNetworkData {
            rx: Vec::new(),
            tx: Vec::new(),
            rx_display: String::new(),
            tx_display: String::new(),
            total_rx_display: None,
            total_tx_display: None,
        }
    }
}

impl<V: Default> Default for ConvertedBatteryData<V> {
    /// Empty texts and no durations.
    fn default() -> (data: Self)
        ensures
            data.battery_name@.len() == 0,
            data.watt_consumption@.len() == 0,
            data.duration_until_full is None,
            data.duration_until_empty is None,
            data.health@.len() == 0,
    {
        ConvertedBatteryData {
            battery_name: String::new(),
            charge_percentage: V::default(),
            watt_consumption: String::new(),
            duration_until_full: None,
            duration_until_empty: None,
            health: String::new(),
        }
    }
}

impl Default for TableData {
    /// No rows and no columns.
    fn default() -> (table: Self)
        ensures
            table.data@.len() == 0,
            table.col_widths@.len() == 0,
    {
        TableData { data: Vec::new(), col_widths: Vec::new() }
    }
}

} // verus!
