use bottom::data_conversion::{
    convert_mem_data_points, convert_swap_data_points, get_rx_tx_data_points, CellContent,
    ConvertedData, CpuWidgetData, TableData, TableRow,
};
use bottom::data_farmer::{
    AxisScaling, CpuData, CpuDataType, DataCollection, DataUnit, DiskHarvest, MemHarvest, Metric,
    NetworkHarvest, TempHarvest, TemperatureType, TimedData,
};
use bottom::network::{network_scaling, NetworkScaling};
use bottom::reading::Reading;
use bottom::series::{collect_series, get_offset_millis};

const MS: u64 = 1_000_000;

fn poll(mem: Option<f64>, swap: Option<f64>, cpu: Vec<f64>, rx: f64, tx: f64) -> TimedData<f64> {
    TimedData {
        rx_data: rx,
        tx_data: tx,
        cpu_data: cpu,
        mem_data: mem,
        swap_data: swap,
    }
}

fn collection(now: u64, polls: Vec<(u64, TimedData<f64>)>) -> DataCollection<f64> {
    let no_memory = MemHarvest {
        mem_total_in_kib: 0,
        mem_used_in_kib: 0,
        use_percent: None,
    };
    DataCollection {
        current_instant: now,
        frozen_instant: None,
        timed_data_vec: polls,
        network_harvest: NetworkHarvest {
            rx: 0,
            tx: 0,
            total_rx: 0,
            total_tx: 0,
        },
        memory_harvest: no_memory,
        swap_harvest: no_memory,
        cpu_harvest: Vec::new(),
        disk_harvest: Vec::new(),
        io_labels: Vec::new(),
        temp_harvest: Vec::new(),
        battery_harvest: Vec::new(),
    }
}

fn cores(n: usize) -> Vec<CpuData<f64>> {
    (0..n)
        .map(|i| CpuData {
            data_type: CpuDataType::Cpu(i),
            cpu_usage: 0.0,
        })
        .collect()
}

fn float_scaling(scaling: NetworkScaling, raw: f64) -> f64 {
    match scaling {
        NetworkScaling::Linear { divisor } => raw / f64::from(divisor),
        NetworkScaling::Log2 { subtrahend } => raw.log2() - f64::from(subtrahend),
        NetworkScaling::Log10 { divisor } => (raw / f64::from(divisor)).log10(),
    }
}

fn series_of_entry(entry: &CpuWidgetData<f64>) -> Vec<(i64, f64)> {
    match entry {
        CpuWidgetData::Entry { data, .. } => data.clone(),
        CpuWidgetData::All => panic!("the entry of a core was expected"),
    }
}

fn last_of_entry(entry: &CpuWidgetData<f64>) -> f64 {
    match entry {
        CpuWidgetData::Entry { last_entry, .. } => *last_entry,
        CpuWidgetData::All => panic!("the entry of a core was expected"),
    }
}

fn type_of_entry(entry: &CpuWidgetData<f64>) -> CpuDataType {
    match entry {
        CpuWidgetData::Entry { data_type, .. } => *data_type,
        CpuWidgetData::All => panic!("the entry of a core was expected"),
    }
}

#[test]
fn memory_series_of_three_polls() {
    let data = collection(
        1_000 * MS,
        vec![
            (0, poll(Some(10.0), None, vec![], 0.0, 0.0)),
            (500 * MS, poll(Some(20.0), None, vec![], 0.0, 0.0)),
            (1_000 * MS, poll(Some(30.0), None, vec![], 0.0, 0.0)),
        ],
    );
    assert_eq!(
        convert_mem_data_points(&data),
        vec![(-1000, 10.0), (-500, 20.0), (0, 30.0)]
    );
    assert_eq!(convert_swap_data_points(&data), vec![]);
}

#[test]
fn series_of_an_empty_history_is_empty() {
    let data = collection(1_000 * MS, vec![]);
    assert_eq!(convert_mem_data_points(&data), vec![]);
    assert_eq!(convert_swap_data_points(&data), vec![]);
    assert_eq!(collect_series(&data, Metric::Rx), vec![]);
    assert_eq!(collect_series(&data, Metric::Cpu(0)), vec![]);
}

#[test]
fn polls_without_a_reading_give_no_point() {
    let data = collection(
        3_000 * MS,
        vec![
            (0, poll(None, Some(1.5), vec![], 0.0, 0.0)),
            (1_000 * MS, poll(Some(20.0), None, vec![], 0.0, 0.0)),
            (2_000 * MS, poll(None, Some(2.5), vec![], 0.0, 0.0)),
            (3_000 * MS, poll(Some(40.0), Some(3.5), vec![], 0.0, 0.0)),
        ],
    );
    assert_eq!(
        convert_mem_data_points(&data),
        vec![(-2000, 20.0), (0, 40.0)]
    );
    assert_eq!(
        convert_swap_data_points(&data),
        vec![(-3000, 1.5), (-1000, 2.5), (0, 3.5)]
    );
}

#[test]
fn a_frozen_instant_ends_the_walk() {
    let mut data = collection(
        3_000 * MS,
        vec![
            (0, poll(Some(10.0), None, vec![], 1.0, 2.0)),
            (1_000 * MS, poll(Some(20.0), None, vec![], 3.0, 4.0)),
            (2_000 * MS, poll(Some(30.0), None, vec![], 5.0, 6.0)),
            (3_000 * MS, poll(Some(40.0), None, vec![], 7.0, 8.0)),
        ],
    );
    data.frozen_instant = Some(1_000 * MS);
    assert_eq!(
        convert_mem_data_points(&data),
        vec![(-1000, 10.0), (0, 20.0)]
    );
    assert_eq!(
        collect_series(&data, Metric::Tx),
        vec![(-1000, 2.0), (0, 4.0)]
    );
    data.frozen_instant = None;
    assert_eq!(convert_mem_data_points(&data).len(), 4);
}

#[test]
fn the_walk_ends_at_now_even_without_a_reading() {
    let mut data = collection(
        2_000 * MS,
        vec![
            (0, poll(Some(10.0), None, vec![], 0.0, 0.0)),
            (1_000 * MS, poll(None, None, vec![], 0.0, 0.0)),
            (2_000 * MS, poll(Some(30.0), None, vec![], 0.0, 0.0)),
        ],
    );
    data.frozen_instant = Some(1_000 * MS);
    assert_eq!(convert_mem_data_points(&data), vec![(-1000, 10.0)]);
}

#[test]
fn polls_later_than_now_stand_at_zero() {
    let data = collection(
        1_500 * MS,
        vec![
            (1_000 * MS, poll(Some(10.0), None, vec![], 0.0, 0.0)),
            (2_000 * MS, poll(Some(20.0), None, vec![], 0.0, 0.0)),
            (3_000 * MS, poll(Some(30.0), None, vec![], 0.0, 0.0)),
        ],
    );
    assert_eq!(
        convert_mem_data_points(&data),
        vec![(-500, 10.0), (0, 20.0), (0, 30.0)]
    );
}

#[test]
fn offsets_are_whole_milliseconds_rounded_down() {
    assert_eq!(get_offset_millis(10 * MS, 10 * MS), 0);
    assert_eq!(get_offset_millis(10 * MS, 10 * MS - 1), 0);
    assert_eq!(get_offset_millis(10 * MS, 9 * MS + 1), 0);
    assert_eq!(get_offset_millis(10 * MS, 9 * MS), -1);
    assert_eq!(get_offset_millis(10 * MS, 8 * MS + 1), -1);
    assert_eq!(get_offset_millis(10 * MS, 0), -10);
    assert_eq!(get_offset_millis(0, 10 * MS), 0);
    assert_eq!(get_offset_millis(u64::MAX, 0), -18_446_744_073_709);
}

#[test]
fn cpu_entries_are_made_for_the_cores_of_the_latest_poll() {
    let mut data = collection(
        1_000 * MS,
        vec![
            (0, poll(None, None, vec![1.0, 2.0], 0.0, 0.0)),
            (1_000 * MS, poll(None, None, vec![3.0, 4.0], 0.0, 0.0)),
        ],
    );
    data.cpu_harvest = vec![
        CpuData {
            data_type: CpuDataType::Avg,
            cpu_usage: 3.0,
        },
        CpuData {
            data_type: CpuDataType::Cpu(0),
            cpu_usage: 4.0,
        },
    ];
    let mut converted: ConvertedData<f64> = ConvertedData::default();
    converted.convert_cpu_data_points(&data);
    assert_eq!(converted.cpu_data.len(), 3);
    assert!(matches!(converted.cpu_data[0], CpuWidgetData::All));
    assert_eq!(type_of_entry(&converted.cpu_data[1]), CpuDataType::Avg);
    assert_eq!(type_of_entry(&converted.cpu_data[2]), CpuDataType::Cpu(0));
    assert_eq!(last_of_entry(&converted.cpu_data[1]), 3.0);
    assert_eq!(last_of_entry(&converted.cpu_data[2]), 4.0);
    assert_eq!(
        series_of_entry(&converted.cpu_data[1]),
        vec![(-1000, 1.0), (0, 3.0)]
    );
    assert_eq!(
        series_of_entry(&converted.cpu_data[2]),
        vec![(-1000, 2.0), (0, 4.0)]
    );
}

#[test]
fn a_change_of_the_core_count_rebuilds_the_entries() {
    let mut data = collection(
        1_000 * MS,
        vec![(1_000 * MS, poll(None, None, vec![1.0, 2.0], 0.0, 0.0))],
    );
    data.cpu_harvest = cores(2);
    let mut converted: ConvertedData<f64> = ConvertedData::default();
    converted.convert_cpu_data_points(&data);
    assert_eq!(converted.cpu_data.len(), 3);
    assert_eq!(series_of_entry(&converted.cpu_data[1]), vec![(0, 1.0)]);

    data.timed_data_vec
        .push((2_000 * MS, poll(None, None, vec![5.0, 6.0, 7.0, 8.0], 0.0, 0.0)));
    data.current_instant = 2_000 * MS;
    data.cpu_harvest = cores(4);
    converted.reconcile_cpu_entries(&data);
    assert_eq!(converted.cpu_data.len(), 5);
    assert!(matches!(converted.cpu_data[0], CpuWidgetData::All));
    for i in 1..5 {
        assert_eq!(series_of_entry(&converted.cpu_data[i]), vec![]);
        assert_eq!(type_of_entry(&converted.cpu_data[i]), CpuDataType::Cpu(i - 1));
    }
    assert_eq!(last_of_entry(&converted.cpu_data[1]), 5.0);
    assert_eq!(last_of_entry(&converted.cpu_data[4]), 8.0);

    converted.fill_cpu_series(&data);
    assert_eq!(
        series_of_entry(&converted.cpu_data[1]),
        vec![(-1000, 1.0), (0, 5.0)]
    );
    assert_eq!(
        series_of_entry(&converted.cpu_data[2]),
        vec![(-1000, 2.0), (0, 6.0)]
    );
    assert_eq!(series_of_entry(&converted.cpu_data[3]), vec![(0, 7.0)]);
    assert_eq!(series_of_entry(&converted.cpu_data[4]), vec![(0, 8.0)]);

    data.timed_data_vec
        .push((3_000 * MS, poll(None, None, vec![9.0], 0.0, 0.0)));
    data.current_instant = 3_000 * MS;
    data.cpu_harvest = cores(1);
    converted.convert_cpu_data_points(&data);
    assert_eq!(converted.cpu_data.len(), 2);
    assert_eq!(
        series_of_entry(&converted.cpu_data[1]),
        vec![(-2000, 1.0), (-1000, 5.0), (0, 9.0)]
    );
}

#[test]
fn an_unchanged_core_count_keeps_the_entries_and_refreshes_them() {
    let mut data = collection(
        1_000 * MS,
        vec![(1_000 * MS, poll(None, None, vec![1.0, 2.0], 0.0, 0.0))],
    );
    data.cpu_harvest = vec![
        CpuData {
            data_type: CpuDataType::Avg,
            cpu_usage: 0.0,
        },
        CpuData {
            data_type: CpuDataType::Cpu(7),
            cpu_usage: 0.0,
        },
    ];
    let mut converted: ConvertedData<f64> = ConvertedData::default();
    converted.convert_cpu_data_points(&data);

    data.timed_data_vec
        .push((2_000 * MS, poll(None, None, vec![3.0, 4.0], 0.0, 0.0)));
    data.current_instant = 2_000 * MS;
    data.cpu_harvest = cores(2);
    converted.reconcile_cpu_entries(&data);
    assert_eq!(converted.cpu_data.len(), 3);
    assert_eq!(type_of_entry(&converted.cpu_data[1]), CpuDataType::Avg);
    assert_eq!(type_of_entry(&converted.cpu_data[2]), CpuDataType::Cpu(7));
    assert_eq!(last_of_entry(&converted.cpu_data[1]), 3.0);
    assert_eq!(last_of_entry(&converted.cpu_data[2]), 4.0);
    assert_eq!(series_of_entry(&converted.cpu_data[1]), vec![]);
    assert_eq!(series_of_entry(&converted.cpu_data[2]), vec![]);

    converted.fill_cpu_series(&data);
    assert_eq!(
        series_of_entry(&converted.cpu_data[2]),
        vec![(-1000, 2.0), (0, 4.0)]
    );
}

#[test]
fn a_harvest_with_fewer_cores_limits_the_entries() {
    let mut data = collection(
        1_000 * MS,
        vec![(1_000 * MS, poll(None, None, vec![1.0, 2.0, 3.0], 0.0, 0.0))],
    );
    data.cpu_harvest = cores(2);
    let mut converted: ConvertedData<f64> = ConvertedData::default();
    converted.convert_cpu_data_points(&data);
    assert_eq!(converted.cpu_data.len(), 3);
    data.cpu_harvest = Vec::new();
    converted.convert_cpu_data_points(&data);
    assert_eq!(converted.cpu_data.len(), 1);
    assert!(matches!(converted.cpu_data[0], CpuWidgetData::All));
}

#[test]
fn cpu_conversion_without_polls_empties_the_series() {
    let mut data = collection(
        1_000 * MS,
        vec![(1_000 * MS, poll(None, None, vec![1.0], 0.0, 0.0))],
    );
    data.cpu_harvest = cores(1);
    let mut converted: ConvertedData<f64> = ConvertedData::default();
    converted.convert_cpu_data_points(&data);
    assert_eq!(series_of_entry(&converted.cpu_data[1]), vec![(0, 1.0)]);

    let empty = collection(2_000 * MS, vec![]);
    converted.convert_cpu_data_points(&empty);
    assert_eq!(converted.cpu_data.len(), 2);
    assert_eq!(last_of_entry(&converted.cpu_data[1]), 1.0);
    assert_eq!(series_of_entry(&converted.cpu_data[1]), vec![]);

    let mut untouched: ConvertedData<f64> = ConvertedData::default();
    untouched.convert_cpu_data_points(&empty);
    assert!(untouched.cpu_data.is_empty());
}

#[test]
fn cpu_conversion_leaves_the_rest_alone() {
    let mut data = collection(
        1_000 * MS,
        vec![(1_000 * MS, poll(Some(5.0), None, vec![1.0], 0.0, 0.0))],
    );
    data.cpu_harvest = cores(1);
    let mut converted: ConvertedData<f64> = ConvertedData::default();
    converted.mem_data = convert_mem_data_points(&data);
    converted.rx_display = "kept".to_string();
    converted.load_avg_data = [1.0, 2.0, 3.0];
    converted.process_name_pid_map.insert("init".to_string(), vec![1]);
    converted.convert_cpu_data_points(&data);
    assert_eq!(converted.mem_data, vec![(0, 5.0)]);
    assert_eq!(converted.rx_display, "kept");
    assert_eq!(converted.load_avg_data, [1.0, 2.0, 3.0]);
    assert_eq!(converted.process_name_pid_map.get("init"), Some(&vec![1]));
    assert!(converted.process_cmd_pid_map.is_empty());
}

#[test]
fn network_scaling_follows_the_settings() {
    assert_eq!(
        network_scaling(&AxisScaling::Log, &DataUnit::Byte, true),
        NetworkScaling::Log2 { subtrahend: 3 }
    );
    assert_eq!(
        network_scaling(&AxisScaling::Log, &DataUnit::Bit, true),
        NetworkScaling::Log2 { subtrahend: 0 }
    );
    assert_eq!(
        network_scaling(&AxisScaling::Log, &DataUnit::Byte, false),
        NetworkScaling::Log10 { divisor: 8 }
    );
    assert_eq!(
        network_scaling(&AxisScaling::Log, &DataUnit::Bit, false),
        NetworkScaling::Log10 { divisor: 1 }
    );
    for binary in [true, false] {
        assert_eq!(
            network_scaling(&AxisScaling::Linear, &DataUnit::Byte, binary),
            NetworkScaling::Linear { divisor: 8 }
        );
        assert_eq!(
            network_scaling(&AxisScaling::Linear, &DataUnit::Bit, binary),
            NetworkScaling::Linear { divisor: 1 }
        );
    }
}

#[test]
fn binary_log_scaling_of_bytes_subtracts_three() {
    let data = collection(
        1_000 * MS,
        vec![
            (0, poll(None, None, vec![], 1024.0, 8.0)),
            (1_000 * MS, poll(None, None, vec![], 65536.0, 4096.0)),
        ],
    );
    let (rx, tx) = get_rx_tx_data_points(
        &data,
        &AxisScaling::Log,
        &DataUnit::Byte,
        true,
        &float_scaling,
    );
    assert_eq!(rx, vec![(-1000, 7.0), (0, 13.0)]);
    assert_eq!(tx, vec![(-1000, 0.0), (0, 9.0)]);
    assert_eq!(rx[0].1, 1024f64.log2() - 3.0);
    assert_ne!(rx[0].1, 1024f64.log2() - 4.0);
}

#[test]
fn network_series_in_every_scaling() {
    let data = collection(
        1_000 * MS,
        vec![
            (0, poll(None, None, vec![], 8000.0, 80.0)),
            (1_000 * MS, poll(None, None, vec![], 256.0, 1_000_000.0)),
        ],
    );
    let (rx, tx) =
        get_rx_tx_data_points(&data, &AxisScaling::Linear, &DataUnit::Bit, true, &float_scaling);
    assert_eq!(rx, vec![(-1000, 8000.0), (0, 256.0)]);
    assert_eq!(tx, vec![(-1000, 80.0), (0, 1_000_000.0)]);

    let (rx, tx) =
        get_rx_tx_data_points(&data, &AxisScaling::Linear, &DataUnit::Byte, false, &float_scaling);
    assert_eq!(rx, vec![(-1000, 1000.0), (0, 32.0)]);
    assert_eq!(tx, vec![(-1000, 10.0), (0, 125_000.0)]);

    let (rx, _) =
        get_rx_tx_data_points(&data, &AxisScaling::Log, &DataUnit::Bit, true, &float_scaling);
    assert_eq!(rx[1], (0, 8.0));

    let (rx, tx) =
        get_rx_tx_data_points(&data, &AxisScaling::Log, &DataUnit::Byte, false, &float_scaling);
    assert_eq!(rx[0], (-1000, (8000.0f64 / 8.0).log10()));
    assert_eq!(tx[0], (-1000, 1.0));

    let (_, tx) =
        get_rx_tx_data_points(&data, &AxisScaling::Log, &DataUnit::Bit, false, &float_scaling);
    assert_eq!(tx[1], (0, 6.0));
}

#[test]
fn network_series_stop_at_the_frozen_instant() {
    let mut data = collection(
        2_000 * MS,
        vec![
            (0, poll(None, None, vec![], 8.0, 16.0)),
            (1_000 * MS, poll(None, None, vec![], 24.0, 32.0)),
            (2_000 * MS, poll(None, None, vec![], 40.0, 48.0)),
        ],
    );
    data.frozen_instant = Some(1_000 * MS);
    let (rx, tx) =
        get_rx_tx_data_points(&data, &AxisScaling::Linear, &DataUnit::Byte, true, &float_scaling);
    assert_eq!(rx, vec![(-1000, 1.0), (0, 3.0)]);
    assert_eq!(tx, vec![(-1000, 2.0), (0, 4.0)]);
}

#[test]
fn disks_are_paired_with_their_rates() {
    let mut data = collection(0, vec![]);
    data.disk_harvest = vec![
        DiskHarvest {
            name: "/dev/sda1".to_string(),
            mount_point: "/".to_string(),
            free_space: Some(100),
            used_space: Some(200),
            total_space: Some(300),
        },
        DiskHarvest {
            name: "/dev/sdb1".to_string(),
            mount_point: "/home".to_string(),
            free_space: None,
            used_space: None,
            total_space: None,
        },
        DiskHarvest {
            name: "tmpfs".to_string(),
            mount_point: "/tmp".to_string(),
            free_space: Some(1),
            used_space: Some(2),
            total_space: Some(3),
        },
    ];
    data.io_labels = vec![
        ("1KB/s".to_string(), "2KB/s".to_string()),
        ("N/A".to_string(), "N/A".to_string()),
    ];
    let mut converted: ConvertedData<f64> = ConvertedData::default();
    converted.ingest_disk(&data);
    assert_eq!(converted.disk_data.len(), 2);
    assert_eq!(converted.disk_data[0].name.as_str(), "/dev/sda1");
    assert_eq!(converted.disk_data[0].mount_point.as_str(), "/");
    assert_eq!(converted.disk_data[0].free_bytes, Some(100));
    assert_eq!(converted.disk_data[0].used_bytes, Some(200));
    assert_eq!(converted.disk_data[0].total_bytes, Some(300));
    assert_eq!(converted.disk_data[0].io_read.as_str(), "1KB/s");
    assert_eq!(converted.disk_data[0].io_write.as_str(), "2KB/s");
    assert_eq!(converted.disk_data[1].name.as_str(), "/dev/sdb1");
    assert_eq!(converted.disk_data[1].mount_point.as_str(), "/home");
    assert_eq!(converted.disk_data[1].free_bytes, None);
    assert_eq!(converted.disk_data[1].io_read.as_str(), "N/A");

    data.disk_harvest.truncate(1);
    converted.ingest_disk(&data);
    assert_eq!(converted.disk_data.len(), 1);
    data.disk_harvest.clear();
    converted.ingest_disk(&data);
    assert!(converted.disk_data.is_empty());
}

#[test]
fn temperatures_are_rounded_up() {
    let mut data = collection(0, vec![]);
    let sensor = |name: &str, negative: bool, mantissa: u64, shift: u8| TempHarvest {
        name: name.to_string(),
        temperature: Reading {
            negative,
            mantissa,
            shift,
        },
    };
    data.temp_harvest = vec![
        sensor("cpu", false, 45, 0),
        sensor("gpu", false, 91, 1),
        sensor("board", false, 161, 2),
        sensor("probe", true, 11, 1),
        sensor("idle", false, 0, 0),
        sensor("trace", false, 1, 200),
    ];
    let mut converted: ConvertedData<f64> = ConvertedData::default();
    converted.ingest_temp(&data, TemperatureType::Fahrenheit);
    let shown: Vec<(&str, u64)> = converted
        .temp_data
        .iter()
        .map(|t| (t.sensor.as_str(), t.temperature_value))
        .collect();
    assert_eq!(
        shown,
        vec![
            ("cpu", 45),
            ("gpu", 46),
            ("board", 41),
            ("probe", 0),
            ("idle", 0),
            ("trace", 1)
        ]
    );
    assert!(converted
        .temp_data
        .iter()
        .all(|t| t.temperature_type == TemperatureType::Fahrenheit));

    data.temp_harvest.truncate(1);
    converted.ingest_temp(&data, TemperatureType::Kelvin);
    assert_eq!(converted.temp_data.len(), 1);
    assert_eq!(converted.temp_data[0].temperature_type, TemperatureType::Kelvin);
}

#[test]
fn a_row_hands_out_its_cells() {
    let raw = TableRow::Raw(vec![
        CellContent::Simple("a".to_string()),
        CellContent::HasAlt {
            alt: "b".to_string(),
            main: "bee".to_string(),
        },
    ]);
    assert_eq!(raw.row().len(), 2);
    assert!(matches!(&raw.row()[0], CellContent::Simple(s) if s == "a"));
    assert!(
        matches!(&raw.row()[1], CellContent::HasAlt { alt, main } if alt == "b" && main == "bee")
    );
    let styled = TableRow::Styled(
        vec![CellContent::Simple("c".to_string())],
        tui::style::Style::default(),
    );
    assert_eq!(styled.row().len(), 1);
    assert!(matches!(&styled.row()[0], CellContent::Simple(s) if s == "c"));
    let table = TableData::default();
    assert!(table.data.is_empty());
    assert!(table.col_widths.is_empty());
}
