//! The readings that the collector hands over: the history of timed samples,
//! and the latest harvest of each source.
//!
//! A reading that is only carried to a chart has the type `V` that the host
//! measures in. A reading that a label prints is a [`Reading`]. An instant is a
//! count of nanoseconds since an origin that the collector chose.

use vstd::prelude::*;
use crate::reading::Reading;

verus! {

/// How the value axis of the network graph is scaled.
#[derive(Clone, Copy, Debug, PartialEq, Eq, Structural)]
pub enum AxisScaling {
    Log,
    Linear,
}

/// The unit that network rates are shown in.
#[derive(Clone, Copy, Debug, PartialEq, Eq, Structural)]
pub enum DataUnit {
    Byte,
    Bit,
}

/// What a series of processor load stands for.
#[derive(Clone, Copy, Debug, PartialEq, Eq, Structural)]
pub enum CpuDataType {
    Avg,
    Cpu(usize),
}

/// The unit of temperatures.
#[derive(Clone, Copy, Debug, PartialEq, Eq, Structural)]
pub enum TemperatureType {
    Celsius,
    Kelvin,
    Fahrenheit,
}

/// The load of one processor core at the latest poll.
pub struct CpuData<V> {
    pub data_type: CpuDataType,
    pub cpu_usage: V,
}

/// The network counters at the latest poll: rates in bits per second, totals
/// in bits.
#[derive(Clone, Copy, Debug, PartialEq, Eq, Structural)]
pub struct NetworkHarvest {
    pub rx: u64,
    pub tx: u64,
    pub total_rx: u64,
    pub total_tx: u64,
}

/// The use of memory, or of swap, at the latest poll.
#[derive(Clone, Copy, Debug, PartialEq, Eq, Structural)]
pub struct MemHarvest {
    pub mem_total_in_kib: u64,
    pub mem_used_in_kib: u64,
    /// The share in use, in percent.
    pub use_percent: Option<Reading>,
}

/// One disk at the latest poll.
pub struct DiskHarvest {
    pub name: String,
    pub mount_point: String,
    pub free_space: Option<u64>,
    pub used_space: Option<u64>,
    pub total_space: Option<u64>,
}

/// One temperature sensor at the latest poll.
pub struct TempHarvest {
    pub name: String,
    pub temperature: Reading,
}

/// One battery at the latest poll.
pub struct BatteryHarvest<V> {
    pub charge_percent: V,
    pub secs_until_full: Option<i64>,
    pub secs_until_empty: Option<i64>,
    pub power_consumption_rate_watts: Reading,
    pub health_percent: Reading,
}

/// The readings of one poll that the graphs draw.
pub struct TimedData<V> {
    /// The rate received, in bits per second.
    pub rx_data: V,
    /// The rate sent, in bits per second.
    pub tx_data: V,
    /// The load of each core.
    pub cpu_data: Vec<V>,
    /// The share of memory in use, where it was read.
    pub mem_data: Option<V>,
    /// The share of swap in use, where it was read.
    pub swap_data: Option<V>,
}

/// Everything the collector has: the history, oldest poll first, and the
/// latest harvests.
pub struct DataCollection<V> {
    /// The instant of the latest poll.
    pub current_instant: u64,
    /// The instant at which the display was frozen, while it is.
    pub frozen_instant: Option<u64>,
    pub timed_data_vec: Vec<(u64, TimedData<V>)>,
    pub network_harvest: NetworkHarvest,
    pub memory_harvest: MemHarvest,
    pub swap_harvest: MemHarvest,
    pub cpu_harvest: Vec<CpuData<V>>,
    pub disk_harvest: Vec<DiskHarvest>,
    /// The read and write rates of each disk, as text.
    pub io_labels: Vec<(String, String)>,
    pub temp_harvest: Vec<TempHarvest>,
    pub battery_harvest: Vec<BatteryHarvest<V>>,
}

/// The reading of a poll that a series is made of.
#[derive(Clone, Copy, Debug, PartialEq, Eq, Structural)]
pub enum Metric {
    /// The share of memory in use.
    Mem,
    /// The share of swap in use.
    Swap,
    /// The load of the core with this index.
    Cpu(usize),
    /// The rate received.
    Rx,
    /// The rate sent.
    Tx,
}

impl<V> TimedData<V> {
    /// The reading of `metric` in this poll, where the poll has one.
    pub open spec fn reading(self, metric: Metric) -> Option<V> {
        match metric {
            Metric::Mem => self.mem_data,
            Metric::Swap => self.swap_data,
            Metric::Cpu(core) => if core < self.cpu_data@.len() {
                Some(self.cpu_data@[core as int])
            } else {
                None
            },
            Metric::Rx => Some(self.rx_data),
            Metric::Tx => Some(self.tx_data),
        }
    }
}

impl<V: Copy> TimedData<V> {
    /// The reading of `metric` in this poll, where the poll has one.
    pub fn get_reading(&self, metric: Metric) -> (reading: Option<V>)
        ensures
            reading == self.reading(metric),
    {
        match metric {
            Metric::Mem => self.mem_data,
            Metric::Swap => self.swap_data,
            Metric::Cpu(core) => if core < self.cpu_data.len() {
                Some(self.cpu_data[core])
            } else {
                None
            },
            Metric::Rx => Some(self.rx_data),
            Metric::Tx => Some(self.tx_data),
        }
    }
}

impl<V> DataCollection<V> {
    /// The instant that offsets are counted back from: the frozen instant
    /// while the display is frozen, else the instant of the latest poll.
    pub open spec fn display_instant(self) -> u64 {
        match self.frozen_instant {
            Some(frozen) => frozen,
            None => self.current_instant,
        }
    }

    /// The instant that offsets are counted back from.
    pub fn get_display_instant(&self) -> (now: u64)
        ensures
            now == self.display_instant(),
    {
        if let Some(frozen_instant) = self.frozen_instant {
            frozen_instant
        } else {
            self.current_instant
        }
    }
}

} // verus!
