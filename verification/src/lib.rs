//! Data projection and interactive time scaling for a terminal resource monitor.
//!
//! The crate turns a growing history of hardware readings into the series and
//! labels that a chart draws, and owns the zoom control of the time axis.
//!
//! - [`time_graph`] holds the range of the time axis, the commands that widen
//!   and narrow it, and the timer that hides the axis labels.
//! - [`data_conversion`] turns the collector's data ([`data_farmer`]) into what
//!   the widgets show; [`series`], [`network`], [`memory`] and [`battery`] say
//!   what each of them holds.
//! - [`units`], [`binary64`], [`rounding`], [`reading`] and [`text`] write
//!   numbers: magnitude prefixes, rounding, and digits.
//! - [`event`] holds the input events, and [`outside`] what is taken on trust
//!   from other crates.

pub mod battery;
pub mod binary64;
pub mod data_conversion;
pub mod data_farmer;
pub mod event;
pub mod memory;
pub mod network;
pub mod outside;
pub mod reading;
pub mod rounding;
pub mod series;
pub mod text;
pub mod time_graph;
pub mod units;
