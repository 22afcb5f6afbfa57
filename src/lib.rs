//! Resource sampling: turns point-in-time readings of an information provider
//! into snapshots of system health, tracking cumulative network counters
//! between calls to report throughput.

pub mod counters;
pub mod disk;
pub mod laws;
pub mod monitor;
mod provider;
pub mod rate;

pub use counters::{CumulativeCounters, IntervalCounters};
pub use disk::{DiskPolicy, DiskReading};
pub use monitor::{ProviderReadings, ResourceSnapshot, SystemMonitor};
pub use rate::NetworkBaseline;
