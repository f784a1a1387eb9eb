//! A point-in-time hardware telemetry collector.
//!
//! The collector reports CPU, memory, thermal, disk and optional GPU
//! readings to a polling host. Every percentage or physical reading is
//! carried as a fixed-point integer in hundredths of its unit (percent,
//! degree Celsius, watt), and every metric degrades to a defined default
//! when the hardware behind it is absent or unreadable.

pub mod collector;
pub mod label;
pub mod metrics;
pub mod probe;

pub use crate::collector::CPU;
