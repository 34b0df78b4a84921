//! Anomaly scoring for a host monitor, and the alert protocol that reports it.
//!
//! Readings and scores are fixed-point numbers: a `u64` counts millionths of
//! the unit (percent, millisecond, or score point), so `1_000_000` is one unit.

pub mod analysis;
pub mod client;
pub mod metrics;
pub mod sampling;
pub mod server;
pub mod socket;
pub mod types;
