//! Agent isolation settings and resource monitoring.
//!
//! CPU percentages are `f64` values, held here as their IEEE 754 bit
//! patterns (`f64::to_bits`).

pub mod config;
pub mod limits;
pub mod monitor;

pub use config::IsolationConfig;
pub use limits::ResourceLimits;
pub use monitor::{ResourceMonitor, ResourceUsage};
