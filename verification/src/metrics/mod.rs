//! Metrics collection and export.
//!
//! Metric values are `f64` values, held here as their IEEE 754 bit patterns
//! (`f64::to_bits`).

pub mod collector;
pub mod exporter;
pub mod registry;

pub use collector::{Collector, Metric, MetricType};
pub use exporter::MetricsExporter;
pub use registry::MetricsRegistry;
