//! Supervision of agents.

pub mod backoff;

pub use backoff::ExponentialBackoff;
