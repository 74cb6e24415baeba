//! Tracing of agent work.

pub mod tracer;

pub use tracer::{Span, Tracer};
