//! Agent runtime: configuration, agent bookkeeping, the decisions of an
//! agent's life cycle, scheduling, supervision back-off, isolation settings,
//! metrics and tracing.

mod clock;

pub mod agent_id;
pub mod config;
pub mod error;
pub mod executor;
pub mod isolation;
pub mod lifecycle;
pub mod metrics;
pub mod runtime;
pub mod scheduler;
pub mod supervisor;
pub mod tracing_agent;

pub use agent_id::AgentId;
pub use config::RuntimeConfig;
pub use error::RuntimeError;
pub use executor::Executor;
pub use runtime::Runtime;
