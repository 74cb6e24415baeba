use vstd::prelude::*;
use vstd::string::StringExecFns;

verus! {

/// Runtime errors, each with a message.
#[derive(Debug, Clone)]
pub enum RuntimeError {
    AgentNotFound(String),
    SpawnFailed(String),
    ExecutionFailed(String),
    SchedulingError(String),
    SupervisionError(String),
    IsolationError(String),
    ConfigError(String),
    Other(String),
}

/// The display text of an error: a fixed prefix for its kind, then its message.
pub open spec fn error_text(e: RuntimeError) -> Seq<char> {
    match e {
        RuntimeError::AgentNotFound(m) => "Agent not found: "@ + m@,
        RuntimeError::SpawnFailed(m) => "Failed to spawn agent: "@ + m@,
        RuntimeError::ExecutionFailed(m) => "Execution failed: "@ + m@,
        RuntimeError::SchedulingError(m) => "Scheduling error: "@ + m@,
        RuntimeError::SupervisionError(m) => "Supervision error: "@ + m@,
        RuntimeError::IsolationError(m) => "Isolation error: "@ + m@,
        RuntimeError::ConfigError(m) => "Configuration error: "@ + m@,
        RuntimeError::Other(m) => "Runtime error: "@ + m@,
    }
}

impl RuntimeError {
    /// The error's display text.
    pub fn to_string(&self) -> (s: String)
        ensures
            s@ == error_text(*self),
    {
        match self {
            RuntimeError::AgentNotFound(m) => "Agent not found: ".to_owned().concat(m.as_str()),
            RuntimeError::SpawnFailed(m) => "Failed to spawn agent: ".to_owned().concat(m.as_str()),
            RuntimeError::ExecutionFailed(m) => "Execution failed: ".to_owned().concat(m.as_str()),
            RuntimeError::SchedulingError(m) => "Scheduling error: ".to_owned().concat(m.as_str()),
            RuntimeError::SupervisionError(m) => "Supervision error: ".to_owned().concat(
                m.as_str(),
            ),
            RuntimeError::IsolationError(m) => "Isolation error: ".to_owned().concat(m.as_str()),
            RuntimeError::ConfigError(m) => "Configuration error: ".to_owned().concat(m.as_str()),
            RuntimeError::Other(m) => "Runtime error: ".to_owned().concat(m.as_str()),
        }
    }
}

} // verus!
