use vstd::prelude::*;

verus! {

/// Number of CPUs that this process may use, as `num_cpus::get` reports it.
///
/// Trusted: `num_cpus::get` reads the machine's CPU affinity and cgroup
/// quota; its documentation promises a result of at least one. Nothing else
/// is claimed of the value, which depends on the machine.
#[verifier::external_body]
fn available_cpus() -> (n: usize)
    ensures
        n >= 1,
{
    num_cpus::get()
}

/// Runtime configuration.
#[derive(Debug, Clone, Copy)]
pub struct RuntimeConfig {
    /// Maximum number of worker threads.
    pub max_workers: usize,
    /// Enable metrics collection.
    pub enable_metrics: bool,
    /// Enable tracing.
    pub enable_tracing: bool,
    /// Default timeout in milliseconds.
    pub default_timeout_ms: u64,
}

impl RuntimeConfig {
    /// Create a new runtime configuration: one worker per available CPU (as
    /// `num_cpus::get` reports them), metrics and tracing on, and a 30 second
    /// default timeout.
    pub fn new() -> (c: Self)
        ensures
            c.max_workers >= 1,
            c.enable_metrics,
            c.enable_tracing,
            c.default_timeout_ms == 30000,
    {
        RuntimeConfig::with_cpu_count(available_cpus())
    }

    /// The configuration that [`RuntimeConfig::new`] builds on a machine with
    /// `cpus` available CPUs: one worker per CPU, metrics and tracing on, and
    /// a 30 second default timeout.
    pub fn with_cpu_count(cpus: usize) -> (c: Self)
        requires
            cpus >= 1,
        ensures
            c.max_workers == cpus,
            c.enable_metrics,
            c.enable_tracing,
            c.default_timeout_ms == 30000,
    {
        RuntimeConfig {
            max_workers: cpus,
            enable_metrics: true,
            enable_tracing: true,
            default_timeout_ms: 30000,
        }
    }

    /// Set the maximum number of workers.
    pub fn with_max_workers(self, workers: usize) -> (c: Self)
        ensures
            c == (RuntimeConfig { max_workers: workers, ..self }),
    {
        let mut c = self;
        c.max_workers = workers;
        c
    }

    /// Enable or disable metrics.
    pub fn with_metrics(self, enable: bool) -> (c: Self)
        ensures
            c == (RuntimeConfig { enable_metrics: enable, ..self }),
    {
        let mut c = self;
        c.enable_metrics = enable;
        c
    }

    /// Enable or disable tracing.
    pub fn with_tracing(self, enable: bool) -> (c: Self)
        ensures
            c == (RuntimeConfig { enable_tracing: enable, ..self }),
    {
        let mut c = self;
        c.enable_tracing = enable;
        c
    }

    /// Set the default timeout in milliseconds.
    pub fn with_timeout(self, timeout_ms: u64) -> (c: Self)
        ensures
            c == (RuntimeConfig { default_timeout_ms: timeout_ms, ..self }),
    {
        let mut c = self;
        c.default_timeout_ms = timeout_ms;
        c
    }
}

impl Default for RuntimeConfig {
    /// The same configuration as [`RuntimeConfig::new`].
    fn default() -> (c: Self)
        ensures
            c.max_workers >= 1,
            c.enable_metrics,
            c.enable_tracing,
            c.default_timeout_ms == 30000,
    {
        RuntimeConfig::new()
    }
}

} // verus!
