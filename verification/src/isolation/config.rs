use vstd::prelude::*;

verus! {

/// The IEEE 754 bit pattern of the `f64` value 100.0.
pub const HUNDRED_PERCENT_BITS: u64 = 0x4059_0000_0000_0000;

/// One gibibyte, in bytes.
pub const ONE_GIB: u64 = 1024 * 1024 * 1024;

/// Isolation configuration.
#[derive(Debug, Clone, Copy)]
pub struct IsolationConfig {
    /// Enable isolation.
    pub enabled: bool,
    /// CPU quota in percent, as the bit pattern of an `f64`.
    pub cpu_quota_bits: u64,
    /// Memory limit in bytes.
    pub memory_limit: u64,
    /// Enable network isolation.
    pub network_isolation: bool,
}

/// The configuration that [`IsolationConfig::new`] gives: isolation enabled,
/// a CPU quota of 100 percent, a memory limit of one gibibyte, and no network
/// isolation.
pub open spec fn default_isolation() -> IsolationConfig {
    IsolationConfig {
        enabled: true,
        cpu_quota_bits: HUNDRED_PERCENT_BITS,
        memory_limit: ONE_GIB,
        network_isolation: false,
    }
}

impl IsolationConfig {
    /// Isolation enabled, a CPU quota of 100 percent, a memory limit of one
    /// gibibyte, and no network isolation.
    pub fn new() -> (c: Self)
        ensures
            c == default_isolation(),
    {
        IsolationConfig {
            enabled: true,
            cpu_quota_bits: HUNDRED_PERCENT_BITS,
            memory_limit: ONE_GIB,
            network_isolation: false,
        }
    }

    /// Set the memory limit in bytes.
    pub fn with_memory_limit(self, limit: u64) -> (c: Self)
        ensures
            c == (IsolationConfig { memory_limit: limit, ..self }),
    {
        let mut c = self;
        c.memory_limit = limit;
        c
    }

    /// Enable or disable network isolation.
    pub fn with_network_isolation(self, enable: bool) -> (c: Self)
        ensures
            c == (IsolationConfig { network_isolation: enable, ..self }),
    {
        let mut c = self;
        c.network_isolation = enable;
        c
    }
}

impl Default for IsolationConfig {
    /// The same configuration as [`IsolationConfig::new`].
    fn default() -> (c: Self)
        ensures
            c == default_isolation(),
    {
        IsolationConfig::new()
    }
}

} // verus!
