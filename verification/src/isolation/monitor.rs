use vstd::prelude::*;

use crate::clock::{nanos_since, now};

verus! {

/// Resource usage statistics.
#[derive(Debug, Clone, Copy)]
pub struct ResourceUsage {
    /// CPU usage in percent, as the bit pattern of an `f64`.
    pub cpu_usage_bits: u64,
    /// Memory usage in bytes.
    pub memory_usage: u64,
    /// Number of threads.
    pub thread_count: u32,
}

impl Default for ResourceUsage {
    /// No CPU (the bit pattern of 0.0), no memory, no threads.
    fn default() -> (u: Self)
        ensures
            u == (ResourceUsage { cpu_usage_bits: 0, memory_usage: 0, thread_count: 0 }),
    {
        ResourceUsage { cpu_usage_bits: 0, memory_usage: 0, thread_count: 0 }
    }
}

/// Resource monitor: when it started, and the last usage reported to it.
pub struct ResourceMonitor {
    start_time: std::time::Instant,
    current_usage: ResourceUsage,
}

impl ResourceMonitor {
    /// The instant the monitor started.
    pub closed spec fn spec_start(&self) -> std::time::Instant {
        self.start_time
    }

    /// The last usage reported.
    pub closed spec fn spec_usage(&self) -> ResourceUsage {
        self.current_usage
    }

    /// A monitor starting now, with no usage reported yet.
    pub fn new() -> (m: Self)
        ensures
            m.spec_usage() == (ResourceUsage { cpu_usage_bits: 0, memory_usage: 0, thread_count: 0 }),
    {
        ResourceMonitor { start_time: now(), current_usage: ResourceUsage::default() }
    }

    /// The last usage reported.
    pub fn current_usage(&self) -> (u: &ResourceUsage)
        ensures
            *u == self.spec_usage(),
    {
        &self.current_usage
    }

    /// Report a new usage; the start instant stays.
    pub fn update(&mut self, usage: ResourceUsage)
        ensures
            final(self).spec_usage() == usage,
            final(self).spec_start() == old(self).spec_start(),
    {
        self.current_usage = usage;
    }

    /// The time since the monitor started, in nanoseconds.
    pub fn uptime(&self) -> (n: u128) {
        nanos_since(&self.start_time)
    }
}

impl Default for ResourceMonitor {
    /// The same monitor as [`ResourceMonitor::new`].
    fn default() -> (m: Self)
        ensures
            m.spec_usage() == (ResourceUsage { cpu_usage_bits: 0, memory_usage: 0, thread_count: 0 }),
    {
        ResourceMonitor::new()
    }
}

} // verus!
