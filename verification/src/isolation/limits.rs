use vstd::prelude::*;

use super::config::HUNDRED_PERCENT_BITS;

verus! {

/// 512 mebibytes, in bytes.
pub const DEFAULT_MAX_MEMORY: u64 = 512 * 1024 * 1024;

/// Resource limits for agents.
#[derive(Debug, Clone, Copy)]
pub struct ResourceLimits {
    /// Maximum CPU usage in percent (0 to 100), as the bit pattern of an `f64`.
    pub max_cpu_bits: u64,
    /// Maximum memory in bytes.
    pub max_memory: u64,
    /// Maximum number of file descriptors.
    pub max_file_descriptors: u32,
    /// Maximum number of threads.
    pub max_threads: u32,
}

/// The limits that [`ResourceLimits::new`] gives: 100 percent CPU, 512
/// mebibytes of memory, 1024 file descriptors and 10 threads.
pub open spec fn default_limits() -> ResourceLimits {
    ResourceLimits {
        max_cpu_bits: HUNDRED_PERCENT_BITS,
        max_memory: DEFAULT_MAX_MEMORY,
        max_file_descriptors: 1024,
        max_threads: 10,
    }
}

impl ResourceLimits {
    /// 100 percent CPU, 512 mebibytes of memory, 1024 file descriptors and
    /// 10 threads.
    pub fn new() -> (l: Self)
        ensures
            l == default_limits(),
    {
        ResourceLimits {
            max_cpu_bits: HUNDRED_PERCENT_BITS,
            max_memory: DEFAULT_MAX_MEMORY,
            max_file_descriptors: 1024,
            max_threads: 10,
        }
    }

    /// Set the maximum memory in bytes.
    pub fn with_max_memory(self, memory: u64) -> (l: Self)
        ensures
            l == (ResourceLimits { max_memory: memory, ..self }),
    {
        let mut l = self;
        l.max_memory = memory;
        l
    }

    /// Set the maximum number of file descriptors.
    pub fn with_max_file_descriptors(self, fds: u32) -> (l: Self)
        ensures
            l == (ResourceLimits { max_file_descriptors: fds, ..self }),
    {
        let mut l = self;
        l.max_file_descriptors = fds;
        l
    }

    /// Set the maximum number of threads.
    pub fn with_max_threads(self, threads: u32) -> (l: Self)
        ensures
            l == (ResourceLimits { max_threads: threads, ..self }),
    {
        let mut l = self;
        l.max_threads = threads;
        l
    }
}

impl Default for ResourceLimits {
    /// The same limits as [`ResourceLimits::new`].
    fn default() -> (l: Self)
        ensures
            l == default_limits(),
    {
        ResourceLimits::new()
    }
}

} // verus!
