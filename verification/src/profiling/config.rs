//! Profiler configuration.
use vstd::prelude::*;

use crate::time::Duration;

verus! {

/// Profiler configuration.
#[derive(Debug, Clone, Copy, PartialEq, Eq, Structural)]
pub struct ProfilerConfig {
    /// Enable memory profiling.
    pub memory_enabled: bool,
    /// Enable leak detection.
    pub leak_detection_enabled: bool,
    /// Sampling interval for periodic snapshots.
    pub sampling_interval: Duration,
    /// Maximum number of snapshots to retain.
    pub max_snapshots: usize,
    /// Allocation size threshold for tracking (bytes).
    pub allocation_threshold: usize,
    /// Enable stack trace capture for allocations (expensive).
    pub capture_stack_traces: bool,
    /// Maximum stack trace depth.
    pub max_stack_depth: usize,
}

impl Default for ProfilerConfig {
    /// Memory profiling and leak detection on, ten-second samples, a thousand
    /// snapshots kept, 1 KiB threshold, no stack traces, depth 16.
    fn default() -> (r: Self)
        ensures
            r.memory_enabled,
            r.leak_detection_enabled,
            r.sampling_interval@ == 10_000_000_000,
            r.max_snapshots == 1000,
            r.allocation_threshold == 1024,
            !r.capture_stack_traces,
            r.max_stack_depth == 16,
    {
        ProfilerConfig {
            memory_enabled: true,
            leak_detection_enabled: true,
            sampling_interval: Duration::from_secs(10),
            max_snapshots: 1000,
            allocation_threshold: 1024,
            capture_stack_traces: false,
            max_stack_depth: 16,
        }
    }
}

} // verus!
