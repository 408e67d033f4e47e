//! Profiling settings, memory accounting by region, and leak severities.
pub mod config;
pub mod leak_detector;
pub mod memory;
pub mod report;

pub use config::ProfilerConfig;
pub use leak_detector::{LeakSeverity, MemorySample, UsageTracker};
pub use memory::{MemoryProfilerConfig, MemoryRegion, MemorySnapshot, RegionSnapshot};
pub use report::ReportFormat;
