use mabi_core::profiling::memory::{MemoryCounters, MemoryProfiler, MemoryProfilerConfig, MemoryRegion};
use mabi_core::profiling::{LeakSeverity, MemorySample, ProfilerConfig, UsageTracker};
use mabi_core::time::Duration;

#[test]
fn test_leak_severity_display() {
    assert_eq!(LeakSeverity::Low.to_string(), "LOW");
    assert_eq!(LeakSeverity::Critical.to_string(), "CRITICAL");
}

#[test]
fn test_profiler_config_default() {
    let config = ProfilerConfig::default();
    assert!(config.memory_enabled);
    assert!(config.leak_detection_enabled);
    assert_eq!(config.sampling_interval, Duration::from_secs(10));
}

#[test]
fn test_memory_profiler_basic() {
    let mut profiler = MemoryProfiler::new(MemoryProfilerConfig::default());
    profiler.start();

    profiler.record_allocation("test", 1024);
    assert_eq!(profiler.snapshot().current_bytes, 1024);

    profiler.record_allocation("test", 2048);
    assert_eq!(profiler.snapshot().current_bytes, 3072);

    profiler.record_deallocation("test", 1024);
    assert_eq!(profiler.snapshot().current_bytes, 2048);
}

#[test]
fn test_memory_profiler_peak() {
    let mut profiler = MemoryProfiler::new(MemoryProfilerConfig::default());
    profiler.start();

    profiler.record_allocation("test", 1000);
    profiler.record_allocation("test", 2000);
    profiler.record_deallocation("test", 1500);

    let snapshot = profiler.snapshot();
    assert_eq!(snapshot.current_bytes, 1500);
    assert_eq!(snapshot.peak_bytes, 3000);
}

#[test]
fn test_memory_profiler_regions() {
    let mut profiler = MemoryProfiler::new(MemoryProfilerConfig::default());
    profiler.start();

    profiler.record_allocation("devices", 1000);
    profiler.record_allocation("registers", 2000);
    profiler.record_allocation("devices", 500);

    let regions = profiler.regions();
    assert!(regions.contains(&"devices".to_string()));
    assert!(regions.contains(&"registers".to_string()));

    let device_region = profiler.region_usage("devices").unwrap();
    assert_eq!(device_region.current_bytes, 1500);
    assert_eq!(device_region.allocation_count, 2);
}

#[test]
fn test_memory_profiler_reset() {
    let mut profiler = MemoryProfiler::new(MemoryProfilerConfig::default());
    profiler.start();

    profiler.record_allocation("test", 1024);
    profiler.reset();

    let snapshot = profiler.snapshot();
    assert_eq!(snapshot.current_bytes, 0);
    assert_eq!(snapshot.allocation_count, 0);
}

#[test]
fn profiler_largest_region_and_unknown_release() {
    let mut profiler = MemoryProfiler::new(MemoryProfilerConfig::default());
    profiler.start();
    profiler.record_allocation("a", 1000);
    profiler.record_allocation("b", 2000);
    profiler.record_deallocation("a", 500);
    profiler.record_deallocation("missing", 10);

    let snapshot = profiler.snapshot();
    assert_eq!(snapshot.current_bytes, 2490);
    assert_eq!(snapshot.allocation_count, 2);
    assert_eq!(snapshot.deallocation_count, 2);
    let i = snapshot.largest_region().unwrap();
    assert_eq!(snapshot.regions.key_at(i), "b");
    assert!(profiler.region_usage("missing").is_none());
    assert_eq!(profiler.regions(), vec!["a".to_string(), "b".to_string()]);
    profiler.stop();
    assert!(!profiler.is_running());
}

#[test]
fn region_snapshot_average_allocation_size() {
    let mut region = MemoryRegion::new("test");
    region.record_allocation(100);
    region.record_allocation(200);
    region.record_deallocation(50);

    let snapshot = region.snapshot();
    assert_eq!(snapshot.name, "test");
    assert_eq!(snapshot.current_bytes, 250);
    assert_eq!(snapshot.peak_bytes, 300);
    assert_eq!(snapshot.average_allocation_size(), 150);
    assert_eq!(MemoryRegion::new("empty").snapshot().average_allocation_size(), 0);
}

#[test]
fn counters_wrap_like_atomics() {
    let mut c = MemoryCounters::zero();
    c.record_allocation(10);
    c.record_deallocation(20);
    assert_eq!(c.current_bytes, u64::MAX - 9);
    assert_eq!(c.peak_bytes, 10);
    c.record_allocation(u64::MAX);
    assert_eq!(c.total_allocated, 9);
}

#[test]
fn memory_profiler_config_default() {
    let config = MemoryProfilerConfig::default();
    assert_eq!(config.sampling_interval, Duration::from_secs(10));
    assert_eq!(config.max_snapshots, 1000);
    assert!(config.track_allocations);
    assert_eq!(config.allocation_threshold, 1024);
}

#[test]
fn usage_tracker_samples_every_ten_seconds() {
    let mut t = UsageTracker::new();
    t.record_allocation(100, 0);
    t.record_allocation(50, 5_000);
    t.record_deallocation(500, 10_000);
    assert_eq!(t.current_bytes(), 0);
    assert_eq!(t.allocation_count(), 2);
    assert_eq!(t.deallocation_count(), 1);
    assert_eq!(
        t.samples(),
        &[MemorySample { bytes: 100, at_ms: 0 }, MemorySample { bytes: 0, at_ms: 10_000 }]
    );
}

#[test]
fn usage_tracker_keeps_latest_hundred() {
    let mut t = UsageTracker::new();
    for i in 0..150u64 {
        t.record_allocation(1, i * 10_000);
    }
    assert_eq!(t.samples().len(), 100);
    assert_eq!(t.samples()[0].bytes, 51);
    assert_eq!(t.samples()[99].bytes, 150);
}

#[test]
fn memory_profiler_history_keeps_latest_snapshots() {
    let config = MemoryProfilerConfig {
        sampling_interval: Duration::from_secs(0),
        max_snapshots: 2,
        track_allocations: true,
        allocation_threshold: 1024,
    };
    let mut profiler = MemoryProfiler::new(config);
    profiler.start();
    profiler.record_allocation("a", 100);
    profiler.record_allocation("a", 200);
    profiler.record_allocation("b", 300);
    let history = profiler.history();
    assert_eq!(history.len(), 2);
    assert_eq!(history[0].snapshot.current_bytes, 300);
    assert_eq!(history[1].snapshot.current_bytes, 600);
    profiler.record_deallocation("a", 100);
    assert_eq!(profiler.history().len(), 2);
}
