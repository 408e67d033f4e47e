use mabi_core::profiling::memory::{MemoryProfiler, MemoryProfilerConfig};
use mabi_core::simulation::{
    builtin_steps, simulated_latency, BuiltinPattern, BurstPattern, PatternStep, SawtoothPattern,
    SimulationPhase, SteppedPattern,
};
use mabi_core::time::Duration;

#[test]
fn memory_pattern_defaults() {
    let s = SawtoothPattern::default();
    assert_eq!(s.period, Duration::from_secs(30));
    assert_eq!(s.peak_bytes, 1024 * 1024);
    assert_eq!(s.region, "sawtooth");
    let st = SteppedPattern::default();
    assert_eq!(st.step_duration, Duration::from_secs(10));
    assert_eq!(st.step_bytes, 256 * 1024);
    assert_eq!(st.max_steps, 10);
    let b = BurstPattern::default();
    assert_eq!(b.burst_interval, Duration::from_secs(20));
    assert_eq!(b.burst_size, 5 * 1024 * 1024);
    assert_eq!(b.hold_duration, Duration::from_secs(5));
    assert_eq!(b.region, "burst");
}

#[test]
fn stepped_pattern_steps() {
    let pattern = SteppedPattern::default();
    assert_eq!(pattern.step_at(&Duration::from_secs(0)), None);
    assert_eq!(pattern.step_at(&Duration::from_secs(10)), Some(PatternStep::Allocate(256 * 1024)));
    assert_eq!(pattern.step_at(&Duration::from_secs(20)), Some(PatternStep::Allocate(256 * 1024)));
    assert_eq!(pattern.step_at(&Duration::from_millis(10_150)), None);
    assert_eq!(
        pattern.step_at(&Duration::from_secs(90)),
        Some(PatternStep::Release(256 * 1024 * 10))
    );
    assert_eq!(pattern.step_at(&Duration::from_secs(100)), None);
}

#[test]
fn burst_pattern_steps() {
    let pattern = BurstPattern {
        burst_interval: Duration::from_secs(10),
        burst_size: 1024,
        hold_duration: Duration::from_secs(2),
        region: "test".into(),
    };
    assert_eq!(pattern.step_at(&Duration::from_millis(50)), Some(PatternStep::Allocate(1024)));
    assert_eq!(pattern.step_at(&Duration::from_millis(2050)), Some(PatternStep::Release(1024)));
    assert_eq!(pattern.step_at(&Duration::from_millis(3000)), None);
    assert_eq!(pattern.step_at(&Duration::from_millis(10_020)), Some(PatternStep::Allocate(1024)));
}

#[test]
fn simulation_phases_compare() {
    assert_ne!(SimulationPhase::WarmUp, SimulationPhase::Running);
    assert_eq!(SimulationPhase::Completed, SimulationPhase::Completed);
}

#[test]
fn builtin_pattern_steps() {
    assert!(builtin_steps(BuiltinPattern::Steady, &Duration::from_secs(3)).is_empty());
    assert_eq!(
        builtin_steps(BuiltinPattern::GrowthOnly, &Duration::from_secs(3)),
        vec![("growth", PatternStep::Allocate(3072))]
    );
    assert_eq!(
        builtin_steps(BuiltinPattern::GrowthAndRelease, &Duration::from_secs(29)),
        vec![("cyclic", PatternStep::Allocate(10240))]
    );
    assert_eq!(
        builtin_steps(BuiltinPattern::GrowthAndRelease, &Duration::from_secs(90)),
        vec![("cyclic", PatternStep::Release(10240))]
    );
    assert_eq!(
        builtin_steps(BuiltinPattern::HighChurn, &Duration::from_secs(1)),
        vec![("churn", PatternStep::Allocate(1024)), ("churn", PatternStep::Release(512))]
    );
    assert_eq!(
        builtin_steps(BuiltinPattern::Fragmentation, &Duration::from_millis(7)),
        vec![("frag", PatternStep::Allocate(1024))]
    );
    assert_eq!(
        builtin_steps(BuiltinPattern::Fragmentation, &Duration::from_millis(8)),
        vec![("frag", PatternStep::Allocate(4096)), ("frag", PatternStep::Release(64))]
    );
}

#[test]
fn simulated_latency_figures() {
    assert_eq!(simulated_latency(0), (100, 300));
    assert_eq!(simulated_latency(100), (100, 300));
    assert_eq!(simulated_latency(49), (198, 496));
}

fn apply_step(profiler: &mut MemoryProfiler, region: &str, step: Option<PatternStep>) {
    match step {
        Some(PatternStep::Allocate(n)) => profiler.record_allocation(region, n),
        Some(PatternStep::Release(n)) => profiler.record_deallocation(region, n),
        None => {}
    }
}

#[test]
fn test_stepped_pattern() {
    let mut profiler = MemoryProfiler::new(MemoryProfilerConfig::default());
    profiler.start();

    let pattern = SteppedPattern::default();

    apply_step(&mut profiler, &pattern.region, pattern.step_at(&Duration::from_secs(0)));
    apply_step(&mut profiler, &pattern.region, pattern.step_at(&Duration::from_secs(10)));
    apply_step(&mut profiler, &pattern.region, pattern.step_at(&Duration::from_secs(20)));
    assert_eq!(profiler.snapshot().current_bytes, 2 * 256 * 1024);
}

#[test]
fn memory_sim_test_burst_pattern() {
    let mut profiler = MemoryProfiler::new(MemoryProfilerConfig::default());
    profiler.start();

    let pattern = BurstPattern {
        burst_interval: Duration::from_secs(10),
        burst_size: 1024,
        hold_duration: Duration::from_secs(2),
        region: "test".into(),
    };

    apply_step(&mut profiler, &pattern.region, pattern.step_at(&Duration::from_millis(50)));
    let snapshot1 = profiler.snapshot();

    apply_step(&mut profiler, &pattern.region, pattern.step_at(&Duration::from_millis(2050)));
    let snapshot2 = profiler.snapshot();

    assert!(snapshot1.allocation_count > 0);
    assert_eq!(snapshot2.current_bytes, 0);
}
