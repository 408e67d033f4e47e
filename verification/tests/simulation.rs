use mabi_core::simulation::{
    next_phase, simulation_passed, LoadPattern, LoadPatternBuilder, ScaleConfig, ScalePreset, SimulationPhase,
};
use mabi_core::time::Duration;

#[test]
fn test_scale_presets() {
    assert_eq!(ScaleConfig::tiny().device_count, 10);
    assert_eq!(ScaleConfig::small().device_count, 100);
    assert_eq!(ScaleConfig::medium().device_count, 1_000);
    assert_eq!(ScaleConfig::large().device_count, 10_000);
    assert_eq!(ScaleConfig::xlarge().device_count, 50_000);
    assert_eq!(ScaleConfig::max().device_count, 100_000);
}

#[test]
fn test_scale_devices() {
    let config = ScaleConfig::devices(5000);
    assert_eq!(config.device_count, 5000);
}

#[test]
fn test_total_points() {
    let config = ScaleConfig::devices(100).with_points_per_device(50);
    assert_eq!(config.total_points(), 5000);
}

#[test]
fn test_scale_preset_conversion() {
    let config: ScaleConfig = ScalePreset::Large.into();
    assert_eq!(config.device_count, 10_000);
}

#[test]
fn scale_for_a_device_count() {
    let c = ScaleConfig::devices(5000);
    assert_eq!(c.batch_size, 100);
    assert_eq!(c.concurrent_connections, 50);
    assert_eq!(c.target_ops_per_sec, 50_000);
    let big = ScaleConfig::devices(20_000);
    assert_eq!(big.batch_size, 200);
    let small = ScaleConfig::devices(10);
    assert_eq!(small.concurrent_connections, 10);
    assert_eq!(ScaleConfig::devices(1024).with_memory_per_device(1024).estimated_memory(), 1024 * 1024);
    assert_eq!(ScaleConfig::default(), ScaleConfig::medium());
    let all = ScalePreset::all();
    assert_eq!(all.len(), 6);
    for w in all.windows(2) {
        assert!(w[0].to_config().device_count < w[1].to_config().device_count);
    }
}

#[test]
fn test_steady_pattern() {
    let pattern = LoadPattern::steady(1000);

    assert_eq!(pattern.ops_for_elapsed(Duration::from_secs(0)), Some(1000));
    assert_eq!(pattern.ops_for_elapsed(Duration::from_secs(100)), Some(1000));
}

#[test]
fn test_step_pattern() {
    let pattern = LoadPattern::Step {
        initial: 100,
        steps: vec![(Duration::from_secs(5), 500), (Duration::from_secs(10), 1000)],
    };

    assert_eq!(pattern.ops_for_elapsed(Duration::from_secs(0)), Some(100));
    assert_eq!(pattern.ops_for_elapsed(Duration::from_secs(3)), Some(100));
    assert_eq!(pattern.ops_for_elapsed(Duration::from_secs(5)), Some(500));
    assert_eq!(pattern.ops_for_elapsed(Duration::from_secs(7)), Some(500));
    assert_eq!(pattern.ops_for_elapsed(Duration::from_secs(10)), Some(1000));
}

#[test]
fn test_spike_pattern() {
    let pattern = LoadPattern::spike(100, 10000, Duration::from_secs(5));

    assert_eq!(pattern.ops_for_elapsed(Duration::from_secs(0)), Some(10000)); // During spike
    assert_eq!(pattern.ops_for_elapsed(Duration::from_secs(3)), Some(10000)); // During spike
    assert_eq!(pattern.ops_for_elapsed(Duration::from_secs(6)), Some(100)); // After spike
}

#[test]
fn load_test_burst_pattern() {
    let pattern = LoadPattern::burst(100, 5000, Duration::from_secs(2), Duration::from_secs(10));

    // During burst (0-2s in each 10s cycle)
    assert_eq!(pattern.ops_for_elapsed(Duration::from_secs(0)), Some(5000));
    assert_eq!(pattern.ops_for_elapsed(Duration::from_secs(1)), Some(5000));

    // After burst (2-10s)
    assert_eq!(pattern.ops_for_elapsed(Duration::from_secs(3)), Some(100));
    assert_eq!(pattern.ops_for_elapsed(Duration::from_secs(9)), Some(100));

    // Next cycle
    assert_eq!(pattern.ops_for_elapsed(Duration::from_secs(10)), Some(5000));
}

#[test]
fn test_random_pattern() {
    let pattern = LoadPattern::Random { min_ops: 100, max_ops: 1000 };

    for i in 0..10 {
        let ops = pattern.ops_for_elapsed(Duration::from_secs(i)).unwrap();
        assert!(ops >= 100 && ops <= 1000);
    }
}

#[test]
fn test_pattern_builder() {
    let pattern = LoadPatternBuilder::new()
        .initial(100)
        .step_at(Duration::from_secs(5), 500)
        .step_at(Duration::from_secs(10), 1000)
        .build_step();

    assert_eq!(pattern.ops_for_elapsed(Duration::from_secs(0)), Some(100));
    assert_eq!(pattern.ops_for_elapsed(Duration::from_secs(5)), Some(500));
    assert_eq!(pattern.ops_for_elapsed(Duration::from_secs(10)), Some(1000));
}

#[test]
fn test_pattern_descriptions() {
    let patterns = vec![
        LoadPattern::steady(1000),
        LoadPattern::ramp(100, 1000, Duration::from_secs(10)),
        LoadPattern::wave(500, 200, Duration::from_secs(30)),
        LoadPattern::spike(100, 5000, Duration::from_secs(5)),
    ];

    for pattern in patterns {
        let desc = pattern.description();
        assert!(!desc.is_empty());
    }
}

#[test]
fn pattern_values_and_texts() {
    let steps_out_of_order = LoadPattern::Step {
        initial: 1,
        steps: vec![(Duration::from_secs(10), 3), (Duration::from_secs(5), 2)],
    };
    assert_eq!(steps_out_of_order.ops_for_elapsed(Duration::from_secs(12)), Some(2));
    let random = LoadPattern::Random { min_ops: 10, max_ops: 19 };
    assert_eq!(random.ops_for_elapsed(Duration::from_micros(1234)), Some(14));
    assert_eq!(LoadPattern::ramp(1, 2, Duration::from_secs(1)).ops_for_elapsed(Duration::zero()), None);
    assert_eq!(LoadPattern::default().description(), "Steady 1000 ops/s");
    assert_eq!(
        LoadPattern::ramp(100, 1000, Duration::from_secs(10)).description(),
        "Ramp 100 -> 1000 ops/s over 10s"
    );
    assert_eq!(
        LoadPattern::burst(1, 2, Duration::from_millis(1500), Duration::from_secs(4)).description(),
        "Burst 1->2 ops/s for 1.5s every 4s"
    );
    assert_eq!(LoadPattern::wave(5, 2, Duration::from_secs(3)).description(), "Wave 5±2 ops/s, period 3s");
    assert_eq!(
        LoadPattern::Random { min_ops: 1, max_ops: 9 }.description(),
        "Random 1-9 ops/s"
    );
    assert_eq!(
        LoadPattern::DailyTraffic { peak: 9, off_peak: 1, day_duration: Duration::from_secs(60) }.description(),
        "Daily traffic 1-9 ops/s"
    );
}

#[test]
fn test_estimated_memory() {
    let config = ScaleConfig::devices(1024).with_memory_per_device(1024);
    assert_eq!(config.estimated_memory(), 1024 * 1024);
    let megabytes = config.estimated_memory() as f64 / 1024.0 / 1024.0;
    assert!((megabytes - 1.0).abs() < 0.01);
}

#[test]
fn phases_follow_in_order_and_failure_skips_to_ramp_down() {
    assert_eq!(next_phase(SimulationPhase::Initializing, false), SimulationPhase::WarmUp);
    assert_eq!(next_phase(SimulationPhase::Initializing, true), SimulationPhase::RampDown);
    assert_eq!(next_phase(SimulationPhase::WarmUp, false), SimulationPhase::Running);
    assert_eq!(next_phase(SimulationPhase::WarmUp, true), SimulationPhase::RampDown);
    assert_eq!(next_phase(SimulationPhase::Running, true), SimulationPhase::RampDown);
    assert_eq!(next_phase(SimulationPhase::RampDown, false), SimulationPhase::Finalizing);
    assert_eq!(next_phase(SimulationPhase::Finalizing, true), SimulationPhase::Completed);
    assert_eq!(next_phase(SimulationPhase::Completed, false), SimulationPhase::Completed);
}

#[test]
fn simulation_passes_at_one_percent_errors() {
    assert!(simulation_passed(0, 0, 0));
    assert!(simulation_passed(0, 5, 0));
    assert!(simulation_passed(0, 1, 100));
    assert!(!simulation_passed(0, 2, 100));
    assert!(!simulation_passed(1, 0, 100));
    assert!(simulation_passed(0, u64::MAX / 100, u64::MAX));
}
