use mabi_core::metrics::{classify_error, LatencyStats, Timer, METRIC_PREFIX};
use mabi_core::time::Duration;

#[test]
fn test_latency_stats_from_samples() {
    let samples: Vec<Duration> = vec![
        Duration::from_micros(100),
        Duration::from_micros(200),
        Duration::from_micros(300),
        Duration::from_micros(400),
        Duration::from_micros(500),
    ];

    let stats = LatencyStats::from_samples(&samples);
    assert_eq!(stats.min_us, 100);
    assert_eq!(stats.max_us, 500);
    assert_eq!(stats.avg_us, 300);
    assert_eq!(stats.count, 5);
    assert!(stats.p50_us >= 200 && stats.p50_us <= 300);
}

#[test]
fn test_latency_stats_empty() {
    let samples: Vec<Duration> = vec![];
    let stats = LatencyStats::from_samples(&samples);

    assert_eq!(stats.min_us, 0);
    assert_eq!(stats.max_us, 0);
    assert_eq!(stats.avg_us, 0);
    assert_eq!(stats.count, 0);
}

#[test]
fn test_latency_stats_single_sample() {
    let samples = vec![Duration::from_micros(150)];
    let stats = LatencyStats::from_samples(&samples);

    assert_eq!(stats.min_us, 150);
    assert_eq!(stats.max_us, 150);
    assert_eq!(stats.avg_us, 150);
    assert_eq!(stats.count, 1);
}

#[test]
fn test_latency_stats_percentiles() {
    let samples: Vec<Duration> = (1..=100).map(|i| Duration::from_micros(i)).collect();

    let stats = LatencyStats::from_samples(&samples);
    assert_eq!(stats.min_us, 1);
    assert_eq!(stats.max_us, 100);
    assert!(stats.p50_us >= 50 && stats.p50_us <= 51);
    assert!(stats.p90_us >= 90 && stats.p90_us <= 91);
    assert!(stats.p95_us >= 95 && stats.p95_us <= 96);
    assert!(stats.p99_us >= 99 && stats.p99_us <= 100);
}

#[test]
fn test_latency_stats_is_latency_high() {
    let samples: Vec<Duration> = (1..=100).map(|i| Duration::from_micros(i)).collect();
    let stats = LatencyStats::from_samples(&samples);

    assert!(stats.is_latency_high(50));
    assert!(!stats.is_latency_high(100));
}

#[test]
fn test_latency_stats_stddev() {
    let samples: Vec<Duration> = vec![
        Duration::from_micros(100),
        Duration::from_micros(100),
        Duration::from_micros(100),
    ];
    let stats = LatencyStats::from_samples(&samples);
    assert_eq!(stats.stddev_us, 0);
}

#[test]
fn latency_stats_unsorted_input_and_spread() {
    let samples = vec![
        Duration::from_micros(300),
        Duration::from_micros(100),
        Duration::from_micros(200),
    ];
    let stats = LatencyStats::from_samples(&samples);
    assert_eq!(stats.min_us, 100);
    assert_eq!(stats.max_us, 300);
    assert_eq!(stats.p50_us, 200);
    assert!(stats.p50_us <= stats.p90_us && stats.p90_us <= stats.p95_us && stats.p95_us <= stats.p99_us);
    // population variance of 100, 200, 300 is 20000/3 = 6666; its square root is 81
    assert_eq!(stats.stddev_us, 81);
}

#[test]
fn test_timer_default() {
    let timer = Timer::default();
    assert!(timer.elapsed() >= Duration::zero());
}

#[test]
fn test_classify_error() {
    assert_eq!(classify_error(&"Connection timeout"), "timeout");
    assert_eq!(classify_error(&"Connection refused"), "connection");
    assert_eq!(classify_error(&"I/O error occurred"), "io");
    assert_eq!(classify_error(&"Protocol violation"), "protocol");
    assert_eq!(classify_error(&"Invalid message format"), "protocol");
    assert_eq!(classify_error(&"Device not found"), "not_found");
    assert_eq!(classify_error(&"Permission denied"), "permission");
    assert_eq!(classify_error(&"Some random error"), "unknown");
}

#[test]
fn test_metric_prefix() {
    assert_eq!(METRIC_PREFIX, "mabi");
}

fn wait_ms(ms: u64) {
    let start = std::time::Instant::now();
    while start.elapsed() < std::time::Duration::from_millis(ms) {}
}

#[test]
fn test_timer_start_stop() {
    let timer = Timer::start();
    wait_ms(10);
    let elapsed = timer.stop();
    assert!(elapsed >= Duration::from_millis(10));
}

#[test]
fn test_timer_elapsed() {
    let timer = Timer::start();
    wait_ms(5);
    let elapsed1 = timer.elapsed();
    wait_ms(5);
    let elapsed2 = timer.elapsed();
    assert!(elapsed2 > elapsed1);
}

#[test]
fn test_timer_reset() {
    let mut timer = Timer::start();
    wait_ms(10);
    timer.reset();
    let elapsed = timer.elapsed();
    assert!(elapsed < Duration::from_millis(10));
}

#[test]
fn classify_error_ignores_ascii_case() {
    assert_eq!(classify_error("CONNECTION REFUSED"), "connection");
    assert_eq!(classify_error("Permission Denied"), "permission");
    assert_eq!(classify_error("Disk I/O failure"), "io");
    assert_eq!(classify_error("something odd"), "unknown");
}
