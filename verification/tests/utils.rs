use mabi_core::time::Duration;
use mabi_core::utils::{
    format_duration, format_sequential_id, generate_short_uuid, generate_timestamp_id,
    generate_uuid, sanitize_identifier, truncate_string, Stopwatch,
};

#[test]
fn test_format_duration() {
    assert_eq!(format_duration(Duration::from_secs(3661)), "1h 1m");
    assert_eq!(format_duration(Duration::from_secs(61)), "1m 1s");
    assert_eq!(format_duration(Duration::from_millis(1500)), "1.500s");
    assert_eq!(format_duration(Duration::from_millis(500)), "500ms");
    assert_eq!(format_duration(Duration::from_micros(500)), "500µs");
}

#[test]
fn test_truncate_string() {
    assert_eq!(truncate_string("hello", 10), "hello");
    assert_eq!(truncate_string("hello world", 8), "hello...");
}

#[test]
fn test_sanitize_identifier() {
    assert_eq!(sanitize_identifier("hello world!"), "hello_world_");
    assert_eq!(sanitize_identifier("device-001"), "device-001");
}

#[test]
fn uuids_have_the_hyphenated_shape() {
    let a = generate_uuid();
    let b = generate_uuid();
    assert_ne!(a, b);
    assert_eq!(a.len(), 36);
    for (i, c) in a.chars().enumerate() {
        if [8, 13, 18, 23].contains(&i) {
            assert_eq!(c, '-');
        } else {
            assert!(c.is_ascii_hexdigit() && !c.is_ascii_uppercase());
        }
    }
    assert_eq!(generate_short_uuid().len(), 8);
}

#[test]
fn ids_and_edge_cases() {
    assert_eq!(format_sequential_id("device", 7), "device-00000007");
    assert_eq!(format_sequential_id("d", 123456789), "d-123456789");
    assert!(generate_timestamp_id("run").starts_with("run-"));
    assert_eq!(truncate_string("hello", 5), "hello");
    assert_eq!(truncate_string("hello", 2), "..");
    assert_eq!(truncate_string("hello", 0), "");
    assert_eq!(truncate_string("hello", 3), "...");
    assert_eq!(truncate_string("héllo wörld", 8), "héll...");
    assert_eq!(sanitize_identifier("näme.x"), "näme_x");
    assert_eq!(format_duration(Duration::from_secs(7322)), "2h 2m");
    assert_eq!(format_duration(Duration::from_millis(1005)), "1.005s");
    assert_eq!(format_duration(Duration::zero()), "0µs");
}

#[test]
fn stopwatch_records_laps() {
    let mut sw = Stopwatch::start();
    sw.lap("step1");
    sw.lap("step2");
    assert_eq!(sw.laps().len(), 2);
    assert_eq!(sw.laps()[1].0, "step2");
    sw.reset();
    assert!(sw.laps().is_empty());
    let _ = sw.elapsed_ms();
}

#[test]
fn test_generate_uuid() {
    let uuid1 = generate_uuid();
    let uuid2 = generate_uuid();
    assert_ne!(uuid1, uuid2);
    assert_eq!(uuid1.len(), 36);
}

#[test]
fn test_stopwatch() {
    let mut sw = Stopwatch::start();
    let start = std::time::Instant::now();
    while start.elapsed() < std::time::Duration::from_millis(10) {}
    sw.lap("step1");
    assert!(sw.elapsed().as_millis() >= 10);
    assert_eq!(sw.laps().len(), 1);
}
