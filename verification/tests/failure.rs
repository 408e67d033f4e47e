use mabi_core::simulation::{FailureCounts, FailureSchedule, FailureType, ScheduledFailure};
use mabi_core::time::Duration;

#[test]
fn test_failure_type_all() {
    let all = FailureType::all();
    assert!(all.len() >= 10);
}

#[test]
fn test_failure_type_categories() {
    let network = FailureType::network();
    assert!(network.contains(&FailureType::Timeout));

    let protocol = FailureType::protocol();
    assert!(protocol.contains(&FailureType::ProtocolError));

    let resource = FailureType::resource();
    assert!(resource.contains(&FailureType::OutOfMemory));
}

#[test]
fn test_failure_type_recoverable() {
    assert!(FailureType::Timeout.is_recoverable());
    assert!(!FailureType::ProtocolError.is_recoverable());
}

#[test]
fn test_retry_delay() {
    let timeout = FailureType::Timeout;
    assert!(timeout.suggested_retry_delay().is_some());

    let protocol = FailureType::ProtocolError;
    assert!(protocol.suggested_retry_delay().is_none());
}

#[test]
fn retry_delays_by_kind() {
    assert_eq!(FailureType::Timeout.suggested_retry_delay(), Some(Duration::from_secs(5)));
    assert_eq!(
        FailureType::ConnectionReset.suggested_retry_delay(),
        Some(Duration::from_millis(500))
    );
    assert_eq!(FailureType::RateLimited.suggested_retry_delay(), Some(Duration::from_secs(30)));
    assert_eq!(
        FailureType::NetworkPartition.suggested_retry_delay(),
        Some(Duration::from_secs(60))
    );
    assert_eq!(FailureType::Generic("x".into()).suggested_retry_delay(), None);
}

#[test]
fn test_failure_schedule_random() {
    let schedule = FailureSchedule::Random {
        min_interval: Duration::from_secs(5),
        max_interval: Duration::from_secs(30),
    };
    assert!(matches!(schedule, FailureSchedule::Random { .. }));
}

#[test]
fn test_failure_schedule_periodic() {
    let schedule = FailureSchedule::Periodic {
        interval: Duration::from_secs(60),
        duration: Duration::from_secs(10),
    };
    assert!(matches!(schedule, FailureSchedule::Periodic { .. }));
}

#[test]
fn failure_schedule_default() {
    match FailureSchedule::default() {
        FailureSchedule::Random { min_interval, max_interval } => {
            assert_eq!(min_interval, Duration::from_secs(10));
            assert_eq!(max_interval, Duration::from_secs(60));
        }
        _ => panic!("random schedule expected"),
    }
}

#[test]
fn test_failure_type_display() {
    let failure = FailureType::Timeout;
    assert_eq!(failure.to_string(), "Request timed out");

    let slow = FailureType::SlowResponse {
        delay: Duration::from_secs(5),
    };
    assert_eq!(slow.to_string(), "Response delayed significantly");
    assert_eq!(FailureType::Generic("custom".into()).to_string(), "custom");
}

#[test]
fn test_scheduled_failure() {
    let failure = ScheduledFailure::new(Duration::from_secs(10), FailureType::NetworkPartition)
        .for_duration(Duration::from_secs(30))
        .repeat(3);

    assert_eq!(failure.at, Duration::from_secs(10));
    assert_eq!(failure.duration, Some(Duration::from_secs(30)));
    assert_eq!(failure.repeat, 3);
}

#[test]
fn failure_counts_respect_the_limit() {
    let mut counts = FailureCounts::new(2);
    assert!(counts.has_room());
    counts.record_injection();
    counts.record_injection();
    assert_eq!(counts.active_count(), 2);
    assert_eq!(counts.total_count(), 2);
    assert!(!counts.has_room());
    counts.recover();
    assert_eq!(counts.active_count(), 1);
    assert!(counts.has_room());
    counts.recover();
    counts.recover();
    assert_eq!(counts.active_count(), 0);
    assert_eq!(counts.total_count(), 2);
    counts.reset();
    assert_eq!(counts.total_count(), 0);
}

#[test]
fn failure_counts_with_no_room() {
    let counts = FailureCounts::new(0);
    assert!(!counts.has_room());
    assert_eq!(counts.active_count(), 0);
}
