use mabi_core::device::{DeviceInfo, DeviceState, DeviceStatistics};
use mabi_core::protocol::Protocol;

#[test]
fn test_device_state() {
    assert!(!DeviceState::Uninitialized.is_operational());
    assert!(DeviceState::Online.is_operational());
    assert!(DeviceState::Online.can_accept_requests());
}

#[test]
fn test_device_statistics() {
    let mut stats = DeviceStatistics::default();
    stats.record_read();
    stats.record_tick(100);
    stats.record_tick(200);

    assert_eq!(stats.reads_total, 1);
    assert_eq!(stats.ticks_total, 2);
    assert_eq!(stats.avg_tick_duration_us, 150);
}

#[test]
fn statistics_errors_keep_last_message() {
    let mut stats = DeviceStatistics::default();
    stats.record_read_error("timeout");
    stats.record_write_error("denied");
    stats.record_write();
    assert_eq!(stats.read_errors, 1);
    assert_eq!(stats.write_errors, 1);
    assert_eq!(stats.writes_total, 1);
    assert_eq!(stats.last_error, Some("denied".to_string()));
    assert!(DeviceState::Initializing.can_accept_requests());
    assert!(!DeviceState::Offline.can_accept_requests());
    assert_eq!(DeviceState::ShuttingDown.name(), "ShuttingDown");
}

#[test]
fn test_device_info() {
    let info = DeviceInfo::new("dev-001", "Test Device", Protocol::ModbusTcp)
        .with_description("A test device")
        .with_metadata("location", "Building A");

    assert_eq!(info.id, "dev-001");
    assert_eq!(info.protocol, Protocol::ModbusTcp);
    assert_eq!(info.metadata.get("location"), Some(&"Building A".to_string()));
}

#[test]
fn test_device_info_with_tags() {
    let info = DeviceInfo::new("dev-002", "Tagged Device", Protocol::BacnetIp)
        .with_tag("zone", "hvac")
        .with_tag("floor", "3")
        .with_label("critical")
        .with_label("monitored");

    assert_eq!(info.tags.get("zone"), Some("hvac"));
    assert_eq!(info.tags.get("floor"), Some("3"));
    assert!(info.tags.has_label("critical"));
    assert!(info.tags.has_label("monitored"));
}

#[test]
fn device_info_defaults_and_clone() {
    let info = DeviceInfo::new("d", "D", Protocol::OpcUa);
    assert_eq!(info.state, DeviceState::Uninitialized);
    assert_eq!(info.point_count, 0);
    assert_eq!(info.description, "");
    assert_eq!(info.created_at, info.updated_at);
    assert!(info.tags.is_empty());
    let copy = info.clone().with_metadata("k", "v").with_metadata("k", "w");
    assert_eq!(copy.metadata.get("k"), Some(&"w".to_string()));
    assert_eq!(copy.id, "d");
    assert!(info.metadata.get("k").is_none());
}

#[test]
fn device_info_is_stamped_from_the_clock() {
    let info = DeviceInfo::new("dev-clock", "Clock", Protocol::ModbusTcp);
    assert!(info.created_at > 1_600_000_000_000);
    assert_eq!(info.created_at, info.updated_at);
}
