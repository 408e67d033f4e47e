use mabi_core::config::engine::{default_workers, EngineOverride};
use mabi_core::config::env::{full_var_name, DEFAULT_PREFIX};
use mabi_core::config::hot_reload::detect_changes;
use mabi_core::config::validation::Validatable;
use mabi_core::config::{BacnetIpConfig, EngineConfig, KnxIpConfig, ModbusTcpConfig, ProtocolConfig};
use mabi_core::time::Duration;

#[test]
fn test_engine_config_default() {
    let config = EngineConfig::default();
    assert_eq!(config.max_devices, 10_000);
    assert_eq!(config.tick_interval_ms, 100);
    assert_eq!(config.name, "trap-simulator");
}

#[test]
fn test_engine_config_builder() {
    let config = EngineConfig::new()
        .with_max_devices(50_000)
        .with_max_points(5_000_000)
        .with_tick_interval(Duration::from_millis(50))
        .with_workers(8)
        .with_log_level("debug")
        .with_metrics(false);
    assert_eq!(config.max_devices, 50_000);
    assert_eq!(config.max_points, 5_000_000);
    assert_eq!(config.tick_interval_ms, 50);
    assert_eq!(config.workers, 8);
    assert_eq!(config.log_level, "debug");
    assert!(!config.enable_metrics);
}

#[test]
fn test_modbus_tcp_config_default() {
    let config = ModbusTcpConfig::default();
    let port: u16 = config.bind_address.rsplit(':').next().unwrap().parse().unwrap();
    assert_eq!(port, 502);
    assert_eq!(config.max_connections, 1000);
}

#[test]
fn test_config_validation_valid() {
    let config = EngineConfig::default();
    assert!(config.validate().is_ok());
}

#[test]
fn test_config_validation_invalid_max_devices() {
    let config = EngineConfig::default().with_max_devices(0);
    let result = config.validate();
    assert!(result.is_err());
}

#[test]
fn test_config_validation_invalid_log_level() {
    let mut config = EngineConfig::default();
    config.log_level = "invalid".to_string();
    let result = config.validate();
    assert!(result.is_err());
}

#[test]
fn test_config_validation_cross_field() {
    let config = EngineConfig::default().with_max_devices(10).with_max_points(1_000_000);
    let result = config.validate();
    assert!(result.is_err());
}

#[test]
fn test_protocol_config_bacnet() {
    let _config = ProtocolConfig::BacnetIp(BacnetIpConfig::default());
    assert_eq!(BacnetIpConfig::default().device_instance, 1234);
}

#[test]
fn test_protocol_config_knx() {
    let _config = ProtocolConfig::KnxIp(KnxIpConfig::default());
    assert_eq!(KnxIpConfig::default().individual_address, "1.1.1");
}

#[test]
fn test_engine_config_with_protocol() {
    let config =
        EngineConfig::default().with_protocol("modbus", ProtocolConfig::ModbusTcp(ModbusTcpConfig::default()));
    assert!(config.protocols.contains_key("modbus"));
}

#[test]
fn test_detect_changes() {
    let old_config = EngineConfig::default();
    let new_config = EngineConfig::default().with_max_devices(50_000).with_log_level("debug");

    let changes = detect_changes(&old_config, &new_config);

    assert!(changes.iter().any(|c| c.field == "max_devices"));
    assert!(changes.iter().any(|c| c.field == "log_level"));
}

#[test]
fn detect_changes_lists_old_and_new_values() {
    let old_config = EngineConfig::default();
    let new_config = EngineConfig::default().with_max_devices(50_000);
    let changes = detect_changes(&old_config, &new_config);
    assert_eq!(changes.len(), 1);
    assert_eq!(changes[0].field, "max_devices");
    assert_eq!(changes[0].old_value, "10000");
    assert_eq!(changes[0].new_value, "50000");
    assert!(detect_changes(&old_config, &EngineConfig::default()).is_empty());
}

#[test]
fn engine_overrides_set_their_fields() {
    let mut config = EngineConfig::default();
    assert!(EngineOverride::MaxDevices.apply(&mut config, "25000").is_ok());
    assert!(EngineOverride::Workers.apply(&mut config, "16").is_ok());
    assert!(EngineOverride::LogLevel.apply(&mut config, "debug").is_ok());
    assert!(EngineOverride::TickInterval.apply(&mut config, "+50").is_ok());
    assert!(EngineOverride::Metrics.apply(&mut config, "Off").is_ok());
    assert!(EngineOverride::Name.apply(&mut config, "edge").is_ok());
    assert_eq!(config.max_devices, 25000);
    assert_eq!(config.workers, 16);
    assert_eq!(config.log_level, "debug");
    assert_eq!(config.tick_interval_ms, 50);
    assert!(!config.enable_metrics);
    assert_eq!(config.name, "edge");
}

#[test]
fn engine_overrides_refuse_bad_values() {
    let mut config = EngineConfig::default();
    let err = EngineOverride::MaxDevices.apply(&mut config, "not_a_number").unwrap_err();
    assert!(err.starts_with("Failed to parse: "));
    assert!(EngineOverride::MetricsInterval.apply(&mut config, "-5").is_err());
    assert!(EngineOverride::MaxPoints.apply(&mut config, "").is_err());
    assert_eq!(
        EngineOverride::Metrics.apply(&mut config, "maybe"),
        Err("Invalid boolean value: maybe".to_string())
    );
    assert_eq!(config.max_devices, 10_000);
    assert_eq!(config.metrics_interval_secs, 10);
    assert!(config.enable_metrics);
}

#[test]
fn engine_override_rules() {
    let all = EngineOverride::all();
    assert_eq!(all.len(), 8);
    let names: Vec<String> = all.iter().map(|o| full_var_name(DEFAULT_PREFIX, o.suffix())).collect();
    assert!(names.iter().any(|n| n == "TRAP_SIM_ENGINE_MAX_DEVICES"));
    assert!(names.iter().any(|n| n == "TRAP_SIM_LOG_LEVEL"));
    let rule = EngineOverride::MaxDevices.rule();
    assert_eq!(rule.suffix(), "ENGINE_MAX_DEVICES");
    assert_eq!(rule.path(), "max_devices");
    assert_eq!(rule.text(), "Maximum number of devices");
}

#[test]
fn default_workers_is_at_least_four() {
    assert_eq!(default_workers(0), 4);
    assert_eq!(default_workers(2), 4);
    assert_eq!(default_workers(4), 4);
    assert_eq!(default_workers(8), 8);
    assert!(EngineConfig::default().workers >= 4);
    assert!(EngineConfig::default().validate().is_ok());
}
