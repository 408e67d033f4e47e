use mabi_core::config::env::{full_var_name, parse_bool, EnvApplyResult, EnvOutcome, EnvSnapshot, DEFAULT_PREFIX};
use mabi_core::config::file_watcher::{FileWatcherConfig, WatchList, DEFAULT_DEBOUNCE_MS};
use mabi_core::config::hot_reload::{ConfigChange, ReloadStrategy};
use mabi_core::config::watcher::{ConfigEvent, ConfigSource, WatcherCore, WatcherState};
use mabi_core::config::ConfigFormat;

#[test]
fn test_env_var_name() {
    assert_eq!(
        full_var_name("TRAP_SIM", "ENGINE_MAX_DEVICES"),
        "TRAP_SIM_ENGINE_MAX_DEVICES"
    );
}

#[test]
fn test_env_default_prefix_name() {
    assert_eq!(full_var_name(DEFAULT_PREFIX, "LOG_LEVEL"), "TRAP_SIM_LOG_LEVEL");
}

#[test]
fn test_parse_bool() {
    assert_eq!(parse_bool("true"), Some(true));
    assert_eq!(parse_bool("True"), Some(true));
    assert_eq!(parse_bool("1"), Some(true));
    assert_eq!(parse_bool("yes"), Some(true));
    assert_eq!(parse_bool("on"), Some(true));
    assert_eq!(parse_bool("enabled"), Some(true));

    assert_eq!(parse_bool("false"), Some(false));
    assert_eq!(parse_bool("False"), Some(false));
    assert_eq!(parse_bool("0"), Some(false));
    assert_eq!(parse_bool("no"), Some(false));
    assert_eq!(parse_bool("off"), Some(false));
    assert_eq!(parse_bool("disabled"), Some(false));

    assert_eq!(parse_bool("invalid"), None);
}

#[test]
fn test_file_watcher_config_default() {
    let config = FileWatcherConfig::default();
    assert_eq!(config.debounce_ms, DEFAULT_DEBOUNCE_MS);
    assert!(!config.recursive);
    assert!(config.extensions.contains(&"yaml".to_string()));
}

#[test]
fn test_file_watcher_config_should_watch() {
    let config = FileWatcherConfig::default();

    assert!(config.should_watch("config.yaml"));
    assert!(config.should_watch("config.yml"));
    assert!(config.should_watch("config.json"));
    assert!(config.should_watch("config.toml"));
    assert!(!config.should_watch("config.txt"));

    let all_config = FileWatcherConfig::all_files();
    assert!(all_config.should_watch("config.txt"));
}

#[test]
fn test_should_watch_ignores_case_and_needs_extension() {
    let config = FileWatcherConfig::default();
    assert!(config.should_watch("/etc/app/CONFIG.YAML"));
    assert!(!config.should_watch("/etc/app/config"));
}

#[test]
fn test_reload_strategy_default() {
    assert_eq!(ReloadStrategy::default(), ReloadStrategy::ValidateFirst);
}

#[test]
fn test_config_change() {
    let change = ConfigChange::new("max_devices", 10_000usize, 50_000usize);
    assert_eq!(change.field, "max_devices");
    assert_eq!(change.old_value, "10000");
    assert_eq!(change.new_value, "50000");
}

#[test]
fn test_config_change_bool_and_text() {
    let change = ConfigChange::new("enable_metrics", true, false);
    assert_eq!(change.old_value, "true");
    assert_eq!(change.new_value, "false");
    let change = ConfigChange::new("log_level", "info", "debug");
    assert_eq!(change.old_value, "info");
    assert_eq!(change.new_value, "debug");
}

#[test]
fn test_config_source() {
    let source = ConfigSource::Main("/etc/config.yaml".to_string());
    assert_eq!(source.name(), "main");
    assert_eq!(source.path(), &"/etc/config.yaml".to_string());

    let protocol_source = ConfigSource::Protocol {
        protocol: "modbus".to_string(),
        path: "/etc/modbus.yaml".to_string(),
    };
    assert_eq!(protocol_source.name(), "protocol:modbus");
}

#[test]
fn test_config_event_methods() {
    let source = ConfigSource::Main("/etc/config.yaml".to_string());
    let event = ConfigEvent::Modified {
        source: source.clone(),
        timestamp: std::time::Instant::now(),
    };

    assert!(!event.is_error());
    assert_eq!(event.source().unwrap().name(), "main");

    let error_event = ConfigEvent::Error {
        source: None,
        message: "Test error".to_string(),
        timestamp: std::time::Instant::now(),
    };
    assert!(error_event.is_error());
}

#[test]
fn test_config_format_detection() {
    assert_eq!(ConfigFormat::from_path("config.yaml"), Some(ConfigFormat::Yaml));
    assert_eq!(ConfigFormat::from_path("config.yml"), Some(ConfigFormat::Yaml));
    assert_eq!(ConfigFormat::from_path("config.json"), Some(ConfigFormat::Json));
    assert_eq!(ConfigFormat::from_path("config.toml"), Some(ConfigFormat::Toml));
    assert_eq!(ConfigFormat::from_path("config.txt"), None);
}

#[test]
fn test_file_watcher_service_creation() {
    let service = WatchList::new(FileWatcherConfig::default());

    assert!(!service.is_running());
    assert!(service.watched_paths().is_empty());
}

#[test]
fn test_file_watcher_service_watch() {
    let mut service = WatchList::new(FileWatcherConfig::default());

    let source = ConfigSource::Main("test.yaml".to_string());
    service.watch(source).unwrap();

    assert!(service.watched_paths().contains(&"test.yaml".to_string()));
}

#[test]
fn test_file_watcher_service_unwatch() {
    let mut service = WatchList::new(FileWatcherConfig::default());

    let path = "test.yaml".to_string();
    let source = ConfigSource::Main(path.clone());
    service.watch(source).unwrap();
    service.unwatch(&path);

    assert!(!service.watched_paths().contains(&path));
}

#[test]
fn test_file_watcher_service_builder() {
    let config = FileWatcherConfig::default().with_debounce(200).with_recursive(true);
    let mut service = WatchList::new(config);
    service.watch(ConfigSource::Main("config.yaml".to_string())).unwrap();

    assert_eq!(service.config().debounce_ms, 200);
    assert!(service.config().recursive);
    assert!(service.watched_paths().contains(&"config.yaml".to_string()));
}

#[test]
fn watch_list_refuses_filtered_paths_and_double_start() {
    let mut service = WatchList::new(FileWatcherConfig::default());
    assert!(service.watch(ConfigSource::Main("notes.txt".to_string())).is_err());
    assert!(service.watched_paths().is_empty());
    assert!(service.stop().is_err());
    assert!(service.start().is_ok());
    assert!(service.is_running());
    assert!(service.start().is_err());
    assert!(service.stop().is_ok());
    assert!(!service.is_running());
}

#[test]
fn test_config_watcher_lifecycle() {
    let mut watcher = WatcherCore::new();

    assert_eq!(watcher.state(), WatcherState::Stopped);

    watcher.start();
    assert_eq!(watcher.state(), WatcherState::Running);

    watcher.pause();
    assert_eq!(watcher.state(), WatcherState::Paused);

    watcher.resume();
    assert_eq!(watcher.state(), WatcherState::Running);

    watcher.stop();
    assert_eq!(watcher.state(), WatcherState::Stopped);
}

#[test]
fn test_config_watcher_sources() {
    let mut watcher = WatcherCore::new();

    let source1 = ConfigSource::Main("/etc/config1.yaml".to_string());
    let source2 = ConfigSource::Device("/etc/config2.yaml".to_string());

    watcher.register(source1.clone());
    watcher.register(source2.clone());

    let sources = watcher.sources();
    assert_eq!(sources.len(), 2);

    watcher.unregister("/etc/config1.yaml");
    let sources = watcher.sources();
    assert_eq!(sources.len(), 1);
}

#[test]
fn env_snapshot_captures_prefixed_variables() {
    let vars = vec![
        ("TEST_A".to_string(), "1".to_string()),
        ("OTHER".to_string(), "x".to_string()),
        ("TEST_B".to_string(), "2".to_string()),
        ("TEST_A".to_string(), "3".to_string()),
    ];
    let snapshot = EnvSnapshot::capture_from(&vars, "TEST_");
    let mut entries = snapshot.entries();
    entries.sort();
    assert_eq!(
        entries,
        vec![("TEST_A".to_string(), "3".to_string()), ("TEST_B".to_string(), "2".to_string())]
    );

    let mut manual = EnvSnapshot::new();
    manual.set("TEST_VAR", "value");
    assert_eq!(manual.entries(), vec![("TEST_VAR".to_string(), "value".to_string())]);
}

#[test]
fn paused_watcher_queues_events_until_resumed() {
    let mut watcher = WatcherCore::new();
    watcher.start();
    watcher.pause();
    let event = ConfigEvent::Modified {
        source: ConfigSource::Main("/etc/config.yaml".to_string()),
        timestamp: std::time::Instant::now(),
    };
    assert!(!watcher.passes(&event, 1_000));
    let released = watcher.resume();
    assert_eq!(watcher.state(), WatcherState::Running);
    assert_eq!(released.len(), 1);
    assert_eq!(released[0].source().unwrap().path(), "/etc/config.yaml");
    assert!(watcher.passes(&released[0], 1_000));
    assert!(watcher.resume().is_empty());

    watcher.pause();
    assert!(!watcher.passes(&event, 2_000));
    watcher.stop();
    assert!(!watcher.passes(&event, 3_000));
    assert!(watcher.start().is_empty());
}

#[test]
fn missing_variable_reported_unless_ignored() {
    let mut ignored = EnvApplyResult::new();
    ignored.record("TRAP_SIM_X".to_string(), "x", EnvOutcome::Absent, true);
    assert!(ignored.errors.is_empty());
    assert_eq!(ignored.applied, 0);

    let mut reported = EnvApplyResult::new();
    reported.record("TRAP_SIM_X".to_string(), "x", EnvOutcome::Absent, false);
    assert_eq!(reported.errors.len(), 1);
    assert_eq!(reported.errors[0].env_var, "TRAP_SIM_X");
    assert_eq!(reported.errors[0].field, "x");
    assert_eq!(reported.errors[0].message, "Environment variable is not set");
    assert_eq!(reported.applied, 0);

    let mut applied = EnvApplyResult::new();
    applied.record("TRAP_SIM_Y".to_string(), "y", EnvOutcome::Applied, false);
    assert_eq!(applied.applied, 1);
    assert_eq!(applied.overridden_fields, vec!["y".to_string()]);
}
