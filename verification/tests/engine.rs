use mabi_core::config::EngineConfig;
use mabi_core::device::{DeviceInfo, DeviceState};
use mabi_core::engine::{
    engine, sleep_after_tick, EngineEvent, EnginePreset, EngineState, SimulatorEngine,
    SimulatorEngineBuilder,
};
use mabi_core::error::Error;
use mabi_core::protocol::Protocol;
use mabi_core::time::Duration;

#[test]
fn test_engine_creation() {
    let config = EngineConfig::default();
    let engine = SimulatorEngine::new(config);

    assert_eq!(engine.state(), EngineState::Stopped);
    assert_eq!(engine.device_count(), 0);
}

#[test]
fn test_engine_lifecycle() {
    let config = EngineConfig::default();
    let mut engine = SimulatorEngine::new(config);

    engine.begin_start().unwrap();
    assert_eq!(engine.state(), EngineState::Starting);
    assert!(matches!(engine.finish_start(), EngineEvent::Started));
    assert_eq!(engine.state(), EngineState::Running);

    for _ in 0..5 {
        engine.begin_tick();
    }
    assert_eq!(engine.tick_count(), 5);

    engine.begin_stop().unwrap();
    assert!(engine.is_shutdown_requested());
    assert!(matches!(engine.finish_stop(), EngineEvent::Stopped));
    assert_eq!(engine.state(), EngineState::Stopped);
}

#[test]
fn engine_refuses_out_of_order_start_and_stop() {
    let mut engine = SimulatorEngine::new(EngineConfig::default());
    match engine.begin_stop() {
        Err(Error::Engine(m)) => assert_eq!(m, "Engine is not running"),
        _ => panic!("stop of a stopped engine must fail"),
    }
    assert_eq!(engine.begin_tick(), None);
    assert_eq!(engine.tick_count(), 0);
    engine.begin_start().unwrap();
    match engine.begin_start() {
        Err(Error::Engine(m)) => assert_eq!(m, "Engine is not stopped"),
        _ => panic!("second start must fail"),
    }
    engine.finish_start();
    assert_eq!(engine.begin_tick(), Some(0));
    assert_eq!(engine.begin_tick(), Some(1));
}

#[test]
fn test_engine_capacity() {
    let config = EngineConfig::default().with_max_devices(5);
    let engine = SimulatorEngine::new(config);

    assert_eq!(engine.config().max_devices, 5);
}

#[test]
fn engine_device_registry() {
    let mut engine = SimulatorEngine::new(EngineConfig::default().with_max_devices(2));
    let mut a = DeviceInfo::new("a", "A", Protocol::ModbusTcp);
    a.point_count = 3;
    let mut b = DeviceInfo::new("b", "B", Protocol::BacnetIp);
    b.point_count = 4;
    match engine.add_device(a.clone()) {
        Ok(EngineEvent::DeviceAdded { device_id, protocol }) => {
            assert_eq!(device_id, "a");
            assert_eq!(protocol, Protocol::ModbusTcp);
        }
        _ => panic!("first add must succeed"),
    }
    assert!(matches!(engine.add_device(a.clone()), Err(Error::DeviceAlreadyExists { .. })));
    engine.add_device(b).unwrap();
    let c = DeviceInfo::new("c", "C", Protocol::ModbusTcp);
    match engine.add_device(c) {
        Err(Error::CapacityExceeded { current, max, resource }) => {
            assert_eq!((current, max, resource.as_str()), (2, 2, "devices"));
        }
        _ => panic!("third add must exceed capacity"),
    }
    assert_eq!(engine.device_count(), 2);
    assert_eq!(engine.point_count(), 7);
    let modbus = engine.list_devices_by_protocol(Protocol::ModbusTcp);
    assert_eq!(modbus.len(), 1);
    assert_eq!(modbus[0].id, "a");
    let ids: Vec<String> = engine.list_devices().into_iter().map(|d| d.id).collect();
    assert_eq!(ids, vec!["a".to_string(), "b".to_string()]);

    let mut online = a.clone();
    online.state = DeviceState::Online;
    assert!(engine.refresh_device(online));
    assert_eq!(engine.device_info("a").unwrap().state, DeviceState::Online);

    assert!(matches!(engine.remove_device("a"), Ok(EngineEvent::DeviceRemoved { .. })));
    assert!(matches!(engine.remove_device("a"), Err(Error::DeviceNotFound { .. })));
    assert!(engine.device_info("a").is_none());
    assert_eq!(engine.device_count(), 1);
}

#[test]
fn test_engine_builder() {
    let engine = SimulatorEngineBuilder::new()
        .name("Test Engine")
        .max_devices(1000)
        .tick_interval_ms(50)
        .build();

    assert_eq!(engine.config().name, "Test Engine");
    assert_eq!(engine.config().max_devices, 1000);
    assert_eq!(engine.config().tick_interval_ms, 50);
}

#[test]
fn test_engine_builder_presets() {
    let dev_engine = SimulatorEngineBuilder::new()
        .preset(EnginePreset::Development)
        .build();
    assert_eq!(dev_engine.config().max_devices, 100);
    assert_eq!(dev_engine.config().log_level, "debug");

    let prod_engine = SimulatorEngineBuilder::new()
        .preset(EnginePreset::Production)
        .build();
    assert_eq!(prod_engine.config().max_devices, 50_000);
    assert_eq!(prod_engine.config().log_level, "info");

    let stress_engine = SimulatorEngineBuilder::new()
        .preset(EnginePreset::StressTest)
        .build();
    assert_eq!(stress_engine.config().max_devices, 100_000);

    let testing = SimulatorEngineBuilder::new().preset(EnginePreset::Testing).build();
    assert_eq!(testing.config().max_points, 100);
    assert_eq!(testing.config().tick_interval_ms, 10);
    assert_eq!(testing.config().log_level, "trace");
}

#[test]
fn test_engine_shorthand() {
    let e = engine().name("Quick Engine").max_devices(500).build();

    assert_eq!(e.config().name, "Quick Engine");
    assert_eq!(e.config().max_devices, 500);
}

#[test]
fn builder_durations_and_sleep() {
    let e = engine()
        .tick_interval(Duration::from_micros(2500))
        .metrics_interval(Duration::from_millis(2500))
        .workers(3)
        .enable_metrics(false)
        .log_level("warn")
        .build();
    assert_eq!(e.config().tick_interval_ms, 2);
    assert_eq!(e.config().metrics_interval_secs, 2);
    assert_eq!(e.config().workers, 3);
    assert!(!e.config().enable_metrics);
    assert_eq!(e.config().log_level, "warn");

    let interval = Duration::from_millis(100);
    assert_eq!(
        sleep_after_tick(&interval, &Duration::from_millis(30)),
        Some(Duration::from_millis(70))
    );
    assert_eq!(sleep_after_tick(&interval, &Duration::from_millis(100)), None);
}

#[test]
fn uptime_exists_once_started() {
    let mut engine = SimulatorEngine::new(EngineConfig::default());
    assert!(engine.uptime().is_none());
    engine.begin_start().unwrap();
    engine.finish_start();
    assert!(engine.uptime().is_some());
    engine.begin_stop().unwrap();
    engine.finish_stop();
    assert!(engine.uptime().is_some());
}
