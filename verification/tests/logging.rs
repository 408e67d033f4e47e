use mabi_core::logging::{
    shared_context, DeviceContext, LevelChangeEvent, LevelChangeStats, LevelChangeType,
    LevelSettings, LogConfig, LogFileEntry, LogFileStats, LogFormat, LogLevel, LogTarget,
    RequestContext, RetentionPolicy, RotationConfig, RotationStrategy, TraceContext,
};
use mabi_core::strmap::StrMap;
use mabi_core::time::Duration;

#[test]
fn test_log_level_from_str() {
    assert_eq!("trace".parse::<LogLevel>().unwrap(), LogLevel::Trace);
    assert_eq!("debug".parse::<LogLevel>().unwrap(), LogLevel::Debug);
    assert_eq!("info".parse::<LogLevel>().unwrap(), LogLevel::Info);
    assert_eq!("warn".parse::<LogLevel>().unwrap(), LogLevel::Warn);
    assert_eq!("warning".parse::<LogLevel>().unwrap(), LogLevel::Warn);
    assert_eq!("error".parse::<LogLevel>().unwrap(), LogLevel::Error);
    assert_eq!("off".parse::<LogLevel>().unwrap(), LogLevel::Off);
    assert!("invalid".parse::<LogLevel>().is_err());
}

#[test]
fn test_log_level_display() {
    assert_eq!(LogLevel::Trace.to_string(), "trace");
    assert_eq!(LogLevel::Debug.to_string(), "debug");
    assert_eq!(LogLevel::Info.to_string(), "info");
    assert_eq!(LogLevel::Warn.to_string(), "warn");
    assert_eq!(LogLevel::Error.to_string(), "error");
    assert_eq!(LogLevel::Off.to_string(), "off");
}

#[test]
fn test_log_level_verbosity() {
    assert!(LogLevel::Trace.is_more_verbose_than(&LogLevel::Debug));
    assert!(LogLevel::Debug.is_more_verbose_than(&LogLevel::Info));
    assert!(LogLevel::Info.is_more_verbose_than(&LogLevel::Warn));
    assert!(LogLevel::Warn.is_more_verbose_than(&LogLevel::Error));
    assert!(LogLevel::Error.is_more_verbose_than(&LogLevel::Off));
}

#[test]
fn test_log_config_builder() {
    let config = LogConfig::builder()
        .level(LogLevel::Debug)
        .format(LogFormat::Json)
        .include_location(false)
        .module_level("tokio", LogLevel::Warn)
        .build();

    assert_eq!(config.level, LogLevel::Debug);
    assert_eq!(config.format, LogFormat::Json);
    assert!(!config.include_location);
    assert_eq!(config.module_levels.get("tokio"), Some(&LogLevel::Warn));
}

#[test]
fn test_log_config_presets() {
    let dev = LogConfig::development();
    assert_eq!(dev.level, LogLevel::Debug);
    assert_eq!(dev.format, LogFormat::Pretty);

    let prod = LogConfig::production();
    assert_eq!(prod.level, LogLevel::Info);
    assert_eq!(prod.format, LogFormat::Json);
}

#[test]
fn test_log_target_helpers() {
    let file_target = LogTarget::file("/tmp/logs");
    assert!(file_target.has_file_output());
    assert!(!file_target.has_console_output());

    let stdout_target = LogTarget::Stdout;
    assert!(!stdout_target.has_file_output());
    assert!(stdout_target.has_console_output());

    let multi_target = LogTarget::Multi(vec![LogTarget::Stdout, LogTarget::file("/tmp/logs")]);
    assert!(multi_target.has_file_output());
    assert!(multi_target.has_console_output());
}

#[test]
fn test_build_filter_string() {
    let config = LogConfig::builder()
        .level(LogLevel::Debug)
        .module_level("my_module", LogLevel::Trace)
        .build();

    let filter = config.build_filter_string();
    assert!(filter.contains("trap_sim=debug"));
    assert!(filter.contains("my_module=trace"));
    assert!(filter.contains("tokio=warn"));
}

#[test]
fn test_build_filter_string_custom() {
    let config = LogConfig::builder().filter("custom=trace,other=debug").build();

    let filter = config.build_filter_string();
    assert_eq!(filter, "custom=trace,other=debug");
}

#[test]
fn filter_string_lists_every_directive_in_order() {
    let config = LogConfig::builder()
        .level(LogLevel::Warn)
        .module_level("a", LogLevel::Trace)
        .module_level("hyper", LogLevel::Error)
        .module_level("a", LogLevel::Debug)
        .build();
    assert_eq!(
        config.build_filter_string(),
        "trap_sim=warn,a=debug,hyper=error,tokio=warn,tower_http=warn"
    );
    let plain = LogConfig::default();
    assert_eq!(
        plain.build_filter_string(),
        "trap_sim=info,tokio=warn,hyper=warn,tower_http=info"
    );
}

#[test]
fn level_names_parse_back_and_aliases_ignore_case() {
    for level in LogLevel::all() {
        assert_eq!(level.as_filter_str().parse::<LogLevel>().unwrap(), *level);
        assert_eq!(level.to_string(), level.as_filter_str());
    }
    assert_eq!("WARNING".parse::<LogLevel>().unwrap(), LogLevel::Warn);
    assert_eq!("Err".parse::<LogLevel>().unwrap(), LogLevel::Error);
    assert_eq!("None".parse::<LogLevel>().unwrap(), LogLevel::Off);
    assert_eq!("disabled".parse::<LogLevel>().unwrap(), LogLevel::Off);
    match "loud".parse::<LogLevel>() {
        Err(mabi_core::error::Error::Config(m)) => assert_eq!(m, "Invalid log level: loud"),
        _ => panic!("expected a configuration error"),
    }
    assert_eq!(LogLevel::all().len(), 6);
    assert!(!LogLevel::Off.is_more_verbose_than(&LogLevel::Off));
    assert!(LogLevel::Off.to_tracing_level().is_none());
    assert_eq!(LogLevel::Warn.to_tracing_level(), Some(tracing::Level::WARN));
}

#[test]
fn formats_and_presets() {
    assert!(LogFormat::Json.is_machine_parseable());
    assert!(!LogFormat::Json.is_human_readable());
    assert!(LogFormat::Full.is_human_readable());
    let t = LogConfig::test();
    assert_eq!(t.format, LogFormat::Compact);
    assert!(!t.ansi_colors);
    let pf = LogConfig::production_file("/var/log/sim");
    match &pf.target {
        LogTarget::File { directory, filename_prefix, rotation } => {
            assert_eq!(directory, "/var/log/sim");
            assert_eq!(filename_prefix, "trap-simulator");
            assert_eq!(rotation.max_files, Some(30));
        }
        _ => panic!("expected a file target"),
    }
    let dual = LogConfig::dual_output("/var/log/sim");
    assert!(dual.target.has_console_output() && dual.target.has_file_output());
    let nested = LogTarget::Multi(vec![LogTarget::Multi(vec![LogTarget::Stderr])]);
    assert!(nested.has_console_output() && !nested.has_file_output());
    assert!(LogConfig::default().validate_module_names().is_ok());
    let bad = LogConfig::builder().module_level("", LogLevel::Debug).build();
    assert!(bad.validate_module_names().is_err());
}

#[test]
fn test_trace_context_creation() {
    let ctx = TraceContext::new();
    assert!(!ctx.request_id.is_empty());
    assert!(ctx.device_id.is_none());
    assert!(ctx.protocol.is_none());
}

#[test]
fn test_trace_context_builder() {
    let ctx = TraceContext::new()
        .with_device_id("device-001")
        .with_protocol("modbus")
        .with_operation("read")
        .with_field("unit_id", "1");

    assert_eq!(ctx.device_id, Some("device-001".to_string()));
    assert_eq!(ctx.protocol, Some("modbus".to_string()));
    assert_eq!(ctx.operation, Some("read".to_string()));
    assert_eq!(ctx.fields.get("unit_id"), Some(&"1".to_string()));
}

#[test]
fn test_trace_context_child() {
    let parent = TraceContext::new()
        .with_device_id("device-001")
        .with_trace_id("trace-123");

    let child = parent.child();

    assert_eq!(child.request_id, parent.request_id);
    assert_eq!(child.trace_id, parent.trace_id);
    assert_eq!(child.device_id, parent.device_id);
    assert_eq!(child.parent_span_id, parent.span_id);
}

#[test]
fn test_trace_context_to_map() {
    let ctx = TraceContext::new()
        .with_device_id("device-001")
        .with_protocol("modbus");

    let map = ctx.to_map();
    assert!(map.contains_key("request_id"));
    assert_eq!(map.get("device_id"), Some(&"device-001".to_string()));
    assert_eq!(map.get("protocol"), Some(&"modbus".to_string()));
}

#[test]
fn test_trace_context_headers() {
    let ctx = TraceContext::new()
        .with_device_id("device-001")
        .with_trace_id("trace-123");

    let headers = ctx.to_headers();
    assert!(headers.contains_key("x-request-id"));
    assert_eq!(headers.get("x-trace-id"), Some(&"trace-123".to_string()));
    assert_eq!(headers.get("x-device-id"), Some(&"device-001".to_string()));

    // Round-trip
    let parsed = TraceContext::from_headers(&headers);
    assert_eq!(parsed.request_id, ctx.request_id);
    assert_eq!(parsed.trace_id, ctx.trace_id);
    assert_eq!(parsed.device_id, ctx.device_id);
}

#[test]
fn headers_fall_back_to_correlation_id_and_traceparent() {
    let mut headers: StrMap<String> = StrMap::new();
    headers.insert("x-correlation-id".to_string(), "corr-1".to_string());
    headers.insert("traceparent".to_string(), "00-abc".to_string());
    let ctx = TraceContext::from_headers(&headers);
    assert_eq!(ctx.request_id, "corr-1");
    assert_eq!(ctx.trace_id, Some("00-abc".to_string()));
    assert!(ctx.span_id.is_none());
    let empty: StrMap<String> = StrMap::new();
    let fresh = TraceContext::from_headers(&empty);
    assert_eq!(fresh.request_id.len(), 36);
    let fields_win = TraceContext::with_request_id("r-1").with_field("request_id", "override");
    assert_eq!(fields_win.to_map().get("request_id"), Some(&"override".to_string()));
    let many = TraceContext::with_request_id("r-2").with_fields(&[("a", "1"), ("b", "2"), ("a", "3")]);
    assert_eq!(many.fields.get("a"), Some(&"3".to_string()));
    assert_eq!(many.fields.len(), 2);
}

#[test]
fn test_request_context() {
    let ctx = RequestContext::new()
        .device("device-001")
        .protocol("modbus")
        .operation("read")
        .with_timeout(Duration::from_secs(5));

    assert!(!ctx.request_id().is_empty());
    assert!(!ctx.is_timed_out());
    assert!(ctx.remaining_timeout().is_some());
}

#[test]
fn request_timeouts_at_given_elapsed_times() {
    let ctx = RequestContext::new().with_timeout(Duration::from_secs(5));
    assert!(!ctx.is_timed_out_after(Duration::from_secs(5)));
    assert!(ctx.is_timed_out_after(Duration::from_millis(5001)));
    assert_eq!(
        ctx.remaining_timeout_after(Duration::from_secs(2)).map(|d| d.as_millis()),
        Some(3000)
    );
    assert!(ctx.remaining_timeout_after(Duration::from_secs(6)).is_none());
    let open = RequestContext::new();
    assert!(!open.is_timed_out_after(Duration::from_secs(1000)));
    assert!(open.remaining_timeout().is_none());
    assert!(RequestContext::new().debug().debug_request);
}

#[test]
fn test_device_context() {
    let ctx = DeviceContext::new("device-001", "modbus");

    assert_eq!(ctx.device_id, "device-001");
    assert_eq!(ctx.protocol, "modbus");
    assert!(!ctx.request_id().is_empty());

    let child = ctx.child();
    assert_eq!(child.request_id(), ctx.request_id());
}

#[test]
fn test_shared_context() {
    let ctx = TraceContext::new().with_device_id("device-001");
    let shared = shared_context(ctx);

    assert_eq!(shared.device_id, Some("device-001".to_string()));
}

#[test]
fn context_age_at_given_times() {
    let mut ctx = TraceContext::with_request_id("r");
    ctx.created_at = 1_000;
    assert_eq!(ctx.age_ms_at(1_250), 250);
    assert_eq!(ctx.age_ms_at(900), 0);
    assert!(ctx.is_older_than_ms_at(1_250, 200));
    assert!(!ctx.is_older_than_ms_at(1_250, 250));
}

#[test]
fn test_level_change_event() {
    let event = LevelChangeEvent {
        change_type: LevelChangeType::Global,
        previous_level: Some(LogLevel::Info),
        new_level: LogLevel::Debug,
        timestamp: std::time::SystemTime::now(),
    };

    assert_eq!(event.change_type, LevelChangeType::Global);
    assert_eq!(event.previous_level, Some(LogLevel::Info));
    assert_eq!(event.new_level, LogLevel::Debug);
}

#[test]
fn test_level_change_type() {
    let global = LevelChangeType::Global;
    let module = LevelChangeType::Module("test::module".to_string());

    assert_ne!(global, module);
}

#[test]
fn test_level_change_stats() {
    let mut stats = LevelChangeStats::default();
    stats.total_changes = 5;
    stats.global_changes = 2;
    stats.module_changes = 3;

    assert_eq!(stats.total_changes, 5);
    assert_eq!(stats.global_changes + stats.module_changes, 5);
}

#[test]
fn level_settings_build_filters() {
    let mut s = LevelSettings::new(LogLevel::Info);
    assert_eq!(s.current_filter_string(), "trap_sim=info");
    assert_eq!(s.reload_filter_string(), "trap_sim=info,tokio=warn,hyper=warn");
    s.set_module_level("mabi_core::engine", LogLevel::Trace);
    s.set_module_level("tokio", LogLevel::Error);
    s.set_level(LogLevel::Debug);
    assert_eq!(
        s.current_filter_string(),
        "trap_sim=debug,mabi_core::engine=trace,tokio=error"
    );
    assert_eq!(
        s.reload_filter_string(),
        "trap_sim=debug,mabi_core::engine=trace,tokio=error,hyper=warn"
    );
    assert_eq!(s.module_level("tokio"), Some(LogLevel::Error));
    s.remove_module_level("tokio");
    assert_eq!(s.module_level("tokio"), None);
    s.clear_module_levels();
    assert_eq!(s.current_filter_string(), "trap_sim=debug");
}

#[test]
fn test_rotation_strategy_default() {
    assert_eq!(RotationStrategy::default(), RotationStrategy::Daily);
}

#[test]
fn test_rotation_config_builders() {
    let daily = RotationConfig::daily();
    assert_eq!(daily.strategy, RotationStrategy::Daily);

    let hourly = RotationConfig::hourly().with_max_files(24);
    assert_eq!(hourly.strategy, RotationStrategy::Hourly);
    assert_eq!(hourly.max_files, Some(24));

    let never = RotationConfig::never().keep_all();
    assert_eq!(never.strategy, RotationStrategy::Never);
    assert_eq!(never.max_files, None);
}

#[test]
fn test_retention_policy() {
    let policy = RetentionPolicy::new().with_max_age_days(7).with_max_files(10);

    assert_eq!(policy.max_age_days, Some(7));
    assert_eq!(policy.max_files, Some(10));
}

#[test]
fn test_strategy_descriptions() {
    assert!(!RotationStrategy::Daily.description().is_empty());
    assert!(!RotationStrategy::Hourly.suffix_pattern().is_empty());
}

#[test]
fn rotation_and_retention_defaults() {
    assert_eq!(RotationConfig::default().max_files, Some(7));
    assert!(RotationConfig::minutely().with_compression(true).compress);
    assert_eq!(RotationStrategy::Minutely.suffix_pattern(), "YYYY-MM-DD-HH-mm");
    assert_eq!(RetentionPolicy::default().max_total_size_bytes, Some(1024 * 1024 * 1024));
    assert_eq!(RetentionPolicy::keep_all().max_files, None);
    assert_eq!(RetentionPolicy::minimal().max_total_size_bytes, Some(10 * 1024 * 1024));
    assert_eq!(RetentionPolicy::default().with_max_total_size(5).max_total_size_bytes, Some(5));
}

#[test]
fn log_file_stats_over_a_listing() {
    let entries = vec![
        LogFileEntry { name: "sim.log".to_string(), is_file: true, size: Some(100), modified_secs: Some(50) },
        LogFileEntry { name: "sim.2024".to_string(), is_file: true, size: Some(20), modified_secs: Some(10) },
        LogFileEntry { name: "other.log".to_string(), is_file: true, size: Some(7), modified_secs: Some(1) },
        LogFileEntry { name: "sim.dir".to_string(), is_file: false, size: Some(9), modified_secs: Some(2) },
        LogFileEntry { name: "sim.new".to_string(), is_file: true, size: None, modified_secs: Some(99) },
        LogFileEntry { name: "sim.old".to_string(), is_file: true, size: Some(3), modified_secs: None },
    ];
    let stats = LogFileStats::from_entries(&entries, "sim");
    assert_eq!(stats.file_count, 4);
    assert_eq!(stats.total_size_bytes, 123);
    assert_eq!(stats.oldest_file_timestamp, Some(10));
    assert_eq!(stats.newest_file_timestamp, Some(50));
    assert_eq!(stats.oldest_file_age_days_at(10 + 3 * 86400 + 5), Some(3));
    assert_eq!(stats.oldest_file_age_days_at(5), Some(0));
    assert_eq!(LogFileStats::default().oldest_file_age_days_at(100), None);
}

#[test]
fn debug_mode_is_restored() {
    let mut s = LevelSettings::new(LogLevel::Warn);
    s.set_module_level("mabi_core::engine", LogLevel::Error);
    let saved = s.enable_debug_mode();
    assert_eq!(s.current_level, LogLevel::Debug);
    assert_eq!(s.module_level("mabi_core::engine"), Some(LogLevel::Error));
    s.set_module_level("other", LogLevel::Trace);
    s.restore_debug_mode(saved);
    assert_eq!(s.current_level, LogLevel::Warn);
    assert_eq!(s.module_level("other"), None);
    assert_eq!(s.current_filter_string(), "trap_sim=warn,mabi_core::engine=error");
}

#[test]
fn module_trace_is_restored() {
    let mut s = LevelSettings::new(LogLevel::Info);
    s.set_module_level("a", LogLevel::Warn);
    let prev_a = s.enable_module_trace("a");
    assert_eq!(prev_a, Some(LogLevel::Warn));
    assert_eq!(s.module_level("a"), Some(LogLevel::Trace));
    let prev_b = s.enable_module_trace("b");
    assert_eq!(prev_b, None);
    assert_eq!(s.module_level("b"), Some(LogLevel::Trace));
    s.restore_module_trace("b", prev_b);
    s.restore_module_trace("a", prev_a);
    assert_eq!(s.module_level("a"), Some(LogLevel::Warn));
    assert_eq!(s.module_level("b"), None);
    assert_eq!(s.current_level, LogLevel::Info);
}

#[test]
fn test_trace_context_age() {
    let ctx = TraceContext::new();
    let start = std::time::Instant::now();
    while start.elapsed() < std::time::Duration::from_millis(10) {}

    assert!(ctx.age_ms() >= 10);
    assert!(ctx.is_older_than_ms(5));
    assert!(!ctx.is_older_than_ms(1000));
}

#[test]
fn tracing_levels_match_by_name() {
    assert_eq!(LogLevel::Trace.to_tracing_level(), Some(tracing::Level::TRACE));
    assert_eq!(LogLevel::Debug.to_tracing_level(), Some(tracing::Level::DEBUG));
    assert_eq!(LogLevel::Info.to_tracing_level().unwrap().as_str(), "INFO");
    assert_eq!(LogLevel::Error.to_tracing_level(), Some(tracing::Level::ERROR));
}
