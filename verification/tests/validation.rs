use mabi_core::config::validation::{
    CrossFieldValidator, PathExistsRule, PathInfo, RangeRule, SocketAddrInfo, SocketAddrRule,
    StringLengthRule, ValidationContext, ValidationRule, Validator,
};

#[test]
fn test_range_rule() {
    let rule = RangeRule::between(0, 100);

    assert!(rule.validate(&50).is_ok());
    assert!(rule.validate(&0).is_ok());
    assert!(rule.validate(&100).is_ok());
    assert!(rule.validate(&-1).is_err());
    assert!(rule.validate(&101).is_err());
}

#[test]
fn test_string_length_rule() {
    let rule = StringLengthRule::new(Some(3), Some(10));

    assert!(rule.validate(&"hello".to_string()).is_ok());
    assert!(rule.validate(&"ab".to_string()).is_err());
    assert!(rule.validate(&"this is too long".to_string()).is_err());
}

#[test]
fn test_string_non_empty() {
    let rule = StringLengthRule::non_empty();

    assert!(rule.validate(&"hello".to_string()).is_ok());
    assert!(rule.validate(&"".to_string()).is_err());
}

#[test]
fn test_validator() {
    let mut validator = Validator::new();

    validator.require_non_empty("name", "");
    validator.require_positive("count", -1i64);
    validator.require_range("percent", 150, 0, 100);

    assert!(validator.has_errors());
    assert_eq!(validator.errors().len(), 3);
}

#[test]
fn test_validator_nested() {
    let mut validator = Validator::new();

    validator.validate_nested("engine", |v| {
        v.add_error("max_devices", "Too low");
    });

    let errors = validator.into_errors();
    assert!(errors.get("engine.max_devices").is_some());
}

#[test]
fn test_validation_context() {
    let mut ctx = ValidationContext::new();

    ctx.enter("engine");
    assert_eq!(ctx.field("max_devices"), "engine.max_devices");

    ctx.enter("modbus");
    assert_eq!(ctx.field("port"), "engine.modbus.port");

    ctx.leave();
    assert_eq!(ctx.field("workers"), "engine.workers");

    ctx.leave();
    assert_eq!(ctx.field("name"), "name");
}

#[test]
fn test_cross_field_validator() {
    struct Config {
        min: u32,
        max: u32,
    }

    let config = Config { min: 100, max: 50 };
    let mut validator = CrossFieldValidator::new(&config);

    validator.add_if(config.min > config.max, &["min", "max"], "min cannot be greater than max");

    assert!(validator.has_errors());
}

#[test]
fn test_validate_macro() {
    let mut validator = Validator::new();
    let value = 150;

    validator.add_if(!(value <= 100), "percent", "Must be <= 100");
    assert!(validator.has_errors());

    let mut validator2 = Validator::new();
    let value2 = 50;
    validator2.add_if(!(value2 <= 100), "percent", "Must be <= 100");
    assert!(!validator2.has_errors());
}

#[test]
fn test_path_exists_rule_file() {
    let rule = PathExistsRule::file();
    let non_existent = PathInfo {
        display: "/non/existent/file.txt".to_string(),
        exists: false,
        is_file: false,
        is_dir: false,
    };
    assert!(rule.validate(&non_existent).is_err());
}

#[test]
fn test_socket_addr_rule() {
    let rule = SocketAddrRule::new().non_privileged_port();
    let valid = SocketAddrInfo { is_ipv6: false, port: 8080 };
    let invalid = SocketAddrInfo { is_ipv6: false, port: 80 };
    assert!(rule.validate(&valid).is_ok());
    assert_eq!(rule.validate(&invalid), Err("Port 80 must be between 1024 and 65535".to_string()));
    assert_eq!(
        SocketAddrRule::new().ipv4_only().validate(&SocketAddrInfo { is_ipv6: true, port: 1 }),
        Err("IPv4 address required".to_string())
    );
}

#[test]
fn rule_messages_are_exact() {
    let rule = RangeRule::between(-5, 100);
    assert_eq!(rule.description(), "Value must be between -5 and 100");
    assert_eq!(rule.validate(&-6), Err("Value -6 is below minimum -5".to_string()));
    assert_eq!(rule.validate(&101), Err("Value 101 exceeds maximum 100".to_string()));
    assert_eq!(RangeRule::min(3).description(), "Value must be at least 3");
    assert_eq!(StringLengthRule::max(2).validate(&"héllo".to_string()),
        Err("String length 6 exceeds maximum 2".to_string()));
    assert_eq!(PathExistsRule::directory().validate(&PathInfo {
        display: "/tmp/x".to_string(), exists: true, is_file: true, is_dir: false }),
        Err("Path '/tmp/x' is not a directory".to_string()));
    assert!(PathExistsRule::existing().validate(&PathInfo {
        display: "/tmp".to_string(), exists: true, is_file: false, is_dir: true }).is_ok());
}

#[test]
fn validator_messages_and_paths() {
    let mut v = Validator::new();
    v.context_mut().enter("engine");
    v.require_positive("count", 0);
    v.require_non_empty("name", "   ");
    let errs = v.into_errors();
    assert_eq!(errs.get("engine.count").unwrap(), &vec!["Value must be positive, got 0".to_string()]);
    assert_eq!(errs.get("engine.name").unwrap(), &vec!["Value cannot be empty".to_string()]);

    let cfg = 1u8;
    let mut c = CrossFieldValidator::new(&cfg);
    c.add_error(&["min", "max"], "bad");
    assert_eq!(*c.config(), 1);
    let e = c.into_errors();
    assert!(e.get("min, max").is_some());
}
