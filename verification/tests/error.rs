use mabi_core::device::DeviceState;
use mabi_core::error::{Error, ErrorSeverity, ValidationErrors, ValidationErrorsBuilder};

#[test]
fn test_validation_errors() {
    let mut errors = ValidationErrors::new();
    errors.add("name", "cannot be empty");
    errors.add("name", "must be at least 3 characters");
    errors.add("id", "must be unique");

    assert_eq!(errors.len(), 2);
    assert_eq!(errors.total_errors(), 3);
    assert_eq!(errors.get("name").unwrap().len(), 2);
}

#[test]
fn test_validation_errors_builder() {
    let errors = ValidationErrorsBuilder::new()
        .add("field1", "error1")
        .add_if(true, "field2", "error2")
        .add_if(false, "field3", "error3")
        .build();

    assert_eq!(errors.len(), 2);
    assert!(errors.get("field3").is_none());
}

#[test]
fn test_validation_into_result() {
    let errors = ValidationErrors::new();
    let result: Result<i32, Error> = errors.into_result(42);
    assert!(result.is_ok());

    let mut errors = ValidationErrors::new();
    errors.add("field", "error");
    let result: Result<i32, Error> = errors.into_result(42);
    assert!(result.is_err());
}

#[test]
fn test_error_recoverable() {
    assert!(Error::Timeout { duration_ms: 1000 }.is_recoverable());
    assert!(!Error::DeviceNotFound { device_id: "x".into() }.is_recoverable());
}

#[test]
fn test_error_severity() {
    assert_eq!(Error::Internal("test".into()).severity(), ErrorSeverity::Critical);
    assert_eq!(Error::Timeout { duration_ms: 1000 }.severity(), ErrorSeverity::Medium);
    assert_eq!(
        Error::InvalidValue { point_id: "x".into(), reason: "y".into() }.severity(),
        ErrorSeverity::Low
    );
}

#[test]
fn validation_error_message_counts_fields() {
    let mut errors = ValidationErrors::new();
    errors.add("a", "x");
    errors.add("a", "y");
    errors.add("b", "z");
    match errors.into_result(()) {
        Err(Error::Validation { message, errors }) => {
            assert_eq!(message, "2 validation error(s)");
            assert_eq!(errors.total_errors(), 3);
        }
        _ => panic!("expected a validation error"),
    }
}

#[test]
fn validation_errors_text_and_merge() {
    let mut a = ValidationErrors::new();
    a.add("name", "empty");
    let mut b = ValidationErrors::new();
    b.add("name", "short");
    b.add("id", "dup");
    a.merge(b);
    assert_eq!(a.get("name").unwrap(), &vec!["empty".to_string(), "short".to_string()]);
    assert_eq!(a.to_text(), "name: empty; name: short; id: dup");
    assert_eq!(a.fields(), vec!["name".to_string(), "id".to_string()]);
    assert_eq!(a.iter().len(), 2);
    assert_eq!(a.total_errors(), 3);
}

#[test]
fn error_constructors_and_kinds() {
    assert!(Error::device_not_found("d").is_not_found());
    assert!(Error::point_not_found("d", "p").is_not_found());
    assert!(!Error::capacity_exceeded(1, 2, "devices").is_not_found());
    assert_eq!(
        Error::Lifecycle { from: DeviceState::Online, to: DeviceState::Uninitialized }.severity(),
        ErrorSeverity::High
    );
    assert_eq!(Error::access_denied("p", "write", "ro").severity(), ErrorSeverity::Low);
    assert_eq!(Error::Config("c".into()).severity(), ErrorSeverity::Medium);
    assert!(Error::validation(ValidationErrors::new()).is_validation());
}

#[test]
fn test_error_display() {
    let err = Error::device_not_found("device-001");
    assert_eq!(err.to_text(), "Device not found: device-001");
}

#[test]
fn test_access_denied_error() {
    let err = Error::access_denied("temp", "write", "readonly");
    assert_eq!(err.to_text(), "Access denied: write not allowed on temp (mode: readonly)");
}
