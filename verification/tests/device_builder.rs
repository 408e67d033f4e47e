use mabi_core::device_builder::validate_device_config;
use mabi_core::error::Error;

fn config_message(r: Result<(), Error>) -> String {
    match r {
        Err(Error::Config(m)) => m,
        _ => panic!("expected a configuration error"),
    }
}

#[test]
fn device_config_validation_messages() {
    assert!(validate_device_config("dev-001", "Test", &["temp", "humidity"]).is_ok());
    assert!(validate_device_config("dev-001", "Test", &[]).is_ok());
    assert_eq!(
        config_message(validate_device_config("", "Test", &[])),
        "Device ID cannot be empty"
    );
    assert_eq!(
        config_message(validate_device_config("test", "", &[])),
        "Device name cannot be empty"
    );
    assert_eq!(
        config_message(validate_device_config("dev-001", "Test", &["temp", "temp"])),
        "Duplicate data point ID: temp"
    );
}

#[test]
fn device_config_validation_order() {
    // an empty id is reported before an empty name and before duplicates
    assert_eq!(
        config_message(validate_device_config("", "", &["a", "a"])),
        "Device ID cannot be empty"
    );
    // the first id that repeats an earlier one is reported
    assert_eq!(
        config_message(validate_device_config("d", "n", &["a", "b", "b", "a"])),
        "Duplicate data point ID: b"
    );
}
