use mabi_core::error::Error;
use mabi_core::factory::{check_registration, validate_for_factory, FactoryMetadata, PluginInfo};
use mabi_core::protocol::Protocol;

#[test]
fn factory_metadata_defaults() {
    let m = FactoryMetadata::for_protocol(Protocol::ModbusTcp);
    assert_eq!(m.protocol, Protocol::ModbusTcp);
    assert_eq!(m.version, "1.0.0");
    assert_eq!(m.description, "ModbusTcp device factory");
    assert!(m.capabilities.is_empty());
    assert_eq!(
        FactoryMetadata::for_protocol(Protocol::KnxIp).description,
        "KnxIp device factory"
    );
}

#[test]
fn factory_validation() {
    assert!(validate_for_factory(Protocol::ModbusTcp, "d", "n", Protocol::ModbusTcp).is_ok());
    match validate_for_factory(Protocol::ModbusTcp, "d", "n", Protocol::BacnetIp) {
        Err(Error::Config(m)) => assert_eq!(m, "Protocol mismatch: expected ModbusTcp, got BacnetIp"),
        _ => panic!("mismatch expected"),
    }
    match validate_for_factory(Protocol::ModbusTcp, "", "n", Protocol::BacnetIp) {
        Err(Error::Config(m)) => assert_eq!(m, "Device ID cannot be empty"),
        _ => panic!("empty id expected"),
    }
    match validate_for_factory(Protocol::ModbusTcp, "d", "", Protocol::ModbusTcp) {
        Err(Error::Config(m)) => assert_eq!(m, "Device name cannot be empty"),
        _ => panic!("empty name expected"),
    }
}

#[test]
fn factory_duplicate_registration() {
    assert!(check_registration(&[], Protocol::OpcUa).is_ok());
    assert!(check_registration(&[Protocol::ModbusTcp], Protocol::OpcUa).is_ok());
    match check_registration(&[Protocol::ModbusTcp, Protocol::OpcUa], Protocol::OpcUa) {
        Err(Error::Config(m)) => assert_eq!(m, "Factory already registered for protocol OpcUa"),
        _ => panic!("duplicate expected"),
    }
}

#[test]
fn plugin_info_fields() {
    let p = PluginInfo {
        name: "p".to_string(),
        version: "1.0.0".to_string(),
        description: String::new(),
    };
    let q = p.clone();
    assert_eq!(q.name, "p");
    assert_eq!(q.version, "1.0.0");
}
