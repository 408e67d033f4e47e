use mabi_core::protocol::Protocol;
use std::str::FromStr;

#[test]
fn test_protocol_from_str() {
    assert_eq!(Protocol::from_str("modbus_tcp").unwrap(), Protocol::ModbusTcp);
    assert_eq!(Protocol::from_str("opcua").unwrap(), Protocol::OpcUa);
    assert_eq!(Protocol::from_str("bacnet").unwrap(), Protocol::BacnetIp);
    assert_eq!(Protocol::from_str("knx").unwrap(), Protocol::KnxIp);
}

#[test]
fn test_protocol_default_port() {
    assert_eq!(Protocol::ModbusTcp.default_port(), 502);
    assert_eq!(Protocol::OpcUa.default_port(), 4840);
    assert_eq!(Protocol::BacnetIp.default_port(), 47808);
    assert_eq!(Protocol::KnxIp.default_port(), 3671);
}

#[test]
fn protocol_names_round_trip_and_reject_unknown() {
    for p in [Protocol::ModbusTcp, Protocol::ModbusRtu, Protocol::OpcUa, Protocol::BacnetIp, Protocol::KnxIp] {
        assert_eq!(Protocol::from_str(p.as_str()).unwrap(), p);
    }
    assert!(Protocol::from_str("Modbus_TCP").is_err());
    assert_eq!(Protocol::parse_name("knxnet-ip"), Some(Protocol::KnxIp));
    assert_eq!(Protocol::ModbusRtu.default_port(), 0);
    assert!(Protocol::ModbusRtu.is_serial());
    assert!(Protocol::OpcUa.is_tcp() && !Protocol::OpcUa.is_udp());
    assert_eq!(Protocol::BacnetIp.display_name(), "BACnet/IP");
}

#[test]
fn protocol_from_str_follows_parse_name() {
    assert_eq!(Protocol::from_str("knxnet-ip"), Ok(Protocol::KnxIp));
    assert!(Protocol::from_str("KNX").is_err());
}
