use mabi_core::capabilities::{default_capabilities, Capability, CapabilitySet, CapabilitySetBuilder};
use mabi_core::protocol::Protocol;

#[test]
fn test_capability_set() {
    let mut set = CapabilitySet::new();
    set.add(Capability::Read);
    set.add(Capability::Write);

    assert!(set.supports(Capability::Read));
    assert!(set.supports(Capability::Write));
    assert!(!set.supports(Capability::Subscription));
    assert_eq!(set.len(), 2);
}

#[test]
fn test_supports_all_any() {
    let set = CapabilitySet::with_capabilities(&[Capability::Read, Capability::Write, Capability::Browse]);

    assert!(set.supports_all(&[Capability::Read, Capability::Write]));
    assert!(!set.supports_all(&[Capability::Read, Capability::Subscription]));

    assert!(set.supports_any(&[Capability::Read, Capability::Subscription]));
    assert!(!set.supports_any(&[Capability::Subscription, Capability::HistoryRead]));
}

#[test]
fn test_default_capabilities() {
    let modbus_caps = default_capabilities(Protocol::ModbusTcp);
    assert!(modbus_caps.supports(Capability::Read));
    assert!(modbus_caps.supports(Capability::ModbusBasicRead));
    assert!(!modbus_caps.supports(Capability::Subscription));

    let opcua_caps = default_capabilities(Protocol::OpcUa);
    assert!(opcua_caps.supports(Capability::Subscription));
    assert!(opcua_caps.supports(Capability::HistoryRead));
    assert!(opcua_caps.supports(Capability::OpcUaMethods));
}

#[test]
fn test_capability_builder() {
    let set = CapabilitySetBuilder::new()
        .with_core()
        .with_subscriptions()
        .add(Capability::Discovery)
        .build();

    assert!(set.supports(Capability::Read));
    assert!(set.supports(Capability::Write));
    assert!(set.supports(Capability::Browse));
    assert!(set.supports(Capability::Subscription));
    assert!(set.supports(Capability::Discovery));
}

#[test]
fn test_capability_builder_from_protocol() {
    let set = CapabilitySetBuilder::from_protocol(Protocol::ModbusTcp)
        .remove(Capability::Write)
        .add(Capability::Subscription)
        .build();

    assert!(set.supports(Capability::Read));
    assert!(!set.supports(Capability::Write));
    assert!(set.supports(Capability::Subscription));
}

#[test]
fn test_intersection() {
    let set1 = CapabilitySet::with_capabilities(&[Capability::Read, Capability::Write, Capability::Browse]);
    let set2 = CapabilitySet::with_capabilities(&[Capability::Read, Capability::Browse, Capability::Subscription]);

    let intersection = set1.intersection(&set2);
    assert!(intersection.supports(Capability::Read));
    assert!(intersection.supports(Capability::Browse));
    assert!(!intersection.supports(Capability::Write));
    assert!(!intersection.supports(Capability::Subscription));
}

#[test]
fn test_capability_description() {
    assert_eq!(Capability::Read.description(), "Read single data points");
    assert!(Capability::Read.is_core());
    assert!(!Capability::Subscription.is_core());
}

#[test]
fn capability_set_counts_each_member_once() {
    let set = CapabilitySet::with_capabilities(&[Capability::Read, Capability::Read, Capability::Write]);
    assert_eq!(set.len(), 2);
    assert_eq!(set.list().len(), 2);
    assert!(!set.is_empty());
    assert!(CapabilitySet::new().is_empty());
}

#[test]
fn capability_merge_is_union() {
    let mut a = CapabilitySet::with_capabilities(&[Capability::Read]);
    let b = CapabilitySet::with_capabilities(&[Capability::Write, Capability::Read]);
    a.merge(&b);
    assert_eq!(a.len(), 2);
    assert!(a.supports(Capability::Write));
}

#[test]
fn knx_defaults_are_five() {
    assert_eq!(default_capabilities(Protocol::KnxIp).len(), 5);
    assert_eq!(default_capabilities(Protocol::BacnetIp).len(), 12);
    assert_eq!(default_capabilities(Protocol::ModbusRtu).len(), 8);
    assert_eq!(default_capabilities(Protocol::OpcUa).len(), 17);
}
