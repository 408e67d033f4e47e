//! What device factories and plugins report of themselves, and the checks a
//! factory registry makes.
use vstd::prelude::*;

use crate::error::{Error, Result};
use crate::protocol::Protocol;
use crate::text::cat;

verus! {

/// The name `{:?}` prints for a protocol: its variant's name.
pub open spec fn protocol_variant_name(p: Protocol) -> Seq<char> {
    match p {
        Protocol::ModbusTcp => "ModbusTcp"@,
        Protocol::ModbusRtu => "ModbusRtu"@,
        Protocol::OpcUa => "OpcUa"@,
        Protocol::BacnetIp => "BacnetIp"@,
        Protocol::KnxIp => "KnxIp"@,
    }
}

/// The variant name of a protocol, as `{:?}` prints it.
pub fn protocol_variant(p: Protocol) -> (r: &'static str)
    ensures
        r@ == protocol_variant_name(p),
{
    match p {
        Protocol::ModbusTcp => "ModbusTcp",
        Protocol::ModbusRtu => "ModbusRtu",
        Protocol::OpcUa => "OpcUa",
        Protocol::BacnetIp => "BacnetIp",
        Protocol::KnxIp => "KnxIp",
    }
}

/// Metadata about a device factory.
#[derive(Debug, Clone)]
pub struct FactoryMetadata {
    /// Protocol this factory handles.
    pub protocol: Protocol,
    /// Factory version.
    pub version: String,
    /// Description.
    pub description: String,
    /// Supported capabilities.
    pub capabilities: Vec<String>,
}

impl FactoryMetadata {
    /// What a factory reports unless it says otherwise: version `1.0.0`, the
    /// description "<Protocol> device factory", and no capabilities.
    pub fn for_protocol(protocol: Protocol) -> (r: Self)
        ensures
            r.protocol == protocol,
            r.version@ == "1.0.0"@,
            r.description@ == protocol_variant_name(protocol) + " device factory"@,
            r.capabilities@.len() == 0,
    {
        FactoryMetadata {
            protocol,
            version: "1.0.0".to_owned(),
            description: cat(protocol_variant(protocol), " device factory"),
            capabilities: Vec::new(),
        }
    }
}

/// The message for a configuration of the wrong protocol.
pub open spec fn mismatch_message(expected: Protocol, got: Protocol) -> Seq<char> {
    "Protocol mismatch: expected "@ + protocol_variant_name(expected) + ", got "@
        + protocol_variant_name(got)
}

/// The check a factory makes of a device configuration before creating the
/// device: an empty id, then an empty name, then a protocol other than the
/// factory's, are refused with `Config` errors.
pub fn validate_for_factory(factory_protocol: Protocol, id: &str, name: &str, protocol: Protocol) -> (r: Result<()>)
    ensures
        id@.len() == 0 ==> (r matches Err(Error::Config(m)) && m@ == "Device ID cannot be empty"@),
        id@.len() > 0 && name@.len() == 0 ==> (r matches Err(Error::Config(m)) && m@
            == "Device name cannot be empty"@),
        id@.len() > 0 && name@.len() > 0 && protocol != factory_protocol ==> (r matches Err(
            Error::Config(m),
        ) && m@ == mismatch_message(factory_protocol, protocol)),
        id@.len() > 0 && name@.len() > 0 && protocol == factory_protocol ==> r is Ok,
{
    if id.unicode_len() == 0 {
        return Err(Error::Config("Device ID cannot be empty".to_owned()));
    }
    if name.unicode_len() == 0 {
        return Err(Error::Config("Device name cannot be empty".to_owned()));
    }
    if protocol != factory_protocol {
        let a = cat("Protocol mismatch: expected ", protocol_variant(factory_protocol));
        let b = cat(a.as_str(), ", got ");
        let m = cat(b.as_str(), protocol_variant(protocol));
        return Err(Error::Config(m));
    }
    Ok(())
}

/// Whether a factory for `protocol` may join those registered: refused with
/// `Config("Factory already registered for protocol <Protocol>")` when one
/// for that protocol is there.
pub fn check_registration(registered: &[Protocol], protocol: Protocol) -> (r: Result<()>)
    ensures
        registered@.contains(protocol) ==> (r matches Err(Error::Config(m)) && m@
            == "Factory already registered for protocol "@ + protocol_variant_name(protocol)),
        !registered@.contains(protocol) ==> r is Ok,
{
    let mut i: usize = 0;
    while i < registered.len()
        invariant
            i <= registered@.len(),
            forall|j: int| 0 <= j < i ==> registered@[j] != protocol,
        decreases registered@.len() - i,
    {
        if registered[i] == protocol {
            return Err(
                Error::Config(cat("Factory already registered for protocol ", protocol_variant(protocol))),
            );
        }
        i = i + 1;
    }
    Ok(())
}

/// Information about a loaded plugin.
#[derive(Debug, Clone)]
pub struct PluginInfo {
    /// Plugin name.
    pub name: String,
    /// Plugin version.
    pub version: String,
    /// Plugin description.
    pub description: String,
}

} // verus!
