//! Protocol definitions.
use vstd::prelude::*;

use crate::text::str_eq;

verus! {

/// Supported protocols.
#[derive(Debug, Clone, Copy, PartialEq, Eq, Hash, Structural)]
pub enum Protocol {
    /// Modbus TCP protocol.
    ModbusTcp,
    /// Modbus RTU protocol.
    ModbusRtu,
    /// OPC UA protocol.
    OpcUa,
    /// BACnet/IP protocol.
    BacnetIp,
    /// KNXnet/IP protocol.
    KnxIp,
}

/// The names a protocol is parsed from: each variant accepts two spellings.
pub open spec fn spec_parse_protocol(s: Seq<char>) -> Option<Protocol> {
    if s == "modbus_tcp"@ || s == "modbus-tcp"@ {
        Some(Protocol::ModbusTcp)
    } else if s == "modbus_rtu"@ || s == "modbus-rtu"@ {
        Some(Protocol::ModbusRtu)
    } else if s == "opcua"@ || s == "opc-ua"@ {
        Some(Protocol::OpcUa)
    } else if s == "bacnet"@ || s == "bacnet-ip"@ {
        Some(Protocol::BacnetIp)
    } else if s == "knx"@ || s == "knxnet-ip"@ {
        Some(Protocol::KnxIp)
    } else {
        None
    }
}

pub open spec fn spec_default_port(p: Protocol) -> u16 {
    match p {
        Protocol::ModbusTcp => 502,
        Protocol::ModbusRtu => 0,
        Protocol::OpcUa => 4840,
        Protocol::BacnetIp => 47808,
        Protocol::KnxIp => 3671,
    }
}

impl Default for Protocol {
    fn default() -> (r: Self)
        ensures
            r == Protocol::ModbusTcp,
    {
        Protocol::ModbusTcp
    }
}

impl Protocol {
    /// Get default port for this protocol (0 for serial Modbus RTU).
    pub fn default_port(&self) -> (r: u16)
        ensures
            r == spec_default_port(*self),
    {
        match self {
            Protocol::ModbusTcp => 502,
            Protocol::ModbusRtu => 0,
            Protocol::OpcUa => 4840,
            Protocol::BacnetIp => 47808,
            Protocol::KnxIp => 3671,
        }
    }

    /// Check if protocol uses TCP.
    pub fn is_tcp(&self) -> (r: bool)
        ensures
            r == (*self == Protocol::ModbusTcp || *self == Protocol::OpcUa),
    {
        matches!(self, Protocol::ModbusTcp | Protocol::OpcUa)
    }

    /// Check if protocol uses UDP.
    pub fn is_udp(&self) -> (r: bool)
        ensures
            r == (*self == Protocol::BacnetIp || *self == Protocol::KnxIp),
    {
        matches!(self, Protocol::BacnetIp | Protocol::KnxIp)
    }

    /// Check if protocol uses serial.
    pub fn is_serial(&self) -> (r: bool)
        ensures
            r == (*self == Protocol::ModbusRtu),
    {
        matches!(self, Protocol::ModbusRtu)
    }

    /// Get protocol display name.
    pub fn display_name(&self) -> (r: &'static str)
        ensures
            r@ == match *self {
                Protocol::ModbusTcp => "Modbus TCP"@,
                Protocol::ModbusRtu => "Modbus RTU"@,
                Protocol::OpcUa => "OPC UA"@,
                Protocol::BacnetIp => "BACnet/IP"@,
                Protocol::KnxIp => "KNXnet/IP"@,
            },
    {
        match self {
            Protocol::ModbusTcp => "Modbus TCP",
            Protocol::ModbusRtu => "Modbus RTU",
            Protocol::OpcUa => "OPC UA",
            Protocol::BacnetIp => "BACnet/IP",
            Protocol::KnxIp => "KNXnet/IP",
        }
    }

    /// Parse a protocol name (`modbus_tcp`, `modbus-tcp`, `opcua`, `opc-ua`,
    /// `bacnet`, `bacnet-ip`, `knx`, `knxnet-ip`, ...); names are case-sensitive.
    pub fn parse_name(s: &str) -> (r: Option<Protocol>)
        ensures
            r == spec_parse_protocol(s@),
    {
        if str_eq(s, "modbus_tcp") || str_eq(s, "modbus-tcp") {
            Some(Protocol::ModbusTcp)
        } else if str_eq(s, "modbus_rtu") || str_eq(s, "modbus-rtu") {
            Some(Protocol::ModbusRtu)
        } else if str_eq(s, "opcua") || str_eq(s, "opc-ua") {
            Some(Protocol::OpcUa)
        } else if str_eq(s, "bacnet") || str_eq(s, "bacnet-ip") {
            Some(Protocol::BacnetIp)
        } else if str_eq(s, "knx") || str_eq(s, "knxnet-ip") {
            Some(Protocol::KnxIp)
        } else {
            None
        }
    }

    /// The text that `Display` prints for the protocol; `parse_name` accepts it.
    pub fn as_str(&self) -> (r: &'static str)
        ensures
            spec_parse_protocol(r@) == Some(*self),
    {
        proof {
            reveal_strlit("modbus_tcp");
            reveal_strlit("modbus-tcp");
            reveal_strlit("modbus_rtu");
            reveal_strlit("modbus-rtu");
            reveal_strlit("opcua");
            reveal_strlit("opc-ua");
            reveal_strlit("bacnet");
            reveal_strlit("bacnet-ip");
            reveal_strlit("knx");
            reveal_strlit("knxnet-ip");
        }
        let r = match self {
            Protocol::ModbusTcp => "modbus-tcp",
            Protocol::ModbusRtu => "modbus-rtu",
            Protocol::OpcUa => "opc-ua",
            Protocol::BacnetIp => "bacnet-ip",
            Protocol::KnxIp => "knxnet-ip",
        };
        assert("modbus-rtu"@[7] != "modbus_tcp"@[7] && "modbus-rtu"@[7] != "modbus-tcp"@[7]);
        assert("opc-ua"@.len() != "modbus_tcp"@.len() && "opc-ua"@.len() != "opcua"@.len());
        assert("opc-ua"@.len() != "modbus_rtu"@.len());
        assert("bacnet-ip"@.len() != "modbus_tcp"@.len() && "bacnet-ip"@.len() != "opcua"@.len()
            && "bacnet-ip"@.len() != "opc-ua"@.len() && "bacnet-ip"@.len() != "bacnet"@.len());
        assert("knxnet-ip"@.len() != "modbus_tcp"@.len() && "knxnet-ip"@.len() != "opcua"@.len()
            && "knxnet-ip"@.len() != "opc-ua"@.len() && "knxnet-ip"@.len() != "bacnet"@.len()
            && "knxnet-ip"@[0] != "bacnet-ip"@[0] && "knxnet-ip"@.len() != "knx"@.len());
        assert(spec_parse_protocol("modbus-tcp"@) == Some(Protocol::ModbusTcp));
        assert(spec_parse_protocol("modbus-rtu"@) == Some(Protocol::ModbusRtu));
        assert(spec_parse_protocol("opc-ua"@) == Some(Protocol::OpcUa));
        assert(spec_parse_protocol("bacnet-ip"@) == Some(Protocol::BacnetIp));
        assert(spec_parse_protocol("knxnet-ip"@) == Some(Protocol::KnxIp));
        r
    }
}

/// Error for a protocol name that matches no variant.
#[derive(Debug, Clone, Copy, PartialEq, Eq)]
pub struct ParseProtocolError;

impl std::str::FromStr for Protocol {
    type Err = ParseProtocolError;

    fn from_str(s: &str) -> (r: Result<Protocol, ParseProtocolError>)
        ensures
            match spec_parse_protocol(s@) {
                Some(p) => r == Ok::<Protocol, ParseProtocolError>(p),
                None => r == Err::<Protocol, ParseProtocolError>(ParseProtocolError),
            },
    {
        match Protocol::parse_name(s) {
            Some(p) => Ok(p),
            None => Err(ParseProtocolError),
        }
    }
}

} // verus!
