//! Core types for data points and addresses.
use vstd::prelude::*;

use crate::text::{cat, find_char, index_of_char, lemma_index_of_char, str_chars, string_of_range};

verus! {

/// Unique identifier for a data point.
#[derive(Debug, Clone, PartialEq, Eq, Hash)]
pub struct DataPointId {
    /// Device ID.
    pub device_id: String,
    /// Point ID within the device.
    pub point_id: String,
}

/// The `device/point` split of a text at its first `/`.
pub open spec fn spec_split_point_id(s: Seq<char>) -> Option<(Seq<char>, Seq<char>)> {
    match index_of_char(s, '/') {
        Some(i) => Some((s.subrange(0, i as int), s.subrange(i as int + 1, s.len() as int))),
        None => None,
    }
}

impl DataPointId {
    /// A data point ID from its two parts.
    pub fn new(device_id: &str, point_id: &str) -> (r: Self)
        ensures
            r.device_id@ == device_id@,
            r.point_id@ == point_id@,
    {
        DataPointId { device_id: device_id.to_owned(), point_id: point_id.to_owned() }
    }

    /// Parses `device_id/point_id`, split at the first `/`; the point part may
    /// itself hold further slashes. Without a slash there is no ID.
    pub fn parse(s: &str) -> (r: Option<Self>)
        ensures
            match spec_split_point_id(s@) {
                Some((d, p)) => r matches Some(id) && id.device_id@ == d && id.point_id@ == p,
                None => r is None,
            },
    {
        let cs = str_chars(s);
        match find_char(&cs, '/') {
            Some(i) => {
                proof {
                    lemma_index_of_char(s@, '/');
                }
                let d = string_of_range(&cs, 0, i);
                let p = string_of_range(&cs, i + 1, cs.len());
                Some(DataPointId { device_id: d, point_id: p })
            },
            None => None,
        }
    }

    /// The text `Display` shows: `device_id/point_id`.
    pub fn to_string(&self) -> (r: String)
        ensures
            r@ == self.device_id@ + "/"@ + self.point_id@,
    {
        let a = cat(self.device_id.as_str(), "/");
        a.concat(self.point_id.as_str())
    }
}

/// The two bits that classify quality.
pub open spec fn quality_class(bits: u16) -> u16 {
    bits & 0xC0
}

/// Data quality flags.
#[derive(Debug, Clone, Copy, PartialEq, Eq, Hash, Structural)]
pub struct Quality {
    /// Quality bits.
    bits: u16,
}

impl Default for Quality {
    /// All bits clear: bad quality.
    fn default() -> (r: Self)
        ensures
            r.spec_bits() == 0,
    {
        Quality { bits: 0 }
    }
}

impl Quality {
    /// Good quality (the `GOOD` constant).
    pub fn good() -> (r: Quality)
        ensures
            r.spec_bits() == 0xC0,
    {
        Quality { bits: 0xC0 }
    }

    /// Bad quality (the `BAD` constant).
    pub fn bad() -> (r: Quality)
        ensures
            r.spec_bits() == 0,
    {
        Quality { bits: 0x00 }
    }

    /// Uncertain quality (the `UNCERTAIN` constant).
    pub fn uncertain() -> (r: Quality)
        ensures
            r.spec_bits() == 0x40,
    {
        Quality { bits: 0x40 }
    }

    /// The value was substituted.
    pub const FLAG_SUBSTITUTED: u16 = 0x0010;

    /// The value was overridden locally.
    pub const FLAG_LOCAL_OVERRIDE: u16 = 0x0008;

    /// The point is misconfigured.
    pub const FLAG_CONFIGURATION_ERROR: u16 = 0x0004;

    /// The device is not connected.
    pub const FLAG_NOT_CONNECTED: u16 = 0x0002;

    /// The device failed.
    pub const FLAG_DEVICE_FAILURE: u16 = 0x0001;

    /// The raw bits.
    pub closed spec fn spec_bits(&self) -> u16 {
        self.bits
    }

    /// A quality value from raw bits.
    pub fn new(bits: u16) -> (r: Self)
        ensures
            r.spec_bits() == bits,
    {
        Quality { bits }
    }

    /// Good: both classification bits set.
    pub fn is_good(&self) -> (r: bool)
        ensures
            r == (quality_class(self.spec_bits()) == 0xC0),
    {
        (self.bits & 0xC0) == 0xC0
    }

    /// Bad: both classification bits clear.
    pub fn is_bad(&self) -> (r: bool)
        ensures
            r == (quality_class(self.spec_bits()) == 0),
    {
        (self.bits & 0xC0) == 0x00
    }

    /// Uncertain: only the lower classification bit set.
    pub fn is_uncertain(&self) -> (r: bool)
        ensures
            r == (quality_class(self.spec_bits()) == 0x40),
    {
        (self.bits & 0xC0) == 0x40
    }

    /// The raw bits.
    pub fn bits(&self) -> (r: u16)
        ensures
            r == self.spec_bits(),
    {
        self.bits
    }

    /// Whether any bit of `flag` is set.
    pub fn has_flag(&self, flag: u16) -> (r: bool)
        ensures
            r == (self.spec_bits() & flag != 0),
    {
        (self.bits & flag) != 0
    }

    /// The quality with the bits of `flag` set.
    pub fn with_flag(self, flag: u16) -> (r: Self)
        ensures
            r.spec_bits() == self.spec_bits() | flag,
    {
        Quality { bits: self.bits | flag }
    }

    /// The quality with the bits of `flag` cleared.
    pub fn without_flag(self, flag: u16) -> (r: Self)
        ensures
            r.spec_bits() == self.spec_bits() & !flag,
    {
        Quality { bits: self.bits & !flag }
    }

    /// The text `Display` shows: `Good`, `Uncertain` or `Bad`.
    pub fn to_string(&self) -> (r: String)
        ensures
            r@ == (if quality_class(self.spec_bits()) == 0xC0 {
                "Good"@
            } else if quality_class(self.spec_bits()) == 0x40 {
                "Uncertain"@
            } else {
                "Bad"@
            }),
    {
        if self.is_good() {
            "Good".to_owned()
        } else if self.is_uncertain() {
            "Uncertain".to_owned()
        } else {
            "Bad".to_owned()
        }
    }
}

/// A quality is at most one of good, bad and uncertain; setting a nonzero flag
/// makes it present, clearing it makes it absent, and neither touches the
/// classification unless the flag overlaps the classification bits.
pub proof fn lemma_quality_flags(bits: u16, flag: u16)
    ensures
        !(quality_class(bits) == 0xC0 && quality_class(bits) == 0),
        !(quality_class(bits) == 0xC0 && quality_class(bits) == 0x40),
        !(quality_class(bits) == 0 && quality_class(bits) == 0x40),
        flag != 0 ==> (bits | flag) & flag != 0,
        (bits & !flag) & flag == 0,
        flag & 0xC0 == 0 ==> quality_class(bits | flag) == quality_class(bits),
        flag & 0xC0 == 0 ==> quality_class(bits & !flag) == quality_class(bits),
{
    assert(flag != 0 ==> (bits | flag) & flag != 0) by (bit_vector);
    assert((bits & !flag) & flag == 0) by (bit_vector);
    assert(flag & 0xC0 == 0 ==> (bits | flag) & 0xC0 == bits & 0xC0) by (bit_vector);
    assert(flag & 0xC0 == 0 ==> (bits & !flag) & 0xC0 == bits & 0xC0) by (bit_vector);
}

/// Data types.
#[derive(Debug, Clone, Copy, PartialEq, Eq, Hash, Structural)]
pub enum DataType {
    Bool,
    Int8,
    UInt8,
    Int16,
    UInt16,
    Int32,
    UInt32,
    Int64,
    UInt64,
    Float32,
    Float64,
    String,
    DateTime,
    ByteString,
}

/// Encoded size of a fixed-size data type.
pub open spec fn spec_size_bytes(t: DataType) -> Option<usize> {
    match t {
        DataType::Bool | DataType::Int8 | DataType::UInt8 => Some(1),
        DataType::Int16 | DataType::UInt16 => Some(2),
        DataType::Int32 | DataType::UInt32 | DataType::Float32 => Some(4),
        DataType::Int64 | DataType::UInt64 | DataType::Float64 | DataType::DateTime => Some(8),
        DataType::String | DataType::ByteString => None,
    }
}

impl DataType {
    /// Size in bytes; text and byte strings have none.
    pub fn size_bytes(&self) -> (r: Option<usize>)
        ensures
            r == spec_size_bytes(*self),
    {
        match self {
            DataType::Bool | DataType::Int8 | DataType::UInt8 => Some(1),
            DataType::Int16 | DataType::UInt16 => Some(2),
            DataType::Int32 | DataType::UInt32 | DataType::Float32 => Some(4),
            DataType::Int64 | DataType::UInt64 | DataType::Float64 | DataType::DateTime => Some(8),
            DataType::String | DataType::ByteString => None,
        }
    }
}

/// Access mode.
#[derive(Debug, Clone, Copy, PartialEq, Eq, Hash, Structural)]
pub enum AccessMode {
    ReadOnly,
    ReadWrite,
    WriteOnly,
}

impl Default for AccessMode {
    fn default() -> (r: Self)
        ensures
            r == AccessMode::ReadWrite,
    {
        AccessMode::ReadWrite
    }
}

impl AccessMode {
    /// Whether values can be read.
    pub fn is_readable(&self) -> (r: bool)
        ensures
            r == (*self != AccessMode::WriteOnly),
    {
        matches!(self, AccessMode::ReadOnly | AccessMode::ReadWrite)
    }

    /// Whether values can be written.
    pub fn is_writable(&self) -> (r: bool)
        ensures
            r == (*self != AccessMode::ReadOnly),
    {
        matches!(self, AccessMode::WriteOnly | AccessMode::ReadWrite)
    }
}

/// Protocol-specific address.
#[derive(Debug, Clone)]
pub enum Address {
    /// Modbus address.
    Modbus(ModbusAddress),
    /// OPC UA node ID.
    OpcUa { node_id: String },
    /// BACnet object.
    BacNet(BacNetAddress),
    /// KNX group address.
    Knx { group_address: String },
}

/// Modbus address.
#[derive(Debug, Clone, Copy, PartialEq, Eq, Structural)]
pub struct ModbusAddress {
    /// Register type.
    pub register_type: ModbusRegisterType,
    /// Address (0-based).
    pub address: u16,
    /// Number of registers.
    pub count: u16,
}

/// Modbus register types.
#[derive(Debug, Clone, Copy, PartialEq, Eq, Hash, Structural)]
pub enum ModbusRegisterType {
    Coil,
    DiscreteInput,
    HoldingRegister,
    InputRegister,
}

/// BACnet address.
#[derive(Debug, Clone)]
pub struct BacNetAddress {
    /// Object type.
    pub object_type: String,
    /// Object instance.
    pub instance: u32,
    /// Property identifier.
    pub property: String,
}

} // verus!
