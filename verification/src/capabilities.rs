//! Protocol capabilities and feature detection.
//!
//! A capability set is modelled as a finite `Set<Capability>`.
use vstd::prelude::*;

use crate::protocol::Protocol;

verus! {

/// Standard capabilities that protocols may support.
#[derive(Debug, Clone, Copy, PartialEq, Eq, Hash, Structural)]
pub enum Capability {
    /// Single point read operations.
    Read,
    /// Single point write operations.
    Write,
    /// Batch read operations (multiple points at once).
    BatchRead,
    /// Batch write operations (multiple points at once).
    BatchWrite,
    /// Push-based subscriptions for value changes.
    Subscription,
    /// Change of Value (COV) notifications.
    ChangeOfValue,
    /// Deadband filtering for subscriptions.
    Deadband,
    /// Historical data read support.
    HistoryRead,
    /// Historical data write support.
    HistoryWrite,
    /// Trend logging.
    TrendLog,
    /// Device discovery (broadcast/multicast).
    Discovery,
    /// Browse/enumerate data points.
    Browse,
    /// Authentication support.
    Authentication,
    /// Encryption support.
    Encryption,
    /// Certificate-based security.
    Certificates,
    /// Alarms and events.
    Alarms,
    /// Scheduling support.
    Scheduling,
    /// Time synchronization.
    TimeSync,
    /// Diagnostics and self-test.
    Diagnostics,
    /// Array/sequence data types.
    ArrayTypes,
    /// Structure/complex data types.
    StructTypes,
    /// Bit string operations.
    BitStrings,
    /// Modbus function codes 1-4 (basic read).
    ModbusBasicRead,
    /// Modbus function codes 5-6, 15-16 (basic write).
    ModbusBasicWrite,
    /// OPC UA method calls.
    OpcUaMethods,
    /// BACnet services.
    BacnetServices,
    /// KNX group communication.
    KnxGroupComm,
}

/// The human-readable description of each capability.
pub open spec fn spec_description(c: Capability) -> Seq<char> {
    match c {
        Capability::Read => "Read single data points"@,
        Capability::Write => "Write single data points"@,
        Capability::BatchRead => "Read multiple data points at once"@,
        Capability::BatchWrite => "Write multiple data points at once"@,
        Capability::Subscription => "Subscribe to value changes"@,
        Capability::ChangeOfValue => "Change of Value notifications"@,
        Capability::Deadband => "Deadband filtering for subscriptions"@,
        Capability::HistoryRead => "Read historical data"@,
        Capability::HistoryWrite => "Write historical data"@,
        Capability::TrendLog => "Trend logging support"@,
        Capability::Discovery => "Device discovery"@,
        Capability::Browse => "Browse/enumerate data points"@,
        Capability::Authentication => "Authentication support"@,
        Capability::Encryption => "Encryption support"@,
        Capability::Certificates => "Certificate-based security"@,
        Capability::Alarms => "Alarms and events"@,
        Capability::Scheduling => "Scheduling support"@,
        Capability::TimeSync => "Time synchronization"@,
        Capability::Diagnostics => "Diagnostics and self-test"@,
        Capability::ArrayTypes => "Array/sequence data types"@,
        Capability::StructTypes => "Structure/complex data types"@,
        Capability::BitStrings => "Bit string operations"@,
        Capability::ModbusBasicRead => "Modbus basic read functions"@,
        Capability::ModbusBasicWrite => "Modbus basic write functions"@,
        Capability::OpcUaMethods => "OPC UA method calls"@,
        Capability::BacnetServices => "BACnet services"@,
        Capability::KnxGroupComm => "KNX group communication"@,
    }
}

/// Core capabilities are expected in most protocols.
pub open spec fn spec_is_core(c: Capability) -> bool {
    c == Capability::Read || c == Capability::Write || c == Capability::Browse
}

impl Capability {
    /// Get a human-readable description of this capability.
    pub fn description(&self) -> (r: &'static str)
        ensures
            r@ == spec_description(*self),
    {
        match self {
            Capability::Read => "Read single data points",
            Capability::Write => "Write single data points",
            Capability::BatchRead => "Read multiple data points at once",
            Capability::BatchWrite => "Write multiple data points at once",
            Capability::Subscription => "Subscribe to value changes",
            Capability::ChangeOfValue => "Change of Value notifications",
            Capability::Deadband => "Deadband filtering for subscriptions",
            Capability::HistoryRead => "Read historical data",
            Capability::HistoryWrite => "Write historical data",
            Capability::TrendLog => "Trend logging support",
            Capability::Discovery => "Device discovery",
            Capability::Browse => "Browse/enumerate data points",
            Capability::Authentication => "Authentication support",
            Capability::Encryption => "Encryption support",
            Capability::Certificates => "Certificate-based security",
            Capability::Alarms => "Alarms and events",
            Capability::Scheduling => "Scheduling support",
            Capability::TimeSync => "Time synchronization",
            Capability::Diagnostics => "Diagnostics and self-test",
            Capability::ArrayTypes => "Array/sequence data types",
            Capability::StructTypes => "Structure/complex data types",
            Capability::BitStrings => "Bit string operations",
            Capability::ModbusBasicRead => "Modbus basic read functions",
            Capability::ModbusBasicWrite => "Modbus basic write functions",
            Capability::OpcUaMethods => "OPC UA method calls",
            Capability::BacnetServices => "BACnet services",
            Capability::KnxGroupComm => "KNX group communication",
        }
    }

    /// Check if this is a core capability (expected in most protocols).
    pub fn is_core(&self) -> (r: bool)
        ensures
            r == spec_is_core(*self),
    {
        matches!(self, Capability::Read | Capability::Write | Capability::Browse)
    }
}

/// A set of capabilities supported by a device or protocol.
#[derive(Debug)]
pub struct CapabilitySet {
    caps: Vec<Capability>,
}

impl View for CapabilitySet {
    type V = Set<Capability>;

    closed spec fn view(&self) -> Set<Capability> {
        self.caps@.to_set()
    }
}

proof fn lemma_no_dup_push(s: Seq<Capability>, c: Capability)
    requires
        s.no_duplicates(),
        !s.contains(c),
    ensures
        s.push(c).no_duplicates(),
        s.push(c).to_set() == s.to_set().insert(c),
{
    assert forall|i: int, j: int| 0 <= i < s.push(c).len() && 0 <= j < s.push(c).len() && i != j
        implies s.push(c)[i] != s.push(c)[j] by {
        if i == s.len() {
            assert(s.contains(s[j]));
        } else if j == s.len() {
            assert(s.contains(s[i]));
        }
    }
    lemma_to_set_push(s, c);
}

proof fn lemma_no_dup_remove(s: Seq<Capability>, i: int)
    requires
        s.no_duplicates(),
        0 <= i < s.len(),
    ensures
        s.remove(i).no_duplicates(),
        s.remove(i).to_set() == s.to_set().remove(s[i]),
{
    let t = s.remove(i);
    assert forall|a: int, b: int| 0 <= a < t.len() && 0 <= b < t.len() && a != b implies t[a]
        != t[b] by {
        let a2 = if a < i { a } else { a + 1 };
        let b2 = if b < i { b } else { b + 1 };
        assert(t[a] == s[a2] && t[b] == s[b2]);
    }
    assert forall|x: Capability| #[trigger] t.to_set().contains(x) == s.to_set().remove(s[i]).contains(x) by {
        if t.contains(x) {
            let a = choose|a: int| 0 <= a < t.len() && t[a] == x;
            let a2 = if a < i { a } else { a + 1 };
            assert(s[a2] == x);
        }
        if s.contains(x) && x != s[i] {
            let a = choose|a: int| 0 <= a < s.len() && s[a] == x;
            if a < i {
                assert(t[a] == x);
            } else {
                assert(t[a - 1] == x);
            }
        }
    }
    assert(t.to_set() =~= s.to_set().remove(s[i]));
}

impl CapabilitySet {
    #[verifier::type_invariant]
    spec fn inv(self) -> bool {
        self.caps@.no_duplicates()
    }

    /// Create an empty capability set.
    pub fn new() -> (r: Self)
        ensures
            r@ == Set::<Capability>::empty(),
    {
        let r = CapabilitySet { caps: Vec::new() };
        assert(r@ =~= Set::<Capability>::empty());
        r
    }

    /// Create a capability set with the given capabilities.
    pub fn with_capabilities(caps: &[Capability]) -> (r: Self)
        ensures
            r@ == caps@.to_set(),
    {
        let mut r = CapabilitySet::new();
        let mut i: usize = 0;
        while i < caps.len()
            invariant
                i <= caps@.len(),
                r@ == caps@.subrange(0, i as int).to_set(),
            decreases caps@.len() - i,
        {
            r.add(caps[i]);
            assert(caps@.subrange(0, i + 1) =~= caps@.subrange(0, i as int).push(caps@[i as int]));
            proof {
                lemma_to_set_push(caps@.subrange(0, i as int), caps@[i as int]);
            }
            i = i + 1;
        }
        assert(caps@.subrange(0, caps@.len() as int) =~= caps@);
        r
    }

    /// Add a capability.
    pub fn add(&mut self, cap: Capability)
        ensures
            final(self)@ == old(self)@.insert(cap),
    {
        proof {
            use_type_invariant(&*self);
        }
        if !self.supports(cap) {
            proof {
                lemma_no_dup_push(self.caps@, cap);
            }
            let mut v: Vec<Capability> = Vec::new();
            std::mem::swap(&mut v, &mut self.caps);
            v.push(cap);
            self.caps = v;
        } else {
            assert(old(self)@.insert(cap) =~= old(self)@);
        }
    }

    /// Position of a capability in the backing vector.
    fn position(&self, cap: Capability) -> (r: Option<usize>)
        ensures
            match r {
                Some(i) => i < self.caps@.len() && self.caps@[i as int] == cap,
                None => !self.caps@.contains(cap),
            },
    {
        let mut i: usize = 0;
        while i < self.caps.len()
            invariant
                i <= self.caps@.len(),
                forall|j: int| 0 <= j < i ==> self.caps@[j] != cap,
            decreases self.caps@.len() - i,
        {
            if self.caps[i] == cap {
                return Some(i);
            }
            i = i + 1;
        }
        None
    }

    /// Remove a capability.
    pub fn remove(&mut self, cap: Capability)
        ensures
            final(self)@ == old(self)@.remove(cap),
    {
        proof {
            use_type_invariant(&*self);
        }
        match self.position(cap) {
            Some(i) => {
                proof {
                    lemma_no_dup_remove(self.caps@, i as int);
                }
                let mut v: Vec<Capability> = Vec::new();
                std::mem::swap(&mut v, &mut self.caps);
                v.remove(i);
                self.caps = v;
            },
            None => {
                assert(old(self)@.remove(cap) =~= old(self)@);
            },
        }
    }

    /// Check if a capability is supported.
    pub fn supports(&self, cap: Capability) -> (r: bool)
        ensures
            r == self@.contains(cap),
    {
        match self.position(cap) {
            Some(_) => true,
            None => false,
        }
    }

    /// Check if all given capabilities are supported.
    pub fn supports_all(&self, caps: &[Capability]) -> (r: bool)
        ensures
            r == (forall|i: int| 0 <= i < caps@.len() ==> self@.contains(#[trigger] caps@[i])),
    {
        let mut i: usize = 0;
        while i < caps.len()
            invariant
                i <= caps@.len(),
                forall|j: int| 0 <= j < i ==> self@.contains(#[trigger] caps@[j]),
            decreases caps@.len() - i,
        {
            if !self.supports(caps[i]) {
                return false;
            }
            i = i + 1;
        }
        true
    }

    /// Check if any of the given capabilities are supported.
    pub fn supports_any(&self, caps: &[Capability]) -> (r: bool)
        ensures
            r == (exists|i: int| 0 <= i < caps@.len() && self@.contains(#[trigger] caps@[i])),
    {
        let mut i: usize = 0;
        while i < caps.len()
            invariant
                i <= caps@.len(),
                forall|j: int| 0 <= j < i ==> !self@.contains(#[trigger] caps@[j]),
            decreases caps@.len() - i,
        {
            if self.supports(caps[i]) {
                return true;
            }
            i = i + 1;
        }
        false
    }

    /// List all supported capabilities, each once.
    pub fn list(&self) -> (r: Vec<Capability>)
        ensures
            r@.to_set() == self@,
            r@.no_duplicates(),
    {
        proof {
            use_type_invariant(self);
        }
        self.caps.clone()
    }

    /// Get the number of supported capabilities.
    pub fn len(&self) -> (r: usize)
        ensures
            r == self@.len(),
    {
        proof {
            use_type_invariant(self);
            self.caps@.unique_seq_to_set();
        }
        self.caps.len()
    }

    /// Check if empty.
    pub fn is_empty(&self) -> (r: bool)
        ensures
            r == (self@ == Set::<Capability>::empty()),
    {
        proof {
            if self.caps@.len() > 0 {
                assert(self@.contains(self.caps@[0]));
            } else {
                assert(self@ =~= Set::<Capability>::empty());
            }
        }
        self.caps.len() == 0
    }

    /// Merge with another capability set.
    pub fn merge(&mut self, other: &CapabilitySet)
        ensures
            final(self)@ == old(self)@.union(other@),
    {
        let mut i: usize = 0;
        let ghost start = self@;
        while i < other.caps.len()
            invariant
                i <= other.caps@.len(),
                self@ == start.union(other.caps@.subrange(0, i as int).to_set()),
            decreases other.caps@.len() - i,
        {
            self.add(other.caps[i]);
            proof {
                assert(other.caps@.subrange(0, i + 1) =~= other.caps@.subrange(0, i as int).push(
                    other.caps@[i as int],
                ));
                lemma_to_set_push(other.caps@.subrange(0, i as int), other.caps@[i as int]);
            }
            i = i + 1;
        }
        assert(other.caps@.subrange(0, other.caps@.len() as int) =~= other.caps@);
        assert(self@ =~= start.union(other@));
    }

    /// Create the intersection of two capability sets.
    pub fn intersection(&self, other: &CapabilitySet) -> (r: CapabilitySet)
        ensures
            r@ == self@.intersect(other@),
    {
        let mut r = CapabilitySet::new();
        let mut i: usize = 0;
        while i < self.caps.len()
            invariant
                i <= self.caps@.len(),
                r@ == self.caps@.subrange(0, i as int).to_set().intersect(other@),
            decreases self.caps@.len() - i,
        {
            let c = self.caps[i];
            if other.supports(c) {
                r.add(c);
            }
            proof {
                assert(self.caps@.subrange(0, i + 1) =~= self.caps@.subrange(0, i as int).push(c));
                lemma_to_set_push(self.caps@.subrange(0, i as int), c);
                assert(r@ =~= self.caps@.subrange(0, i + 1).to_set().intersect(other@));
            }
            i = i + 1;
        }
        assert(self.caps@.subrange(0, self.caps@.len() as int) =~= self.caps@);
        r
    }
}

proof fn lemma_to_set_push(s: Seq<Capability>, c: Capability)
    ensures
        s.push(c).to_set() == s.to_set().insert(c),
{
    assert forall|x: Capability| #[trigger] s.push(c).to_set().contains(x) == s.to_set().insert(c).contains(x) by {
        if s.push(c).contains(x) && x != c {
            let a = choose|a: int| 0 <= a < s.push(c).len() && s.push(c)[a] == x;
            assert(s[a] == x);
        }
        if s.contains(x) {
            let a = choose|a: int| 0 <= a < s.len() && s[a] == x;
            assert(s.push(c)[a] == x);
        }
        if x == c {
            assert(s.push(c)[s.len() as int] == c);
        }
    }
    assert(s.push(c).to_set() =~= s.to_set().insert(c));
}

impl Clone for CapabilitySet {
    fn clone(&self) -> (r: Self)
        ensures
            r@ == self@,
    {
        proof {
            use_type_invariant(self);
        }
        let v = self.caps.clone();
        assert(v@ =~= self.caps@);
        CapabilitySet { caps: v }
    }
}

impl Default for CapabilitySet {
    fn default() -> (r: Self)
        ensures
            r@ == Set::<Capability>::empty(),
    {
        CapabilitySet::new()
    }
}

/// Trait for types that have protocol capabilities.
pub trait ProtocolCapabilities {
    /// Model of the capabilities the implementor reports.
    spec fn spec_capabilities(&self) -> Set<Capability>;

    /// Get the capability set for this protocol/device.
    fn capabilities(&self) -> (r: &CapabilitySet)
        ensures
            r@ == self.spec_capabilities(),
    ;

    /// Check if a specific capability is supported.
    fn supports(&self, cap: Capability) -> (r: bool)
        ensures
            r == self.spec_capabilities().contains(cap),
    {
        self.capabilities().supports(cap)
    }

    /// Check if all the given capabilities are supported.
    fn supports_all(&self, caps: &[Capability]) -> (r: bool)
        ensures
            r == (forall|i: int|
                0 <= i < caps@.len() ==> self.spec_capabilities().contains(#[trigger] caps@[i])),
    {
        self.capabilities().supports_all(caps)
    }
}

/// The default capabilities of each protocol, listed.
pub open spec fn spec_default_capabilities(p: Protocol) -> Set<Capability> {
    match p {
        Protocol::ModbusTcp | Protocol::ModbusRtu => seq![Capability::Read, Capability::Write, Capability::BatchRead, Capability::BatchWrite, Capability::Browse, Capability::ModbusBasicRead, Capability::ModbusBasicWrite, Capability::BitStrings].to_set(),
        Protocol::OpcUa => seq![Capability::Read, Capability::Write, Capability::BatchRead, Capability::BatchWrite, Capability::Browse, Capability::Subscription, Capability::Deadband, Capability::HistoryRead, Capability::HistoryWrite, Capability::Discovery, Capability::Authentication, Capability::Encryption, Capability::Certificates, Capability::Alarms, Capability::OpcUaMethods, Capability::ArrayTypes, Capability::StructTypes].to_set(),
        Protocol::BacnetIp => seq![Capability::Read, Capability::Write, Capability::BatchRead, Capability::BatchWrite, Capability::Browse, Capability::ChangeOfValue, Capability::Discovery, Capability::TrendLog, Capability::Alarms, Capability::Scheduling, Capability::TimeSync, Capability::BacnetServices].to_set(),
        Protocol::KnxIp => seq![Capability::Read, Capability::Write, Capability::Browse, Capability::Discovery, Capability::KnxGroupComm].to_set(),
    }
}

/// Get the default capabilities for a protocol.
pub fn default_capabilities(protocol: Protocol) -> (r: CapabilitySet)
    ensures
        r@ == spec_default_capabilities(protocol),
{
    match protocol {
        Protocol::ModbusTcp | Protocol::ModbusRtu => {
            let caps: &[Capability] = &[
                Capability::Read,
                Capability::Write,
                Capability::BatchRead,
                Capability::BatchWrite,
                Capability::Browse,
                Capability::ModbusBasicRead,
                Capability::ModbusBasicWrite,
                Capability::BitStrings,
            ];
            assert(caps@ == seq![Capability::Read, Capability::Write, Capability::BatchRead, Capability::BatchWrite, Capability::Browse, Capability::ModbusBasicRead, Capability::ModbusBasicWrite, Capability::BitStrings]);
            CapabilitySet::with_capabilities(caps)
        },
        Protocol::OpcUa => {
            let caps: &[Capability] = &[
                Capability::Read,
                Capability::Write,
                Capability::BatchRead,
                Capability::BatchWrite,
                Capability::Browse,
                Capability::Subscription,
                Capability::Deadband,
                Capability::HistoryRead,
                Capability::HistoryWrite,
                Capability::Discovery,
                Capability::Authentication,
                Capability::Encryption,
                Capability::Certificates,
                Capability::Alarms,
                Capability::OpcUaMethods,
                Capability::ArrayTypes,
                Capability::StructTypes,
            ];
            assert(caps@ == seq![Capability::Read, Capability::Write, Capability::BatchRead, Capability::BatchWrite, Capability::Browse, Capability::Subscription, Capability::Deadband, Capability::HistoryRead, Capability::HistoryWrite, Capability::Discovery, Capability::Authentication, Capability::Encryption, Capability::Certificates, Capability::Alarms, Capability::OpcUaMethods, Capability::ArrayTypes, Capability::StructTypes]);
            CapabilitySet::with_capabilities(caps)
        },
        Protocol::BacnetIp => {
            let caps: &[Capability] = &[
                Capability::Read,
                Capability::Write,
                Capability::BatchRead,
                Capability::BatchWrite,
                Capability::Browse,
                Capability::ChangeOfValue,
                Capability::Discovery,
                Capability::TrendLog,
                Capability::Alarms,
                Capability::Scheduling,
                Capability::TimeSync,
                Capability::BacnetServices,
            ];
            assert(caps@ == seq![Capability::Read, Capability::Write, Capability::BatchRead, Capability::BatchWrite, Capability::Browse, Capability::ChangeOfValue, Capability::Discovery, Capability::TrendLog, Capability::Alarms, Capability::Scheduling, Capability::TimeSync, Capability::BacnetServices]);
            CapabilitySet::with_capabilities(caps)
        },
        Protocol::KnxIp => {
            let caps: &[Capability] = &[
                Capability::Read,
                Capability::Write,
                Capability::Browse,
                Capability::Discovery,
                Capability::KnxGroupComm,
            ];
            assert(caps@ == seq![Capability::Read, Capability::Write, Capability::Browse, Capability::Discovery, Capability::KnxGroupComm]);
            CapabilitySet::with_capabilities(caps)
        },
    }
}

/// Builder for creating custom capability sets.
#[derive(Debug)]
pub struct CapabilitySetBuilder {
    set: CapabilitySet,
}

impl CapabilitySetBuilder {
    /// The capabilities gathered so far.
    pub closed spec fn spec_set(&self) -> Set<Capability> {
        self.set@
    }

    /// Create a new builder.
    pub fn new() -> (r: Self)
        ensures
            r.spec_set() == Set::<Capability>::empty(),
    {
        CapabilitySetBuilder { set: CapabilitySet::new() }
    }

    /// Start with default capabilities for a protocol.
    pub fn from_protocol(protocol: Protocol) -> (r: Self)
        ensures
            r.spec_set() == spec_default_capabilities(protocol),
    {
        CapabilitySetBuilder { set: default_capabilities(protocol) }
    }

    /// Add a capability.
    pub fn add(self, cap: Capability) -> (r: Self)
        ensures
            r.spec_set() == self.spec_set().insert(cap),
    {
        let mut s = self;
        s.set.add(cap);
        s
    }

    /// Add multiple capabilities.
    pub fn add_all(self, caps: &[Capability]) -> (r: Self)
        ensures
            r.spec_set() == self.spec_set().union(caps@.to_set()),
    {
        let mut s = self;
        let other = CapabilitySet::with_capabilities(caps);
        s.set.merge(&other);
        s
    }

    /// Remove a capability.
    pub fn remove(self, cap: Capability) -> (r: Self)
        ensures
            r.spec_set() == self.spec_set().remove(cap),
    {
        let mut s = self;
        s.set.remove(cap);
        s
    }

    /// Add core capabilities (Read, Write, Browse).
    pub fn with_core(self) -> (r: Self)
        ensures
            r.spec_set() == self.spec_set().insert(Capability::Read).insert(Capability::Write).insert(
                Capability::Browse,
            ),
    {
        self.add(Capability::Read).add(Capability::Write).add(Capability::Browse)
    }

    /// Add subscription capabilities.
    pub fn with_subscriptions(self) -> (r: Self)
        ensures
            r.spec_set() == self.spec_set().insert(Capability::Subscription).insert(
                Capability::ChangeOfValue,
            ).insert(Capability::Deadband),
    {
        self.add(Capability::Subscription).add(Capability::ChangeOfValue).add(Capability::Deadband)
    }

    /// Add history capabilities.
    pub fn with_history(self) -> (r: Self)
        ensures
            r.spec_set() == self.spec_set().insert(Capability::HistoryRead).insert(
                Capability::HistoryWrite,
            ).insert(Capability::TrendLog),
    {
        self.add(Capability::HistoryRead).add(Capability::HistoryWrite).add(Capability::TrendLog)
    }

    /// Add security capabilities.
    pub fn with_security(self) -> (r: Self)
        ensures
            r.spec_set() == self.spec_set().insert(Capability::Authentication).insert(
                Capability::Encryption,
            ).insert(Capability::Certificates),
    {
        self.add(Capability::Authentication).add(Capability::Encryption).add(
            Capability::Certificates,
        )
    }

    /// Build the capability set.
    pub fn build(self) -> (r: CapabilitySet)
        ensures
            r@ == self.spec_set(),
    {
        self.set
    }
}

impl Default for CapabilitySetBuilder {
    fn default() -> (r: Self)
        ensures
            r.spec_set() == Set::<Capability>::empty(),
    {
        CapabilitySetBuilder::new()
    }
}

} // verus!
