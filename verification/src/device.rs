//! Device state, device information and per-device statistics.
use vstd::prelude::*;

use crate::protocol::Protocol;
use crate::strmap::StrMap;
use crate::tags::Tags;
use crate::time::utc_now_millis;

verus! {

/// Device state.
#[derive(Debug, Clone, Copy, PartialEq, Eq, Hash, Structural)]
pub enum DeviceState {
    /// Device is not initialized.
    Uninitialized,
    /// Device is initializing.
    Initializing,
    /// Device is online and ready.
    Online,
    /// Device is offline.
    Offline,
    /// Device has an error.
    Error,
    /// Device is shutting down.
    ShuttingDown,
}

/// The variant name, as `Debug` prints it.
pub open spec fn spec_state_name(s: DeviceState) -> Seq<char> {
    match s {
        DeviceState::Uninitialized => "Uninitialized"@,
        DeviceState::Initializing => "Initializing"@,
        DeviceState::Online => "Online"@,
        DeviceState::Offline => "Offline"@,
        DeviceState::Error => "Error"@,
        DeviceState::ShuttingDown => "ShuttingDown"@,
    }
}

impl Default for DeviceState {
    fn default() -> (r: Self)
        ensures
            r == DeviceState::Uninitialized,
    {
        DeviceState::Uninitialized
    }
}

impl DeviceState {
    /// Check if device is operational.
    pub fn is_operational(&self) -> (r: bool)
        ensures
            r == (*self == DeviceState::Online),
    {
        matches!(self, DeviceState::Online)
    }

    /// Check if device can accept requests.
    pub fn can_accept_requests(&self) -> (r: bool)
        ensures
            r == (*self == DeviceState::Online || *self == DeviceState::Initializing),
    {
        matches!(self, DeviceState::Online | DeviceState::Initializing)
    }

    /// The variant name, as `Debug` prints it.
    pub fn name(&self) -> (r: &'static str)
        ensures
            r@ == spec_state_name(*self),
    {
        match self {
            DeviceState::Uninitialized => "Uninitialized",
            DeviceState::Initializing => "Initializing",
            DeviceState::Online => "Online",
            DeviceState::Offline => "Offline",
            DeviceState::Error => "Error",
            DeviceState::ShuttingDown => "ShuttingDown",
        }
    }
}

/// Device statistics.
#[derive(Debug, Clone)]
pub struct DeviceStatistics {
    /// Total read operations.
    pub reads_total: u64,
    /// Total write operations.
    pub writes_total: u64,
    /// Read errors.
    pub read_errors: u64,
    /// Write errors.
    pub write_errors: u64,
    /// Total ticks processed.
    pub ticks_total: u64,
    /// Average tick duration in microseconds.
    pub avg_tick_duration_us: u64,
    /// Last error message.
    pub last_error: Option<String>,
    /// Uptime in seconds.
    pub uptime_secs: u64,
}

impl Default for DeviceStatistics {
    fn default() -> (r: Self)
        ensures
            r.reads_total == 0 && r.writes_total == 0 && r.read_errors == 0 && r.write_errors == 0
                && r.ticks_total == 0 && r.avg_tick_duration_us == 0 && r.last_error is None
                && r.uptime_secs == 0,
    {
        DeviceStatistics {
            reads_total: 0,
            writes_total: 0,
            read_errors: 0,
            write_errors: 0,
            ticks_total: 0,
            avg_tick_duration_us: 0,
            last_error: None,
            uptime_secs: 0,
        }
    }
}

impl DeviceStatistics {
    /// Record a successful read.
    pub fn record_read(&mut self)
        requires
            old(self).reads_total < u64::MAX,
        ensures
            *final(self) == (DeviceStatistics { reads_total: (old(self).reads_total + 1) as u64, ..*old(self) }),
    {
        self.reads_total = self.reads_total + 1;
    }

    /// Record a read error.
    pub fn record_read_error(&mut self, error: &str)
        requires
            old(self).read_errors < u64::MAX,
        ensures
            final(self).read_errors == old(self).read_errors + 1,
            final(self).last_error matches Some(e) && e@ == error@,
            final(self).reads_total == old(self).reads_total,
            final(self).writes_total == old(self).writes_total,
            final(self).write_errors == old(self).write_errors,
            final(self).ticks_total == old(self).ticks_total,
            final(self).avg_tick_duration_us == old(self).avg_tick_duration_us,
            final(self).uptime_secs == old(self).uptime_secs,
    {
        self.read_errors = self.read_errors + 1;
        self.last_error = Some(error.to_owned());
    }

    /// Record a successful write.
    pub fn record_write(&mut self)
        requires
            old(self).writes_total < u64::MAX,
        ensures
            *final(self) == (DeviceStatistics { writes_total: (old(self).writes_total + 1) as u64, ..*old(self) }),
    {
        self.writes_total = self.writes_total + 1;
    }

    /// Record a write error.
    pub fn record_write_error(&mut self, error: &str)
        requires
            old(self).write_errors < u64::MAX,
        ensures
            final(self).write_errors == old(self).write_errors + 1,
            final(self).last_error matches Some(e) && e@ == error@,
            final(self).reads_total == old(self).reads_total,
            final(self).writes_total == old(self).writes_total,
            final(self).read_errors == old(self).read_errors,
            final(self).ticks_total == old(self).ticks_total,
            final(self).avg_tick_duration_us == old(self).avg_tick_duration_us,
            final(self).uptime_secs == old(self).uptime_secs,
    {
        self.write_errors = self.write_errors + 1;
        self.last_error = Some(error.to_owned());
    }

    /// Record a tick, updating the running average tick duration.
    pub fn record_tick(&mut self, duration_us: u64)
        requires
            old(self).ticks_total < u64::MAX,
            old(self).avg_tick_duration_us * old(self).ticks_total + duration_us <= u64::MAX,
        ensures
            final(self).ticks_total == old(self).ticks_total + 1,
            final(self).avg_tick_duration_us == (old(self).avg_tick_duration_us * old(
                self,
            ).ticks_total + duration_us) / (old(self).ticks_total + 1),
            final(self).reads_total == old(self).reads_total,
            final(self).writes_total == old(self).writes_total,
            final(self).read_errors == old(self).read_errors,
            final(self).write_errors == old(self).write_errors,
            final(self).last_error == old(self).last_error,
            final(self).uptime_secs == old(self).uptime_secs,
    {
        self.ticks_total = self.ticks_total + 1;
        let prev: u64 = self.ticks_total - 1;
        assert(self.avg_tick_duration_us * prev + duration_us <= u64::MAX);
        let scaled: u64 = self.avg_tick_duration_us * prev;
        self.avg_tick_duration_us = (scaled + duration_us) / self.ticks_total;
    }
}

/// Device information.
#[derive(Debug)]
pub struct DeviceInfo {
    /// Unique device ID.
    pub id: String,
    /// Human-readable name.
    pub name: String,
    /// Description.
    pub description: String,
    /// Protocol.
    pub protocol: Protocol,
    /// Device state.
    pub state: DeviceState,
    /// Number of data points.
    pub point_count: usize,
    /// Creation time, in milliseconds since the UNIX epoch (UTC).
    pub created_at: i64,
    /// Last update time, in milliseconds since the UNIX epoch (UTC).
    pub updated_at: i64,
    /// Custom metadata.
    pub metadata: StrMap<String>,
    /// Device tags for organization and filtering.
    pub tags: Tags,
}

/// Whether two device records carry the same information.
pub open spec fn same_info(a: DeviceInfo, b: DeviceInfo) -> bool {
    &&& a.id@ == b.id@
    &&& a.name@ == b.name@
    &&& a.description@ == b.description@
    &&& a.protocol == b.protocol
    &&& a.state == b.state
    &&& a.point_count == b.point_count
    &&& a.created_at == b.created_at
    &&& a.updated_at == b.updated_at
    &&& a.metadata.text() == b.metadata.text()
    &&& a.tags.tag_map() == b.tags.tag_map()
    &&& a.tags.label_set() == b.tags.label_set()
}

impl Clone for DeviceInfo {
    fn clone(&self) -> (r: Self)
        ensures
            same_info(r, *self),
    {
        DeviceInfo {
            id: self.id.clone(),
            name: self.name.clone(),
            description: self.description.clone(),
            protocol: self.protocol,
            state: self.state,
            point_count: self.point_count,
            created_at: self.created_at,
            updated_at: self.updated_at,
            metadata: self.metadata.copy(),
            tags: self.tags.clone(),
        }
    }
}

impl DeviceInfo {
    /// A new, uninitialized device with no points, metadata or tags, created
    /// and updated now.
    pub fn new(id: &str, name: &str, protocol: Protocol) -> (r: Self)
        ensures
            r.id@ == id@,
            r.name@ == name@,
            r.description@ == Seq::<char>::empty(),
            r.protocol == protocol,
            r.state == DeviceState::Uninitialized,
            r.point_count == 0,
            r.created_at == r.updated_at,
            r.created_at >= 0,
            r.metadata.text() == Map::<Seq<char>, Seq<char>>::empty(),
            r.tags.tag_map() == Map::<Seq<char>, Seq<char>>::empty(),
            r.tags.label_set() == Set::<Seq<char>>::empty(),
    {
        let now = utc_now_millis();
        let metadata: StrMap<String> = StrMap::new();
        assert(metadata.text() =~= Map::<Seq<char>, Seq<char>>::empty());
        DeviceInfo {
            id: id.to_owned(),
            name: name.to_owned(),
            description: String::new(),
            protocol,
            state: DeviceState::Uninitialized,
            point_count: 0,
            created_at: now,
            updated_at: now,
            metadata,
            tags: Tags::new(),
        }
    }

    /// Sets the description.
    pub fn with_description(self, description: &str) -> (r: Self)
        ensures
            r.description@ == description@,
            same_info(r, DeviceInfo { description: r.description, ..self }),
    {
        let mut s = self;
        s.description = description.to_owned();
        s
    }

    /// Adds a metadata entry, replacing an earlier value under the key.
    pub fn with_metadata(self, key: &str, value: &str) -> (r: Self)
        ensures
            r.metadata.text() == self.metadata.text().insert(key@, value@),
            same_info(r, DeviceInfo { metadata: r.metadata, ..self }),
    {
        let mut s = self;
        s.metadata.insert(key.to_owned(), value.to_owned());
        assert(s.metadata.text() =~= self.metadata.text().insert(key@, value@));
        s
    }

    /// Replaces the tags.
    pub fn with_tags(self, tags: Tags) -> (r: Self)
        ensures
            r.tags.tag_map() == tags.tag_map(),
            r.tags.label_set() == tags.label_set(),
            same_info(r, DeviceInfo { tags: r.tags, ..self }),
    {
        let mut s = self;
        s.tags = tags;
        s
    }

    /// Adds a key-value tag.
    pub fn with_tag(self, key: &str, value: &str) -> (r: Self)
        ensures
            r.tags.tag_map() == self.tags.tag_map().insert(key@, value@),
            r.tags.label_set() == self.tags.label_set(),
            same_info(r, DeviceInfo { tags: r.tags, ..self }),
    {
        let mut s = self;
        s.tags.insert(key, value);
        s
    }

    /// Adds a label.
    pub fn with_label(self, label: &str) -> (r: Self)
        ensures
            r.tags.tag_map() == self.tags.tag_map(),
            r.tags.label_set() == self.tags.label_set().insert(label@),
            same_info(r, DeviceInfo { tags: r.tags, ..self }),
    {
        let mut s = self;
        s.tags.add_label(label);
        s
    }
}

} // verus!
