//! Kinds of injected failures, when they are scheduled, and how they recover.
use vstd::prelude::*;

use crate::device::DeviceState;
use crate::lifecycle::spec_can_transition;
use crate::time::Duration;

verus! {

/// Types of failures that can be injected.
#[derive(Debug, Clone, PartialEq)]
pub enum FailureType {
    /// Request timeout.
    Timeout,
    /// Connection reset by peer.
    ConnectionReset,
    /// Connection refused.
    ConnectionRefused,
    /// Protocol error.
    ProtocolError,
    /// Invalid response.
    InvalidResponse,
    /// Partial response.
    PartialResponse,
    /// Slow response (latency spike).
    SlowResponse {
        /// Delay to add.
        delay: Duration,
    },
    /// Out of memory simulation.
    OutOfMemory,
    /// Disk full simulation.
    DiskFull,
    /// Device offline.
    DeviceOffline,
    /// Network partition.
    NetworkPartition,
    /// Corrupted data.
    CorruptedData,
    /// Rate limited.
    RateLimited,
    /// Authentication failure.
    AuthFailure,
    /// Generic failure with custom message.
    Generic(String),
}

/// What each kind of failure is reported as.
pub open spec fn failure_description(f: FailureType) -> Seq<char> {
    match f {
        FailureType::Timeout => "Request timed out"@,
        FailureType::ConnectionReset => "Connection reset by peer"@,
        FailureType::ConnectionRefused => "Connection refused"@,
        FailureType::ProtocolError => "Protocol violation"@,
        FailureType::InvalidResponse => "Invalid response received"@,
        FailureType::PartialResponse => "Incomplete response"@,
        FailureType::SlowResponse { .. } => "Response delayed significantly"@,
        FailureType::OutOfMemory => "Out of memory"@,
        FailureType::DiskFull => "Disk full"@,
        FailureType::DeviceOffline => "Device went offline"@,
        FailureType::NetworkPartition => "Network partition detected"@,
        FailureType::CorruptedData => "Data corruption detected"@,
        FailureType::RateLimited => "Rate limit exceeded"@,
        FailureType::AuthFailure => "Authentication failed"@,
        FailureType::Generic(msg) => msg@,
    }
}

/// Failures the system is expected to recover from.
pub open spec fn recoverable(f: FailureType) -> bool {
    match f {
        FailureType::Timeout | FailureType::ConnectionReset | FailureType::SlowResponse { .. }
        | FailureType::RateLimited | FailureType::DeviceOffline
        | FailureType::NetworkPartition => true,
        _ => false,
    }
}

/// The retry delay suggested for a recoverable failure, in nanoseconds.
pub open spec fn retry_delay_nanos(f: FailureType) -> nat {
    match f {
        FailureType::Timeout => 5_000_000_000,
        FailureType::ConnectionReset => 500_000_000,
        FailureType::SlowResponse { .. } => 1_000_000_000,
        FailureType::RateLimited => 30_000_000_000,
        FailureType::DeviceOffline => 10_000_000_000,
        FailureType::NetworkPartition => 60_000_000_000,
        _ => 1_000_000_000,
    }
}

impl FailureType {
    /// Every failure type without parameters.
    pub fn all() -> (r: &'static [FailureType])
        ensures
            r@ == seq![
                FailureType::Timeout,
                FailureType::ConnectionReset,
                FailureType::ConnectionRefused,
                FailureType::ProtocolError,
                FailureType::InvalidResponse,
                FailureType::PartialResponse,
                FailureType::OutOfMemory,
                FailureType::DiskFull,
                FailureType::DeviceOffline,
                FailureType::NetworkPartition,
                FailureType::CorruptedData,
                FailureType::RateLimited,
                FailureType::AuthFailure,
            ],
    {
        let r: &'static [FailureType] = &[
            FailureType::Timeout,
            FailureType::ConnectionReset,
            FailureType::ConnectionRefused,
            FailureType::ProtocolError,
            FailureType::InvalidResponse,
            FailureType::PartialResponse,
            FailureType::OutOfMemory,
            FailureType::DiskFull,
            FailureType::DeviceOffline,
            FailureType::NetworkPartition,
            FailureType::CorruptedData,
            FailureType::RateLimited,
            FailureType::AuthFailure,
        ];
        assert(r@ =~= seq![
            FailureType::Timeout,
            FailureType::ConnectionReset,
            FailureType::ConnectionRefused,
            FailureType::ProtocolError,
            FailureType::InvalidResponse,
            FailureType::PartialResponse,
            FailureType::OutOfMemory,
            FailureType::DiskFull,
            FailureType::DeviceOffline,
            FailureType::NetworkPartition,
            FailureType::CorruptedData,
            FailureType::RateLimited,
            FailureType::AuthFailure,
        ]);
        r
    }

    /// Network-related failures.
    pub fn network() -> (r: Vec<FailureType>)
        ensures
            r@ == seq![
                FailureType::Timeout,
                FailureType::ConnectionReset,
                FailureType::ConnectionRefused,
                FailureType::NetworkPartition,
            ],
    {
        let r = vec![
            FailureType::Timeout,
            FailureType::ConnectionReset,
            FailureType::ConnectionRefused,
            FailureType::NetworkPartition,
        ];
        assert(r@ =~= seq![
            FailureType::Timeout,
            FailureType::ConnectionReset,
            FailureType::ConnectionRefused,
            FailureType::NetworkPartition,
        ]);
        r
    }

    /// Protocol-related failures.
    pub fn protocol() -> (r: Vec<FailureType>)
        ensures
            r@ == seq![
                FailureType::ProtocolError,
                FailureType::InvalidResponse,
                FailureType::PartialResponse,
                FailureType::CorruptedData,
            ],
    {
        let r = vec![
            FailureType::ProtocolError,
            FailureType::InvalidResponse,
            FailureType::PartialResponse,
            FailureType::CorruptedData,
        ];
        assert(r@ =~= seq![
            FailureType::ProtocolError,
            FailureType::InvalidResponse,
            FailureType::PartialResponse,
            FailureType::CorruptedData,
        ]);
        r
    }

    /// Resource-related failures.
    pub fn resource() -> (r: Vec<FailureType>)
        ensures
            r@ == seq![FailureType::OutOfMemory, FailureType::DiskFull, FailureType::RateLimited],
    {
        let r = vec![FailureType::OutOfMemory, FailureType::DiskFull, FailureType::RateLimited];
        assert(r@ =~= seq![FailureType::OutOfMemory, FailureType::DiskFull, FailureType::RateLimited]);
        r
    }

    /// A description of the failure; a generic failure is described by its message.
    pub fn description(&self) -> (r: &str)
        ensures
            r@ == failure_description(*self),
    {
        match self {
            FailureType::Timeout => "Request timed out",
            FailureType::ConnectionReset => "Connection reset by peer",
            FailureType::ConnectionRefused => "Connection refused",
            FailureType::ProtocolError => "Protocol violation",
            FailureType::InvalidResponse => "Invalid response received",
            FailureType::PartialResponse => "Incomplete response",
            FailureType::SlowResponse { .. } => "Response delayed significantly",
            FailureType::OutOfMemory => "Out of memory",
            FailureType::DiskFull => "Disk full",
            FailureType::DeviceOffline => "Device went offline",
            FailureType::NetworkPartition => "Network partition detected",
            FailureType::CorruptedData => "Data corruption detected",
            FailureType::RateLimited => "Rate limit exceeded",
            FailureType::AuthFailure => "Authentication failed",
            FailureType::Generic(msg) => msg.as_str(),
        }
    }

    /// The text `Display` shows: the description.
    pub fn to_string(&self) -> (r: String)
        ensures
            r@ == failure_description(*self),
    {
        self.description().to_owned()
    }

    /// Whether the failure is one the system recovers from.
    pub fn is_recoverable(&self) -> (r: bool)
        ensures
            r == recoverable(*self),
    {
        match self {
            FailureType::Timeout | FailureType::ConnectionReset | FailureType::SlowResponse { .. }
            | FailureType::RateLimited | FailureType::DeviceOffline
            | FailureType::NetworkPartition => true,
            _ => false,
        }
    }

    /// How long to wait before retrying a recoverable failure; `None` for
    /// one that is not recoverable.
    pub fn suggested_retry_delay(&self) -> (r: Option<Duration>)
        ensures
            match r {
                Some(d) => recoverable(*self) && d@ == retry_delay_nanos(*self),
                None => !recoverable(*self),
            },
    {
        if !self.is_recoverable() {
            return None;
        }
        Some(
            match self {
                FailureType::Timeout => Duration::from_secs(5),
                FailureType::ConnectionReset => Duration::from_millis(500),
                FailureType::SlowResponse { .. } => Duration::from_secs(1),
                FailureType::RateLimited => Duration::from_secs(30),
                FailureType::DeviceOffline => Duration::from_secs(10),
                FailureType::NetworkPartition => Duration::from_secs(60),
                _ => Duration::from_secs(1),
            },
        )
    }
}

/// Failures of availability or timing, after which the same request can
/// succeed later, are recoverable: a timeout, a reset connection, a slow
/// response, rate limiting, an offline device and a network partition; those
/// of the request, the data, the credentials or the simulated machine are
/// not. An offline device is recoverable as the lifecycle lets it come back
/// online. The suggested waits grow with how long each condition lasts: a
/// reset connection (0.5 s), a slow response (1 s), a timeout (5 s), an
/// offline device (10 s), rate limiting (30 s), a network partition (60 s).
pub proof fn lemma_recovery_classes(f: FailureType)
    ensures
        recoverable(f) <==> (f is Timeout || f is ConnectionReset || f is SlowResponse || f is RateLimited
            || f is DeviceOffline || f is NetworkPartition),
        f is DeviceOffline ==> recoverable(f) && spec_can_transition(DeviceState::Offline, DeviceState::Online),
        retry_delay_nanos(FailureType::ConnectionReset) == 500_000_000,
        f is SlowResponse ==> retry_delay_nanos(FailureType::ConnectionReset) < retry_delay_nanos(f)
            < retry_delay_nanos(FailureType::Timeout),
        retry_delay_nanos(FailureType::Timeout) < retry_delay_nanos(FailureType::DeviceOffline),
        retry_delay_nanos(FailureType::DeviceOffline) == 10_000_000_000,
        retry_delay_nanos(FailureType::DeviceOffline) < retry_delay_nanos(FailureType::RateLimited),
        retry_delay_nanos(FailureType::RateLimited) < retry_delay_nanos(FailureType::NetworkPartition),
        retry_delay_nanos(FailureType::NetworkPartition) == 60_000_000_000,
{
}

/// Failure schedule types.
#[derive(Debug, Clone)]
pub enum FailureSchedule {
    /// Random intervals between failures.
    Random {
        /// Minimum time between failures.
        min_interval: Duration,
        /// Maximum time between failures.
        max_interval: Duration,
    },
    /// Fixed periodic failures.
    Periodic {
        /// Interval between failures.
        interval: Duration,
        /// Duration of each failure.
        duration: Duration,
    },
    /// Scheduled at specific times.
    Scheduled {
        /// List of scheduled failures.
        entries: Vec<ScheduledFailure>,
    },
    /// Burst of failures.
    Burst {
        /// Number of failures in burst.
        count: usize,
        /// Time between failures in burst.
        burst_interval: Duration,
        /// Time between bursts.
        burst_pause: Duration,
    },
}

impl Default for FailureSchedule {
    /// Random intervals of ten to sixty seconds.
    fn default() -> (r: Self)
        ensures
            r matches FailureSchedule::Random { min_interval, max_interval } && min_interval@
                == 10_000_000_000 && max_interval@ == 60_000_000_000,
    {
        FailureSchedule::Random {
            min_interval: Duration::from_secs(10),
            max_interval: Duration::from_secs(60),
        }
    }
}

/// A scheduled failure.
#[derive(Debug, Clone)]
pub struct ScheduledFailure {
    /// When to inject (offset from start).
    pub at: Duration,
    /// Type of failure.
    pub failure_type: FailureType,
    /// Duration of the failure (for continuous failures).
    pub duration: Option<Duration>,
    /// Number of times to repeat.
    pub repeat: usize,
}

impl ScheduledFailure {
    /// A failure injected once at `at`, with no duration.
    pub fn new(at: Duration, failure_type: FailureType) -> (r: Self)
        ensures
            r.at == at,
            r.failure_type == failure_type,
            r.duration is None,
            r.repeat == 1,
    {
        ScheduledFailure { at, failure_type, duration: None, repeat: 1 }
    }

    /// Sets how long the failure lasts.
    pub fn for_duration(self, duration: Duration) -> (r: Self)
        ensures
            r == (ScheduledFailure { duration: Some(duration), ..self }),
    {
        let mut s = self;
        s.duration = Some(duration);
        s
    }

    /// Sets how many times the failure repeats.
    pub fn repeat(self, times: usize) -> (r: Self)
        ensures
            r == (ScheduledFailure { repeat: times, ..self }),
    {
        let mut s = self;
        s.repeat = times;
        s
    }
}

/// The failures an injector has in flight and has injected in total, with
/// the most it lets be active at once.
#[derive(Debug)]
pub struct FailureCounts {
    active: u64,
    total: u64,
    max_concurrent: u64,
}

impl FailureCounts {
    /// Failures currently active.
    pub closed spec fn spec_active(&self) -> u64 {
        self.active
    }

    /// Failures injected since creation or the last reset.
    pub closed spec fn spec_total(&self) -> u64 {
        self.total
    }

    /// The most failures allowed to be active at once.
    pub closed spec fn spec_max(&self) -> u64 {
        self.max_concurrent
    }

    /// Never more active failures than allowed.
    #[verifier::type_invariant]
    spec fn within_limit(self) -> bool {
        self.active <= self.max_concurrent
    }

    /// No failures yet, with a limit on how many may be active at once.
    pub fn new(max_concurrent: usize) -> (r: Self)
        ensures
            r.spec_active() == 0,
            r.spec_total() == 0,
            r.spec_max() == max_concurrent,
    {
        FailureCounts { active: 0, total: 0, max_concurrent: max_concurrent as u64 }
    }

    /// Whether another failure may become active.
    pub fn has_room(&self) -> (r: bool)
        ensures
            r == (self.spec_active() < self.spec_max()),
    {
        self.active < self.max_concurrent
    }

    /// Counts an injected failure as active; the total wraps like an atomic
    /// counter.
    pub fn record_injection(&mut self)
        requires
            old(self).spec_active() < old(self).spec_max(),
        ensures
            final(self).spec_active() == old(self).spec_active() + 1,
            final(self).spec_total() == old(self).spec_total().wrapping_add(1),
            final(self).spec_max() == old(self).spec_max(),
    {
        self.active = self.active + 1;
        self.total = self.total.wrapping_add(1);
    }

    /// Counts an active failure as recovered; nothing changes when none is active.
    pub fn recover(&mut self)
        ensures
            final(self).spec_active() == (if old(self).spec_active() > 0 {
                old(self).spec_active() - 1
            } else {
                0
            }),
            final(self).spec_total() == old(self).spec_total(),
            final(self).spec_max() == old(self).spec_max(),
    {
        proof {
            use_type_invariant(&*self);
        }
        if self.active > 0 {
            self.active = self.active - 1;
        }
    }

    /// Forgets every failure.
    pub fn reset(&mut self)
        ensures
            final(self).spec_active() == 0,
            final(self).spec_total() == 0,
            final(self).spec_max() == old(self).spec_max(),
    {
        self.active = 0;
        self.total = 0;
    }

    /// Failures currently active; never more than allowed.
    pub fn active_count(&self) -> (r: u64)
        ensures
            r == self.spec_active(),
            r <= self.spec_max(),
    {
        proof {
            use_type_invariant(self);
        }
        self.active
    }

    /// Failures injected since creation or the last reset.
    pub fn total_count(&self) -> (r: u64)
        ensures
            r == self.spec_total(),
    {
        self.total
    }
}

} // verus!
