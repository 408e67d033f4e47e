//! Time spans and clock readings.
//!
//! `Duration` is a span of time with nanosecond precision, modelled as the
//! natural number of nanoseconds it spans; it mirrors `std::time::Duration`.
//! Clock readings come from the system through the wrappers at the end.
use vstd::prelude::*;

verus! {

pub const NANOS_PER_SEC: u64 = 1_000_000_000;

/// A span of time: whole seconds plus a sub-second part in nanoseconds.
#[derive(Debug, Clone, Copy, PartialEq, Eq, PartialOrd, Ord, Hash, Structural)]
pub struct Duration {
    secs: u64,
    nanos: u32,
}

impl View for Duration {
    type V = nat;

    /// Total nanoseconds.
    closed spec fn view(&self) -> nat {
        (self.secs * 1_000_000_000 + self.nanos) as nat
    }
}

/// The largest number of nanoseconds a duration can span.
pub open spec fn max_duration_nanos() -> nat {
    (u64::MAX as nat) * 1_000_000_000 + 999_999_999
}

impl Duration {
    #[verifier::type_invariant]
    spec fn inv(self) -> bool {
        self.nanos < 1_000_000_000
    }

    /// Whole seconds of the model.
    pub open spec fn spec_secs(&self) -> nat {
        self@ / 1_000_000_000
    }

    proof fn lemma_view(self)
        requires
            self.nanos < 1_000_000_000,
        ensures
            self@ / 1_000_000_000 == self.secs,
            self@ % 1_000_000_000 == self.nanos,
            self@ <= max_duration_nanos(),
    {
        assert((self.secs * 1_000_000_000 + self.nanos) / 1_000_000_000 == self.secs) by (
        nonlinear_arith)
            requires
                self.nanos < 1_000_000_000,
        ;
        assert((self.secs * 1_000_000_000 + self.nanos) % 1_000_000_000 == self.nanos) by (
        nonlinear_arith)
            requires
                self.nanos < 1_000_000_000,
        ;
        assert(self.secs * 1_000_000_000 <= (u64::MAX as nat) * 1_000_000_000) by (
        nonlinear_arith)
            requires
                self.secs <= u64::MAX,
        ;
    }

    /// A duration of zero length.
    pub fn zero() -> (r: Duration)
        ensures
            r@ == 0,
    {
        Duration { secs: 0, nanos: 0 }
    }

    /// A duration from whole seconds and extra nanoseconds.
    pub fn new(secs: u64, nanos: u32) -> (r: Duration)
        requires
            secs as nat * 1_000_000_000 + nanos <= max_duration_nanos(),
        ensures
            r@ == secs as nat * 1_000_000_000 + nanos,
    {
        let extra: u64 = (nanos / 1_000_000_000) as u64;
        let rest: u32 = nanos % 1_000_000_000;
        assert(secs + extra <= u64::MAX) by (nonlinear_arith)
            requires
                secs as nat * 1_000_000_000 + nanos <= max_duration_nanos(),
                extra == nanos / 1_000_000_000,
        ;
        let r = Duration { secs: secs + extra, nanos: rest };
        assert(r@ == secs as nat * 1_000_000_000 + nanos) by (nonlinear_arith)
            requires
                r@ == (secs + extra) * 1_000_000_000 + rest,
                extra == nanos / 1_000_000_000,
                rest == nanos % 1_000_000_000,
        ;
        r
    }

    /// A duration of whole seconds.
    pub fn from_secs(secs: u64) -> (r: Duration)
        ensures
            r@ == secs as nat * 1_000_000_000,
    {
        Duration { secs, nanos: 0 }
    }

    /// A duration of whole milliseconds.
    pub fn from_millis(millis: u64) -> (r: Duration)
        ensures
            r@ == millis as nat * 1_000_000,
    {
        let secs = millis / 1000;
        let rem: u64 = millis % 1000;
        let nanos: u32 = (rem * 1_000_000) as u32;
        let r = Duration { secs, nanos };
        assert(r@ == millis as nat * 1_000_000) by (nonlinear_arith)
            requires
                r@ == secs * 1_000_000_000 + nanos,
                secs == millis / 1000,
                nanos == (millis % 1000) * 1_000_000,
        ;
        r
    }

    /// A duration of whole microseconds.
    pub fn from_micros(micros: u64) -> (r: Duration)
        ensures
            r@ == micros as nat * 1_000,
    {
        let secs = micros / 1_000_000;
        let rem: u64 = micros % 1_000_000;
        let nanos: u32 = (rem * 1000) as u32;
        let r = Duration { secs, nanos };
        assert(r@ == micros as nat * 1_000) by (nonlinear_arith)
            requires
                r@ == secs * 1_000_000_000 + nanos,
                secs == micros / 1_000_000,
                nanos == (micros % 1_000_000) * 1000,
        ;
        r
    }

    /// A duration of whole nanoseconds.
    pub fn from_nanos(nanos: u64) -> (r: Duration)
        ensures
            r@ == nanos as nat,
    {
        let secs = nanos / 1_000_000_000;
        let rest: u32 = (nanos % 1_000_000_000) as u32;
        let r = Duration { secs, nanos: rest };
        assert(r@ == nanos as nat) by (nonlinear_arith)
            requires
                r@ == secs * 1_000_000_000 + rest,
                secs == nanos / 1_000_000_000,
                rest == nanos % 1_000_000_000,
        ;
        r
    }

    /// Whole seconds.
    pub fn as_secs(&self) -> (r: u64)
        ensures
            r == self@ / 1_000_000_000,
    {
        proof {
            use_type_invariant(self);
            self.lemma_view();
        }
        self.secs
    }

    /// The sub-second part in nanoseconds.
    pub fn subsec_nanos(&self) -> (r: u32)
        ensures
            r == self@ % 1_000_000_000,
    {
        proof {
            use_type_invariant(self);
            self.lemma_view();
        }
        self.nanos
    }

    /// The sub-second part in whole milliseconds.
    pub fn subsec_millis(&self) -> (r: u32)
        ensures
            r == (self@ % 1_000_000_000) / 1_000_000,
    {
        proof {
            use_type_invariant(self);
            self.lemma_view();
        }
        self.nanos / 1_000_000
    }

    /// Total whole milliseconds.
    pub fn as_millis(&self) -> (r: u128)
        ensures
            r == self@ / 1_000_000,
    {
        proof {
            use_type_invariant(self);
        }
        let r: u128 = self.secs as u128 * 1000 + (self.nanos / 1_000_000) as u128;
        assert(r == self@ / 1_000_000) by (nonlinear_arith)
            requires
                r == self.secs * 1000 + self.nanos / 1_000_000,
                self@ == self.secs * 1_000_000_000 + self.nanos,
                self.nanos < 1_000_000_000,
        ;
        r
    }

    /// Total whole microseconds.
    pub fn as_micros(&self) -> (r: u128)
        ensures
            r == self@ / 1_000,
    {
        proof {
            use_type_invariant(self);
        }
        let r: u128 = self.secs as u128 * 1_000_000 + (self.nanos / 1000) as u128;
        assert(r == self@ / 1_000) by (nonlinear_arith)
            requires
                r == self.secs * 1_000_000 + self.nanos / 1000,
                self@ == self.secs * 1_000_000_000 + self.nanos,
                self.nanos < 1_000_000_000,
        ;
        r
    }

    /// Total nanoseconds.
    pub fn as_nanos(&self) -> (r: u128)
        ensures
            r == self@,
    {
        self.secs as u128 * 1_000_000_000 + self.nanos as u128
    }

    /// `self` is shorter than `other`.
    pub fn is_shorter_than(&self, other: &Duration) -> (r: bool)
        ensures
            r == (self@ < other@),
    {
        proof {
            use_type_invariant(self);
            use_type_invariant(other);
            self.lemma_view();
            other.lemma_view();
        }
        self.secs < other.secs || (self.secs == other.secs && self.nanos < other.nanos)
    }

    /// `self` is at most as long as `other`.
    pub fn is_at_most(&self, other: &Duration) -> (r: bool)
        ensures
            r == (self@ <= other@),
    {
        !other.is_shorter_than(self)
    }

    /// `self - other`, or `None` when `other` is longer.
    pub fn checked_sub(&self, other: &Duration) -> (r: Option<Duration>)
        ensures
            match r {
                Some(d) => other@ <= self@ && d@ == self@ - other@,
                None => self@ < other@,
            },
    {
        proof {
            use_type_invariant(self);
            use_type_invariant(other);
        }
        if self.is_shorter_than(other) {
            return None;
        }
        let r = if self.nanos >= other.nanos {
            Duration { secs: self.secs - other.secs, nanos: self.nanos - other.nanos }
        } else {
            Duration { secs: self.secs - other.secs - 1, nanos: self.nanos + 1_000_000_000 - other.nanos }
        };
        Some(r)
    }

    /// `self - other`, or zero when `other` is longer.
    pub fn saturating_sub(&self, other: &Duration) -> (r: Duration)
        ensures
            r@ == if other@ <= self@ { self@ - other@ } else { 0 },
    {
        match self.checked_sub(other) {
            Some(d) => d,
            None => Duration::zero(),
        }
    }

    /// The longer of two durations.
    pub fn longest(&self, other: &Duration) -> (r: Duration)
        ensures
            r@ == if self@ < other@ { other@ } else { self@ },
    {
        if self.is_shorter_than(other) { *other } else { *self }
    }

    /// The shorter of two durations.
    pub fn shortest(&self, other: &Duration) -> (r: Duration)
        ensures
            r@ == if other@ < self@ { other@ } else { self@ },
    {
        if other.is_shorter_than(self) { *other } else { *self }
    }

    /// A duration of a number of nanoseconds given as a wide integer.
    pub fn from_nanos_wide(n: u128) -> (r: Duration)
        requires
            n <= max_duration_nanos(),
        ensures
            r@ == n,
    {
        let secs: u64 = (n / 1_000_000_000) as u64;
        let rest: u32 = (n % 1_000_000_000) as u32;
        let r = Duration { secs, nanos: rest };
        assert(r@ == n) by (nonlinear_arith)
            requires
                r@ == secs * 1_000_000_000 + rest,
                secs == n / 1_000_000_000,
                rest == n % 1_000_000_000,
        ;
        r
    }

    /// Converts a standard-library duration.
    pub fn from_std(d: std::time::Duration) -> (r: Duration)
        ensures
            r@ == std_duration_nanos(d),
    {
        let n = std_duration_as_nanos(d);
        Duration::from_nanos_wide(n)
    }
}

/// What `{:?}` prints for a standard-library duration of that many nanoseconds.
pub uninterp spec fn duration_debug_text(nanos: nat) -> Seq<char>;

/// `Debug` of `std::time::Duration` (such as `2.5s` or `100ms`): std's own
/// rendering, a function of the duration alone; only that is stated.
#[verifier::external_body]
pub(crate) fn duration_debug(d: &Duration) -> (r: String)
    ensures
        r@ == duration_debug_text(d@),
{
    format!("{:?}", std::time::Duration::new(d.secs, d.nanos))
}

/// The nanoseconds a standard-library duration spans.
pub uninterp spec fn std_duration_nanos(d: std::time::Duration) -> nat;

/// `std::time::Duration::as_nanos`: the total number of nanoseconds; a
/// standard duration spans at most `u64::MAX` seconds and 999,999,999 nanoseconds.
#[verifier::external_body]
fn std_duration_as_nanos(d: std::time::Duration) -> (r: u128)
    ensures
        r == std_duration_nanos(d),
        r <= max_duration_nanos(),
{
    d.as_nanos()
}

#[verifier::external_type_specification]
#[verifier::external_body]
pub struct ExInstant(std::time::Instant);

#[verifier::external_type_specification]
#[verifier::external_body]
pub struct ExSystemTime(std::time::SystemTime);

/// A reading of the monotonic clock (`std::time::Instant::now`).
#[verifier::external_body]
pub(crate) fn instant_now() -> std::time::Instant {
    std::time::Instant::now()
}

/// `std::time::Instant::elapsed`: what it returns depends on the clock, so
/// nothing is stated of it.
#[verifier::external_body]
fn std_elapsed(t: &std::time::Instant) -> std::time::Duration {
    t.elapsed()
}

/// Time elapsed since a monotonic clock reading.
pub fn elapsed_since(t: &std::time::Instant) -> Duration {
    Duration::from_std(std_elapsed(t))
}

/// `std::time::SystemTime::now`: a reading of the system clock.
#[verifier::external_body]
fn system_time_now() -> std::time::SystemTime {
    std::time::SystemTime::now()
}

/// `SystemTime::duration_since(UNIX_EPOCH)`, with `None` for a reading earlier
/// than the epoch.
#[verifier::external_body]
fn since_unix_epoch(t: &std::time::SystemTime) -> Option<std::time::Duration> {
    match t.duration_since(std::time::UNIX_EPOCH) {
        Ok(d) => Some(d),
        Err(_) => None,
    }
}

/// Time since the UNIX epoch according to the system clock, or zero when the
/// clock reads earlier than the epoch.
pub fn unix_time_now() -> Duration {
    let now = system_time_now();
    match since_unix_epoch(&now) {
        Some(d) => Duration::from_std(d),
        None => Duration::zero(),
    }
}

/// Whole milliseconds since the UNIX epoch (truncated to 64 bits, as a cast does).
pub fn unix_millis_now() -> u64 {
    let ms = unix_time_now().as_millis();
    #[verifier::truncate]
    (ms as u64)
}

/// Milliseconds since the UNIX epoch in UTC as a signed count: zero when
/// the system clock reads earlier than the epoch, `i64::MAX` past its range.
pub fn utc_now_millis() -> (r: i64)
    ensures
        r >= 0,
{
    let ms = unix_time_now().as_millis();
    if ms > 0x7fff_ffff_ffff_ffffu128 {
        i64::MAX
    } else {
        ms as i64
    }
}

} // verus!
