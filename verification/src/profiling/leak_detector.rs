//! Memory usage tracking for leak detection: usage counts and a bounded
//! series of samples, and the severity of suspected leaks.
use vstd::prelude::*;

verus! {

/// Leak warning severity.
#[derive(Debug, Clone, Copy, PartialEq, Eq, Structural)]
pub enum LeakSeverity {
    /// Informational - may be normal behavior.
    Low,
    /// Medium - worth investigating.
    Medium,
    /// High - likely a leak.
    High,
    /// Critical - significant memory leak.
    Critical,
}

impl LeakSeverity {
    /// The text `Display` shows: the severity in capitals.
    pub fn to_string(&self) -> (r: String)
        ensures
            r@ == match *self {
                LeakSeverity::Low => "LOW"@,
                LeakSeverity::Medium => "MEDIUM"@,
                LeakSeverity::High => "HIGH"@,
                LeakSeverity::Critical => "CRITICAL"@,
            },
    {
        match self {
            LeakSeverity::Low => "LOW".to_owned(),
            LeakSeverity::Medium => "MEDIUM".to_owned(),
            LeakSeverity::High => "HIGH".to_owned(),
            LeakSeverity::Critical => "CRITICAL".to_owned(),
        }
    }
}

/// The most samples a tracker keeps.
pub const MAX_SAMPLES: usize = 100;

/// The least time between two samples, in milliseconds.
pub const SAMPLE_INTERVAL_MS: u64 = 10_000;

/// Memory use at a moment (milliseconds on the caller's monotonic clock).
#[derive(Debug, Clone, Copy, PartialEq, Eq, Structural)]
pub struct MemorySample {
    /// Bytes in use.
    pub bytes: u64,
    /// When the sample was taken.
    pub at_ms: u64,
}

/// Whether a sample is due at `now_ms`: always for the first one, else when
/// the sampling interval has passed since the last (a clock reading earlier
/// than the last counts as no time passed).
pub open spec fn sample_due(last: Option<u64>, now_ms: u64) -> bool {
    match last {
        None => true,
        Some(t) => now_ms >= t && now_ms - t >= SAMPLE_INTERVAL_MS,
    }
}

/// The samples after appending one and dropping the oldest beyond the limit.
pub open spec fn push_bounded(s: Seq<MemorySample>, x: MemorySample) -> Seq<MemorySample> {
    let t = s.push(x);
    if t.len() > MAX_SAMPLES {
        t.subrange(t.len() - MAX_SAMPLES, t.len() as int)
    } else {
        t
    }
}

/// Usage of a region (or of the whole process) as leak detection sees it:
/// bytes in use, allocation and deallocation counts, and samples of the usage
/// taken at most every ten seconds, the latest hundred kept.
#[derive(Debug)]
pub struct UsageTracker {
    current_bytes: u64,
    allocation_count: u64,
    deallocation_count: u64,
    samples: Vec<MemorySample>,
    last_sample_at: Option<u64>,
}

impl UsageTracker {
    /// Bytes in use.
    pub closed spec fn spec_current(&self) -> u64 {
        self.current_bytes
    }

    /// Allocations recorded.
    pub closed spec fn spec_allocations(&self) -> u64 {
        self.allocation_count
    }

    /// Deallocations recorded.
    pub closed spec fn spec_deallocations(&self) -> u64 {
        self.deallocation_count
    }

    /// The samples kept, oldest first.
    pub closed spec fn spec_samples(&self) -> Seq<MemorySample> {
        self.samples@
    }

    /// When the last sample was taken.
    pub closed spec fn spec_last_sample(&self) -> Option<u64> {
        self.last_sample_at
    }

    #[verifier::type_invariant]
    spec fn inv(self) -> bool {
        self.samples@.len() <= MAX_SAMPLES
    }

    /// Nothing recorded.
    pub fn new() -> (r: Self)
        ensures
            r.spec_current() == 0,
            r.spec_allocations() == 0,
            r.spec_deallocations() == 0,
            r.spec_samples() == Seq::<MemorySample>::empty(),
            r.spec_last_sample() is None,
    {
        UsageTracker {
            current_bytes: 0,
            allocation_count: 0,
            deallocation_count: 0,
            samples: Vec::new(),
            last_sample_at: None,
        }
    }

    /// Bytes in use.
    pub fn current_bytes(&self) -> (r: u64)
        ensures
            r == self.spec_current(),
    {
        self.current_bytes
    }

    /// Allocations recorded.
    pub fn allocation_count(&self) -> (r: u64)
        ensures
            r == self.spec_allocations(),
    {
        self.allocation_count
    }

    /// Deallocations recorded.
    pub fn deallocation_count(&self) -> (r: u64)
        ensures
            r == self.spec_deallocations(),
    {
        self.deallocation_count
    }

    /// The samples kept, oldest first; never more than a hundred.
    pub fn samples(&self) -> (r: &[MemorySample])
        ensures
            r@ == self.spec_samples(),
            r@.len() <= MAX_SAMPLES,
    {
        proof {
            use_type_invariant(self);
        }
        self.samples.as_slice()
    }

    /// Takes a sample of the usage at `now_ms` when one is due.
    fn maybe_record_sample(&mut self, now_ms: u64)
        ensures
            final(self).current_bytes == old(self).current_bytes,
            final(self).allocation_count == old(self).allocation_count,
            final(self).deallocation_count == old(self).deallocation_count,
            sample_due(old(self).last_sample_at, now_ms) ==> final(self).samples@ == push_bounded(
                old(self).samples@,
                MemorySample { bytes: old(self).current_bytes, at_ms: now_ms },
            ) && final(self).last_sample_at == Some(now_ms),
            !sample_due(old(self).last_sample_at, now_ms) ==> final(self).samples@ == old(
                self,
            ).samples@ && final(self).last_sample_at == old(self).last_sample_at,
    {
        proof {
            use_type_invariant(&*self);
        }
        let due = match self.last_sample_at {
            None => true,
            Some(t) => now_ms >= t && now_ms - t >= SAMPLE_INTERVAL_MS,
        };
        if due {
            let mut samples: Vec<MemorySample> = Vec::new();
            std::mem::swap(&mut samples, &mut self.samples);
            let ghost before = samples@;
            samples.push(MemorySample { bytes: self.current_bytes, at_ms: now_ms });
            if samples.len() > MAX_SAMPLES {
                samples.remove(0);
                assert(samples@ =~= push_bounded(
                    before,
                    MemorySample { bytes: self.current_bytes, at_ms: now_ms },
                ));
            }
            self.samples = samples;
            self.last_sample_at = Some(now_ms);
        }
    }

    /// Records an allocation of `size` bytes at `now_ms`.
    pub fn record_allocation(&mut self, size: u64, now_ms: u64)
        requires
            old(self).spec_current() + size <= u64::MAX,
            old(self).spec_allocations() < u64::MAX,
        ensures
            final(self).spec_current() == old(self).spec_current() + size,
            final(self).spec_allocations() == old(self).spec_allocations() + 1,
            final(self).spec_deallocations() == old(self).spec_deallocations(),
            sample_due(old(self).spec_last_sample(), now_ms) ==> final(self).spec_samples() == push_bounded(
                old(self).spec_samples(),
                MemorySample { bytes: final(self).spec_current(), at_ms: now_ms },
            ) && final(self).spec_last_sample() == Some(now_ms),
            !sample_due(old(self).spec_last_sample(), now_ms) ==> final(self).spec_samples() == old(
                self,
            ).spec_samples() && final(self).spec_last_sample() == old(self).spec_last_sample(),
    {
        proof {
            use_type_invariant(&*self);
        }
        self.current_bytes = self.current_bytes + size;
        self.allocation_count = self.allocation_count + 1;
        self.maybe_record_sample(now_ms);
    }

    /// Records that `size` bytes were released at `now_ms`; usage does not go
    /// below zero.
    pub fn record_deallocation(&mut self, size: u64, now_ms: u64)
        requires
            old(self).spec_deallocations() < u64::MAX,
        ensures
            final(self).spec_current() == (if old(self).spec_current() >= size {
                old(self).spec_current() - size
            } else {
                0
            }),
            final(self).spec_allocations() == old(self).spec_allocations(),
            final(self).spec_deallocations() == old(self).spec_deallocations() + 1,
            sample_due(old(self).spec_last_sample(), now_ms) ==> final(self).spec_samples() == push_bounded(
                old(self).spec_samples(),
                MemorySample { bytes: final(self).spec_current(), at_ms: now_ms },
            ) && final(self).spec_last_sample() == Some(now_ms),
            !sample_due(old(self).spec_last_sample(), now_ms) ==> final(self).spec_samples() == old(
                self,
            ).spec_samples() && final(self).spec_last_sample() == old(self).spec_last_sample(),
    {
        proof {
            use_type_invariant(&*self);
        }
        self.current_bytes = self.current_bytes.saturating_sub(size);
        self.deallocation_count = self.deallocation_count + 1;
        self.maybe_record_sample(now_ms);
    }
}

/// A tracker never keeps more than a hundred samples, and the newest sample
/// is the usage at the moment it was taken.
pub proof fn lemma_samples_bounded(s: Seq<MemorySample>, x: MemorySample)
    requires
        s.len() <= MAX_SAMPLES,
    ensures
        push_bounded(s, x).len() <= MAX_SAMPLES,
        push_bounded(s, x).last() == x,
        s.len() < MAX_SAMPLES ==> push_bounded(s, x) == s.push(x),
{
}

} // verus!
