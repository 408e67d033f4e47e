//! Memory accounting by region: counters, peaks, snapshots and their history.
use vstd::prelude::*;

use crate::strmap::StrMap;
use crate::time::{elapsed_since, instant_now, utc_now_millis, Duration};

verus! {

/// Memory profiler configuration.
#[derive(Debug, Clone, Copy)]
pub struct MemoryProfilerConfig {
    /// Interval between automatic snapshots.
    pub sampling_interval: Duration,
    /// Maximum number of historical snapshots to retain.
    pub max_snapshots: usize,
    /// Whether to track individual allocations.
    pub track_allocations: bool,
    /// Minimum allocation size to track individually (bytes).
    pub allocation_threshold: usize,
}

impl Default for MemoryProfilerConfig {
    /// Ten-second sampling, a thousand snapshots kept, allocations tracked
    /// from 1 KiB.
    fn default() -> (r: Self)
        ensures
            r.sampling_interval@ == 10_000_000_000,
            r.max_snapshots == 1000,
            r.track_allocations,
            r.allocation_threshold == 1024,
    {
        MemoryProfilerConfig {
            sampling_interval: Duration::from_secs(10),
            max_snapshots: 1000,
            track_allocations: true,
            allocation_threshold: 1024,
        }
    }
}

/// `a + b` modulo 2^64, as an atomic `fetch_add` computes it.
pub open spec fn wrapping_add_u64(a: u64, b: u64) -> u64 {
    if a + b <= u64::MAX {
        (a + b) as u64
    } else {
        (a + b - u64::MAX - 1) as u64
    }
}

/// `a - b` modulo 2^64, as an atomic `fetch_sub` computes it.
pub open spec fn wrapping_sub_u64(a: u64, b: u64) -> u64 {
    if a >= b {
        (a - b) as u64
    } else {
        (a - b + u64::MAX + 1) as u64
    }
}

/// The counters kept for a region and for a whole profile.
#[derive(Debug, Clone, Copy, PartialEq, Eq, Structural)]
pub struct MemoryCounters {
    /// Bytes currently in use.
    pub current_bytes: u64,
    /// Highest value `current_bytes` has reached.
    pub peak_bytes: u64,
    /// Bytes allocated in all.
    pub total_allocated: u64,
    /// Bytes released in all.
    pub total_deallocated: u64,
    /// Number of allocations.
    pub allocation_count: u64,
    /// Number of deallocations.
    pub deallocation_count: u64,
}

impl MemoryCounters {
    /// All counters at zero.
    pub open spec fn zeroed() -> MemoryCounters {
        MemoryCounters {
            current_bytes: 0,
            peak_bytes: 0,
            total_allocated: 0,
            total_deallocated: 0,
            allocation_count: 0,
            deallocation_count: 0,
        }
    }

    /// The counters after an allocation of `size` bytes: current usage and the
    /// allocated total grow (modulo 2^64), the peak follows the new usage when
    /// it is higher.
    pub open spec fn after_allocation(self, size: u64) -> MemoryCounters {
        let cur = wrapping_add_u64(self.current_bytes, size);
        MemoryCounters {
            current_bytes: cur,
            peak_bytes: if cur > self.peak_bytes { cur } else { self.peak_bytes },
            total_allocated: wrapping_add_u64(self.total_allocated, size),
            total_deallocated: self.total_deallocated,
            allocation_count: wrapping_add_u64(self.allocation_count, 1),
            deallocation_count: self.deallocation_count,
        }
    }

    /// The counters after releasing `size` bytes: current usage shrinks and the
    /// released total grows (modulo 2^64); the peak stays.
    pub open spec fn after_deallocation(self, size: u64) -> MemoryCounters {
        MemoryCounters {
            current_bytes: wrapping_sub_u64(self.current_bytes, size),
            peak_bytes: self.peak_bytes,
            total_allocated: self.total_allocated,
            total_deallocated: wrapping_add_u64(self.total_deallocated, size),
            allocation_count: self.allocation_count,
            deallocation_count: wrapping_add_u64(self.deallocation_count, 1),
        }
    }

    /// Consistent accounting: usage is what was allocated minus what was
    /// released, and the peak lies between usage and the allocated total.
    pub open spec fn balanced(self) -> bool {
        &&& self.total_deallocated <= self.total_allocated
        &&& self.current_bytes == self.total_allocated - self.total_deallocated
        &&& self.current_bytes <= self.peak_bytes
        &&& self.peak_bytes <= self.total_allocated
    }

    /// All counters at zero.
    pub fn zero() -> (r: MemoryCounters)
        ensures
            r == MemoryCounters::zeroed(),
    {
        MemoryCounters {
            current_bytes: 0,
            peak_bytes: 0,
            total_allocated: 0,
            total_deallocated: 0,
            allocation_count: 0,
            deallocation_count: 0,
        }
    }

    /// Records an allocation of `size` bytes.
    pub fn record_allocation(&mut self, size: u64)
        ensures
            *final(self) == old(self).after_allocation(size),
    {
        self.total_allocated = self.total_allocated.wrapping_add(size);
        self.allocation_count = self.allocation_count.wrapping_add(1);
        let new_current = self.current_bytes.wrapping_add(size);
        self.current_bytes = new_current;
        if new_current > self.peak_bytes {
            self.peak_bytes = new_current;
        }
    }

    /// Records that `size` bytes were released.
    pub fn record_deallocation(&mut self, size: u64)
        ensures
            *final(self) == old(self).after_deallocation(size),
    {
        self.total_deallocated = self.total_deallocated.wrapping_add(size);
        self.deallocation_count = self.deallocation_count.wrapping_add(1);
        self.current_bytes = self.current_bytes.wrapping_sub(size);
    }
}

/// Fresh counters are balanced; an allocation keeps them balanced while the
/// allocated total does not pass `u64::MAX`, and the new usage never exceeds
/// the new peak.
pub proof fn lemma_allocation_keeps_balance(c: MemoryCounters, size: u64)
    requires
        c.balanced(),
        c.total_allocated + size <= u64::MAX,
    ensures
        MemoryCounters::zeroed().balanced(),
        c.after_allocation(size).balanced(),
        c.after_allocation(size).current_bytes == c.current_bytes + size,
        c.after_allocation(size).peak_bytes >= c.peak_bytes,
{
}

/// Releasing no more than is in use keeps the counters balanced and leaves
/// the peak where it was.
pub proof fn lemma_deallocation_keeps_balance(c: MemoryCounters, size: u64)
    requires
        c.balanced(),
        size <= c.current_bytes,
    ensures
        c.after_deallocation(size).balanced(),
        c.after_deallocation(size).current_bytes == c.current_bytes - size,
        c.after_deallocation(size).peak_bytes == c.peak_bytes,
{
}

/// The counters after a sequence of operations: `(true, n)` allocates `n`
/// bytes, `(false, n)` releases `n` bytes.
pub open spec fn apply_ops(c: MemoryCounters, ops: Seq<(bool, u64)>) -> MemoryCounters
    decreases ops.len(),
{
    if ops.len() == 0 {
        c
    } else {
        let p = apply_ops(c, ops.drop_last());
        if ops.last().0 {
            p.after_allocation(ops.last().1)
        } else {
            p.after_deallocation(ops.last().1)
        }
    }
}

/// Whether every operation fits: no allocation takes the allocated total or
/// the allocation count past `u64::MAX`, and no release is larger than the
/// usage at that point or takes the release count past `u64::MAX`.
pub open spec fn ops_fit(c: MemoryCounters, ops: Seq<(bool, u64)>) -> bool
    decreases ops.len(),
{
    if ops.len() == 0 {
        true
    } else {
        let p = apply_ops(c, ops.drop_last());
        &&& ops_fit(c, ops.drop_last())
        &&& if ops.last().0 {
            p.total_allocated + ops.last().1 <= u64::MAX && p.allocation_count < u64::MAX
        } else {
            ops.last().1 <= p.current_bytes && p.deallocation_count < u64::MAX
        }
    }
}

/// How many of the operations are allocations (`true`) or releases (`false`).
pub open spec fn count_ops(ops: Seq<(bool, u64)>, alloc: bool) -> nat
    decreases ops.len(),
{
    if ops.len() == 0 {
        0
    } else {
        count_ops(ops.drop_last(), alloc) + if ops.last().0 == alloc { 1nat } else { 0nat }
    }
}

/// The highest usage seen: the starting peak, then the usage after each
/// operation.
pub open spec fn peak_seen(c: MemoryCounters, ops: Seq<(bool, u64)>) -> u64
    decreases ops.len(),
{
    if ops.len() == 0 {
        c.peak_bytes
    } else {
        let before = peak_seen(c, ops.drop_last());
        let cur = apply_ops(c, ops).current_bytes;
        if cur > before {
            cur
        } else {
            before
        }
    }
}

/// From balanced counters, any sequence of operations that fits keeps them
/// balanced: usage is what was allocated minus what was released, the peak is
/// the highest usage seen (never below the usage at any point, and either the
/// starting peak or the usage right after some allocation), and the counts
/// grow by the numbers of allocations and releases.
pub proof fn lemma_operations_keep_balance(c: MemoryCounters, ops: Seq<(bool, u64)>)
    requires
        c.balanced(),
        ops_fit(c, ops),
    ensures
        apply_ops(c, ops).balanced(),
        apply_ops(c, ops).current_bytes == apply_ops(c, ops).total_allocated - apply_ops(
            c,
            ops,
        ).total_deallocated,
        apply_ops(c, ops).peak_bytes == peak_seen(c, ops),
        apply_ops(c, ops).current_bytes <= apply_ops(c, ops).peak_bytes,
        apply_ops(c, ops).allocation_count == c.allocation_count + count_ops(ops, true),
        apply_ops(c, ops).deallocation_count == c.deallocation_count + count_ops(ops, false),
        forall|j: int|
            0 <= j <= ops.len() ==> #[trigger] apply_ops(c, ops.take(j)).current_bytes <= apply_ops(
                c,
                ops,
            ).peak_bytes,
        apply_ops(c, ops).peak_bytes == c.peak_bytes || exists|j: int|
            1 <= j <= ops.len() && ops[j - 1].0 && #[trigger] apply_ops(c, ops.take(j)).current_bytes
                == apply_ops(c, ops).peak_bytes,
    decreases ops.len(),
{
    if ops.len() == 0 {
        assert(ops.take(0) =~= ops);
    } else {
        let pre = ops.drop_last();
        lemma_operations_keep_balance(c, pre);
        let n = ops.len() as int;
        assert(ops.take(n) =~= ops);
        assert forall|j: int| 0 <= j <= pre.len() implies #[trigger] ops.take(j) == pre.take(j) by {
            assert(ops.take(j) =~= pre.take(j));
        }
        assert forall|j: int|
            0 <= j <= ops.len() implies #[trigger] apply_ops(c, ops.take(j)).current_bytes <= apply_ops(
                c,
                ops,
            ).peak_bytes by {
            if j < n {
                assert(ops.take(j) == pre.take(j));
                assert(apply_ops(c, pre.take(j)).current_bytes <= apply_ops(c, pre).peak_bytes);
            }
        }
        if apply_ops(c, ops).peak_bytes != apply_ops(c, pre).peak_bytes {
            assert(ops.last().0);
            assert(apply_ops(c, ops.take(n)).current_bytes == apply_ops(c, ops).peak_bytes);
            assert(ops[n - 1].0);
        } else if apply_ops(c, pre).peak_bytes != c.peak_bytes {
            let j = choose|j: int|
                1 <= j <= pre.len() && pre[j - 1].0 && #[trigger] apply_ops(c, pre.take(j)).current_bytes
                    == apply_ops(c, pre).peak_bytes;
            assert(ops.take(j) == pre.take(j));
            assert(ops[j - 1] == pre[j - 1]);
            assert(apply_ops(c, ops.take(j)).current_bytes == apply_ops(c, ops).peak_bytes);
        }
    }
}

/// Snapshot of a memory region.
#[derive(Debug, Clone)]
pub struct RegionSnapshot {
    /// Region name.
    pub name: String,
    /// Current memory usage in bytes.
    pub current_bytes: u64,
    /// Peak memory usage in bytes.
    pub peak_bytes: u64,
    /// Total bytes allocated.
    pub total_allocated: u64,
    /// Total bytes deallocated.
    pub total_deallocated: u64,
    /// Number of allocations.
    pub allocation_count: u64,
    /// Number of deallocations.
    pub deallocation_count: u64,
}

/// Whether a region snapshot reports these counters under this name.
pub open spec fn describes(s: RegionSnapshot, name: Seq<char>, c: MemoryCounters) -> bool {
    &&& s.name@ == name
    &&& s.current_bytes == c.current_bytes
    &&& s.peak_bytes == c.peak_bytes
    &&& s.total_allocated == c.total_allocated
    &&& s.total_deallocated == c.total_deallocated
    &&& s.allocation_count == c.allocation_count
    &&& s.deallocation_count == c.deallocation_count
}

fn region_snapshot(name: String, c: &MemoryCounters) -> (r: RegionSnapshot)
    ensures
        describes(r, name@, *c),
{
    RegionSnapshot {
        name,
        current_bytes: c.current_bytes,
        peak_bytes: c.peak_bytes,
        total_allocated: c.total_allocated,
        total_deallocated: c.total_deallocated,
        allocation_count: c.allocation_count,
        deallocation_count: c.deallocation_count,
    }
}

impl RegionSnapshot {
    /// Mean allocation size in whole bytes, zero when nothing was allocated.
    pub fn average_allocation_size(&self) -> (r: u64)
        ensures
            r == if self.allocation_count == 0 {
                0
            } else {
                self.total_allocated / self.allocation_count
            },
    {
        if self.allocation_count == 0 {
            return 0;
        }
        self.total_allocated / self.allocation_count
    }
}

/// A memory region for tracking allocations by category.
#[derive(Debug)]
pub struct MemoryRegion {
    name: String,
    counters: MemoryCounters,
}

impl MemoryRegion {
    /// The region's name.
    pub closed spec fn name_text(&self) -> Seq<char> {
        self.name@
    }

    /// The region's counters.
    pub closed spec fn counters(&self) -> MemoryCounters {
        self.counters
    }

    /// A region with all counters at zero.
    pub fn new(name: &str) -> (r: Self)
        ensures
            r.name_text() == name@,
            r.counters() == MemoryCounters::zeroed(),
    {
        MemoryRegion { name: name.to_string(), counters: MemoryCounters::zero() }
    }

    /// Records an allocation of `size` bytes.
    pub fn record_allocation(&mut self, size: u64)
        ensures
            final(self).name_text() == old(self).name_text(),
            final(self).counters() == old(self).counters().after_allocation(size),
    {
        self.counters.record_allocation(size);
    }

    /// Records that `size` bytes were released.
    pub fn record_deallocation(&mut self, size: u64)
        ensures
            final(self).name_text() == old(self).name_text(),
            final(self).counters() == old(self).counters().after_deallocation(size),
    {
        self.counters.record_deallocation(size);
    }

    /// The region's current figures.
    pub fn snapshot(&self) -> (r: RegionSnapshot)
        ensures
            describes(r, self.name_text(), self.counters()),
    {
        region_snapshot(self.name.clone(), &self.counters)
    }
}

/// Snapshot of memory state at a point in time.
#[derive(Debug)]
pub struct MemorySnapshot {
    /// Current memory usage in bytes.
    pub current_bytes: u64,
    /// Peak memory usage in bytes.
    pub peak_bytes: u64,
    /// Total bytes allocated since start.
    pub total_allocated: u64,
    /// Total bytes deallocated since start.
    pub total_deallocated: u64,
    /// Number of allocations.
    pub allocation_count: u64,
    /// Number of deallocations.
    pub deallocation_count: u64,
    /// Per-region snapshots, by region name.
    pub regions: StrMap<RegionSnapshot>,
}

impl MemorySnapshot {
    /// Whether the totals are these counters.
    pub open spec fn reports(&self, c: MemoryCounters) -> bool {
        &&& self.current_bytes == c.current_bytes
        &&& self.peak_bytes == c.peak_bytes
        &&& self.total_allocated == c.total_allocated
        &&& self.total_deallocated == c.total_deallocated
        &&& self.allocation_count == c.allocation_count
        &&& self.deallocation_count == c.deallocation_count
    }

    /// Position among the regions of one with the highest current usage, or
    /// `None` when there is no region.
    pub fn largest_region(&self) -> (r: Option<usize>)
        ensures
            match r {
                None => self.regions.pairs().len() == 0,
                Some(i) => i < self.regions.pairs().len() && forall|j: int|
                    0 <= j < self.regions.pairs().len() ==> #[trigger] self.regions.pairs()[j].1.current_bytes
                        <= self.regions.pairs()[i as int].1.current_bytes,
            },
    {
        let n = self.regions.len();
        if n == 0 {
            return None;
        }
        let mut best: usize = 0;
        let mut i: usize = 1;
        while i < n
            invariant
                n == self.regions.pairs().len(),
                1 <= i <= n,
                best < i,
                forall|j: int|
                    0 <= j < i ==> #[trigger] self.regions.pairs()[j].1.current_bytes
                        <= self.regions.pairs()[best as int].1.current_bytes,
            decreases n - i,
        {
            if self.regions.value_at(i).current_bytes > self.regions.value_at(best).current_bytes {
                best = i;
            }
            i = i + 1;
        }
        Some(best)
    }
}

/// Memory snapshot with the time it was taken.
#[derive(Debug)]
pub struct TimestampedSnapshot {
    /// When the snapshot was taken, in milliseconds since the UNIX epoch (UTC).
    pub timestamp_millis: i64,
    /// The memory snapshot.
    pub snapshot: MemorySnapshot,
}

/// A history with a new entry appended and the oldest dropped beyond `max`.
pub open spec fn pushed_bounded(h: Seq<TimestampedSnapshot>, e: TimestampedSnapshot, max: nat) -> Seq<
    TimestampedSnapshot,
> {
    let p = h.push(e);
    if p.len() > max {
        p.subrange(p.len() - max, p.len() as int)
    } else {
        p
    }
}

/// How the history moves when the counters become `c`: it stays as it is,
/// or a snapshot of `c` is appended and the oldest dropped beyond `max`.
pub open spec fn history_step(
    before: Seq<TimestampedSnapshot>,
    after: Seq<TimestampedSnapshot>,
    max: nat,
    c: MemoryCounters,
) -> bool {
    ||| after == before
    ||| exists|e: TimestampedSnapshot| #[trigger] e.snapshot.reports(c) && after == pushed_bounded(before, e, max)
}

/// Memory profiler: global and per-region counters with a bounded history of
/// snapshots taken at the sampling interval.
pub struct MemoryProfiler {
    config: MemoryProfilerConfig,
    regions: StrMap<MemoryCounters>,
    history: Vec<TimestampedSnapshot>,
    counters: MemoryCounters,
    started_at: Option<std::time::Instant>,
    last_snapshot_at: Option<std::time::Instant>,
    running: bool,
}

impl MemoryProfiler {
    /// The configuration it was made with.
    pub closed spec fn spec_config(&self) -> MemoryProfilerConfig {
        self.config
    }

    /// The profile-wide counters.
    pub closed spec fn counters(&self) -> MemoryCounters {
        self.counters
    }

    /// The counters of each region, by name.
    pub closed spec fn region_map(&self) -> Map<Seq<char>, MemoryCounters> {
        self.regions.map()
    }

    /// Region names in the order they were first seen.
    pub closed spec fn region_names(&self) -> Seq<Seq<char>> {
        self.regions.key_seq()
    }

    /// Number of snapshots kept.
    pub closed spec fn history_len(&self) -> nat {
        self.history@.len()
    }

    /// The snapshots kept, oldest first.
    pub closed spec fn spec_history(&self) -> Seq<TimestampedSnapshot> {
        self.history@
    }

    /// Whether profiling is active.
    pub closed spec fn active(&self) -> bool {
        self.running
    }

    /// The history never holds more snapshots than configured.
    pub closed spec fn well_formed(&self) -> bool {
        self.history@.len() <= self.config.max_snapshots
    }

    /// A stopped profiler with no data.
    pub fn new(config: MemoryProfilerConfig) -> (r: Self)
        ensures
            r.well_formed(),
            r.spec_config() == config,
            r.counters() == MemoryCounters::zeroed(),
            r.region_map() == Map::<Seq<char>, MemoryCounters>::empty(),
            r.history_len() == 0,
            !r.active(),
    {
        MemoryProfiler {
            config,
            regions: StrMap::new(),
            history: Vec::new(),
            counters: MemoryCounters::zero(),
            started_at: None,
            last_snapshot_at: None,
            running: false,
        }
    }

    /// Starts profiling; the sampling interval counts from now.
    pub fn start(&mut self)
        requires
            old(self).well_formed(),
        ensures
            final(self).well_formed(),
            final(self).active(),
            final(self).spec_config() == old(self).spec_config(),
            final(self).counters() == old(self).counters(),
            final(self).region_map() == old(self).region_map(),
            final(self).region_names() == old(self).region_names(),
            final(self).history_len() == old(self).history_len(),
    {
        let now = instant_now();
        self.started_at = Some(now);
        self.last_snapshot_at = Some(now);
        self.running = true;
    }

    /// Stops profiling; the data stays.
    pub fn stop(&mut self)
        requires
            old(self).well_formed(),
        ensures
            final(self).well_formed(),
            !final(self).active(),
            final(self).spec_config() == old(self).spec_config(),
            final(self).counters() == old(self).counters(),
            final(self).region_map() == old(self).region_map(),
            final(self).region_names() == old(self).region_names(),
            final(self).history_len() == old(self).history_len(),
    {
        self.running = false;
    }

    /// Whether profiling is active.
    pub fn is_running(&self) -> (r: bool)
        ensures
            r == self.active(),
    {
        self.running
    }

    /// Records an allocation of `size` bytes under a region label; the region
    /// is created on first use. When the sampling interval has passed since
    /// the last snapshot, a snapshot is appended and the oldest dropped beyond
    /// the configured maximum.
    pub fn record_allocation(&mut self, label: &str, size: usize)
        requires
            old(self).well_formed(),
        ensures
            final(self).well_formed(),
            final(self).spec_config() == old(self).spec_config(),
            final(self).active() == old(self).active(),
            final(self).counters() == old(self).counters().after_allocation(size as u64),
            final(self).region_map() == old(self).region_map().insert(
                label@,
                if old(self).region_map().dom().contains(label@) {
                    old(self).region_map()[label@]
                } else {
                    MemoryCounters::zeroed()
                }.after_allocation(size as u64),
            ),
            history_step(
                old(self).spec_history(),
                final(self).spec_history(),
                old(self).spec_config().max_snapshots as nat,
                final(self).counters(),
            ),
    {
        let size = size as u64;
        self.counters.record_allocation(size);
        match self.regions.find(label) {
            Some(i) => {
                let mut c = *self.regions.value_at(i);
                let k = self.regions.key_at(i);
                assert(k@ == label@);
                c.record_allocation(size);
                self.regions.set_value_at(i, c);
            },
            None => {
                let mut c = MemoryCounters::zero();
                c.record_allocation(size);
                self.regions.insert(label.to_string(), c);
            },
        }
        self.maybe_take_snapshot();
    }

    /// Records that `size` bytes were released under a region label; the
    /// region's counters change only when the region exists.
    pub fn record_deallocation(&mut self, label: &str, size: usize)
        requires
            old(self).well_formed(),
        ensures
            final(self).well_formed(),
            final(self).spec_config() == old(self).spec_config(),
            final(self).active() == old(self).active(),
            final(self).counters() == old(self).counters().after_deallocation(size as u64),
            final(self).region_map() == if old(self).region_map().dom().contains(label@) {
                old(self).region_map().insert(
                    label@,
                    old(self).region_map()[label@].after_deallocation(size as u64),
                )
            } else {
                old(self).region_map()
            },
            final(self).region_names() == old(self).region_names(),
            final(self).history_len() == old(self).history_len(),
    {
        let size = size as u64;
        self.counters.record_deallocation(size);
        match self.regions.find(label) {
            Some(i) => {
                let mut c = *self.regions.value_at(i);
                let k = self.regions.key_at(i);
                assert(k@ == label@);
                c.record_deallocation(size);
                self.regions.set_value_at(i, c);
                proof {
                    assert(self.regions.key_seq() =~= old(self).regions.key_seq());
                }
            },
            None => {},
        }
    }

    /// Appends a snapshot when the sampling interval has passed since the last
    /// one, then drops the oldest beyond the configured maximum.
    fn maybe_take_snapshot(&mut self)
        requires
            old(self).well_formed(),
        ensures
            final(self).well_formed(),
            final(self).config == old(self).config,
            final(self).counters == old(self).counters,
            final(self).regions == old(self).regions,
            final(self).running == old(self).running,
            history_step(old(self).history@, final(self).history@, old(self).config.max_snapshots as nat, old(self).counters),
    {
        match self.last_snapshot_at {
            Some(last) => {
                let waited = elapsed_since(&last);
                if !waited.is_shorter_than(&self.config.sampling_interval) {
                    self.last_snapshot_at = Some(instant_now());
                    let snapshot = self.snapshot();
                    let entry = TimestampedSnapshot { timestamp_millis: utc_now_millis(), snapshot };
                    let ghost e = entry;
                    self.history.push(entry);
                    if self.history.len() > self.config.max_snapshots {
                        self.history.remove(0);
                    }
                    proof {
                        assert(e.snapshot.reports(old(self).counters));
                        let p = old(self).history@.push(e);
                        if p.len() > self.config.max_snapshots {
                            assert(self.history@ =~= p.subrange(p.len() - self.config.max_snapshots, p.len() as int));
                        }
                        assert(self.history@ == pushed_bounded(old(self).history@, e, self.config.max_snapshots as nat));
                    }
                }
            },
            None => {},
        }
    }

    /// The current figures, overall and per region.
    pub fn snapshot(&self) -> (r: MemorySnapshot)
        ensures
            r.reports(self.counters()),
            r.regions.key_seq() == self.region_names(),
            r.regions.map().dom() == self.region_map().dom(),
            forall|k: Seq<char>|
                #[trigger] r.regions.map().dom().contains(k) ==> describes(
                    r.regions.map()[k],
                    k,
                    self.region_map()[k],
                ),
    {
        let mut out: StrMap<RegionSnapshot> = StrMap::new();
        let n = self.regions.len();
        let mut i: usize = 0;
        proof {
            self.regions.lemma_dom_keys();
        }
        while i < n
            invariant
                n == self.regions.pairs().len(),
                i <= n,
                out.key_seq() == self.regions.key_seq().subrange(0, i as int),
                forall|k: Seq<char>|
                    #[trigger] out.map().dom().contains(k) ==> describes(
                        out.map()[k],
                        k,
                        self.regions.map()[k],
                    ),
            decreases n - i,
        {
            proof {
                out.lemma_dom_keys();
            }
            let name = self.regions.key_at(i);
            let s = region_snapshot(name.clone(), self.regions.value_at(i));
            proof {
                assert(!out.key_seq().contains(name@)) by {
                    if out.key_seq().contains(name@) {
                        let j = choose|j: int| 0 <= j < out.key_seq().len() && out.key_seq()[j] == name@;
                        assert(self.regions.key_seq()[j] == name@);
                        assert(self.regions.pairs()[j].0 == name@);
                    }
                }
            }
            out.insert(name.clone(), s);
            proof {
                assert(self.regions.key_seq().subrange(0, i + 1) =~= self.regions.key_seq().subrange(
                    0,
                    i as int,
                ).push(name@));
            }
            i = i + 1;
        }
        proof {
            assert(self.regions.key_seq().subrange(0, n as int) =~= self.regions.key_seq());
            out.lemma_dom_keys();
            self.regions.lemma_dom_keys();
            assert(out.map().dom() =~= self.regions.map().dom());
        }
        MemorySnapshot {
            current_bytes: self.counters.current_bytes,
            peak_bytes: self.counters.peak_bytes,
            total_allocated: self.counters.total_allocated,
            total_deallocated: self.counters.total_deallocated,
            allocation_count: self.counters.allocation_count,
            deallocation_count: self.counters.deallocation_count,
            regions: out,
        }
    }

    /// The snapshots kept, oldest first.
    pub fn history(&self) -> (r: &[TimestampedSnapshot])
        ensures
            r@ == self.spec_history(),
    {
        self.history.as_slice()
    }

    /// Clears counters, regions and history; the running state stays.
    pub fn reset(&mut self)
        requires
            old(self).well_formed(),
        ensures
            final(self).well_formed(),
            final(self).spec_config() == old(self).spec_config(),
            final(self).active() == old(self).active(),
            final(self).counters() == MemoryCounters::zeroed(),
            final(self).region_map() == Map::<Seq<char>, MemoryCounters>::empty(),
            final(self).history_len() == 0,
    {
        self.regions.clear();
        self.history = Vec::new();
        self.counters = MemoryCounters::zero();
    }

    /// The figures of one region, if it exists.
    pub fn region_usage(&self, label: &str) -> (r: Option<RegionSnapshot>)
        ensures
            match r {
                Some(s) => self.region_map().dom().contains(label@) && describes(
                    s,
                    label@,
                    self.region_map()[label@],
                ),
                None => !self.region_map().dom().contains(label@),
            },
    {
        match self.regions.get(label) {
            Some(c) => Some(region_snapshot(label.to_string(), c)),
            None => None,
        }
    }

    /// Names of all tracked regions, in the order they were first seen.
    pub fn regions(&self) -> (r: Vec<String>)
        ensures
            r@.map_values(|s: String| s@) == self.region_names(),
    {
        let mut r: Vec<String> = Vec::new();
        let n = self.regions.len();
        let mut i: usize = 0;
        while i < n
            invariant
                n == self.regions.pairs().len(),
                i <= n,
                r@.len() == i,
                r@.map_values(|s: String| s@) == self.regions.key_seq().subrange(0, i as int),
            decreases n - i,
        {
            let k = self.regions.key_at(i);
            let s = k.clone();
            let ghost before = r@;
            r.push(s);
            assert(r@ == before.push(s));
            assert(k@ == self.regions.pairs()[i as int].0);
            assert(s@ == k@);
            assert(self.regions.key_seq().len() == n);
            assert(self.regions.key_seq()[i as int] == self.regions.pairs()[i as int].0);
            assert(r@[i as int]@ == self.regions.key_seq()[i as int]);
            assert(r@.map_values(|x: String| x@) =~= self.regions.key_seq().subrange(0, i + 1));
            i = i + 1;
        }
        assert(self.regions.key_seq().subrange(0, n as int) =~= self.regions.key_seq());
        r
    }
}

} // verus!
