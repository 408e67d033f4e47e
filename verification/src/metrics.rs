//! Metrics helpers: latency statistics over samples, timers, and the
//! classification of errors into metric labels.
use vstd::prelude::*;

use crate::text::{all_ascii, ascii_lower, lowercase_of, str_chars, to_lowercase};
use crate::time::{elapsed_since, instant_now, Duration};
use vstd::relations::{sorted_by, total_ordering};

verus! {

/// Prefix of every metric name.
pub const METRIC_PREFIX: &'static str = "mabi";

/// Latency statistics with percentiles, in microseconds.
#[derive(Debug, Clone, Copy, PartialEq, Eq, Structural)]
pub struct LatencyStats {
    /// Minimum latency in microseconds.
    pub min_us: u64,
    /// Maximum latency in microseconds.
    pub max_us: u64,
    /// Average latency in microseconds.
    pub avg_us: u64,
    /// Median (P50) latency in microseconds.
    pub p50_us: u64,
    /// P90 latency in microseconds.
    pub p90_us: u64,
    /// P95 latency in microseconds.
    pub p95_us: u64,
    /// P99 latency in microseconds.
    pub p99_us: u64,
    /// Sample count.
    pub count: u64,
    /// Standard deviation in microseconds.
    pub stddev_us: u64,
}

impl Default for LatencyStats {
    /// All zero.
    fn default() -> (r: Self)
        ensures
            r == LatencyStats::zero(),
    {
        LatencyStats {
            min_us: 0,
            max_us: 0,
            avg_us: 0,
            p50_us: 0,
            p90_us: 0,
            p95_us: 0,
            p99_us: 0,
            count: 0,
            stddev_us: 0,
        }
    }
}

/// The order of latencies.
pub open spec fn le_u64() -> spec_fn(u64, u64) -> bool {
    |a: u64, b: u64| a <= b
}

/// Whole microseconds of each sample, truncated to 64 bits.
pub open spec fn micros_of(samples: Seq<Duration>) -> Seq<u64> {
    samples.map_values(|d: Duration| (d@ / 1000) as u64)
}

/// The samples' microseconds in ascending order.
pub open spec fn sorted_micros(samples: Seq<Duration>) -> Seq<u64> {
    micros_of(samples).sort_by(le_u64())
}

/// The sum of a sequence of latencies.
pub open spec fn seq_sum(s: Seq<u64>) -> nat
    decreases s.len(),
{
    if s.len() == 0 {
        0
    } else {
        seq_sum(s.drop_last()) + s.last() as nat
    }
}

/// The sum of squared distances from `avg`.
pub open spec fn sq_dev_sum(s: Seq<u64>, avg: nat) -> nat
    decreases s.len(),
{
    if s.len() == 0 {
        0
    } else {
        let d = if s.last() >= avg { (s.last() - avg) as nat } else { (avg - s.last()) as nat };
        sq_dev_sum(s.drop_last(), avg) + d * d
    }
}

/// The index of the `p`-th percentile among `n` sorted samples.
pub open spec fn pct_index(n: nat, p: nat) -> int {
    let i = (n * p / 100) as int;
    if i <= n - 1 { i } else { n - 1 }
}

/// The mean of the samples' microseconds.
pub open spec fn spec_avg(samples: Seq<Duration>) -> nat {
    seq_sum(sorted_micros(samples)) / samples.len()
}

/// The variance of the samples' microseconds (rounded down).
pub open spec fn spec_variance(samples: Seq<Duration>) -> nat {
    sq_dev_sum(sorted_micros(samples), spec_avg(samples)) / samples.len()
}

/// What the samples must allow: their sum, and the sum of their squared
/// distances from the mean, fit in 64 bits, and their count times 99 in the
/// platform's word.
pub open spec fn samples_fit(samples: Seq<Duration>) -> bool {
    &&& seq_sum(sorted_micros(samples)) <= u64::MAX
    &&& (samples.len() > 0 ==> sq_dev_sum(sorted_micros(samples), spec_avg(samples)) <= u64::MAX)
    &&& samples.len() * 99 <= usize::MAX
}

impl LatencyStats {
    /// All zero.
    pub open spec fn zero() -> LatencyStats {
        LatencyStats {
            min_us: 0,
            max_us: 0,
            avg_us: 0,
            p50_us: 0,
            p90_us: 0,
            p95_us: 0,
            p99_us: 0,
            count: 0,
            stddev_us: 0,
        }
    }

    /// Statistics of the samples, in whole microseconds: none (all zero) for no
    /// samples; else the smallest, the largest, the mean, the 50th, 90th, 95th
    /// and 99th percentiles (the sorted sample at index `n * p / 100`), the
    /// count, and the standard deviation as the integer square root of the
    /// variance (which is what a floating-point square root rounded down gives
    /// for variances below 2^52).
    pub fn from_samples(samples: &[Duration]) -> (r: Self)
        requires
            samples_fit(samples@),
        ensures
            samples@.len() == 0 ==> r == LatencyStats::zero(),
            samples@.len() > 0 ==> {
                let s = sorted_micros(samples@);
                let n = samples@.len();
                &&& r.min_us == s[0]
                &&& r.max_us == s[n - 1]
                &&& r.avg_us == spec_avg(samples@)
                &&& r.p50_us == s[pct_index(n, 50)]
                &&& r.p90_us == s[pct_index(n, 90)]
                &&& r.p95_us == s[pct_index(n, 95)]
                &&& r.p99_us == s[pct_index(n, 99)]
                &&& r.count == n
                &&& r.stddev_us * r.stddev_us <= spec_variance(samples@)
                &&& spec_variance(samples@) < (r.stddev_us + 1) * (r.stddev_us + 1)
            },
    {
        if samples.len() == 0 {
            return LatencyStats::default();
        }
        let mut sorted: Vec<u64> = Vec::new();
        let mut i: usize = 0;
        while i < samples.len()
            invariant
                i <= samples@.len(),
                sorted@ == micros_of(samples@).subrange(0, i as int),
            decreases samples@.len() - i,
        {
            let us = samples[i].as_micros();
            #[verifier::truncate]
            let v = us as u64;
            sorted.push(v);
            i = i + 1;
            assert(sorted@ =~= micros_of(samples@).subrange(0, i as int));
        }
        assert(micros_of(samples@).subrange(0, samples@.len() as int) =~= micros_of(samples@));
        sort_ascending(&mut sorted);
        proof {
            assert(total_ordering(le_u64()));
            micros_of(samples@).lemma_sort_by_ensures(le_u64());
            vstd::seq_lib::lemma_sorted_unique(sorted@, sorted_micros(samples@), le_u64());
            vstd::seq_lib::to_multiset_len(micros_of(samples@));
            vstd::seq_lib::to_multiset_len(sorted@);
            assert(sorted@.len() == samples@.len());
        }
        let count = sorted.len();
        let sum = sum_of(&sorted);
        let avg = sum / count as u64;
        let var_sum = sq_dev_sum_of(&sorted, avg);
        let variance = var_sum / count as u64;
        let stddev = isqrt(variance);
        LatencyStats {
            min_us: sorted[0],
            max_us: sorted[count - 1],
            avg_us: avg,
            p50_us: percentile(&sorted, 50),
            p90_us: percentile(&sorted, 90),
            p95_us: percentile(&sorted, 95),
            p99_us: percentile(&sorted, 99),
            count: count as u64,
            stddev_us: stddev,
        }
    }

    /// Whether the 99th percentile exceeds the threshold.
    pub fn is_latency_high(&self, threshold_us: u64) -> (r: bool)
        ensures
            r == (self.p99_us > threshold_us),
    {
        self.p99_us > threshold_us
    }
}

/// The percentiles of a statistic rise with the percentile, between the
/// smallest and the largest sample, and the mean lies between those two.
pub proof fn lemma_percentiles_ordered(samples: Seq<Duration>)
    requires
        samples.len() > 0,
    ensures
        ({
            let s = sorted_micros(samples);
            let n = samples.len();
            &&& s[0] <= s[pct_index(n, 50)]
            &&& s[pct_index(n, 50)] <= s[pct_index(n, 90)]
            &&& s[pct_index(n, 90)] <= s[pct_index(n, 95)]
            &&& s[pct_index(n, 95)] <= s[pct_index(n, 99)]
            &&& s[pct_index(n, 99)] <= s[n - 1]
            &&& s[0] <= spec_avg(samples) <= s[n - 1]
        }),
{
    let s = sorted_micros(samples);
    let n = samples.len();
    assert(total_ordering(le_u64()));
    micros_of(samples).lemma_sort_by_ensures(le_u64());
    assert(s.len() == n) by {
        vstd::seq_lib::to_multiset_len(micros_of(samples));
        vstd::seq_lib::to_multiset_len(s);
    }
    assert(sorted_by(s, le_u64()));
    assert(n * 50 / 100 <= n * 90 / 100) by (nonlinear_arith);
    assert(n * 90 / 100 <= n * 95 / 100) by (nonlinear_arith);
    assert(n * 95 / 100 <= n * 99 / 100) by (nonlinear_arith);
    let i50 = pct_index(n, 50);
    let i90 = pct_index(n, 90);
    let i95 = pct_index(n, 95);
    let i99 = pct_index(n, 99);
    assert(0 <= i50 <= i90 <= i95 <= i99 <= n - 1);
    if 0 < i50 {
        assert(le_u64()(s[0], s[i50]));
    }
    if i50 < i90 {
        assert(le_u64()(s[i50], s[i90]));
    }
    if i90 < i95 {
        assert(le_u64()(s[i90], s[i95]));
    }
    if i95 < i99 {
        assert(le_u64()(s[i95], s[i99]));
    }
    if i99 < n - 1 {
        assert(le_u64()(s[i99], s[n - 1]));
    }
    lemma_sum_bounds(s);
    assert(s[0] * n <= seq_sum(s) <= s[n - 1] * n);
    assert(s[0] <= seq_sum(s) / n <= s[n - 1]) by (nonlinear_arith)
        requires
            s[0] * n <= seq_sum(s),
            seq_sum(s) <= s[n - 1] * n,
            n > 0,
    ;
}

/// The sum of a nonempty sorted sequence lies between its count times its
/// first and its count times its last element.
proof fn lemma_sum_bounds(s: Seq<u64>)
    requires
        s.len() > 0,
        sorted_by(s, le_u64()),
    ensures
        s[0] * s.len() <= seq_sum(s) <= s[s.len() - 1] * s.len(),
    decreases s.len(),
{
    let n = s.len();
    if n == 1 {
        assert(s.drop_last().len() == 0);
        assert(seq_sum(s.drop_last()) == 0);
        assert(seq_sum(s) == s[0]);
    }
    if n > 1 {
        let t = s.drop_last();
        assert(seq_sum(s) == seq_sum(t) + s[n - 1]);
        assert(sorted_by(t, le_u64())) by {
            assert forall|i: int, j: int| 0 <= i < j < t.len() implies #[trigger] le_u64()(t[i], t[j]) by {
                assert(le_u64()(s[i], s[j]));
            }
        }
        lemma_sum_bounds(t);
        assert(t[0] == s[0]);
        assert(t[t.len() - 1] == s[n - 2]);
        assert(le_u64()(s[n - 2], s[n - 1]));
        if n > 2 {
            assert(le_u64()(s[0], s[n - 2]));
        }
        assert(s[0] <= s[n - 2] <= s[n - 1]);
        assert(s[0] * s.len() == s[0] * t.len() + s[0]) by (nonlinear_arith)
            requires
                t.len() + 1 == s.len(),
        ;
        assert(s[s.len() - 1] * s.len() == s[s.len() - 1] * t.len() + s[s.len() - 1]) by (
        nonlinear_arith)
            requires
                t.len() + 1 == s.len(),
        ;
        assert(t[t.len() - 1] * t.len() <= s[s.len() - 1] * t.len()) by (nonlinear_arith)
            requires
                t[t.len() - 1] <= s[s.len() - 1],
        ;
    }
}

/// `slice::sort_unstable` on 64-bit integers: the elements in ascending order.
#[verifier::external_body]
fn sort_ascending(v: &mut Vec<u64>)
    ensures
        final(v)@.to_multiset() == old(v)@.to_multiset(),
        sorted_by(final(v)@, le_u64()),
{
    v.sort_unstable();
}

fn sum_of(s: &Vec<u64>) -> (r: u64)
    requires
        seq_sum(s@) <= u64::MAX,
    ensures
        r == seq_sum(s@),
{
    let mut total: u64 = 0;
    let mut i: usize = 0;
    while i < s.len()
        invariant
            i <= s@.len(),
            seq_sum(s@) <= u64::MAX,
            total == seq_sum(s@.subrange(0, i as int)),
        decreases s@.len() - i,
    {
        proof {
            assert(s@.subrange(0, i + 1).drop_last() =~= s@.subrange(0, i as int));
            lemma_prefix_sum_le(s@, i + 1);
        }
        total = total + s[i];
        i = i + 1;
    }
    assert(s@.subrange(0, s@.len() as int) =~= s@);
    total
}

proof fn lemma_prefix_sum_le(s: Seq<u64>, k: int)
    requires
        0 <= k <= s.len(),
    ensures
        seq_sum(s.subrange(0, k)) <= seq_sum(s),
    decreases s.len() - k,
{
    if k < s.len() {
        lemma_prefix_sum_le(s, k + 1);
        assert(s.subrange(0, k + 1).drop_last() =~= s.subrange(0, k));
    } else {
        assert(s.subrange(0, k) =~= s);
    }
}

proof fn lemma_prefix_sq_le(s: Seq<u64>, avg: nat, k: int)
    requires
        0 <= k <= s.len(),
    ensures
        sq_dev_sum(s.subrange(0, k), avg) <= sq_dev_sum(s, avg),
    decreases s.len() - k,
{
    if k < s.len() {
        lemma_prefix_sq_le(s, avg, k + 1);
        assert(s.subrange(0, k + 1).drop_last() =~= s.subrange(0, k));
    } else {
        assert(s.subrange(0, k) =~= s);
    }
}

fn sq_dev_sum_of(s: &Vec<u64>, avg: u64) -> (r: u64)
    requires
        sq_dev_sum(s@, avg as nat) <= u64::MAX,
    ensures
        r == sq_dev_sum(s@, avg as nat),
{
    let mut total: u64 = 0;
    let mut i: usize = 0;
    while i < s.len()
        invariant
            i <= s@.len(),
            sq_dev_sum(s@, avg as nat) <= u64::MAX,
            total == sq_dev_sum(s@.subrange(0, i as int), avg as nat),
        decreases s@.len() - i,
    {
        proof {
            assert(s@.subrange(0, i + 1).drop_last() =~= s@.subrange(0, i as int));
            lemma_prefix_sq_le(s@, avg as nat, i + 1);
        }
        let x = s[i];
        let diff = if x >= avg { x - avg } else { avg - x };
        proof {
            assert(diff * diff <= sq_dev_sum(s@.subrange(0, i + 1), avg as nat));
            assert(diff * diff <= u64::MAX);
        }
        total = total + diff * diff;
        i = i + 1;
    }
    assert(s@.subrange(0, s@.len() as int) =~= s@);
    total
}

/// The integer square root: the largest `r` with `r * r <= v`.
fn isqrt(v: u64) -> (r: u64)
    ensures
        r * r <= v,
        v < (r + 1) * (r + 1),
{
    let mut lo: u64 = 0;
    let mut hi: u64 = 4294967296;
    assert(v < hi * hi) by (nonlinear_arith)
        requires
            hi == 4294967296,
            v <= u64::MAX,
    ;
    while hi - lo > 1
        invariant
            lo < hi <= 4294967296,
            lo * lo <= v,
            v < hi * hi,
        decreases hi - lo,
    {
        let mid = lo + (hi - lo) / 2;
        assert(mid < 4294967296);
        assert(mid * mid <= 18446744065119617025) by (nonlinear_arith)
            requires
                mid < 4294967296,
        ;
        if mid * mid <= v {
            lo = mid;
        } else {
            hi = mid;
        }
    }
    assert(hi == lo + 1);
    lo
}

/// The sample at the `p`-th percentile of sorted samples.
fn percentile(sorted: &Vec<u64>, p: usize) -> (r: u64)
    requires
        sorted@.len() > 0,
        p <= 99,
        sorted@.len() * 99 <= usize::MAX,
    ensures
        r == sorted@[pct_index(sorted@.len(), p as nat)],
{
    let n = sorted.len();
    assert(n * p <= n * 99) by (nonlinear_arith)
        requires
            p <= 99,
    ;
    let i = n * p / 100;
    let idx = if i <= n - 1 { i } else { n - 1 };
    sorted[idx]
}

/// Measures how long an operation takes.
#[derive(Debug)]
pub struct Timer {
    start: std::time::Instant,
}

impl Timer {
    /// A timer started now.
    pub fn start() -> Timer {
        Timer { start: instant_now() }
    }

    /// Time elapsed since the start; it depends on the clock.
    pub fn elapsed(&self) -> Duration {
        elapsed_since(&self.start)
    }

    /// Stops the timer, giving the elapsed time.
    pub fn stop(self) -> Duration {
        self.elapsed()
    }

    /// Restarts the timer now.
    pub fn reset(&mut self) {
        self.start = instant_now();
    }
}

impl Default for Timer {
    fn default() -> Timer {
        Timer::start()
    }
}

/// Whether `p` occurs in `s` as a contiguous part.
pub open spec fn has_part(s: Seq<char>, p: Seq<char>) -> bool {
    exists|i: int| 0 <= i <= s.len() - p.len() && #[trigger] s.subrange(i, i + p.len()) == p
}

fn contains_at(s: &Vec<char>, p: &Vec<char>, i: usize) -> (r: bool)
    requires
        i + p@.len() <= s@.len(),
    ensures
        r == (s@.subrange(i as int, i + p@.len()) == p@),
{
    let mut j: usize = 0;
    while j < p.len()
        invariant
            j <= p@.len(),
            i + p@.len() <= s@.len(),
            s@.len() == s.len(),
            forall|k: int| 0 <= k < j ==> s@[i + k] == p@[k],
        decreases p@.len() - j,
    {
        if s[i + j] != p[j] {
            assert(s@.subrange(i as int, i + p@.len())[j as int] != p@[j as int]);
            return false;
        }
        j = j + 1;
    }
    assert(s@.subrange(i as int, i + p@.len()) =~= p@);
    true
}

/// `str::contains` with a text pattern.
fn text_contains(s: &Vec<char>, pat: &str) -> (r: bool)
    ensures
        r == has_part(s@, pat@),
{
    let p = str_chars(pat);
    if p.len() > s.len() {
        return false;
    }
    let mut i: usize = 0;
    let last = s.len() - p.len();
    loop
        invariant
            p@ == pat@,
            p@.len() <= s@.len(),
            last == s@.len() - p@.len(),
            i <= last,
            forall|k: int| 0 <= k < i ==> #[trigger] s@.subrange(k, k + p@.len()) != p@,
        decreases last - i,
    {
        if contains_at(s, &p, i) {
            return true;
        }
        if i == last {
            return false;
        }
        i = i + 1;
    }
}

/// `str::starts_with` and `str::ends_with` with a text pattern.
fn text_starts_with(s: &Vec<char>, pat: &str) -> (r: bool)
    ensures
        r == pat@.is_prefix_of(s@),
{
    let p = str_chars(pat);
    if p.len() > s.len() {
        return false;
    }
    contains_at(s, &p, 0)
}

fn text_ends_with(s: &Vec<char>, pat: &str) -> (r: bool)
    ensures
        r == pat@.is_suffix_of(s@),
{
    let p = str_chars(pat);
    if p.len() > s.len() {
        return false;
    }
    contains_at(s, &p, s.len() - p.len())
}

/// The metric label of an error text (taken in lowercase): `timeout`,
/// `connection`, `protocol`, `io`, `not_found`, `permission` or `unknown`, by
/// the first rule that matches.
pub open spec fn spec_classify(t: Seq<char>) -> Seq<char> {
    if has_part(t, "timeout"@) {
        "timeout"@
    } else if has_part(t, "connection"@) || has_part(t, "connect"@) {
        "connection"@
    } else if has_part(t, "protocol"@) || has_part(t, "invalid"@) {
        "protocol"@
    } else if has_part(t, " io "@) || has_part(t, "i/o"@) || "io "@.is_prefix_of(t)
        || " io"@.is_suffix_of(t) {
        "io"@
    } else if has_part(t, "not found"@) {
        "not_found"@
    } else if has_part(t, "permission"@) || has_part(t, "unauthorized"@) {
        "permission"@
    } else {
        "unknown"@
    }
}

/// Classifies an error, given by its text, into a metric label (see
/// [`spec_classify`]).
pub fn classify_error(error: &str) -> (r: &'static str)
    ensures
        r@ == spec_classify(lowercase_of(error@)),
        all_ascii(error@) ==> r@ == spec_classify(ascii_lower(error@)),
{
    let lower = to_lowercase(error);
    let t = str_chars(lower.as_str());
    if text_contains(&t, "timeout") {
        "timeout"
    } else if text_contains(&t, "connection") || text_contains(&t, "connect") {
        "connection"
    } else if text_contains(&t, "protocol") || text_contains(&t, "invalid") {
        "protocol"
    } else if text_contains(&t, " io ") || text_contains(&t, "i/o") || text_starts_with(&t, "io ")
        || text_ends_with(&t, " io") {
        "io"
    } else if text_contains(&t, "not found") {
        "not_found"
    } else if text_contains(&t, "permission") || text_contains(&t, "unauthorized") {
        "permission"
    } else {
        "unknown"
    }
}

} // verus!
