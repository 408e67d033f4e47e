//! Memory allocation patterns for simulations: where in its cycle a pattern
//! allocates or releases memory.
use vstd::prelude::*;

use crate::time::Duration;

verus! {

/// What a pattern does to its region at a moment.
#[derive(Debug, Clone, Copy, PartialEq, Eq, Structural)]
pub enum PatternStep {
    /// Allocate that many bytes.
    Allocate(usize),
    /// Release that many bytes.
    Release(usize),
}

/// Sawtooth memory pattern - grows then drops.
#[derive(Debug, Clone)]
pub struct SawtoothPattern {
    /// Period of each cycle.
    pub period: Duration,
    /// Peak allocation per cycle.
    pub peak_bytes: usize,
    /// Region name.
    pub region: String,
}

impl Default for SawtoothPattern {
    /// A thirty-second cycle peaking at 1 MiB in region `sawtooth`.
    fn default() -> (r: Self)
        ensures
            r.period@ == 30_000_000_000,
            r.peak_bytes == 1024 * 1024,
            r.region@ == "sawtooth"@,
    {
        SawtoothPattern { period: Duration::from_secs(30), peak_bytes: 1024 * 1024, region: "sawtooth".to_owned() }
    }
}

/// Stepped memory pattern - grows in discrete steps.
#[derive(Debug, Clone)]
pub struct SteppedPattern {
    /// Duration of each step.
    pub step_duration: Duration,
    /// Memory increment per step.
    pub step_bytes: usize,
    /// Maximum steps before reset.
    pub max_steps: usize,
    /// Region name.
    pub region: String,
}

impl Default for SteppedPattern {
    /// Ten-second steps of 256 KiB, ten steps a cycle, in region `stepped`.
    fn default() -> (r: Self)
        ensures
            r.step_duration@ == 10_000_000_000,
            r.step_bytes == 256 * 1024,
            r.max_steps == 10,
            r.region@ == "stepped"@,
    {
        SteppedPattern {
            step_duration: Duration::from_secs(10),
            step_bytes: 256 * 1024,
            max_steps: 10,
            region: "stepped".to_owned(),
        }
    }
}

/// Whole milliseconds of a duration.
pub open spec fn millis(d: Duration) -> nat {
    d@ / 1_000_000
}

/// The step of a stepped pattern at a time: within the first 100 ms of each
/// step but the first, it allocates a step's worth; at the last step it
/// releases what the whole cycle allocated.
pub open spec fn stepped_step(step_ms: nat, step_bytes: nat, max_steps: nat, elapsed_ms: nat) -> Option<(bool, nat)> {
    let cycle_ms = elapsed_ms % (step_ms * max_steps);
    let current = cycle_ms / step_ms;
    if cycle_ms % step_ms < 100 && current > 0 {
        if current == max_steps - 1 {
            Some((false, step_bytes * max_steps))
        } else {
            Some((true, step_bytes))
        }
    } else {
        None
    }
}

/// A step as (allocates, bytes).
pub open spec fn step_view(s: PatternStep) -> (bool, nat) {
    match s {
        PatternStep::Allocate(n) => (true, n as nat),
        PatternStep::Release(n) => (false, n as nat),
    }
}

impl SteppedPattern {
    /// What the pattern does after `elapsed` has passed.
    pub fn step_at(&self, elapsed: &Duration) -> (r: Option<PatternStep>)
        requires
            millis(self.step_duration) >= 1,
            self.max_steps >= 1,
            millis(self.step_duration) * self.max_steps <= u128::MAX,
            self.step_bytes * self.max_steps <= usize::MAX,
        ensures
            match stepped_step(
                millis(self.step_duration),
                self.step_bytes as nat,
                self.max_steps as nat,
                millis(*elapsed),
            ) {
                None => r is None,
                Some(s) => r matches Some(p) && step_view(p) == s,
            },
    {
        let step_ms = self.step_duration.as_millis();
        let total = step_ms * (self.max_steps as u128);
        assert(total >= 1) by (nonlinear_arith)
            requires
                step_ms >= 1,
                self.max_steps >= 1,
                total == step_ms * self.max_steps,
        ;
        let cycle_ms = elapsed.as_millis() % total;
        let current = cycle_ms / step_ms;
        if cycle_ms % step_ms < 100 && current > 0 {
            assert(current < self.max_steps) by (nonlinear_arith)
                requires
                    cycle_ms < total,
                    total == step_ms * self.max_steps,
                    current == cycle_ms / step_ms,
                    step_ms >= 1,
            ;
            if current == (self.max_steps as u128) - 1 {
                Some(PatternStep::Release(self.step_bytes * self.max_steps))
            } else {
                Some(PatternStep::Allocate(self.step_bytes))
            }
        } else {
            None
        }
    }
}

/// Burst memory pattern - sudden spikes.
#[derive(Debug, Clone)]
pub struct BurstPattern {
    /// Time between bursts.
    pub burst_interval: Duration,
    /// Size of each burst.
    pub burst_size: usize,
    /// How long before burst is released.
    pub hold_duration: Duration,
    /// Region name.
    pub region: String,
}

impl Default for BurstPattern {
    /// A 5 MiB burst every twenty seconds, held for five, in region `burst`.
    fn default() -> (r: Self)
        ensures
            r.burst_interval@ == 20_000_000_000,
            r.burst_size == 5 * 1024 * 1024,
            r.hold_duration@ == 5_000_000_000,
            r.region@ == "burst"@,
    {
        BurstPattern {
            burst_interval: Duration::from_secs(20),
            burst_size: 5 * 1024 * 1024,
            hold_duration: Duration::from_secs(5),
            region: "burst".to_owned(),
        }
    }
}

/// The step of a burst pattern at a time: in the first 100 ms of each interval
/// it allocates a burst; in the 100 ms from the end of the hold it releases it.
pub open spec fn burst_step(interval_ms: nat, hold_ms: nat, size: nat, elapsed_ms: nat) -> Option<(bool, nat)> {
    let cycle = elapsed_ms % interval_ms;
    if cycle < 100 {
        Some((true, size))
    } else if hold_ms <= cycle && cycle < hold_ms + 100 {
        Some((false, size))
    } else {
        None
    }
}

impl BurstPattern {
    /// What the pattern does after `elapsed` has passed.
    pub fn step_at(&self, elapsed: &Duration) -> (r: Option<PatternStep>)
        requires
            millis(self.burst_interval) >= 1,
        ensures
            match burst_step(
                millis(self.burst_interval),
                millis(self.hold_duration),
                self.burst_size as nat,
                millis(*elapsed),
            ) {
                None => r is None,
                Some(s) => r matches Some(p) && step_view(p) == s,
            },
    {
        let cycle = elapsed.as_millis() % self.burst_interval.as_millis();
        let hold = self.hold_duration.as_millis();
        if cycle < 100 {
            Some(PatternStep::Allocate(self.burst_size))
        } else if cycle >= hold && cycle - hold < 100 {
            Some(PatternStep::Release(self.burst_size))
        } else {
            None
        }
    }
}

/// The memory patterns a simulation applies itself (custom ones apply
/// themselves to the profiler).
#[derive(Debug, Clone, Copy, PartialEq, Eq, Structural)]
pub enum BuiltinPattern {
    /// No additional allocations.
    Steady,
    /// Continuous growth.
    GrowthOnly,
    /// Allocation for half of every minute, release for the other half.
    GrowthAndRelease,
    /// A small allocation and a smaller release every step.
    HighChurn,
    /// Allocations of varied sizes, some released.
    Fragmentation,
}

/// The allocation sizes the fragmentation pattern cycles through.
pub open spec fn fragment_size(i: int) -> usize {
    if i == 0 {
        64
    } else if i == 1 {
        256
    } else if i == 2 {
        1024
    } else if i == 3 {
        4096
    } else {
        16384
    }
}

/// A step on a region, as (region, allocates, bytes).
pub open spec fn region_step(region: &str, s: PatternStep) -> (Seq<char>, bool, nat) {
    (region@, step_view(s).0, step_view(s).1)
}

/// What a built-in pattern does at `elapsed`: growth allocates a KiB per
/// elapsed second in region `growth`; growth-and-release allocates 10 KiB in
/// region `cyclic` during the first thirty seconds of each minute and
/// releases as much during the rest; churn allocates 1 KiB and releases half
/// of it in region `churn`; fragmentation allocates one of five sizes chosen
/// by the elapsed milliseconds (taken in the platform's word) in region
/// `frag`, and on even milliseconds releases the size two places further on.
pub open spec fn builtin_steps_spec(p: BuiltinPattern, secs: u64, ms_word: usize, ms_even: bool) -> Seq<(Seq<char>, bool, nat)> {
    match p {
        BuiltinPattern::Steady => Seq::empty(),
        BuiltinPattern::GrowthOnly => seq![("growth"@, true, ((secs * 1024) as usize) as nat)],
        BuiltinPattern::GrowthAndRelease => if secs % 60 < 30 {
            seq![("cyclic"@, true, 10240nat)]
        } else {
            seq![("cyclic"@, false, 10240nat)]
        },
        BuiltinPattern::HighChurn => seq![("churn"@, true, 1024nat), ("churn"@, false, 512nat)],
        BuiltinPattern::Fragmentation => {
            let idx = (ms_word % 5) as int;
            if ms_even {
                seq![
                    ("frag"@, true, fragment_size(idx) as nat),
                    ("frag"@, false, fragment_size((idx + 2) % 5) as nat),
                ]
            } else {
                seq![("frag"@, true, fragment_size(idx) as nat)]
            }
        },
    }
}

fn fragment(i: usize) -> (r: usize)
    requires
        i < 5,
    ensures
        r == fragment_size(i as int),
{
    if i == 0 {
        64
    } else if i == 1 {
        256
    } else if i == 2 {
        1024
    } else if i == 3 {
        4096
    } else {
        16384
    }
}

/// The steps of a built-in pattern at `elapsed`, each on its region, in order.
pub fn builtin_steps(p: BuiltinPattern, elapsed: &Duration) -> (r: Vec<(&'static str, PatternStep)>)
    requires
        p == BuiltinPattern::GrowthOnly ==> elapsed@ / 1_000_000_000 * 1024 <= u64::MAX,
    ensures
        r@.map_values(|e: (&'static str, PatternStep)| region_step(e.0, e.1)) == builtin_steps_spec(
            p,
            (elapsed@ / 1_000_000_000) as u64,
            ((elapsed@ / 1_000_000) as u128) as usize,
            (elapsed@ / 1_000_000) % 2 == 0,
        ),
{
    let mut r: Vec<(&'static str, PatternStep)> = Vec::new();
    let secs = elapsed.as_secs();
    let ms = elapsed.as_millis();
    match p {
        BuiltinPattern::Steady => {},
        BuiltinPattern::GrowthOnly => {
            #[verifier::truncate]
            let growth = (secs * 1024) as usize;
            r.push(("growth", PatternStep::Allocate(growth)));
        },
        BuiltinPattern::GrowthAndRelease => {
            if secs % 60 < 30 {
                r.push(("cyclic", PatternStep::Allocate(10240)));
            } else {
                r.push(("cyclic", PatternStep::Release(10240)));
            }
        },
        BuiltinPattern::HighChurn => {
            r.push(("churn", PatternStep::Allocate(1024)));
            r.push(("churn", PatternStep::Release(512)));
        },
        BuiltinPattern::Fragmentation => {
            #[verifier::truncate]
            let word = ms as usize;
            let idx = word % 5;
            r.push(("frag", PatternStep::Allocate(fragment(idx))));
            if ms % 2 == 0 {
                r.push(("frag", PatternStep::Release(fragment((idx + 2) % 5))));
            }
        },
    }
    proof {
        reveal_strlit("growth");
        reveal_strlit("cyclic");
        reveal_strlit("churn");
        reveal_strlit("frag");
    }
    assert(r@.map_values(|e: (&'static str, PatternStep)| region_step(e.0, e.1)) =~= builtin_steps_spec(
        p,
        (elapsed@ / 1_000_000_000) as u64,
        ((elapsed@ / 1_000_000) as u128) as usize,
        (elapsed@ / 1_000_000) % 2 == 0,
    ));
    r
}

/// Growth and release take turns each minute: every moment of the first half
/// allocates 10 KiB and every moment of the second half releases 10 KiB; the
/// steady pattern does nothing.
pub proof fn lemma_growth_and_release_alternates(secs: u64, ms: usize, even: bool)
    ensures
        secs % 60 < 30 ==> builtin_steps_spec(BuiltinPattern::GrowthAndRelease, secs, ms, even) == seq![("cyclic"@, true, 10240nat)],
        secs % 60 >= 30 ==> builtin_steps_spec(BuiltinPattern::GrowthAndRelease, secs, ms, even) == seq![("cyclic"@, false, 10240nat)],
        builtin_steps_spec(BuiltinPattern::Steady, secs, ms, even).len() == 0,
{
}

} // verus!
