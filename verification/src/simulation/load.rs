//! Load patterns: the operations per second a simulation runs at over time.
use vstd::prelude::*;

use crate::text::{cat, dec, u64_to_text, usize_to_text};
use crate::time::{duration_debug, duration_debug_text, Duration};

verus! {

/// Load pattern for simulations.
#[derive(Debug, Clone)]
pub enum LoadPattern {
    /// Constant load.
    Steady {
        /// Operations per second.
        ops_per_sec: u64,
    },
    /// Linear ramp from start to end.
    Ramp {
        /// Starting operations per second.
        start_ops: u64,
        /// Ending operations per second.
        end_ops: u64,
        /// Duration of the ramp.
        duration: Duration,
    },
    /// Step function (sudden changes).
    Step {
        /// Initial level.
        initial: u64,
        /// Steps as (time offset, new level) pairs.
        steps: Vec<(Duration, u64)>,
    },
    /// Sinusoidal wave pattern.
    Wave {
        /// Base operations per second.
        baseline: u64,
        /// Amplitude of the wave.
        amplitude: u64,
        /// Period of one complete cycle.
        period: Duration,
    },
    /// Sudden spike pattern.
    Spike {
        /// Normal operations per second.
        baseline: u64,
        /// Peak operations per second.
        peak: u64,
        /// Duration of the spike.
        spike_duration: Duration,
    },
    /// Burst pattern (periodic high load).
    Burst {
        /// Normal operations per second.
        baseline: u64,
        /// Burst operations per second.
        burst_ops: u64,
        /// Duration of each burst.
        burst_duration: Duration,
        /// Time between bursts.
        interval: Duration,
    },
    /// Random load within bounds.
    Random {
        /// Minimum operations per second.
        min_ops: u64,
        /// Maximum operations per second.
        max_ops: u64,
    },
    /// Realistic daily traffic pattern.
    DailyTraffic {
        /// Peak operations per second.
        peak: u64,
        /// Off-peak operations per second.
        off_peak: u64,
        /// Simulated day duration.
        day_duration: Duration,
    },
}

impl Default for LoadPattern {
    /// A steady thousand operations per second.
    fn default() -> (r: Self)
        ensures
            r == (LoadPattern::Steady { ops_per_sec: 1000 }),
    {
        LoadPattern::Steady { ops_per_sec: 1000 }
    }
}

/// The level of a step pattern at `elapsed` nanoseconds: the level of the last
/// step (in list order) whose offset has been reached, else the initial level.
pub open spec fn step_level(initial: u64, steps: Seq<(Duration, u64)>, elapsed: nat) -> u64
    decreases steps.len(),
{
    if steps.len() == 0 {
        initial
    } else if steps.last().0@ <= elapsed {
        steps.last().1
    } else {
        step_level(initial, steps.drop_last(), elapsed)
    }
}

/// Whether the pattern's load is a curve computed in floating point (ramp,
/// wave, daily traffic).
pub open spec fn is_curve(p: LoadPattern) -> bool {
    p is Ramp || p is Wave || p is DailyTraffic
}

/// What the pattern demands of its parameters: a burst interval of at least a
/// millisecond, and random bounds in order and not spanning all of `u64`.
pub open spec fn load_params_ok(p: LoadPattern) -> bool {
    match p {
        LoadPattern::Burst { interval, .. } => interval@ >= 1_000_000,
        LoadPattern::Random { min_ops, max_ops } => min_ops <= max_ops && max_ops - min_ops < u64::MAX,
        _ => true,
    }
}

/// The load of a pattern at `elapsed`, for the patterns computed in integers.
pub open spec fn spec_ops(p: LoadPattern, elapsed: Duration) -> Option<u64> {
    match p {
        LoadPattern::Steady { ops_per_sec } => Some(ops_per_sec),
        LoadPattern::Step { initial, steps } => Some(step_level(initial, steps@, elapsed@)),
        LoadPattern::Spike { baseline, peak, spike_duration } => Some(
            if elapsed@ < spike_duration@ { peak } else { baseline },
        ),
        LoadPattern::Burst { baseline, burst_ops, burst_duration, interval } => Some(
            if (elapsed@ / 1_000_000) % (interval@ / 1_000_000) < burst_duration@ / 1_000_000 {
                burst_ops
            } else {
                baseline
            },
        ),
        LoadPattern::Random { min_ops, max_ops } => Some(
            (min_ops + (((elapsed@ / 1000) as u64) as int) % ((max_ops - min_ops) + 1)) as u64,
        ),
        _ => None,
    }
}

/// The text describing a pattern.
pub open spec fn spec_load_description(p: LoadPattern) -> Seq<char> {
    match p {
        LoadPattern::Steady { ops_per_sec } => "Steady "@ + dec(ops_per_sec as nat) + " ops/s"@,
        LoadPattern::Ramp { start_ops, end_ops, duration } => "Ramp "@ + dec(start_ops as nat)
            + " -> "@ + dec(end_ops as nat) + " ops/s over "@ + duration_debug_text(duration@),
        LoadPattern::Step { initial, steps } => "Step pattern starting at "@ + dec(initial as nat)
            + " with "@ + dec(steps@.len()) + " steps"@,
        LoadPattern::Wave { baseline, amplitude, period } => "Wave "@ + dec(baseline as nat)
            + "±"@ + dec(amplitude as nat) + " ops/s, period "@ + duration_debug_text(period@),
        LoadPattern::Spike { baseline, peak, spike_duration } => "Spike "@ + dec(baseline as nat)
            + " -> "@ + dec(peak as nat) + " ops/s for "@ + duration_debug_text(spike_duration@),
        LoadPattern::Burst { baseline, burst_ops, burst_duration, interval } => "Burst "@ + dec(
            baseline as nat,
        ) + "->"@ + dec(burst_ops as nat) + " ops/s for "@ + duration_debug_text(burst_duration@)
            + " every "@ + duration_debug_text(interval@),
        LoadPattern::Random { min_ops, max_ops } => "Random "@ + dec(min_ops as nat) + "-"@ + dec(
            max_ops as nat,
        ) + " ops/s"@,
        LoadPattern::DailyTraffic { peak, off_peak, .. } => "Daily traffic "@ + dec(
            off_peak as nat,
        ) + "-"@ + dec(peak as nat) + " ops/s"@,
    }
}

impl LoadPattern {
    /// Operations per second at `elapsed`. The ramp, wave and daily-traffic
    /// patterns are curves computed in floating point and give `None` here.
    pub fn ops_for_elapsed(&self, elapsed: Duration) -> (r: Option<u64>)
        requires
            load_params_ok(*self),
        ensures
            r == spec_ops(*self, elapsed),
            r is None <==> is_curve(*self),
    {
        match self {
            LoadPattern::Steady { ops_per_sec } => Some(*ops_per_sec),
            LoadPattern::Step { initial, steps } => {
                let mut current = *initial;
                let mut i: usize = 0;
                while i < steps.len()
                    invariant
                        i <= steps@.len(),
                        current == step_level(*initial, steps@.subrange(0, i as int), elapsed@),
                    decreases steps@.len() - i,
                {
                    let (time, level) = steps[i];
                    assert(steps@.subrange(0, i + 1).drop_last() =~= steps@.subrange(0, i as int));
                    if time.is_at_most(&elapsed) {
                        current = level;
                    }
                    i = i + 1;
                }
                assert(steps@.subrange(0, steps@.len() as int) =~= steps@);
                Some(current)
            },
            LoadPattern::Spike { baseline, peak, spike_duration } => {
                if elapsed.is_shorter_than(spike_duration) {
                    Some(*peak)
                } else {
                    Some(*baseline)
                }
            },
            LoadPattern::Burst { baseline, burst_ops, burst_duration, interval } => {
                let cycle = elapsed.as_millis() % interval.as_millis();
                if cycle < burst_duration.as_millis() {
                    Some(*burst_ops)
                } else {
                    Some(*baseline)
                }
            },
            LoadPattern::Random { min_ops, max_ops } => {
                #[verifier::truncate]
                let seed = elapsed.as_micros() as u64;
                let range = *max_ops - *min_ops;
                Some(*min_ops + seed % (range + 1))
            },
            _ => None,
        }
    }

    /// A text describing the pattern.
    pub fn description(&self) -> (r: String)
        ensures
            r@ == spec_load_description(*self),
    {
        match self {
            LoadPattern::Steady { ops_per_sec } => cat("Steady ", u64_to_text(*ops_per_sec).as_str()).concat(
                " ops/s",
            ),
            LoadPattern::Ramp { start_ops, end_ops, duration } => cat(
                "Ramp ",
                u64_to_text(*start_ops).as_str(),
            ).concat(" -> ").concat(u64_to_text(*end_ops).as_str()).concat(" ops/s over ").concat(
                duration_debug(duration).as_str(),
            ),
            LoadPattern::Step { initial, steps } => cat(
                "Step pattern starting at ",
                u64_to_text(*initial).as_str(),
            ).concat(" with ").concat(usize_to_text(steps.len()).as_str()).concat(" steps"),
            LoadPattern::Wave { baseline, amplitude, period } => cat(
                "Wave ",
                u64_to_text(*baseline).as_str(),
            ).concat("±").concat(u64_to_text(*amplitude).as_str()).concat(" ops/s, period ").concat(
                duration_debug(period).as_str(),
            ),
            LoadPattern::Spike { baseline, peak, spike_duration } => cat(
                "Spike ",
                u64_to_text(*baseline).as_str(),
            ).concat(" -> ").concat(u64_to_text(*peak).as_str()).concat(" ops/s for ").concat(
                duration_debug(spike_duration).as_str(),
            ),
            LoadPattern::Burst { baseline, burst_ops, burst_duration, interval } => cat(
                "Burst ",
                u64_to_text(*baseline).as_str(),
            ).concat("->").concat(u64_to_text(*burst_ops).as_str()).concat(" ops/s for ").concat(
                duration_debug(burst_duration).as_str(),
            ).concat(" every ").concat(duration_debug(interval).as_str()),
            LoadPattern::Random { min_ops, max_ops } => cat(
                "Random ",
                u64_to_text(*min_ops).as_str(),
            ).concat("-").concat(u64_to_text(*max_ops).as_str()).concat(" ops/s"),
            LoadPattern::DailyTraffic { peak, off_peak, .. } => cat(
                "Daily traffic ",
                u64_to_text(*off_peak).as_str(),
            ).concat("-").concat(u64_to_text(*peak).as_str()).concat(" ops/s"),
        }
    }

    /// A steady load.
    pub fn steady(ops_per_sec: u64) -> (r: Self)
        ensures
            r == (LoadPattern::Steady { ops_per_sec }),
    {
        LoadPattern::Steady { ops_per_sec }
    }

    /// A linear ramp from `start` to `end` over `duration`.
    pub fn ramp(start: u64, end: u64, duration: Duration) -> (r: Self)
        ensures
            r == (LoadPattern::Ramp { start_ops: start, end_ops: end, duration }),
    {
        LoadPattern::Ramp { start_ops: start, end_ops: end, duration }
    }

    /// A sine wave around `baseline`.
    pub fn wave(baseline: u64, amplitude: u64, period: Duration) -> (r: Self)
        ensures
            r == (LoadPattern::Wave { baseline, amplitude, period }),
    {
        LoadPattern::Wave { baseline, amplitude, period }
    }

    /// A spike to `peak` for `spike_duration`, then `baseline`.
    pub fn spike(baseline: u64, peak: u64, spike_duration: Duration) -> (r: Self)
        ensures
            r == (LoadPattern::Spike { baseline, peak, spike_duration }),
    {
        LoadPattern::Spike { baseline, peak, spike_duration }
    }

    /// Bursts of `burst_ops` lasting `burst_duration`, every `interval`.
    pub fn burst(baseline: u64, burst_ops: u64, burst_duration: Duration, interval: Duration) -> (r: Self)
        ensures
            r == (LoadPattern::Burst { baseline, burst_ops, burst_duration, interval }),
    {
        LoadPattern::Burst { baseline, burst_ops, burst_duration, interval }
    }
}

/// Builder for step patterns.
#[derive(Debug)]
pub struct LoadPatternBuilder {
    steps: Vec<(Duration, u64)>,
    initial: u64,
}

impl Default for LoadPatternBuilder {
    fn default() -> (r: Self)
        ensures
            r.spec_initial() == 0,
            r.spec_steps() == Seq::<(Duration, u64)>::empty(),
    {
        LoadPatternBuilder { steps: Vec::new(), initial: 0 }
    }
}

impl LoadPatternBuilder {
    /// The initial level so far.
    pub closed spec fn spec_initial(&self) -> u64 {
        self.initial
    }

    /// The steps so far.
    pub closed spec fn spec_steps(&self) -> Seq<(Duration, u64)> {
        self.steps@
    }

    /// An empty builder: initial level zero, no steps.
    pub fn new() -> (r: Self)
        ensures
            r.spec_initial() == 0,
            r.spec_steps() == Seq::<(Duration, u64)>::empty(),
    {
        LoadPatternBuilder::default()
    }

    /// Sets the initial load.
    pub fn initial(self, ops: u64) -> (r: Self)
        ensures
            r.spec_initial() == ops,
            r.spec_steps() == self.spec_steps(),
    {
        let mut s = self;
        s.initial = ops;
        s
    }

    /// Adds a step at an offset.
    pub fn step_at(self, time: Duration, ops: u64) -> (r: Self)
        ensures
            r.spec_initial() == self.spec_initial(),
            r.spec_steps() == self.spec_steps().push((time, ops)),
    {
        let mut s = self;
        s.steps.push((time, ops));
        s
    }

    /// The step pattern built.
    pub fn build_step(self) -> (r: LoadPattern)
        ensures
            r matches LoadPattern::Step { initial, steps } && initial == self.spec_initial()
                && steps@ == self.spec_steps(),
    {
        LoadPattern::Step { initial: self.initial, steps: self.steps }
    }
}

} // verus!
