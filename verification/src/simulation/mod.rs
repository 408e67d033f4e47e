//! Simulation settings: scale, load over time, memory patterns and phases.
pub mod failure;
pub mod load;
pub mod memory_sim;
pub mod scale;

pub use failure::{FailureCounts, FailureSchedule, FailureType, ScheduledFailure};
pub use load::{LoadPattern, LoadPatternBuilder};
pub use memory_sim::{builtin_steps, BuiltinPattern, BurstPattern, PatternStep, SawtoothPattern, SteppedPattern};
pub use scale::{ScaleConfig, ScalePreset};

use vstd::prelude::*;

verus! {

/// Current phase of the simulation.
#[derive(Debug, Clone, Copy, PartialEq, Eq, Structural)]
pub enum SimulationPhase {
    /// Initializing resources.
    Initializing,
    /// Warming up (pre-test stabilization).
    WarmUp,
    /// Main test execution.
    Running,
    /// Ramping down.
    RampDown,
    /// Collecting final metrics.
    Finalizing,
    /// Completed.
    Completed,
}

/// The latencies a simulation reports after `count` operations, in
/// microseconds: an average of 100 and a p99 of 300, each with a jitter that
/// grows with the count modulo fifty.
pub fn simulated_latency(count: u64) -> (r: (u64, u64))
    ensures
        r.0 == 100 + (count % 50) * 2,
        r.1 == 300 + (count % 50) * 4,
        r.0 <= r.1,
{
    let base: u64 = 100;
    let jitter = (count % 50) * 2;
    (base + jitter, base * 3 + jitter * 2)
}

/// The phase that follows `phase`, where `failed` says whether an error has
/// been recorded so far: initialization leads to warm-up, or straight to
/// ramp-down after a failure; warm-up leads to the main run, or to ramp-down
/// after a failure; the main run, ramp-down and finalization follow in turn;
/// a completed simulation stays completed.
pub open spec fn spec_next_phase(phase: SimulationPhase, failed: bool) -> SimulationPhase {
    match phase {
        SimulationPhase::Initializing => if failed {
            SimulationPhase::RampDown
        } else {
            SimulationPhase::WarmUp
        },
        SimulationPhase::WarmUp => if failed {
            SimulationPhase::RampDown
        } else {
            SimulationPhase::Running
        },
        SimulationPhase::Running => SimulationPhase::RampDown,
        SimulationPhase::RampDown => SimulationPhase::Finalizing,
        SimulationPhase::Finalizing => SimulationPhase::Completed,
        SimulationPhase::Completed => SimulationPhase::Completed,
    }
}

/// The next phase of a simulation run (see `spec_next_phase`).
pub fn next_phase(phase: SimulationPhase, failed: bool) -> (r: SimulationPhase)
    ensures
        r == spec_next_phase(phase, failed),
{
    match phase {
        SimulationPhase::Initializing => if failed {
            SimulationPhase::RampDown
        } else {
            SimulationPhase::WarmUp
        },
        SimulationPhase::WarmUp => if failed {
            SimulationPhase::RampDown
        } else {
            SimulationPhase::Running
        },
        SimulationPhase::Running => SimulationPhase::RampDown,
        SimulationPhase::RampDown => SimulationPhase::Finalizing,
        SimulationPhase::Finalizing => SimulationPhase::Completed,
        SimulationPhase::Completed => SimulationPhase::Completed,
    }
}

/// Whether a run passed: no errors were recorded, and at most one percent of
/// its operations failed (none ran counts as no failures).
pub fn simulation_passed(errors: usize, error_count: u64, total_operations: u64) -> (r: bool)
    ensures
        r == (errors == 0 && (total_operations == 0 || error_count * 100 <= total_operations)),
{
    if errors != 0 {
        return false;
    }
    if total_operations == 0 {
        return true;
    }
    (error_count as u128) * 100 <= total_operations as u128
}

/// From initialization, a run that records no failure goes through every
/// phase in order and ends completed; a failure during initialization skips
/// to ramp-down and still ends completed.
pub proof fn lemma_phases_reach_completion(failed: bool)
    ensures
        spec_next_phase(
            spec_next_phase(
                spec_next_phase(spec_next_phase(SimulationPhase::Initializing, false), false),
                false,
            ),
            false,
        ) == SimulationPhase::Finalizing,
        spec_next_phase(SimulationPhase::Finalizing, failed) == SimulationPhase::Completed,
        spec_next_phase(spec_next_phase(SimulationPhase::Initializing, true), true)
            == SimulationPhase::Finalizing,
        spec_next_phase(SimulationPhase::Completed, failed) == SimulationPhase::Completed,
{
}

} // verus!
