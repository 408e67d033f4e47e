//! Device lifecycle state machine.
//!
//! ```text
//! Uninitialized -> Initializing -> Offline <-> Online -> ShuttingDown -> Offline
//!                        \            \          \             \
//!                         `----------> Error <----`-------------'
//! Error -> Offline | Initializing | Uninitialized
//! ```
use vstd::prelude::*;

use crate::device::{spec_state_name, DeviceState};
use crate::error::{Error, Result};
use crate::time::{elapsed_since, instant_now, Duration};

verus! {

/// Reason for device stop.
#[derive(Debug, Clone, Copy, PartialEq, Eq, Hash, Structural)]
pub enum StopReason {
    /// Normal shutdown requested by user.
    UserRequested,
    /// Shutdown due to error.
    Error,
    /// Shutdown for maintenance.
    Maintenance,
    /// System shutdown.
    SystemShutdown,
    /// Timeout.
    Timeout,
}

/// The transitions the lifecycle allows.
pub open spec fn spec_can_transition(from: DeviceState, to: DeviceState) -> bool {
    match (from, to) {
        (DeviceState::Uninitialized, DeviceState::Initializing) => true,
        (DeviceState::Uninitialized, DeviceState::Error) => true,
        (DeviceState::Initializing, DeviceState::Offline) => true,
        (DeviceState::Initializing, DeviceState::Online) => true,
        (DeviceState::Initializing, DeviceState::Error) => true,
        (DeviceState::Offline, DeviceState::Online) => true,
        (DeviceState::Offline, DeviceState::Error) => true,
        (DeviceState::Online, DeviceState::Offline) => true,
        (DeviceState::Online, DeviceState::ShuttingDown) => true,
        (DeviceState::Online, DeviceState::Error) => true,
        (DeviceState::ShuttingDown, DeviceState::Offline) => true,
        (DeviceState::ShuttingDown, DeviceState::Error) => true,
        (DeviceState::Error, DeviceState::Offline) => true,
        (DeviceState::Error, DeviceState::Initializing) => true,
        (DeviceState::Error, DeviceState::Uninitialized) => true,
        _ => false,
    }
}

/// The message of a refused transition.
pub open spec fn spec_transition_message(from: DeviceState, to: DeviceState) -> Seq<char> {
    "Invalid state transition: "@ + spec_state_name(from) + " -> "@ + spec_state_name(to)
}

/// Lifecycle state machine that manages state transitions.
#[derive(Debug, Clone)]
pub struct LifecycleStateMachine {
    current_state: DeviceState,
    last_transition: Option<std::time::Instant>,
    error_count: u32,
    max_retries: u32,
    retry_delay: Duration,
}

impl LifecycleStateMachine {
    /// The current state.
    pub closed spec fn spec_state(&self) -> DeviceState {
        self.current_state
    }

    /// Errors recorded since the last non-error transition or reset.
    pub closed spec fn spec_error_count(&self) -> u32 {
        self.error_count
    }

    /// Errors tolerated before retries are exhausted.
    pub closed spec fn spec_max_retries(&self) -> u32 {
        self.max_retries
    }

    /// Minimum time in a state before a retry.
    pub closed spec fn spec_retry_delay(&self) -> Duration {
        self.retry_delay
    }

    /// Whether a transition has been made yet.
    pub closed spec fn spec_has_transitioned(&self) -> bool {
        self.last_transition is Some
    }

    /// Create a new state machine.
    pub fn new() -> (r: Self)
        ensures
            r.spec_state() == DeviceState::Uninitialized,
            !r.spec_has_transitioned(),
            r.spec_error_count() == 0,
            r.spec_max_retries() == 3,
            r.spec_retry_delay()@ == 1_000_000_000,
    {
        LifecycleStateMachine {
            current_state: DeviceState::Uninitialized,
            last_transition: None,
            error_count: 0,
            max_retries: 3,
            retry_delay: Duration::from_secs(1),
        }
    }

    /// Create with custom retry settings.
    pub fn with_retries(self, max_retries: u32, retry_delay: Duration) -> (r: Self)
        ensures
            r.spec_state() == self.spec_state(),
            r.spec_has_transitioned() == self.spec_has_transitioned(),
            r.spec_error_count() == self.spec_error_count(),
            r.spec_max_retries() == max_retries,
            r.spec_retry_delay() == retry_delay,
    {
        let mut s = self;
        s.max_retries = max_retries;
        s.retry_delay = retry_delay;
        s
    }

    /// Get the current state.
    pub fn state(&self) -> (r: DeviceState)
        ensures
            r == self.spec_state(),
    {
        self.current_state
    }

    /// Check if a transition is valid.
    pub fn can_transition_to(&self, target: DeviceState) -> (r: bool)
        ensures
            r == spec_can_transition(self.spec_state(), target),
    {
        match (self.current_state, target) {
            (DeviceState::Uninitialized, DeviceState::Initializing) => true,
            (DeviceState::Uninitialized, DeviceState::Error) => true,
            (DeviceState::Initializing, DeviceState::Offline) => true,
            (DeviceState::Initializing, DeviceState::Online) => true,
            (DeviceState::Initializing, DeviceState::Error) => true,
            (DeviceState::Offline, DeviceState::Online) => true,
            (DeviceState::Offline, DeviceState::Error) => true,
            (DeviceState::Online, DeviceState::Offline) => true,
            (DeviceState::Online, DeviceState::ShuttingDown) => true,
            (DeviceState::Online, DeviceState::Error) => true,
            (DeviceState::ShuttingDown, DeviceState::Offline) => true,
            (DeviceState::ShuttingDown, DeviceState::Error) => true,
            (DeviceState::Error, DeviceState::Offline) => true,
            (DeviceState::Error, DeviceState::Initializing) => true,
            (DeviceState::Error, DeviceState::Uninitialized) => true,
            _ => false,
        }
    }

    /// Attempt to transition to a new state; answers the previous state.
    pub fn transition_to(&mut self, target: DeviceState) -> (r: Result<DeviceState>)
        ensures
            spec_can_transition(old(self).spec_state(), target) ==> {
                &&& r matches Ok(prev) && prev == old(self).spec_state()
                &&& final(self).spec_state() == target
                &&& final(self).spec_has_transitioned()
                &&& final(self).spec_error_count() == if target == DeviceState::Error {
                    old(self).spec_error_count()
                } else {
                    0
                }
            },
            !spec_can_transition(old(self).spec_state(), target) ==> {
                &&& r matches Err(Error::Engine(m)) && m@ == spec_transition_message(
                    old(self).spec_state(),
                    target,
                )
                &&& final(self).spec_state() == old(self).spec_state()
                &&& final(self).spec_has_transitioned() == old(self).spec_has_transitioned()
                &&& final(self).spec_error_count() == old(self).spec_error_count()
            },
            final(self).spec_max_retries() == old(self).spec_max_retries(),
            final(self).spec_retry_delay() == old(self).spec_retry_delay(),
    {
        if !self.can_transition_to(target) {
            let a = "Invalid state transition: ".to_owned();
            let b = a.concat(self.current_state.name());
            let c = b.concat(" -> ");
            let m = c.concat(target.name());
            return Err(Error::Engine(m));
        }
        let old_state = self.current_state;
        self.current_state = target;
        self.last_transition = Some(instant_now());
        if target != DeviceState::Error {
            self.error_count = 0;
        }
        Ok(old_state)
    }

    /// Record an error; answers whether retries are exhausted.
    pub fn record_error(&mut self) -> (r: bool)
        requires
            old(self).spec_error_count() < u32::MAX,
        ensures
            final(self).spec_error_count() == old(self).spec_error_count() + 1,
            r == (final(self).spec_error_count() > final(self).spec_max_retries()),
            final(self).spec_state() == old(self).spec_state(),
            final(self).spec_max_retries() == old(self).spec_max_retries(),
            final(self).spec_retry_delay() == old(self).spec_retry_delay(),
            final(self).spec_has_transitioned() == old(self).spec_has_transitioned(),
    {
        self.error_count = self.error_count + 1;
        self.error_count > self.max_retries
    }

    /// Get the current error count.
    pub fn error_count(&self) -> (r: u32)
        ensures
            r == self.spec_error_count(),
    {
        self.error_count
    }

    /// Reset the error count.
    pub fn reset_errors(&mut self)
        ensures
            final(self).spec_error_count() == 0,
            final(self).spec_state() == old(self).spec_state(),
            final(self).spec_max_retries() == old(self).spec_max_retries(),
            final(self).spec_retry_delay() == old(self).spec_retry_delay(),
            final(self).spec_has_transitioned() == old(self).spec_has_transitioned(),
    {
        self.error_count = 0;
    }

    /// Time since the last transition, if there was one.
    pub fn time_in_state(&self) -> (r: Option<Duration>)
        ensures
            r is Some == self.spec_has_transitioned(),
    {
        match &self.last_transition {
            Some(t) => Some(elapsed_since(t)),
            None => None,
        }
    }

    /// Check if the retry delay has passed since the last transition (always
    /// true before the first transition).
    pub fn can_retry(&self) -> (r: bool)
        ensures
            !self.spec_has_transitioned() ==> r,
            self.spec_retry_delay()@ == 0 ==> r,
    {
        match &self.last_transition {
            Some(t) => {
                let e = elapsed_since(t);
                self.retry_delay.is_at_most(&e)
            },
            None => true,
        }
    }

    /// Whether the elapsed time in the current state allows a retry.
    pub fn retry_allowed_after(&self, elapsed: Duration) -> (r: bool)
        ensures
            r == (self.spec_retry_delay()@ <= elapsed@),
    {
        self.retry_delay.is_at_most(&elapsed)
    }
}

impl Default for LifecycleStateMachine {
    fn default() -> (r: Self)
        ensures
            r.spec_state() == DeviceState::Uninitialized,
            !r.spec_has_transitioned(),
            r.spec_error_count() == 0,
            r.spec_max_retries() == 3,
            r.spec_retry_delay()@ == 1_000_000_000,
    {
        LifecycleStateMachine::new()
    }
}

/// Every state but `Error` may fail into `Error`, and `Error` may recover to
/// `Offline`, `Initializing` or `Uninitialized`.
pub proof fn lemma_error_reachable_and_recoverable(s: DeviceState)
    ensures
        s != DeviceState::Error ==> spec_can_transition(s, DeviceState::Error),
        spec_can_transition(DeviceState::Error, DeviceState::Offline),
        spec_can_transition(DeviceState::Error, DeviceState::Initializing),
        spec_can_transition(DeviceState::Error, DeviceState::Uninitialized),
        !spec_can_transition(s, s),
{
}

/// The paths of the lifecycle diagram are allowed: start-up through
/// `Initializing` to `Online` or `Offline`, `Offline` and `Online` both ways,
/// and the graceful stop `Online -> ShuttingDown -> Offline`. Shutting down
/// starts only from `Online`, and only `Error` leads back to `Uninitialized`.
pub proof fn lemma_documented_paths(s: DeviceState)
    ensures
        spec_can_transition(DeviceState::Uninitialized, DeviceState::Initializing),
        spec_can_transition(DeviceState::Initializing, DeviceState::Online),
        spec_can_transition(DeviceState::Initializing, DeviceState::Offline),
        spec_can_transition(DeviceState::Offline, DeviceState::Online),
        spec_can_transition(DeviceState::Online, DeviceState::Offline),
        spec_can_transition(DeviceState::Online, DeviceState::ShuttingDown),
        spec_can_transition(DeviceState::ShuttingDown, DeviceState::Offline),
        spec_can_transition(s, DeviceState::ShuttingDown) <==> s == DeviceState::Online,
        spec_can_transition(s, DeviceState::Uninitialized) <==> s == DeviceState::Error,
{
}

} // verus!
