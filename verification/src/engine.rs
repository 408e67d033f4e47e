//! The simulator engine's bookkeeping: its state machine, the registry of
//! devices, tick counting, and the builder with its presets. Running the
//! devices themselves is left to the caller, which performs the device
//! operations between the steps taken here.
use vstd::prelude::*;

use crate::config::EngineConfig;
use crate::device::{same_info, DeviceInfo, DeviceState};
use crate::error::{Error, Result};
use crate::protocol::Protocol;
use crate::strmap::StrMap;
use crate::time::{elapsed_since, instant_now, Duration};

verus! {

/// Engine state.
#[derive(Debug, Clone, Copy, PartialEq, Eq, Structural)]
pub enum EngineState {
    /// Engine is stopped.
    Stopped,
    /// Engine is starting.
    Starting,
    /// Engine is running.
    Running,
    /// Engine is stopping.
    Stopping,
    /// Engine has an error.
    Error,
}

/// Engine events.
#[derive(Debug, Clone)]
pub enum EngineEvent {
    /// Engine started.
    Started,
    /// Engine stopped.
    Stopped,
    /// Device added.
    DeviceAdded { device_id: String, protocol: Protocol },
    /// Device removed.
    DeviceRemoved { device_id: String },
    /// Device state changed.
    DeviceStateChanged { device_id: String, old_state: DeviceState, new_state: DeviceState },
    /// Error occurred.
    Error { message: String },
}

/// Engine configuration presets.
#[derive(Debug, Clone, Copy, PartialEq, Eq, Structural)]
pub enum EnginePreset {
    /// Development preset: small scale, verbose logging.
    Development,
    /// Production preset: large scale, optimized settings.
    Production,
    /// Testing preset: minimal scale, fast ticks.
    Testing,
    /// Stress test preset: maximum scale.
    StressTest,
}

/// Sum of the point counts of the devices.
pub open spec fn total_points(s: Seq<(Seq<char>, DeviceInfo)>) -> nat
    decreases s.len(),
{
    if s.len() == 0 {
        0
    } else {
        total_points(s.drop_last()) + s.last().1.point_count as nat
    }
}

/// The ids of the devices that speak a protocol, in registration order.
pub open spec fn ids_with_protocol(s: Seq<(Seq<char>, DeviceInfo)>, p: Protocol) -> Seq<Seq<char>>
    decreases s.len(),
{
    if s.len() == 0 {
        Seq::empty()
    } else if s.last().1.protocol == p {
        ids_with_protocol(s.drop_last(), p).push(s.last().0)
    } else {
        ids_with_protocol(s.drop_last(), p)
    }
}

/// How long the run loop waits after a tick that took `spent`: the rest of
/// the tick interval, or nothing when the tick used it all.
pub fn sleep_after_tick(tick_interval: &Duration, spent: &Duration) -> (r: Option<Duration>)
    ensures
        match r {
            Some(d) => spent@ < tick_interval@ && d@ == tick_interval@ - spent@,
            None => tick_interval@ <= spent@,
        },
{
    if spent.is_shorter_than(tick_interval) {
        tick_interval.checked_sub(spent)
    } else {
        None
    }
}

/// Simulator engine: configuration, state, the devices it manages (by id, in
/// the order they were added), tick count and shutdown flag.
pub struct SimulatorEngine {
    config: EngineConfig,
    state: EngineState,
    devices: StrMap<DeviceInfo>,
    start_time: Option<std::time::Instant>,
    shutdown: bool,
    tick_count: u64,
}

impl SimulatorEngine {
    /// The configuration.
    pub closed spec fn spec_config(&self) -> EngineConfig {
        self.config
    }

    /// The current state.
    pub closed spec fn spec_state(&self) -> EngineState {
        self.state
    }

    /// The devices by id.
    pub closed spec fn device_map(&self) -> Map<Seq<char>, DeviceInfo> {
        self.devices.map()
    }

    /// The devices as (id, information) pairs, in the order they were added.
    pub closed spec fn device_entries(&self) -> Seq<(Seq<char>, DeviceInfo)> {
        self.devices.pairs()
    }

    /// Ticks processed.
    pub closed spec fn ticks(&self) -> u64 {
        self.tick_count
    }

    /// Whether shutdown was requested.
    pub closed spec fn shutdown_flag(&self) -> bool {
        self.shutdown
    }

    /// Whether the engine has ever been started, so that it has an uptime.
    pub closed spec fn spec_started(&self) -> bool {
        self.start_time is Some
    }

    /// Never more devices than the configuration allows, each filed under
    /// its own id.
    #[verifier::type_invariant]
    spec fn inv(self) -> bool {
        &&& self.devices.pairs().len() <= self.config.max_devices
        &&& forall|k: Seq<char>| #[trigger]
            self.devices.map().dom().contains(k) ==> self.devices.map()[k].id@ == k
    }

    /// A stopped engine with no devices.
    pub fn new(config: EngineConfig) -> (r: Self)
        ensures
            r.spec_config() == config,
            r.spec_state() == EngineState::Stopped,
            r.device_map() == Map::<Seq<char>, DeviceInfo>::empty(),
            r.ticks() == 0,
            !r.shutdown_flag(),
            !r.spec_started(),
    {
        SimulatorEngine {
            config,
            state: EngineState::Stopped,
            devices: StrMap::new(),
            start_time: None,
            shutdown: false,
            tick_count: 0,
        }
    }

    /// The engine configuration.
    pub fn config(&self) -> (r: &EngineConfig)
        ensures
            *r == self.spec_config(),
    {
        &self.config
    }

    /// The current engine state.
    pub fn state(&self) -> (r: EngineState)
        ensures
            r == self.spec_state(),
    {
        self.state
    }

    /// Number of devices.
    pub fn device_count(&self) -> (r: usize)
        ensures
            r == self.device_map().len(),
            r == self.device_entries().len(),
    {
        self.devices.len()
    }

    /// Total data points across all devices.
    pub fn point_count(&self) -> (r: usize)
        requires
            total_points(self.device_entries()) <= usize::MAX,
        ensures
            r == total_points(self.device_entries()),
    {
        let n = self.devices.len();
        let mut sum: usize = 0;
        let mut i: usize = 0;
        while i < n
            invariant
                n == self.devices.pairs().len(),
                i <= n,
                sum == total_points(self.devices.pairs().subrange(0, i as int)),
                total_points(self.devices.pairs()) <= usize::MAX,
            decreases n - i,
        {
            let ghost p = self.devices.pairs();
            proof {
                assert(p.subrange(0, i + 1).drop_last() =~= p.subrange(0, i as int));
                lemma_total_points_prefix(p, i + 1);
            }
            sum = sum + self.devices.value_at(i).point_count;
            i = i + 1;
        }
        assert(self.devices.pairs().subrange(0, n as int) =~= self.devices.pairs());
        sum
    }

    /// Whether a device with this id may be added: refused with
    /// `CapacityExceeded` when the engine holds its maximum number of devices,
    /// then with `DeviceAlreadyExists` when the id is taken.
    pub fn check_new_device(&self, device_id: &str) -> (r: Result<()>)
        ensures
            self.device_entries().len() >= self.spec_config().max_devices ==> (r matches Err(
                Error::CapacityExceeded { current, max, resource },
            ) && current == self.device_entries().len() && max == self.spec_config().max_devices
                && resource@ == "devices"@),
            self.device_entries().len() < self.spec_config().max_devices && self.device_map().dom().contains(
                device_id@,
            ) ==> (r matches Err(Error::DeviceAlreadyExists { device_id: d }) && d@ == device_id@),
            self.device_entries().len() < self.spec_config().max_devices && !self.device_map().dom().contains(
                device_id@,
            ) ==> r is Ok,
    {
        proof {
            use_type_invariant(self);
        }
        let n = self.devices.len();
        if n >= self.config.max_devices {
            return Err(Error::capacity_exceeded(n, self.config.max_devices, "devices"));
        }
        if self.devices.contains_key(device_id) {
            return Err(Error::DeviceAlreadyExists { device_id: device_id.to_owned() });
        }
        Ok(())
    }

    /// Adds an (initialized) device, refused as `check_new_device` refuses
    /// its id; on success the event to announce is handed back.
    pub fn add_device(&mut self, info: DeviceInfo) -> (r: Result<EngineEvent>)
        ensures
            final(self).spec_started() == old(self).spec_started(),
            final(self).spec_config() == old(self).spec_config(),
            final(self).spec_state() == old(self).spec_state(),
            final(self).ticks() == old(self).ticks(),
            final(self).shutdown_flag() == old(self).shutdown_flag(),
            r is Ok <==> (old(self).device_entries().len() < old(self).spec_config().max_devices
                && !old(self).device_map().dom().contains(info.id@)),
            r is Ok ==> final(self).device_map() == old(self).device_map().insert(info.id@, info),
            r is Ok ==> final(self).device_entries() == old(self).device_entries().push(
                (info.id@, info),
            ),
            r matches Ok(e) ==> (e matches EngineEvent::DeviceAdded { device_id, protocol }
                && device_id@ == info.id@ && protocol == info.protocol),
            r is Err ==> final(self).device_map() == old(self).device_map(),
            r is Err ==> final(self).device_entries() == old(self).device_entries(),
            old(self).device_entries().len() >= old(self).spec_config().max_devices ==> (r matches Err(
                Error::CapacityExceeded { current, max, resource },
            ) && current == old(self).device_entries().len() && max == old(self).spec_config().max_devices
                && resource@ == "devices"@),
            old(self).device_entries().len() < old(self).spec_config().max_devices && old(
                self,
            ).device_map().dom().contains(info.id@) ==> (r matches Err(
                Error::DeviceAlreadyExists { device_id: d },
            ) && d@ == info.id@),
    {
        proof {
            use_type_invariant(&*self);
        }
        match self.check_new_device(info.id.as_str()) {
            Err(e) => Err(e),
            Ok(()) => {
                let device_id = info.id.clone();
                let protocol = info.protocol;
                let event = EngineEvent::DeviceAdded { device_id: info.id.clone(), protocol };
                let mut devices: StrMap<DeviceInfo> = StrMap::new();
                std::mem::swap(&mut devices, &mut self.devices);
                devices.insert(device_id, info);
                self.devices = devices;
                Ok(event)
            },
        }
    }

    /// Removes a device: `DeviceNotFound` when no device has the id, else the
    /// event to announce.
    pub fn remove_device(&mut self, device_id: &str) -> (r: Result<EngineEvent>)
        ensures
            final(self).spec_started() == old(self).spec_started(),
            final(self).spec_config() == old(self).spec_config(),
            final(self).spec_state() == old(self).spec_state(),
            final(self).ticks() == old(self).ticks(),
            final(self).shutdown_flag() == old(self).shutdown_flag(),
            final(self).device_map() == old(self).device_map().remove(device_id@),
            r is Ok <==> old(self).device_map().dom().contains(device_id@),
            r matches Ok(e) ==> (e matches EngineEvent::DeviceRemoved { device_id: d } && d@
                == device_id@),
            r matches Err(e) ==> (e matches Error::DeviceNotFound { device_id: d } && d@
                == device_id@),
    {
        proof {
            use_type_invariant(&*self);
        }
        let mut devices: StrMap<DeviceInfo> = StrMap::new();
        std::mem::swap(&mut devices, &mut self.devices);
        let removed = devices.remove(device_id);
        self.devices = devices;
        match removed {
            Some(_) => {
                Ok(EngineEvent::DeviceRemoved { device_id: device_id.to_owned() })
            },
            None => Err(Error::device_not_found(device_id)),
        }
    }

    /// Replaces the information held for a device already present (such as
    /// its state after the device was started); `false` when there is none.
    pub fn refresh_device(&mut self, info: DeviceInfo) -> (r: bool)
        ensures
            final(self).spec_started() == old(self).spec_started(),
            final(self).spec_config() == old(self).spec_config(),
            final(self).spec_state() == old(self).spec_state(),
            final(self).ticks() == old(self).ticks(),
            final(self).shutdown_flag() == old(self).shutdown_flag(),
            r == old(self).device_map().dom().contains(info.id@),
            r ==> final(self).device_map() == old(self).device_map().insert(info.id@, info),
            !r ==> final(self).device_map() == old(self).device_map(),
    {
        proof {
            use_type_invariant(&*self);
        }
        match self.devices.find(info.id.as_str()) {
            Some(i) => {
                let k = self.devices.key_at(i);
                assert(k@ == info.id@);
                let mut devices: StrMap<DeviceInfo> = StrMap::new();
                std::mem::swap(&mut devices, &mut self.devices);
                devices.set_value_at(i, info);
                self.devices = devices;
                true
            },
            None => false,
        }
    }

    /// Information held for a device.
    pub fn device_info(&self, device_id: &str) -> (r: Option<&DeviceInfo>)
        ensures
            match r {
                Some(i) => self.device_map().dom().contains(device_id@) && *i == self.device_map()[device_id@],
                None => !self.device_map().dom().contains(device_id@),
            },
    {
        self.devices.get(device_id)
    }

    /// Information on every device, in the order they were added.
    pub fn list_devices(&self) -> (r: Vec<DeviceInfo>)
        ensures
            r@.len() == self.device_entries().len(),
            forall|i: int|
                0 <= i < r@.len() ==> same_info(#[trigger] r@[i], self.device_entries()[i].1),
    {
        let n = self.devices.len();
        let mut out: Vec<DeviceInfo> = Vec::new();
        let mut i: usize = 0;
        while i < n
            invariant
                n == self.devices.pairs().len(),
                i <= n,
                out@.len() == i,
                forall|j: int| 0 <= j < i ==> same_info(#[trigger] out@[j], self.devices.pairs()[j].1),
            decreases n - i,
        {
            out.push(self.devices.value_at(i).clone());
            i = i + 1;
        }
        out
    }

    /// Information on the devices of one protocol, in the order they were added.
    pub fn list_devices_by_protocol(&self, protocol: Protocol) -> (r: Vec<DeviceInfo>)
        ensures
            r@.len() == ids_with_protocol(self.device_entries(), protocol).len(),
            forall|i: int|
                0 <= i < r@.len() ==> (#[trigger] r@[i]).id@ == ids_with_protocol(
                    self.device_entries(),
                    protocol,
                )[i] && r@[i].protocol == protocol && self.device_map().dom().contains(r@[i].id@)
                    && same_info(r@[i], self.device_map()[r@[i].id@]),
    {
        proof {
            use_type_invariant(self);
        }
        let n = self.devices.len();
        let mut out: Vec<DeviceInfo> = Vec::new();
        let mut i: usize = 0;
        while i < n
            invariant
                n == self.devices.pairs().len(),
                i <= n,
                forall|k: Seq<char>| #[trigger]
                    self.devices.map().dom().contains(k) ==> self.devices.map()[k].id@ == k,
                out@.len() == ids_with_protocol(self.devices.pairs().subrange(0, i as int), protocol).len(),
                forall|j: int|
                    0 <= j < out@.len() ==> (#[trigger] out@[j]).id@ == ids_with_protocol(
                        self.devices.pairs().subrange(0, i as int),
                        protocol,
                    )[j] && out@[j].protocol == protocol && self.devices.map().dom().contains(
                        out@[j].id@,
                    ) && same_info(out@[j], self.devices.map()[out@[j].id@]),
            decreases n - i,
        {
            let ghost p = self.devices.pairs();
            proof {
                assert(p.subrange(0, i + 1).drop_last() =~= p.subrange(0, i as int));
            }
            let k = self.devices.key_at(i);
            let d = self.devices.value_at(i);
            if d.protocol == protocol {
                let c = d.clone();
                proof {
                    assert(self.devices.map()[k@] == *d);
                    assert(self.devices.map()[k@].id@ == k@);
                }
                out.push(c);
            }
            i = i + 1;
        }
        assert(self.devices.pairs().subrange(0, n as int) =~= self.devices.pairs());
        out
    }

    /// First step of starting: refused with `Engine("Engine is not stopped")`
    /// unless the engine is stopped; otherwise it is `Starting`, the shutdown
    /// flag is cleared and the uptime counts from now. The caller then starts
    /// the devices and calls `finish_start`.
    pub fn begin_start(&mut self) -> (r: Result<()>)
        ensures
            r is Ok ==> final(self).spec_started(),
            r is Err ==> final(self).spec_started() == old(self).spec_started(),
            final(self).spec_config() == old(self).spec_config(),
            final(self).device_map() == old(self).device_map(),
            final(self).device_entries() == old(self).device_entries(),
            final(self).ticks() == old(self).ticks(),
            r is Ok <==> old(self).spec_state() == EngineState::Stopped,
            r is Ok ==> final(self).spec_state() == EngineState::Starting && !final(self).shutdown_flag(),
            r matches Err(e) ==> (e matches Error::Engine(m) && m@ == "Engine is not stopped"@),
            r is Err ==> final(self).spec_state() == old(self).spec_state() && final(self).shutdown_flag()
                == old(self).shutdown_flag(),
    {
        proof {
            use_type_invariant(&*self);
        }
        if self.state != EngineState::Stopped {
            return Err(Error::Engine("Engine is not stopped".to_owned()));
        }
        self.state = EngineState::Starting;
        self.shutdown = false;
        self.start_time = Some(instant_now());
        Ok(())
    }

    /// Last step of starting: the engine is running; hands back the event.
    pub fn finish_start(&mut self) -> (r: EngineEvent)
        requires
            old(self).spec_state() == EngineState::Starting,
        ensures
            final(self).spec_started() == old(self).spec_started(),
            final(self).spec_state() == EngineState::Running,
            final(self).spec_config() == old(self).spec_config(),
            final(self).device_map() == old(self).device_map(),
            final(self).device_entries() == old(self).device_entries(),
            final(self).ticks() == old(self).ticks(),
            final(self).shutdown_flag() == old(self).shutdown_flag(),
            r is Started,
    {
        proof {
            use_type_invariant(&*self);
        }
        self.state = EngineState::Running;
        EngineEvent::Started
    }

    /// First step of stopping: refused with `Engine("Engine is not running")`
    /// unless the engine runs; otherwise it is `Stopping` and shutdown is
    /// requested. The caller then stops the devices and calls `finish_stop`.
    pub fn begin_stop(&mut self) -> (r: Result<()>)
        ensures
            final(self).spec_started() == old(self).spec_started(),
            final(self).spec_config() == old(self).spec_config(),
            final(self).device_map() == old(self).device_map(),
            final(self).device_entries() == old(self).device_entries(),
            final(self).ticks() == old(self).ticks(),
            r is Ok <==> old(self).spec_state() == EngineState::Running,
            r is Ok ==> final(self).spec_state() == EngineState::Stopping && final(self).shutdown_flag(),
            r matches Err(e) ==> (e matches Error::Engine(m) && m@ == "Engine is not running"@),
            r is Err ==> final(self).spec_state() == old(self).spec_state() && final(self).shutdown_flag()
                == old(self).shutdown_flag(),
    {
        proof {
            use_type_invariant(&*self);
        }
        if self.state != EngineState::Running {
            return Err(Error::Engine("Engine is not running".to_owned()));
        }
        self.state = EngineState::Stopping;
        self.shutdown = true;
        Ok(())
    }

    /// Last step of stopping: the engine is stopped; hands back the event.
    pub fn finish_stop(&mut self) -> (r: EngineEvent)
        requires
            old(self).spec_state() == EngineState::Stopping,
        ensures
            final(self).spec_started() == old(self).spec_started(),
            final(self).spec_state() == EngineState::Stopped,
            final(self).spec_config() == old(self).spec_config(),
            final(self).device_map() == old(self).device_map(),
            final(self).device_entries() == old(self).device_entries(),
            final(self).ticks() == old(self).ticks(),
            final(self).shutdown_flag() == old(self).shutdown_flag(),
            r is Stopped,
    {
        proof {
            use_type_invariant(&*self);
        }
        self.state = EngineState::Stopped;
        EngineEvent::Stopped
    }

    /// Counts a tick when the engine runs and hands back its number (counting
    /// from zero, modulo 2^64); `None`, with nothing changed, otherwise.
    pub fn begin_tick(&mut self) -> (r: Option<u64>)
        ensures
            final(self).spec_started() == old(self).spec_started(),
            final(self).spec_config() == old(self).spec_config(),
            final(self).spec_state() == old(self).spec_state(),
            final(self).device_map() == old(self).device_map(),
            final(self).device_entries() == old(self).device_entries(),
            final(self).shutdown_flag() == old(self).shutdown_flag(),
            r is Some <==> old(self).spec_state() == EngineState::Running,
            r matches Some(n) ==> n == old(self).ticks() && final(self).ticks() == (if old(self).ticks()
                == u64::MAX {
                0
            } else {
                old(self).ticks() + 1
            }),
            r is None ==> final(self).ticks() == old(self).ticks(),
    {
        proof {
            use_type_invariant(&*self);
        }
        if self.state != EngineState::Running {
            return None;
        }
        let n = self.tick_count;
        self.tick_count = self.tick_count.wrapping_add(1);
        Some(n)
    }

    /// Time since the engine was last started, if it ever was.
    pub fn uptime(&self) -> (r: Option<Duration>)
        ensures
            r is Some <==> self.spec_started(),
    {
        match &self.start_time {
            Some(t) => Some(elapsed_since(t)),
            None => None,
        }
    }

    /// Ticks processed.
    pub fn tick_count(&self) -> (r: u64)
        ensures
            r == self.ticks(),
    {
        self.tick_count
    }

    /// Whether shutdown was requested.
    pub fn is_shutdown_requested(&self) -> (r: bool)
        ensures
            r == self.shutdown_flag(),
    {
        self.shutdown
    }

    /// Requests shutdown; the run loop ends after the current tick.
    pub fn request_shutdown(&mut self)
        ensures
            final(self).spec_started() == old(self).spec_started(),
            final(self).shutdown_flag(),
            final(self).spec_config() == old(self).spec_config(),
            final(self).spec_state() == old(self).spec_state(),
            final(self).device_map() == old(self).device_map(),
            final(self).device_entries() == old(self).device_entries(),
            final(self).ticks() == old(self).ticks(),
    {
        proof {
            use_type_invariant(&*self);
        }
        self.shutdown = true;
    }
}

proof fn lemma_total_points_prefix(p: Seq<(Seq<char>, DeviceInfo)>, i: int)
    requires
        0 < i <= p.len(),
    ensures
        total_points(p.subrange(0, i)) == total_points(p.subrange(0, i - 1)) + p[i - 1].1.point_count,
        total_points(p.subrange(0, i)) <= total_points(p),
    decreases p.len() - i,
{
    assert(p.subrange(0, i).drop_last() =~= p.subrange(0, i - 1));
    if i < p.len() {
        lemma_total_points_prefix(p, i + 1);
    } else {
        assert(p.subrange(0, i) =~= p);
    }
}

/// Adding a device that was not there and then removing it leaves the
/// registry as it was; adding under a taken id is refused and changes nothing,
/// so every id names exactly one device.
pub proof fn lemma_add_then_remove(before: Map<Seq<char>, DeviceInfo>, info: DeviceInfo)
    requires
        !before.dom().contains(info.id@),
    ensures
        before.insert(info.id@, info).remove(info.id@) == before,
        before.insert(info.id@, info).dom().contains(info.id@),
        before.insert(info.id@, info)[info.id@] == info,
{
    assert(before.insert(info.id@, info).remove(info.id@) =~= before);
}

/// Starting a stopped engine and then stopping it brings it back to
/// `Stopped`: the four steps accept exactly these states, in this order.
pub proof fn lemma_start_stop_cycle(s: EngineState)
    ensures
        (s == EngineState::Stopped) == start_accepts(s),
        start_accepts(s) ==> stop_accepts(after_start(s)),
        start_accepts(s) ==> after_stop(after_start(s)) == EngineState::Stopped,
        !stop_accepts(EngineState::Stopped),
{
}

/// Whether `begin_start` accepts a state.
pub open spec fn start_accepts(s: EngineState) -> bool {
    s == EngineState::Stopped
}

/// Whether `begin_stop` accepts a state.
pub open spec fn stop_accepts(s: EngineState) -> bool {
    s == EngineState::Running
}

/// The state after `begin_start` and `finish_start`, on a state that is accepted.
pub open spec fn after_start(s: EngineState) -> EngineState {
    if start_accepts(s) {
        EngineState::Running
    } else {
        s
    }
}

/// The state after `begin_stop` and `finish_stop`, on a state that is accepted.
pub open spec fn after_stop(s: EngineState) -> EngineState {
    if stop_accepts(s) {
        EngineState::Stopped
    } else {
        s
    }
}

/// Builder for a simulator engine.
pub struct SimulatorEngineBuilder {
    config: EngineConfig,
}

/// Limits a preset sets: devices, points, tick interval in ms, and log level.
pub open spec fn preset_settings(p: EnginePreset) -> (usize, usize, u64, Seq<char>) {
    match p {
        EnginePreset::Development => (100, 10_000, 500, "debug"@),
        EnginePreset::Production => (50_000, 5_000_000, 100, "info"@),
        EnginePreset::Testing => (10, 100, 10, "trace"@),
        EnginePreset::StressTest => (100_000, 10_000_000, 50, "warn"@),
    }
}

impl Default for SimulatorEngineBuilder {
    fn default() -> (r: Self)
        ensures
            crate::config::engine::has_engine_defaults(r.built()),
    {
        SimulatorEngineBuilder { config: EngineConfig::default() }
    }
}

impl SimulatorEngineBuilder {
    /// The configuration the engine will be built with.
    pub closed spec fn built(&self) -> EngineConfig {
        self.config
    }

    /// A builder holding the default configuration.
    pub fn new() -> (r: Self)
        ensures
            crate::config::engine::has_engine_defaults(r.built()),
    {
        SimulatorEngineBuilder::default()
    }

    /// Sets the engine name.
    pub fn name(self, name: &str) -> (r: Self)
        ensures
            r.built().name@ == name@,
            r.built() == (EngineConfig { name: r.built().name, ..self.built() }),
    {
        let mut s = self;
        s.config.name = name.to_owned();
        s
    }

    /// Sets the maximum number of devices.
    pub fn max_devices(self, max: usize) -> (r: Self)
        ensures
            r.built() == (EngineConfig { max_devices: max, ..self.built() }),
    {
        let mut s = self;
        s.config.max_devices = max;
        s
    }

    /// Sets the maximum number of data points.
    pub fn max_points(self, max: usize) -> (r: Self)
        ensures
            r.built() == (EngineConfig { max_points: max, ..self.built() }),
    {
        let mut s = self;
        s.config.max_points = max;
        s
    }

    /// Sets the tick interval, in whole milliseconds (truncated to 64 bits).
    pub fn tick_interval(self, interval: Duration) -> (r: Self)
        ensures
            r.built() == (EngineConfig {
                tick_interval_ms: (interval@ / 1_000_000) as u64,
                ..self.built()
            }),
    {
        let ms = interval.as_millis();
        let mut s = self;
        #[verifier::truncate]
        let t = ms as u64;
        s.config.tick_interval_ms = t;
        s
    }

    /// Sets the tick interval in milliseconds.
    pub fn tick_interval_ms(self, ms: u64) -> (r: Self)
        ensures
            r.built() == (EngineConfig { tick_interval_ms: ms, ..self.built() }),
    {
        let mut s = self;
        s.config.tick_interval_ms = ms;
        s
    }

    /// Sets the number of worker threads.
    pub fn workers(self, count: usize) -> (r: Self)
        ensures
            r.built() == (EngineConfig { workers: count, ..self.built() }),
    {
        let mut s = self;
        s.config.workers = count;
        s
    }

    /// Enables or disables metrics collection.
    pub fn enable_metrics(self, enable: bool) -> (r: Self)
        ensures
            r.built() == (EngineConfig { enable_metrics: enable, ..self.built() }),
    {
        let mut s = self;
        s.config.enable_metrics = enable;
        s
    }

    /// Sets the metrics export interval, in whole seconds.
    pub fn metrics_interval(self, interval: Duration) -> (r: Self)
        ensures
            r.built() == (EngineConfig {
                metrics_interval_secs: (interval@ / 1_000_000_000) as u64,
                ..self.built()
            }),
    {
        let mut s = self;
        s.config.metrics_interval_secs = interval.as_secs();
        s
    }

    /// Sets the log level.
    pub fn log_level(self, level: &str) -> (r: Self)
        ensures
            r.built().log_level@ == level@,
            r.built() == (EngineConfig { log_level: r.built().log_level, ..self.built() }),
    {
        let mut s = self;
        s.config.log_level = level.to_owned();
        s
    }

    /// Applies a preset: the device and point limits, tick interval and log
    /// level it sets; the other settings stay.
    pub fn preset(self, preset: EnginePreset) -> (r: Self)
        ensures
            r.built().max_devices == preset_settings(preset).0,
            r.built().max_points == preset_settings(preset).1,
            r.built().tick_interval_ms == preset_settings(preset).2,
            r.built().log_level@ == preset_settings(preset).3,
            r.built() == (EngineConfig {
                max_devices: r.built().max_devices,
                max_points: r.built().max_points,
                tick_interval_ms: r.built().tick_interval_ms,
                log_level: r.built().log_level,
                ..self.built()
            }),
    {
        let mut s = self;
        match preset {
            EnginePreset::Development => {
                s.config.max_devices = 100;
                s.config.max_points = 10_000;
                s.config.tick_interval_ms = 500;
                s.config.log_level = "debug".to_owned();
            },
            EnginePreset::Production => {
                s.config.max_devices = 50_000;
                s.config.max_points = 5_000_000;
                s.config.tick_interval_ms = 100;
                s.config.log_level = "info".to_owned();
            },
            EnginePreset::Testing => {
                s.config.max_devices = 10;
                s.config.max_points = 100;
                s.config.tick_interval_ms = 10;
                s.config.log_level = "trace".to_owned();
            },
            EnginePreset::StressTest => {
                s.config.max_devices = 100_000;
                s.config.max_points = 10_000_000;
                s.config.tick_interval_ms = 50;
                s.config.log_level = "warn".to_owned();
            },
        }
        s
    }

    /// Uses an existing configuration.
    pub fn with_config(self, config: EngineConfig) -> (r: Self)
        ensures
            r.built() == config,
    {
        SimulatorEngineBuilder { config }
    }

    /// Builds a stopped engine with the configuration.
    pub fn build(self) -> (r: SimulatorEngine)
        ensures
            r.spec_config() == self.built(),
            r.spec_state() == EngineState::Stopped,
            r.device_map() == Map::<Seq<char>, DeviceInfo>::empty(),
            r.ticks() == 0,
    {
        SimulatorEngine::new(self.config)
    }
}

/// Shorthand for a new engine builder.
pub fn engine() -> (r: SimulatorEngineBuilder)
    ensures
        crate::config::engine::has_engine_defaults(r.built()),
{
    SimulatorEngineBuilder::new()
}

} // verus!
