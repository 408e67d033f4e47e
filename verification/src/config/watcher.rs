//! Configuration sources and change events, and the decisions of the watcher
//! that distributes them: its state, its sources and its debouncing.
use vstd::prelude::*;

use crate::strmap::StrMap;
use crate::text::{cat, str_eq};

verus! {

/// Configuration source identifier.
#[derive(Debug, PartialEq, Eq, Hash)]
pub enum ConfigSource {
    /// Main simulator configuration file.
    Main(String),
    /// Device configuration file.
    Device(String),
    /// Scenario configuration file.
    Scenario(String),
    /// Protocol-specific configuration.
    Protocol { protocol: String, path: String },
    /// Custom configuration source.
    Custom { name: String, path: String },
}

impl Clone for ConfigSource {
    fn clone(&self) -> (r: Self)
        ensures
            r == *self,
    {
        match self {
            ConfigSource::Main(p) => ConfigSource::Main(p.clone()),
            ConfigSource::Device(p) => ConfigSource::Device(p.clone()),
            ConfigSource::Scenario(p) => ConfigSource::Scenario(p.clone()),
            ConfigSource::Protocol { protocol, path } => ConfigSource::Protocol {
                protocol: protocol.clone(),
                path: path.clone(),
            },
            ConfigSource::Custom { name, path } => ConfigSource::Custom {
                name: name.clone(),
                path: path.clone(),
            },
        }
    }
}

/// The path of a source.
pub open spec fn source_path(s: ConfigSource) -> Seq<char> {
    match s {
        ConfigSource::Main(p) => p@,
        ConfigSource::Device(p) => p@,
        ConfigSource::Scenario(p) => p@,
        ConfigSource::Protocol { path, .. } => path@,
        ConfigSource::Custom { path, .. } => path@,
    }
}

/// The descriptive name of a source.
pub open spec fn source_name(s: ConfigSource) -> Seq<char> {
    match s {
        ConfigSource::Main(_) => "main"@,
        ConfigSource::Device(_) => "device"@,
        ConfigSource::Scenario(_) => "scenario"@,
        ConfigSource::Protocol { protocol, .. } => "protocol:"@ + protocol@,
        ConfigSource::Custom { name, .. } => "custom:"@ + name@,
    }
}

impl ConfigSource {
    /// The path of this source.
    pub fn path(&self) -> (r: &String)
        ensures
            r@ == source_path(*self),
    {
        match self {
            ConfigSource::Main(p) => p,
            ConfigSource::Device(p) => p,
            ConfigSource::Scenario(p) => p,
            ConfigSource::Protocol { path, .. } => path,
            ConfigSource::Custom { path, .. } => path,
        }
    }

    /// A descriptive name for this source.
    pub fn name(&self) -> (r: String)
        ensures
            r@ == source_name(*self),
    {
        match self {
            ConfigSource::Main(_) => "main".to_owned(),
            ConfigSource::Device(_) => "device".to_owned(),
            ConfigSource::Scenario(_) => "scenario".to_owned(),
            ConfigSource::Protocol { protocol, .. } => cat("protocol:", protocol.as_str()),
            ConfigSource::Custom { name, .. } => cat("custom:", name.as_str()),
        }
    }
}

/// Configuration change event.
#[derive(Debug)]
pub enum ConfigEvent {
    /// Configuration file was created.
    Created { source: ConfigSource, timestamp: std::time::Instant },
    /// Configuration file was modified.
    Modified { source: ConfigSource, timestamp: std::time::Instant },
    /// Configuration file was deleted.
    Deleted { source: ConfigSource, timestamp: std::time::Instant },
    /// Configuration file was renamed.
    Renamed {
        source: ConfigSource,
        old_path: String,
        new_path: String,
        timestamp: std::time::Instant,
    },
    /// Error occurred while watching.
    Error { source: Option<ConfigSource>, message: String, timestamp: std::time::Instant },
    /// Configuration was reloaded successfully.
    Reloaded { source: ConfigSource, timestamp: std::time::Instant },
}

impl Clone for ConfigEvent {
    fn clone(&self) -> (r: Self)
        ensures
            r == *self,
    {
        match self {
            ConfigEvent::Created { source, timestamp } => ConfigEvent::Created {
                source: source.clone(),
                timestamp: *timestamp,
            },
            ConfigEvent::Modified { source, timestamp } => ConfigEvent::Modified {
                source: source.clone(),
                timestamp: *timestamp,
            },
            ConfigEvent::Deleted { source, timestamp } => ConfigEvent::Deleted {
                source: source.clone(),
                timestamp: *timestamp,
            },
            ConfigEvent::Renamed { source, old_path, new_path, timestamp } => ConfigEvent::Renamed {
                source: source.clone(),
                old_path: old_path.clone(),
                new_path: new_path.clone(),
                timestamp: *timestamp,
            },
            ConfigEvent::Error { source, message, timestamp } => ConfigEvent::Error {
                source: match source {
                    Some(s) => Some(s.clone()),
                    None => None,
                },
                message: message.clone(),
                timestamp: *timestamp,
            },
            ConfigEvent::Reloaded { source, timestamp } => ConfigEvent::Reloaded {
                source: source.clone(),
                timestamp: *timestamp,
            },
        }
    }
}

/// The source of an event, where it has one.
pub open spec fn event_source(e: ConfigEvent) -> Option<ConfigSource> {
    match e {
        ConfigEvent::Created { source, .. } => Some(source),
        ConfigEvent::Modified { source, .. } => Some(source),
        ConfigEvent::Deleted { source, .. } => Some(source),
        ConfigEvent::Renamed { source, .. } => Some(source),
        ConfigEvent::Error { source, .. } => source,
        ConfigEvent::Reloaded { source, .. } => Some(source),
    }
}

/// The time of an event.
pub open spec fn event_time(e: ConfigEvent) -> std::time::Instant {
    match e {
        ConfigEvent::Created { timestamp, .. } => timestamp,
        ConfigEvent::Modified { timestamp, .. } => timestamp,
        ConfigEvent::Deleted { timestamp, .. } => timestamp,
        ConfigEvent::Renamed { timestamp, .. } => timestamp,
        ConfigEvent::Error { timestamp, .. } => timestamp,
        ConfigEvent::Reloaded { timestamp, .. } => timestamp,
    }
}

impl ConfigEvent {
    /// The time of this event.
    pub fn timestamp(&self) -> (r: std::time::Instant)
        ensures
            r == event_time(*self),
    {
        match self {
            ConfigEvent::Created { timestamp, .. } => *timestamp,
            ConfigEvent::Modified { timestamp, .. } => *timestamp,
            ConfigEvent::Deleted { timestamp, .. } => *timestamp,
            ConfigEvent::Renamed { timestamp, .. } => *timestamp,
            ConfigEvent::Error { timestamp, .. } => *timestamp,
            ConfigEvent::Reloaded { timestamp, .. } => *timestamp,
        }
    }

    /// The source of this event, if it has one.
    pub fn source(&self) -> (r: Option<&ConfigSource>)
        ensures
            match event_source(*self) {
                Some(s) => r == Some(&s),
                None => r is None,
            },
    {
        match self {
            ConfigEvent::Created { source, .. } => Some(source),
            ConfigEvent::Modified { source, .. } => Some(source),
            ConfigEvent::Deleted { source, .. } => Some(source),
            ConfigEvent::Renamed { source, .. } => Some(source),
            ConfigEvent::Error { source, .. } => match source {
                Some(s) => Some(s),
                None => None,
            },
            ConfigEvent::Reloaded { source, .. } => Some(source),
        }
    }

    /// Whether this is an error event.
    pub fn is_error(&self) -> (r: bool)
        ensures
            r == (*self is Error),
    {
        matches!(self, ConfigEvent::Error { .. })
    }
}

/// Handler of configuration events, for users to implement.
pub trait ConfigEventHandler: Send + Sync {
    /// Called when a configuration event occurs.
    fn on_config_change(&self, event: ConfigEvent);

    /// Called before configuration reload; false cancels the reload.
    fn before_reload(&self, source: &ConfigSource) -> bool {
        true
    }

    /// Called after a successful configuration reload.
    fn after_reload(&self, source: &ConfigSource) {
    }
}

/// Event handler that forwards every event to a closure.
pub struct CallbackHandler<F: Fn(ConfigEvent) + Send + Sync> {
    callback: F,
}

impl<F: Fn(ConfigEvent) + Send + Sync> CallbackHandler<F> {
    #[verifier::type_invariant]
    spec fn callable(self) -> bool {
        forall|e: ConfigEvent| #[trigger] self.callback.requires((e,))
    }

    /// A handler around a closure that accepts every event.
    pub fn new(callback: F) -> (r: Self)
        requires
            forall|e: ConfigEvent| #[trigger] callback.requires((e,)),
    {
        CallbackHandler { callback }
    }
}

impl<F: Fn(ConfigEvent) + Send + Sync> ConfigEventHandler for CallbackHandler<F> {
    fn on_config_change(&self, event: ConfigEvent) {
        proof {
            use_type_invariant(self);
        }
        (self.callback)(event);
    }
}

/// Configuration watcher state.
#[derive(Debug, Clone, Copy, PartialEq, Eq, Structural)]
pub enum WatcherState {
    /// Watcher is stopped.
    Stopped,
    /// Watcher is running.
    Running,
    /// Watcher is paused (events are queued but not processed).
    Paused,
}

/// Whether the sources hold distinct paths.
pub open spec fn paths_distinct(s: Seq<ConfigSource>) -> bool {
    forall|i: int, j: int|
        0 <= i < j < s.len() ==> source_path(#[trigger] s[i]) != source_path(#[trigger] s[j])
}

/// What the configuration watcher decides on: its state, the sources it
/// knows, its debounce interval, when each source last had an event passed on
/// (in milliseconds on the watcher's own clock), and the events queued while
/// paused.
#[derive(Debug)]
pub struct WatcherCore {
    state: WatcherState,
    sources: Vec<ConfigSource>,
    debounce_ms: u64,
    last_events: StrMap<u64>,
    pending: Vec<ConfigEvent>,
}

impl WatcherCore {
    /// Paths stay distinct, and events wait in the queue only while paused.
    #[verifier::type_invariant]
    spec fn wf(self) -> bool {
        &&& paths_distinct(self.sources@)
        &&& self.state != WatcherState::Paused ==> self.pending@.len() == 0
    }

    /// The events queued while paused, oldest first.
    pub closed spec fn spec_pending(&self) -> Seq<ConfigEvent> {
        self.pending@
    }

    /// The current state.
    pub closed spec fn spec_state(&self) -> WatcherState {
        self.state
    }

    /// The registered sources, in order of registration.
    pub closed spec fn spec_sources(&self) -> Seq<ConfigSource> {
        self.sources@
    }

    /// The debounce interval in milliseconds.
    pub closed spec fn spec_debounce(&self) -> u64 {
        self.debounce_ms
    }

    /// When each source name last had an event passed on.
    pub closed spec fn spec_last(&self) -> Map<Seq<char>, u64> {
        self.last_events.map()
    }

    /// A stopped watcher with no sources and a debounce of 100 ms.
    pub fn new() -> (r: Self)
        ensures
            r.spec_state() == WatcherState::Stopped,
            r.spec_sources() == Seq::<ConfigSource>::empty(),
            r.spec_debounce() == 100,
            r.spec_last() == Map::<Seq<char>, u64>::empty(),
            r.spec_pending() == Seq::<ConfigEvent>::empty(),
    {
        WatcherCore::with_debounce(100)
    }

    /// A stopped watcher with the given debounce interval.
    pub fn with_debounce(debounce_ms: u64) -> (r: Self)
        ensures
            r.spec_state() == WatcherState::Stopped,
            r.spec_sources() == Seq::<ConfigSource>::empty(),
            r.spec_debounce() == debounce_ms,
            r.spec_last() == Map::<Seq<char>, u64>::empty(),
            r.spec_pending() == Seq::<ConfigEvent>::empty(),
    {
        let r = WatcherCore {
            state: WatcherState::Stopped,
            sources: Vec::new(),
            debounce_ms,
            last_events: StrMap::new(),
            pending: Vec::new(),
        };
        assert(r.spec_sources() =~= Seq::<ConfigSource>::empty());
        assert(r.spec_pending() =~= Seq::<ConfigEvent>::empty());
        r
    }

    /// The current state.
    pub fn state(&self) -> (r: WatcherState)
        ensures
            r == self.spec_state(),
    {
        self.state
    }

    /// Takes the queued events out, leaving the queue empty.
    fn take_pending(&mut self, s: WatcherState) -> (released: Vec<ConfigEvent>)
        requires
            s != WatcherState::Paused,
        ensures
            released@ == old(self).spec_pending(),
            final(self).spec_pending() == Seq::<ConfigEvent>::empty(),
            final(self).spec_state() == s,
            final(self).spec_sources() == old(self).spec_sources(),
            final(self).spec_debounce() == old(self).spec_debounce(),
            final(self).spec_last() == old(self).spec_last(),
    {
        proof {
            use_type_invariant(&*self);
        }
        let mut released: Vec<ConfigEvent> = Vec::new();
        std::mem::swap(&mut released, &mut self.pending);
        self.state = s;
        released
    }

    /// Starts the watcher; events queued while paused are handed back to be
    /// processed, oldest first.
    pub fn start(&mut self) -> (released: Vec<ConfigEvent>)
        ensures
            final(self).spec_state() == WatcherState::Running,
            released@ == old(self).spec_pending(),
            final(self).spec_pending() == Seq::<ConfigEvent>::empty(),
            final(self).spec_sources() == old(self).spec_sources(),
            final(self).spec_last() == old(self).spec_last(),
            paths_distinct(final(self).spec_sources()),
    {
        let released = self.take_pending(WatcherState::Running);
        proof {
            use_type_invariant(&*self);
        }
        released
    }

    /// Stops the watcher; events queued while paused are dropped.
    pub fn stop(&mut self)
        ensures
            final(self).spec_state() == WatcherState::Stopped,
            final(self).spec_pending() == Seq::<ConfigEvent>::empty(),
            final(self).spec_sources() == old(self).spec_sources(),
            final(self).spec_last() == old(self).spec_last(),
            paths_distinct(final(self).spec_sources()),
    {
        let _ = self.take_pending(WatcherState::Stopped);
        proof {
            use_type_invariant(&*self);
        }
    }

    /// Pauses the watcher: events are queued, not passed on, until it resumes.
    pub fn pause(&mut self)
        ensures
            final(self).spec_state() == WatcherState::Paused,
            final(self).spec_pending() == old(self).spec_pending(),
            final(self).spec_sources() == old(self).spec_sources(),
            final(self).spec_last() == old(self).spec_last(),
            paths_distinct(final(self).spec_sources()),
    {
        proof {
            use_type_invariant(&*self);
        }
        self.state = WatcherState::Paused;
    }

    /// Resumes the watcher; the events queued while paused are handed back to
    /// be processed, oldest first.
    pub fn resume(&mut self) -> (released: Vec<ConfigEvent>)
        ensures
            final(self).spec_state() == WatcherState::Running,
            released@ == old(self).spec_pending(),
            final(self).spec_pending() == Seq::<ConfigEvent>::empty(),
            final(self).spec_sources() == old(self).spec_sources(),
            final(self).spec_last() == old(self).spec_last(),
            paths_distinct(final(self).spec_sources()),
    {
        let released = self.take_pending(WatcherState::Running);
        proof {
            use_type_invariant(&*self);
        }
        released
    }

    /// Registers a source, unless one with the same path is registered.
    pub fn register(&mut self, source: ConfigSource)
        ensures
            (exists|i: int|
                0 <= i < old(self).spec_sources().len() && source_path(old(self).spec_sources()[i])
                    == source_path(source)) ==> final(self).spec_sources() == old(self).spec_sources(),
            (forall|i: int|
                0 <= i < old(self).spec_sources().len() ==> source_path(old(self).spec_sources()[i])
                    != source_path(source)) ==> final(self).spec_sources() == old(
                self,
            ).spec_sources().push(source),
            final(self).spec_state() == old(self).spec_state(),
            final(self).spec_last() == old(self).spec_last(),
            final(self).spec_pending() == old(self).spec_pending(),
            paths_distinct(final(self).spec_sources()),
    {
        proof {
            use_type_invariant(&*self);
        }
        let mut i: usize = 0;
        while i < self.sources.len()
            invariant
                i <= self.sources@.len(),
                *self == *old(self),
                paths_distinct(self.sources@),
                self.state != WatcherState::Paused ==> self.pending@.len() == 0,
                forall|j: int| 0 <= j < i ==> source_path(self.sources@[j]) != source_path(source),
            decreases self.sources@.len() - i,
        {
            if str_eq(self.sources[i].path().as_str(), source.path().as_str()) {
                return;
            }
            i = i + 1;
        }
        let mut v: Vec<ConfigSource> = Vec::new();
        std::mem::swap(&mut v, &mut self.sources);
        v.push(source);
        self.sources = v;
        proof {
            use_type_invariant(&*self);
        }
    }

    /// Unregisters the source with the given path (paths are distinct, so
    /// there is at most one).
    pub fn unregister(&mut self, path: &str)
        ensures
            (forall|i: int|
                0 <= i < old(self).spec_sources().len() ==> source_path(old(self).spec_sources()[i])
                    != path@) ==> final(self).spec_sources() == old(self).spec_sources(),
            forall|i: int|
                0 <= i < old(self).spec_sources().len() && source_path(old(self).spec_sources()[i])
                    == path@ ==> final(self).spec_sources() == old(self).spec_sources().remove(i),
            final(self).spec_state() == old(self).spec_state(),
            final(self).spec_last() == old(self).spec_last(),
            final(self).spec_pending() == old(self).spec_pending(),
            paths_distinct(final(self).spec_sources()),
    {
        proof {
            use_type_invariant(&*self);
        }
        let ghost orig = self.sources@;
        let mut i: usize = 0;
        while i < self.sources.len()
            invariant
                orig == self.sources@,
                *self == *old(self),
                paths_distinct(orig),
                self.state != WatcherState::Paused ==> self.pending@.len() == 0,
                i <= orig.len(),
                forall|j: int| 0 <= j < i ==> source_path(orig[j]) != path@,
            decreases orig.len() - i,
        {
            if str_eq(self.sources[i].path().as_str(), path) {
                let mut v: Vec<ConfigSource> = Vec::new();
                std::mem::swap(&mut v, &mut self.sources);
                v.remove(i);
                proof {
                    let r = orig.remove(i as int);
                    assert(v@ == r);
                    assert forall|a: int, b: int| 0 <= a < b < r.len() implies source_path(
                        #[trigger] r[a],
                    ) != source_path(#[trigger] r[b]) by {
                        let a2 = if a < i { a } else { a + 1 };
                        let b2 = if b < i { b } else { b + 1 };
                        assert(r[a] == orig[a2]);
                        assert(r[b] == orig[b2]);
                    }
                    assert forall|k: int|
                        0 <= k < orig.len() && source_path(orig[k]) == path@ implies k == i by {
                        if k != i {
                            if k < i {
                                assert(source_path(orig[k]) != source_path(orig[i as int]));
                            } else {
                                assert(source_path(orig[i as int]) != source_path(orig[k]));
                            }
                        }
                    }
                }
                self.sources = v;
                proof {
                    use_type_invariant(&*self);
                }
                return;
            }
            i = i + 1;
        }
    }

    /// All registered sources, in order of registration.
    pub fn sources(&self) -> (r: Vec<ConfigSource>)
        ensures
            r@ == self.spec_sources(),
            paths_distinct(r@),
    {
        proof {
            use_type_invariant(self);
        }
        let mut out: Vec<ConfigSource> = Vec::new();
        let mut i: usize = 0;
        while i < self.sources.len()
            invariant
                i <= self.sources@.len(),
                out@ == self.sources@.subrange(0, i as int),
            decreases self.sources@.len() - i,
        {
            out.push(self.sources[i].clone());
            i = i + 1;
            assert(out@ =~= self.sources@.subrange(0, i as int));
        }
        assert(self.sources@.subrange(0, self.sources@.len() as int) =~= self.sources@);
        out
    }

    /// Decides whether an event, arriving at `now_ms`, is passed on: while
    /// paused it is queued instead, while stopped it is dropped; while running,
    /// an event with a source passes only when no event of a source with the
    /// same name was passed on less than the debounce interval before, and a
    /// passed event's source name is stamped with `now_ms`.
    pub fn passes(&mut self, event: &ConfigEvent, now_ms: u64) -> (r: bool)
        ensures
            final(self).spec_state() == old(self).spec_state(),
            final(self).spec_sources() == old(self).spec_sources(),
            final(self).spec_debounce() == old(self).spec_debounce(),
            old(self).spec_state() == WatcherState::Paused ==> !r && final(self).spec_last() == old(
                self,
            ).spec_last() && final(self).spec_pending() == old(self).spec_pending().push(*event),
            old(self).spec_state() == WatcherState::Stopped ==> !r && final(self).spec_last() == old(
                self,
            ).spec_last() && final(self).spec_pending() == old(self).spec_pending(),
            old(self).spec_state() == WatcherState::Running ==> final(self).spec_pending() == old(
                self,
            ).spec_pending(),
            old(self).spec_state() == WatcherState::Running ==> match event_source(*event) {
                None => r && final(self).spec_last() == old(self).spec_last(),
                Some(s) => {
                    let k = source_name(s);
                    let last = old(self).spec_last();
                    if last.contains_key(k) && (if now_ms >= last[k] {
                        now_ms - last[k]
                    } else {
                        0
                    }) < old(self).spec_debounce() {
                        !r && final(self).spec_last() == last
                    } else {
                        r && final(self).spec_last() == last.insert(k, now_ms)
                    }
                },
            },
    {
        proof {
            use_type_invariant(&*self);
        }
        if self.state == WatcherState::Paused {
            let queued = event.clone();
            let mut pending: Vec<ConfigEvent> = Vec::new();
            std::mem::swap(&mut pending, &mut self.pending);
            pending.push(queued);
            self.pending = pending;
            return false;
        }
        if self.state != WatcherState::Running {
            return false;
        }
        match event.source() {
            None => true,
            Some(source) => {
                let key = source.name();
                match self.last_events.get(key.as_str()) {
                    Some(last) => {
                        let since = now_ms.saturating_sub(*last);
                        if since < self.debounce_ms {
                            return false;
                        }
                    },
                    None => {},
                }
                let mut last_events: StrMap<u64> = StrMap::new();
                std::mem::swap(&mut last_events, &mut self.last_events);
                last_events.insert(key, now_ms);
                self.last_events = last_events;
                true
            },
        }
    }
}

} // verus!
