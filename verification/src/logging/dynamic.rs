//! Log levels changed at runtime: the settings a level controller holds, the
//! filters they produce, and records of changes.
use vstd::prelude::*;

use crate::logging::config::{level_name, LogLevel};
use crate::strmap::StrMap;
use crate::text::{cat, join_seq, join_strings, texts};

verus! {

/// The levels a runtime level controller holds: a global level and
/// per-module overrides.
#[derive(Debug)]
pub struct LevelSettings {
    /// The global log level.
    pub current_level: LogLevel,
    /// Per-module log levels.
    pub module_levels: StrMap<LogLevel>,
}

/// The directives of the settings: the global level for `trap_sim`, then each
/// module level in order.
pub open spec fn level_directives(level: LogLevel, modules: Seq<(Seq<char>, LogLevel)>) -> Seq<Seq<char>> {
    seq!["trap_sim="@ + level_name(level)] + modules.map_values(
        |kv: (Seq<char>, LogLevel)| kv.0 + "="@ + level_name(kv.1),
    )
}

/// The filter the controller reloads: the directives, then `tokio=warn` and
/// `hyper=warn` where no module level names them.
pub open spec fn reload_filter(s: LevelSettings) -> Seq<char> {
    let dom = s.module_levels.map().dom();
    join_seq(level_directives(s.current_level, s.module_levels.pairs()), ","@)
        + (if dom.contains("tokio"@) { Seq::empty() } else { ",tokio=warn"@ })
        + (if dom.contains("hyper"@) { Seq::empty() } else { ",hyper=warn"@ })
}

impl LevelSettings {
    /// Settings with the given global level and no module levels.
    pub fn new(initial_level: LogLevel) -> (r: Self)
        ensures
            r.current_level == initial_level,
            r.module_levels.map() == Map::<Seq<char>, LogLevel>::empty(),
            r.module_levels.pairs().len() == 0,
    {
        LevelSettings { current_level: initial_level, module_levels: StrMap::new() }
    }

    /// Sets the global level.
    pub fn set_level(&mut self, level: LogLevel)
        ensures
            final(self).current_level == level,
            final(self).module_levels == old(self).module_levels,
    {
        self.current_level = level;
    }

    /// Sets the level of a module, replacing an earlier one.
    pub fn set_module_level(&mut self, module: &str, level: LogLevel)
        ensures
            final(self).current_level == old(self).current_level,
            final(self).module_levels.map() == old(self).module_levels.map().insert(module@, level),
    {
        self.module_levels.insert(module.to_owned(), level);
    }

    /// Removes the override of a module.
    pub fn remove_module_level(&mut self, module: &str)
        ensures
            final(self).current_level == old(self).current_level,
            final(self).module_levels.map() == old(self).module_levels.map().remove(module@),
    {
        let _ = self.module_levels.remove(module);
    }

    /// Removes every module override.
    pub fn clear_module_levels(&mut self)
        ensures
            final(self).current_level == old(self).current_level,
            final(self).module_levels.map() == Map::<Seq<char>, LogLevel>::empty(),
    {
        self.module_levels.clear();
    }

    /// The level a module had before: its override, if any.
    pub fn module_level(&self, module: &str) -> (r: Option<LogLevel>)
        ensures
            r == (if self.module_levels.map().dom().contains(module@) {
                Some(self.module_levels.map()[module@])
            } else {
                None
            }),
    {
        match self.module_levels.get(module) {
            Some(l) => Some(*l),
            None => None,
        }
    }

    /// The current filter: global and module directives joined with commas.
    pub fn current_filter_string(&self) -> (r: String)
        ensures
            r@ == join_seq(level_directives(self.current_level, self.module_levels.pairs()), ","@),
    {
        let parts = self.directives();
        join_strings(&parts, ",")
    }

    /// The filter to reload: the current filter with `tokio` and `hyper`
    /// quieted to warnings unless a module level names them.
    pub fn reload_filter_string(&self) -> (r: String)
        ensures
            r@ == reload_filter(*self),
    {
        let mut s = self.current_filter_string();
        if !self.module_levels.contains_key("tokio") {
            s = s.concat(",tokio=warn");
        }
        if !self.module_levels.contains_key("hyper") {
            s = s.concat(",hyper=warn");
        }
        s
    }

    fn directives(&self) -> (r: Vec<String>)
        ensures
            texts(r@) == level_directives(self.current_level, self.module_levels.pairs()),
    {
        let ghost ms = self.module_levels.pairs();
        let base = self.current_level.as_filter_str();
        let mut parts: Vec<String> = Vec::new();
        parts.push(cat("trap_sim=", base));
        let n = self.module_levels.len();
        let mut i: usize = 0;
        while i < n
            invariant
                n == ms.len(),
                ms == self.module_levels.pairs(),
                base@ == level_name(self.current_level),
                i <= n,
                texts(parts@) == level_directives(self.current_level, ms.subrange(0, i as int)),
            decreases n - i,
        {
            let k = self.module_levels.key_at(i);
            let v = self.module_levels.value_at(i);
            let d = cat(cat(k.as_str(), "=").as_str(), v.as_filter_str());
            let ghost before = texts(parts@);
            parts.push(d);
            proof {
                assert(texts(parts@) =~= before.push(d@));
                assert(ms.subrange(0, i + 1).drop_last() =~= ms.subrange(0, i as int));
                assert(level_directives(self.current_level, ms.subrange(0, i + 1)) =~= level_directives(
                    self.current_level,
                    ms.subrange(0, i as int),
                ).push(d@));
            }
            i = i + 1;
        }
        assert(ms.subrange(0, n as int) =~= ms);
        parts
    }
}

/// The override a module has in a map of module levels, if any.
pub open spec fn override_of(m: Map<Seq<char>, LogLevel>, module: Seq<char>) -> Option<LogLevel> {
    if m.dom().contains(module) {
        Some(m[module])
    } else {
        None
    }
}

/// The module levels after a module's earlier override is put back: set again
/// where there was one, removed where there was none.
pub open spec fn restored_modules(
    m: Map<Seq<char>, LogLevel>,
    module: Seq<char>,
    previous: Option<LogLevel>,
) -> Map<Seq<char>, LogLevel> {
    match previous {
        Some(l) => m.insert(module, l),
        None => m.remove(module),
    }
}

/// Tracing a module and then putting back the override it had before leaves
/// the module levels as they were.
pub proof fn lemma_module_trace_restores(m: Map<Seq<char>, LogLevel>, module: Seq<char>)
    ensures
        restored_modules(m.insert(module, LogLevel::Trace), module, override_of(m, module)) == m,
{
    let r = restored_modules(m.insert(module, LogLevel::Trace), module, override_of(m, module));
    assert(r =~= m);
}

/// What entering debug mode replaced: the global level and the module levels
/// of before.
#[derive(Debug)]
pub struct SavedLevels {
    /// The global level before debug mode.
    pub previous_level: LogLevel,
    /// The module levels before debug mode.
    pub previous_modules: StrMap<LogLevel>,
}

fn copy_levels(m: &StrMap<LogLevel>) -> (r: StrMap<LogLevel>)
    ensures
        r.pairs() == m.pairs(),
{
    let r = m.clone();
    assert forall|i: int| 0 <= i < m.pairs().len() implies r.pairs()[i] == m.pairs()[i] by {
        assert(r.key_seq()[i] == m.key_seq()[i]);
        assert(cloned::<LogLevel>(m.pairs()[i].1, r.pairs()[i].1));
    }
    assert(r.pairs() =~= m.pairs());
    r
}

impl LevelSettings {
    /// Raises the global level to debug, keeping the module levels, and
    /// returns what it replaced.
    pub fn enable_debug_mode(&mut self) -> (saved: SavedLevels)
        ensures
            final(self).current_level == LogLevel::Debug,
            final(self).module_levels.pairs() == old(self).module_levels.pairs(),
            saved.previous_level == old(self).current_level,
            saved.previous_modules.pairs() == old(self).module_levels.pairs(),
    {
        let saved = SavedLevels {
            previous_level: self.current_level,
            previous_modules: copy_levels(&self.module_levels),
        };
        self.set_level(LogLevel::Debug);
        saved
    }

    /// Puts back the levels saved when debug mode was entered.
    pub fn restore_debug_mode(&mut self, saved: SavedLevels)
        ensures
            final(self).current_level == saved.previous_level,
            final(self).module_levels.pairs() == saved.previous_modules.pairs(),
    {
        self.current_level = saved.previous_level;
        self.module_levels = saved.previous_modules;
    }

    /// Raises a module to trace and returns the override it had before.
    pub fn enable_module_trace(&mut self, module: &str) -> (previous: Option<LogLevel>)
        ensures
            previous == override_of(old(self).module_levels.map(), module@),
            final(self).current_level == old(self).current_level,
            final(self).module_levels.map() == old(self).module_levels.map().insert(module@, LogLevel::Trace),
    {
        let previous = self.module_level(module);
        self.set_module_level(module, LogLevel::Trace);
        previous
    }

    /// Puts back a module's earlier override, or removes the module's
    /// override where it had none.
    pub fn restore_module_trace(&mut self, module: &str, previous: Option<LogLevel>)
        ensures
            final(self).current_level == old(self).current_level,
            final(self).module_levels.map() == restored_modules(old(self).module_levels.map(), module@, previous),
    {
        match previous {
            Some(level) => self.set_module_level(module, level),
            None => self.remove_module_level(module),
        }
    }
}

/// Type of log level change.
#[derive(Debug, Clone, PartialEq, Eq)]
pub enum LevelChangeType {
    /// Global level change.
    Global,
    /// Module-specific level change.
    Module(String),
}

/// Level change event for observability.
#[derive(Debug)]
pub struct LevelChangeEvent {
    /// The type of change.
    pub change_type: LevelChangeType,
    /// Previous level (if applicable).
    pub previous_level: Option<LogLevel>,
    /// New level.
    pub new_level: LogLevel,
    /// Time of the change.
    pub timestamp: std::time::SystemTime,
}

/// Statistics about log level changes.
#[derive(Debug)]
pub struct LevelChangeStats {
    /// Total number of level changes.
    pub total_changes: u64,
    /// Number of global level changes.
    pub global_changes: u64,
    /// Number of module-specific changes.
    pub module_changes: u64,
    /// Time of the last change.
    pub last_change: Option<std::time::SystemTime>,
}

impl Default for LevelChangeStats {
    fn default() -> (r: Self)
        ensures
            r.total_changes == 0,
            r.global_changes == 0,
            r.module_changes == 0,
            r.last_change is None,
    {
        LevelChangeStats { total_changes: 0, global_changes: 0, module_changes: 0, last_change: None }
    }
}

} // verus!
