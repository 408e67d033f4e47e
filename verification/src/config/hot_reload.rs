//! Hot reload of the engine configuration: the strategy, the changes between
//! two configurations, and what a reload does with a newly loaded one.
use vstd::prelude::*;

use crate::config::engine::{engine_issues, lemma_concat_contains, report_all, EngineConfig};
use crate::config::validation::Validatable;
use crate::config::watcher::{event_source, source_path, ConfigEvent};
use crate::error::{spec_error_text, spec_validation_message, Error, Result};
use crate::text::{dec, dec_int, i64_to_text, u64_to_text, usize_to_text};

verus! {

/// Strategy for applying configuration reloads.
#[derive(Debug, Clone, Copy, PartialEq, Eq, Structural)]
pub enum ReloadStrategy {
    /// Validate configuration before applying.
    ValidateFirst,
    /// Apply immediately without validation (not recommended).
    Immediate,
    /// Only log changes, don't apply (dry-run mode).
    DryRun,
}

impl Default for ReloadStrategy {
    fn default() -> (r: Self)
        ensures
            r == ReloadStrategy::ValidateFirst,
    {
        ReloadStrategy::ValidateFirst
    }
}

/// Events emitted during hot reload.
#[derive(Debug, Clone)]
pub enum ReloadEvent {
    /// Configuration file changed (before processing).
    FileChanged { path: String },
    /// Configuration successfully reloaded.
    Reloaded { path: String, changes: Vec<ConfigChange> },
    /// Configuration reload failed.
    Failed { path: String, error: String },
    /// Validation failed (dry-run or ValidateFirst).
    ValidationFailed { path: String, errors: Vec<String> },
    /// Configuration rollback occurred.
    RolledBack { path: String, reason: String },
}

/// A value rendered as the text of a configuration change, as `to_string` does.
pub trait ChangeText {
    /// The text of the value.
    spec fn spec_change_text(&self) -> Seq<char>;

    /// The text of the value.
    fn change_text(&self) -> (r: String)
        ensures
            r@ == self.spec_change_text(),
    ;
}

impl ChangeText for usize {
    open spec fn spec_change_text(&self) -> Seq<char> {
        dec(*self as nat)
    }

    fn change_text(&self) -> (r: String) {
        usize_to_text(*self)
    }
}

impl ChangeText for u64 {
    open spec fn spec_change_text(&self) -> Seq<char> {
        dec(*self as nat)
    }

    fn change_text(&self) -> (r: String) {
        u64_to_text(*self)
    }
}

impl ChangeText for i32 {
    open spec fn spec_change_text(&self) -> Seq<char> {
        dec_int(*self as int)
    }

    fn change_text(&self) -> (r: String) {
        i64_to_text(*self as i64)
    }
}

impl ChangeText for bool {
    open spec fn spec_change_text(&self) -> Seq<char> {
        if *self {
            "true"@
        } else {
            "false"@
        }
    }

    fn change_text(&self) -> (r: String) {
        if *self {
            "true".to_owned()
        } else {
            "false".to_owned()
        }
    }
}

impl<'a> ChangeText for &'a str {
    open spec fn spec_change_text(&self) -> Seq<char> {
        (*self)@
    }

    fn change_text(&self) -> (r: String) {
        (*self).to_owned()
    }
}

/// Describes a configuration change.
#[derive(Debug, Clone)]
pub struct ConfigChange {
    /// Field path that changed.
    pub field: String,
    /// Old value (as text).
    pub old_value: String,
    /// New value (as text).
    pub new_value: String,
}

impl ConfigChange {
    /// A change of a field from one value to another, both kept as text.
    pub fn new<O: ChangeText, N: ChangeText>(field: &str, before: O, after: N) -> (r: Self)
        ensures
            r.field@ == field@,
            r.old_value@ == before.spec_change_text(),
            r.new_value@ == after.spec_change_text(),
    {
        ConfigChange {
            field: field.to_owned(),
            old_value: before.change_text(),
            new_value: after.change_text(),
        }
    }
}

/// A change as text: the field, the old and the new value.
pub open spec fn change_view(c: ConfigChange) -> (Seq<char>, Seq<char>, Seq<char>) {
    (c.field@, c.old_value@, c.new_value@)
}

/// One change when the values differ, none otherwise.
pub open spec fn change_if(
    differs: bool,
    field: Seq<char>,
    before: Seq<char>,
    after: Seq<char>,
) -> Seq<(Seq<char>, Seq<char>, Seq<char>)> {
    if differs {
        seq![(field, before, after)]
    } else {
        Seq::empty()
    }
}

/// The changes from one engine configuration to another, field by field in
/// declaration order (protocols are not compared).
pub open spec fn engine_changes(a: EngineConfig, b: EngineConfig) -> Seq<(Seq<char>, Seq<char>, Seq<char>)> {
    Seq::empty()
        + change_if(a.name@ != b.name@, "name"@, a.name@, b.name@)
        + change_if(a.max_devices != b.max_devices, "max_devices"@, dec(a.max_devices as nat), dec(b.max_devices as nat))
        + change_if(a.max_points != b.max_points, "max_points"@, dec(a.max_points as nat), dec(b.max_points as nat))
        + change_if(
            a.tick_interval_ms != b.tick_interval_ms,
            "tick_interval_ms"@,
            dec(a.tick_interval_ms as nat),
            dec(b.tick_interval_ms as nat),
        )
        + change_if(a.workers != b.workers, "workers"@, dec(a.workers as nat), dec(b.workers as nat))
        + change_if(
            a.enable_metrics != b.enable_metrics,
            "enable_metrics"@,
            a.enable_metrics.spec_change_text(),
            b.enable_metrics.spec_change_text(),
        )
        + change_if(
            a.metrics_interval_secs != b.metrics_interval_secs,
            "metrics_interval_secs"@,
            dec(a.metrics_interval_secs as nat),
            dec(b.metrics_interval_secs as nat),
        )
        + change_if(a.log_level@ != b.log_level@, "log_level"@, a.log_level@, b.log_level@)
}

/// A change that is reported is in its one-element list.
broadcast proof fn lemma_change_listed(differs: bool, f: Seq<char>, before: Seq<char>, after: Seq<char>)
    ensures
        differs ==> #[trigger] change_if(differs, f, before, after).contains((f, before, after)),
{
    if differs {
        assert(change_if(differs, f, before, after)[0] == (f, before, after));
    }
}

/// Every compared field that differs between two configurations is reported
/// as a change of that field from its old value to its new one, and no change
/// is reported exactly when all compared fields are equal.
pub proof fn lemma_every_difference_reported(a: EngineConfig, b: EngineConfig)
    ensures
        a.name@ != b.name@ ==> engine_changes(a, b).contains(("name"@, a.name@, b.name@)),
        a.max_devices != b.max_devices ==> engine_changes(a, b).contains(
            ("max_devices"@, dec(a.max_devices as nat), dec(b.max_devices as nat)),
        ),
        a.max_points != b.max_points ==> engine_changes(a, b).contains(
            ("max_points"@, dec(a.max_points as nat), dec(b.max_points as nat)),
        ),
        a.tick_interval_ms != b.tick_interval_ms ==> engine_changes(a, b).contains(
            ("tick_interval_ms"@, dec(a.tick_interval_ms as nat), dec(b.tick_interval_ms as nat)),
        ),
        a.workers != b.workers ==> engine_changes(a, b).contains(
            ("workers"@, dec(a.workers as nat), dec(b.workers as nat)),
        ),
        a.enable_metrics != b.enable_metrics ==> engine_changes(a, b).contains(
            ("enable_metrics"@, a.enable_metrics.spec_change_text(), b.enable_metrics.spec_change_text()),
        ),
        a.metrics_interval_secs != b.metrics_interval_secs ==> engine_changes(a, b).contains(
            ("metrics_interval_secs"@, dec(a.metrics_interval_secs as nat), dec(b.metrics_interval_secs as nat)),
        ),
        a.log_level@ != b.log_level@ ==> engine_changes(a, b).contains(("log_level"@, a.log_level@, b.log_level@)),
        engine_changes(a, b).len() == 0 <==> {
            &&& a.name@ == b.name@
            &&& a.max_devices == b.max_devices
            &&& a.max_points == b.max_points
            &&& a.tick_interval_ms == b.tick_interval_ms
            &&& a.workers == b.workers
            &&& a.enable_metrics == b.enable_metrics
            &&& a.metrics_interval_secs == b.metrics_interval_secs
            &&& a.log_level@ == b.log_level@
        },
{
    broadcast use lemma_concat_contains, lemma_change_listed;
}

/// The changes of a list, as text.
pub open spec fn changes_view(v: Seq<ConfigChange>) -> Seq<(Seq<char>, Seq<char>, Seq<char>)> {
    v.map_values(|c: ConfigChange| change_view(c))
}

fn push_change_if<O: ChangeText, N: ChangeText>(
    changes: &mut Vec<ConfigChange>,
    differs: bool,
    field: &str,
    before: O,
    after: N,
)
    ensures
        changes_view(final(changes)@) == changes_view(old(changes)@) + change_if(
            differs,
            field@,
            before.spec_change_text(),
            after.spec_change_text(),
        ),
{
    if differs {
        changes.push(ConfigChange::new(field, before, after));
    }
    assert(changes_view(changes@) =~= changes_view(old(changes)@) + change_if(
        differs,
        field@,
        before.spec_change_text(),
        after.spec_change_text(),
    ));
}

/// The changes from the current configuration to a new one (see [`engine_changes`]).
pub fn detect_changes(current: &EngineConfig, new_config: &EngineConfig) -> (r: Vec<ConfigChange>)
    ensures
        changes_view(r@) == engine_changes(*current, *new_config),
{
    let mut changes: Vec<ConfigChange> = Vec::new();
    assert(changes_view(changes@) =~= Seq::<(Seq<char>, Seq<char>, Seq<char>)>::empty());
    let name_differs = current.name != new_config.name;
    push_change_if(&mut changes, name_differs, "name", current.name.as_str(), new_config.name.as_str());
    push_change_if(
        &mut changes,
        current.max_devices != new_config.max_devices,
        "max_devices",
        current.max_devices,
        new_config.max_devices,
    );
    push_change_if(
        &mut changes,
        current.max_points != new_config.max_points,
        "max_points",
        current.max_points,
        new_config.max_points,
    );
    push_change_if(
        &mut changes,
        current.tick_interval_ms != new_config.tick_interval_ms,
        "tick_interval_ms",
        current.tick_interval_ms,
        new_config.tick_interval_ms,
    );
    push_change_if(
        &mut changes,
        current.workers != new_config.workers,
        "workers",
        current.workers,
        new_config.workers,
    );
    push_change_if(
        &mut changes,
        current.enable_metrics != new_config.enable_metrics,
        "enable_metrics",
        current.enable_metrics,
        new_config.enable_metrics,
    );
    push_change_if(
        &mut changes,
        current.metrics_interval_secs != new_config.metrics_interval_secs,
        "metrics_interval_secs",
        current.metrics_interval_secs,
        new_config.metrics_interval_secs,
    );
    let level_differs = current.log_level != new_config.log_level;
    push_change_if(
        &mut changes,
        level_differs,
        "log_level",
        current.log_level.as_str(),
        new_config.log_level.as_str(),
    );
    changes
}

/// A configuration compared with itself has no changes.
pub proof fn lemma_no_changes_to_self(c: EngineConfig)
    ensures
        engine_changes(c, c).len() == 0,
{
    assert(engine_changes(c, c) =~= Seq::empty());
}

/// What a reload does with a newly loaded configuration.
#[derive(Debug)]
pub enum ReloadPlan {
    /// Validation refused it: the error is returned and reported.
    Invalid(Error),
    /// Dry run: the changes are reported, nothing is applied.
    Preview(Vec<ConfigChange>),
    /// The configuration is applied, with these changes.
    Apply(Vec<ConfigChange>),
}

/// Decides what a reload does with a newly loaded configuration: under
/// `ValidateFirst` an invalid one is refused with its validation error; under
/// `DryRun` the changes are only reported; otherwise they are applied.
pub fn plan_reload(strategy: ReloadStrategy, current: &EngineConfig, new_config: &EngineConfig) -> (r: ReloadPlan)
    ensures
        strategy == ReloadStrategy::ValidateFirst && engine_issues(*new_config).len() > 0 ==> (r matches ReloadPlan::Invalid(
            e,
        ) && e is Validation),
        !(strategy == ReloadStrategy::ValidateFirst && engine_issues(*new_config).len() > 0) ==> match r {
            ReloadPlan::Preview(c) => strategy == ReloadStrategy::DryRun && changes_view(c@)
                == engine_changes(*current, *new_config),
            ReloadPlan::Apply(c) => strategy != ReloadStrategy::DryRun && changes_view(c@)
                == engine_changes(*current, *new_config),
            ReloadPlan::Invalid(_) => false,
        },
{
    if strategy == ReloadStrategy::ValidateFirst {
        match new_config.validate() {
            Err(e) => {
                return ReloadPlan::Invalid(e);
            },
            Ok(()) => {},
        }
    }
    let changes = detect_changes(current, new_config);
    if strategy == ReloadStrategy::DryRun {
        ReloadPlan::Preview(changes)
    } else {
        ReloadPlan::Apply(changes)
    }
}

/// The path a configuration event asks to reload: that of the source of a
/// created or modified file; other events reload nothing.
pub fn reload_target(event: &ConfigEvent) -> (r: Option<String>)
    ensures
        (*event is Created || *event is Modified) ==> (r matches Some(p) && event_source(*event)
            matches Some(s) && p@ == source_path(s)),
        !(*event is Created || *event is Modified) ==> r is None,
{
    match event {
        ConfigEvent::Created { source, .. } => Some(source.path().clone()),
        ConfigEvent::Modified { source, .. } => Some(source.path().clone()),
        _ => None,
    }
}

/// What the background reload loop does with a configuration it loaded after
/// a change: under `ValidateFirst` an invalid one is reported (as the text of
/// its validation error) and skipped; otherwise it is taken, and applied
/// unless in dry-run mode.
#[derive(Debug)]
pub enum LoadedAction {
    /// Report the validation failure with this message and skip the file.
    ValidationFailed(String),
    /// Report the reload; apply the configuration when `apply` is set.
    Reloaded { apply: bool },
}

/// Decides what the background reload loop does with a loaded configuration
/// (see [`LoadedAction`]).
pub fn on_loaded(strategy: ReloadStrategy, new_config: &EngineConfig) -> (r: LoadedAction)
    ensures
        strategy == ReloadStrategy::ValidateFirst && engine_issues(*new_config).len() > 0 ==> (r matches LoadedAction::ValidationFailed(
            m,
        ) && m@ == "Validation failed: "@ + spec_validation_message(
            report_all(Map::empty(), engine_issues(*new_config)).len(),
        )),
        !(strategy == ReloadStrategy::ValidateFirst && engine_issues(*new_config).len() > 0) ==> r
            == (LoadedAction::Reloaded { apply: strategy != ReloadStrategy::DryRun }),
{
    if strategy == ReloadStrategy::ValidateFirst {
        match new_config.validate() {
            Err(e) => {
                let m = e.to_text();
                return LoadedAction::ValidationFailed(m);
            },
            Ok(()) => {},
        }
    }
    LoadedAction::Reloaded { apply: strategy != ReloadStrategy::DryRun }
}

/// The settings and running flag of a hot reload manager, and the checks its
/// start, stop and reload make.
#[derive(Debug)]
pub struct ReloadControl {
    /// Reload strategy.
    pub strategy: ReloadStrategy,
    /// Configuration file path.
    pub config_path: Option<String>,
    /// Whether the manager is running.
    pub running: bool,
}

impl ReloadControl {
    /// Not running, validating first, without a path.
    pub fn new() -> (r: Self)
        ensures
            r.strategy == ReloadStrategy::ValidateFirst,
            r.config_path is None,
            !r.running,
    {
        ReloadControl { strategy: ReloadStrategy::default(), config_path: None, running: false }
    }

    /// Starting fails when already running.
    pub fn check_start(&self) -> (r: Result<()>)
        ensures
            r is Ok <==> !self.running,
            r matches Err(e) ==> (e matches Error::Engine(m) && m@ == "Hot reload manager already running"@),
    {
        if self.running {
            Err(Error::Engine("Hot reload manager already running".to_owned()))
        } else {
            Ok(())
        }
    }

    /// Stopping fails when not running.
    pub fn check_stop(&self) -> (r: Result<()>)
        ensures
            r is Ok <==> self.running,
            r matches Err(e) ==> (e matches Error::Engine(m) && m@ == "Hot reload manager not running"@),
    {
        if !self.running {
            Err(Error::Engine("Hot reload manager not running".to_owned()))
        } else {
            Ok(())
        }
    }

    /// The path a manual reload reads; none set is a configuration error.
    pub fn reload_path(&self) -> (r: Result<&String>)
        ensures
            match self.config_path {
                Some(p) => r == Ok::<&String, Error>(&p),
                None => r matches Err(e) && e matches Error::Config(m) && m@ == "No configuration path set"@,
            },
    {
        match &self.config_path {
            Some(p) => Ok(p),
            None => Err(Error::Config("No configuration path set".to_owned())),
        }
    }
}

} // verus!
