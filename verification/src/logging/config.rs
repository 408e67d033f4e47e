//! Logging configuration: levels, formats, targets and the filter they build.
use vstd::prelude::*;

use crate::error::Error;
use crate::logging::rotation::RotationConfig;
use crate::strmap::StrMap;
use crate::text::{cat, join_seq, join_strings, lowercase_of, str_eq, texts, to_lowercase};

verus! {

#[verifier::external_type_specification]
#[verifier::external_body]
pub struct ExTracingLevel(tracing::Level);

/// What `tracing::Level::as_str` gives for a level: its name in capitals.
pub uninterp spec fn tracing_level_text(l: tracing::Level) -> Seq<char>;

/// `tracing::Level::TRACE`, the level whose `as_str` is `"TRACE"`.
#[verifier::external_body]
fn tracing_trace() -> (r: tracing::Level)
    ensures
        tracing_level_text(r) == "TRACE"@,
{
    tracing::Level::TRACE
}

/// `tracing::Level::DEBUG`, the level whose `as_str` is `"DEBUG"`.
#[verifier::external_body]
fn tracing_debug() -> (r: tracing::Level)
    ensures
        tracing_level_text(r) == "DEBUG"@,
{
    tracing::Level::DEBUG
}

/// `tracing::Level::INFO`, the level whose `as_str` is `"INFO"`.
#[verifier::external_body]
fn tracing_info() -> (r: tracing::Level)
    ensures
        tracing_level_text(r) == "INFO"@,
{
    tracing::Level::INFO
}

/// `tracing::Level::WARN`, the level whose `as_str` is `"WARN"`.
#[verifier::external_body]
fn tracing_warn() -> (r: tracing::Level)
    ensures
        tracing_level_text(r) == "WARN"@,
{
    tracing::Level::WARN
}

/// `tracing::Level::ERROR`, the level whose `as_str` is `"ERROR"`.
#[verifier::external_body]
fn tracing_error() -> (r: tracing::Level)
    ensures
        tracing_level_text(r) == "ERROR"@,
{
    tracing::Level::ERROR
}

/// Log level, from most to least verbose.
#[derive(Debug, Clone, Copy, PartialEq, Eq, Hash, Structural)]
pub enum LogLevel {
    /// Trace level - most verbose.
    Trace,
    /// Debug level.
    Debug,
    /// Info level - default.
    Info,
    /// Warn level.
    Warn,
    /// Error level - least verbose.
    Error,
    /// Off - disable logging.
    Off,
}

impl Default for LogLevel {
    fn default() -> (r: Self)
        ensures
            r == LogLevel::Info,
    {
        LogLevel::Info
    }
}

/// The filter name of a level.
pub open spec fn level_name(l: LogLevel) -> Seq<char> {
    match l {
        LogLevel::Trace => "trace"@,
        LogLevel::Debug => "debug"@,
        LogLevel::Info => "info"@,
        LogLevel::Warn => "warn"@,
        LogLevel::Error => "error"@,
        LogLevel::Off => "off"@,
    }
}

/// Position of a level in the order from most to least verbose.
pub open spec fn verbosity(l: LogLevel) -> int {
    match l {
        LogLevel::Trace => 0,
        LogLevel::Debug => 1,
        LogLevel::Info => 2,
        LogLevel::Warn => 3,
        LogLevel::Error => 4,
        LogLevel::Off => 5,
    }
}

/// The level a lowercased name denotes, with the accepted aliases.
pub open spec fn spec_parse_level(s: Seq<char>) -> Option<LogLevel> {
    if s == "trace"@ {
        Some(LogLevel::Trace)
    } else if s == "debug"@ {
        Some(LogLevel::Debug)
    } else if s == "info"@ {
        Some(LogLevel::Info)
    } else if s == "warn"@ || s == "warning"@ {
        Some(LogLevel::Warn)
    } else if s == "error"@ || s == "err"@ {
        Some(LogLevel::Error)
    } else if s == "off"@ || s == "none"@ || s == "disabled"@ {
        Some(LogLevel::Off)
    } else {
        None
    }
}

/// The name `tracing` gives the level a log level maps to (none for `Off`).
pub open spec fn tracing_name(l: LogLevel) -> Seq<char> {
    match l {
        LogLevel::Trace => "TRACE"@,
        LogLevel::Debug => "DEBUG"@,
        LogLevel::Info => "INFO"@,
        LogLevel::Warn => "WARN"@,
        LogLevel::Error => "ERROR"@,
        LogLevel::Off => Seq::empty(),
    }
}

impl LogLevel {
    /// The corresponding `tracing` level; `Off` has none.
    pub fn to_tracing_level(&self) -> (r: Option<tracing::Level>)
        ensures
            r is Some <==> *self != LogLevel::Off,
            r matches Some(t) ==> tracing_level_text(t) == tracing_name(*self),
    {
        match self {
            LogLevel::Trace => Some(tracing_trace()),
            LogLevel::Debug => Some(tracing_debug()),
            LogLevel::Info => Some(tracing_info()),
            LogLevel::Warn => Some(tracing_warn()),
            LogLevel::Error => Some(tracing_error()),
            LogLevel::Off => None,
        }
    }

    /// The filter name of the level.
    pub fn as_filter_str(&self) -> (r: &'static str)
        ensures
            r@ == level_name(*self),
    {
        match self {
            LogLevel::Trace => "trace",
            LogLevel::Debug => "debug",
            LogLevel::Info => "info",
            LogLevel::Warn => "warn",
            LogLevel::Error => "error",
            LogLevel::Off => "off",
        }
    }

    /// The text `Display` shows: the filter name.
    pub fn to_string(&self) -> (r: String)
        ensures
            r@ == level_name(*self),
    {
        self.as_filter_str().to_owned()
    }

    /// All log levels ordered by verbosity (most to least).
    pub fn all() -> (r: &'static [LogLevel])
        ensures
            r@ == seq![
                LogLevel::Trace,
                LogLevel::Debug,
                LogLevel::Info,
                LogLevel::Warn,
                LogLevel::Error,
                LogLevel::Off,
            ],
    {
        let r: &'static [LogLevel] = &[
            LogLevel::Trace,
            LogLevel::Debug,
            LogLevel::Info,
            LogLevel::Warn,
            LogLevel::Error,
            LogLevel::Off,
        ];
        assert(r@ =~= seq![
            LogLevel::Trace,
            LogLevel::Debug,
            LogLevel::Info,
            LogLevel::Warn,
            LogLevel::Error,
            LogLevel::Off,
        ]);
        r
    }

    /// Whether this level is more verbose than another.
    pub fn is_more_verbose_than(&self, other: &LogLevel) -> (r: bool)
        ensures
            r == (verbosity(*self) < verbosity(*other)),
    {
        Self::verbosity_order(self) < Self::verbosity_order(other)
    }

    fn verbosity_order(level: &LogLevel) -> (r: u8)
        ensures
            r == verbosity(*level),
    {
        match level {
            LogLevel::Trace => 0,
            LogLevel::Debug => 1,
            LogLevel::Info => 2,
            LogLevel::Warn => 3,
            LogLevel::Error => 4,
            LogLevel::Off => 5,
        }
    }

    /// Parses a level name, ignoring case; `warning`, `err`, `none` and
    /// `disabled` are accepted as aliases.
    pub fn parse_name(s: &str) -> (r: Result<LogLevel, Error>)
        ensures
            match r {
                Ok(l) => spec_parse_level(lowercase_of(s@)) == Some(l),
                Err(e) => spec_parse_level(lowercase_of(s@)) is None && (e matches Error::Config(m)
                    && m@ == "Invalid log level: "@ + s@),
            },
    {
        let lower = to_lowercase(s);
        let t = lower.as_str();
        if str_eq(t, "trace") {
            Ok(LogLevel::Trace)
        } else if str_eq(t, "debug") {
            Ok(LogLevel::Debug)
        } else if str_eq(t, "info") {
            Ok(LogLevel::Info)
        } else if str_eq(t, "warn") || str_eq(t, "warning") {
            Ok(LogLevel::Warn)
        } else if str_eq(t, "error") || str_eq(t, "err") {
            Ok(LogLevel::Error)
        } else if str_eq(t, "off") || str_eq(t, "none") || str_eq(t, "disabled") {
            Ok(LogLevel::Off)
        } else {
            Err(Error::Config(cat("Invalid log level: ", s)))
        }
    }
}

impl std::str::FromStr for LogLevel {
    type Err = Error;

    fn from_str(s: &str) -> (r: Result<LogLevel, Error>)
        ensures
            match r {
                Ok(l) => spec_parse_level(lowercase_of(s@)) == Some(l),
                Err(e) => spec_parse_level(lowercase_of(s@)) is None && (e matches Error::Config(m)
                    && m@ == "Invalid log level: "@ + s@),
            },
    {
        LogLevel::parse_name(s)
    }
}

/// Log output format.
#[derive(Debug, Clone, Copy, PartialEq, Eq, Hash, Structural)]
pub enum LogFormat {
    /// Pretty format for human readability.
    Pretty,
    /// Compact format.
    Compact,
    /// JSON format for machine parsing.
    Json,
    /// Full format with all details.
    Full,
}

impl Default for LogFormat {
    fn default() -> (r: Self)
        ensures
            r == LogFormat::Pretty,
    {
        LogFormat::Pretty
    }
}

impl LogFormat {
    /// Whether this format is meant for human reading.
    pub fn is_human_readable(&self) -> (r: bool)
        ensures
            r == (*self != LogFormat::Json),
    {
        matches!(self, LogFormat::Pretty | LogFormat::Compact | LogFormat::Full)
    }

    /// Whether this format is meant for machine parsing.
    pub fn is_machine_parseable(&self) -> (r: bool)
        ensures
            r == (*self == LogFormat::Json),
    {
        matches!(self, LogFormat::Json)
    }
}

/// Log output target.
#[derive(Debug)]
pub enum LogTarget {
    /// Write to stdout.
    Stdout,
    /// Write to stderr.
    Stderr,
    /// Write to a file with optional rotation.
    File {
        /// Directory to store log files.
        directory: String,
        /// Filename prefix (e.g., "simulator" -> "simulator.log").
        filename_prefix: String,
        /// Rotation configuration.
        rotation: RotationConfig,
    },
    /// Write to multiple targets.
    Multi(Vec<LogTarget>),
}

impl Default for LogTarget {
    fn default() -> (r: Self)
        ensures
            r is Stdout,
    {
        LogTarget::Stdout
    }
}

/// The file name prefix a file target gets by default.
pub open spec fn default_prefix() -> Seq<char> {
    "trap-simulator"@
}

/// Whether a target writes to a file, itself or through one of its parts.
pub open spec fn target_has_file(t: LogTarget) -> bool
    decreases t,
{
    match t {
        LogTarget::File { .. } => true,
        LogTarget::Multi(ts) => exists|i: int|
            0 <= i < ts@.len() && target_has_file(#[trigger] ts@[i]),
        _ => false,
    }
}

/// Whether a target writes to stdout or stderr, itself or through one of its parts.
pub open spec fn target_has_console(t: LogTarget) -> bool
    decreases t,
{
    match t {
        LogTarget::Stdout | LogTarget::Stderr => true,
        LogTarget::Multi(ts) => exists|i: int|
            0 <= i < ts@.len() && target_has_console(#[trigger] ts@[i]),
        _ => false,
    }
}

/// A file target with the given directory, prefix and rotation.
pub open spec fn is_file_target(t: LogTarget, dir: Seq<char>, prefix: Seq<char>, rotation: RotationConfig) -> bool {
    t matches LogTarget::File { directory, filename_prefix, rotation: rot } && directory@ == dir
        && filename_prefix@ == prefix && rot == rotation
}

impl LogTarget {
    /// A file target with the default prefix and rotation.
    pub fn file(directory: &str) -> (r: Self)
        ensures
            is_file_target(r, directory@, default_prefix(), RotationConfig::spec_with(crate::logging::rotation::RotationStrategy::Daily)),
    {
        LogTarget::File {
            directory: directory.to_owned(),
            filename_prefix: default_filename_prefix(),
            rotation: RotationConfig::default(),
        }
    }

    /// A file target with daily rotation.
    pub fn daily_file(directory: &str, prefix: &str) -> (r: Self)
        ensures
            is_file_target(r, directory@, prefix@, RotationConfig::spec_with(crate::logging::rotation::RotationStrategy::Daily)),
    {
        LogTarget::File {
            directory: directory.to_owned(),
            filename_prefix: prefix.to_owned(),
            rotation: RotationConfig::daily(),
        }
    }

    /// A file target with hourly rotation.
    pub fn hourly_file(directory: &str, prefix: &str) -> (r: Self)
        ensures
            is_file_target(r, directory@, prefix@, RotationConfig::spec_with(crate::logging::rotation::RotationStrategy::Hourly)),
    {
        LogTarget::File {
            directory: directory.to_owned(),
            filename_prefix: prefix.to_owned(),
            rotation: RotationConfig::hourly(),
        }
    }

    /// Whether this target includes file output.
    pub fn has_file_output(&self) -> (r: bool)
        ensures
            r == target_has_file(*self),
        decreases self,
    {
        match self {
            LogTarget::File { .. } => true,
            LogTarget::Multi(targets) => {
                let mut i: usize = 0;
                while i < targets.len()
                    invariant
                        *self == LogTarget::Multi(*targets),
                        i <= targets@.len(),
                        forall|j: int| 0 <= j < i ==> !target_has_file(#[trigger] targets@[j]),
                    decreases targets@.len() - i,
                {
                    proof {
                        assert(decreases_to!(*self => (*self)->0));
                        assert(decreases_to!(*targets => targets@));
                        assert(decreases_to!(targets@ => targets@[i as int]));
                    }
                    if targets[i].has_file_output() {
                        assert(target_has_file(targets@[i as int]));
                        assert(exists|j: int| 0 <= j < targets@.len() && target_has_file(#[trigger] targets@[j]));
                        assert(target_has_file(*self));
                        return true;
                    }
                    i = i + 1;
                }
                false
            },
            _ => false,
        }
    }

    /// Whether this target includes stdout or stderr.
    pub fn has_console_output(&self) -> (r: bool)
        ensures
            r == target_has_console(*self),
        decreases self,
    {
        match self {
            LogTarget::Stdout | LogTarget::Stderr => true,
            LogTarget::Multi(targets) => {
                let mut i: usize = 0;
                while i < targets.len()
                    invariant
                        *self == LogTarget::Multi(*targets),
                        i <= targets@.len(),
                        forall|j: int| 0 <= j < i ==> !target_has_console(#[trigger] targets@[j]),
                    decreases targets@.len() - i,
                {
                    proof {
                        assert(decreases_to!(*self => (*self)->0));
                        assert(decreases_to!(*targets => targets@));
                        assert(decreases_to!(targets@ => targets@[i as int]));
                    }
                    if targets[i].has_console_output() {
                        assert(target_has_console(targets@[i as int]));
                        assert(exists|j: int| 0 <= j < targets@.len() && target_has_console(#[trigger] targets@[j]));
                        assert(target_has_console(*self));
                        return true;
                    }
                    i = i + 1;
                }
                false
            },
            _ => false,
        }
    }
}

fn default_filename_prefix() -> (r: String)
    ensures
        r@ == default_prefix(),
{
    "trap-simulator".to_owned()
}

/// Logging configuration.
#[derive(Debug)]
pub struct LogConfig {
    /// Log level.
    pub level: LogLevel,
    /// Output format.
    pub format: LogFormat,
    /// Output target.
    pub target: LogTarget,
    /// Include file and line numbers.
    pub include_location: bool,
    /// Include target (module path).
    pub include_target: bool,
    /// Include span events (enter/exit).
    pub include_span_events: bool,
    /// Include thread IDs.
    pub include_thread_ids: bool,
    /// Include thread names.
    pub include_thread_names: bool,
    /// Custom filter directives (e.g., "trap_sim=debug,tokio=warn").
    pub filter: Option<String>,
    /// Enable ANSI colors (only for Pretty/Compact formats on console).
    pub ansi_colors: bool,
    /// Enable dynamic log level changes at runtime.
    pub dynamic_level: bool,
    /// Per-module log levels.
    pub module_levels: StrMap<LogLevel>,
}

/// The settings every preset shares with the default configuration.
pub open spec fn preset_common(c: LogConfig) -> bool {
    &&& c.include_target
    &&& !c.include_thread_ids
    &&& !c.include_thread_names
    &&& c.filter is None
    &&& c.dynamic_level
    &&& c.module_levels.map() == Map::<Seq<char>, LogLevel>::empty()
    &&& c.module_levels.pairs().len() == 0
}

/// The default configuration: info level, pretty format on stdout, with
/// locations, targets, colors and dynamic levels.
pub open spec fn is_default_config(c: LogConfig) -> bool {
    &&& preset_common(c)
    &&& c.level == LogLevel::Info
    &&& c.format == LogFormat::Pretty
    &&& c.target is Stdout
    &&& c.include_location
    &&& !c.include_span_events
    &&& c.ansi_colors
}

impl Default for LogConfig {
    fn default() -> (r: Self)
        ensures
            is_default_config(r),
    {
        LogConfig {
            level: LogLevel::default(),
            format: LogFormat::default(),
            target: LogTarget::default(),
            include_location: true,
            include_target: true,
            include_span_events: false,
            include_thread_ids: false,
            include_thread_names: false,
            filter: None,
            ansi_colors: true,
            dynamic_level: true,
            module_levels: StrMap::new(),
        }
    }
}

/// One `module=level` directive.
pub open spec fn directive(kv: (Seq<char>, LogLevel)) -> Seq<char> {
    kv.0 + "="@ + level_name(kv.1)
}

/// The directives of a configuration, before they are joined with commas:
/// the base level, each module level in order, then defaults for `tokio`,
/// `hyper` and `tower_http` where no module level names them.
pub open spec fn filter_parts(c: LogConfig) -> Seq<Seq<char>> {
    let base = level_name(c.level);
    let dom = c.module_levels.map().dom();
    seq!["trap_sim="@ + base]
        + c.module_levels.pairs().map_values(|kv: (Seq<char>, LogLevel)| directive(kv))
        + (if dom.contains("tokio"@) { Seq::empty() } else { seq!["tokio=warn"@] })
        + (if dom.contains("hyper"@) { Seq::empty() } else { seq!["hyper=warn"@] })
        + (if dom.contains("tower_http"@) { Seq::empty() } else { seq!["tower_http="@ + base] })
}

/// The filter text of a configuration: the custom filter when one is set,
/// else the directives joined with commas.
pub open spec fn filter_text(c: LogConfig) -> Seq<char> {
    match c.filter {
        Some(f) => f@,
        None => join_seq(filter_parts(c), ","@),
    }
}

impl LogConfig {
    /// A builder starting from the default configuration.
    pub fn builder() -> (r: LogConfigBuilder)
        ensures
            is_default_config(r.spec_config()),
    {
        LogConfigBuilder::default()
    }

    /// Development preset: pretty, debug level, with span events.
    pub fn development() -> (r: Self)
        ensures
            preset_common(r),
            r.level == LogLevel::Debug,
            r.format == LogFormat::Pretty,
            r.target is Stdout,
            r.include_location,
            r.include_span_events,
            r.ansi_colors,
    {
        let mut c = LogConfig::default();
        c.level = LogLevel::Debug;
        c.format = LogFormat::Pretty;
        c.include_span_events = true;
        c
    }

    /// Production preset: JSON, info level, no locations, no colors.
    pub fn production() -> (r: Self)
        ensures
            preset_common(r),
            r.level == LogLevel::Info,
            r.format == LogFormat::Json,
            r.target is Stdout,
            !r.include_location,
            !r.include_span_events,
            !r.ansi_colors,
    {
        let mut c = LogConfig::default();
        c.level = LogLevel::Info;
        c.format = LogFormat::Json;
        c.include_location = false;
        c.ansi_colors = false;
        c
    }

    /// Test preset: compact, debug level, no colors.
    pub fn test() -> (r: Self)
        ensures
            preset_common(r),
            r.level == LogLevel::Debug,
            r.format == LogFormat::Compact,
            r.target is Stdout,
            r.include_location,
            !r.include_span_events,
            !r.ansi_colors,
    {
        let mut c = LogConfig::default();
        c.level = LogLevel::Debug;
        c.format = LogFormat::Compact;
        c.ansi_colors = false;
        c
    }

    /// Production preset writing JSON to daily-rotated files, thirty kept.
    pub fn production_file(log_dir: &str) -> (r: Self)
        ensures
            preset_common(r),
            r.level == LogLevel::Info,
            r.format == LogFormat::Json,
            is_file_target(
                r.target,
                log_dir@,
                default_prefix(),
                RotationConfig { max_files: Some(30), ..RotationConfig::spec_with(crate::logging::rotation::RotationStrategy::Daily) },
            ),
            !r.include_location,
            !r.include_span_events,
            !r.ansi_colors,
    {
        let mut c = LogConfig::default();
        c.level = LogLevel::Info;
        c.format = LogFormat::Json;
        c.target = LogTarget::File {
            directory: log_dir.to_owned(),
            filename_prefix: default_filename_prefix(),
            rotation: RotationConfig::daily().with_max_files(30),
        };
        c.include_location = false;
        c.ansi_colors = false;
        c
    }

    /// Console and file output together: stdout plus daily-rotated files, seven kept.
    pub fn dual_output(log_dir: &str) -> (r: Self)
        ensures
            preset_common(r),
            r.level == LogLevel::Info,
            r.format == LogFormat::Pretty,
            (r.target matches LogTarget::Multi(ts) && ts@.len() == 2 && ts@[0] is Stdout
                && is_file_target(
                ts@[1],
                log_dir@,
                default_prefix(),
                RotationConfig { max_files: Some(7), ..RotationConfig::spec_with(crate::logging::rotation::RotationStrategy::Daily) },
            )),
            r.include_location,
            !r.include_span_events,
            r.ansi_colors,
    {
        let mut c = LogConfig::default();
        c.level = LogLevel::Info;
        c.format = LogFormat::Pretty;
        let mut ts: Vec<LogTarget> = Vec::new();
        ts.push(LogTarget::Stdout);
        ts.push(
            LogTarget::File {
                directory: log_dir.to_owned(),
                filename_prefix: default_filename_prefix(),
                rotation: RotationConfig::daily().with_max_files(7),
            },
        );
        c.target = LogTarget::Multi(ts);
        c
    }

    /// The filter directives: the custom filter when one is set, else the base
    /// level for `trap_sim`, each module level, and defaults for `tokio`,
    /// `hyper` and `tower_http` where no module level names them, joined with commas.
    pub fn build_filter_string(&self) -> (r: String)
        ensures
            r@ == filter_text(*self),
    {
        if let Some(f) = &self.filter {
            return f.clone();
        }
        let base = self.level.as_filter_str();
        let ghost ms = self.module_levels.pairs();
        let mut parts: Vec<String> = Vec::new();
        parts.push(cat("trap_sim=", base));
        let n = self.module_levels.len();
        let mut i: usize = 0;
        while i < n
            invariant
                n == ms.len(),
                ms == self.module_levels.pairs(),
                base@ == level_name(self.level),
                i <= n,
                texts(parts@) == seq!["trap_sim="@ + base@] + ms.subrange(0, i as int).map_values(
                    |kv: (Seq<char>, LogLevel)| directive(kv),
                ),
            decreases n - i,
        {
            let k = self.module_levels.key_at(i);
            let v = self.module_levels.value_at(i);
            let d = cat(cat(k.as_str(), "=").as_str(), v.as_filter_str());
            let ghost before = texts(parts@);
            parts.push(d);
            proof {
                assert(texts(parts@) =~= before.push(d@));
                assert(ms.subrange(0, i + 1).map_values(|kv: (Seq<char>, LogLevel)| directive(kv))
                    =~= ms.subrange(0, i as int).map_values(|kv: (Seq<char>, LogLevel)| directive(kv)).push(
                    directive(ms[i as int]),
                ));
            }
            i = i + 1;
        }
        assert(ms.subrange(0, n as int) =~= ms);
        let ghost mid = texts(parts@);
        let ghost dom = self.module_levels.map().dom();
        if !self.module_levels.contains_key("tokio") {
            parts.push("tokio=warn".to_owned());
        }
        let ghost after_tokio = texts(parts@);
        assert(after_tokio =~= mid + (if dom.contains("tokio"@) { Seq::<Seq<char>>::empty() } else { seq!["tokio=warn"@] }));
        if !self.module_levels.contains_key("hyper") {
            parts.push("hyper=warn".to_owned());
        }
        let ghost after_hyper = texts(parts@);
        assert(after_hyper =~= after_tokio + (if dom.contains("hyper"@) { Seq::<Seq<char>>::empty() } else { seq!["hyper=warn"@] }));
        if !self.module_levels.contains_key("tower_http") {
            parts.push(cat("tower_http=", base));
        }
        assert(texts(parts@) =~= filter_parts(*self));
        join_strings(&parts, ",")
    }

    /// Checks the module names of the per-module levels: none may be empty.
    pub fn validate_module_names(&self) -> (r: Result<(), Error>)
        ensures
            r is Ok <==> !self.module_levels.map().dom().contains(Seq::<char>::empty()),
            r matches Err(e) ==> (e matches Error::Config(m) && m@ == "Module name cannot be empty"@),
    {
        let n = self.module_levels.len();
        let mut i: usize = 0;
        while i < n
            invariant
                n == self.module_levels.pairs().len(),
                i <= n,
                forall|j: int| 0 <= j < i ==> self.module_levels.pairs()[j].0.len() > 0,
            decreases n - i,
        {
            let k = self.module_levels.key_at(i);
            if k.as_str().unicode_len() == 0 {
                assert(k@ =~= Seq::<char>::empty());
                return Err(Error::Config("Module name cannot be empty".to_owned()));
            }
            i = i + 1;
        }
        proof {
            self.module_levels.lemma_dom_keys();
            if self.module_levels.map().dom().contains(Seq::<char>::empty()) {
                let j = choose|j: int| 0 <= j < self.module_levels.key_seq().len() && self.module_levels.key_seq()[j] == Seq::<char>::empty();
                assert(self.module_levels.pairs()[j].0.len() > 0);
            }
        }
        Ok(())
    }
}

/// Builder for [`LogConfig`].
#[derive(Debug)]
pub struct LogConfigBuilder {
    config: LogConfig,
}

impl Default for LogConfigBuilder {
    fn default() -> (r: Self)
        ensures
            is_default_config(r.spec_config()),
    {
        LogConfigBuilder { config: LogConfig::default() }
    }
}

impl LogConfigBuilder {
    /// The configuration built so far.
    pub closed spec fn spec_config(&self) -> LogConfig {
        self.config
    }

    /// Sets the log level.
    pub fn level(self, level: LogLevel) -> (r: Self)
        ensures
            r.spec_config() == (LogConfig { level, ..self.spec_config() }),
    {
        let mut s = self;
        s.config.level = level;
        s
    }

    /// Sets the output format.
    pub fn format(self, format: LogFormat) -> (r: Self)
        ensures
            r.spec_config() == (LogConfig { format, ..self.spec_config() }),
    {
        let mut s = self;
        s.config.format = format;
        s
    }

    /// Sets the output target.
    pub fn target(self, target: LogTarget) -> (r: Self)
        ensures
            r.spec_config() == (LogConfig { target, ..self.spec_config() }),
    {
        let mut s = self;
        s.config.target = target;
        s
    }

    /// Sets whether to include file/line location.
    pub fn include_location(self, on: bool) -> (r: Self)
        ensures
            r.spec_config() == (LogConfig { include_location: on, ..self.spec_config() }),
    {
        let mut s = self;
        s.config.include_location = on;
        s
    }

    /// Sets whether to include the module target.
    pub fn include_target(self, on: bool) -> (r: Self)
        ensures
            r.spec_config() == (LogConfig { include_target: on, ..self.spec_config() }),
    {
        let mut s = self;
        s.config.include_target = on;
        s
    }

    /// Sets whether to include span events.
    pub fn include_span_events(self, on: bool) -> (r: Self)
        ensures
            r.spec_config() == (LogConfig { include_span_events: on, ..self.spec_config() }),
    {
        let mut s = self;
        s.config.include_span_events = on;
        s
    }

    /// Sets whether to include thread IDs.
    pub fn include_thread_ids(self, on: bool) -> (r: Self)
        ensures
            r.spec_config() == (LogConfig { include_thread_ids: on, ..self.spec_config() }),
    {
        let mut s = self;
        s.config.include_thread_ids = on;
        s
    }

    /// Sets whether to include thread names.
    pub fn include_thread_names(self, on: bool) -> (r: Self)
        ensures
            r.spec_config() == (LogConfig { include_thread_names: on, ..self.spec_config() }),
    {
        let mut s = self;
        s.config.include_thread_names = on;
        s
    }

    /// Sets custom filter directives.
    pub fn filter(self, filter: &str) -> (r: Self)
        ensures
            (r.spec_config().filter matches Some(f) && f@ == filter@),
            r.spec_config() == (LogConfig { filter: r.spec_config().filter, ..self.spec_config() }),
    {
        let mut s = self;
        s.config.filter = Some(filter.to_owned());
        s
    }

    /// Sets whether to enable ANSI colors.
    pub fn ansi_colors(self, enable: bool) -> (r: Self)
        ensures
            r.spec_config() == (LogConfig { ansi_colors: enable, ..self.spec_config() }),
    {
        let mut s = self;
        s.config.ansi_colors = enable;
        s
    }

    /// Sets whether to enable dynamic log level changes.
    pub fn dynamic_level(self, enable: bool) -> (r: Self)
        ensures
            r.spec_config() == (LogConfig { dynamic_level: enable, ..self.spec_config() }),
    {
        let mut s = self;
        s.config.dynamic_level = enable;
        s
    }

    /// Adds a per-module log level, replacing an earlier one for the module.
    pub fn module_level(self, module: &str, level: LogLevel) -> (r: Self)
        ensures
            r.spec_config().module_levels.map() == self.spec_config().module_levels.map().insert(module@, level),
            self.spec_config().module_levels.map().dom().contains(module@)
                ==> r.spec_config().module_levels.key_seq() == self.spec_config().module_levels.key_seq(),
            !self.spec_config().module_levels.map().dom().contains(module@)
                ==> r.spec_config().module_levels.key_seq() == self.spec_config().module_levels.key_seq().push(module@),
            r.spec_config() == (LogConfig { module_levels: r.spec_config().module_levels, ..self.spec_config() }),
    {
        let mut s = self;
        s.config.module_levels.insert(module.to_owned(), level);
        s
    }

    /// The built configuration.
    pub fn build(self) -> (r: LogConfig)
        ensures
            r == self.spec_config(),
    {
        self.config
    }
}

} // verus!
