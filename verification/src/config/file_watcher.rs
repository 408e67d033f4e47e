//! Watching configuration files: which files are watched, the watch service's
//! state, and how file-system events become configuration events.
use vstd::prelude::*;

use crate::config::loader::path_extension;
use crate::config::watcher::{source_path, ConfigSource};
use crate::error::{Error, Result};
use crate::logging::context::opt_text;
use crate::strmap::StrMap;
use crate::text::{ascii_lower, ascii_lower_char, cat, str_chars};

verus! {

/// Default debounce duration for file events.
pub const DEFAULT_DEBOUNCE_MS: u64 = 100;

/// Whether two texts are equal up to ASCII case.
pub open spec fn eq_ascii_case(a: Seq<char>, b: Seq<char>) -> bool {
    ascii_lower(a) == ascii_lower(b)
}

/// `str::eq_ignore_ascii_case`: equality after mapping ASCII letters to lowercase.
pub fn eq_ignore_ascii_case(a: &str, b: &str) -> (r: bool)
    ensures
        r == eq_ascii_case(a@, b@),
{
    let x = str_chars(a);
    let y = str_chars(b);
    if x.len() != y.len() {
        proof {
            assert(ascii_lower(a@).len() == a@.len());
            assert(ascii_lower(b@).len() == b@.len());
        }
        return false;
    }
    let mut i: usize = 0;
    while i < x.len()
        invariant
            x@ == a@,
            y@ == b@,
            x@.len() == y@.len(),
            i <= x@.len(),
            forall|j: int| 0 <= j < i ==> ascii_lower_char(a@[j]) == ascii_lower_char(b@[j]),
        decreases x@.len() - i,
    {
        if lower_char(x[i]) != lower_char(y[i]) {
            proof {
                assert(ascii_lower(a@)[i as int] != ascii_lower(b@)[i as int]);
            }
            return false;
        }
        i = i + 1;
    }
    assert(ascii_lower(a@) =~= ascii_lower(b@));
    true
}

fn lower_char(c: char) -> (r: char)
    ensures
        r == ascii_lower_char(c),
{
    if 'A' <= c && c <= 'Z' {
        ((c as u8) + 32) as char
    } else {
        c
    }
}

/// Configuration of the file watcher service.
#[derive(Debug, Clone)]
pub struct FileWatcherConfig {
    /// Debounce duration in milliseconds.
    pub debounce_ms: u64,
    /// Whether to watch directories recursively.
    pub recursive: bool,
    /// File extensions to filter (empty = all files).
    pub extensions: Vec<String>,
}

/// The extensions watched by default.
pub open spec fn default_extensions() -> Seq<Seq<char>> {
    seq!["yaml"@, "yml"@, "json"@, "toml"@]
}

/// Whether a path passes an extension filter: every path when the filter is
/// empty, else paths whose extension equals one of the filter's ignoring
/// ASCII case.
pub open spec fn passes_filter(exts: Seq<Seq<char>>, path: Seq<char>) -> bool {
    exts.len() == 0 || match path_extension(path) {
        Some(e) => exists|i: int| 0 <= i < exts.len() && eq_ascii_case(#[trigger] exts[i], e),
        None => false,
    }
}

impl Default for FileWatcherConfig {
    /// A 100 ms debounce, not recursive, YAML, JSON and TOML files.
    fn default() -> (r: Self)
        ensures
            r.debounce_ms == 100,
            !r.recursive,
            r.extensions@.map_values(|e: String| e@) == default_extensions(),
    {
        let mut extensions: Vec<String> = Vec::new();
        extensions.push("yaml".to_owned());
        extensions.push("yml".to_owned());
        extensions.push("json".to_owned());
        extensions.push("toml".to_owned());
        let r = FileWatcherConfig { debounce_ms: DEFAULT_DEBOUNCE_MS, recursive: false, extensions };
        assert(r.extensions@.map_values(|e: String| e@) =~= default_extensions());
        r
    }
}

impl FileWatcherConfig {
    /// The default configuration, watching files of every type.
    pub fn all_files() -> (r: Self)
        ensures
            r.debounce_ms == 100,
            !r.recursive,
            r.extensions@.len() == 0,
    {
        let mut c = FileWatcherConfig::default();
        c.extensions = Vec::new();
        c
    }

    /// Sets the debounce duration.
    pub fn with_debounce(self, ms: u64) -> (r: Self)
        ensures
            r == (FileWatcherConfig { debounce_ms: ms, ..self }),
    {
        let mut s = self;
        s.debounce_ms = ms;
        s
    }

    /// Sets recursive mode.
    pub fn with_recursive(self, recursive: bool) -> (r: Self)
        ensures
            r == (FileWatcherConfig { recursive, ..self }),
    {
        let mut s = self;
        s.recursive = recursive;
        s
    }

    /// Sets the file extensions to watch.
    pub fn with_extensions(self, exts: Vec<String>) -> (r: Self)
        ensures
            r == (FileWatcherConfig { extensions: exts, ..self }),
    {
        let mut s = self;
        s.extensions = exts;
        s
    }

    /// Whether a path passes the extension filter (see [`passes_filter`]).
    pub fn should_watch(&self, path: &str) -> (r: bool)
        ensures
            r == passes_filter(self.extensions@.map_values(|e: String| e@), path@),
    {
        let ghost exts = self.extensions@.map_values(|e: String| e@);
        if self.extensions.len() == 0 {
            return true;
        }
        match crate::config::loader::extension_of(path) {
            None => false,
            Some(ext) => {
                let mut i: usize = 0;
                while i < self.extensions.len()
                    invariant
                        exts == self.extensions@.map_values(|e: String| e@),
                        exts.len() > 0,
                        path_extension(path@) == Some(ext@),
                        i <= exts.len(),
                        forall|j: int| 0 <= j < i ==> !eq_ascii_case(#[trigger] exts[j], ext@),
                    decreases exts.len() - i,
                {
                    if eq_ignore_ascii_case(self.extensions[i].as_str(), ext.as_str()) {
                        assert(eq_ascii_case(exts[i as int], ext@));
                        assert(exists|k: int| 0 <= k < exts.len() && eq_ascii_case(#[trigger] exts[k], ext@));
                        return true;
                    }
                    i = i + 1;
                }
                false
            },
        }
    }
}

/// The kind of a file-system event, as the notifier reports it.
#[derive(Debug, Clone, Copy, PartialEq, Eq, Structural)]
pub enum WatchKind {
    /// A file was created.
    Create,
    /// A file was modified.
    Modify,
    /// A file was removed.
    Remove,
    /// Anything else (access, metadata, ...).
    Other,
}

/// The configuration event a file-system event becomes.
#[derive(Debug, Clone, Copy, PartialEq, Eq, Structural)]
pub enum ChangeKind {
    /// The file was created.
    Created,
    /// The file was modified.
    Modified,
    /// The file was deleted.
    Deleted,
}

/// The change a kind of file-system event reports, if any.
pub open spec fn change_of(k: WatchKind) -> Option<ChangeKind> {
    match k {
        WatchKind::Create => Some(ChangeKind::Created),
        WatchKind::Modify => Some(ChangeKind::Modified),
        WatchKind::Remove => Some(ChangeKind::Deleted),
        WatchKind::Other => None,
    }
}

/// What `Path::starts_with` gives: whether `base` is a prefix of `path` in
/// whole path components.
pub uninterp spec fn path_under(path: Seq<char>, base: Seq<char>) -> bool;

/// `std::path::Path::starts_with` on UTF-8 paths: whole components only; only
/// the name `path_under` is stated.
#[verifier::external_body]
fn path_starts_with(path: &str, base: &str) -> (r: bool)
    ensures
        r == path_under(path@, base@),
{
    std::path::Path::new(path).starts_with(base)
}

/// How a changed path was matched to a source.
#[derive(Debug, Clone, Copy, PartialEq, Eq, Structural)]
pub enum Origin {
    /// The path is watched itself.
    Watched,
    /// The path lies in a watched directory.
    InDirectory,
    /// The path matches nothing watched.
    Unknown,
}

/// How a path is matched: itself watched, inside one of the watched
/// directories, or unknown.
pub open spec fn origin_of(watched: Map<Seq<char>, ConfigSource>, dirs: Seq<Seq<char>>, p: Seq<char>) -> Origin {
    if watched.contains_key(p) {
        Origin::Watched
    } else if exists|i: int| 0 <= i < dirs.len() && path_under(p, #[trigger] dirs[i]) {
        Origin::InDirectory
    } else {
        Origin::Unknown
    }
}

/// Milliseconds from `last` to `now`, or zero when `now` is earlier.
pub open spec fn elapsed_ms(now: u64, last: u64) -> int {
    if now >= last { now - last } else { 0 }
}

/// The paths of an event that pass the debounce, each with how it was
/// matched, and the last-event times afterwards: a path passes unless an
/// event for it passed less than `debounce` milliseconds before `now`.
pub open spec fn routed(
    watched: Map<Seq<char>, ConfigSource>,
    dirs: Seq<Seq<char>>,
    last: Map<Seq<char>, u64>,
    debounce: u64,
    now: u64,
    paths: Seq<Seq<char>>,
) -> (Seq<(Seq<char>, Origin)>, Map<Seq<char>, u64>)
    decreases paths.len(),
{
    if paths.len() == 0 {
        (Seq::empty(), last)
    } else {
        let (out, l) = routed(watched, dirs, last, debounce, now, paths.drop_last());
        let p = paths.last();
        if l.contains_key(p) && elapsed_ms(now, l[p]) < debounce {
            (out, l)
        } else {
            (out.push((p, origin_of(watched, dirs, p))), l.insert(p, now))
        }
    }
}

/// Whether a source is what a routed path becomes: the watched source itself,
/// or a custom source named `file` or `unknown` for the path.
pub open spec fn source_for(watched: Map<Seq<char>, ConfigSource>, p: Seq<char>, o: Origin, s: ConfigSource) -> bool {
    match o {
        Origin::Watched => s == watched[p],
        Origin::InDirectory => s matches ConfigSource::Custom { name, path } && name@ == "file"@
            && path@ == p,
        Origin::Unknown => s matches ConfigSource::Custom { name, path } && name@ == "unknown"@
            && path@ == p,
    }
}

/// Turns file-system events into configuration events: which paths are
/// watched (taken from the watch list, see `refresh`), the debounce interval
/// and when each path last had an event passed on.
#[derive(Debug)]
pub struct EventRouter {
    watched: StrMap<ConfigSource>,
    last_events: StrMap<u64>,
    debounce_ms: u64,
}

impl EventRouter {
    /// The watched sources by path.
    pub closed spec fn spec_watched(&self) -> Map<Seq<char>, ConfigSource> {
        self.watched.map()
    }

    /// When each path last had an event passed on.
    pub closed spec fn spec_last(&self) -> Map<Seq<char>, u64> {
        self.last_events.map()
    }

    /// The debounce interval in milliseconds.
    pub closed spec fn spec_debounce(&self) -> u64 {
        self.debounce_ms
    }

    /// Takes over the sources a watch list holds now, keeping when each path
    /// last had an event passed on.
    pub fn refresh(&mut self, list: &WatchList)
        ensures
            final(self).spec_watched() == list.spec_watched(),
            final(self).spec_last() == old(self).spec_last(),
            final(self).spec_debounce() == old(self).spec_debounce(),
    {
        let fresh = list.router();
        self.watched = fresh.watched;
    }

    /// The configuration events for a file-system event of `kind` on `paths`
    /// at `now_ms`: none for irrelevant kinds; else one for each path that
    /// passes the debounce, in order, with its source. `dirs` are the watched
    /// paths that are directories at this moment.
    pub fn route(&mut self, kind: WatchKind, paths: &[String], dirs: &[String], now_ms: u64) -> (r: Vec<(ChangeKind, ConfigSource)>)
        ensures
            final(self).spec_watched() == old(self).spec_watched(),
            final(self).spec_debounce() == old(self).spec_debounce(),
            change_of(kind) is None ==> r@.len() == 0 && final(self).spec_last() == old(self).spec_last(),
            change_of(kind) matches Some(ck) ==> {
                let (out, l) = routed(
                    old(self).spec_watched(),
                    dirs@.map_values(|d: String| d@),
                    old(self).spec_last(),
                    old(self).spec_debounce(),
                    now_ms,
                    paths@.map_values(|p: String| p@),
                );
                &&& final(self).spec_last() == l
                &&& r@.len() == out.len()
                &&& forall|i: int|
                    0 <= i < out.len() ==> (#[trigger] r@[i]).0 == ck && source_for(
                        old(self).spec_watched(),
                        out[i].0,
                        out[i].1,
                        r@[i].1,
                    )
            },
    {
        let mut out: Vec<(ChangeKind, ConfigSource)> = Vec::new();
        let ck = match kind {
            WatchKind::Create => ChangeKind::Created,
            WatchKind::Modify => ChangeKind::Modified,
            WatchKind::Remove => ChangeKind::Deleted,
            WatchKind::Other => {
                return out;
            },
        };
        let ghost ps = paths@.map_values(|p: String| p@);
        let ghost ds = dirs@.map_values(|d: String| d@);
        let ghost w = self.spec_watched();
        let ghost l0 = self.spec_last();
        let mut i: usize = 0;
        while i < paths.len()
            invariant
                i <= paths@.len(),
                ps == paths@.map_values(|p: String| p@),
                ds == dirs@.map_values(|d: String| d@),
                w == self.spec_watched(),
                self.spec_debounce() == old(self).spec_debounce(),
                w == old(self).spec_watched(),
                l0 == old(self).spec_last(),
                ({
                    let (o, l) = routed(w, ds, l0, self.spec_debounce(), now_ms, ps.subrange(0, i as int));
                    &&& self.spec_last() == l
                    &&& out@.len() == o.len()
                    &&& forall|j: int|
                        0 <= j < o.len() ==> (#[trigger] out@[j]).0 == ck && source_for(
                            w,
                            o[j].0,
                            o[j].1,
                            out@[j].1,
                        )
                }),
            decreases paths@.len() - i,
        {
            let p = &paths[i];
            proof {
                assert(ps.subrange(0, i + 1).drop_last() =~= ps.subrange(0, i as int));
                assert(ps.subrange(0, i + 1).last() == p@);
            }
            let too_soon = match self.last_events.get(p.as_str()) {
                Some(last) => now_ms.saturating_sub(*last) < self.debounce_ms,
                None => false,
            };
            if !too_soon {
                self.last_events.insert(p.clone(), now_ms);
                let source = self.source_of(p.as_str(), dirs, Ghost(ds));
                out.push((ck, source));
            }
            i = i + 1;
        }
        assert(ps.subrange(0, paths@.len() as int) =~= ps);
        out
    }

    fn source_of(&self, p: &str, dirs: &[String], ds: Ghost<Seq<Seq<char>>>) -> (r: ConfigSource)
        requires
            ds@ == dirs@.map_values(|d: String| d@),
        ensures
            source_for(self.spec_watched(), p@, origin_of(self.spec_watched(), ds@, p@), r),
    {
        match self.watched.get(p) {
            Some(s) => s.clone(),
            None => {
                let mut j: usize = 0;
                while j < dirs.len()
                    invariant
                        j <= dirs@.len(),
                        ds@ == dirs@.map_values(|d: String| d@),
                        !self.spec_watched().contains_key(p@),
                        forall|k: int| 0 <= k < j ==> !path_under(p@, #[trigger] ds@[k]),
                    decreases dirs@.len() - j,
                {
                    if path_starts_with(p, dirs[j].as_str()) {
                        assert(path_under(p@, ds@[j as int]));
                        assert(exists|k: int| 0 <= k < ds@.len() && path_under(p@, #[trigger] ds@[k]));
                        return ConfigSource::Custom { name: "file".to_owned(), path: p.to_owned() };
                    }
                    j = j + 1;
                }
                ConfigSource::Custom { name: "unknown".to_owned(), path: p.to_owned() }
            },
        }
    }
}

/// What the file watcher service decides on: its configuration, the watched
/// sources by path, and whether it is running.
#[derive(Debug)]
pub struct WatchList {
    config: FileWatcherConfig,
    watched: StrMap<ConfigSource>,
    running: bool,
}

impl WatchList {
    /// The service configuration.
    pub closed spec fn spec_config(&self) -> FileWatcherConfig {
        self.config
    }

    /// The watched sources by path.
    pub closed spec fn spec_watched(&self) -> Map<Seq<char>, ConfigSource> {
        self.watched.map()
    }

    /// The watched paths, in the order they were first watched.
    pub closed spec fn spec_paths(&self) -> Seq<Seq<char>> {
        self.watched.key_seq()
    }

    /// Whether the service is running.
    pub closed spec fn spec_running(&self) -> bool {
        self.running
    }

    /// A stopped service watching nothing.
    pub fn new(config: FileWatcherConfig) -> (r: Self)
        ensures
            r.spec_config() == config,
            r.spec_watched() == Map::<Seq<char>, ConfigSource>::empty(),
            r.spec_paths().len() == 0,
            !r.spec_running(),
    {
        let r = WatchList { config, watched: StrMap::new(), running: false };
        assert(r.spec_paths() =~= Seq::<Seq<char>>::empty());
        r
    }

    /// The service configuration.
    pub fn config(&self) -> (r: &FileWatcherConfig)
        ensures
            *r == self.spec_config(),
    {
        &self.config
    }

    /// Whether the service is running.
    pub fn is_running(&self) -> (r: bool)
        ensures
            r == self.spec_running(),
    {
        self.running
    }

    /// Watches a source under its path; a path the extension filter refuses
    /// is an error. Gives whether the service is running, when the path must
    /// also be handed to the live notifier.
    pub fn watch(&mut self, source: ConfigSource) -> (r: Result<bool>)
        ensures
            final(self).spec_config() == old(self).spec_config(),
            final(self).spec_running() == old(self).spec_running(),
            passes_filter(old(self).spec_config().extensions@.map_values(|e: String| e@), source_path(source)) ==> (r == Ok::<bool, Error>(old(self).spec_running()) && final(self).spec_watched()
                == old(self).spec_watched().insert(source_path(source), source)),
            !passes_filter(old(self).spec_config().extensions@.map_values(|e: String| e@), source_path(source)) ==> (final(self).spec_watched() == old(self).spec_watched()
                && (r matches Err(e) && e matches Error::Config(m) && m@
                == "Path extension not in allowed list: "@ + source_path(source))),
    {
        let path = source.path().clone();
        if !self.config.should_watch(path.as_str()) {
            return Err(Error::Config(cat("Path extension not in allowed list: ", path.as_str())));
        }
        self.watched.insert(path, source);
        Ok(self.running)
    }

    /// Stops watching a path. Gives whether the service is running, when the
    /// path must also be taken from the live notifier.
    pub fn unwatch(&mut self, path: &str) -> (r: bool)
        ensures
            r == old(self).spec_running(),
            final(self).spec_running() == old(self).spec_running(),
            final(self).spec_config() == old(self).spec_config(),
            final(self).spec_watched() == old(self).spec_watched().remove(path@),
    {
        let _ = self.watched.remove(path);
        self.running
    }

    /// The watched paths.
    pub fn watched_paths(&self) -> (r: Vec<String>)
        ensures
            r@.map_values(|p: String| p@) == self.spec_paths(),
    {
        let n = self.watched.len();
        let mut out: Vec<String> = Vec::new();
        let mut i: usize = 0;
        while i < n
            invariant
                n == self.watched.pairs().len(),
                i <= n,
                out@.map_values(|p: String| p@) == self.spec_paths().subrange(0, i as int),
            decreases n - i,
        {
            let k = self.watched.key_at(i).clone();
            let ghost before = out@.map_values(|p: String| p@);
            out.push(k);
            assert(out@.map_values(|p: String| p@) =~= before.push(k@));
            assert(self.spec_paths().subrange(0, i + 1) =~= self.spec_paths().subrange(0, i as int).push(
                k@,
            ));
            i = i + 1;
        }
        assert(self.spec_paths().subrange(0, n as int) =~= self.spec_paths());
        out
    }

    /// Starts the service: an error when it is already running.
    pub fn start(&mut self) -> (r: Result<()>)
        ensures
            final(self).spec_running(),
            final(self).spec_watched() == old(self).spec_watched(),
            final(self).spec_config() == old(self).spec_config(),
            r is Ok <==> !old(self).spec_running(),
            r matches Err(e) ==> (e matches Error::Engine(m) && m@ == "File watcher already running"@),
    {
        if self.running {
            return Err(Error::Engine("File watcher already running".to_owned()));
        }
        self.running = true;
        Ok(())
    }

    /// Stops the service: an error when it is not running.
    pub fn stop(&mut self) -> (r: Result<()>)
        ensures
            !final(self).spec_running(),
            final(self).spec_watched() == old(self).spec_watched(),
            final(self).spec_config() == old(self).spec_config(),
            r is Ok <==> old(self).spec_running(),
            r matches Err(e) ==> (e matches Error::Engine(m) && m@ == "File watcher not running"@),
    {
        if !self.running {
            return Err(Error::Engine("File watcher not running".to_owned()));
        }
        self.running = false;
        Ok(())
    }

    /// The router the event loop of a started service uses: a snapshot of
    /// the watched sources, no events yet, the configured debounce.
    pub fn router(&self) -> (r: EventRouter)
        ensures
            r.spec_watched() == self.spec_watched(),
            r.spec_last() == Map::<Seq<char>, u64>::empty(),
            r.spec_debounce() == self.spec_config().debounce_ms,
    {
        let mut watched: StrMap<ConfigSource> = StrMap::new();
        let n = self.watched.len();
        let mut i: usize = 0;
        while i < n
            invariant
                n == self.watched.pairs().len(),
                i <= n,
                watched.map() == crate::strmap::seq_map(self.watched.pairs().subrange(0, i as int)),
            decreases n - i,
        {
            let k = self.watched.key_at(i).clone();
            let v = self.watched.value_at(i).clone();
            watched.insert(k, v);
            assert(self.watched.pairs().subrange(0, i + 1).drop_last() =~= self.watched.pairs().subrange(0, i as int));
            i = i + 1;
        }
        assert(self.watched.pairs().subrange(0, n as int) =~= self.watched.pairs());
        EventRouter { watched, last_events: StrMap::new(), debounce_ms: self.config.debounce_ms }
    }
}

} // verus!
