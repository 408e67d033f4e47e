//! Log rotation and retention settings, and statistics over log files.
use vstd::prelude::*;

use crate::text::str_starts_with;
use crate::time::unix_time_now;

verus! {

/// Rotation strategy for log files.
#[derive(Debug, Clone, Copy, PartialEq, Eq, Hash, Structural)]
pub enum RotationStrategy {
    /// Rotate logs daily.
    Daily,
    /// Rotate logs hourly.
    Hourly,
    /// Rotate logs every minute (mainly for testing).
    Minutely,
    /// Never rotate - single log file.
    Never,
}

impl Default for RotationStrategy {
    fn default() -> (r: Self)
        ensures
            r == RotationStrategy::Daily,
    {
        RotationStrategy::Daily
    }
}

impl RotationStrategy {
    /// A human-readable description of the rotation strategy.
    pub fn description(&self) -> (r: &'static str)
        ensures
            r@ == match *self {
                RotationStrategy::Daily => "Rotates logs once per day at midnight"@,
                RotationStrategy::Hourly => "Rotates logs every hour"@,
                RotationStrategy::Minutely => "Rotates logs every minute (for testing)"@,
                RotationStrategy::Never => "Never rotates - uses single log file"@,
            },
    {
        match self {
            RotationStrategy::Daily => "Rotates logs once per day at midnight",
            RotationStrategy::Hourly => "Rotates logs every hour",
            RotationStrategy::Minutely => "Rotates logs every minute (for testing)",
            RotationStrategy::Never => "Never rotates - uses single log file",
        }
    }

    /// The file suffix pattern that rotated files carry.
    pub fn suffix_pattern(&self) -> (r: &'static str)
        ensures
            r@ == match *self {
                RotationStrategy::Daily => "YYYY-MM-DD"@,
                RotationStrategy::Hourly => "YYYY-MM-DD-HH"@,
                RotationStrategy::Minutely => "YYYY-MM-DD-HH-mm"@,
                RotationStrategy::Never => "(none)"@,
            },
    {
        match self {
            RotationStrategy::Daily => "YYYY-MM-DD",
            RotationStrategy::Hourly => "YYYY-MM-DD-HH",
            RotationStrategy::Minutely => "YYYY-MM-DD-HH-mm",
            RotationStrategy::Never => "(none)",
        }
    }
}

/// Log rotation configuration.
#[derive(Debug, Clone, Copy, PartialEq, Eq, Structural)]
pub struct RotationConfig {
    /// Rotation strategy.
    pub strategy: RotationStrategy,
    /// Maximum number of rotated files to keep; `None` keeps all files.
    pub max_files: Option<u32>,
    /// Whether to compress rotated files.
    pub compress: bool,
}

impl Default for RotationConfig {
    /// Daily rotation keeping seven files, uncompressed.
    fn default() -> (r: Self)
        ensures
            r == (RotationConfig {
                strategy: RotationStrategy::Daily,
                max_files: Some(7),
                compress: false,
            }),
    {
        RotationConfig { strategy: RotationStrategy::Daily, max_files: Some(7), compress: false }
    }
}

impl RotationConfig {
    /// A rotation config with the given strategy and the default retention.
    pub fn new(strategy: RotationStrategy) -> (r: Self)
        ensures
            r == (RotationConfig { strategy, max_files: Some(7), compress: false }),
    {
        RotationConfig { strategy, ..Default::default() }
    }

    /// Daily rotation.
    pub fn daily() -> (r: Self)
        ensures
            r == RotationConfig::spec_with(RotationStrategy::Daily),
    {
        Self::new(RotationStrategy::Daily)
    }

    /// Hourly rotation.
    pub fn hourly() -> (r: Self)
        ensures
            r == RotationConfig::spec_with(RotationStrategy::Hourly),
    {
        Self::new(RotationStrategy::Hourly)
    }

    /// Minutely rotation (for testing).
    pub fn minutely() -> (r: Self)
        ensures
            r == RotationConfig::spec_with(RotationStrategy::Minutely),
    {
        Self::new(RotationStrategy::Minutely)
    }

    /// A single log file that is never rotated.
    pub fn never() -> (r: Self)
        ensures
            r == RotationConfig::spec_with(RotationStrategy::Never),
    {
        Self::new(RotationStrategy::Never)
    }

    /// The default config for a strategy.
    pub open spec fn spec_with(strategy: RotationStrategy) -> RotationConfig {
        RotationConfig { strategy, max_files: Some(7), compress: false }
    }

    /// Sets the maximum number of rotated files to keep.
    pub fn with_max_files(self, max: u32) -> (r: Self)
        ensures
            r == (RotationConfig { max_files: Some(max), ..self }),
    {
        let mut s = self;
        s.max_files = Some(max);
        s
    }

    /// Keeps all rotated files indefinitely.
    pub fn keep_all(self) -> (r: Self)
        ensures
            r == (RotationConfig { max_files: None, ..self }),
    {
        let mut s = self;
        s.max_files = None;
        s
    }

    /// Enables or disables compression of rotated files.
    pub fn with_compression(self, compress: bool) -> (r: Self)
        ensures
            r == (RotationConfig { compress, ..self }),
    {
        let mut s = self;
        s.compress = compress;
        s
    }
}

/// Retention policy for log files.
#[derive(Debug, Clone, Copy, PartialEq, Eq, Structural)]
pub struct RetentionPolicy {
    /// Maximum age of log files in days.
    pub max_age_days: Option<u32>,
    /// Maximum total size of log files in bytes.
    pub max_total_size_bytes: Option<u64>,
    /// Maximum number of log files.
    pub max_files: Option<u32>,
}

impl Default for RetentionPolicy {
    /// Thirty days, one GiB, a hundred files.
    fn default() -> (r: Self)
        ensures
            r == (RetentionPolicy {
                max_age_days: Some(30),
                max_total_size_bytes: Some(1073741824),
                max_files: Some(100),
            }),
    {
        RetentionPolicy {
            max_age_days: Some(30),
            max_total_size_bytes: Some(1073741824),
            max_files: Some(100),
        }
    }
}

impl RetentionPolicy {
    /// The default retention policy.
    pub fn new() -> (r: Self)
        ensures
            r == (RetentionPolicy {
                max_age_days: Some(30),
                max_total_size_bytes: Some(1073741824),
                max_files: Some(100),
            }),
    {
        Self::default()
    }

    /// Sets the maximum age in days.
    pub fn with_max_age_days(self, days: u32) -> (r: Self)
        ensures
            r == (RetentionPolicy { max_age_days: Some(days), ..self }),
    {
        let mut s = self;
        s.max_age_days = Some(days);
        s
    }

    /// Sets the maximum total size in bytes.
    pub fn with_max_total_size(self, bytes: u64) -> (r: Self)
        ensures
            r == (RetentionPolicy { max_total_size_bytes: Some(bytes), ..self }),
    {
        let mut s = self;
        s.max_total_size_bytes = Some(bytes);
        s
    }

    /// Sets the maximum number of files.
    pub fn with_max_files(self, files: u32) -> (r: Self)
        ensures
            r == (RetentionPolicy { max_files: Some(files), ..self }),
    {
        let mut s = self;
        s.max_files = Some(files);
        s
    }

    /// A policy that keeps everything.
    pub fn keep_all() -> (r: Self)
        ensures
            r == (RetentionPolicy { max_age_days: None, max_total_size_bytes: None, max_files: None }),
    {
        RetentionPolicy { max_age_days: None, max_total_size_bytes: None, max_files: None }
    }

    /// A minimal policy for testing: one day, ten MiB, five files.
    pub fn minimal() -> (r: Self)
        ensures
            r == (RetentionPolicy {
                max_age_days: Some(1),
                max_total_size_bytes: Some(10485760),
                max_files: Some(5),
            }),
    {
        RetentionPolicy {
            max_age_days: Some(1),
            max_total_size_bytes: Some(10485760),
            max_files: Some(5),
        }
    }
}

/// What a directory listing tells of one entry.
#[derive(Debug, Clone)]
pub struct LogFileEntry {
    /// The file name (without the directory).
    pub name: String,
    /// Whether the entry is a regular file.
    pub is_file: bool,
    /// Its size in bytes, when its metadata could be read.
    pub size: Option<u64>,
    /// Its modification time in seconds since the UNIX epoch, when known.
    pub modified_secs: Option<u64>,
}

/// Statistics about log files of a directory.
#[derive(Debug, Clone, Copy, PartialEq, Eq, Structural)]
pub struct LogFileStats {
    /// Total number of log files.
    pub file_count: usize,
    /// Total size of all log files in bytes.
    pub total_size_bytes: u64,
    /// Oldest file timestamp (UNIX seconds).
    pub oldest_file_timestamp: Option<u64>,
    /// Newest file timestamp (UNIX seconds).
    pub newest_file_timestamp: Option<u64>,
}

impl Default for LogFileStats {
    fn default() -> (r: Self)
        ensures
            r == LogFileStats::empty(),
    {
        LogFileStats {
            file_count: 0,
            total_size_bytes: 0,
            oldest_file_timestamp: None,
            newest_file_timestamp: None,
        }
    }
}

/// Whether a directory entry counts as a log file with the given name prefix.
pub open spec fn counts_as_log(e: LogFileEntry, prefix: Seq<char>) -> bool {
    e.is_file && prefix.is_prefix_of(e.name@)
}

/// The earlier of an optional timestamp and a new one.
pub open spec fn min_opt(t: Option<u64>, x: u64) -> Option<u64> {
    match t {
        Some(y) => Some(if y <= x { y } else { x }),
        None => Some(x),
    }
}

/// The later of an optional timestamp and a new one.
pub open spec fn max_opt(t: Option<u64>, x: u64) -> Option<u64> {
    match t {
        Some(y) => Some(if y >= x { y } else { x }),
        None => Some(x),
    }
}

/// The sum of the known sizes of the entries that count as log files.
pub open spec fn log_bytes(es: Seq<LogFileEntry>, prefix: Seq<char>) -> nat
    decreases es.len(),
{
    if es.len() == 0 {
        0
    } else {
        let e = es.last();
        log_bytes(es.drop_last(), prefix) + if counts_as_log(e, prefix) && e.size is Some {
            e.size->0 as nat
        } else {
            0nat
        }
    }
}

impl LogFileStats {
    /// No files.
    pub open spec fn empty() -> LogFileStats {
        LogFileStats {
            file_count: 0,
            total_size_bytes: 0,
            oldest_file_timestamp: None,
            newest_file_timestamp: None,
        }
    }

    /// The statistics after one more directory entry.
    pub open spec fn step(self, e: LogFileEntry, prefix: Seq<char>) -> LogFileStats {
        if !counts_as_log(e, prefix) {
            self
        } else if e.size is None {
            LogFileStats { file_count: (self.file_count + 1) as usize, ..self }
        } else {
            let total = (self.total_size_bytes + e.size->0) as u64;
            match e.modified_secs {
                None => LogFileStats {
                    file_count: (self.file_count + 1) as usize,
                    total_size_bytes: total,
                    ..self
                },
                Some(t) => LogFileStats {
                    file_count: (self.file_count + 1) as usize,
                    total_size_bytes: total,
                    oldest_file_timestamp: min_opt(self.oldest_file_timestamp, t),
                    newest_file_timestamp: max_opt(self.newest_file_timestamp, t),
                },
            }
        }
    }

    /// The statistics of a listing: its entries folded in order.
    pub open spec fn of_entries(es: Seq<LogFileEntry>, prefix: Seq<char>) -> LogFileStats
        decreases es.len(),
    {
        if es.len() == 0 {
            LogFileStats::empty()
        } else {
            LogFileStats::of_entries(es.drop_last(), prefix).step(es.last(), prefix)
        }
    }

    /// Statistics of the entries of a directory listing: the regular files whose
    /// name starts with `filename_prefix` are counted, their known sizes summed,
    /// and the oldest and newest modification times kept.
    pub fn from_entries(entries: &[LogFileEntry], filename_prefix: &str) -> (r: Self)
        requires
            log_bytes(entries@, filename_prefix@) <= u64::MAX,
        ensures
            r == LogFileStats::of_entries(entries@, filename_prefix@),
    {
        let mut stats = LogFileStats::default();
        let mut i: usize = 0;
        while i < entries.len()
            invariant
                i <= entries@.len(),
                log_bytes(entries@, filename_prefix@) <= u64::MAX,
                stats == LogFileStats::of_entries(entries@.subrange(0, i as int), filename_prefix@),
                stats.total_size_bytes == log_bytes(entries@.subrange(0, i as int), filename_prefix@),
                stats.file_count <= i,
            decreases entries@.len() - i,
        {
            let e = &entries[i];
            let ghost sub = entries@.subrange(0, i + 1);
            assert(sub.drop_last() =~= entries@.subrange(0, i as int));
            assert(sub.last() == entries@[i as int]);
            proof {
                lemma_log_bytes_prefix(entries@, filename_prefix@, i + 1);
            }
            if e.is_file && str_starts_with(e.name.as_str(), filename_prefix) {
                stats.file_count = stats.file_count + 1;
                match e.size {
                    Some(size) => {
                        stats.total_size_bytes = stats.total_size_bytes + size;
                        match e.modified_secs {
                            Some(t) => {
                                stats.oldest_file_timestamp = match stats.oldest_file_timestamp {
                                    Some(y) => Some(if y <= t { y } else { t }),
                                    None => Some(t),
                                };
                                stats.newest_file_timestamp = match stats.newest_file_timestamp {
                                    Some(y) => Some(if y >= t { y } else { t }),
                                    None => Some(t),
                                };
                            },
                            None => {},
                        }
                    },
                    None => {},
                }
            }
            i = i + 1;
        }
        assert(entries@.subrange(0, entries@.len() as int) =~= entries@);
        stats
    }

    /// Whole days between the oldest file's timestamp and `now_secs`
    /// (zero when the timestamp lies ahead), truncated to 32 bits as a cast does.
    pub fn oldest_file_age_days_at(&self, now_secs: u64) -> (r: Option<u32>)
        ensures
            r == match self.oldest_file_timestamp {
                Some(ts) => Some(
                    (if now_secs >= ts { (now_secs - ts) / 86400 } else { 0 }) as u32,
                ),
                None => None,
            },
    {
        match self.oldest_file_timestamp {
            Some(ts) => {
                let age = now_secs.saturating_sub(ts) / 86400;
                #[verifier::truncate]
                let days = age as u32;
                Some(days)
            },
            None => None,
        }
    }

    /// Age in whole days of the oldest file, by the system clock.
    pub fn oldest_file_age_days(&self) -> (r: Option<u32>)
        ensures
            r is Some <==> self.oldest_file_timestamp is Some,
    {
        let now = unix_time_now().as_secs();
        self.oldest_file_age_days_at(now)
    }
}

/// The known sizes of a prefix of the listing sum to no more than those of the whole.
proof fn lemma_log_bytes_prefix(es: Seq<LogFileEntry>, prefix: Seq<char>, n: int)
    requires
        0 <= n <= es.len(),
    ensures
        log_bytes(es.subrange(0, n), prefix) <= log_bytes(es, prefix),
    decreases es.len() - n,
{
    if n < es.len() {
        lemma_log_bytes_prefix(es, prefix, n + 1);
        assert(es.subrange(0, n + 1).drop_last() =~= es.subrange(0, n));
    } else {
        assert(es.subrange(0, n) =~= es);
    }
}

} // verus!
