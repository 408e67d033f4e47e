//! The engine configuration and the protocol configurations it carries.
use vstd::prelude::*;

use crate::config::env::{invalid_bool_message, parse_bool, parse_failure_message, spec_parse_bool, EnvRuleBuilder};
use crate::config::hot_reload::engine_changes;
use crate::config::validation::Validatable;
use crate::error::{spec_validation_message, with_message, Error, Result, ValidationErrors};
use crate::strmap::StrMap;
use crate::text::{
    ascii_upper, cat, dec, is_unsigned_decimal, lead_ws, lowercase_of, str_eq, to_lowercase, trail_ws, trim, trim_seq,
    unsigned_decimal_value, usize_to_text,
};
use crate::time::Duration;

verus! {

/// `num_cpus::get`: the number of logical CPUs this process may use; its
/// documentation promises at least one. The count depends on the machine.
#[verifier::external_body]
fn available_cpus() -> (r: usize)
    ensures
        r >= 1,
{
    num_cpus::get()
}

/// Main engine configuration.
#[derive(Debug, Clone)]
pub struct EngineConfig {
    /// Engine name.
    pub name: String,
    /// Maximum number of devices.
    pub max_devices: usize,
    /// Maximum number of data points.
    pub max_points: usize,
    /// Tick interval in milliseconds.
    pub tick_interval_ms: u64,
    /// Number of worker threads.
    pub workers: usize,
    /// Enable metrics collection.
    pub enable_metrics: bool,
    /// Metrics export interval in seconds.
    pub metrics_interval_secs: u64,
    /// Log level.
    pub log_level: String,
    /// Protocol configurations by name.
    pub protocols: StrMap<ProtocolConfig>,
}

/// The defaults of every field but the worker count, which depends on the machine.
pub open spec fn has_engine_defaults(c: EngineConfig) -> bool {
    &&& c.name@ == "trap-simulator"@
    &&& c.max_devices == 10_000
    &&& c.max_points == 1_000_000
    &&& c.tick_interval_ms == 100
    &&& c.workers >= 4
    &&& c.enable_metrics
    &&& c.metrics_interval_secs == 10
    &&& c.log_level@ == "info"@
    &&& c.protocols.map() == Map::<Seq<char>, ProtocolConfig>::empty()
}

/// The worker count of the defaults on a machine with `cpus` CPUs: as many
/// workers as CPUs, but at least four.
pub open spec fn spec_default_workers(cpus: usize) -> usize {
    if cpus >= 4 {
        cpus
    } else {
        4
    }
}

/// The worker count of the defaults on a machine with `cpus` CPUs: as many
/// workers as CPUs, but at least four.
pub fn default_workers(cpus: usize) -> (r: usize)
    ensures
        r == spec_default_workers(cpus),
{
    if cpus >= 4 {
        cpus
    } else {
        4
    }
}

/// The defaults raise no issue when there are at most 1024 workers (a machine
/// with at most 1024 CPUs), given that `info` is its own lowercase, which the
/// `to_lowercase` wrapper states of every ASCII text it is called on.
pub proof fn lemma_defaults_valid(c: EngineConfig)
    requires
        has_engine_defaults(c),
        c.workers <= 1024,
        lowercase_of("info"@) == "info"@,
    ensures
        engine_issues(c).len() == 0,
{
    reveal_strlit("trap-simulator");
    reveal_strlit("info");
    assert(lead_ws(c.name@) == 0);
    assert(c.name@.subrange(0, c.name@.len() as int) =~= c.name@);
    assert(trail_ws(c.name@) == 0);
    assert(trim_seq(c.name@).len() > 0);
    assert((c.max_points as nat) / (c.max_devices as nat) == 100) by (nonlinear_arith)
        requires
            c.max_points == 1_000_000,
            c.max_devices == 10_000,
    ;
    assert(points_per_device(c) == 100);
    assert(is_valid_level(lowercase_of(c.log_level@)));
    assert(engine_issues(c) =~= Seq::empty());
}

impl Default for EngineConfig {
    /// Defaults, with as many workers as CPUs but at least four.
    fn default() -> (r: Self)
        ensures
            has_engine_defaults(r),
    {
        let workers = default_workers(available_cpus());
        EngineConfig {
            name: "trap-simulator".to_owned(),
            max_devices: 10_000,
            max_points: 1_000_000,
            tick_interval_ms: 100,
            workers,
            enable_metrics: true,
            metrics_interval_secs: 10,
            log_level: "info".to_owned(),
            protocols: StrMap::new(),
        }
    }
}

/// The end of the message for an unknown log level: the accepted levels, as
/// `{:?}` prints the list.
pub open spec fn valid_levels_tail() -> Seq<char> {
    "', must be one of: [\"trace\", \"debug\", \"info\", \"warn\", \"error\"]"@
}

/// Whether a lowercased level name is one of the accepted ones.
pub open spec fn is_valid_level(l: Seq<char>) -> bool {
    l == "trace"@ || l == "debug"@ || l == "info"@ || l == "warn"@ || l == "error"@
}

/// One reported problem when the condition holds, none otherwise.
pub open spec fn issue_if(cond: bool, field: Seq<char>, message: Seq<char>) -> Seq<(Seq<char>, Seq<char>)> {
    if cond {
        seq![(field, message)]
    } else {
        Seq::empty()
    }
}

/// Points per device, counting at least one device.
pub open spec fn points_per_device(c: EngineConfig) -> nat {
    (c.max_points as nat) / (if c.max_devices >= 1 { c.max_devices as nat } else { 1nat })
}

/// The problems of an engine configuration, as (field, message) pairs in the
/// order they are reported.
pub open spec fn engine_issues(c: EngineConfig) -> Seq<(Seq<char>, Seq<char>)> {
    Seq::empty()
        + issue_if(trim_seq(c.name@).len() == 0, "name"@, "Engine name cannot be empty"@)
        + issue_if(c.max_devices == 0, "max_devices"@, "Max devices must be greater than 0"@)
        + issue_if(c.max_devices > 1_000_000, "max_devices"@, "Max devices cannot exceed 1,000,000"@)
        + issue_if(c.max_points == 0, "max_points"@, "Max points must be greater than 0"@)
        + issue_if(c.max_points > 100_000_000, "max_points"@, "Max points cannot exceed 100,000,000"@)
        + issue_if(c.tick_interval_ms < 1, "tick_interval_ms"@, "Tick interval must be at least 1ms"@)
        + issue_if(
            c.tick_interval_ms > 60_000,
            "tick_interval_ms"@,
            "Tick interval cannot exceed 60 seconds"@,
        )
        + issue_if(c.workers == 0, "workers"@, "Workers must be greater than 0"@)
        + issue_if(c.workers > 1024, "workers"@, "Workers cannot exceed 1024"@)
        + issue_if(
            c.enable_metrics && c.metrics_interval_secs == 0,
            "metrics_interval_secs"@,
            "Metrics interval must be greater than 0 when metrics are enabled"@,
        )
        + issue_if(
            !is_valid_level(lowercase_of(c.log_level@)),
            "log_level"@,
            "Invalid log level '"@ + c.log_level@ + valid_levels_tail(),
        )
        + issue_if(
            points_per_device(c) > 10_000,
            "max_points, max_devices"@,
            "Average points per device ("@ + dec(points_per_device(c)) + ") seems too high"@,
        )
}

/// The issues of a list of (field, message) strings, as text.
pub open spec fn issue_texts(v: Seq<(String, String)>) -> Seq<(Seq<char>, Seq<char>)> {
    v.map_values(|p: (String, String)| (p.0@, p.1@))
}

fn push_issue_if(issues: &mut Vec<(String, String)>, cond: bool, field: &str, message: &str)
    ensures
        issue_texts(final(issues)@) == issue_texts(old(issues)@) + issue_if(cond, field@, message@),
{
    if cond {
        issues.push((field.to_owned(), message.to_owned()));
        assert(issue_texts(issues@) =~= issue_texts(old(issues)@) + issue_if(cond, field@, message@));
    } else {
        assert(issue_texts(issues@) =~= issue_texts(old(issues)@) + issue_if(cond, field@, message@));
    }
}

/// The error map after reporting the issues in order.
pub open spec fn report_all(
    m: Map<Seq<char>, Seq<Seq<char>>>,
    issues: Seq<(Seq<char>, Seq<char>)>,
) -> Map<Seq<char>, Seq<Seq<char>>>
    decreases issues.len(),
{
    if issues.len() == 0 {
        m
    } else {
        with_message(report_all(m, issues.drop_last()), issues.last().0, issues.last().1)
    }
}

proof fn lemma_report_push(
    m: Map<Seq<char>, Seq<Seq<char>>>,
    issues: Seq<(Seq<char>, Seq<char>)>,
    f: Seq<char>,
    msg: Seq<char>,
)
    ensures
        report_all(m, issues.push((f, msg))) == with_message(report_all(m, issues), f, msg),
{
    assert(issues.push((f, msg)).drop_last() =~= issues);
}

/// Reporting no issue leaves the map as it is; reporting some adds a message.
pub proof fn lemma_report_empty(m: Map<Seq<char>, Seq<Seq<char>>>, issues: Seq<(Seq<char>, Seq<char>)>)
    ensures
        issues.len() == 0 ==> report_all(m, issues) == m,
        issues.len() > 0 ==> report_all(m, issues).contains_key(issues.last().0),
{
}

/// An element of either part is an element of a joined sequence.
pub broadcast proof fn lemma_concat_contains<T>(a: Seq<T>, b: Seq<T>, x: T)
    ensures
        (a.contains(x) || b.contains(x)) ==> #[trigger] (a + b).contains(x),
{
    if a.contains(x) {
        let i = choose|i: int| 0 <= i < a.len() && a[i] == x;
        assert((a + b)[i] == x);
    } else if b.contains(x) {
        let i = choose|i: int| 0 <= i < b.len() && b[i] == x;
        assert((a + b)[a.len() + i] == x);
    }
}

/// A reported issue is in its one-element list.
broadcast proof fn lemma_issue_listed(cond: bool, f: Seq<char>, m: Seq<char>)
    ensures
        cond ==> #[trigger] issue_if(cond, f, m).contains((f, m)),
{
    if cond {
        assert(issue_if(cond, f, m)[0] == (f, m));
    }
}

/// Every reported issue ends up among the messages of its field.
pub proof fn lemma_report_keeps(
    m: Map<Seq<char>, Seq<Seq<char>>>,
    issues: Seq<(Seq<char>, Seq<char>)>,
    x: (Seq<char>, Seq<char>),
)
    requires
        issues.contains(x),
    ensures
        report_all(m, issues).contains_key(x.0),
        report_all(m, issues)[x.0].contains(x.1),
    decreases issues.len(),
{
    let pre = issues.drop_last();
    let last = issues.last();
    let r = report_all(m, pre);
    if last == x {
        let old_msgs = if r.contains_key(x.0) { r[x.0] } else { Seq::<Seq<char>>::empty() };
        assert(old_msgs.push(x.1)[old_msgs.len() as int] == x.1);
    } else {
        let i = choose|i: int| 0 <= i < issues.len() && issues[i] == x;
        assert(i < issues.len() - 1);
        assert(pre[i] == x);
        lemma_report_keeps(m, pre, x);
        let j = choose|j: int| 0 <= j < r[x.0].len() && r[x.0][j] == x.1;
        if last.0 == x.0 {
            assert(r[x.0].push(last.1)[j] == x.1);
        }
    }
}

/// Validation refuses every configuration with a field out of its range, and
/// reports the refusal under that field: no name (after trimming), no
/// devices or more than a million, no points or more than a hundred million,
/// a tick under 1 ms or over a minute, no workers or more than 1024, and
/// metrics enabled with no interval. A configuration with no issues has
/// every one of these fields in range.
pub proof fn lemma_out_of_range_refused(c: EngineConfig)
    ensures
        c.workers > 1024 ==> engine_issues(c).contains(("workers"@, "Workers cannot exceed 1024"@)),
        c.workers == 0 ==> engine_issues(c).contains(("workers"@, "Workers must be greater than 0"@)),
        c.max_devices == 0 ==> engine_issues(c).contains(
            ("max_devices"@, "Max devices must be greater than 0"@),
        ),
        c.max_devices > 1_000_000 ==> engine_issues(c).contains(
            ("max_devices"@, "Max devices cannot exceed 1,000,000"@),
        ),
        c.max_points == 0 ==> engine_issues(c).contains(
            ("max_points"@, "Max points must be greater than 0"@),
        ),
        c.max_points > 100_000_000 ==> engine_issues(c).contains(
            ("max_points"@, "Max points cannot exceed 100,000,000"@),
        ),
        c.tick_interval_ms < 1 ==> engine_issues(c).contains(
            ("tick_interval_ms"@, "Tick interval must be at least 1ms"@),
        ),
        c.tick_interval_ms > 60_000 ==> engine_issues(c).contains(
            ("tick_interval_ms"@, "Tick interval cannot exceed 60 seconds"@),
        ),
        c.enable_metrics && c.metrics_interval_secs == 0 ==> engine_issues(c).contains(
            ("metrics_interval_secs"@, "Metrics interval must be greater than 0 when metrics are enabled"@),
        ),
        trim_seq(c.name@).len() == 0 ==> engine_issues(c).contains(
            ("name"@, "Engine name cannot be empty"@),
        ),
        forall|x: (Seq<char>, Seq<char>)| #[trigger] engine_issues(c).contains(x)
            ==> report_all(Map::empty(), engine_issues(c)).contains_key(x.0)
            && report_all(Map::empty(), engine_issues(c))[x.0].contains(x.1),
        engine_issues(c).len() == 0 ==> {
            &&& 1 <= c.workers <= 1024
            &&& 1 <= c.max_devices <= 1_000_000
            &&& 1 <= c.max_points <= 100_000_000
            &&& 1 <= c.tick_interval_ms <= 60_000
            &&& (c.enable_metrics ==> c.metrics_interval_secs > 0)
            &&& trim_seq(c.name@).len() > 0
        },
{
    broadcast use lemma_concat_contains, lemma_issue_listed;
    assert forall|x: (Seq<char>, Seq<char>)| #[trigger] engine_issues(c).contains(x) implies report_all(
        Map::empty(),
        engine_issues(c),
    ).contains_key(x.0) && report_all(Map::empty(), engine_issues(c))[x.0].contains(x.1) by {
        lemma_report_keeps(Map::empty(), engine_issues(c), x);
    }
}

impl EngineConfig {
    /// The default configuration.
    pub fn new() -> (r: Self)
        ensures
            has_engine_defaults(r),
    {
        EngineConfig::default()
    }

    /// The tick interval as a duration.
    pub fn tick_interval(&self) -> (r: Duration)
        ensures
            r@ == self.tick_interval_ms as nat * 1_000_000,
    {
        Duration::from_millis(self.tick_interval_ms)
    }

    /// Sets the maximum number of devices.
    pub fn with_max_devices(self, max: usize) -> (r: Self)
        ensures
            r == (EngineConfig { max_devices: max, ..self }),
    {
        let mut s = self;
        s.max_devices = max;
        s
    }

    /// Sets the maximum number of data points.
    pub fn with_max_points(self, max: usize) -> (r: Self)
        ensures
            r == (EngineConfig { max_points: max, ..self }),
    {
        let mut s = self;
        s.max_points = max;
        s
    }

    /// Sets the tick interval, in whole milliseconds (truncated to 64 bits).
    pub fn with_tick_interval(self, interval: Duration) -> (r: Self)
        ensures
            r == (EngineConfig { tick_interval_ms: ((interval@ / 1_000_000) as u64), ..self }),
    {
        let ms = interval.as_millis();
        let mut s = self;
        #[verifier::truncate]
        let t = ms as u64;
        s.tick_interval_ms = t;
        s
    }

    /// Sets the number of worker threads.
    pub fn with_workers(self, workers: usize) -> (r: Self)
        ensures
            r == (EngineConfig { workers, ..self }),
    {
        let mut s = self;
        s.workers = workers;
        s
    }

    /// Sets the log level.
    pub fn with_log_level(self, level: &str) -> (r: Self)
        ensures
            r.log_level@ == level@,
            r == (EngineConfig { log_level: r.log_level, ..self }),
    {
        let mut s = self;
        s.log_level = level.to_owned();
        s
    }

    /// Enables or disables metrics.
    pub fn with_metrics(self, enable: bool) -> (r: Self)
        ensures
            r == (EngineConfig { enable_metrics: enable, ..self }),
    {
        let mut s = self;
        s.enable_metrics = enable;
        s
    }

    /// Adds a protocol configuration under a name, replacing an earlier one.
    pub fn with_protocol(self, name: &str, config: ProtocolConfig) -> (r: Self)
        ensures
            r.protocols.map() == self.protocols.map().insert(name@, config),
            r == (EngineConfig { protocols: r.protocols, ..self }),
    {
        let mut s = self;
        s.protocols.insert(name.to_owned(), config);
        s
    }
}

impl Validatable for EngineConfig {
    fn validate(&self) -> (r: Result<()>)
        ensures
            r is Ok <==> engine_issues(*self).len() == 0,
            r matches Err(e) ==> (e matches Error::Validation { errors, message } && errors.model()
                == report_all(Map::empty(), engine_issues(*self)) && message@ == spec_validation_message(
                report_all(Map::empty(), engine_issues(*self)).len(),
            )),
    {
        let mut errors = ValidationErrors::new();
        self.validate_collect(&mut errors);
        proof {
            lemma_report_empty(Map::empty(), engine_issues(*self));
            errors.lemma_model_finite();
            if engine_issues(*self).len() > 0 {
                assert(errors.model().dom().contains(engine_issues(*self).last().0));
                assert(errors.model().len() > 0);
            }
        }
        errors.into_result(())
    }

    fn validate_collect(&self, errors: &mut ValidationErrors)
        ensures
            final(errors).model() == report_all(old(errors).model(), engine_issues(*self)),
    {
        let issues = self.issues();
        let ghost base = errors.model();
        let ghost it = issue_texts(issues@);
        let mut i: usize = 0;
        while i < issues.len()
            invariant
                i <= issues@.len(),
                it == issue_texts(issues@),
                errors.model() == report_all(base, it.subrange(0, i as int)),
            decreases issues@.len() - i,
        {
            errors.add(issues[i].0.as_str(), issues[i].1.as_str());
            proof {
                lemma_report_push(base, it.subrange(0, i as int), it[i as int].0, it[i as int].1);
                assert(it.subrange(0, i as int).push(it[i as int]) =~= it.subrange(0, i + 1));
            }
            i = i + 1;
        }
        assert(it.subrange(0, issues@.len() as int) =~= it);
    }
}

impl EngineConfig {
    /// The problems of the configuration, in the order they are reported.
    fn issues(&self) -> (r: Vec<(String, String)>)
        ensures
            issue_texts(r@) == engine_issues(*self),
    {
        let mut issues: Vec<(String, String)> = Vec::new();
        assert(issue_texts(issues@) =~= Seq::<(Seq<char>, Seq<char>)>::empty());
        push_issue_if(&mut issues, trim(self.name.as_str()).unicode_len() == 0, "name", "Engine name cannot be empty");
        push_issue_if(&mut issues, self.max_devices == 0, "max_devices", "Max devices must be greater than 0");
        push_issue_if(&mut issues, self.max_devices > 1_000_000, "max_devices", "Max devices cannot exceed 1,000,000");
        push_issue_if(&mut issues, self.max_points == 0, "max_points", "Max points must be greater than 0");
        push_issue_if(&mut issues, self.max_points > 100_000_000, "max_points", "Max points cannot exceed 100,000,000");
        push_issue_if(&mut issues, self.tick_interval_ms < 1, "tick_interval_ms", "Tick interval must be at least 1ms");
        push_issue_if(&mut issues, self.tick_interval_ms > 60_000, "tick_interval_ms", "Tick interval cannot exceed 60 seconds");
        push_issue_if(&mut issues, self.workers == 0, "workers", "Workers must be greater than 0");
        push_issue_if(&mut issues, self.workers > 1024, "workers", "Workers cannot exceed 1024");
        push_issue_if(
            &mut issues,
            self.enable_metrics && self.metrics_interval_secs == 0,
            "metrics_interval_secs",
            "Metrics interval must be greater than 0 when metrics are enabled",
        );
        let lower = to_lowercase(self.log_level.as_str());
        let l = lower.as_str();
        let valid = str_eq(l, "trace") || str_eq(l, "debug") || str_eq(l, "info") || str_eq(l, "warn")
            || str_eq(l, "error");
        let level_msg = cat("Invalid log level '", self.log_level.as_str()).concat(
            "', must be one of: [\"trace\", \"debug\", \"info\", \"warn\", \"error\"]",
        );
        push_issue_if(&mut issues, !valid, "log_level", level_msg.as_str());
        let devices = if self.max_devices >= 1 { self.max_devices } else { 1 };
        let per_device = self.max_points / devices;
        let ratio_msg = cat("Average points per device (", usize_to_text(per_device).as_str()).concat(
            ") seems too high",
        );
        push_issue_if(&mut issues, per_device > 10_000, "max_points, max_devices", ratio_msg.as_str());
        issues
    }
}

/// Protocol-specific configuration.
#[derive(Debug, Clone)]
pub enum ProtocolConfig {
    /// Modbus TCP configuration.
    ModbusTcp(ModbusTcpConfig),
    /// Modbus RTU configuration.
    ModbusRtu(ModbusRtuConfig),
    /// OPC UA configuration.
    OpcUa(OpcUaConfig),
    /// BACnet/IP configuration.
    BacnetIp(BacnetIpConfig),
    /// KNXnet/IP configuration.
    KnxIp(KnxIpConfig),
}

/// Modbus TCP configuration.
#[derive(Debug, Clone)]
pub struct ModbusTcpConfig {
    /// Bind address (`ip:port`).
    pub bind_address: String,
    /// Maximum connections.
    pub max_connections: usize,
    /// Connection timeout in seconds.
    pub timeout_secs: u64,
    /// Enable keep-alive.
    pub keep_alive: bool,
}

impl Default for ModbusTcpConfig {
    fn default() -> (r: Self)
        ensures
            r.bind_address@ == "0.0.0.0:502"@,
            r.max_connections == 1000,
            r.timeout_secs == 30,
            r.keep_alive,
    {
        ModbusTcpConfig {
            bind_address: "0.0.0.0:502".to_owned(),
            max_connections: 1000,
            timeout_secs: 30,
            keep_alive: true,
        }
    }
}

/// Modbus RTU configuration.
#[derive(Debug, Clone)]
pub struct ModbusRtuConfig {
    /// Serial port path.
    pub serial_port: String,
    /// Baud rate.
    pub baud_rate: u32,
    /// Data bits.
    pub data_bits: u8,
    /// Parity.
    pub parity: String,
    /// Stop bits.
    pub stop_bits: u8,
}

impl Default for ModbusRtuConfig {
    fn default() -> (r: Self)
        ensures
            r.serial_port@ == "/dev/ttyUSB0"@,
            r.baud_rate == 9600,
            r.data_bits == 8,
            r.parity@ == "none"@,
            r.stop_bits == 1,
    {
        ModbusRtuConfig {
            serial_port: "/dev/ttyUSB0".to_owned(),
            baud_rate: 9600,
            data_bits: 8,
            parity: "none".to_owned(),
            stop_bits: 1,
        }
    }
}

/// OPC UA configuration.
#[derive(Debug, Clone)]
pub struct OpcUaConfig {
    /// Endpoint URL.
    pub endpoint_url: String,
    /// Server name.
    pub server_name: String,
    /// Security policy.
    pub security_policy: String,
    /// Certificate path.
    pub certificate_path: Option<String>,
    /// Private key path.
    pub private_key_path: Option<String>,
    /// Max subscriptions.
    pub max_subscriptions: usize,
}

impl Default for OpcUaConfig {
    fn default() -> (r: Self)
        ensures
            r.endpoint_url@ == "opc.tcp://0.0.0.0:4840"@,
            r.server_name@ == "TRAP Simulator OPC UA Server"@,
            r.security_policy@ == "None"@,
            r.certificate_path is None,
            r.private_key_path is None,
            r.max_subscriptions == 100,
    {
        OpcUaConfig {
            endpoint_url: "opc.tcp://0.0.0.0:4840".to_owned(),
            server_name: "TRAP Simulator OPC UA Server".to_owned(),
            security_policy: "None".to_owned(),
            certificate_path: None,
            private_key_path: None,
            max_subscriptions: 100,
        }
    }
}

/// BACnet/IP configuration.
#[derive(Debug, Clone)]
pub struct BacnetIpConfig {
    /// Bind address (`ip:port`).
    pub bind_address: String,
    /// BACnet device instance.
    pub device_instance: u32,
    /// BACnet device name.
    pub device_name: String,
    /// Enable BBMD (BACnet Broadcast Management Device).
    pub enable_bbmd: bool,
    /// BBMD table.
    pub bbmd_table: Vec<String>,
}

impl Default for BacnetIpConfig {
    fn default() -> (r: Self)
        ensures
            r.bind_address@ == "0.0.0.0:47808"@,
            r.device_instance == 1234,
            r.device_name@ == "TRAP Simulator BACnet Device"@,
            !r.enable_bbmd,
            r.bbmd_table@.len() == 0,
    {
        BacnetIpConfig {
            bind_address: "0.0.0.0:47808".to_owned(),
            device_instance: 1234,
            device_name: "TRAP Simulator BACnet Device".to_owned(),
            enable_bbmd: false,
            bbmd_table: Vec::new(),
        }
    }
}

/// KNXnet/IP configuration.
#[derive(Debug, Clone)]
pub struct KnxIpConfig {
    /// Bind address (`ip:port`).
    pub bind_address: String,
    /// Individual address.
    pub individual_address: String,
    /// Enable tunneling.
    pub enable_tunneling: bool,
    /// Enable routing.
    pub enable_routing: bool,
    /// Multicast address for routing.
    pub multicast_address: String,
}

impl Default for KnxIpConfig {
    fn default() -> (r: Self)
        ensures
            r.bind_address@ == "0.0.0.0:3671"@,
            r.individual_address@ == "1.1.1"@,
            r.enable_tunneling,
            !r.enable_routing,
            r.multicast_address@ == "224.0.23.12"@,
    {
        KnxIpConfig {
            bind_address: "0.0.0.0:3671".to_owned(),
            individual_address: "1.1.1".to_owned(),
            enable_tunneling: true,
            enable_routing: false,
            multicast_address: "224.0.23.12".to_owned(),
        }
    }
}

#[verifier::external_type_specification]
#[verifier::external_body]
pub struct ExParseIntError(std::num::ParseIntError);

/// Whether a text is an unsigned decimal number no greater than `max`.
pub open spec fn fits_decimal(s: Seq<char>, max: nat) -> bool {
    is_unsigned_decimal(s) && unsigned_decimal_value(s) <= max
}

/// `str::parse::<usize>`: as its documentation says, the number the text
/// denotes when the text is an optional `+` followed by decimal digits only
/// and the number fits; otherwise a parse error.
#[verifier::external_body]
fn parse_usize(s: &str) -> (r: std::result::Result<usize, std::num::ParseIntError>)
    ensures
        r is Ok <==> fits_decimal(s@, usize::MAX as nat),
        r matches Ok(v) ==> v == unsigned_decimal_value(s@),
{
    s.parse::<usize>()
}

/// `str::parse::<u64>`: as its documentation says, the number the text
/// denotes when the text is an optional `+` followed by decimal digits only
/// and the number fits in 64 bits; otherwise a parse error.
#[verifier::external_body]
fn parse_u64(s: &str) -> (r: std::result::Result<u64, std::num::ParseIntError>)
    ensures
        r is Ok <==> fits_decimal(s@, u64::MAX as nat),
        r matches Ok(v) ==> v == unsigned_decimal_value(s@),
{
    s.parse::<u64>()
}

/// The `Display` text of an integer parse error: std's own wording, of which
/// nothing is stated.
#[verifier::external_body]
fn parse_error_text(e: &std::num::ParseIntError) -> String {
    e.to_string()
}

/// The settings of the engine configuration that environment variables
/// override, in the order they are applied.
#[derive(Debug, Clone, Copy, PartialEq, Eq, Structural)]
pub enum EngineOverride {
    /// `ENGINE_NAME` sets the name.
    Name,
    /// `ENGINE_MAX_DEVICES` sets the maximum number of devices.
    MaxDevices,
    /// `ENGINE_MAX_POINTS` sets the maximum number of data points.
    MaxPoints,
    /// `ENGINE_TICK_INTERVAL_MS` sets the tick interval.
    TickInterval,
    /// `ENGINE_WORKERS` sets the number of workers.
    Workers,
    /// `ENGINE_METRICS` enables or disables metrics.
    Metrics,
    /// `ENGINE_METRICS_INTERVAL` sets the metrics export interval.
    MetricsInterval,
    /// `LOG_LEVEL` sets the log level.
    LogLevel,
}

/// The variable suffix of an override.
pub open spec fn override_suffix(o: EngineOverride) -> Seq<char> {
    match o {
        EngineOverride::Name => "ENGINE_NAME"@,
        EngineOverride::MaxDevices => "ENGINE_MAX_DEVICES"@,
        EngineOverride::MaxPoints => "ENGINE_MAX_POINTS"@,
        EngineOverride::TickInterval => "ENGINE_TICK_INTERVAL_MS"@,
        EngineOverride::Workers => "ENGINE_WORKERS"@,
        EngineOverride::Metrics => "ENGINE_METRICS"@,
        EngineOverride::MetricsInterval => "ENGINE_METRICS_INTERVAL"@,
        EngineOverride::LogLevel => "LOG_LEVEL"@,
    }
}

/// The field path an override sets.
pub open spec fn override_field(o: EngineOverride) -> Seq<char> {
    match o {
        EngineOverride::Name => "name"@,
        EngineOverride::MaxDevices => "max_devices"@,
        EngineOverride::MaxPoints => "max_points"@,
        EngineOverride::TickInterval => "tick_interval_ms"@,
        EngineOverride::Workers => "workers"@,
        EngineOverride::Metrics => "enable_metrics"@,
        EngineOverride::MetricsInterval => "metrics_interval_secs"@,
        EngineOverride::LogLevel => "log_level"@,
    }
}

/// The description of an override.
pub open spec fn override_description(o: EngineOverride) -> Seq<char> {
    match o {
        EngineOverride::Name => "Engine instance name"@,
        EngineOverride::MaxDevices => "Maximum number of devices"@,
        EngineOverride::MaxPoints => "Maximum number of data points"@,
        EngineOverride::TickInterval => "Tick interval in milliseconds"@,
        EngineOverride::Workers => "Number of worker threads"@,
        EngineOverride::Metrics => "Enable metrics collection"@,
        EngineOverride::MetricsInterval => "Metrics export interval in seconds"@,
        EngineOverride::LogLevel => "Log level (trace, debug, info, warn, error)"@,
    }
}

/// Whether an override's outcome is a refusal of a number: the configuration
/// unchanged and a message that starts with `Failed to parse: `.
pub open spec fn number_refused(
    before: EngineConfig,
    after: EngineConfig,
    r: std::result::Result<(), String>,
) -> bool {
    &&& after == before
    &&& (r matches Err(m) && "Failed to parse: "@.is_prefix_of(m@))
}

/// The variable of an override is named after the field it sets, in upper
/// case: `ENGINE_` followed by the field's name for the engine's own fields
/// (`ENGINE_WORKERS` sets `workers`, `ENGINE_TICK_INTERVAL_MS` sets
/// `tick_interval_ms`), the field's name alone for the log level, and for the
/// two metrics settings `ENGINE_` followed by the field's name without its
/// `ENABLE_` prefix or `_SECS` unit.
pub proof fn lemma_override_named_after_field(o: EngineOverride)
    ensures
        !(o is Metrics || o is MetricsInterval || o is LogLevel) ==> override_suffix(o) == "ENGINE_"@
            + ascii_upper(override_field(o)),
        o is LogLevel ==> override_suffix(o) == ascii_upper(override_field(o)),
        o is Metrics ==> "ENABLE_"@ + override_suffix(o).subrange(7, override_suffix(o).len() as int)
            == ascii_upper(override_field(o)) && "ENGINE_"@.is_prefix_of(override_suffix(o)),
        o is MetricsInterval ==> override_suffix(o) + "_SECS"@ == "ENGINE_"@ + ascii_upper(
            override_field(o),
        ),
{
    reveal_strlit("ENGINE_");
    reveal_strlit("ENABLE_");
    reveal_strlit("_SECS");
    match o {
        EngineOverride::Name => {
            reveal_strlit("ENGINE_NAME");
            reveal_strlit("name");
            assert(override_suffix(o) =~= "ENGINE_"@ + ascii_upper(override_field(o)));
        },
        EngineOverride::MaxDevices => {
            reveal_strlit("ENGINE_MAX_DEVICES");
            reveal_strlit("max_devices");
            assert(override_suffix(o) =~= "ENGINE_"@ + ascii_upper(override_field(o)));
        },
        EngineOverride::MaxPoints => {
            reveal_strlit("ENGINE_MAX_POINTS");
            reveal_strlit("max_points");
            assert(override_suffix(o) =~= "ENGINE_"@ + ascii_upper(override_field(o)));
        },
        EngineOverride::TickInterval => {
            reveal_strlit("ENGINE_TICK_INTERVAL_MS");
            reveal_strlit("tick_interval_ms");
            assert(override_suffix(o) =~= "ENGINE_"@ + ascii_upper(override_field(o)));
        },
        EngineOverride::Workers => {
            reveal_strlit("ENGINE_WORKERS");
            reveal_strlit("workers");
            assert(override_suffix(o) =~= "ENGINE_"@ + ascii_upper(override_field(o)));
        },
        EngineOverride::Metrics => {
            reveal_strlit("ENGINE_METRICS");
            reveal_strlit("enable_metrics");
            assert("ENABLE_"@ + override_suffix(o).subrange(7, override_suffix(o).len() as int)
                =~= ascii_upper(override_field(o)));
            assert("ENGINE_"@ =~= override_suffix(o).subrange(0, 7));
        },
        EngineOverride::MetricsInterval => {
            reveal_strlit("ENGINE_METRICS_INTERVAL");
            reveal_strlit("metrics_interval_secs");
            assert(override_suffix(o) + "_SECS"@ =~= "ENGINE_"@ + ascii_upper(override_field(o)));
        },
        EngineOverride::LogLevel => {
            reveal_strlit("LOG_LEVEL");
            reveal_strlit("log_level");
            assert(override_suffix(o) =~= ascii_upper(override_field(o)));
        },
    }
}

impl EngineOverride {
    /// Every override, in the order they are applied.
    pub fn all() -> (r: Vec<EngineOverride>)
        ensures
            r@ == seq![
                EngineOverride::Name,
                EngineOverride::MaxDevices,
                EngineOverride::MaxPoints,
                EngineOverride::TickInterval,
                EngineOverride::Workers,
                EngineOverride::Metrics,
                EngineOverride::MetricsInterval,
                EngineOverride::LogLevel,
            ],
    {
        let r = vec![
            EngineOverride::Name,
            EngineOverride::MaxDevices,
            EngineOverride::MaxPoints,
            EngineOverride::TickInterval,
            EngineOverride::Workers,
            EngineOverride::Metrics,
            EngineOverride::MetricsInterval,
            EngineOverride::LogLevel,
        ];
        assert(r@ =~= seq![
            EngineOverride::Name,
            EngineOverride::MaxDevices,
            EngineOverride::MaxPoints,
            EngineOverride::TickInterval,
            EngineOverride::Workers,
            EngineOverride::Metrics,
            EngineOverride::MetricsInterval,
            EngineOverride::LogLevel,
        ]);
        r
    }

    /// The variable suffix.
    pub fn suffix(&self) -> (r: &'static str)
        ensures
            r@ == override_suffix(*self),
    {
        match self {
            EngineOverride::Name => "ENGINE_NAME",
            EngineOverride::MaxDevices => "ENGINE_MAX_DEVICES",
            EngineOverride::MaxPoints => "ENGINE_MAX_POINTS",
            EngineOverride::TickInterval => "ENGINE_TICK_INTERVAL_MS",
            EngineOverride::Workers => "ENGINE_WORKERS",
            EngineOverride::Metrics => "ENGINE_METRICS",
            EngineOverride::MetricsInterval => "ENGINE_METRICS_INTERVAL",
            EngineOverride::LogLevel => "LOG_LEVEL",
        }
    }

    /// The field path it sets.
    pub fn field_path(&self) -> (r: &'static str)
        ensures
            r@ == override_field(*self),
    {
        match self {
            EngineOverride::Name => "name",
            EngineOverride::MaxDevices => "max_devices",
            EngineOverride::MaxPoints => "max_points",
            EngineOverride::TickInterval => "tick_interval_ms",
            EngineOverride::Workers => "workers",
            EngineOverride::Metrics => "enable_metrics",
            EngineOverride::MetricsInterval => "metrics_interval_secs",
            EngineOverride::LogLevel => "log_level",
        }
    }

    /// The description.
    pub fn description(&self) -> (r: &'static str)
        ensures
            r@ == override_description(*self),
    {
        match self {
            EngineOverride::Name => "Engine instance name",
            EngineOverride::MaxDevices => "Maximum number of devices",
            EngineOverride::MaxPoints => "Maximum number of data points",
            EngineOverride::TickInterval => "Tick interval in milliseconds",
            EngineOverride::Workers => "Number of worker threads",
            EngineOverride::Metrics => "Enable metrics collection",
            EngineOverride::MetricsInterval => "Metrics export interval in seconds",
            EngineOverride::LogLevel => "Log level (trace, debug, info, warn, error)",
        }
    }

    /// The rule of the override: its suffix, field path and description.
    pub fn rule(&self) -> (r: EnvRuleBuilder<EngineConfig>)
        ensures
            r.spec_suffix() == override_suffix(*self),
            r.spec_field_path() == override_field(*self),
            r.spec_description() == override_description(*self),
    {
        EnvRuleBuilder::new(self.suffix()).field_path(self.field_path()).description(self.description())
    }

    /// Sets the override's field from a variable's value. Text fields take the
    /// value as it is; flags take the spellings `parse_bool` accepts; numbers
    /// take an unsigned decimal that fits the field. A refused value leaves
    /// the configuration as it was.
    pub fn apply(&self, config: &mut EngineConfig, value: &str) -> (r: std::result::Result<(), String>)
        ensures
            forall|i: int|
                0 <= i < engine_changes(*old(config), *final(config)).len() ==> (#[trigger] engine_changes(
                    *old(config),
                    *final(config),
                )[i]).0 == override_field(*self),
            match *self {
                EngineOverride::Name => r is Ok && final(config).name@ == value@ && *final(config) == (
                EngineConfig { name: final(config).name, ..*old(config) }),
                EngineOverride::LogLevel => r is Ok && final(config).log_level@ == value@
                    && *final(config) == (EngineConfig { log_level: final(config).log_level, ..*old(config) }),
                EngineOverride::Metrics => match spec_parse_bool(lowercase_of(value@)) {
                    Some(b) => r is Ok && *final(config) == (EngineConfig {
                        enable_metrics: b,
                        ..*old(config)
                    }),
                    None => *final(config) == *old(config) && (r matches Err(m) && m@
                        == "Invalid boolean value: "@ + value@),
                },
                EngineOverride::MaxDevices => if fits_decimal(value@, usize::MAX as nat) {
                    r is Ok && *final(config) == (EngineConfig {
                        max_devices: unsigned_decimal_value(value@) as usize,
                        ..*old(config)
                    })
                } else {
                    number_refused(*old(config), *final(config), r)
                },
                EngineOverride::MaxPoints => if fits_decimal(value@, usize::MAX as nat) {
                    r is Ok && *final(config) == (EngineConfig {
                        max_points: unsigned_decimal_value(value@) as usize,
                        ..*old(config)
                    })
                } else {
                    number_refused(*old(config), *final(config), r)
                },
                EngineOverride::Workers => if fits_decimal(value@, usize::MAX as nat) {
                    r is Ok && *final(config) == (EngineConfig {
                        workers: unsigned_decimal_value(value@) as usize,
                        ..*old(config)
                    })
                } else {
                    number_refused(*old(config), *final(config), r)
                },
                EngineOverride::TickInterval => if fits_decimal(value@, u64::MAX as nat) {
                    r is Ok && *final(config) == (EngineConfig {
                        tick_interval_ms: unsigned_decimal_value(value@) as u64,
                        ..*old(config)
                    })
                } else {
                    number_refused(*old(config), *final(config), r)
                },
                EngineOverride::MetricsInterval => if fits_decimal(value@, u64::MAX as nat) {
                    r is Ok && *final(config) == (EngineConfig {
                        metrics_interval_secs: unsigned_decimal_value(value@) as u64,
                        ..*old(config)
                    })
                } else {
                    number_refused(*old(config), *final(config), r)
                },
            },
    {
        match self {
            EngineOverride::Name => {
                config.name = value.to_owned();
                Ok(())
            },
            EngineOverride::LogLevel => {
                config.log_level = value.to_owned();
                Ok(())
            },
            EngineOverride::Metrics => match parse_bool(value) {
                Some(b) => {
                    config.enable_metrics = b;
                    Ok(())
                },
                None => Err(invalid_bool_message(value)),
            },
            EngineOverride::MaxDevices => match parse_usize(value) {
                Ok(v) => {
                    config.max_devices = v;
                    Ok(())
                },
                Err(e) => Err(parse_failure_message(parse_error_text(&e).as_str())),
            },
            EngineOverride::MaxPoints => match parse_usize(value) {
                Ok(v) => {
                    config.max_points = v;
                    Ok(())
                },
                Err(e) => Err(parse_failure_message(parse_error_text(&e).as_str())),
            },
            EngineOverride::Workers => match parse_usize(value) {
                Ok(v) => {
                    config.workers = v;
                    Ok(())
                },
                Err(e) => Err(parse_failure_message(parse_error_text(&e).as_str())),
            },
            EngineOverride::TickInterval => match parse_u64(value) {
                Ok(v) => {
                    config.tick_interval_ms = v;
                    Ok(())
                },
                Err(e) => Err(parse_failure_message(parse_error_text(&e).as_str())),
            },
            EngineOverride::MetricsInterval => match parse_u64(value) {
                Ok(v) => {
                    config.metrics_interval_secs = v;
                    Ok(())
                },
                Err(e) => Err(parse_failure_message(parse_error_text(&e).as_str())),
            },
        }
    }
}

} // verus!
