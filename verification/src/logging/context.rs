//! Context carried with requests for tracing: IDs, device and protocol, custom
//! fields, and the headers it travels in between services.
use vstd::prelude::*;

use crate::strmap::{text_map, StrMap};
use crate::time::{elapsed_since, instant_now, unix_millis_now, Duration};
use crate::utils::{is_hyphenated_uuid, new_uuid_v4_text};

verus! {

/// The text of an optional string.
pub open spec fn opt_text(o: Option<String>) -> Option<Seq<char>> {
    match o {
        Some(s) => Some(s@),
        None => None,
    }
}

/// The value stored under a key of a text map.
pub open spec fn lookup(m: Map<Seq<char>, Seq<char>>, k: Seq<char>) -> Option<Seq<char>> {
    if m.dom().contains(k) {
        Some(m[k])
    } else {
        None
    }
}

/// The value under the first key, else under the second.
pub open spec fn first_of(m: Map<Seq<char>, Seq<char>>, k1: Seq<char>, k2: Seq<char>) -> Option<Seq<char>> {
    match lookup(m, k1) {
        Some(v) => Some(v),
        None => lookup(m, k2),
    }
}

/// A map with a key added when the optional value is present.
pub open spec fn insert_opt(
    m: Map<Seq<char>, Seq<char>>,
    k: Seq<char>,
    v: Option<String>,
) -> Map<Seq<char>, Seq<char>> {
    match v {
        Some(s) => m.insert(k, s@),
        None => m,
    }
}

fn clone_opt(o: &Option<String>) -> (r: Option<String>)
    ensures
        opt_text(r) == opt_text(*o),
        r == *o,
{
    match o {
        Some(s) => Some(s.clone()),
        None => None,
    }
}

/// Inserts a key and a value under it into a string map.
fn put(m: &mut StrMap<String>, k: &str, v: &String)
    ensures
        final(m).text() == old(m).text().insert(k@, v@),
{
    m.insert(k.to_owned(), v.clone());
    assert(m.text() =~= old(m).text().insert(k@, v@));
}

/// Trace context for distributed tracing.
#[derive(Debug)]
pub struct TraceContext {
    /// Unique request/correlation ID.
    pub request_id: String,
    /// Trace ID (for distributed tracing systems).
    pub trace_id: Option<String>,
    /// Span ID (for distributed tracing systems).
    pub span_id: Option<String>,
    /// Parent span ID.
    pub parent_span_id: Option<String>,
    /// Device ID (if applicable).
    pub device_id: Option<String>,
    /// Protocol name (if applicable).
    pub protocol: Option<String>,
    /// Operation name.
    pub operation: Option<String>,
    /// Custom fields.
    pub fields: StrMap<String>,
    /// Milliseconds since the UNIX epoch when the context was created.
    pub created_at: u64,
}

/// A fresh context: a random request ID and nothing else set.
pub open spec fn is_fresh(c: TraceContext) -> bool {
    &&& is_hyphenated_uuid(c.request_id@)
    &&& is_bare(c)
}

/// No optional part set and no custom field.
pub open spec fn is_bare(c: TraceContext) -> bool {
    &&& c.trace_id is None
    &&& c.span_id is None
    &&& c.parent_span_id is None
    &&& c.device_id is None
    &&& c.protocol is None
    &&& c.operation is None
    &&& c.fields.text() == Map::<Seq<char>, Seq<char>>::empty()
}

/// The entries `to_map` gives: the request ID, the trace ID, device, protocol
/// and operation where set, then the custom fields, which win on a clash.
pub open spec fn spec_context_map(c: TraceContext) -> Map<Seq<char>, Seq<char>> {
    let m0 = Map::<Seq<char>, Seq<char>>::empty().insert("request_id"@, c.request_id@);
    let m1 = insert_opt(m0, "trace_id"@, c.trace_id);
    let m2 = insert_opt(m1, "device_id"@, c.device_id);
    let m3 = insert_opt(m2, "protocol"@, c.protocol);
    let m4 = insert_opt(m3, "operation"@, c.operation);
    m4.union_prefer_right(c.fields.text())
}

/// The headers `to_headers` gives: the request ID, and the trace, span and
/// device IDs where set.
pub open spec fn spec_headers(c: TraceContext) -> Map<Seq<char>, Seq<char>> {
    let m0 = Map::<Seq<char>, Seq<char>>::empty().insert("x-request-id"@, c.request_id@);
    let m1 = insert_opt(m0, "x-trace-id"@, c.trace_id);
    let m2 = insert_opt(m1, "x-span-id"@, c.span_id);
    insert_opt(m2, "x-device-id"@, c.device_id)
}

impl TraceContext {
    /// A new context with a random request ID, created now.
    pub fn new() -> (r: Self)
        ensures
            is_fresh(r),
    {
        let r = TraceContext {
            request_id: new_uuid_v4_text(),
            trace_id: None,
            span_id: None,
            parent_span_id: None,
            device_id: None,
            protocol: None,
            operation: None,
            fields: StrMap::new(),
            created_at: unix_millis_now(),
        };
        assert(r.fields.text() =~= Map::<Seq<char>, Seq<char>>::empty());
        r
    }

    /// A new context with the given request ID.
    pub fn with_request_id(request_id: &str) -> (r: Self)
        ensures
            r.request_id@ == request_id@,
            is_bare(r),
    {
        let mut r = TraceContext::new();
        r.request_id = request_id.to_owned();
        r
    }

    /// A child context: a new random span under the same trace, whose parent is
    /// this context's span; the operation is cleared, the rest carried over.
    pub fn child(&self) -> (r: Self)
        ensures
            r.request_id@ == self.request_id@,
            opt_text(r.trace_id) == opt_text(self.trace_id),
            r.span_id matches Some(s) && is_hyphenated_uuid(s@),
            opt_text(r.parent_span_id) == opt_text(self.span_id),
            opt_text(r.device_id) == opt_text(self.device_id),
            opt_text(r.protocol) == opt_text(self.protocol),
            r.operation is None,
            r.fields.text() == self.fields.text(),
    {
        TraceContext {
            request_id: self.request_id.clone(),
            trace_id: clone_opt(&self.trace_id),
            span_id: Some(new_uuid_v4_text()),
            parent_span_id: clone_opt(&self.span_id),
            device_id: clone_opt(&self.device_id),
            protocol: clone_opt(&self.protocol),
            operation: None,
            fields: self.fields.copy(),
            created_at: unix_millis_now(),
        }
    }

    /// Sets the device ID.
    pub fn with_device_id(self, device_id: &str) -> (r: Self)
        ensures
            opt_text(r.device_id) == Some(device_id@),
            r == (TraceContext { device_id: r.device_id, ..self }),
    {
        let mut s = self;
        s.device_id = Some(device_id.to_owned());
        s
    }

    /// Sets the protocol.
    pub fn with_protocol(self, protocol: &str) -> (r: Self)
        ensures
            opt_text(r.protocol) == Some(protocol@),
            r == (TraceContext { protocol: r.protocol, ..self }),
    {
        let mut s = self;
        s.protocol = Some(protocol.to_owned());
        s
    }

    /// Sets the operation name.
    pub fn with_operation(self, operation: &str) -> (r: Self)
        ensures
            opt_text(r.operation) == Some(operation@),
            r == (TraceContext { operation: r.operation, ..self }),
    {
        let mut s = self;
        s.operation = Some(operation.to_owned());
        s
    }

    /// Sets the trace ID.
    pub fn with_trace_id(self, trace_id: &str) -> (r: Self)
        ensures
            opt_text(r.trace_id) == Some(trace_id@),
            r == (TraceContext { trace_id: r.trace_id, ..self }),
    {
        let mut s = self;
        s.trace_id = Some(trace_id.to_owned());
        s
    }

    /// Adds a custom field, replacing an earlier value under the key.
    pub fn with_field(self, key: &str, value: &str) -> (r: Self)
        ensures
            r.fields.text() == self.fields.text().insert(key@, value@),
            r == (TraceContext { fields: r.fields, ..self }),
    {
        let mut s = self;
        s.fields.insert(key.to_owned(), value.to_owned());
        assert(s.fields.text() =~= self.fields.text().insert(key@, value@));
        s
    }

    /// Adds several custom fields, in order; later pairs win.
    pub fn with_fields(self, fields: &[(&str, &str)]) -> (r: Self)
        ensures
            r.fields.text() == self.fields.text().union_prefer_right(
                crate::strmap::str_pairs_map(fields@),
            ),
            r == (TraceContext { fields: r.fields, ..self }),
    {
        let mut s = self;
        s.fields.insert_pairs(fields);
        s
    }

    /// Milliseconds from creation to `now_ms`, or zero when `now_ms` is earlier.
    pub fn age_ms_at(&self, now_ms: u64) -> (r: u64)
        ensures
            r == (if now_ms >= self.created_at { now_ms - self.created_at } else { 0 }),
    {
        now_ms.saturating_sub(self.created_at)
    }

    /// Age of the context in milliseconds, by the system clock.
    pub fn age_ms(&self) -> u64 {
        self.age_ms_at(unix_millis_now())
    }

    /// Whether at `now_ms` the context is older than `ms` milliseconds.
    pub fn is_older_than_ms_at(&self, now_ms: u64, ms: u64) -> (r: bool)
        ensures
            r == ((if now_ms >= self.created_at { now_ms - self.created_at } else { 0 }) > ms),
    {
        self.age_ms_at(now_ms) > ms
    }

    /// Whether the context is older than `ms` milliseconds, by the system clock.
    pub fn is_older_than_ms(&self, ms: u64) -> bool {
        self.age_ms() > ms
    }

    /// The context as a map of strings (see [`spec_context_map`]).
    pub fn to_map(&self) -> (r: StrMap<String>)
        ensures
            r.text() == spec_context_map(*self),
    {
        let mut map: StrMap<String> = StrMap::new();
        assert(map.text() =~= Map::<Seq<char>, Seq<char>>::empty());
        put(&mut map, "request_id", &self.request_id);
        if let Some(t) = &self.trace_id {
            put(&mut map, "trace_id", t);
        }
        if let Some(d) = &self.device_id {
            put(&mut map, "device_id", d);
        }
        if let Some(p) = &self.protocol {
            put(&mut map, "protocol", p);
        }
        if let Some(o) = &self.operation {
            put(&mut map, "operation", o);
        }
        map.extend_from(&self.fields);
        map
    }

    /// A new context taking its IDs from HTTP headers: the request ID from
    /// `x-request-id` or else `x-correlation-id` (a random one when neither is
    /// present), the trace ID from `x-trace-id` or else `traceparent`, the span
    /// ID from `x-span-id` and the device ID from `x-device-id`.
    pub fn from_headers(headers: &StrMap<String>) -> (r: Self)
        ensures
            match first_of(headers.text(), "x-request-id"@, "x-correlation-id"@) {
                Some(v) => r.request_id@ == v,
                None => is_hyphenated_uuid(r.request_id@),
            },
            opt_text(r.trace_id) == first_of(headers.text(), "x-trace-id"@, "traceparent"@),
            opt_text(r.span_id) == lookup(headers.text(), "x-span-id"@),
            opt_text(r.device_id) == lookup(headers.text(), "x-device-id"@),
            r.parent_span_id is None,
            r.protocol is None,
            r.operation is None,
            r.fields.text() == Map::<Seq<char>, Seq<char>>::empty(),
    {
        let mut ctx = TraceContext::new();
        let request_id = match headers.get("x-request-id") {
            Some(v) => Some(v),
            None => headers.get("x-correlation-id"),
        };
        if let Some(v) = request_id {
            ctx.request_id = v.clone();
        }
        let trace_id = match headers.get("x-trace-id") {
            Some(v) => Some(v),
            None => headers.get("traceparent"),
        };
        if let Some(v) = trace_id {
            ctx.trace_id = Some(v.clone());
        }
        if let Some(v) = headers.get("x-span-id") {
            ctx.span_id = Some(v.clone());
        }
        if let Some(v) = headers.get("x-device-id") {
            ctx.device_id = Some(v.clone());
        }
        ctx
    }

    /// The context as HTTP headers (see [`spec_headers`]).
    pub fn to_headers(&self) -> (r: StrMap<String>)
        ensures
            r.text() == spec_headers(*self),
    {
        let mut headers: StrMap<String> = StrMap::new();
        assert(headers.text() =~= Map::<Seq<char>, Seq<char>>::empty());
        put(&mut headers, "x-request-id", &self.request_id);
        if let Some(t) = &self.trace_id {
            put(&mut headers, "x-trace-id", t);
        }
        if let Some(s) = &self.span_id {
            put(&mut headers, "x-span-id", s);
        }
        if let Some(d) = &self.device_id {
            put(&mut headers, "x-device-id", d);
        }
        headers
    }
}

impl Default for TraceContext {
    fn default() -> (r: Self)
        ensures
            is_fresh(r),
    {
        TraceContext::new()
    }
}

/// Headers written by `to_headers` and read back by `from_headers` give the
/// same request, trace, span and device IDs.
pub proof fn lemma_headers_round_trip(c: TraceContext)
    ensures
        first_of(spec_headers(c), "x-request-id"@, "x-correlation-id"@) == Some(c.request_id@),
        first_of(spec_headers(c), "x-trace-id"@, "traceparent"@) == opt_text(c.trace_id),
        lookup(spec_headers(c), "x-span-id"@) == opt_text(c.span_id),
        lookup(spec_headers(c), "x-device-id"@) == opt_text(c.device_id),
{
    let h = spec_headers(c);
    assert("x-request-id"@ != "x-trace-id"@) by {
        reveal_strlit("x-request-id");
        reveal_strlit("x-trace-id");
        assert("x-request-id"@[2] != "x-trace-id"@[2]);
    }
    assert("x-request-id"@ != "x-span-id"@) by {
        reveal_strlit("x-request-id");
        reveal_strlit("x-span-id");
        assert("x-request-id"@[2] != "x-span-id"@[2]);
    }
    assert("x-request-id"@ != "x-device-id"@) by {
        reveal_strlit("x-request-id");
        reveal_strlit("x-device-id");
        assert("x-request-id"@[2] != "x-device-id"@[2]);
    }
    assert("x-trace-id"@ != "x-span-id"@) by {
        reveal_strlit("x-trace-id");
        reveal_strlit("x-span-id");
        assert("x-trace-id"@[2] != "x-span-id"@[2]);
    }
    assert("x-trace-id"@ != "x-device-id"@) by {
        reveal_strlit("x-trace-id");
        reveal_strlit("x-device-id");
        assert("x-trace-id"@[2] != "x-device-id"@[2]);
    }
    assert("x-span-id"@ != "x-device-id"@) by {
        reveal_strlit("x-span-id");
        reveal_strlit("x-device-id");
        assert("x-span-id"@[2] != "x-device-id"@[2]);
    }
    assert("traceparent"@ != "x-request-id"@ && "traceparent"@ != "x-span-id"@
        && "traceparent"@ != "x-device-id"@) by {
        reveal_strlit("traceparent");
        reveal_strlit("x-request-id");
        reveal_strlit("x-span-id");
        reveal_strlit("x-device-id");
        assert("traceparent"@[0] != "x-request-id"@[0]);
        assert("traceparent"@[0] != "x-span-id"@[0]);
        assert("traceparent"@[0] != "x-device-id"@[0]);
    }
}

/// Request context for protocol operations.
#[derive(Debug)]
pub struct RequestContext {
    /// Base trace context.
    pub trace: TraceContext,
    /// Request start time.
    pub start_time: std::time::Instant,
    /// Request timeout (if set).
    pub timeout: Option<Duration>,
    /// Whether this request should be logged at debug level.
    pub debug_request: bool,
}

impl RequestContext {
    /// A new request context with a fresh trace context, started now.
    pub fn new() -> (r: Self)
        ensures
            is_fresh(r.trace),
            r.timeout is None,
            !r.debug_request,
    {
        RequestContext {
            trace: TraceContext::new(),
            start_time: instant_now(),
            timeout: None,
            debug_request: false,
        }
    }

    /// A request context around an existing trace context, started now.
    pub fn with_trace(trace: TraceContext) -> (r: Self)
        ensures
            r.trace == trace,
            r.timeout is None,
            !r.debug_request,
    {
        RequestContext { trace, start_time: instant_now(), timeout: None, debug_request: false }
    }

    /// Sets the device ID.
    pub fn device(self, device_id: &str) -> (r: Self)
        ensures
            opt_text(r.trace.device_id) == Some(device_id@),
            r.trace == (TraceContext { device_id: r.trace.device_id, ..self.trace }),
            r == (RequestContext { trace: r.trace, ..self }),
    {
        let RequestContext { trace, start_time, timeout, debug_request } = self;
        RequestContext { trace: trace.with_device_id(device_id), start_time, timeout, debug_request }
    }

    /// Sets the protocol.
    pub fn protocol(self, protocol: &str) -> (r: Self)
        ensures
            opt_text(r.trace.protocol) == Some(protocol@),
            r.trace == (TraceContext { protocol: r.trace.protocol, ..self.trace }),
            r == (RequestContext { trace: r.trace, ..self }),
    {
        let RequestContext { trace, start_time, timeout, debug_request } = self;
        RequestContext { trace: trace.with_protocol(protocol), start_time, timeout, debug_request }
    }

    /// Sets the operation.
    pub fn operation(self, operation: &str) -> (r: Self)
        ensures
            opt_text(r.trace.operation) == Some(operation@),
            r.trace == (TraceContext { operation: r.trace.operation, ..self.trace }),
            r == (RequestContext { trace: r.trace, ..self }),
    {
        let RequestContext { trace, start_time, timeout, debug_request } = self;
        RequestContext { trace: trace.with_operation(operation), start_time, timeout, debug_request }
    }

    /// Sets a timeout.
    pub fn with_timeout(self, timeout: Duration) -> (r: Self)
        ensures
            r == (RequestContext { timeout: Some(timeout), ..self }),
    {
        let mut s = self;
        s.timeout = Some(timeout);
        s
    }

    /// Marks the request as one logged at debug level.
    pub fn debug(self) -> (r: Self)
        ensures
            r == (RequestContext { debug_request: true, ..self }),
    {
        let mut s = self;
        s.debug_request = true;
        s
    }

    /// Time elapsed since the request started; it depends on the clock.
    pub fn elapsed(&self) -> Duration {
        elapsed_since(&self.start_time)
    }

    /// Whether, after `elapsed`, the request has run past its timeout.
    pub fn is_timed_out_after(&self, elapsed: Duration) -> (r: bool)
        ensures
            r == match self.timeout {
                Some(t) => t@ < elapsed@,
                None => false,
            },
    {
        match &self.timeout {
            Some(t) => t.is_shorter_than(&elapsed),
            None => false,
        }
    }

    /// Whether the request has run past its timeout, by the clock.
    pub fn is_timed_out(&self) -> (r: bool)
        ensures
            self.timeout is None ==> !r,
    {
        match &self.timeout {
            Some(_) => self.is_timed_out_after(self.elapsed()),
            None => false,
        }
    }

    /// Time left before the timeout after `elapsed`: none without a timeout or
    /// once it has passed.
    pub fn remaining_timeout_after(&self, elapsed: Duration) -> (r: Option<Duration>)
        ensures
            match self.timeout {
                Some(t) => if elapsed@ <= t@ {
                    r matches Some(d) && d@ == t@ - elapsed@
                } else {
                    r is None
                },
                None => r is None,
            },
    {
        match &self.timeout {
            Some(t) => t.checked_sub(&elapsed),
            None => None,
        }
    }

    /// Time left before the timeout, by the clock.
    pub fn remaining_timeout(&self) -> (r: Option<Duration>)
        ensures
            self.timeout is None ==> r is None,
            r matches Some(d) ==> (self.timeout matches Some(t) && d@ <= t@),
    {
        match &self.timeout {
            Some(_) => self.remaining_timeout_after(self.elapsed()),
            None => None,
        }
    }

    /// The request ID.
    pub fn request_id(&self) -> (r: &str)
        ensures
            r@ == self.trace.request_id@,
    {
        self.trace.request_id.as_str()
    }
}

impl Default for RequestContext {
    fn default() -> (r: Self)
        ensures
            is_fresh(r.trace),
            r.timeout is None,
            !r.debug_request,
    {
        RequestContext::new()
    }
}

/// A trace context shared between threads.
pub fn shared_context(ctx: TraceContext) -> (r: std::sync::Arc<TraceContext>)
    ensures
        *r == ctx,
{
    std::sync::Arc::new(ctx)
}

/// Device context for device-specific operations.
#[derive(Debug)]
pub struct DeviceContext {
    /// Device ID.
    pub device_id: String,
    /// Protocol.
    pub protocol: String,
    /// Base trace context.
    pub trace: TraceContext,
}

impl DeviceContext {
    /// A device context with a fresh trace context carrying the device and protocol.
    pub fn new(device_id: &str, protocol: &str) -> (r: Self)
        ensures
            r.device_id@ == device_id@,
            r.protocol@ == protocol@,
            is_hyphenated_uuid(r.trace.request_id@),
            opt_text(r.trace.device_id) == Some(device_id@),
            opt_text(r.trace.protocol) == Some(protocol@),
            r.trace.trace_id is None,
            r.trace.span_id is None,
            r.trace.parent_span_id is None,
            r.trace.operation is None,
            r.trace.fields.text() == Map::<Seq<char>, Seq<char>>::empty(),
    {
        DeviceContext {
            device_id: device_id.to_owned(),
            protocol: protocol.to_owned(),
            trace: TraceContext::new().with_device_id(device_id).with_protocol(protocol),
        }
    }

    /// A device context around an existing trace context, which gets the
    /// device and protocol.
    pub fn with_trace(device_id: &str, protocol: &str, trace: TraceContext) -> (r: Self)
        ensures
            r.device_id@ == device_id@,
            r.protocol@ == protocol@,
            opt_text(r.trace.device_id) == Some(device_id@),
            opt_text(r.trace.protocol) == Some(protocol@),
            r.trace == (TraceContext { device_id: r.trace.device_id, protocol: r.trace.protocol, ..trace }),
    {
        DeviceContext {
            device_id: device_id.to_owned(),
            protocol: protocol.to_owned(),
            trace: trace.with_device_id(device_id).with_protocol(protocol),
        }
    }

    /// The request ID.
    pub fn request_id(&self) -> (r: &str)
        ensures
            r@ == self.trace.request_id@,
    {
        self.trace.request_id.as_str()
    }

    /// A child context for a sub-operation: same device and protocol, and a
    /// child of the trace context.
    pub fn child(&self) -> (r: Self)
        ensures
            r.device_id@ == self.device_id@,
            r.protocol@ == self.protocol@,
            r.trace.request_id@ == self.trace.request_id@,
            opt_text(r.trace.parent_span_id) == opt_text(self.trace.span_id),
    {
        DeviceContext {
            device_id: self.device_id.clone(),
            protocol: self.protocol.clone(),
            trace: self.trace.child(),
        }
    }
}

} // verus!
