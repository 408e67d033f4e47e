//! Error types: the simulator's error enum and field-level validation errors.
use vstd::prelude::*;

use crate::device::{spec_state_name, DeviceState};
use crate::strmap::StrMap;
use crate::text::{cat, dec, join_seq, join_strings, texts, u64_to_text, usize_to_text};

verus! {

#[verifier::external_type_specification]
#[verifier::external_body]
pub struct ExIoError(std::io::Error);

/// Simulator error types.
#[derive(Debug)]
pub enum Error {
    /// Device not found.
    DeviceNotFound { device_id: String },
    /// Device already exists.
    DeviceAlreadyExists { device_id: String },
    /// Data point not found.
    DataPointNotFound { device_id: String, point_id: String },
    /// Invalid address.
    InvalidAddress { address: u32, min: u32, max: u32 },
    /// Invalid value.
    InvalidValue { point_id: String, reason: String },
    /// Type mismatch.
    TypeMismatch { expected: String, actual: String },
    /// Protocol error.
    Protocol(String),
    /// Configuration error.
    Config(String),
    /// Validation errors (multiple field errors).
    Validation { message: String, errors: ValidationErrors },
    /// I/O error.
    Io(std::io::Error),
    /// Engine error.
    Engine(String),
    /// Lifecycle error.
    Lifecycle { from: DeviceState, to: DeviceState },
    /// Capacity exceeded.
    CapacityExceeded { current: usize, max: usize, resource: String },
    /// Timeout.
    Timeout { duration_ms: u64 },
    /// Not supported.
    NotSupported(String),
    /// Internal error.
    Internal(String),
    /// Serialization error.
    Serialization(String),
    /// Channel error.
    Channel(String),
    /// Access denied (for access mode violations).
    AccessDenied { point_id: String, operation: String, mode: String },
}

/// Result type alias using [`Error`].
pub type Result<T> = std::result::Result<T, Error>;

/// Error severity levels, from least to most severe.
#[derive(Debug, Clone, Copy, PartialEq, Eq, PartialOrd, Ord, Hash, Structural)]
pub enum ErrorSeverity {
    /// Low severity - validation errors, user input errors.
    Low,
    /// Medium severity - recoverable errors, timeouts.
    Medium,
    /// High severity - protocol errors, state errors.
    High,
    /// Critical severity - internal errors, engine failures.
    Critical,
}

/// The severity of each kind of error.
pub open spec fn spec_severity(e: &Error) -> ErrorSeverity {
    match e {
        Error::Internal(_) | Error::Engine(_) => ErrorSeverity::Critical,
        Error::Protocol(_) | Error::Lifecycle { .. } => ErrorSeverity::High,
        Error::Timeout { .. } | Error::Io(_) | Error::Channel(_) => ErrorSeverity::Medium,
        Error::Validation { .. } | Error::InvalidValue { .. } | Error::TypeMismatch { .. }
        | Error::AccessDenied { .. } => ErrorSeverity::Low,
        _ => ErrorSeverity::Medium,
    }
}

/// The summary message of a validation error over `n` fields.
pub open spec fn spec_validation_message(n: nat) -> Seq<char> {
    dec(n) + " validation error(s)"@
}

impl Error {
    /// Create a device not found error.
    pub fn device_not_found(device_id: &str) -> (r: Self)
        ensures
            r matches Error::DeviceNotFound { device_id: d } && d@ == device_id@,
    {
        Error::DeviceNotFound { device_id: device_id.to_owned() }
    }

    /// Create a data point not found error.
    pub fn point_not_found(device_id: &str, point_id: &str) -> (r: Self)
        ensures
            r matches Error::DataPointNotFound { device_id: d, point_id: p } && d@ == device_id@
                && p@ == point_id@,
    {
        Error::DataPointNotFound { device_id: device_id.to_owned(), point_id: point_id.to_owned() }
    }

    /// Create a capacity exceeded error.
    pub fn capacity_exceeded(current: usize, max: usize, resource: &str) -> (r: Self)
        ensures
            r matches Error::CapacityExceeded { current: c, max: m, resource: res } && c == current
                && m == max && res@ == resource@,
    {
        Error::CapacityExceeded { current, max, resource: resource.to_owned() }
    }

    /// Create an access denied error.
    pub fn access_denied(point_id: &str, operation: &str, mode: &str) -> (r: Self)
        ensures
            r matches Error::AccessDenied { point_id: p, operation: o, mode: m } && p@ == point_id@
                && o@ == operation@ && m@ == mode@,
    {
        Error::AccessDenied {
            point_id: point_id.to_owned(),
            operation: operation.to_owned(),
            mode: mode.to_owned(),
        }
    }

    /// Create a validation error from a ValidationErrors instance.
    pub fn validation(errors: ValidationErrors) -> (r: Self)
        ensures
            r matches Error::Validation { message: m, errors: e } && m@ == spec_validation_message(
                errors.model().len(),
            ) && e.model() == errors.model() && e.spec_total() == errors.spec_total(),
    {
        let count = errors.len();
        let n = usize_to_text(count);
        let message = n.concat(" validation error(s)");
        Error::Validation { message, errors }
    }

    /// Check if this error is recoverable.
    pub fn is_recoverable(&self) -> (r: bool)
        ensures
            r == (self is Timeout || self is Io || self is Channel),
    {
        matches!(self, Error::Timeout { .. } | Error::Io(_) | Error::Channel(_))
    }

    /// Check if this is a validation error.
    pub fn is_validation(&self) -> (r: bool)
        ensures
            r == (self is Validation),
    {
        matches!(self, Error::Validation { .. })
    }

    /// Check if this is a not found error.
    pub fn is_not_found(&self) -> (r: bool)
        ensures
            r == (self is DeviceNotFound || self is DataPointNotFound),
    {
        matches!(self, Error::DeviceNotFound { .. } | Error::DataPointNotFound { .. })
    }

    /// Get error severity.
    pub fn severity(&self) -> (r: ErrorSeverity)
        ensures
            r == spec_severity(self),
    {
        match self {
            Error::Internal(_) | Error::Engine(_) => ErrorSeverity::Critical,
            Error::Protocol(_) | Error::Lifecycle { .. } => ErrorSeverity::High,
            Error::Timeout { .. } | Error::Io(_) | Error::Channel(_) => ErrorSeverity::Medium,
            Error::Validation { .. } | Error::InvalidValue { .. } | Error::TypeMismatch { .. }
            | Error::AccessDenied { .. } => ErrorSeverity::Low,
            _ => ErrorSeverity::Medium,
        }
    }

    /// The text `Display` prints for the error.
    pub fn to_text(&self) -> (r: String)
        ensures
            !(self is Io) ==> r@ == spec_error_text(self),
            self is Io ==> "I/O error: "@.is_prefix_of(r@),
    {
        match self {
            Error::DeviceNotFound { device_id } => cat("Device not found: ", device_id.as_str()),
            Error::DeviceAlreadyExists { device_id } => cat("Device already exists: ", device_id.as_str()),
            Error::DataPointNotFound { device_id, point_id } => cat(
                "Data point not found: ",
                device_id.as_str(),
            ).concat("/").concat(point_id.as_str()),
            Error::InvalidAddress { address, min, max } => cat(
                "Invalid address: ",
                u64_to_text(*address as u64).as_str(),
            ).concat(" (expected range: ").concat(u64_to_text(*min as u64).as_str()).concat("-").concat(
                u64_to_text(*max as u64).as_str(),
            ).concat(")"),
            Error::InvalidValue { point_id, reason } => cat(
                "Invalid value for data point ",
                point_id.as_str(),
            ).concat(": ").concat(reason.as_str()),
            Error::TypeMismatch { expected, actual } => cat(
                "Type mismatch: expected ",
                expected.as_str(),
            ).concat(", got ").concat(actual.as_str()),
            Error::Protocol(m) => cat("Protocol error: ", m.as_str()),
            Error::Config(m) => cat("Configuration error: ", m.as_str()),
            Error::Validation { message, .. } => cat("Validation failed: ", message.as_str()),
            Error::Io(e) => {
                let t = io_error_text(e);
                let r = cat("I/O error: ", t.as_str());
                assert("I/O error: "@.is_prefix_of(r@)) by {
                    assert(r@.subrange(0, "I/O error: "@.len() as int) =~= "I/O error: "@);
                }
                r
            },
            Error::Engine(m) => cat("Engine error: ", m.as_str()),
            Error::Lifecycle { from, to } => cat(
                "Lifecycle error: invalid transition from ",
                from.name(),
            ).concat(" to ").concat(to.name()),
            Error::CapacityExceeded { current, max, resource } => cat(
                "Capacity exceeded: ",
                usize_to_text(*current).as_str(),
            ).concat("/").concat(usize_to_text(*max).as_str()).concat(" ").concat(resource.as_str()),
            Error::Timeout { duration_ms } => cat(
                "Operation timed out after ",
                u64_to_text(*duration_ms).as_str(),
            ).concat("ms"),
            Error::NotSupported(m) => cat("Operation not supported: ", m.as_str()),
            Error::Internal(m) => cat("Internal error: ", m.as_str()),
            Error::Serialization(m) => cat("Serialization error: ", m.as_str()),
            Error::Channel(m) => cat("Channel error: ", m.as_str()),
            Error::AccessDenied { point_id, operation, mode } => cat(
                "Access denied: ",
                operation.as_str(),
            ).concat(" not allowed on ").concat(point_id.as_str()).concat(" (mode: ").concat(
                mode.as_str(),
            ).concat(")"),
        }
    }
}

/// The `Display` text of an I/O error: std's own rendering, which depends on
/// the error's kind and the operating system; nothing of it is stated.
#[verifier::external_body]
fn io_error_text(e: &std::io::Error) -> String {
    e.to_string()
}

/// The text `Display` prints for each kind of error but I/O errors.
pub open spec fn spec_error_text(e: &Error) -> Seq<char> {
    match e {
        Error::DeviceNotFound { device_id } => "Device not found: "@ + device_id@,
        Error::DeviceAlreadyExists { device_id } => "Device already exists: "@ + device_id@,
        Error::DataPointNotFound { device_id, point_id } => "Data point not found: "@ + device_id@
            + "/"@ + point_id@,
        Error::InvalidAddress { address, min, max } => "Invalid address: "@ + dec(address as nat)
            + " (expected range: "@ + dec(min as nat) + "-"@ + dec(max as nat) + ")"@,
        Error::InvalidValue { point_id, reason } => "Invalid value for data point "@ + point_id@
            + ": "@ + reason@,
        Error::TypeMismatch { expected, actual } => "Type mismatch: expected "@ + expected@
            + ", got "@ + actual@,
        Error::Protocol(m) => "Protocol error: "@ + m@,
        Error::Config(m) => "Configuration error: "@ + m@,
        Error::Validation { message, .. } => "Validation failed: "@ + message@,
        Error::Io(_) => "I/O error: "@,
        Error::Engine(m) => "Engine error: "@ + m@,
        Error::Lifecycle { from, to } => "Lifecycle error: invalid transition from "@
            + spec_state_name(*from) + " to "@ + spec_state_name(*to),
        Error::CapacityExceeded { current, max, resource } => "Capacity exceeded: "@ + dec(
            current as nat,
        ) + "/"@ + dec(max as nat) + " "@ + resource@,
        Error::Timeout { duration_ms } => "Operation timed out after "@ + dec(duration_ms as nat)
            + "ms"@,
        Error::NotSupported(m) => "Operation not supported: "@ + m@,
        Error::Internal(m) => "Internal error: "@ + m@,
        Error::Serialization(m) => "Serialization error: "@ + m@,
        Error::Channel(m) => "Channel error: "@ + m@,
        Error::AccessDenied { point_id, operation, mode } => "Access denied: "@ + operation@
            + " not allowed on "@ + point_id@ + " (mode: "@ + mode@ + ")"@,
    }
}

/// Adding context to the error of a result.
pub trait ResultExt<T>: Sized {
    /// The result with its error replaced by an internal error that carries
    /// the context text and the error's own text.
    fn with_context<F: FnOnce() -> String>(self, f: F) -> Result<T>
        requires
            f.requires(()),
    ;
}

impl<T> ResultExt<T> for Result<T> {
    fn with_context<F: FnOnce() -> String>(self, f: F) -> (r: Result<T>)
        ensures
            self is Ok ==> r == self,
            self matches Err(e) ==> (r matches Err(Error::Internal(m)) && exists|c: String|
                f.ensures((), c) && (!(e is Io) ==> m@ == c@ + ": "@ + spec_error_text(&e))),
    {
        match self {
            Ok(v) => Ok(v),
            Err(e) => {
                let context = f();
                let t = e.to_text();
                Err(Error::Internal(cat(context.as_str(), ": ").concat(t.as_str())))
            },
        }
    }
}

/// The messages of a message list, as text.
pub open spec fn msg_texts(v: Vec<String>) -> Seq<Seq<char>> {
    texts(v@)
}

/// Adds `msg` to the messages of field `f`.
pub open spec fn with_message(
    m: Map<Seq<char>, Seq<Seq<char>>>,
    f: Seq<char>,
    msg: Seq<char>,
) -> Map<Seq<char>, Seq<Seq<char>>> {
    m.insert(f, (if m.contains_key(f) { m[f] } else { Seq::empty() }).push(msg))
}

/// Field-wise concatenation of two error maps.
pub open spec fn merged_errors(
    a: Map<Seq<char>, Seq<Seq<char>>>,
    b: Map<Seq<char>, Seq<Seq<char>>>,
) -> Map<Seq<char>, Seq<Seq<char>>> {
    Map::new(
        |k: Seq<char>| a.contains_key(k) || b.contains_key(k),
        |k: Seq<char>|
            (if a.contains_key(k) { a[k] } else { Seq::empty() }) + (if b.contains_key(k) {
                b[k]
            } else {
                Seq::empty()
            }),
    )
}

/// Total number of messages over the entries.
pub open spec fn total_of(p: Seq<(Seq<char>, Vec<String>)>) -> nat
    decreases p.len(),
{
    if p.len() == 0 {
        0
    } else {
        total_of(p.drop_last()) + p.last().1@.len()
    }
}

/// The "field: message" lines of the entries, in order.
pub open spec fn error_lines(p: Seq<(Seq<char>, Vec<String>)>) -> Seq<Seq<char>>
    decreases p.len(),
{
    if p.len() == 0 {
        Seq::empty()
    } else {
        error_lines(p.drop_last()) + msg_texts(p.last().1).map_values(
            |m: Seq<char>| p.last().0 + ": "@ + m,
        )
    }
}

/// Collection of validation errors with field-level details.
#[derive(Debug)]
pub struct ValidationErrors {
    errors: StrMap<Vec<String>>,
}

impl ValidationErrors {
    /// The messages of each field with errors.
    pub closed spec fn model(&self) -> Map<Seq<char>, Seq<Seq<char>>> {
        self.errors.map().map_values(|v: Vec<String>| msg_texts(v))
    }

    /// The entries in the order fields first received an error.
    pub closed spec fn entries(&self) -> Seq<(Seq<char>, Vec<String>)> {
        self.errors.pairs()
    }

    /// Total number of messages.
    pub open spec fn spec_total(&self) -> nat {
        total_of(self.entries())
    }

    /// The text that `Display` prints: "field: message" items joined by "; ".
    pub open spec fn spec_text(&self) -> Seq<char> {
        join_seq(error_lines(self.entries()), "; "@)
    }

    /// Create a new empty validation errors collection.
    pub fn new() -> (r: Self)
        ensures
            r.model() == Map::<Seq<char>, Seq<Seq<char>>>::empty(),
            r.entries() == Seq::<(Seq<char>, Vec<String>)>::empty(),
            r.spec_total() == 0,
    {
        let r = ValidationErrors { errors: StrMap::new() };
        assert(r.model() =~= Map::<Seq<char>, Seq<Seq<char>>>::empty());
        r
    }

    /// Appends messages to a field, creating the field if needed.
    fn append_messages(&mut self, field: &str, msgs: &Vec<String>)
        ensures
            final(self).model() == old(self).model().insert(
                field@,
                (if old(self).model().contains_key(field@) {
                    old(self).model()[field@]
                } else {
                    Seq::empty()
                }) + texts(msgs@),
            ),
            final(self).spec_total() == old(self).spec_total() + msgs@.len(),
    {
        let mut v: Vec<String> = Vec::new();
        let found = self.errors.find(field);
        match found {
            Some(i) => {
                let k = self.errors.key_at(i);
                v = self.errors.value_at(i).clone();
                assert(v@ =~= self.errors.pairs()[i as int].1@);
            },
            None => {},
        }
        let ghost base = texts(v@);
        let ghost base_len = v@.len();
        let mut j: usize = 0;
        while j < msgs.len()
            invariant
                j <= msgs@.len(),
                v@.len() == base_len + j,
                texts(v@) == base + texts(msgs@).subrange(0, j as int),
            decreases msgs@.len() - j,
        {
            let c = msgs[j].clone();
            let ghost before = v@;
            v.push(c);
            assert(texts(v@) =~= texts(before).push(msgs@[j as int]@));
            assert(texts(msgs@).subrange(0, j + 1) =~= texts(msgs@).subrange(0, j as int).push(
                msgs@[j as int]@,
            ));
            assert(texts(v@) =~= base + texts(msgs@).subrange(0, j + 1));
            j = j + 1;
        }
        assert(texts(msgs@).subrange(0, msgs@.len() as int) =~= texts(msgs@));
        let ghost vlen = v@.len();
        let ghost old_entries = self.entries();
        match found {
            Some(i) => {
                proof {
                    assert(base_len == old_entries[i as int].1@.len());
                }
                let ghost e = (old_entries[i as int].0, v);
                self.errors.set_value_at(i, v);
                proof {
                    lemma_total_update(old_entries, i as int, e);
                }
            },
            None => {
                proof {
                    assert(base_len == 0);
                }
                let ghost e = (field@, v);
                self.errors.insert(field.to_owned(), v);
                proof {
                    self.errors.lemma_dom_keys();
                    lemma_total_push(old_entries, e);
                }
            },
        }
        assert(self.model() =~= old(self).model().insert(
            field@,
            (if old(self).model().contains_key(field@) {
                old(self).model()[field@]
            } else {
                Seq::empty()
            }) + texts(msgs@),
        ));
    }

    /// Add an error for a specific field.
    pub fn add(&mut self, field: &str, message: &str)
        ensures
            final(self).model() == with_message(old(self).model(), field@, message@),
            final(self).spec_total() == old(self).spec_total() + 1,
    {
        let mut one: Vec<String> = Vec::new();
        one.push(message.to_owned());
        assert(texts(one@) =~= seq![message@]);
        self.append_messages(field, &one);
        proof {
            let m = old(self).model();
            let base = if m.contains_key(field@) { m[field@] } else { Seq::empty() };
            assert(base + seq![message@] =~= base.push(message@));
        }
    }

    /// Add error if condition is true.
    pub fn add_if(&mut self, condition: bool, field: &str, message: &str)
        ensures
            condition ==> final(self).model() == with_message(old(self).model(), field@, message@),
            !condition ==> final(self).model() == old(self).model(),
            final(self).spec_total() == old(self).spec_total() + (if condition { 1int } else { 0int }),
    {
        if condition {
            self.add(field, message);
        }
    }

    /// Check if there are any errors.
    pub fn is_empty(&self) -> (r: bool)
        ensures
            r == (self.model().len() == 0),
    {
        assert(self.model().dom() =~= self.errors.map().dom());
        self.errors.is_empty()
    }

    /// Only finitely many fields have errors.
    pub proof fn lemma_model_finite(&self)
        ensures
            self.model().dom().finite(),
    {
        crate::strmap::lemma_seq_map_finite(self.errors.pairs());
        assert(self.model().dom() =~= self.errors.map().dom());
    }

    /// Get the number of fields with errors.
    pub fn len(&self) -> (r: usize)
        ensures
            r == self.model().len(),
    {
        assert(self.model().dom() =~= self.errors.map().dom());
        self.errors.len()
    }

    /// Get total error count across all fields.
    pub fn total_errors(&self) -> (r: usize)
        requires
            self.spec_total() <= usize::MAX,
        ensures
            r == self.spec_total(),
    {
        let n = self.errors.len();
        let mut total: usize = 0;
        let mut i: usize = 0;
        while i < n
            invariant
                n == self.entries().len(),
                i <= n,
                total == total_of(self.entries().subrange(0, i as int)),
                total_of(self.entries()) <= usize::MAX,
            decreases n - i,
        {
            proof {
                let p = self.entries();
                assert(p.subrange(0, i + 1).drop_last() =~= p.subrange(0, i as int));
                lemma_total_prefix(p, i as int + 1);
            }
            total = total + self.errors.value_at(i).len();
            i = i + 1;
        }
        assert(self.entries().subrange(0, n as int) =~= self.entries());
        total
    }

    /// Get errors for a specific field.
    pub fn get(&self, field: &str) -> (r: Option<&Vec<String>>)
        ensures
            match r {
                Some(v) => self.model().contains_key(field@) && msg_texts(*v) == self.model()[field@],
                None => !self.model().contains_key(field@),
            },
    {
        self.errors.get(field)
    }

    /// Get all field names with errors, in the order they first received one.
    pub fn fields(&self) -> (r: Vec<String>)
        ensures
            texts(r@).to_set() == self.model().dom(),
            r@.len() == self.model().len(),
    {
        let n = self.errors.len();
        let mut r: Vec<String> = Vec::new();
        let mut i: usize = 0;
        while i < n
            invariant
                n == self.errors.pairs().len(),
                i <= n,
                r@.len() == i,
                forall|j: int| 0 <= j < i ==> (#[trigger] r@[j])@ == self.errors.pairs()[j].0,
            decreases n - i,
        {
            r.push(self.errors.key_at(i).clone());
            i = i + 1;
        }
        proof {
            self.errors.lemma_dom_keys();
            assert(texts(r@) =~= self.errors.key_seq());
            assert(self.model().dom() =~= self.errors.map().dom());
            assert(self.errors.key_seq().to_set() =~= self.errors.map().dom());
        }
        r
    }

    /// All (field, messages) entries, in the order fields first received an error.
    pub fn iter(&self) -> (r: Vec<(String, Vec<String>)>)
        ensures
            r@.len() == self.model().len(),
            forall|i: int|
                0 <= i < r@.len() ==> #[trigger] self.model().contains_key(r@[i].0@)
                    && self.model()[r@[i].0@] == msg_texts(r@[i].1),
    {
        let n = self.errors.len();
        let mut r: Vec<(String, Vec<String>)> = Vec::new();
        let mut i: usize = 0;
        while i < n
            invariant
                n == self.errors.pairs().len(),
                n == self.errors.map().len(),
                i <= n,
                r@.len() == i,
                forall|j: int|
                    0 <= j < i ==> #[trigger] self.model().contains_key(r@[j].0@)
                        && self.model()[r@[j].0@] == msg_texts(r@[j].1),
            decreases n - i,
        {
            let k = self.errors.key_at(i).clone();
            let v = self.errors.value_at(i).clone();
            assert(v@ =~= self.errors.pairs()[i as int].1@);
            r.push((k, v));
            i = i + 1;
        }
        assert(self.model().dom() =~= self.errors.map().dom());
        r
    }

    /// Convert to an Error if not empty.
    pub fn into_result<T>(self, ok: T) -> (r: Result<T>)
        ensures
            self.model().len() == 0 ==> r == Ok::<T, Error>(ok),
            self.model().len() != 0 ==> (r matches Err(Error::Validation { message: m, errors: e })
                && m@ == spec_validation_message(self.model().len()) && e.model() == self.model()
                && e.spec_total() == self.spec_total()),
    {
        if self.is_empty() {
            Ok(ok)
        } else {
            Err(Error::validation(self))
        }
    }

    /// Merge with another ValidationErrors: messages of a field are appended.
    pub fn merge(&mut self, other: ValidationErrors)
        ensures
            final(self).model() == merged_errors(old(self).model(), other.model()),
            final(self).spec_total() == old(self).spec_total() + other.spec_total(),
    {
        let n = other.errors.len();
        let ghost start = self.model();
        let ghost start_total = self.spec_total();
        let ghost p = other.errors.pairs();
        let mut i: usize = 0;
        while i < n
            invariant
                n == p.len(),
                p == other.errors.pairs(),
                i <= n,
                self.model() == merged_errors(start, seq_model(p.subrange(0, i as int))),
                self.spec_total() == start_total + total_of(p.subrange(0, i as int)),
                p == other.entries(),
            decreases n - i,
        {
            let field = other.errors.key_at(i);
            let msgs = other.errors.value_at(i);
            let ghost pre = self.model();
            self.append_messages(field.as_str(), msgs);
            proof {
                let d = seq_model(p.subrange(0, i as int));
                assert(p.subrange(0, i + 1) =~= p.subrange(0, i as int).push(p[i as int]));
                lemma_seq_model_push(p.subrange(0, i as int), p[i as int]);
                crate::strmap::lemma_seq_map_dom(p.subrange(0, i as int), field@);
                if d.contains_key(field@) {
                    let j = choose|j: int|
                        0 <= j < p.subrange(0, i as int).len() && #[trigger] p.subrange(
                            0,
                            i as int,
                        )[j].0 == field@;
                    assert(p[j].0 == field@);
                }
                assert(!d.contains_key(field@));
                assert(self.model() =~= merged_errors(start, seq_model(p.subrange(0, i + 1))));
                assert(p.subrange(0, i + 1).drop_last() =~= p.subrange(0, i as int));
            }
            i = i + 1;
        }
        assert(p.subrange(0, n as int) =~= p);
        assert(seq_model(p) =~= other.model());
    }

    /// The text that `Display` prints: "field: message" items joined by "; ".
    pub fn to_text(&self) -> (r: String)
        ensures
            r@ == self.spec_text(),
    {
        let mut lines: Vec<String> = Vec::new();
        let n = self.errors.len();
        let mut i: usize = 0;
        while i < n
            invariant
                n == self.entries().len(),
                i <= n,
                texts(lines@) == error_lines(self.entries().subrange(0, i as int)),
            decreases n - i,
        {
            let field = self.errors.key_at(i);
            let msgs = self.errors.value_at(i);
            let ghost base = texts(lines@);
            let mut j: usize = 0;
            while j < msgs.len()
                invariant
                    j <= msgs@.len(),
                    texts(lines@) == base + msg_texts(*msgs).subrange(0, j as int).map_values(
                        |m: Seq<char>| field@ + ": "@ + m,
                    ),
                decreases msgs@.len() - j,
            {
                let a = cat(field.as_str(), ": ");
                let line = a.concat(msgs[j].as_str());
                let ghost before = lines@;
                lines.push(line);
                assert(texts(lines@) =~= texts(before).push(field@ + ": "@ + msgs@[j as int]@));
                assert(msg_texts(*msgs).subrange(0, j + 1) =~= msg_texts(*msgs).subrange(
                    0,
                    j as int,
                ).push(msgs@[j as int]@));
                assert(texts(lines@) =~= base + msg_texts(*msgs).subrange(0, j + 1).map_values(
                    |m: Seq<char>| field@ + ": "@ + m,
                ));
                j = j + 1;
            }
            proof {
                let p = self.entries();
                assert(p.subrange(0, i + 1).drop_last() =~= p.subrange(0, i as int));
                assert(msg_texts(*msgs).subrange(0, msgs@.len() as int) =~= msg_texts(*msgs));
                assert(p.subrange(0, i + 1).last() == p[i as int]);
            }
            i = i + 1;
        }
        assert(self.entries().subrange(0, n as int) =~= self.entries());
        join_strings(&lines, "; ")
    }
}

/// Builder for ValidationErrors.
#[derive(Debug)]
pub struct ValidationErrorsBuilder {
    errors: ValidationErrors,
}

impl ValidationErrorsBuilder {
    /// The errors gathered so far.
    pub closed spec fn model(&self) -> Map<Seq<char>, Seq<Seq<char>>> {
        self.errors.model()
    }

    /// Create a new builder.
    pub fn new() -> (r: Self)
        ensures
            r.model() == Map::<Seq<char>, Seq<Seq<char>>>::empty(),
    {
        ValidationErrorsBuilder { errors: ValidationErrors::new() }
    }

    /// Add an error.
    pub fn add(self, field: &str, message: &str) -> (r: Self)
        ensures
            r.model() == with_message(self.model(), field@, message@),
    {
        let mut b = self;
        b.errors.add(field, message);
        b
    }

    /// Add error if condition is true.
    pub fn add_if(self, condition: bool, field: &str, message: &str) -> (r: Self)
        ensures
            condition ==> r.model() == with_message(self.model(), field@, message@),
            !condition ==> r.model() == self.model(),
    {
        let mut b = self;
        b.errors.add_if(condition, field, message);
        b
    }

    /// Build and return the ValidationErrors.
    pub fn build(self) -> (r: ValidationErrors)
        ensures
            r.model() == self.model(),
    {
        self.errors
    }

    /// Build and return as Result.
    pub fn into_result<T>(self, ok: T) -> (r: Result<T>)
        ensures
            self.model().len() == 0 ==> r == Ok::<T, Error>(ok),
            self.model().len() != 0 ==> (r matches Err(Error::Validation { message: m, errors: e })
                && m@ == spec_validation_message(self.model().len()) && e.model() == self.model()),
    {
        self.errors.into_result(ok)
    }
}

impl Default for ValidationErrorsBuilder {
    fn default() -> (r: Self)
        ensures
            r.model() == Map::<Seq<char>, Seq<Seq<char>>>::empty(),
    {
        ValidationErrorsBuilder::new()
    }
}

impl Default for ValidationErrors {
    fn default() -> (r: Self)
        ensures
            r.model() == Map::<Seq<char>, Seq<Seq<char>>>::empty(),
    {
        ValidationErrors::new()
    }
}

/// The error model of a sequence of entries.
pub open spec fn seq_model(p: Seq<(Seq<char>, Vec<String>)>) -> Map<Seq<char>, Seq<Seq<char>>> {
    crate::strmap::seq_map(p).map_values(|v: Vec<String>| msg_texts(v))
}

proof fn lemma_seq_model_push(p: Seq<(Seq<char>, Vec<String>)>, e: (Seq<char>, Vec<String>))
    ensures
        seq_model(p.push(e)) == seq_model(p).insert(e.0, msg_texts(e.1)),
{
    assert(p.push(e).drop_last() =~= p);
    assert(seq_model(p.push(e)) =~= seq_model(p).insert(e.0, msg_texts(e.1)));
}

proof fn lemma_total_push(p: Seq<(Seq<char>, Vec<String>)>, e: (Seq<char>, Vec<String>))
    ensures
        total_of(p.push(e)) == total_of(p) + e.1@.len(),
{
    assert(p.push(e).drop_last() =~= p);
}

proof fn lemma_total_update(p: Seq<(Seq<char>, Vec<String>)>, i: int, e: (Seq<char>, Vec<String>))
    requires
        0 <= i < p.len(),
    ensures
        total_of(p.update(i, e)) + p[i].1@.len() == total_of(p) + e.1@.len(),
    decreases p.len(),
{
    if i == p.len() - 1 {
        assert(p.update(i, e).drop_last() =~= p.drop_last());
    } else {
        assert(p.update(i, e).drop_last() =~= p.drop_last().update(i, e));
        lemma_total_update(p.drop_last(), i, e);
    }
}

proof fn lemma_total_prefix(p: Seq<(Seq<char>, Vec<String>)>, k: int)
    requires
        0 <= k <= p.len(),
    ensures
        total_of(p.subrange(0, k)) <= total_of(p),
    decreases p.len() - k,
{
    if k < p.len() {
        assert(p.subrange(0, k + 1).drop_last() =~= p.subrange(0, k));
        lemma_total_prefix(p, k + 1);
    } else {
        assert(p.subrange(0, k) =~= p);
    }
}

} // verus!
