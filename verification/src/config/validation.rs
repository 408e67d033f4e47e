//! Configuration validation: field rules, nested paths and error collection.
use vstd::prelude::*;

use crate::error::{msg_texts, with_message, Error, Result, ValidationErrors};
use crate::text::{
    cat, dec, dec_int, i64_to_text, is_blank, join_seq, join_strings, texts, trim_seq,
    usize_to_text,
};

verus! {

/// Trait for types that can be validated.
pub trait Validatable {
    /// Validate this configuration.
    fn validate(&self) -> Result<()>;

    /// Validate and collect errors without failing immediately.
    fn validate_collect(&self, errors: &mut ValidationErrors);
}

/// The dotted path of nested field names.
pub open spec fn spec_path(p: Seq<Seq<char>>) -> Seq<char> {
    join_seq(p, "."@)
}

/// The full name of a field under a nesting path.
pub open spec fn spec_field(p: Seq<Seq<char>>, name: Seq<char>) -> Seq<char> {
    if p.len() == 0 {
        name
    } else {
        spec_path(p) + "."@ + name
    }
}

/// Validation context for tracking nested paths.
#[derive(Debug, Clone)]
pub struct ValidationContext {
    path: Vec<String>,
}

/// The field names after leaving the innermost one (none left stays none).
pub open spec fn leave_segments(s: Seq<Seq<char>>) -> Seq<Seq<char>> {
    if s.len() == 0 {
        s
    } else {
        s.drop_last()
    }
}

impl ValidationContext {
    /// The field names entered, outermost first.
    pub closed spec fn spec_segments(&self) -> Seq<Seq<char>> {
        texts(self.path@)
    }

    /// Create a new validation context.
    pub fn new() -> (r: Self)
        ensures
            r.spec_segments() == Seq::<Seq<char>>::empty(),
    {
        let r = ValidationContext { path: Vec::new() };
        assert(r.spec_segments() =~= Seq::<Seq<char>>::empty());
        r
    }

    /// Enter a nested field.
    pub fn enter(&mut self, field: &str)
        ensures
            final(self).spec_segments() == old(self).spec_segments().push(field@),
    {
        self.path.push(field.to_owned());
        assert(self.spec_segments() =~= old(self).spec_segments().push(field@));
    }

    /// Leave the current nested field (nothing happens at the top level).
    pub fn leave(&mut self)
        ensures
            final(self).spec_segments() == if old(self).spec_segments().len() == 0 {
                old(self).spec_segments()
            } else {
                old(self).spec_segments().drop_last()
            },
    {
        let _ = self.path.pop();
        assert(self.spec_segments() =~= if old(self).spec_segments().len() == 0 {
            old(self).spec_segments()
        } else {
            old(self).spec_segments().drop_last()
        });
    }

    /// Get the current full path as a string.
    pub fn path(&self) -> (r: String)
        ensures
            r@ == spec_path(self.spec_segments()),
    {
        join_strings(&self.path, ".")
    }

    /// Create a field path combining context path and field name.
    pub fn field(&self, name: &str) -> (r: String)
        ensures
            r@ == spec_field(self.spec_segments(), name@),
    {
        if self.path.len() == 0 {
            name.to_owned()
        } else {
            let p = self.path();
            let q = p.concat(".");
            q.concat(name)
        }
    }

    /// Execute validation within a nested context: enter `field`, run `f`, leave.
    pub fn with_field<F: FnOnce(&mut Self)>(&mut self, field: &str, f: F)
        requires
            forall|c: &mut Self| f.requires((c,)),
        ensures
            exists|c: &mut Self|
                #![trigger f.ensures((c,), ())]
                (*c).spec_segments() == old(self).spec_segments().push(field@) && f.ensures((c,), ())
                    && final(self).spec_segments() == leave_segments((*final(c)).spec_segments()),
    {
        self.enter(field);
        f(self);
        self.leave();
    }
}

impl Default for ValidationContext {
    fn default() -> (r: Self)
        ensures
            r.spec_segments() == Seq::<Seq<char>>::empty(),
    {
        ValidationContext::new()
    }
}

/// A validation rule that can be applied to a value.
pub trait ValidationRule<T> {
    /// The message a value is refused with, or `None` when it passes.
    spec fn spec_check(&self, value: &T) -> Option<Seq<char>>;

    /// Validate the value.
    fn validate(&self, value: &T) -> (r: std::result::Result<(), String>)
        ensures
            match (r, self.spec_check(value)) {
                (Ok(()), None) => true,
                (Err(m), Some(sm)) => m@ == sm,
                _ => false,
            },
    ;

    /// Get a description of this rule.
    fn description(&self) -> &str;
}

/// Description of a range constraint.
pub open spec fn spec_range_description(min: Option<i64>, max: Option<i64>) -> Seq<char> {
    match (min, max) {
        (Some(a), Some(b)) => "Value must be between "@ + dec_int(a as int) + " and "@ + dec_int(
            b as int,
        ),
        (Some(a), None) => "Value must be at least "@ + dec_int(a as int),
        (None, Some(b)) => "Value must be at most "@ + dec_int(b as int),
        (None, None) => "No range constraint"@,
    }
}

/// Outcome of checking a value against optional bounds.
pub open spec fn spec_range_check(min: Option<i64>, max: Option<i64>, v: i64) -> Option<Seq<char>> {
    if min is Some && v < min->0 {
        Some("Value "@ + dec_int(v as int) + " is below minimum "@ + dec_int(min->0 as int))
    } else if max is Some && v > max->0 {
        Some("Value "@ + dec_int(v as int) + " exceeds maximum "@ + dec_int(max->0 as int))
    } else {
        None
    }
}

/// Rule that checks if a value is within a range.
pub struct RangeRule {
    min: Option<i64>,
    max: Option<i64>,
    description: String,
}

impl RangeRule {
    /// The lower bound.
    pub closed spec fn spec_min(&self) -> Option<i64> {
        self.min
    }

    /// The upper bound.
    pub closed spec fn spec_max(&self) -> Option<i64> {
        self.max
    }

    /// The description text.
    pub closed spec fn spec_description(&self) -> Seq<char> {
        self.description@
    }

    /// Create a range rule with minimum and maximum.
    pub fn new(min: Option<i64>, max: Option<i64>) -> (r: Self)
        ensures
            r.spec_min() == min,
            r.spec_max() == max,
            r.spec_description() == spec_range_description(min, max),
    {
        let description = match (min, max) {
            (Some(a), Some(b)) => {
                let s = "Value must be between ".to_owned().concat(i64_to_text(a).as_str());
                s.concat(" and ").concat(i64_to_text(b).as_str())
            },
            (Some(a), None) => "Value must be at least ".to_owned().concat(
                i64_to_text(a).as_str(),
            ),
            (None, Some(b)) => "Value must be at most ".to_owned().concat(i64_to_text(b).as_str()),
            (None, None) => "No range constraint".to_owned(),
        };
        RangeRule { min, max, description }
    }

    /// Create a minimum-only rule.
    pub fn min(min: i64) -> (r: Self)
        ensures
            r.spec_min() == Some(min),
            r.spec_max() == None::<i64>,
            r.spec_description() == spec_range_description(Some(min), None),
    {
        RangeRule::new(Some(min), None)
    }

    /// Create a maximum-only rule.
    pub fn max(max: i64) -> (r: Self)
        ensures
            r.spec_min() == None::<i64>,
            r.spec_max() == Some(max),
            r.spec_description() == spec_range_description(None, Some(max)),
    {
        RangeRule::new(None, Some(max))
    }

    /// Create a between rule.
    pub fn between(min: i64, max: i64) -> (r: Self)
        ensures
            r.spec_min() == Some(min),
            r.spec_max() == Some(max),
            r.spec_description() == spec_range_description(Some(min), Some(max)),
    {
        RangeRule::new(Some(min), Some(max))
    }
}

impl ValidationRule<i64> for RangeRule {
    open spec fn spec_check(&self, value: &i64) -> Option<Seq<char>> {
        spec_range_check(self.spec_min(), self.spec_max(), *value)
    }

    fn validate(&self, value: &i64) -> (r: std::result::Result<(), String>) {
        if let Some(a) = self.min {
            if *value < a {
                let s = "Value ".to_owned().concat(i64_to_text(*value).as_str());
                return Err(s.concat(" is below minimum ").concat(i64_to_text(a).as_str()));
            }
        }
        if let Some(b) = self.max {
            if *value > b {
                let s = "Value ".to_owned().concat(i64_to_text(*value).as_str());
                return Err(s.concat(" exceeds maximum ").concat(i64_to_text(b).as_str()));
            }
        }
        Ok(())
    }

    fn description(&self) -> (r: &str) {
        self.description.as_str()
    }
}

/// Number of bytes of the UTF-8 encoding of a text, as `String::len` reports it.
pub open spec fn utf8_len(s: Seq<char>) -> nat {
    (vstd::utf8::encode_utf8(s).len() as usize) as nat
}

/// Description of a length constraint.
pub open spec fn spec_length_description(min: Option<usize>, max: Option<usize>) -> Seq<char> {
    match (min, max) {
        (Some(a), Some(b)) => "Length must be between "@ + dec(a as nat) + " and "@ + dec(
            b as nat,
        ),
        (Some(a), None) => "Length must be at least "@ + dec(a as nat),
        (None, Some(b)) => "Length must be at most "@ + dec(b as nat),
        (None, None) => "No length constraint"@,
    }
}

/// Outcome of checking a byte length against optional bounds.
pub open spec fn spec_length_check(min: Option<usize>, max: Option<usize>, len: nat) -> Option<
    Seq<char>,
> {
    if min is Some && len < min->0 {
        Some("String length "@ + dec(len) + " is below minimum "@ + dec(min->0 as nat))
    } else if max is Some && len > max->0 {
        Some("String length "@ + dec(len) + " exceeds maximum "@ + dec(max->0 as nat))
    } else {
        None
    }
}

/// Rule that checks string length (in bytes of UTF-8).
pub struct StringLengthRule {
    min: Option<usize>,
    max: Option<usize>,
    description: String,
}

impl StringLengthRule {
    /// The minimum length.
    pub closed spec fn spec_min(&self) -> Option<usize> {
        self.min
    }

    /// The maximum length.
    pub closed spec fn spec_max(&self) -> Option<usize> {
        self.max
    }

    /// The description text.
    pub closed spec fn spec_description(&self) -> Seq<char> {
        self.description@
    }

    /// Create a string length rule.
    pub fn new(min: Option<usize>, max: Option<usize>) -> (r: Self)
        ensures
            r.spec_min() == min,
            r.spec_max() == max,
            r.spec_description() == spec_length_description(min, max),
    {
        let description = match (min, max) {
            (Some(a), Some(b)) => {
                let s = "Length must be between ".to_owned().concat(usize_to_text(a).as_str());
                s.concat(" and ").concat(usize_to_text(b).as_str())
            },
            (Some(a), None) => "Length must be at least ".to_owned().concat(
                usize_to_text(a).as_str(),
            ),
            (None, Some(b)) => "Length must be at most ".to_owned().concat(
                usize_to_text(b).as_str(),
            ),
            (None, None) => "No length constraint".to_owned(),
        };
        StringLengthRule { min, max, description }
    }

    /// Create a non-empty rule.
    pub fn non_empty() -> (r: Self)
        ensures
            r.spec_min() == Some(1usize),
            r.spec_max() == None::<usize>,
            r.spec_description() == spec_length_description(Some(1), None),
    {
        StringLengthRule::new(Some(1), None)
    }

    /// Create a max length rule.
    pub fn max(max: usize) -> (r: Self)
        ensures
            r.spec_min() == None::<usize>,
            r.spec_max() == Some(max),
            r.spec_description() == spec_length_description(None, Some(max)),
    {
        StringLengthRule::new(None, Some(max))
    }
}

impl ValidationRule<String> for StringLengthRule {
    open spec fn spec_check(&self, value: &String) -> Option<Seq<char>> {
        spec_length_check(self.spec_min(), self.spec_max(), utf8_len(value@))
    }

    fn validate(&self, value: &String) -> (r: std::result::Result<(), String>) {
        let len = value.as_str().len();
        if let Some(a) = self.min {
            if len < a {
                let s = "String length ".to_owned().concat(usize_to_text(len).as_str());
                return Err(s.concat(" is below minimum ").concat(usize_to_text(a).as_str()));
            }
        }
        if let Some(b) = self.max {
            if len > b {
                let s = "String length ".to_owned().concat(usize_to_text(len).as_str());
                return Err(s.concat(" exceeds maximum ").concat(usize_to_text(b).as_str()));
            }
        }
        Ok(())
    }

    fn description(&self) -> (r: &str) {
        self.description.as_str()
    }
}

/// What the file system reports of a path: its display text and what it is.
#[derive(Debug, Clone)]
pub struct PathInfo {
    /// The path as displayed in messages.
    pub display: String,
    /// The path exists.
    pub exists: bool,
    /// The path is an existing regular file.
    pub is_file: bool,
    /// The path is an existing directory.
    pub is_dir: bool,
}

/// Rule that checks if a path exists.
pub struct PathExistsRule {
    check_file: bool,
    check_dir: bool,
    description: String,
}

impl PathExistsRule {
    /// The rule requires a file.
    pub closed spec fn spec_check_file(&self) -> bool {
        self.check_file
    }

    /// The rule requires a directory.
    pub closed spec fn spec_check_dir(&self) -> bool {
        self.check_dir
    }

    /// The description text.
    pub closed spec fn spec_description(&self) -> Seq<char> {
        self.description@
    }

    /// Create a rule that checks if a file exists.
    pub fn file() -> (r: Self)
        ensures
            r.spec_check_file() && !r.spec_check_dir(),
            r.spec_description() == "Path must be an existing file"@,
    {
        PathExistsRule {
            check_file: true,
            check_dir: false,
            description: "Path must be an existing file".to_owned(),
        }
    }

    /// Create a rule that checks if a directory exists.
    pub fn directory() -> (r: Self)
        ensures
            !r.spec_check_file() && r.spec_check_dir(),
            r.spec_description() == "Path must be an existing directory"@,
    {
        PathExistsRule {
            check_file: false,
            check_dir: true,
            description: "Path must be an existing directory".to_owned(),
        }
    }

    /// Create a rule that checks if path exists (file or directory).
    pub fn existing() -> (r: Self)
        ensures
            !r.spec_check_file() && !r.spec_check_dir(),
            r.spec_description() == "Path must exist"@,
    {
        PathExistsRule {
            check_file: false,
            check_dir: false,
            description: "Path must exist".to_owned(),
        }
    }
}

impl ValidationRule<PathInfo> for PathExistsRule {
    open spec fn spec_check(&self, value: &PathInfo) -> Option<Seq<char>> {
        if self.spec_check_file() {
            if !value.is_file {
                Some("Path '"@ + value.display@ + "' is not a file"@)
            } else {
                None
            }
        } else if self.spec_check_dir() {
            if !value.is_dir {
                Some("Path '"@ + value.display@ + "' is not a directory"@)
            } else {
                None
            }
        } else if !value.exists {
            Some("Path '"@ + value.display@ + "' does not exist"@)
        } else {
            None
        }
    }

    fn validate(&self, value: &PathInfo) -> (r: std::result::Result<(), String>) {
        if self.check_file {
            if !value.is_file {
                return Err(cat("Path '", value.display.as_str()).concat("' is not a file"));
            }
        } else if self.check_dir {
            if !value.is_dir {
                return Err(cat("Path '", value.display.as_str()).concat("' is not a directory"));
            }
        } else if !value.exists {
            return Err(cat("Path '", value.display.as_str()).concat("' does not exist"));
        }
        Ok(())
    }

    fn description(&self) -> (r: &str) {
        self.description.as_str()
    }
}

/// What a socket address holds that the rule reads: its family and port.
#[derive(Debug, Clone, Copy, PartialEq, Eq)]
pub struct SocketAddrInfo {
    /// The address is an IPv6 address.
    pub is_ipv6: bool,
    /// The port.
    pub port: u16,
}

/// Rule that validates socket addresses.
pub struct SocketAddrRule {
    require_ipv4: bool,
    port_range: Option<(u16, u16)>,
    description: String,
}

impl SocketAddrRule {
    /// IPv6 addresses are refused.
    pub closed spec fn spec_require_ipv4(&self) -> bool {
        self.require_ipv4
    }

    /// The accepted port range.
    pub closed spec fn spec_port_range(&self) -> Option<(u16, u16)> {
        self.port_range
    }

    /// The description text.
    pub closed spec fn spec_description(&self) -> Seq<char> {
        self.description@
    }

    /// Create a basic socket address rule.
    pub fn new() -> (r: Self)
        ensures
            !r.spec_require_ipv4(),
            r.spec_port_range() == None::<(u16, u16)>,
            r.spec_description() == "Must be a valid socket address"@,
    {
        SocketAddrRule {
            require_ipv4: false,
            port_range: None,
            description: "Must be a valid socket address".to_owned(),
        }
    }

    /// Require IPv4 address.
    pub fn ipv4_only(self) -> (r: Self)
        ensures
            r.spec_require_ipv4(),
            r.spec_port_range() == self.spec_port_range(),
            r.spec_description() == "Must be a valid IPv4 socket address"@,
    {
        let mut s = self;
        s.require_ipv4 = true;
        s.description = "Must be a valid IPv4 socket address".to_owned();
        s
    }

    /// Require port in range.
    pub fn port_range(self, min: u16, max: u16) -> (r: Self)
        ensures
            r.spec_require_ipv4() == self.spec_require_ipv4(),
            r.spec_port_range() == Some((min, max)),
            r.spec_description() == "Must be a valid socket address with port between "@ + dec(
                min as nat,
            ) + " and "@ + dec(max as nat),
    {
        let mut s = self;
        s.port_range = Some((min, max));
        let d = "Must be a valid socket address with port between ".to_owned().concat(
            usize_to_text(min as usize).as_str(),
        );
        s.description = d.concat(" and ").concat(usize_to_text(max as usize).as_str());
        s
    }

    /// Require non-privileged port (>= 1024).
    pub fn non_privileged_port(self) -> (r: Self)
        ensures
            r.spec_require_ipv4() == self.spec_require_ipv4(),
            r.spec_port_range() == Some((1024u16, 65535u16)),
    {
        self.port_range(1024, 65535)
    }
}

impl Default for SocketAddrRule {
    fn default() -> (r: Self)
        ensures
            !r.spec_require_ipv4(),
            r.spec_port_range() == None::<(u16, u16)>,
    {
        SocketAddrRule::new()
    }
}

impl ValidationRule<SocketAddrInfo> for SocketAddrRule {
    open spec fn spec_check(&self, value: &SocketAddrInfo) -> Option<Seq<char>> {
        if self.spec_require_ipv4() && value.is_ipv6 {
            Some("IPv4 address required"@)
        } else {
            match self.spec_port_range() {
                Some((lo, hi)) => if value.port < lo || value.port > hi {
                    Some(
                        "Port "@ + dec(value.port as nat) + " must be between "@ + dec(lo as nat)
                            + " and "@ + dec(hi as nat),
                    )
                } else {
                    None
                },
                None => None,
            }
        }
    }

    fn validate(&self, value: &SocketAddrInfo) -> (r: std::result::Result<(), String>) {
        if self.require_ipv4 && value.is_ipv6 {
            return Err("IPv4 address required".to_owned());
        }
        if let Some((lo, hi)) = self.port_range {
            let port = value.port;
            if port < lo || port > hi {
                let s = "Port ".to_owned().concat(usize_to_text(port as usize).as_str());
                let t = s.concat(" must be between ").concat(usize_to_text(lo as usize).as_str());
                return Err(t.concat(" and ").concat(usize_to_text(hi as usize).as_str()));
            }
        }
        Ok(())
    }

    fn description(&self) -> (r: &str) {
        self.description.as_str()
    }
}

/// Validator for collecting and running multiple validation rules.
pub struct Validator {
    errors: ValidationErrors,
    context: ValidationContext,
}

impl Validator {
    /// The errors collected so far.
    pub closed spec fn spec_errors(&self) -> Map<Seq<char>, Seq<Seq<char>>> {
        self.errors.model()
    }

    /// The current nesting of field names.
    pub closed spec fn spec_segments(&self) -> Seq<Seq<char>> {
        self.context.spec_segments()
    }

    /// Create a new validator.
    pub fn new() -> (r: Self)
        ensures
            r.spec_errors() == Map::<Seq<char>, Seq<Seq<char>>>::empty(),
            r.spec_segments() == Seq::<Seq<char>>::empty(),
    {
        Validator { errors: ValidationErrors::new(), context: ValidationContext::new() }
    }

    /// Get current validation context.
    pub fn context(&self) -> (r: &ValidationContext)
        ensures
            r.spec_segments() == self.spec_segments(),
    {
        &self.context
    }

    /// Get mutable validation context.
    pub fn context_mut(&mut self) -> (r: &mut ValidationContext)
        ensures
            r.spec_segments() == old(self).spec_segments(),
            final(self).spec_segments() == final(r).spec_segments(),
            final(self).spec_errors() == old(self).spec_errors(),
    {
        &mut self.context
    }

    /// Add an error for a field (named under the current nesting).
    pub fn add_error(&mut self, field: &str, message: &str)
        ensures
            final(self).spec_errors() == with_message(
                old(self).spec_errors(),
                spec_field(old(self).spec_segments(), field@),
                message@,
            ),
            final(self).spec_segments() == old(self).spec_segments(),
    {
        let full_path = self.context.field(field);
        self.errors.add(full_path.as_str(), message);
    }

    /// Add error if condition is true.
    pub fn add_if(&mut self, condition: bool, field: &str, message: &str)
        ensures
            condition ==> final(self).spec_errors() == with_message(
                old(self).spec_errors(),
                spec_field(old(self).spec_segments(), field@),
                message@,
            ),
            !condition ==> final(self).spec_errors() == old(self).spec_errors(),
            final(self).spec_segments() == old(self).spec_segments(),
    {
        if condition {
            self.add_error(field, message);
        }
    }

    /// Validate a value with a rule; a refused value adds the rule's message.
    pub fn validate_field<T, R: ValidationRule<T>>(&mut self, field: &str, value: &T, rule: &R)
        ensures
            match rule.spec_check(value) {
                Some(m) => final(self).spec_errors() == with_message(
                    old(self).spec_errors(),
                    spec_field(old(self).spec_segments(), field@),
                    m,
                ),
                None => final(self).spec_errors() == old(self).spec_errors(),
            },
            final(self).spec_segments() == old(self).spec_segments(),
    {
        match rule.validate(value) {
            Err(msg) => self.add_error(field, msg.as_str()),
            Ok(()) => {},
        }
    }

    /// Validate a required string field is not blank.
    pub fn require_non_empty(&mut self, field: &str, value: &str)
        ensures
            trim_seq(value@).len() == 0 ==> final(self).spec_errors() == with_message(
                old(self).spec_errors(),
                spec_field(old(self).spec_segments(), field@),
                "Value cannot be empty"@,
            ),
            trim_seq(value@).len() != 0 ==> final(self).spec_errors() == old(self).spec_errors(),
            final(self).spec_segments() == old(self).spec_segments(),
    {
        if is_blank(value) {
            self.add_error(field, "Value cannot be empty");
        }
    }

    /// Validate a numeric value is positive.
    pub fn require_positive(&mut self, field: &str, value: i64)
        ensures
            value <= 0 ==> final(self).spec_errors() == with_message(
                old(self).spec_errors(),
                spec_field(old(self).spec_segments(), field@),
                "Value must be positive, got "@ + dec_int(value as int),
            ),
            value > 0 ==> final(self).spec_errors() == old(self).spec_errors(),
            final(self).spec_segments() == old(self).spec_segments(),
    {
        if value <= 0 {
            let m = "Value must be positive, got ".to_owned().concat(i64_to_text(value).as_str());
            self.add_error(field, m.as_str());
        }
    }

    /// Validate a value is in a range.
    pub fn require_range(&mut self, field: &str, value: i64, min: i64, max: i64)
        ensures
            (value < min || value > max) ==> final(self).spec_errors() == with_message(
                old(self).spec_errors(),
                spec_field(old(self).spec_segments(), field@),
                "Value "@ + dec_int(value as int) + " must be between "@ + dec_int(min as int)
                    + " and "@ + dec_int(max as int),
            ),
            !(value < min || value > max) ==> final(self).spec_errors() == old(self).spec_errors(),
            final(self).spec_segments() == old(self).spec_segments(),
    {
        if value < min || value > max {
            let a = "Value ".to_owned().concat(i64_to_text(value).as_str());
            let b = a.concat(" must be between ").concat(i64_to_text(min).as_str());
            let m = b.concat(" and ").concat(i64_to_text(max).as_str());
            self.add_error(field, m.as_str());
        }
    }

    /// Validate with a nested context: enter `field`, run `f`, leave.
    pub fn validate_nested<F: FnOnce(&mut Self)>(&mut self, field: &str, f: F)
        requires
            forall|v: &mut Self| f.requires((v,)),
        ensures
            exists|v: &mut Self|
                #![trigger f.ensures((v,), ())]
                {
                    &&& (*v).spec_segments() == old(self).spec_segments().push(field@)
                    &&& (*v).spec_errors() == old(self).spec_errors()
                    &&& f.ensures((v,), ())
                    &&& final(self).spec_errors() == (*final(v)).spec_errors()
                    &&& final(self).spec_segments() == leave_segments((*final(v)).spec_segments())
                },
    {
        self.context.enter(field);
        f(self);
        self.context.leave();
    }

    /// Check if there are any errors.
    pub fn has_errors(&self) -> (r: bool)
        ensures
            r == (self.spec_errors().len() != 0),
    {
        !self.errors.is_empty()
    }

    /// Get the collected errors.
    pub fn errors(&self) -> (r: &ValidationErrors)
        ensures
            r.model() == self.spec_errors(),
    {
        &self.errors
    }

    /// Consume and return the errors.
    pub fn into_errors(self) -> (r: ValidationErrors)
        ensures
            r.model() == self.spec_errors(),
    {
        self.errors
    }

    /// Convert to Result: `Ok` when no error was collected.
    pub fn into_result(self) -> (r: Result<()>)
        ensures
            self.spec_errors().len() == 0 ==> r is Ok,
            self.spec_errors().len() != 0 ==> (r matches Err(Error::Validation { errors: e, .. })
                && e.model() == self.spec_errors()),
    {
        self.errors.into_result(())
    }

    /// Merge errors from another validator.
    pub fn merge(&mut self, other: Validator)
        ensures
            final(self).spec_errors() == crate::error::merged_errors(
                old(self).spec_errors(),
                other.spec_errors(),
            ),
            final(self).spec_segments() == old(self).spec_segments(),
    {
        self.errors.merge(other.errors);
    }
}

impl Default for Validator {
    fn default() -> (r: Self)
        ensures
            r.spec_errors() == Map::<Seq<char>, Seq<Seq<char>>>::empty(),
            r.spec_segments() == Seq::<Seq<char>>::empty(),
    {
        Validator::new()
    }
}

/// The field name under which a cross-field error is filed.
pub open spec fn spec_fields_name(fields: Seq<&str>) -> Seq<char> {
    join_seq(fields.map_values(|f: &str| f@), ", "@)
}

/// Cross-field validation helper.
pub struct CrossFieldValidator<'a, T> {
    config: &'a T,
    errors: ValidationErrors,
}

impl<'a, T> CrossFieldValidator<'a, T> {
    /// The errors collected so far.
    pub closed spec fn spec_errors(&self) -> Map<Seq<char>, Seq<Seq<char>>> {
        self.errors.model()
    }

    /// The configuration under validation.
    pub closed spec fn spec_config(&self) -> &'a T {
        self.config
    }

    /// Create a new cross-field validator.
    pub fn new(config: &'a T) -> (r: Self)
        ensures
            r.spec_config() == config,
            r.spec_errors() == Map::<Seq<char>, Seq<Seq<char>>>::empty(),
    {
        CrossFieldValidator { config, errors: ValidationErrors::new() }
    }

    /// Get the configuration being validated.
    pub fn config(&self) -> (r: &T)
        ensures
            r == self.spec_config(),
    {
        self.config
    }

    /// Add a cross-field validation error, filed under the fields joined by ", ".
    pub fn add_error(&mut self, fields: &[&str], message: &str)
        ensures
            final(self).spec_errors() == with_message(
                old(self).spec_errors(),
                spec_fields_name(fields@),
                message@,
            ),
            final(self).spec_config() == old(self).spec_config(),
    {
        let mut names: Vec<String> = Vec::new();
        let mut i: usize = 0;
        while i < fields.len()
            invariant
                i <= fields@.len(),
                names@.len() == i,
                texts(names@) == fields@.map_values(|f: &str| f@).subrange(0, i as int),
            decreases fields@.len() - i,
        {
            let ghost before = names@;
            let item = fields[i].to_owned();
            names.push(item);
            assert(names@[i as int]@ == fields@[i as int]@);
            assert(texts(names@) =~= fields@.map_values(|f: &str| f@).subrange(0, i + 1));
            i = i + 1;
        }
        assert(fields@.map_values(|f: &str| f@).subrange(0, fields@.len() as int) =~= fields@.map_values(
            |f: &str| f@,
        ));
        let field_name = join_strings(&names, ", ");
        self.errors.add(field_name.as_str(), message);
    }

    /// Add error if condition is true.
    pub fn add_if(&mut self, condition: bool, fields: &[&str], message: &str)
        ensures
            condition ==> final(self).spec_errors() == with_message(
                old(self).spec_errors(),
                spec_fields_name(fields@),
                message@,
            ),
            !condition ==> final(self).spec_errors() == old(self).spec_errors(),
            final(self).spec_config() == old(self).spec_config(),
    {
        if condition {
            self.add_error(fields, message);
        }
    }

    /// Check if there are any errors.
    pub fn has_errors(&self) -> (r: bool)
        ensures
            r == (self.spec_errors().len() != 0),
    {
        !self.errors.is_empty()
    }

    /// Consume and return the errors.
    pub fn into_errors(self) -> (r: ValidationErrors)
        ensures
            r.model() == self.spec_errors(),
    {
        self.errors
    }
}

} // verus!
