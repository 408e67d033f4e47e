//! Overrides of configuration values from environment variables: variable
//! names, value parsing, and the account of what was applied.
use vstd::prelude::*;

use crate::error::{with_message, Error, Result, ValidationErrors};
use crate::strmap::{text_map, StrMap};
use crate::text::{cat, lowercase_of, push_char, str_chars, str_eq, str_starts_with, to_lowercase};

verus! {

/// Default environment variable prefix.
pub const DEFAULT_PREFIX: &'static str = "TRAP_SIM";

/// The boolean a lowercased value denotes, with the accepted spellings.
pub open spec fn spec_parse_bool(s: Seq<char>) -> Option<bool> {
    if s == "true"@ || s == "1"@ || s == "yes"@ || s == "on"@ || s == "enabled"@ {
        Some(true)
    } else if s == "false"@ || s == "0"@ || s == "no"@ || s == "off"@ || s == "disabled"@ {
        Some(false)
    } else {
        None
    }
}

/// Parses a boolean, ignoring case: `true`, `1`, `yes`, `on`, `enabled` and
/// `false`, `0`, `no`, `off`, `disabled`.
pub fn parse_bool(s: &str) -> (r: Option<bool>)
    ensures
        r == spec_parse_bool(lowercase_of(s@)),
{
    let lower = to_lowercase(s);
    let t = lower.as_str();
    if str_eq(t, "true") || str_eq(t, "1") || str_eq(t, "yes") || str_eq(t, "on") || str_eq(t, "enabled") {
        Some(true)
    } else if str_eq(t, "false") || str_eq(t, "0") || str_eq(t, "no") || str_eq(t, "off") || str_eq(
        t,
        "disabled",
    ) {
        Some(false)
    } else {
        None
    }
}

/// A text with each `_` replaced by `.`.
pub open spec fn dotted(s: Seq<char>) -> Seq<char> {
    s.map_values(|c: char| if c == '_' { '.' } else { c })
}

/// The field path a variable suffix stands for by default: lowercased, with
/// `_` replaced by `.`.
pub fn default_field_path(suffix: &str) -> (r: String)
    ensures
        r@ == dotted(lowercase_of(suffix@)),
{
    let lower = to_lowercase(suffix);
    let cs = str_chars(lower.as_str());
    let mut r = String::new();
    let mut i: usize = 0;
    while i < cs.len()
        invariant
            i <= cs@.len(),
            cs@ == lower@,
            r@ == dotted(cs@.subrange(0, i as int)),
        decreases cs@.len() - i,
    {
        let c = cs[i];
        push_char(&mut r, if c == '_' { '.' } else { c });
        i = i + 1;
        assert(r@ =~= dotted(cs@.subrange(0, i as int)));
    }
    assert(cs@.subrange(0, cs@.len() as int) =~= cs@);
    r
}

/// The full variable name of a suffix: the prefix, `_` and the suffix.
pub fn full_var_name(prefix: &str, suffix: &str) -> (r: String)
    ensures
        r@ == prefix@ + "_"@ + suffix@,
{
    cat(prefix, "_").concat(suffix)
}

/// The message of a value that failed to parse.
pub fn parse_failure_message(reason: &str) -> (r: String)
    ensures
        r@ == "Failed to parse: "@ + reason@,
{
    cat("Failed to parse: ", reason)
}

/// The message of a value that is no boolean.
pub fn invalid_bool_message(value: &str) -> (r: String)
    ensures
        r@ == "Invalid boolean value: "@ + value@,
{
    cat("Invalid boolean value: ", value)
}

/// Error that occurred while applying an environment override.
#[derive(Debug)]
pub struct EnvOverrideError {
    /// Environment variable name.
    pub env_var: String,
    /// Field path being overridden.
    pub field: String,
    /// Error message.
    pub message: String,
}

impl EnvOverrideError {
    /// The text `Display` shows.
    pub fn to_string(&self) -> (r: String)
        ensures
            r@ == "Failed to apply "@ + self.env_var@ + " to "@ + self.field@ + ": "@ + self.message@,
    {
        cat("Failed to apply ", self.env_var.as_str()).concat(" to ").concat(self.field.as_str()).concat(
            ": ",
        ).concat(self.message.as_str())
    }
}

/// What came of one override rule.
#[derive(Debug)]
pub enum EnvOutcome {
    /// The variable is not set.
    Absent,
    /// The variable is set but is not valid UTF-8.
    NotUnicode,
    /// The value was applied.
    Applied,
    /// The rule refused the value, with this message.
    Rejected(String),
}

/// Environment variable override result.
#[derive(Debug)]
pub struct EnvApplyResult {
    /// Number of overrides successfully applied.
    pub applied: usize,
    /// Fields that were overridden.
    pub overridden_fields: Vec<String>,
    /// Errors encountered during application.
    pub errors: Vec<EnvOverrideError>,
}

/// An error as its three texts.
pub open spec fn error_view(e: EnvOverrideError) -> (Seq<char>, Seq<char>, Seq<char>) {
    (e.env_var@, e.field@, e.message@)
}

impl EnvApplyResult {
    /// Nothing applied and no errors.
    pub fn new() -> (r: Self)
        ensures
            r.applied == 0,
            r.overridden_fields@.len() == 0,
            r.errors@.len() == 0,
    {
        EnvApplyResult { applied: 0, overridden_fields: Vec::new(), errors: Vec::new() }
    }

    /// Whether any override was applied.
    pub fn has_changes(&self) -> (r: bool)
        ensures
            r == (self.applied > 0),
    {
        self.applied > 0
    }

    /// Whether there were errors.
    pub fn has_errors(&self) -> (r: bool)
        ensures
            r == (self.errors@.len() > 0),
    {
        self.errors.len() > 0
    }

    /// Takes account of one rule's outcome for variable `var_name` and field
    /// `field`: an applied value counts and its field is listed; a refused
    /// value or a value that is no UTF-8 is an error; an absent variable
    /// leaves the result as it is when missing variables are ignored, and is
    /// an error otherwise.
    pub fn record(&mut self, var_name: String, field: &str, outcome: EnvOutcome, ignore_missing: bool)
        requires
            old(self).applied < usize::MAX,
        ensures
            match outcome {
                EnvOutcome::Absent => if ignore_missing {
                    *final(self) == *old(self)
                } else {
                    final(self).applied == old(self).applied
                        && final(self).overridden_fields == old(self).overridden_fields
                        && final(self).errors@.map_values(|e: EnvOverrideError| error_view(e)) == old(
                        self,
                    ).errors@.map_values(|e: EnvOverrideError| error_view(e)).push(
                        (var_name@, field@, "Environment variable is not set"@),
                    )
                },
                EnvOutcome::Applied => final(self).applied == old(self).applied + 1
                    && final(self).overridden_fields@.map_values(|f: String| f@) == old(
                    self,
                ).overridden_fields@.map_values(|f: String| f@).push(field@) && final(self).errors
                    == old(self).errors,
                EnvOutcome::Rejected(m) => final(self).applied == old(self).applied
                    && final(self).overridden_fields == old(self).overridden_fields
                    && final(self).errors@.map_values(|e: EnvOverrideError| error_view(e)) == old(
                    self,
                ).errors@.map_values(|e: EnvOverrideError| error_view(e)).push(
                    (var_name@, field@, m@),
                ),
                EnvOutcome::NotUnicode => final(self).applied == old(self).applied
                    && final(self).overridden_fields == old(self).overridden_fields
                    && final(self).errors@.map_values(|e: EnvOverrideError| error_view(e)) == old(
                    self,
                ).errors@.map_values(|e: EnvOverrideError| error_view(e)).push(
                    (var_name@, field@, "Value is not valid UTF-8"@),
                ),
            },
    {
        match outcome {
            EnvOutcome::Absent => {
                if !ignore_missing {
                    self.errors.push(
                        EnvOverrideError {
                            env_var: var_name,
                            field: field.to_owned(),
                            message: "Environment variable is not set".to_owned(),
                        },
                    );
                    assert(self.errors@.map_values(|e: EnvOverrideError| error_view(e)) =~= old(
                        self,
                    ).errors@.map_values(|e: EnvOverrideError| error_view(e)).push(
                        error_view(self.errors@.last()),
                    ));
                }
            },
            EnvOutcome::Applied => {
                self.applied = self.applied + 1;
                self.overridden_fields.push(field.to_owned());
                assert(self.overridden_fields@.map_values(|f: String| f@) =~= old(
                    self,
                ).overridden_fields@.map_values(|f: String| f@).push(field@));
            },
            EnvOutcome::Rejected(m) => {
                self.errors.push(EnvOverrideError { env_var: var_name, field: field.to_owned(), message: m });
                assert(self.errors@.map_values(|e: EnvOverrideError| error_view(e)) =~= old(
                    self,
                ).errors@.map_values(|e: EnvOverrideError| error_view(e)).push(
                    error_view(self.errors@.last()),
                ));
            },
            EnvOutcome::NotUnicode => {
                self.errors.push(
                    EnvOverrideError {
                        env_var: var_name,
                        field: field.to_owned(),
                        message: "Value is not valid UTF-8".to_owned(),
                    },
                );
                assert(self.errors@.map_values(|e: EnvOverrideError| error_view(e)) =~= old(
                    self,
                ).errors@.map_values(|e: EnvOverrideError| error_view(e)).push(
                    error_view(self.errors@.last()),
                ));
            },
        }
    }

    /// The result itself when there were no errors; else a validation error
    /// with one message per error, under its variable's name.
    pub fn into_result(self) -> (r: Result<EnvApplyResult>)
        ensures
            self.errors@.len() == 0 ==> r == Ok::<EnvApplyResult, Error>(self),
            self.errors@.len() > 0 ==> (r matches Err(Error::Validation { errors, .. })
                && errors.model() == env_error_map(Map::empty(), self.errors@)
                && errors.spec_total() == self.errors@.len()),
    {
        if self.errors.len() == 0 {
            return Ok(self);
        }
        let mut validation = ValidationErrors::new();
        let mut i: usize = 0;
        while i < self.errors.len()
            invariant
                i <= self.errors@.len(),
                validation.model() == env_error_map(Map::empty(), self.errors@.subrange(0, i as int)),
                validation.spec_total() == i,
            decreases self.errors@.len() - i,
        {
            validation.add(self.errors[i].env_var.as_str(), self.errors[i].message.as_str());
            assert(self.errors@.subrange(0, i + 1).drop_last() =~= self.errors@.subrange(0, i as int));
            i = i + 1;
        }
        assert(self.errors@.subrange(0, self.errors@.len() as int) =~= self.errors@);
        proof {
            validation.lemma_model_finite();
            lemma_env_error_map_nonempty(self.errors@);
        }
        Err(Error::validation(validation))
    }
}

/// The validation messages of a list of override errors: each error's
/// message under its variable's name.
pub open spec fn env_error_map(
    m: Map<Seq<char>, Seq<Seq<char>>>,
    errs: Seq<EnvOverrideError>,
) -> Map<Seq<char>, Seq<Seq<char>>>
    decreases errs.len(),
{
    if errs.len() == 0 {
        m
    } else {
        with_message(env_error_map(m, errs.drop_last()), errs.last().env_var@, errs.last().message@)
    }
}

proof fn lemma_env_error_map_nonempty(errs: Seq<EnvOverrideError>)
    requires
        errs.len() > 0,
    ensures
        env_error_map(Map::empty(), errs).contains_key(errs.last().env_var@),
{
}

/// With `fail_on_error` set, a result with errors becomes a validation error
/// (see [`EnvApplyResult::into_result`]); otherwise the result is returned.
pub fn checked_result(result: EnvApplyResult, fail_on_error: bool) -> (r: Result<EnvApplyResult>)
    ensures
        !(fail_on_error && result.errors@.len() > 0) ==> r == Ok::<EnvApplyResult, Error>(result),
        fail_on_error && result.errors@.len() > 0 ==> (r matches Err(Error::Validation { errors, .. })
            && errors.model() == env_error_map(Map::empty(), result.errors@)
            && errors.spec_total() == result.errors@.len()),
{
    if fail_on_error && result.has_errors() {
        result.into_result()
    } else {
        Ok(result)
    }
}

/// Documentation entry for an environment variable.
#[derive(Debug)]
pub struct EnvVarDoc {
    /// Full environment variable name.
    pub var_name: String,
    /// Configuration field path.
    pub field_path: String,
    /// Description.
    pub description: String,
}

impl EnvVarDoc {
    /// The entry of a rule under a prefix.
    pub fn new(prefix: &str, suffix: &str, field_path: &str, description: &str) -> (r: Self)
        ensures
            r.var_name@ == prefix@ + "_"@ + suffix@,
            r.field_path@ == field_path@,
            r.description@ == description@,
    {
        EnvVarDoc {
            var_name: full_var_name(prefix, suffix),
            field_path: field_path.to_owned(),
            description: description.to_owned(),
        }
    }

    /// The text `Display` shows: `name: field - description`.
    pub fn to_string(&self) -> (r: String)
        ensures
            r@ == self.var_name@ + ": "@ + self.field_path@ + " - "@ + self.description@,
    {
        cat(self.var_name.as_str(), ": ").concat(self.field_path.as_str()).concat(" - ").concat(
            self.description.as_str(),
        )
    }
}

/// Builder of an override rule: the variable suffix, the field it sets and a
/// description. The setter is attached where the rule is built.
#[derive(Debug)]
pub struct EnvRuleBuilder<T> {
    suffix: String,
    field_path: String,
    description: String,
    _phantom: std::marker::PhantomData<T>,
}

impl<T> EnvRuleBuilder<T> {
    /// The variable suffix.
    pub closed spec fn spec_suffix(&self) -> Seq<char> {
        self.suffix@
    }

    /// The field path.
    pub closed spec fn spec_field_path(&self) -> Seq<char> {
        self.field_path@
    }

    /// The description.
    pub closed spec fn spec_description(&self) -> Seq<char> {
        self.description@
    }

    /// A rule for a variable suffix, whose field path is the suffix lowercased
    /// with `_` turned into `.`, without description.
    pub fn new(suffix: &str) -> (r: Self)
        ensures
            r.spec_suffix() == suffix@,
            r.spec_field_path() == dotted(lowercase_of(suffix@)),
            r.spec_description() == Seq::<char>::empty(),
    {
        EnvRuleBuilder {
            field_path: default_field_path(suffix),
            suffix: suffix.to_owned(),
            description: String::new(),
            _phantom: std::marker::PhantomData,
        }
    }

    /// Sets the field path.
    pub fn field_path(self, path: &str) -> (r: Self)
        ensures
            r.spec_suffix() == self.spec_suffix(),
            r.spec_field_path() == path@,
            r.spec_description() == self.spec_description(),
    {
        let mut s = self;
        s.field_path = path.to_owned();
        s
    }

    /// Sets the description.
    pub fn description(self, desc: &str) -> (r: Self)
        ensures
            r.spec_suffix() == self.spec_suffix(),
            r.spec_field_path() == self.spec_field_path(),
            r.spec_description() == desc@,
    {
        let mut s = self;
        s.description = desc.to_owned();
        s
    }

    /// The variable suffix.
    pub fn suffix(&self) -> (r: &str)
        ensures
            r@ == self.spec_suffix(),
    {
        self.suffix.as_str()
    }

    /// The field path.
    pub fn path(&self) -> (r: &str)
        ensures
            r@ == self.spec_field_path(),
    {
        self.field_path.as_str()
    }

    /// The description.
    pub fn text(&self) -> (r: &str)
        ensures
            r@ == self.spec_description(),
    {
        self.description.as_str()
    }
}

/// Pairs of strings as pairs of texts.
pub open spec fn text_pairs(v: Seq<(String, String)>) -> Seq<(Seq<char>, Seq<char>)> {
    v.map_values(|p: (String, String)| (p.0@, p.1@))
}

/// The variables among `vars` whose names start with `prefix`, each with the
/// last value given for it.
pub open spec fn captured(vars: Seq<(Seq<char>, Seq<char>)>, prefix: Seq<char>) -> Map<Seq<char>, Seq<char>>
    decreases vars.len(),
{
    if vars.len() == 0 {
        Map::empty()
    } else {
        let rest = captured(vars.drop_last(), prefix);
        if prefix.is_prefix_of(vars.last().0) {
            rest.insert(vars.last().0, vars.last().1)
        } else {
            rest
        }
    }
}

/// A set of environment variable values, for tests and for restoring.
#[derive(Debug)]
pub struct EnvSnapshot {
    vars: StrMap<String>,
}

impl EnvSnapshot {
    /// The variables and their values.
    pub closed spec fn spec_vars(&self) -> Map<Seq<char>, Seq<char>> {
        self.vars.text()
    }

    /// An empty snapshot.
    pub fn new() -> (r: Self)
        ensures
            r.spec_vars() == Map::<Seq<char>, Seq<char>>::empty(),
    {
        let r = EnvSnapshot { vars: StrMap::new() };
        assert(r.spec_vars() =~= Map::<Seq<char>, Seq<char>>::empty());
        r
    }

    /// Sets a variable in the snapshot.
    pub fn set(&mut self, key: &str, value: &str)
        ensures
            final(self).spec_vars() == old(self).spec_vars().insert(key@, value@),
    {
        self.vars.insert(key.to_owned(), value.to_owned());
        assert(self.spec_vars() =~= old(self).spec_vars().insert(key@, value@));
    }

    /// The snapshot of the given variables whose names start with `prefix`;
    /// of a name given twice, the later value is kept.
    pub fn capture_from(vars: &[(String, String)], prefix: &str) -> (r: Self)
        ensures
            r.spec_vars() == captured(text_pairs(vars@), prefix@),
    {
        let mut s = EnvSnapshot::new();
        let mut i: usize = 0;
        while i < vars.len()
            invariant
                i <= vars@.len(),
                s.spec_vars() == captured(text_pairs(vars@).subrange(0, i as int), prefix@),
            decreases vars@.len() - i,
        {
            proof {
                assert(text_pairs(vars@).subrange(0, i + 1).drop_last() =~= text_pairs(vars@).subrange(0, i as int));
            }
            if str_starts_with(vars[i].0.as_str(), prefix) {
                s.set(vars[i].0.as_str(), vars[i].1.as_str());
            }
            i = i + 1;
        }
        proof {
            assert(text_pairs(vars@).subrange(0, vars@.len() as int) =~= text_pairs(vars@));
        }
        s
    }

    /// The variables and their values, in the order they were first set.
    pub fn entries(&self) -> (r: Vec<(String, String)>)
        ensures
            forall|i: int|
                0 <= i < r@.len() ==> #[trigger] self.spec_vars().contains_key(r@[i].0@)
                    && self.spec_vars()[r@[i].0@] == r@[i].1@,
            r@.len() == self.spec_vars().len(),
    {
        let n = self.vars.len();
        assert(self.spec_vars().dom() =~= self.vars.map().dom());
        let mut out: Vec<(String, String)> = Vec::new();
        let mut i: usize = 0;
        while i < n
            invariant
                n == self.vars.pairs().len(),
                n == self.spec_vars().len(),
                i <= n,
                out@.len() == i,
                forall|j: int|
                    0 <= j < i ==> #[trigger] self.spec_vars().contains_key(out@[j].0@)
                        && self.spec_vars()[out@[j].0@] == out@[j].1@,
            decreases n - i,
        {
            let k = self.vars.key_at(i).clone();
            let v = self.vars.value_at(i).clone();
            out.push((k, v));
            i = i + 1;
        }
        out
    }
}

} // verus!
