//! Device tagging system.
//!
//! Tags are key-value pairs plus a set of labels. The model of a `Tags` value is
//! a `Map<Seq<char>, Seq<char>>` for the key-value part and a `Set<Seq<char>>`
//! for the labels.
use vstd::prelude::*;

use crate::strmap::{str_pairs_map, str_slice_set, StrMap, StrSet};
use crate::text::{find_char, index_of_char, lemma_index_of_char, str_chars, str_eq, trim, trim_seq};

verus! {

/// `m` maps `k` to `v`.
pub open spec fn entry_matches(m: Map<Seq<char>, Seq<char>>, k: Seq<char>, v: Seq<char>) -> bool {
    m.contains_key(k) && m[k] == v
}

/// Device tags for organization and filtering.
#[derive(Debug)]
pub struct Tags {
    tags: StrMap<String>,
    labels: StrSet,
}

impl Tags {
    /// The key-value tags.
    pub closed spec fn tag_map(&self) -> Map<Seq<char>, Seq<char>> {
        self.tags.text()
    }

    /// The labels.
    pub closed spec fn label_set(&self) -> Set<Seq<char>> {
        self.labels.set()
    }

    /// Create empty tags.
    pub fn new() -> (r: Self)
        ensures
            r.tag_map() == Map::<Seq<char>, Seq<char>>::empty(),
            r.label_set() == Set::<Seq<char>>::empty(),
    {
        let r = Tags { tags: StrMap::new(), labels: StrSet::new() };
        assert(r.tag_map() =~= Map::<Seq<char>, Seq<char>>::empty());
        r
    }

    /// Create tags from a map of key-value tags.
    pub fn from_map(tags: StrMap<String>) -> (r: Self)
        ensures
            r.tag_map() == tags.text(),
            r.label_set() == Set::<Seq<char>>::empty(),
    {
        Tags { tags, labels: StrSet::new() }
    }

    /// Create tags from key-value pairs (a later pair wins over an earlier one).
    pub fn from_pairs(pairs: &[(&str, &str)]) -> (r: Self)
        ensures
            r.tag_map() == str_pairs_map(pairs@),
            r.label_set() == Set::<Seq<char>>::empty(),
    {
        let mut r = Tags::new();
        r.tags.insert_pairs(pairs);
        assert(r.tag_map() =~= str_pairs_map(pairs@));
        r
    }

    /// Add a key-value tag.
    pub fn with_tag(self, key: &str, value: &str) -> (r: Self)
        ensures
            r.tag_map() == self.tag_map().insert(key@, value@),
            r.label_set() == self.label_set(),
    {
        let mut s = self;
        s.insert(key, value);
        s
    }

    /// Add a label.
    pub fn with_label(self, label: &str) -> (r: Self)
        ensures
            r.tag_map() == self.tag_map(),
            r.label_set() == self.label_set().insert(label@),
    {
        let mut s = self;
        s.add_label(label);
        s
    }

    /// Add multiple labels.
    pub fn with_labels(self, labels: &[&str]) -> (r: Self)
        ensures
            r.tag_map() == self.tag_map(),
            r.label_set() == self.label_set().union(str_slice_set(labels@)),
    {
        let mut s = self;
        s.labels.insert_all(labels);
        s
    }

    /// Add multiple key-value tags (a later pair wins over an earlier one).
    pub fn with_tags(self, tags: &[(&str, &str)]) -> (r: Self)
        ensures
            r.tag_map() == self.tag_map().union_prefer_right(str_pairs_map(tags@)),
            r.label_set() == self.label_set(),
    {
        let mut s = self;
        s.tags.insert_pairs(tags);
        s
    }

    /// Insert a key-value tag (mutable).
    pub fn insert(&mut self, key: &str, value: &str)
        ensures
            final(self).tag_map() == old(self).tag_map().insert(key@, value@),
            final(self).label_set() == old(self).label_set(),
    {
        self.tags.insert(key.to_owned(), value.to_owned());
        assert(self.tag_map() =~= old(self).tag_map().insert(key@, value@));
    }

    /// Add a label (mutable).
    pub fn add_label(&mut self, label: &str)
        ensures
            final(self).tag_map() == old(self).tag_map(),
            final(self).label_set() == old(self).label_set().insert(label@),
    {
        self.labels.insert(label.to_owned());
    }

    /// Remove a tag by key, handing back its value.
    pub fn remove(&mut self, key: &str) -> (r: Option<String>)
        ensures
            final(self).tag_map() == old(self).tag_map().remove(key@),
            final(self).label_set() == old(self).label_set(),
            match r {
                Some(v) => old(self).tag_map().contains_key(key@) && v@ == old(
                    self,
                ).tag_map()[key@],
                None => !old(self).tag_map().contains_key(key@),
            },
    {
        let r = self.tags.remove(key);
        assert(self.tag_map() =~= old(self).tag_map().remove(key@));
        r
    }

    /// Remove a label; answers whether it was present.
    pub fn remove_label(&mut self, label: &str) -> (r: bool)
        ensures
            final(self).tag_map() == old(self).tag_map(),
            final(self).label_set() == old(self).label_set().remove(label@),
            r == old(self).label_set().contains(label@),
    {
        self.labels.remove(label)
    }

    /// Get a tag value by key.
    pub fn get(&self, key: &str) -> (r: Option<&str>)
        ensures
            match r {
                Some(v) => self.tag_map().contains_key(key@) && v@ == self.tag_map()[key@],
                None => !self.tag_map().contains_key(key@),
            },
    {
        match self.tags.get(key) {
            Some(v) => Some(v.as_str()),
            None => None,
        }
    }

    /// Check if a tag key exists.
    pub fn contains_key(&self, key: &str) -> (r: bool)
        ensures
            r == self.tag_map().contains_key(key@),
    {
        self.tags.contains_key(key)
    }

    /// Check if a label exists.
    pub fn has_label(&self, label: &str) -> (r: bool)
        ensures
            r == self.label_set().contains(label@),
    {
        self.labels.contains(label)
    }

    /// Get all key-value tags.
    pub fn tags(&self) -> (r: &StrMap<String>)
        ensures
            r.text() == self.tag_map(),
    {
        &self.tags
    }

    /// Get all labels.
    pub fn labels(&self) -> (r: &StrSet)
        ensures
            r.set() == self.label_set(),
    {
        &self.labels
    }

    /// Check if tags and labels are both empty.
    pub fn is_empty(&self) -> (r: bool)
        ensures
            r == (self.tag_map().len() == 0 && self.label_set().len() == 0),
    {
        let a = self.tags.is_empty();
        let b = self.labels.is_empty();
        assert(self.tag_map().dom() =~= self.tags.map().dom());
        a && b
    }

    /// Get total count of tags and labels.
    pub fn len(&self) -> (r: usize)
        requires
            self.tag_map().len() + self.label_set().len() <= usize::MAX,
        ensures
            r == self.tag_map().len() + self.label_set().len(),
    {
        assert(self.tag_map().dom() =~= self.tags.map().dom());
        self.tags.len() + self.labels.len()
    }

    /// Merge another Tags into this one; existing keys are overwritten.
    pub fn merge(&mut self, other: Tags)
        ensures
            final(self).tag_map() == old(self).tag_map().union_prefer_right(other.tag_map()),
            final(self).label_set() == old(self).label_set().union(other.label_set()),
    {
        self.tags.extend_from(&other.tags);
        self.labels.extend_from(&other.labels);
    }

    /// Create a merged copy with another Tags.
    pub fn merged_with(self, other: Tags) -> (r: Self)
        ensures
            r.tag_map() == self.tag_map().union_prefer_right(other.tag_map()),
            r.label_set() == self.label_set().union(other.label_set()),
    {
        let mut s = self;
        s.merge(other);
        s
    }

    /// Check if all selector key-value pairs match.
    pub fn matches_selector(&self, selector: &[(&str, &str)]) -> (r: bool)
        ensures
            r == (forall|i: int|
                0 <= i < selector@.len() ==> #[trigger] entry_matches(
                    self.tag_map(),
                    selector@[i].0@,
                    selector@[i].1@,
                )),
    {
        let mut i: usize = 0;
        while i < selector.len()
            invariant
                i <= selector@.len(),
                forall|j: int|
                    0 <= j < i ==> #[trigger] entry_matches(
                        self.tag_map(),
                        selector@[j].0@,
                        selector@[j].1@,
                    ),
            decreases selector@.len() - i,
        {
            let (k, v) = selector[i];
            assert(k@ == selector@[i as int].0@ && v@ == selector@[i as int].1@);
            match self.get(k) {
                Some(found) => {
                    if !str_eq(found, v) {
                        assert(!entry_matches(self.tag_map(), selector@[i as int].0@, selector@[i as int].1@));
                        return false;
                    }
                    assert(entry_matches(self.tag_map(), selector@[i as int].0@, selector@[i as int].1@));
                },
                None => {
                    assert(!entry_matches(self.tag_map(), selector@[i as int].0@, selector@[i as int].1@));
                    return false;
                },
            }
            i = i + 1;
        }
        true
    }

    /// Check if any of the specified labels exist.
    pub fn has_any_label(&self, labels: &[&str]) -> (r: bool)
        ensures
            r == (exists|i: int|
                0 <= i < labels@.len() && #[trigger] self.label_set().contains(labels@[i]@)),
    {
        let mut i: usize = 0;
        while i < labels.len()
            invariant
                i <= labels@.len(),
                forall|j: int| 0 <= j < i ==> !#[trigger] self.label_set().contains(labels@[j]@),
            decreases labels@.len() - i,
        {
            if self.labels.contains(labels[i]) {
                assert(self.label_set().contains(labels@[i as int]@));
                return true;
            }
            i = i + 1;
        }
        false
    }

    /// Check if all of the specified labels exist.
    pub fn has_all_labels(&self, labels: &[&str]) -> (r: bool)
        ensures
            r == (forall|i: int|
                0 <= i < labels@.len() ==> #[trigger] self.label_set().contains(labels@[i]@)),
    {
        let mut i: usize = 0;
        while i < labels.len()
            invariant
                i <= labels@.len(),
                forall|j: int| 0 <= j < i ==> #[trigger] self.label_set().contains(labels@[j]@),
            decreases labels@.len() - i,
        {
            if !self.labels.contains(labels[i]) {
                assert(!self.label_set().contains(labels@[i as int]@));
                return false;
            }
            i = i + 1;
        }
        true
    }

    /// All key-value tags, in insertion order.
    pub fn iter(&self) -> (r: Vec<(String, String)>)
        ensures
            r@.len() == self.tag_map().len(),
            forall|i: int|
                0 <= i < r@.len() ==> #[trigger] self.tag_map().contains_key(r@[i].0@)
                    && self.tag_map()[r@[i].0@] == r@[i].1@,
    {
        let mut r: Vec<(String, String)> = Vec::new();
        let n = self.tags.len();
        let mut i: usize = 0;
        while i < n
            invariant
                n == self.tags.pairs().len(),
                n == self.tags.map().len(),
                i <= n,
                r@.len() == i,
                forall|j: int|
                    0 <= j < i ==> #[trigger] self.tag_map().contains_key(r@[j].0@)
                        && self.tag_map()[r@[j].0@] == r@[j].1@,
            decreases n - i,
        {
            let k = self.tags.key_at(i).clone();
            let v = self.tags.value_at(i).clone();
            r.push((k, v));
            i = i + 1;
        }
        assert(self.tag_map().dom() =~= self.tags.map().dom());
        r
    }

    /// All labels, in insertion order, each once.
    pub fn iter_labels(&self) -> (r: Vec<String>)
        ensures
            r@.map_values(|x: String| x@).to_set() == self.label_set(),
            r@.len() == self.label_set().len(),
    {
        self.labels.to_vec()
    }
}

impl Clone for Tags {
    fn clone(&self) -> (r: Self)
        ensures
            r.tag_map() == self.tag_map(),
            r.label_set() == self.label_set(),
    {
        let tags = self.tags.clone();
        let labels = self.labels.clone();
        let r = Tags { tags, labels };
        proof {
            tags_clone_same(&self.tags, &r.tags);
        }
        r
    }
}

/// Two string maps with the same keys and cloned values have the same text model.
proof fn tags_clone_same(a: &StrMap<String>, b: &StrMap<String>)
    requires
        b.key_seq() == a.key_seq(),
        b.pairs().len() == a.pairs().len(),
        forall|i: int| 0 <= i < a.pairs().len() ==> cloned::<String>(a.pairs()[i].1, #[trigger] b.pairs()[i].1),
    ensures
        b.text() == a.text(),
{
    assert forall|i: int| 0 <= i < a.pairs().len() implies #[trigger] b.pairs()[i] == a.pairs()[i] by {
        assert(cloned::<String>(a.pairs()[i].1, b.pairs()[i].1));
        assert(b.key_seq()[i] == a.key_seq()[i]);
    }
    assert(b.pairs() =~= a.pairs());
}

impl Default for Tags {
    fn default() -> (r: Self)
        ensures
            r.tag_map() == Map::<Seq<char>, Seq<char>>::empty(),
            r.label_set() == Set::<Seq<char>>::empty(),
    {
        Tags::new()
    }
}

/// Builder for creating Tags with fluent API.
#[derive(Debug)]
pub struct TagsBuilder {
    tags: Tags,
}

impl TagsBuilder {
    /// The tags gathered so far.
    pub closed spec fn spec_tags(&self) -> Tags {
        self.tags
    }

    /// Create a new builder.
    pub fn new() -> (r: Self)
        ensures
            r.spec_tags().tag_map() == Map::<Seq<char>, Seq<char>>::empty(),
            r.spec_tags().label_set() == Set::<Seq<char>>::empty(),
    {
        TagsBuilder { tags: Tags::new() }
    }

    /// Add a key-value tag.
    pub fn tag(self, key: &str, value: &str) -> (r: Self)
        ensures
            r.spec_tags().tag_map() == self.spec_tags().tag_map().insert(key@, value@),
            r.spec_tags().label_set() == self.spec_tags().label_set(),
    {
        TagsBuilder { tags: self.tags.with_tag(key, value) }
    }

    /// Add a label.
    pub fn label(self, label: &str) -> (r: Self)
        ensures
            r.spec_tags().tag_map() == self.spec_tags().tag_map(),
            r.spec_tags().label_set() == self.spec_tags().label_set().insert(label@),
    {
        TagsBuilder { tags: self.tags.with_label(label) }
    }

    /// Build the Tags.
    pub fn build(self) -> (r: Tags)
        ensures
            r.tag_map() == self.spec_tags().tag_map(),
            r.label_set() == self.spec_tags().label_set(),
    {
        self.tags
    }
}

impl Default for TagsBuilder {
    fn default() -> (r: Self)
        ensures
            r.spec_tags().tag_map() == Map::<Seq<char>, Seq<char>>::empty(),
            r.spec_tags().label_set() == Set::<Seq<char>>::empty(),
    {
        TagsBuilder::new()
    }
}

/// Result of parsing one CLI tag: a key with a value, or a bare label.
pub open spec fn spec_parse_tag(s: Seq<char>) -> Result<(Seq<char>, Option<Seq<char>>), Seq<char>> {
    let t = trim_seq(s);
    if t.len() == 0 {
        Err("Empty tag string"@)
    } else {
        match index_of_char(t, '=') {
            Some(p) => {
                let key = trim_seq(t.subrange(0, p as int));
                let value = trim_seq(t.subrange(p as int + 1, t.len() as int));
                if key.len() == 0 {
                    Err("Empty tag key"@)
                } else {
                    Ok((key, Some(value)))
                }
            },
            None => Ok((t, None)),
        }
    }
}

/// Parse tags from CLI format: "key=value" or "label" (no '=').
pub fn parse_tag_string(s: &str) -> (r: Result<(String, Option<String>), String>)
    ensures
        match (r, spec_parse_tag(s@)) {
            (Ok((k, v)), Ok((sk, sv))) => k@ == sk && match (v, sv) {
                (Some(x), Some(y)) => x@ == y,
                (None, None) => true,
                _ => false,
            },
            (Err(e), Err(se)) => e@ == se,
            _ => false,
        },
{
    let t = trim(s);
    if t.unicode_len() == 0 {
        return Err("Empty tag string".to_owned());
    }
    let chars = str_chars(t);
    proof {
        lemma_index_of_char(t@, '=');
    }
    match find_char(&chars, '=') {
        Some(pos) => {
            let key = trim(t.substring_char(0, pos));
            let value = trim(t.substring_char(pos + 1, chars.len()));
            if key.unicode_len() == 0 {
                return Err("Empty tag key".to_owned());
            }
            Ok((key.to_owned(), Some(value.to_owned())))
        },
        None => Ok((t.to_owned(), None)),
    }
}

/// The outcome of applying CLI tag strings in order: the first malformed
/// string decides the error.
pub open spec fn spec_parse_tags(strs: Seq<Seq<char>>) -> Result<
    (Map<Seq<char>, Seq<char>>, Set<Seq<char>>),
    Seq<char>,
>
    decreases strs.len(),
{
    if strs.len() == 0 {
        Ok((Map::empty(), Set::empty()))
    } else {
        match spec_parse_tags(strs.drop_last()) {
            Err(e) => Err(e),
            Ok((m, l)) => match spec_parse_tag(strs.last()) {
                Err(e) => Err(e),
                Ok((k, Some(v))) => Ok((m.insert(k, v), l)),
                Ok((k, None)) => Ok((m, l.insert(k))),
            },
        }
    }
}

/// The texts of tag strings.
pub open spec fn tag_texts(strs: Seq<&str>) -> Seq<Seq<char>> {
    strs.map_values(|s: &str| s@)
}

/// Parse multiple tag strings into Tags: fails exactly when one string fails;
/// otherwise a key has a tag exactly when some string sets it, with the value
/// of the last string that does, and a label exactly when some string names it.
pub fn parse_tags(tag_strings: &[&str]) -> (r: Result<Tags, String>)
    ensures
        match (r, spec_parse_tags(tag_texts(tag_strings@))) {
            (Ok(t), Ok((m, l))) => t.tag_map() == m && t.label_set() == l,
            (Err(e), Err(se)) => e@ == se,
            _ => false,
        },
        r is Err <==> exists|i: int|
            0 <= i < tag_strings@.len() && #[trigger] tag_fails(tag_texts(tag_strings@)[i]),
        r matches Ok(t) ==> forall|k: Seq<char>|
            #[trigger] t.tag_map().contains_key(k) <==> exists|i: int|
                0 <= i < tag_strings@.len() && #[trigger] sets_tag(tag_texts(tag_strings@)[i], k),
        r matches Ok(t) ==> forall|k: Seq<char>, i: int|
            0 <= i < tag_strings@.len() && #[trigger] sets_tag(tag_texts(tag_strings@)[i], k) && (forall|j: int|
                i < j < tag_strings@.len() ==> !sets_tag(#[trigger] tag_texts(tag_strings@)[j], k))
                ==> t.tag_map()[k] == tag_value(tag_texts(tag_strings@)[i]),
        r matches Ok(t) ==> forall|k: Seq<char>|
            #[trigger] t.label_set().contains(k) <==> exists|i: int|
                0 <= i < tag_strings@.len() && #[trigger] sets_label(tag_texts(tag_strings@)[i], k),
{
    let r = parse_tags_in_order(tag_strings);
    proof {
        let sv = tag_texts(tag_strings@);
        lemma_parse_tags_law(sv);
        if let Ok(t) = &r {
            assert(parsed_tag_map(sv) == t.tag_map());
            assert(parsed_labels(sv) == t.label_set());
            assert forall|k: Seq<char>| #[trigger] t.tag_map().contains_key(k) <==> exists|i: int|
                0 <= i < tag_strings@.len() && #[trigger] sets_tag(sv[i], k) by {
                assert(parsed_tag_map(sv).contains_key(k) == t.tag_map().contains_key(k));
            }
            assert forall|k: Seq<char>| #[trigger] t.label_set().contains(k) <==> exists|i: int|
                0 <= i < tag_strings@.len() && #[trigger] sets_label(sv[i], k) by {
                assert(parsed_labels(sv).contains(k) == t.label_set().contains(k));
            }
        }
    }
    r
}

/// Parses the tag strings one after the other, stopping at the first failure.
fn parse_tags_in_order(tag_strings: &[&str]) -> (r: Result<Tags, String>)
    ensures
        match (r, spec_parse_tags(tag_texts(tag_strings@))) {
            (Ok(t), Ok((m, l))) => t.tag_map() == m && t.label_set() == l,
            (Err(e), Err(se)) => e@ == se,
            _ => false,
        },
{
    let ghost sv = tag_strings@.map_values(|s: &str| s@);
    let mut tags = Tags::new();
    let mut i: usize = 0;
    while i < tag_strings.len()
        invariant
            i <= tag_strings@.len(),
            sv == tag_strings@.map_values(|s: &str| s@),
            spec_parse_tags(sv.subrange(0, i as int)) == Ok::<
                (Map<Seq<char>, Seq<char>>, Set<Seq<char>>),
                Seq<char>,
            >((tags.tag_map(), tags.label_set())),
        decreases tag_strings@.len() - i,
    {
        assert(sv.subrange(0, i + 1).drop_last() =~= sv.subrange(0, i as int));
        assert(sv.subrange(0, i + 1).last() == tag_strings@[i as int]@);
        match parse_tag_string(tag_strings[i]) {
            Err(e) => {
                proof {
                    lemma_parse_tags_err_sticky(sv, i as int + 1);
                }
                return Err(e);
            },
            Ok((key, value)) => {
                match value {
                    Some(v) => tags.insert(key.as_str(), v.as_str()),
                    None => tags.add_label(key.as_str()),
                }
            },
        }
        i = i + 1;
    }
    assert(sv.subrange(0, tag_strings@.len() as int) =~= sv);
    Ok(tags)
}

/// Once a prefix of the tag strings fails, the whole sequence fails the same way.
proof fn lemma_parse_tags_err_sticky(strs: Seq<Seq<char>>, k: int)
    requires
        0 <= k <= strs.len(),
        spec_parse_tags(strs.subrange(0, k)) is Err,
    ensures
        spec_parse_tags(strs) == spec_parse_tags(strs.subrange(0, k)),
    decreases strs.len() - k,
{
    if k < strs.len() {
        assert(strs.subrange(0, k + 1).drop_last() =~= strs.subrange(0, k));
        lemma_parse_tags_err_sticky(strs, k + 1);
    } else {
        assert(strs.subrange(0, k) =~= strs);
    }
}

/// Whether a tag string fails to parse.
pub open spec fn tag_fails(s: Seq<char>) -> bool {
    spec_parse_tag(s) is Err
}

/// Whether a tag string parses to a key-value tag under key `k`.
pub open spec fn sets_tag(s: Seq<char>, k: Seq<char>) -> bool {
    match spec_parse_tag(s) {
        Ok((kk, Some(_))) => kk == k,
        _ => false,
    }
}

/// The value a key-value tag string carries.
pub open spec fn tag_value(s: Seq<char>) -> Seq<char> {
    match spec_parse_tag(s) {
        Ok((_, Some(v))) => v,
        _ => Seq::empty(),
    }
}

/// Whether a tag string parses to the label `k`.
pub open spec fn sets_label(s: Seq<char>, k: Seq<char>) -> bool {
    match spec_parse_tag(s) {
        Ok((kk, None)) => kk == k,
        _ => false,
    }
}

/// The tags parsed from the strings (empty when parsing fails).
pub open spec fn parsed_tag_map(strs: Seq<Seq<char>>) -> Map<Seq<char>, Seq<char>> {
    match spec_parse_tags(strs) {
        Ok((m, _)) => m,
        Err(_) => Map::empty(),
    }
}

/// The labels parsed from the strings (empty when parsing fails).
pub open spec fn parsed_labels(strs: Seq<Seq<char>>) -> Set<Seq<char>> {
    match spec_parse_tags(strs) {
        Ok((_, l)) => l,
        Err(_) => Set::empty(),
    }
}

/// Parsing tag strings fails exactly when one of them fails; otherwise a key
/// has a tag exactly when some string sets it, with the value of the last
/// string that does, and a label is present exactly when some string names it.
pub proof fn lemma_parse_tags_law(strs: Seq<Seq<char>>)
    ensures
        spec_parse_tags(strs) is Err <==> exists|i: int| 0 <= i < strs.len() && #[trigger] tag_fails(strs[i]),
        spec_parse_tags(strs) is Ok ==> forall|k: Seq<char>|
            #[trigger] parsed_tag_map(strs).contains_key(k) <==> exists|i: int|
                0 <= i < strs.len() && #[trigger] sets_tag(strs[i], k),
        spec_parse_tags(strs) is Ok ==> forall|k: Seq<char>, i: int|
            0 <= i < strs.len() && #[trigger] sets_tag(strs[i], k) && (forall|j: int|
                i < j < strs.len() ==> !sets_tag(#[trigger] strs[j], k)) ==> parsed_tag_map(strs)[k]
                == tag_value(strs[i]),
        spec_parse_tags(strs) is Ok ==> forall|k: Seq<char>|
            #[trigger] parsed_labels(strs).contains(k) <==> exists|i: int|
                0 <= i < strs.len() && #[trigger] sets_label(strs[i], k),
    decreases strs.len(),
{
    if strs.len() > 0 {
        let pre = strs.drop_last();
        let n = strs.len() - 1;
        let x = strs.last();
        lemma_parse_tags_law(pre);
        assert forall|i: int| 0 <= i < n implies #[trigger] strs[i] == pre[i] by {}
        if spec_parse_tags(pre) is Err {
            let i = choose|i: int| 0 <= i < pre.len() && #[trigger] tag_fails(pre[i]);
            assert(strs[i] == pre[i]);
            assert(tag_fails(strs[i]));
        } else if tag_fails(x) {
            assert(strs[n] == x);
        } else {
            assert forall|i: int| 0 <= i < strs.len() implies !#[trigger] tag_fails(strs[i]) by {
                if i < n {
                    assert(strs[i] == pre[i]);
                }
            }
            let m0 = parsed_tag_map(pre);
            let l0 = parsed_labels(pre);
            assert forall|k: Seq<char>| #[trigger] parsed_tag_map(strs).contains_key(k) <==> exists|i: int|
                0 <= i < strs.len() && #[trigger] sets_tag(strs[i], k) by {
                if sets_tag(x, k) {
                    assert(sets_tag(strs[n], k));
                } else {
                    if m0.contains_key(k) {
                        let i = choose|i: int| 0 <= i < pre.len() && #[trigger] sets_tag(pre[i], k);
                        assert(sets_tag(strs[i], k));
                    }
                    if exists|i: int| 0 <= i < strs.len() && #[trigger] sets_tag(strs[i], k) {
                        let i = choose|i: int| 0 <= i < strs.len() && #[trigger] sets_tag(strs[i], k);
                        assert(i < n);
                        assert(sets_tag(pre[i], k));
                    }
                }
            }
            assert forall|k: Seq<char>, i: int|
                0 <= i < strs.len() && #[trigger] sets_tag(strs[i], k) && (forall|j: int|
                    i < j < strs.len() ==> !sets_tag(#[trigger] strs[j], k)) implies parsed_tag_map(strs)[k]
                == tag_value(strs[i]) by {
                if i < n {
                    assert(!sets_tag(strs[n], k));
                    assert(sets_tag(pre[i], k));
                    assert forall|j: int| i < j < pre.len() implies !sets_tag(#[trigger] pre[j], k) by {
                        assert(strs[j] == pre[j]);
                    }
                }
            }
            assert forall|k: Seq<char>| #[trigger] parsed_labels(strs).contains(k) <==> exists|i: int|
                0 <= i < strs.len() && #[trigger] sets_label(strs[i], k) by {
                if sets_label(x, k) {
                    assert(sets_label(strs[n], k));
                } else {
                    if l0.contains(k) {
                        let i = choose|i: int| 0 <= i < pre.len() && #[trigger] sets_label(pre[i], k);
                        assert(sets_label(strs[i], k));
                    }
                    if exists|i: int| 0 <= i < strs.len() && #[trigger] sets_label(strs[i], k) {
                        let i = choose|i: int| 0 <= i < strs.len() && #[trigger] sets_label(strs[i], k);
                        assert(i < n);
                        assert(sets_label(pre[i], k));
                    }
                }
            }
        }
    }
}

/// Extension trait for types that can have tags.
pub trait Taggable {
    /// Model of the tags the implementor carries.
    spec fn spec_tags(&self) -> Tags;

    /// Get tags reference.
    fn tags(&self) -> (r: &Tags)
        ensures
            *r == self.spec_tags(),
    ;

    /// Get mutable tags reference.
    fn tags_mut(&mut self) -> &mut Tags;

    /// Check if has a specific tag value.
    fn has_tag(&self, key: &str, value: &str) -> (r: bool)
        ensures
            r == (self.spec_tags().tag_map().contains_key(key@) && self.spec_tags().tag_map()[key@]
                == value@),
    {
        match self.tags().get(key) {
            Some(v) => str_eq(v, value),
            None => false,
        }
    }

    /// Check if has a specific label.
    fn has_label(&self, label: &str) -> (r: bool)
        ensures
            r == self.spec_tags().label_set().contains(label@),
    {
        self.tags().has_label(label)
    }
}

} // verus!
