//! A string-keyed map that keeps its entries in insertion order.
//!
//! Its model is a `Map<Seq<char>, V>`; the order in which keys were first
//! inserted is kept as well, so that iteration is deterministic.
use vstd::prelude::*;

use crate::text::str_eq;

verus! {

/// The map denoted by a sequence of (key, value) pairs: later pairs win.
pub open spec fn seq_map<V>(p: Seq<(Seq<char>, V)>) -> Map<Seq<char>, V>
    decreases p.len(),
{
    if p.len() == 0 {
        Map::empty()
    } else {
        seq_map(p.drop_last()).insert(p.last().0, p.last().1)
    }
}

/// No key occurs twice.
pub open spec fn keys_unique<V>(p: Seq<(Seq<char>, V)>) -> bool {
    forall|i: int, j: int| 0 <= i < j < p.len() ==> #[trigger] p[i].0 != #[trigger] p[j].0
}

/// The keys of the pairs, in order.
pub open spec fn pair_keys<V>(p: Seq<(Seq<char>, V)>) -> Seq<Seq<char>> {
    p.map_values(|e: (Seq<char>, V)| e.0)
}

pub proof fn lemma_seq_map_dom<V>(p: Seq<(Seq<char>, V)>, k: Seq<char>)
    ensures
        seq_map(p).dom().contains(k) <==> exists|i: int| 0 <= i < p.len() && #[trigger] p[i].0 == k,
    decreases p.len(),
{
    if p.len() > 0 {
        lemma_seq_map_dom(p.drop_last(), k);
        if seq_map(p).dom().contains(k) && k != p.last().0 {
            let i = choose|i: int| 0 <= i < p.drop_last().len() && #[trigger] p.drop_last()[i].0 == k;
            assert(p[i].0 == k);
        }
        if exists|i: int| 0 <= i < p.len() && #[trigger] p[i].0 == k {
            let i = choose|i: int| 0 <= i < p.len() && #[trigger] p[i].0 == k;
            if i < p.len() - 1 {
                assert(p.drop_last()[i].0 == k);
            }
        }
    }
}

pub proof fn lemma_seq_map_finite<V>(p: Seq<(Seq<char>, V)>)
    ensures
        seq_map(p).dom().finite(),
        keys_unique(p) ==> seq_map(p).dom().len() == p.len(),
    decreases p.len(),
{
    if p.len() > 0 {
        lemma_seq_map_finite(p.drop_last());
        if keys_unique(p) {
            assert(keys_unique(p.drop_last()));
            lemma_seq_map_dom(p.drop_last(), p.last().0);
            if seq_map(p.drop_last()).dom().contains(p.last().0) {
                let i = choose|i: int|
                    0 <= i < p.drop_last().len() && #[trigger] p.drop_last()[i].0 == p.last().0;
                assert(p[i].0 == p[p.len() - 1].0);
            }
        }
    }
}

pub proof fn lemma_seq_map_get<V>(p: Seq<(Seq<char>, V)>, i: int)
    requires
        keys_unique(p),
        0 <= i < p.len(),
    ensures
        seq_map(p).dom().contains(p[i].0),
        seq_map(p)[p[i].0] == p[i].1,
    decreases p.len(),
{
    if i < p.len() - 1 {
        assert(keys_unique(p.drop_last()));
        assert(p.drop_last()[i] == p[i]);
        lemma_seq_map_get(p.drop_last(), i);
        assert(p[i].0 != p[p.len() - 1].0);
    }
}

pub proof fn lemma_seq_map_update<V>(p: Seq<(Seq<char>, V)>, i: int, v: V)
    requires
        keys_unique(p),
        0 <= i < p.len(),
    ensures
        seq_map(p.update(i, (p[i].0, v))) == seq_map(p).insert(p[i].0, v),
        keys_unique(p.update(i, (p[i].0, v))),
    decreases p.len(),
{
    let q = p.update(i, (p[i].0, v));
    assert(keys_unique(q)) by {
        assert forall|a: int, b: int| 0 <= a < b < q.len() implies #[trigger] q[a].0
            != #[trigger] q[b].0 by {
            assert(p[a].0 != p[b].0);
        }
    }
    if i == p.len() - 1 {
        assert(q.drop_last() =~= p.drop_last());
        assert(seq_map(q) =~= seq_map(p).insert(p[i].0, v));
    } else {
        assert(keys_unique(p.drop_last()));
        lemma_seq_map_update(p.drop_last(), i, v);
        assert(q.drop_last() =~= p.drop_last().update(i, (p[i].0, v)));
        assert(p[i].0 != p[p.len() - 1].0);
        assert(seq_map(q) =~= seq_map(p).insert(p[i].0, v));
    }
}

pub proof fn lemma_seq_map_remove<V>(p: Seq<(Seq<char>, V)>, i: int)
    requires
        keys_unique(p),
        0 <= i < p.len(),
    ensures
        seq_map(p.remove(i)) == seq_map(p).remove(p[i].0),
        keys_unique(p.remove(i)),
    decreases p.len(),
{
    let q = p.remove(i);
    assert(keys_unique(q)) by {
        assert forall|a: int, b: int| 0 <= a < b < q.len() implies #[trigger] q[a].0
            != #[trigger] q[b].0 by {
            let a2 = if a < i { a } else { a + 1 };
            let b2 = if b < i { b } else { b + 1 };
            assert(q[a] == p[a2]);
            assert(q[b] == p[b2]);
            assert(p[a2].0 != p[b2].0);
        }
    }
    if i == p.len() - 1 {
        assert(q =~= p.drop_last());
        lemma_seq_map_dom(p.drop_last(), p[i].0);
        if seq_map(p.drop_last()).dom().contains(p[i].0) {
            let j = choose|j: int|
                0 <= j < p.drop_last().len() && #[trigger] p.drop_last()[j].0 == p[i].0;
            assert(p[j].0 == p[i].0);
        }
        assert(seq_map(q) =~= seq_map(p).remove(p[i].0));
    } else {
        assert(keys_unique(p.drop_last()));
        lemma_seq_map_remove(p.drop_last(), i);
        assert(q.drop_last() =~= p.drop_last().remove(i));
        assert(q.last() == p.last());
        assert(p[i].0 != p[p.len() - 1].0);
        assert(seq_map(q) =~= seq_map(p).remove(p[i].0));
    }
}

pub proof fn lemma_seq_map_push<V>(p: Seq<(Seq<char>, V)>, k: Seq<char>, v: V)
    requires
        keys_unique(p),
        !seq_map(p).dom().contains(k),
    ensures
        seq_map(p.push((k, v))) == seq_map(p).insert(k, v),
        keys_unique(p.push((k, v))),
{
    let q = p.push((k, v));
    assert(q.drop_last() =~= p);
    lemma_seq_map_dom(p, k);
    assert(keys_unique(q)) by {
        assert forall|a: int, b: int| 0 <= a < b < q.len() implies #[trigger] q[a].0
            != #[trigger] q[b].0 by {
            if b == p.len() {
                assert(q[a] == p[a]);
            } else {
                assert(q[a] == p[a] && q[b] == p[b]);
            }
        }
    }
}

/// String-keyed map with insertion-ordered entries.
#[derive(Debug)]
pub struct StrMap<V> {
    entries: Vec<(String, V)>,
}

impl<V> StrMap<V> {
    /// The entries as (key text, value) pairs, in insertion order.
    pub closed spec fn pairs(&self) -> Seq<(Seq<char>, V)> {
        self.entries@.map_values(|e: (String, V)| (e.0@, e.1))
    }

    #[verifier::type_invariant]
    spec fn inv(self) -> bool {
        keys_unique(self.pairs())
    }

    /// The keys in insertion order.
    pub open spec fn key_seq(&self) -> Seq<Seq<char>> {
        pair_keys(self.pairs())
    }

    /// Mathematical model of the map.
    pub open spec fn map(&self) -> Map<Seq<char>, V> {
        seq_map(self.pairs())
    }

    /// Facts that hold of every map: keys are unique, the model is finite and
    /// its domain is exactly the set of keys.
    proof fn lemma_wf(&self)
        requires
            keys_unique(self.pairs()),
        ensures
            keys_unique(self.pairs()),
            self.map().dom().finite(),
            self.map().dom().len() == self.pairs().len(),
            forall|i: int|
                0 <= i < self.pairs().len() ==> #[trigger] self.map().dom().contains(
                    self.pairs()[i].0,
                ) && self.map()[self.pairs()[i].0] == self.pairs()[i].1,
            forall|k: Seq<char>|
                #[trigger] self.map().dom().contains(k) <==> exists|i: int|
                    0 <= i < self.pairs().len() && #[trigger] self.pairs()[i].0 == k,
    {
        lemma_seq_map_finite(self.pairs());
        assert forall|i: int| 0 <= i < self.pairs().len() implies #[trigger] self.map().dom().contains(
            self.pairs()[i].0,
        ) && self.map()[self.pairs()[i].0] == self.pairs()[i].1 by {
            lemma_seq_map_get(self.pairs(), i);
        }
        assert forall|k: Seq<char>| #[trigger] self.map().dom().contains(k) <==> exists|i: int|
            0 <= i < self.pairs().len() && #[trigger] self.pairs()[i].0 == k by {
            lemma_seq_map_dom(self.pairs(), k);
        }
    }

    /// The domain of the model is the set of keys.
    pub proof fn lemma_dom_keys(&self)
        ensures
            forall|k: Seq<char>| #[trigger] self.map().dom().contains(k) <==> self.key_seq().contains(k),
    {
        assert forall|k: Seq<char>| #[trigger] self.map().dom().contains(k) <==> self.key_seq().contains(
            k,
        ) by {
            lemma_seq_map_dom(self.pairs(), k);
            if self.key_seq().contains(k) {
                let i = choose|i: int| 0 <= i < self.key_seq().len() && self.key_seq()[i] == k;
                assert(self.pairs()[i].0 == k);
            }
            if self.map().dom().contains(k) {
                let i = choose|i: int| 0 <= i < self.pairs().len() && #[trigger] self.pairs()[i].0 == k;
                assert(self.key_seq()[i] == k);
            }
        }
    }

    /// An empty map.
    pub fn new() -> (r: Self)
        ensures
            r.pairs() == Seq::<(Seq<char>, V)>::empty(),
            r.map() == Map::<Seq<char>, V>::empty(),
    {
        let r = StrMap { entries: Vec::new() };
        assert(r.pairs() =~= Seq::<(Seq<char>, V)>::empty());
        r
    }

    /// Number of entries.
    pub fn len(&self) -> (r: usize)
        ensures
            r == self.pairs().len(),
            r == self.map().len(),
    {
        proof {
            use_type_invariant(self);
            self.lemma_wf();
        }
        self.entries.len()
    }

    /// Whether the map holds no entry.
    pub fn is_empty(&self) -> (r: bool)
        ensures
            r == (self.pairs().len() == 0),
            r == (self.map().len() == 0),
    {
        proof {
            use_type_invariant(self);
            self.lemma_wf();
        }
        self.entries.len() == 0
    }

    /// Position of a key among the entries.
    pub fn find(&self, k: &str) -> (r: Option<usize>)
        ensures
            match r {
                Some(i) => i < self.pairs().len() && self.pairs()[i as int].0 == k@,
                None => !self.map().dom().contains(k@),
            },
    {
        proof {
            use_type_invariant(self);
            self.lemma_wf();
        }
        let mut i: usize = 0;
        while i < self.entries.len()
            invariant
                i <= self.entries@.len(),
                self.pairs().len() == self.entries@.len(),
                forall|j: int| 0 <= j < i ==> #[trigger] self.pairs()[j].0 != k@,
            decreases self.entries@.len() - i,
        {
            if str_eq(self.entries[i].0.as_str(), k) {
                return Some(i);
            }
            i = i + 1;
        }
        None
    }

    /// Whether a key is present.
    pub fn contains_key(&self, k: &str) -> (r: bool)
        ensures
            r == self.map().dom().contains(k@),
    {
        proof {
            use_type_invariant(self);
            self.lemma_wf();
        }
        match self.find(k) {
            Some(_) => true,
            None => false,
        }
    }

    /// The value stored under a key.
    pub fn get(&self, k: &str) -> (r: Option<&V>)
        ensures
            match r {
                Some(v) => self.map().dom().contains(k@) && *v == self.map()[k@],
                None => !self.map().dom().contains(k@),
            },
    {
        proof {
            use_type_invariant(self);
            self.lemma_wf();
        }
        match self.find(k) {
            Some(i) => Some(&self.entries[i].1),
            None => None,
        }
    }

    /// The key at a position.
    pub fn key_at(&self, i: usize) -> (r: &String)
        requires
            i < self.pairs().len(),
        ensures
            r@ == self.pairs()[i as int].0,
            self.map().dom().contains(r@),
            self.map()[r@] == self.pairs()[i as int].1,
            forall|j: int| 0 <= j < self.pairs().len() && j != i ==> self.pairs()[j].0 != r@,
    {
        proof {
            use_type_invariant(self);
            lemma_seq_map_get(self.pairs(), i as int);
        }
        &self.entries[i].0
    }

    /// The value at a position.
    pub fn value_at(&self, i: usize) -> (r: &V)
        requires
            i < self.pairs().len(),
        ensures
            *r == self.pairs()[i as int].1,
    {
        &self.entries[i].1
    }

    /// Replaces the value at a position, keeping its key and the order.
    pub fn set_value_at(&mut self, i: usize, v: V)
        requires
            i < old(self).pairs().len(),
        ensures
            final(self).pairs() == old(self).pairs().update(i as int, (old(self).pairs()[i as int].0, v)),
            final(self).map() == old(self).map().insert(old(self).pairs()[i as int].0, v),
    {
        proof {
            use_type_invariant(&*self);
            lemma_seq_map_update(self.pairs(), i as int, v);
        }
        let ghost old_pairs = self.pairs();
        let mut e: Vec<(String, V)> = Vec::new();
        std::mem::swap(&mut e, &mut self.entries);
        let k = e[i].0.clone();
        e.set(i, (k, v));
        proof {
            assert(e@.map_values(|x: (String, V)| (x.0@, x.1)) =~= old_pairs.update(
                i as int,
                (old_pairs[i as int].0, v),
            ));
        }
        self.entries = e;
        assert(self.pairs() =~= old_pairs.update(i as int, (old_pairs[i as int].0, v)));
    }

    /// Inserts a value, replacing the value under an existing key in place.
    pub fn insert(&mut self, k: String, v: V)
        ensures
            final(self).map() == old(self).map().insert(k@, v),
            old(self).map().dom().contains(k@) ==> final(self).key_seq() == old(self).key_seq(),
            !old(self).map().dom().contains(k@) ==> final(self).key_seq() == old(
                self,
            ).key_seq().push(k@),
            !old(self).map().dom().contains(k@) ==> final(self).pairs() == old(self).pairs().push(
                (k@, v),
            ),
    {
        proof {
            use_type_invariant(&*self);
            self.lemma_wf();
        }
        let ghost old_pairs = self.pairs();
        match self.find(k.as_str()) {
            Some(i) => {
                proof {
                    lemma_seq_map_update(old_pairs, i as int, v);
                }
                let mut e: Vec<(String, V)> = Vec::new();
                std::mem::swap(&mut e, &mut self.entries);
                e.set(i, (k, v));
                proof {
                    assert(e@.map_values(|x: (String, V)| (x.0@, x.1)) =~= old_pairs.update(
                        i as int,
                        (old_pairs[i as int].0, v),
                    ));
                }
                self.entries = e;
                assert(self.pairs() =~= old_pairs.update(i as int, (old_pairs[i as int].0, v)));
                assert(self.key_seq() =~= pair_keys(old_pairs));
            },
            None => {
                proof {
                    lemma_seq_map_push(old_pairs, k@, v);
                }
                let mut e: Vec<(String, V)> = Vec::new();
                std::mem::swap(&mut e, &mut self.entries);
                let ghost kv = k@;
                e.push((k, v));
                proof {
                    assert(e@.map_values(|x: (String, V)| (x.0@, x.1)) =~= old_pairs.push((kv, v)));
                }
                self.entries = e;
                assert(self.pairs() =~= old_pairs.push((k@, v)));
                assert(self.pairs() =~= old_pairs.push((kv, v)));
                assert(self.key_seq() =~= pair_keys(old_pairs).push(kv));
            },
        }
    }

    /// Removes a key, handing back its value.
    pub fn remove(&mut self, k: &str) -> (r: Option<V>)
        ensures
            final(self).map() == old(self).map().remove(k@),
            final(self).pairs().len() <= old(self).pairs().len(),
            match r {
                Some(v) => old(self).map().dom().contains(k@) && v == old(self).map()[k@],
                None => !old(self).map().dom().contains(k@),
            },
    {
        proof {
            use_type_invariant(&*self);
            self.lemma_wf();
        }
        let ghost old_pairs = self.pairs();
        match self.find(k) {
            Some(i) => {
                proof {
                    lemma_seq_map_remove(old_pairs, i as int);
                    lemma_seq_map_get(old_pairs, i as int);
                }
                let mut e: Vec<(String, V)> = Vec::new();
                std::mem::swap(&mut e, &mut self.entries);
                let x = e.remove(i);
                proof {
                    assert(e@.map_values(|y: (String, V)| (y.0@, y.1)) =~= old_pairs.remove(
                        i as int,
                    ));
                }
                self.entries = e;
                assert(self.pairs() =~= old_pairs.remove(i as int));
                Some(x.1)
            },
            None => {
                assert(old(self).map().remove(k@) =~= old(self).map());
                None
            },
        }
    }

    /// Removes every entry.
    pub fn clear(&mut self)
        ensures
            final(self).map() == Map::<Seq<char>, V>::empty(),
            final(self).pairs() == Seq::<(Seq<char>, V)>::empty(),
    {
        self.entries = Vec::new();
        assert(self.pairs() =~= Seq::<(Seq<char>, V)>::empty());
    }
}

impl<V: Clone> Clone for StrMap<V> {
    fn clone(&self) -> (r: Self)
        ensures
            r.key_seq() == self.key_seq(),
            r.pairs().len() == self.pairs().len(),
            forall|i: int|
                0 <= i < self.pairs().len() ==> cloned::<V>(
                    self.pairs()[i].1,
                    #[trigger] r.pairs()[i].1,
                ),
    {
        proof {
            use_type_invariant(self);
        }
        let mut e: Vec<(String, V)> = Vec::new();
        let mut i: usize = 0;
        while i < self.entries.len()
            invariant
                i <= self.entries@.len(),
                e@.len() == i,
                forall|j: int| 0 <= j < i ==> (#[trigger] e@[j]).0@ == self.entries@[j].0@,
                forall|j: int|
                    0 <= j < i ==> cloned::<V>(self.entries@[j].1, #[trigger] e@[j].1),
            decreases self.entries@.len() - i,
        {
            let k = self.entries[i].0.clone();
            let v = self.entries[i].1.clone();
            e.push((k, v));
            i = i + 1;
        }
        let ghost ep = e@.map_values(|x: (String, V)| (x.0@, x.1));
        assert forall|a: int, b: int| 0 <= a < b < ep.len() implies #[trigger] ep[a].0
            != #[trigger] ep[b].0 by {
            assert(ep[a].0 == self.pairs()[a].0);
            assert(ep[b].0 == self.pairs()[b].0);
        }
        let r = StrMap { entries: e };
        assert(r.pairs().len() == self.pairs().len());
        assert(r.key_seq() =~= self.key_seq());
        r
    }
}

/// The model of a map whose values are strings, with the values taken as text.
pub open spec fn text_map(m: Map<Seq<char>, String>) -> Map<Seq<char>, Seq<char>> {
    m.map_values(|v: String| v@)
}

/// The map denoted by a slice of (key, value) text pairs: later pairs win.
pub open spec fn str_pairs_map(p: Seq<(&str, &str)>) -> Map<Seq<char>, Seq<char>> {
    seq_map(p.map_values(|e: (&str, &str)| (e.0@, e.1@)))
}

impl StrMap<String> {
    /// The model with values taken as text.
    pub open spec fn text(&self) -> Map<Seq<char>, Seq<char>> {
        text_map(self.map())
    }

    /// A copy with the same entries in the same order.
    pub fn copy(&self) -> (r: StrMap<String>)
        ensures
            r.pairs() == self.pairs(),
            r.text() == self.text(),
    {
        let r = self.clone();
        assert forall|i: int| 0 <= i < self.pairs().len() implies r.pairs()[i] == self.pairs()[i] by {
            assert(r.key_seq()[i] == self.key_seq()[i]);
            assert(cloned::<String>(self.pairs()[i].1, r.pairs()[i].1));
        }
        assert(r.pairs() =~= self.pairs());
        r
    }

    /// Inserts every pair of `other`, replacing values under existing keys.
    pub fn extend_from(&mut self, other: &StrMap<String>)
        ensures
            final(self).text() == old(self).text().union_prefer_right(other.text()),
    {
        let ghost start = self.text();
        let n = other.len();
        let mut i: usize = 0;
        while i < n
            invariant
                n == other.pairs().len(),
                i <= n,
                self.text() == start.union_prefer_right(
                    text_map(seq_map(other.pairs().subrange(0, i as int))),
                ),
            decreases n - i,
        {
            let k = other.key_at(i).clone();
            let v = other.value_at(i).clone();
            let ghost pre = self.text();
            self.insert(k, v);
            proof {
                let p = other.pairs();
                assert(p.subrange(0, i + 1).drop_last() =~= p.subrange(0, i as int));
                assert(self.text() =~= pre.insert(k@, v@));
                assert(text_map(seq_map(p.subrange(0, i + 1))) =~= text_map(
                    seq_map(p.subrange(0, i as int)),
                ).insert(p[i as int].0, p[i as int].1@));
                assert(self.text() =~= start.union_prefer_right(
                    text_map(seq_map(p.subrange(0, i + 1))),
                ));
            }
            i = i + 1;
        }
        assert(other.pairs().subrange(0, n as int) =~= other.pairs());
    }

    /// Inserts every pair of a slice, in order.
    pub fn insert_pairs(&mut self, pairs: &[(&str, &str)])
        ensures
            final(self).text() == old(self).text().union_prefer_right(str_pairs_map(pairs@)),
    {
        let ghost start = self.text();
        let ghost pv = pairs@.map_values(|e: (&str, &str)| (e.0@, e.1@));
        let mut i: usize = 0;
        while i < pairs.len()
            invariant
                i <= pairs@.len(),
                pv == pairs@.map_values(|e: (&str, &str)| (e.0@, e.1@)),
                self.text() == start.union_prefer_right(seq_map(pv.subrange(0, i as int))),
            decreases pairs@.len() - i,
        {
            let (k, v) = pairs[i];
            let ghost pre = self.text();
            self.insert(k.to_owned(), v.to_owned());
            proof {
                assert(pv.subrange(0, i + 1).drop_last() =~= pv.subrange(0, i as int));
                assert(self.text() =~= pre.insert(k@, v@));
                assert(self.text() =~= start.union_prefer_right(seq_map(pv.subrange(0, i + 1))));
            }
            i = i + 1;
        }
        assert(pv.subrange(0, pairs@.len() as int) =~= pv);
    }
}

/// A set of strings that keeps its elements in insertion order.
#[derive(Debug)]
pub struct StrSet {
    items: StrMap<()>,
}

impl StrSet {
    /// Mathematical model of the set.
    pub closed spec fn set(&self) -> Set<Seq<char>> {
        self.items.map().dom()
    }

    /// The elements in insertion order.
    pub closed spec fn elems(&self) -> Seq<Seq<char>> {
        self.items.key_seq()
    }

    /// An empty set.
    pub fn new() -> (r: Self)
        ensures
            r.set() == Set::<Seq<char>>::empty(),
            r.elems() == Seq::<Seq<char>>::empty(),
    {
        let r = StrSet { items: StrMap::new() };
        assert(r.set() =~= Set::<Seq<char>>::empty());
        assert(r.elems() =~= Seq::<Seq<char>>::empty());
        r
    }

    /// Number of elements.
    pub fn len(&self) -> (r: usize)
        ensures
            r == self.set().len(),
            r == self.elems().len(),
    {
        self.items.len()
    }

    /// Whether the set is empty.
    pub fn is_empty(&self) -> (r: bool)
        ensures
            r == (self.set().len() == 0),
            r == (self.elems().len() == 0),
    {
        self.items.is_empty()
    }

    /// Membership test.
    pub fn contains(&self, s: &str) -> (r: bool)
        ensures
            r == self.set().contains(s@),
    {
        self.items.contains_key(s)
    }

    /// Adds an element; answers whether it was new.
    pub fn insert(&mut self, s: String) -> (r: bool)
        ensures
            final(self).set() == old(self).set().insert(s@),
            r == !old(self).set().contains(s@),
            old(self).set().contains(s@) ==> final(self).elems() == old(self).elems(),
            !old(self).set().contains(s@) ==> final(self).elems() == old(self).elems().push(s@),
    {
        let fresh = !self.items.contains_key(s.as_str());
        self.items.insert(s, ());
        assert(self.set() =~= old(self).set().insert(s@));
        fresh
    }

    /// Removes an element; answers whether it was present.
    pub fn remove(&mut self, s: &str) -> (r: bool)
        ensures
            final(self).set() == old(self).set().remove(s@),
            r == old(self).set().contains(s@),
    {
        let r = self.items.remove(s);
        assert(self.set() =~= old(self).set().remove(s@));
        r.is_some()
    }

    /// The element at a position in insertion order.
    pub fn at(&self, i: usize) -> (r: &String)
        requires
            i < self.elems().len(),
        ensures
            r@ == self.elems()[i as int],
    {
        self.items.key_at(i)
    }

    /// The elements in insertion order.
    pub fn to_vec(&self) -> (r: Vec<String>)
        ensures
            r@.map_values(|x: String| x@) == self.elems(),
            r@.map_values(|x: String| x@).to_set() == self.set(),
            r@.len() == self.set().len(),
    {
        proof {
            self.items.lemma_dom_keys();
            assert(self.set() =~= self.elems().to_set());
        }
        let mut r: Vec<String> = Vec::new();
        let mut i: usize = 0;
        let n = self.items.len();
        while i < n
            invariant
                n == self.elems().len(),
                i <= n,
                r@.len() == i,
                r@.map_values(|x: String| x@) == self.elems().subrange(0, i as int),
            decreases n - i,
        {
            let s = self.at(i).clone();
            let ghost before = r@;
            r.push(s);
            assert(r@ == before.push(s));
            assert(r@[i as int]@ == self.elems()[i as int]);
            assert(r@.map_values(|x: String| x@) =~= self.elems().subrange(0, i + 1));
            i = i + 1;
        }
        assert(self.elems().subrange(0, n as int) =~= self.elems());
        r
    }
}

/// The set of texts of a slice of string slices.
pub open spec fn str_slice_set(p: Seq<&str>) -> Set<Seq<char>> {
    p.map_values(|e: &str| e@).to_set()
}

impl StrSet {
    /// Adds every element of `other`.
    pub fn extend_from(&mut self, other: &StrSet)
        ensures
            final(self).set() == old(self).set().union(other.set()),
    {
        let ghost start = self.set();
        let n = other.len();
        let mut i: usize = 0;
        proof {
            other.items.lemma_dom_keys();
        }
        while i < n
            invariant
                n == other.elems().len(),
                i <= n,
                other.set() == other.elems().to_set(),
                self.set() == start.union(other.elems().subrange(0, i as int).to_set()),
            decreases n - i,
        {
            let s = other.at(i).clone();
            self.insert(s);
            proof {
                let e = other.elems();
                assert(e.subrange(0, i + 1) =~= e.subrange(0, i as int).push(e[i as int]));
                lemma_seq_to_set_push(e.subrange(0, i as int), e[i as int]);
                assert(self.set() =~= start.union(e.subrange(0, i + 1).to_set()));
            }
            i = i + 1;
        }
        assert(other.elems().subrange(0, n as int) =~= other.elems());
        assert(other.set() =~= other.elems().to_set());
    }

    /// Adds every element of a slice.
    pub fn insert_all(&mut self, items: &[&str])
        ensures
            final(self).set() == old(self).set().union(str_slice_set(items@)),
    {
        let ghost start = self.set();
        let ghost iv = items@.map_values(|e: &str| e@);
        let mut i: usize = 0;
        while i < items.len()
            invariant
                i <= items@.len(),
                iv == items@.map_values(|e: &str| e@),
                self.set() == start.union(iv.subrange(0, i as int).to_set()),
            decreases items@.len() - i,
        {
            let s = items[i];
            self.insert(s.to_owned());
            proof {
                assert(iv.subrange(0, i + 1) =~= iv.subrange(0, i as int).push(s@));
                lemma_seq_to_set_push(iv.subrange(0, i as int), s@);
                assert(self.set() =~= start.union(iv.subrange(0, i + 1).to_set()));
            }
            i = i + 1;
        }
        assert(iv.subrange(0, items@.len() as int) =~= iv);
    }
}

pub proof fn lemma_seq_to_set_push<A>(s: Seq<A>, c: A)
    ensures
        s.push(c).to_set() == s.to_set().insert(c),
{
    assert forall|x: A| #[trigger] s.push(c).to_set().contains(x) == s.to_set().insert(c).contains(
        x,
    ) by {
        if s.push(c).contains(x) && x != c {
            let a = choose|a: int| 0 <= a < s.push(c).len() && s.push(c)[a] == x;
            assert(s[a] == x);
        }
        if s.contains(x) {
            let a = choose|a: int| 0 <= a < s.len() && s[a] == x;
            assert(s.push(c)[a] == x);
        }
        if x == c {
            assert(s.push(c)[s.len() as int] == c);
        }
    }
    assert(s.push(c).to_set() =~= s.to_set().insert(c));
}

impl Clone for StrSet {
    fn clone(&self) -> (r: Self)
        ensures
            r.elems() == self.elems(),
            r.set() == self.set(),
    {
        let items = self.items.clone();
        let r = StrSet { items };
        assert(r.set() =~= self.set()) by {
            r.items.lemma_dom_keys();
            self.items.lemma_dom_keys();
        }
        r
    }
}

} // verus!
