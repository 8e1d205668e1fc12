//! Environment variables handed to a sandbox.
//!
//! `EnvVars` is a map from variable names to values. It keeps its entries in
//! a vector with pairwise distinct names, so that the abstract view is a
//! `Map` and an `insert` of a name that is already present replaces its value.
use vstd::prelude::*;

verus! {

/// The view of one stored entry: a name and its value.
pub type EntryView = (Seq<char>, Seq<char>);

/// No two entries share a name.
pub open spec fn names_distinct(s: Seq<EntryView>) -> bool {
    forall|i: int, j: int| 0 <= i < j < s.len() ==> #[trigger] s[i].0 != #[trigger] s[j].0
}

/// The map that a sequence of entries describes; a later entry wins over an
/// earlier one of the same name.
pub open spec fn entries_map(s: Seq<EntryView>) -> Map<Seq<char>, Seq<char>>
    decreases s.len(),
{
    if s.len() == 0 {
        Map::empty()
    } else {
        entries_map(s.drop_last()).insert(s.last().0, s.last().1)
    }
}

/// The views of a vector of stored entries.
pub open spec fn entry_views(v: Seq<(String, String)>) -> Seq<EntryView> {
    v.map_values(|p: (String, String)| (p.0@, p.1@))
}

/// Every name in the map of `s` is the name of an entry of `s`, and the entry
/// at index `i` is in the map when the names are distinct.
pub proof fn lemma_entries_map_index(s: Seq<EntryView>, i: int)
    requires
        names_distinct(s),
        0 <= i < s.len(),
    ensures
        entries_map(s).contains_key(s[i].0),
        entries_map(s)[s[i].0] == s[i].1,
    decreases s.len(),
{
    if i < s.len() - 1 {
        let t = s.drop_last();
        assert(t[i] == s[i]);
        assert(s[i].0 != s[s.len() - 1].0);
        lemma_entries_map_index(t, i);
    }
}

/// A name is in the map of `s` only if some entry carries it.
pub proof fn lemma_entries_map_key(s: Seq<EntryView>, k: Seq<char>)
    requires
        entries_map(s).contains_key(k),
    ensures
        exists|i: int| 0 <= i < s.len() && #[trigger] s[i].0 == k,
    decreases s.len(),
{
    if s.len() > 0 && s.last().0 != k {
        let t = s.drop_last();
        lemma_entries_map_key(t, k);
        let i = choose|i: int| 0 <= i < t.len() && #[trigger] t[i].0 == k;
        assert(s[i].0 == k);
    }
}

/// The map of a sequence of entries is finite.
pub proof fn lemma_entries_map_finite(s: Seq<EntryView>)
    ensures
        entries_map(s).dom().finite(),
    decreases s.len(),
{
    if s.len() > 0 {
        lemma_entries_map_finite(s.drop_last());
    }
}

/// With distinct names the map has as many keys as there are entries.
pub proof fn lemma_entries_map_len(s: Seq<EntryView>)
    requires
        names_distinct(s),
    ensures
        entries_map(s).dom().finite(),
        entries_map(s).len() == s.len(),
    decreases s.len(),
{
    if s.len() > 0 {
        let t = s.drop_last();
        assert(names_distinct(t)) by {
            assert forall|i: int, j: int| 0 <= i < j < t.len() implies #[trigger] t[i].0
                != #[trigger] t[j].0 by {
                assert(t[i] == s[i] && t[j] == s[j]);
            }
        }
        lemma_entries_map_len(t);
        if entries_map(t).contains_key(s.last().0) {
            lemma_entries_map_key(t, s.last().0);
            let i = choose|i: int| 0 <= i < t.len() && #[trigger] t[i].0 == s.last().0;
            assert(s[i].0 == s[s.len() - 1].0);
        }
    }
}

/// Replacing the value of the entry at `i` replaces the value of its name.
pub proof fn lemma_entries_map_update(s: Seq<EntryView>, i: int, v: Seq<char>)
    requires
        names_distinct(s),
        0 <= i < s.len(),
    ensures
        names_distinct(s.update(i, (s[i].0, v))),
        entries_map(s.update(i, (s[i].0, v))) == entries_map(s).insert(s[i].0, v),
    decreases s.len(),
{
    let u = s.update(i, (s[i].0, v));
    assert(names_distinct(u)) by {
        assert forall|a: int, b: int| 0 <= a < b < u.len() implies #[trigger] u[a].0
            != #[trigger] u[b].0 by {
            assert(u[a].0 == s[a].0 && u[b].0 == s[b].0);
        }
    }
    let t = s.drop_last();
    if i == s.len() - 1 {
        assert(u.drop_last() =~= t);
        assert(entries_map(u) =~= entries_map(s).insert(s[i].0, v));
    } else {
        assert(names_distinct(t)) by {
            assert forall|a: int, b: int| 0 <= a < b < t.len() implies #[trigger] t[a].0
                != #[trigger] t[b].0 by {
                assert(t[a] == s[a] && t[b] == s[b]);
            }
        }
        assert(t[i] == s[i]);
        lemma_entries_map_update(t, i, v);
        assert(u.drop_last() =~= t.update(i, (t[i].0, v)));
        assert(s[i].0 != s.last().0);
        assert(entries_map(u) =~= entries_map(s).insert(s[i].0, v));
    }
}

/// A map from variable names to values, as a `HashMap<String, String>` would
/// hold them.
#[derive(Debug)]
pub struct EnvVars {
    entries: Vec<(String, String)>,
}

impl View for EnvVars {
    type V = Map<Seq<char>, Seq<char>>;

    closed spec fn view(&self) -> Map<Seq<char>, Seq<char>> {
        entries_map(entry_views(self.entries@))
    }
}

impl EnvVars {
    #[verifier::type_invariant]
    closed spec fn distinct_names(self) -> bool {
        names_distinct(entry_views(self.entries@))
    }

    /// The stored entries, in the order in which their names were first
    /// inserted.
    pub closed spec fn pairs(self) -> Seq<EntryView> {
        entry_views(self.entries@)
    }

    /// An empty map.
    pub fn new() -> (r: EnvVars)
        ensures
            r@ == Map::<Seq<char>, Seq<char>>::empty(),
            r.pairs().len() == 0,
    {
        let r = EnvVars { entries: Vec::new() };
        assert(entry_views(r.entries@) =~= Seq::<EntryView>::empty());
        r
    }

    /// The index of the entry named `key`, if there is one.
    fn find(&self, key: &str) -> (r: Option<usize>)
        ensures
            match r {
                Some(i) => i < self.pairs().len() && self.pairs()[i as int].0 == key@,
                None => forall|i: int| 0 <= i < self.pairs().len() ==> #[trigger] self.pairs()[i].0 != key@,
            },
    {
        let k = key.to_owned();
        let mut i: usize = 0;
        while i < self.entries.len()
            invariant
                0 <= i <= self.entries@.len(),
                k@ == key@,
                forall|j: int| 0 <= j < i ==> #[trigger] entry_views(self.entries@)[j].0 != key@,
            decreases self.entries@.len() - i,
        {
            if self.entries[i].0 == k {
                return Some(i);
            }
            i = i + 1;
        }
        None
    }

    /// The number of variables.
    pub fn len(&self) -> (r: usize)
        ensures
            r == self@.len(),
    {
        proof {
            use_type_invariant(&*self);
            lemma_entries_map_len(self.pairs());
        }
        self.entries.len()
    }

    /// Whether no variable is set.
    pub fn is_empty(&self) -> (r: bool)
        ensures
            r == (self@.len() == 0),
    {
        self.len() == 0
    }

    /// Whether `key` is set.
    pub fn contains_key(&self, key: &str) -> (r: bool)
        ensures
            r == self@.contains_key(key@),
    {
        proof {
            use_type_invariant(&*self);
            lemma_entries_map_len(self.pairs());
        }
        match self.find(key) {
            Some(i) => {
                proof {
                    lemma_entries_map_index(self.pairs(), i as int);
                }
                true
            },
            None => {
                proof {
                    if self@.contains_key(key@) {
                        lemma_entries_map_key(self.pairs(), key@);
                    }
                }
                false
            },
        }
    }

    /// The value of `key`, if it is set.
    pub fn get(&self, key: &str) -> (r: Option<&String>)
        ensures
            match r {
                Some(v) => self@.contains_key(key@) && v@ == self@[key@],
                None => !self@.contains_key(key@),
            },
    {
        proof {
            use_type_invariant(&*self);
            lemma_entries_map_len(self.pairs());
        }
        match self.find(key) {
            Some(i) => {
                proof {
                    lemma_entries_map_index(self.pairs(), i as int);
                }
                Some(&self.entries[i].1)
            },
            None => {
                proof {
                    if self@.contains_key(key@) {
                        lemma_entries_map_key(self.pairs(), key@);
                    }
                }
                None
            },
        }
    }

    /// Sets `key` to `value` and returns the value it had before, if any.
    pub fn insert(&mut self, key: String, value: String) -> (r: Option<String>)
        ensures
            final(self)@ == old(self)@.insert(key@, value@),
            final(self)@.len() == old(self)@.len() + if old(self)@.contains_key(key@) {
                0nat
            } else {
                1nat
            },
            match r {
                Some(v) => old(self)@.contains_key(key@) && v@ == old(self)@[key@],
                None => !old(self)@.contains_key(key@),
            },
    {
        proof {
            use_type_invariant(&*self);
            lemma_entries_map_len(self.pairs());
        }
        let ghost old_pairs = self.pairs();
        match self.find(key.as_str()) {
            Some(i) => {
                proof {
                    lemma_entries_map_index(old_pairs, i as int);
                    lemma_entries_map_update(old_pairs, i as int, value@);
                }
                let mut entries = Vec::new();
                std::mem::swap(&mut entries, &mut self.entries);
                let old_entry = entries[i].1.clone();
                let name = entries[i].0.clone();
                entries.set(i, (name, value));
                assert(entry_views(entries@) =~= old_pairs.update(i as int, (old_pairs[i as int].0, value@)));
                self.entries = entries;
                Some(old_entry)
            },
            None => {
                proof {
                    if old(self)@.contains_key(key@) {
                        lemma_entries_map_key(old_pairs, key@);
                    }
                }
                let mut entries = Vec::new();
                std::mem::swap(&mut entries, &mut self.entries);
                entries.push((key, value));
                assert(entry_views(entries@) =~= old_pairs.push((key@, value@)));
                assert(entry_views(entries@).drop_last() =~= old_pairs);
                self.entries = entries;
                None
            },
        }
    }

    /// The entries, one per variable, each a name and its value. Their order
    /// is the order in which the names were first inserted.
    pub fn entries(&self) -> (r: &Vec<(String, String)>)
        ensures
            entry_views(r@) == self.pairs(),
            names_distinct(entry_views(r@)),
            entries_map(entry_views(r@)) == self@,
            r@.len() == self@.len(),
    {
        proof {
            use_type_invariant(&*self);
            lemma_entries_map_len(self.pairs());
        }
        &self.entries
    }
}

impl Clone for EnvVars {
    fn clone(&self) -> (r: Self)
        ensures
            r@ == self@,
            r.pairs() == self.pairs(),
    {
        proof {
            use_type_invariant(&*self);
        }
        let mut entries: Vec<(String, String)> = Vec::new();
        let mut i: usize = 0;
        while i < self.entries.len()
            invariant
                0 <= i <= self.entries@.len(),
                entry_views(entries@) =~= entry_views(self.entries@).subrange(0, i as int),
            decreases self.entries@.len() - i,
        {
            let name = self.entries[i].0.clone();
            let value = self.entries[i].1.clone();
            let ghost before = entries@;
            entries.push((name, value));
            assert(entries@ =~= before.push((name, value)));
            assert(entry_views(entries@) =~= entry_views(before).push((name@, value@)));
            assert(entry_views(self.entries@).subrange(0, i + 1) =~= entry_views(
                self.entries@,
            ).subrange(0, i as int).push(entry_views(self.entries@)[i as int]));
            i = i + 1;
        }
        assert(entry_views(entries@) =~= entry_views(self.entries@));
        EnvVars { entries }
    }
}

/// Read after write: once `insert` has set `name` to `value` (the map
/// `after`, from `before`), `get` of `name` gives `value`, every other name
/// reads as before, and the number of variables grows by one exactly when
/// `name` was new.
pub proof fn lemma_read_after_insert(
    before: EnvVars,
    after: EnvVars,
    name: Seq<char>,
    value: Seq<char>,
    other: Seq<char>,
)
    requires
        after@ == before@.insert(name, value),
    ensures
        after@.contains_key(name),
        after@[name] == value,
        other != name ==> (after@.contains_key(other) == before@.contains_key(other)),
        other != name && before@.contains_key(other) ==> after@[other] == before@[other],
        after@.len() == before@.len() + if before@.contains_key(name) {
            0nat
        } else {
            1nat
        },
{
    lemma_entries_map_finite(before.pairs());
}

} // verus!
