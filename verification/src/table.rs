//! A table from strings to strings, each key once.
use vstd::prelude::*;

verus! {

/// The keys of the entries are pairwise different.
pub open spec fn keys_unique(s: Seq<(String, String)>) -> bool {
    forall|i: int, j: int| 0 <= i < j < s.len() ==> s[i].0@ != s[j].0@
}

/// The map that the entries describe (a later entry wins on a repeated key).
pub open spec fn table_map(s: Seq<(String, String)>) -> Map<Seq<char>, Seq<char>>
    decreases s.len(),
{
    if s.len() == 0 {
        Map::empty()
    } else {
        table_map(s.drop_last()).insert(s.last().0@, s.last().1@)
    }
}

/// The keys of the entries, in order.
pub open spec fn table_keys(s: Seq<(String, String)>) -> Seq<Seq<char>> {
    s.map_values(|e: (String, String)| e.0@)
}

proof fn lemma_absent(s: Seq<(String, String)>, k: Seq<char>)
    requires
        forall|i: int| 0 <= i < s.len() ==> s[i].0@ != k,
    ensures
        !table_map(s).contains_key(k),
    decreases s.len(),
{
    if s.len() > 0 {
        lemma_absent(s.drop_last(), k);
    }
}

proof fn lemma_lookup(s: Seq<(String, String)>)
    requires
        keys_unique(s),
    ensures
        forall|i: int|
            0 <= i < s.len() ==> #[trigger] table_map(s).contains_key(s[i].0@) && table_map(s)[s[i].0@]
                == s[i].1@,
        forall|k: Seq<char>|
            #[trigger] table_map(s).contains_key(k) ==> exists|i: int| 0 <= i < s.len() && s[i].0@ == k,
    decreases s.len(),
{
    if s.len() > 0 {
        let p = s.drop_last();
        lemma_lookup(p);
        assert forall|i: int| 0 <= i < s.len() implies #[trigger] table_map(s).contains_key(s[i].0@)
            && table_map(s)[s[i].0@] == s[i].1@ by {
            if i < s.len() - 1 {
                assert(p[i] == s[i]);
                assert(s[i].0@ != s[s.len() - 1].0@);
                assert(table_map(p).contains_key(p[i].0@));
            }
        }
        assert forall|k: Seq<char>| #[trigger] table_map(s).contains_key(k) implies exists|i: int|
            0 <= i < s.len() && s[i].0@ == k by {
            if k != s.last().0@ {
                assert(table_map(p).contains_key(k));
                let i = choose|i: int| 0 <= i < p.len() && p[i].0@ == k;
                assert(s[i] == p[i]);
            } else {
                assert(s[s.len() - 1].0@ == k);
            }
        }
    }
}

proof fn lemma_update(s: Seq<(String, String)>, i: int, v: String)
    requires
        keys_unique(s),
        0 <= i < s.len(),
    ensures
        table_map(s.update(i, (s[i].0, v))) =~= table_map(s).insert(s[i].0@, v@),
        keys_unique(s.update(i, (s[i].0, v))),
    decreases s.len(),
{
    let p = s.drop_last();
    let u = s.update(i, (s[i].0, v));
    if i == s.len() - 1 {
        assert(u.drop_last() =~= p);
    } else {
        assert(u.drop_last() =~= p.update(i, (p[i].0, v)));
        lemma_update(p, i, v);
        assert(s[i].0@ != s.last().0@);
    }
}

proof fn lemma_remove(s: Seq<(String, String)>, i: int)
    requires
        keys_unique(s),
        0 <= i < s.len(),
    ensures
        table_map(s.remove(i)) =~= table_map(s).remove(s[i].0@),
        keys_unique(s.remove(i)),
    decreases s.len(),
{
    let p = s.drop_last();
    let k = s[i].0@;
    if i == s.len() - 1 {
        assert(s.remove(i) =~= p);
        assert forall|j: int| 0 <= j < p.len() implies p[j].0@ != k by {
            assert(p[j] == s[j]);
        }
        lemma_absent(p, k);
    } else {
        assert(s.remove(i).drop_last() =~= p.remove(i));
        assert(s.remove(i).last() == s.last());
        lemma_remove(p, i);
        assert(k != s.last().0@);
        let r = s.remove(i);
        assert forall|a: int, b: int| 0 <= a < b < r.len() implies r[a].0@ != r[b].0@ by {
            let oa = if a < i { a } else { a + 1 };
            let ob = if b < i { b } else { b + 1 };
            assert(r[a] == s[oa]);
            assert(r[b] == s[ob]);
        }
    }
}

/// A table from strings to strings; each key occurs once.
pub struct StringTable {
    entries: Vec<(String, String)>,
}

impl StringTable {
    /// The entries hold each key once.
    pub closed spec fn wf(&self) -> bool {
        keys_unique(self.entries@)
    }

    /// The keys of the table, in insertion order.
    pub closed spec fn key_seq(&self) -> Seq<Seq<char>> {
        table_keys(self.entries@)
    }

    /// The map from keys to values.
    pub closed spec fn map(&self) -> Map<Seq<char>, Seq<char>> {
        table_map(self.entries@)
    }

    /// The keys are those of the map, each once.
    pub proof fn lemma_keys(&self)
        requires
            self.wf(),
        ensures
            self.key_seq().no_duplicates(),
            self.key_seq().to_set() =~= self.map().dom(),
            self.map().dom().finite(),
    {
        lemma_lookup(self.entries@);
        let ks = self.key_seq();
        assert forall|k: Seq<char>| ks.to_set().contains(k) <==> self.map().dom().contains(k) by {
            if ks.to_set().contains(k) {
                let i = choose|i: int| 0 <= i < ks.len() && ks[i] == k;
                assert(self.entries@[i].0@ == k);
            }
            if self.map().dom().contains(k) {
                let i = choose|i: int| 0 <= i < self.entries@.len() && self.entries@[i].0@ == k;
                assert(ks[i] == k);
            }
        }
        ks.unique_seq_to_set();
    }

    /// An empty table.
    pub fn new() -> (r: StringTable)
        ensures
            r.wf(),
            r.map() == Map::<Seq<char>, Seq<char>>::empty(),
    {
        StringTable { entries: Vec::new() }
    }

    /// The index of the entry with key `key`.
    fn find(&self, key: &str) -> (r: Option<usize>)
        requires
            self.wf(),
        ensures
            match r {
                Some(i) => i < self.entries@.len() && self.entries@[i as int].0@ == key@,
                None => !self.map().contains_key(key@),
            },
    {
        let mut i: usize = 0;
        while i < self.entries.len()
            invariant
                i <= self.entries@.len(),
                forall|j: int| 0 <= j < i ==> self.entries@[j].0@ != key@,
            decreases self.entries.len() - i,
        {
            if crate::text::str_eq(self.entries[i].0.as_str(), key) {
                return Some(i);
            }
            i = i + 1;
        }
        proof {
            lemma_absent(self.entries@, key@);
        }
        None
    }

    /// Sets the value of `key`, replacing any earlier value.
    pub fn insert(&mut self, key: &str, value: &str)
        requires
            old(self).wf(),
        ensures
            final(self).wf(),
            final(self).map() == old(self).map().insert(key@, value@),
    {
        match self.find(key) {
            Some(i) => {
                let ghost s = self.entries@;
                let k = self.entries[i].0.clone();
                let v = String::from_str(value);
                proof {
                    lemma_update(s, i as int, v);
                }
                self.entries.set(i, (k, v));
                assert(self.entries@ == s.update(i as int, (s[i as int].0, v)));
            },
            None => {
                let ghost s = self.entries@;
                proof {
                    lemma_lookup(s);
                }
                self.entries.push((String::from_str(key), String::from_str(value)));
                assert(self.entries@.drop_last() =~= s);
                assert forall|a: int, b: int|
                    0 <= a < b < self.entries@.len() implies self.entries@[a].0@
                    != self.entries@[b].0@ by {
                    if b == self.entries@.len() - 1 {
                        assert(self.entries@[a] == s[a]);
                        assert(table_map(s).contains_key(s[a].0@));
                    } else {
                        assert(self.entries@[a] == s[a]);
                        assert(self.entries@[b] == s[b]);
                    }
                }
            },
        }
    }

    /// The value of `key`.
    pub fn get(&self, key: &str) -> (r: Option<String>)
        requires
            self.wf(),
        ensures
            match r {
                Some(v) => self.map().contains_key(key@) && self.map()[key@] == v@,
                None => !self.map().contains_key(key@),
            },
    {
        proof {
            lemma_lookup(self.entries@);
        }
        match self.find(key) {
            Some(i) => {
                assert(table_map(self.entries@).contains_key(self.entries@[i as int].0@));
                Some(self.entries[i].1.clone())
            },
            None => None,
        }
    }

    /// Removes `key`, returning its value.
    pub fn remove(&mut self, key: &str) -> (r: Option<String>)
        requires
            old(self).wf(),
        ensures
            final(self).wf(),
            final(self).map() == old(self).map().remove(key@),
            match r {
                Some(v) => old(self).map().contains_key(key@) && old(self).map()[key@] == v@,
                None => !old(self).map().contains_key(key@),
            },
    {
        proof {
            lemma_lookup(self.entries@);
        }
        match self.find(key) {
            Some(i) => {
                let ghost s = self.entries@;
                proof {
                    lemma_remove(s, i as int);
                }
                let (_k, v) = self.entries.remove(i);
                Some(v)
            },
            None => {
                assert(self.map().remove(key@) =~= self.map());
                None
            },
        }
    }

    /// The keys of the table, in insertion order.
    pub fn keys(&self) -> (r: Vec<String>)
        requires
            self.wf(),
        ensures
            r@.map_values(|s: String| s@) == self.key_seq(),
    {
        let mut out: Vec<String> = Vec::new();
        let mut i: usize = 0;
        while i < self.entries.len()
            invariant
                i <= self.entries@.len(),
                out@.len() == i,
                forall|j: int| 0 <= j < i ==> (#[trigger] out@[j])@ == self.entries@[j].0@,
            decreases self.entries.len() - i,
        {
            out.push(self.entries[i].0.clone());
            i = i + 1;
        }
        assert(out@.map_values(|s: String| s@) =~= self.key_seq());
        out
    }

    /// The entries, each key once.
    pub fn into_pairs(self) -> (r: Vec<(String, String)>)
        requires
            self.wf(),
        ensures
            keys_unique(r@),
            table_map(r@) == self.map(),
    {
        self.entries
    }

    /// The number of keys.
    pub fn len(&self) -> (r: usize)
        requires
            self.wf(),
        ensures
            r == self.map().dom().len(),
    {
        proof {
            self.lemma_keys();
            self.key_seq().unique_seq_to_set();
        }
        self.entries.len()
    }
}

} // verus!
