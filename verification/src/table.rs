//! A table keyed by text, with at most one entry per key.
use vstd::prelude::*;
use crate::text::str_eq;

verus! {

/// Entries keyed by text; no key occurs twice.
pub struct Table<V> {
    entries: Vec<(String, V)>,
}

/// No key occurs twice in `entries`.
pub open spec fn keys_distinct<V>(entries: Seq<(String, V)>) -> bool {
    forall|i: int, j: int|
        0 <= i < entries.len() && 0 <= j < entries.len() && i != j
            ==> #[trigger] entries[i].0@ != #[trigger] entries[j].0@
}

/// The texts that `v` holds, in order.
pub open spec fn views(v: Seq<String>) -> Seq<Seq<char>> {
    v.map_values(|s: String| s@)
}

/// The map that `entries` denote.
pub open spec fn entries_map<V>(entries: Seq<(String, V)>) -> Map<Seq<char>, V>
    decreases entries.len(),
{
    if entries.len() == 0 {
        Map::empty()
    } else {
        entries_map(entries.drop_last()).insert(entries.last().0@, entries.last().1)
    }
}

proof fn lemma_entries_map_dom<V>(entries: Seq<(String, V)>)
    ensures
        forall|k: Seq<char>| #[trigger] entries_map(entries).dom().contains(k)
            <==> exists|i: int| 0 <= i < entries.len() && entries[i].0@ == k,
    decreases entries.len(),
{
    if entries.len() > 0 {
        let init = entries.drop_last();
        lemma_entries_map_dom(init);
        assert forall|k: Seq<char>| #[trigger] entries_map(entries).dom().contains(k)
            implies exists|i: int| 0 <= i < entries.len() && entries[i].0@ == k by {
            if k == entries.last().0@ {
                assert(entries[entries.len() - 1].0@ == k);
            } else {
                assert(entries_map(init).dom().contains(k));
                let i = choose|i: int| 0 <= i < init.len() && init[i].0@ == k;
                assert(entries[i].0@ == k);
            }
        }
        assert forall|k: Seq<char>|
            (exists|i: int| 0 <= i < entries.len() && entries[i].0@ == k)
            implies #[trigger] entries_map(entries).dom().contains(k) by {
            let i = choose|i: int| 0 <= i < entries.len() && entries[i].0@ == k;
            if i < entries.len() - 1 {
                assert(init[i].0@ == k);
                assert(exists|j: int| 0 <= j < init.len() && init[j].0@ == k);
                assert(entries_map(init).dom().contains(k));
            } else {
                assert(k == entries.last().0@);
            }
        }
    }
}

proof fn lemma_entries_map_at<V>(entries: Seq<(String, V)>, i: int)
    requires
        keys_distinct(entries),
        0 <= i < entries.len(),
    ensures
        entries_map(entries).dom().contains(entries[i].0@),
        entries_map(entries)[entries[i].0@] == entries[i].1,
    decreases entries.len(),
{
    let init = entries.drop_last();
    if i < entries.len() - 1 {
        assert(init[i] == entries[i]);
        assert(keys_distinct(init)) by {
            assert forall|a: int, b: int|
                0 <= a < init.len() && 0 <= b < init.len() && a != b
                implies #[trigger] init[a].0@ != #[trigger] init[b].0@ by {
                assert(init[a] == entries[a] && init[b] == entries[b]);
            }
        }
        lemma_entries_map_at(init, i);
        assert(entries[i].0@ != entries[entries.len() - 1].0@);
    }
}

impl<V> Table<V> {
    /// The map that the table denotes.
    pub closed spec fn spec_map(&self) -> Map<Seq<char>, V> {
        entries_map(self.entries@)
    }

    /// The keys of the table in the order of their entries.
    pub closed spec fn spec_keys(&self) -> Seq<Seq<char>> {
        self.entries@.map_values(|e: (String, V)| e.0@)
    }

    /// Every key occurs at most once.
    pub closed spec fn wf(&self) -> bool {
        keys_distinct(self.entries@)
    }

    proof fn lemma_keys(&self)
        requires
            self.wf(),
        ensures
            self.spec_keys().no_duplicates(),
            self.spec_keys().len() == self.entries@.len(),
            forall|k: Seq<char>| self.spec_map().dom().contains(k) <==> #[trigger] self.spec_keys().contains(k),
            self.spec_map().dom().finite(),
            self.spec_map().dom().len() == self.spec_keys().len(),
    {
        lemma_entries_map_dom(self.entries@);
        let ks = self.spec_keys();
        assert forall|k: Seq<char>| self.spec_map().dom().contains(k) <==> #[trigger] ks.contains(k) by {
            if self.spec_map().dom().contains(k) {
                let i = choose|i: int| 0 <= i < self.entries@.len() && self.entries@[i].0@ == k;
                assert(ks[i] == k);
            }
            if ks.contains(k) {
                let i = choose|i: int| 0 <= i < ks.len() && ks[i] == k;
                assert(self.entries@[i].0@ == k);
            }
        }
        assert(ks.no_duplicates()) by {
            assert forall|i: int, j: int| 0 <= i < ks.len() && 0 <= j < ks.len() && i != j
                implies ks[i] != ks[j] by {
                assert(ks[i] == self.entries@[i].0@);
                assert(ks[j] == self.entries@[j].0@);
            }
        }
        assert(self.spec_map().dom() =~= ks.to_set());
        ks.unique_seq_to_set();
    }

    /// An empty table.
    pub fn new() -> (t: Self)
        ensures
            t.wf(),
            t.spec_map() == Map::<Seq<char>, V>::empty(),
    {
        Table { entries: Vec::new() }
    }

    /// The number of keys.
    pub fn len(&self) -> (n: usize)
        requires
            self.wf(),
        ensures
            n == self.spec_map().dom().len(),
    {
        proof { self.lemma_keys(); }
        self.entries.len()
    }

    fn find(&self, key: &str) -> (r: Option<usize>)
        requires
            self.wf(),
        ensures
            match r {
                Some(i) => i < self.entries@.len() && self.entries@[i as int].0@ == key@,
                None => forall|i: int| 0 <= i < self.entries@.len() ==> self.entries@[i].0@ != key@,
            },
    {
        let mut i: usize = 0;
        while i < self.entries.len()
            invariant
                i <= self.entries@.len(),
                forall|j: int| 0 <= j < i ==> self.entries@[j].0@ != key@,
            decreases self.entries@.len() - i,
        {
            if str_eq(self.entries[i].0.as_str(), key) {
                return Some(i);
            }
            i += 1;
        }
        None
    }

    /// The value stored under `key`, if any.
    pub fn get(&self, key: &str) -> (r: Option<&V>)
        requires
            self.wf(),
        ensures
            lookup_gives(self.spec_map(), key@, match r {
                Some(v) => Some(*v),
                None => None,
            }),
    {
        proof { lemma_entries_map_dom(self.entries@); }
        match self.find(key) {
            Some(i) => {
                proof { lemma_entries_map_at(self.entries@, i as int); }
                Some(&self.entries[i].1)
            },
            None => None,
        }
    }

    /// Stores `value` under `key`, replacing what was stored there before.
    pub fn insert(&mut self, key: String, value: V)
        requires
            old(self).wf(),
        ensures
            final(self).wf(),
            final(self).spec_map() == old(self).spec_map().insert(key@, value),
    {
        proof { lemma_entries_map_dom(self.entries@); }
        match self.find(key.as_str()) {
            Some(i) => {
                let ghost old_entries = self.entries@;
                let ghost k = key@;
                self.entries.set(i, (key, value));
                proof {
                    let ne = self.entries@;
                    assert(keys_distinct(ne)) by {
                        assert forall|a: int, b: int|
                            0 <= a < ne.len() && 0 <= b < ne.len() && a != b
                            implies #[trigger] ne[a].0@ != #[trigger] ne[b].0@ by {
                            assert(ne[a].0@ == old_entries[a].0@);
                            assert(ne[b].0@ == old_entries[b].0@);
                        }
                    }
                    lemma_entries_map_dom(ne);
                    assert forall|q: Seq<char>| #[trigger] entries_map(ne).dom().contains(q)
                        == old(self).spec_map().insert(k, value).dom().contains(q) by {
                        if entries_map(ne).dom().contains(q) {
                            let j = choose|j: int| 0 <= j < ne.len() && ne[j].0@ == q;
                            assert(old_entries[j].0@ == q);
                        }
                        if old(self).spec_map().dom().contains(q) {
                            let j = choose|j: int| 0 <= j < old_entries.len() && old_entries[j].0@ == q;
                            assert(ne[j].0@ == q);
                        }
                    }
                    assert forall|q: Seq<char>| #[trigger] entries_map(ne).dom().contains(q)
                        implies entries_map(ne)[q] == old(self).spec_map().insert(k, value)[q] by {
                        let j = choose|j: int| 0 <= j < ne.len() && ne[j].0@ == q;
                        lemma_entries_map_at(ne, j);
                        if j != i {
                            lemma_entries_map_at(old_entries, j);
                        }
                    }
                    assert(entries_map(ne) =~= old(self).spec_map().insert(k, value));
                }
            },
            None => {
                let ghost old_entries = self.entries@;
                self.entries.push((key, value));
                proof {
                    assert(self.entries@.drop_last() =~= old_entries);
                    let ne = self.entries@;
                    assert(keys_distinct(ne)) by {
                        assert forall|a: int, b: int|
                            0 <= a < ne.len() && 0 <= b < ne.len() && a != b
                            implies #[trigger] ne[a].0@ != #[trigger] ne[b].0@ by {
                            if a < old_entries.len() && b < old_entries.len() {
                                assert(ne[a] == old_entries[a] && ne[b] == old_entries[b]);
                            } else if a < old_entries.len() {
                                assert(ne[a] == old_entries[a]);
                            } else {
                                assert(ne[b] == old_entries[b]);
                            }
                        }
                    }
                }
            },
        }
    }

    /// The keys of the table, each once.
    pub fn keys(&self) -> (r: Vec<String>)
        requires
            self.wf(),
        ensures
            views(r@).no_duplicates(),
            r@.len() == self.spec_map().dom().len(),
            forall|k: Seq<char>| #[trigger] self.spec_map().dom().contains(k)
                <==> views(r@).contains(k),
    {
        proof { self.lemma_keys(); }
        let mut r: Vec<String> = Vec::new();
        let mut i: usize = 0;
        while i < self.entries.len()
            invariant
                i <= self.entries@.len(),
                views(r@) == self.spec_keys().take(i as int),
            decreases self.entries@.len() - i,
        {
            let k = self.entries[i].0.clone();
            let ghost before = r@;
            r.push(k);
            assert(views(r@) =~= views(before).push(self.entries@[i as int].0@));
            assert(views(r@) =~= self.spec_keys().take(i + 1));
            i += 1;
        }
        assert(self.spec_keys().take(i as int) =~= self.spec_keys());
        r
    }
}

} // verus!

verus! {

/// `r` is what a lookup of `key` in a table whose contents are `m` answers: the value
/// stored under `key`, or nothing where `key` has none.
pub open spec fn lookup_gives<V>(m: Map<Seq<char>, V>, key: Seq<char>, r: Option<V>) -> bool {
    match r {
        Some(v) => m.dom().contains(key) && m[key] == v,
        None => !m.dom().contains(key),
    }
}

/// A lookup gives back what the last insertion under its key stored, and an insertion
/// leaves the lookups of the other keys as they were. `after` is `before` after
/// `Table::insert(key, value)` (as its contract gives it); `found` is what `Table::get`
/// answers for `key` on `after`, and `other_after` and `other_before` what it answers for
/// `other` on `after` and on `before` (as its contract gives them).
pub proof fn law_get_after_insert<V>(
    before: Table<V>,
    after: Table<V>,
    key: Seq<char>,
    value: V,
    found: Option<V>,
    other: Seq<char>,
    other_after: Option<V>,
    other_before: Option<V>,
)
    requires
        before.wf(),
        after.wf(),
        after.spec_map() == before.spec_map().insert(key, value),
        lookup_gives(after.spec_map(), key, found),
        lookup_gives(after.spec_map(), other, other_after),
        lookup_gives(before.spec_map(), other, other_before),
    ensures
        found == Some(value),
        other != key ==> other_after == other_before,
{
}

} // verus!
