//! The attribute table of one object: keys to values, each key once.

use vstd::prelude::*;
use crate::key::{KeyId, StoredKey};
use crate::object::Object;

verus! {

/// One attribute: a key and the value stored under it.
#[derive(Debug)]
pub struct Entry {
    pub key: StoredKey,
    pub value: Object,
}

/// The attributes an object has of its own. The order in which they were
/// set does not show.
#[derive(Debug)]
pub struct Attributes {
    entries: Vec<Entry>,
}

/// The map that a list of entries stands for. Where a key stands twice,
/// the later entry counts.
pub open spec fn entries_map(es: Seq<Entry>) -> Map<KeyId, Object>
    decreases es.len(),
{
    if es.len() == 0 {
        Map::empty()
    } else {
        entries_map(es.drop_last()).insert(es.last().key@, es.last().value)
    }
}

/// No key stands twice among the entries.
pub open spec fn unique_keys(es: Seq<Entry>) -> bool {
    forall|i: int, j: int| 0 <= i < j < es.len() ==> (#[trigger] es[i]).key@ != (#[trigger] es[j]).key@
}

/// A key that no entry has is not in the map.
proof fn lemma_absent(es: Seq<Entry>, k: KeyId)
    requires
        forall|i: int| 0 <= i < es.len() ==> (#[trigger] es[i]).key@ != k,
    ensures
        !entries_map(es).dom().contains(k),
    decreases es.len(),
{
    if es.len() > 0 {
        let init = es.drop_last();
        assert forall|i: int| 0 <= i < init.len() implies (#[trigger] init[i]).key@ != k by {
            assert(init[i] == es[i]);
        }
        lemma_absent(init, k);
        assert(es.last() == es[es.len() - 1]);
    }
}

/// The keys of the map are the keys of the entries.
proof fn lemma_domain(es: Seq<Entry>, k: KeyId)
    requires
        entries_map(es).dom().contains(k),
    ensures
        exists|i: int| 0 <= i < es.len() && (#[trigger] es[i]).key@ == k,
    decreases es.len(),
{
    if es.len() > 0 {
        let init = es.drop_last();
        if es.last().key@ == k {
            assert(es[es.len() - 1].key@ == k);
        } else {
            lemma_domain(init, k);
            let i = choose|i: int| 0 <= i < init.len() && (#[trigger] init[i]).key@ == k;
            assert(es[i] == init[i]);
        }
    }
}

/// With each key once, the map gives under the key of an entry the value
/// of that entry.
proof fn lemma_present(es: Seq<Entry>, i: int)
    requires
        unique_keys(es),
        0 <= i < es.len(),
    ensures
        entries_map(es).dom().contains(es[i].key@),
        entries_map(es)[es[i].key@] == es[i].value,
    decreases es.len(),
{
    let init = es.drop_last();
    if i < es.len() - 1 {
        assert forall|a: int, b: int| 0 <= a < b < init.len() implies (#[trigger] init[a]).key@ != (
        #[trigger] init[b]).key@ by {
            assert(init[a] == es[a]);
            assert(init[b] == es[b]);
        }
        lemma_present(init, i);
        assert(init[i] == es[i]);
        assert(es.last() == es[es.len() - 1]);
    }
}

/// Dropping the last entry keeps each key once.
proof fn lemma_unique_init(es: Seq<Entry>)
    requires
        unique_keys(es),
        es.len() > 0,
    ensures
        unique_keys(es.drop_last()),
{
    let init = es.drop_last();
    assert forall|a: int, b: int| 0 <= a < b < init.len() implies (#[trigger] init[a]).key@ != (
    #[trigger] init[b]).key@ by {
        assert(init[a] == es[a]);
        assert(init[b] == es[b]);
    }
}

/// Replacing the value of an entry is inserting under its key.
proof fn lemma_update(es: Seq<Entry>, i: int, e: Entry)
    requires
        unique_keys(es),
        0 <= i < es.len(),
        e.key@ == es[i].key@,
    ensures
        unique_keys(es.update(i, e)),
        entries_map(es.update(i, e)) == entries_map(es).insert(e.key@, e.value),
    decreases es.len(),
{
    let next = es.update(i, e);
    assert forall|a: int, b: int| 0 <= a < b < next.len() implies (#[trigger] next[a]).key@ != (
    #[trigger] next[b]).key@ by {
        assert(next[a].key@ == es[a].key@);
        assert(next[b].key@ == es[b].key@);
    }
    let init = es.drop_last();
    if i == es.len() - 1 {
        assert(next.drop_last() =~= init);
        assert(next.last() == e);
        assert(entries_map(next) =~= entries_map(es).insert(e.key@, e.value));
    } else {
        lemma_unique_init(es);
        assert(init[i] == es[i]);
        lemma_update(init, i, e);
        assert(next.drop_last() =~= init.update(i, e));
        assert(next.last() == es.last());
        assert(es.last() == es[es.len() - 1]);
        assert(es.last().key@ != e.key@);
        assert(entries_map(next) =~= entries_map(es).insert(e.key@, e.value));
    }
}

/// Taking an entry out is removing its key.
proof fn lemma_remove(es: Seq<Entry>, i: int)
    requires
        unique_keys(es),
        0 <= i < es.len(),
    ensures
        unique_keys(es.remove(i)),
        entries_map(es.remove(i)) == entries_map(es).remove(es[i].key@),
    decreases es.len(),
{
    let next = es.remove(i);
    assert forall|a: int, b: int| 0 <= a < b < next.len() implies (#[trigger] next[a]).key@ != (
    #[trigger] next[b]).key@ by {
        assert(next[a] == es[if a < i { a } else { a + 1 }]);
        assert(next[b] == es[if b < i { b } else { b + 1 }]);
    }
    let init = es.drop_last();
    let k = es[i].key@;
    lemma_unique_init(es);
    if i == es.len() - 1 {
        assert(next =~= init);
        assert forall|a: int| 0 <= a < init.len() implies (#[trigger] init[a]).key@ != k by {
            assert(init[a] == es[a]);
        }
        lemma_absent(init, k);
        assert(entries_map(next) =~= entries_map(es).remove(k));
    } else {
        assert(init[i] == es[i]);
        lemma_remove(init, i);
        assert(next.drop_last() =~= init.remove(i));
        assert(next.last() == es.last());
        assert(es.last() == es[es.len() - 1]);
        assert(es.last().key@ != k);
        assert(entries_map(next) =~= entries_map(es).remove(k));
    }
}

impl View for Attributes {
    type V = Map<KeyId, Object>;

    closed spec fn view(&self) -> Map<KeyId, Object> {
        entries_map(self.entries@)
    }
}

impl Attributes {
    /// The table is well formed: no key stands twice.
    pub closed spec fn wf(&self) -> bool {
        unique_keys(self.entries@)
    }

    /// The values of the table are cells of a store with `len` cells.
    pub open spec fn within(&self, len: int) -> bool {
        forall|k: KeyId| #[trigger] self@.dom().contains(k) ==> 0 <= self@[k].id < len
    }

    /// An empty table.
    pub fn new() -> (t: Attributes)
        ensures
            t.wf(),
            t@ == Map::<KeyId, Object>::empty(),
    {
        Attributes { entries: Vec::new() }
    }

    /// Where the key stands among the entries.
    fn position(&self, key: &StoredKey) -> (r: Option<usize>)
        ensures
            match r {
                Some(i) => i < self.entries.len() && self.entries[i as int].key@ == key@,
                None => forall|i: int|
                    0 <= i < self.entries.len() ==> (#[trigger] self.entries[i]).key@ != key@,
            },
    {
        let mut i: usize = 0;
        while i < self.entries.len()
            invariant
                i <= self.entries.len(),
                forall|j: int| 0 <= j < i ==> (#[trigger] self.entries[j]).key@ != key@,
            decreases self.entries.len() - i,
        {
            if self.entries[i].key.same(key) {
                return Some(i);
            }
            i += 1;
        }
        None
    }

    /// The value stored under `key`, if any.
    pub fn get(&self, key: &StoredKey) -> (r: Option<Object>)
        requires
            self.wf(),
        ensures
            r == if self@.dom().contains(key@) {
                Some(self@[key@])
            } else {
                None
            },
    {
        match self.position(key) {
            Some(i) => {
                proof {
                    lemma_present(self.entries@, i as int);
                }
                Some(self.entries[i].value)
            },
            None => {
                proof {
                    lemma_absent(self.entries@, key@);
                }
                None
            },
        }
    }

    /// Stores `value` under `key`, in place of what was there.
    pub fn insert(&mut self, key: StoredKey, value: Object)
        requires
            old(self).wf(),
        ensures
            final(self).wf(),
            final(self)@ == old(self)@.insert(key@, value),
    {
        match self.position(&key) {
            Some(i) => {
                let entry = Entry { key, value };
                proof {
                    lemma_update(self.entries@, i as int, entry);
                }
                self.entries.set(i, entry);
            },
            None => {
                let entry = Entry { key, value };
                proof {
                    let next = self.entries@.push(entry);
                    assert(next.drop_last() =~= self.entries@);
                    assert forall|a: int, b: int| 0 <= a < b < next.len() implies (
                    #[trigger] next[a]).key@ != (#[trigger] next[b]).key@ by {
                        if b < self.entries@.len() {
                            assert(next[a] == self.entries@[a]);
                            assert(next[b] == self.entries@[b]);
                        } else {
                            assert(next[a] == self.entries@[a]);
                        }
                    }
                }
                self.entries.push(entry);
            },
        }
    }

    /// Takes out what is stored under `key` and hands it back.
    pub fn remove(&mut self, key: &StoredKey) -> (r: Option<Object>)
        requires
            old(self).wf(),
        ensures
            final(self).wf(),
            final(self)@ == old(self)@.remove(key@),
            r == if old(self)@.dom().contains(key@) {
                Some(old(self)@[key@])
            } else {
                None
            },
    {
        match self.position(key) {
            Some(i) => {
                proof {
                    lemma_present(self.entries@, i as int);
                    lemma_remove(self.entries@, i as int);
                }
                let entry = self.entries.remove(i);
                Some(entry.value)
            },
            None => {
                proof {
                    lemma_absent(self.entries@, key@);
                    assert(self@.remove(key@) =~= self@);
                }
                None
            },
        }
    }

    /// How many attributes the table holds.
    pub fn len(&self) -> (n: usize)
        requires
            self.wf(),
        ensures
            n == self@.dom().len(),
    {
        proof {
            Self::lemma_len(self.entries@);
        }
        self.entries.len()
    }

    proof fn lemma_len(es: Seq<Entry>)
        requires
            unique_keys(es),
        ensures
            entries_map(es).dom().finite(),
            entries_map(es).dom().len() == es.len(),
        decreases es.len(),
    {
        if es.len() > 0 {
            let init = es.drop_last();
            lemma_unique_init(es);
            Self::lemma_len(init);
            assert forall|a: int| 0 <= a < init.len() implies (#[trigger] init[a]).key@
                != es.last().key@ by {
                assert(init[a] == es[a]);
                assert(es.last() == es[es.len() - 1]);
            }
            lemma_absent(init, es.last().key@);
        }
    }

    /// The key and value at a position below [`Attributes::len`]. Each key
    /// of the table stands at one position.
    pub fn entry(&self, i: usize) -> (e: &Entry)
        requires
            self.wf(),
            i < self@.dom().len(),
        ensures
            self@.dom().contains(e.key@),
            self@[e.key@] == e.value,
            *e == self.spec_entry(i as int),
    {
        proof {
            Self::lemma_len(self.entries@);
            lemma_present(self.entries@, i as int);
        }
        &self.entries[i]
    }

    /// The entry at a position.
    pub closed spec fn spec_entry(&self, i: int) -> Entry {
        self.entries@[i]
    }

    /// Each key of the table stands at a position below its length, and
    /// at no two.
    pub proof fn lemma_entries(&self)
        requires
            self.wf(),
        ensures
            self@.dom().finite(),
            forall|k: KeyId| #[trigger]
                self@.dom().contains(k) ==> exists|i: int|
                    0 <= i < self@.dom().len() && (#[trigger] self.spec_entry(i)).key@ == k,
            forall|i: int, j: int|
                0 <= i < j < self@.dom().len() ==> (#[trigger] self.spec_entry(i)).key@ != (
                #[trigger] self.spec_entry(j)).key@,
    {
        Self::lemma_len(self.entries@);
        assert forall|k: KeyId| #[trigger] self@.dom().contains(k) implies exists|i: int|
            0 <= i < self@.dom().len() && (#[trigger] self.spec_entry(i)).key@ == k by {
            lemma_domain(self.entries@, k);
            let i = choose|i: int| 0 <= i < self.entries@.len() && (#[trigger] self.entries@[i]).key@ == k;
            assert(self.spec_entry(i).key@ == k);
        }
    }

    /// The key at a position below the length is a key of the table.
    pub proof fn lemma_entry_in_table(&self, i: int)
        requires
            self.wf(),
            0 <= i < self@.dom().len(),
        ensures
            self@.dom().contains(self.spec_entry(i).key@),
            self@[self.spec_entry(i).key@] == self.spec_entry(i).value,
    {
        Self::lemma_len(self.entries@);
        lemma_present(self.entries@, i);
    }

    /// A table with the same keys and values.
    pub fn duplicate(&self) -> (t: Attributes)
        requires
            self.wf(),
        ensures
            t.wf(),
            t@ == self@,
    {
        let mut entries: Vec<Entry> = Vec::new();
        let mut i: usize = 0;
        while i < self.entries.len()
            invariant
                i <= self.entries.len(),
                entries.len() == i,
                forall|j: int|
                    0 <= j < i ==> (#[trigger] entries[j]).key@ == self.entries[j].key@
                        && entries[j].value == self.entries[j].value,
            decreases self.entries.len() - i,
        {
            let e = &self.entries[i];
            entries.push(Entry { key: e.key.duplicate(), value: e.value });
            i += 1;
        }
        proof {
            Self::lemma_same_map(self.entries@, entries@);
            assert forall|a: int, b: int| 0 <= a < b < entries.len() implies (
            #[trigger] entries[a]).key@ != (#[trigger] entries[b]).key@ by {
                assert(self.entries[a].key@ != self.entries[b].key@);
            }
        }
        Attributes { entries }
    }

    proof fn lemma_same_map(a: Seq<Entry>, b: Seq<Entry>)
        requires
            a.len() == b.len(),
            forall|j: int|
                0 <= j < a.len() ==> (#[trigger] b[j]).key@ == a[j].key@ && b[j].value
                    == a[j].value,
        ensures
            entries_map(a) == entries_map(b),
        decreases a.len(),
    {
        if a.len() > 0 {
            let a_init = a.drop_last();
            let b_init = b.drop_last();
            assert forall|j: int| 0 <= j < a_init.len() implies (#[trigger] b_init[j]).key@ == a_init[j].key@
                && b_init[j].value == a_init[j].value by {
                assert(b_init[j] == b[j]);
                assert(a_init[j] == a[j]);
            }
            Self::lemma_same_map(a_init, b_init);
            assert(b[b.len() - 1].key@ == a[a.len() - 1].key@);
        }
    }
}

} // verus!
