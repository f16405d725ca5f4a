//! An in-memory record store keyed by handle, with put, get and delete.

use crate::record::{FieldValue, Item, ItemView};
use vstd::prelude::*;
use vstd::slice::slice_to_vec;

verus! {

/// The model of a store: each live handle's record.
pub type StoreView = Map<Seq<char>, ItemView>;

/// The map that a list of (handle, record) entries stands for.
pub open spec fn map_of(entries: Seq<(Seq<char>, ItemView)>) -> StoreView
    decreases entries.len(),
{
    if entries.len() == 0 {
        Map::empty()
    } else {
        map_of(entries.drop_last()).insert(entries.last().0, entries.last().1)
    }
}

/// No two entries share a handle.
pub open spec fn keys_unique(entries: Seq<(Seq<char>, ItemView)>) -> bool {
    forall|i: int, j: int|
        0 <= i < entries.len() && 0 <= j < entries.len() && i != j ==> entries[i].0 != entries[j].0
}

proof fn lemma_map_of_contains(entries: Seq<(Seq<char>, ItemView)>, key: Seq<char>)
    ensures
        map_of(entries).contains_key(key) <==> exists|i: int|
            0 <= i < entries.len() && (#[trigger] entries[i]).0 == key,
    decreases entries.len(),
{
    if entries.len() > 0 {
        let rest = entries.drop_last();
        lemma_map_of_contains(rest, key);
        if map_of(rest).contains_key(key) {
            let i = choose|i: int| 0 <= i < rest.len() && (#[trigger] rest[i]).0 == key;
            assert(entries[i] == rest[i]);
        }
        if exists|i: int| 0 <= i < entries.len() && (#[trigger] entries[i]).0 == key {
            let i = choose|i: int| 0 <= i < entries.len() && (#[trigger] entries[i]).0 == key;
            if i < entries.len() - 1 {
                assert(rest[i] == entries[i]);
            }
        }
    }
}

proof fn lemma_map_of_index(entries: Seq<(Seq<char>, ItemView)>, i: int)
    requires
        keys_unique(entries),
        0 <= i < entries.len(),
    ensures
        map_of(entries).contains_key(entries[i].0),
        map_of(entries)[entries[i].0] == entries[i].1,
    decreases entries.len(),
{
    if i < entries.len() - 1 {
        let rest = entries.drop_last();
        assert(rest[i] == entries[i]);
        assert(keys_unique(rest)) by {
            assert forall|a: int, b: int|
                0 <= a < rest.len() && 0 <= b < rest.len() && a != b implies rest[a].0 != rest[b].0 by {
                assert(rest[a] == entries[a] && rest[b] == entries[b]);
            }
        }
        lemma_map_of_index(rest, i);
        assert(entries.last().0 != entries[i].0);
    }
}

proof fn lemma_map_of_remove(entries: Seq<(Seq<char>, ItemView)>, i: int)
    requires
        keys_unique(entries),
        0 <= i < entries.len(),
    ensures
        keys_unique(entries.remove(i)),
        map_of(entries.remove(i)) == map_of(entries).remove(entries[i].0),
    decreases entries.len(),
{
    let key = entries[i].0;
    let removed = entries.remove(i);
    assert(keys_unique(removed)) by {
        assert forall|a: int, b: int|
            0 <= a < removed.len() && 0 <= b < removed.len() && a != b implies removed[a].0
            != removed[b].0 by {
            let a2 = if a < i { a } else { a + 1 };
            let b2 = if b < i { b } else { b + 1 };
            assert(removed[a] == entries[a2] && removed[b] == entries[b2]);
        }
    }
    let rest = entries.drop_last();
    assert(keys_unique(rest)) by {
        assert forall|a: int, b: int|
            0 <= a < rest.len() && 0 <= b < rest.len() && a != b implies rest[a].0 != rest[b].0 by {
            assert(rest[a] == entries[a] && rest[b] == entries[b]);
        }
    }
    if i == entries.len() - 1 {
        assert(removed =~= rest);
        lemma_map_of_contains(rest, key);
        assert forall|j: int| 0 <= j < rest.len() implies (#[trigger] rest[j]).0 != key by {
            assert(rest[j] == entries[j]);
        }
        assert(!map_of(rest).contains_key(key));
        assert(map_of(removed) =~= map_of(entries).remove(key));
    } else {
        lemma_map_of_remove(rest, i);
        assert(removed.drop_last() =~= rest.remove(i));
        assert(removed.last() == entries.last());
        assert(entries.last().0 != key);
        assert(map_of(removed) =~= map_of(entries).remove(key));
    }
}

/// Records held in memory, at most one per handle.
pub struct MemoryStore {
    entries: Vec<(String, Item)>,
}

impl MemoryStore {
    /// The entries as (handle, record) models, in order.
    pub closed spec fn entries_view(&self) -> Seq<(Seq<char>, ItemView)> {
        self.entries@.map_values(|e: (String, Item)| (e.0@, e.1@))
    }

    /// No two entries share a handle.
    pub closed spec fn wf(&self) -> bool {
        keys_unique(self.entries_view())
    }
}

impl View for MemoryStore {
    type V = StoreView;

    closed spec fn view(&self) -> StoreView {
        map_of(self.entries_view())
    }
}

/// A field value with the same model.
fn copy_field(v: &FieldValue) -> (r: FieldValue)
    ensures
        r@ == v@,
{
    match v {
        FieldValue::S(s) => FieldValue::S(s.clone()),
        FieldValue::B(b) => FieldValue::B(slice_to_vec(b.as_slice())),
        FieldValue::Other => FieldValue::Other,
    }
}

/// A record with the same model.
fn copy_item(item: &Item) -> (r: Item)
    ensures
        r@ == item@,
{
    let mut fields: Vec<(String, FieldValue)> = Vec::new();
    let n = item.fields.len();
    let mut i: usize = 0;
    while i < n
        invariant
            n == item.fields@.len(),
            i <= n,
            fields@.len() == i,
            forall|j: int|
                0 <= j < i ==> (#[trigger] fields@[j]).0@ == item.fields@[j].0@ && fields@[j].1@
                    == item.fields@[j].1@,
        decreases n - i,
    {
        let name = item.fields[i].0.clone();
        let value = copy_field(&item.fields[i].1);
        fields.push((name, value));
        i = i + 1;
    }
    let r = Item { fields };
    assert(r@ =~= item@);
    r
}

impl MemoryStore {
    /// An empty store.
    pub fn new() -> (r: MemoryStore)
        ensures
            r.wf(),
            r@ == StoreView::empty(),
    {
        let r = MemoryStore { entries: Vec::new() };
        assert(r.entries_view() =~= Seq::<(Seq<char>, ItemView)>::empty());
        r
    }

    /// The position of the entry for `id`, if there is one.
    fn find(&self, id: &str) -> (r: Option<usize>)
        ensures
            match r {
                Some(i) => i < self.entries_view().len() && self.entries_view()[i as int].0 == id@,
                None => forall|j: int|
                    0 <= j < self.entries_view().len() ==> (#[trigger] self.entries_view()[j]).0
                        != id@,
            },
    {
        let wanted = id.to_owned();
        let n = self.entries.len();
        let mut i: usize = 0;
        while i < n
            invariant
                n == self.entries@.len(),
                i <= n,
                wanted@ == id@,
                forall|j: int|
                    0 <= j < i ==> (#[trigger] self.entries_view()[j]).0 != id@,
            decreases n - i,
        {
            if self.entries[i].0 == wanted {
                return Some(i);
            }
            i = i + 1;
        }
        None
    }

    /// Whether a record is stored under `id`.
    pub fn contains(&self, id: &str) -> (r: bool)
        requires
            self.wf(),
        ensures
            r == self@.contains_key(id@),
    {
        proof {
            lemma_map_of_contains(self.entries_view(), id@);
        }
        self.find(id).is_some()
    }

    /// A copy of the record stored under `id`, if any.
    pub fn get(&self, id: &str) -> (r: Option<Item>)
        requires
            self.wf(),
        ensures
            match r {
                Some(item) => self@.contains_key(id@) && item@ == self@[id@],
                None => !self@.contains_key(id@),
            },
    {
        proof {
            lemma_map_of_contains(self.entries_view(), id@);
        }
        match self.find(id) {
            Some(i) => {
                proof {
                    lemma_map_of_index(self.entries_view(), i as int);
                }
                Some(copy_item(&self.entries[i].1))
            },
            None => None,
        }
    }

    /// Removes the record stored under `id`, if any.
    pub fn delete(&mut self, id: &str)
        requires
            old(self).wf(),
        ensures
            final(self).wf(),
            final(self)@ == old(self)@.remove(id@),
    {
        proof {
            lemma_map_of_contains(self.entries_view(), id@);
        }
        match self.find(id) {
            Some(i) => {
                proof {
                    lemma_map_of_remove(self.entries_view(), i as int);
                }
                let ghost before = self.entries_view();
                self.entries.remove(i);
                assert(self.entries_view() =~= before.remove(i as int));
            },
            None => {
                assert(self@ =~= self@.remove(id@));
            },
        }
    }

    /// Stores `item` under `id`, in place of any record already there.
    pub fn put(&mut self, id: String, item: Item)
        requires
            old(self).wf(),
        ensures
            final(self).wf(),
            final(self)@ == old(self)@.insert(id@, item@),
    {
        self.delete(id.as_str());
        let ghost before = self.entries_view();
        proof {
            lemma_map_of_contains(before, id@);
        }
        self.entries.push((id, item));
        assert(self.entries_view() =~= before.push((id@, item@)));
        assert(self.entries_view().drop_last() =~= before);
    }
}

} // verus!
