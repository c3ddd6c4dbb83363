//! A mapping from text keys to values that can be looked up by key and
//! walked through in the order in which its keys were first filed.

use crate::matching::texts;
use vstd::hash_map::StringHashMap;
use vstd::prelude::*;

verus! {

/// A hash map keyed by strings, with the keys kept beside it in the order
/// of their first insertion.
#[verifier::reject_recursive_types(V)]
pub struct Table<V> {
    map: StringHashMap<V>,
    keys: Vec<String>,
}

impl<V> View for Table<V> {
    type V = Map<Seq<char>, V>;

    /// The mapping that the table holds.
    closed spec fn view(&self) -> Map<Seq<char>, V> {
        self.map@
    }
}

impl<V> Table<V> {
    /// The keys of the table in the order in which they were first filed.
    pub closed spec fn key_order(&self) -> Seq<Seq<char>> {
        texts(self.keys@)
    }

    /// The keys beside the map are the keys of the map, each once.
    pub open spec fn wf(&self) -> bool {
        &&& self.key_order().no_duplicates()
        &&& forall|key: Seq<char>| self@.contains_key(key) <==> self.key_order().contains(key)
    }

    /// The table that holds nothing.
    pub fn new() -> (table: Table<V>)
        ensures
            table@ == Map::<Seq<char>, V>::empty(),
            table.key_order() == Seq::<Seq<char>>::empty(),
            table.wf(),
    {
        Table { map: StringHashMap::new(), keys: Vec::new() }
    }

    /// Files `value` under `key`, replacing what was filed there. A key
    /// that is new to the table goes to the end of the key order; one that
    /// is not keeps its place.
    pub fn insert(&mut self, key: String, value: V)
        requires
            old(self).wf(),
        ensures
            final(self)@ == old(self)@.insert(key@, value),
            final(self).key_order() == if old(self)@.contains_key(key@) {
                old(self).key_order()
            } else {
                old(self).key_order().push(key@)
            },
            final(self).wf(),
    {
        if !self.map.contains_key(key.as_str()) {
            let copy = key.clone();
            self.keys.push(copy);
            assert(texts(self.keys@) =~= texts(old(self).keys@).push(key@));
        }
        self.map.insert(key, value);
        proof {
            let before = old(self).key_order();
            let after = self.key_order();
            assert forall|k: Seq<char>| self@.contains_key(k) <==> after.contains(k) by {
                if old(self)@.contains_key(key@) {
                } else {
                    if before.contains(k) {
                        let i = choose|i: int| 0 <= i < before.len() && before[i] == k;
                        assert(after[i] == k);
                    }
                    assert(after[before.len() as int] == key@);
                }
            }
            assert forall|i: int, j: int| 0 <= i < j < after.len() implies after[i] != after[j] by {
                if !old(self)@.contains_key(key@) {
                    assert(after =~= before.push(key@));
                    if j == before.len() {
                        assert(before.contains(before[i]));
                    }
                }
            }
        }
    }

    /// The value filed under `key`, if any.
    pub fn get<'a>(&'a self, key: &str) -> (value: Option<&'a V>)
        ensures
            match value {
                Some(v) => self@.contains_key(key@) && *v == self@[key@],
                None => !self@.contains_key(key@),
            },
    {
        self.map.get(key)
    }

    /// Whether anything is filed under `key`.
    pub fn contains_key(&self, key: &str) -> (present: bool)
        ensures
            present == self@.contains_key(key@),
    {
        self.map.contains_key(key)
    }

    /// The number of keys.
    pub fn len(&self) -> (count: usize)
        ensures
            count == self@.len(),
    {
        self.map.len()
    }

    /// Whether the table holds nothing.
    pub fn is_empty(&self) -> (empty: bool)
        ensures
            empty == self@.is_empty(),
    {
        self.map.is_empty()
    }

    /// The keys of the table, each once, in the order in which they were
    /// first filed. Together with [`Table::get`] this walks every entry.
    pub fn keys(&self) -> (keys: &Vec<String>)
        ensures
            texts(keys@) == self.key_order(),
    {
        &self.keys
    }
}

} // verus!
