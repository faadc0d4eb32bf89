//! A table from keys to values in which no key occurs twice.
//!
//! The sub-states keep their pending requests, results and stored content in
//! such tables. A table stands for a finite map, its view.

use vstd::prelude::*;

verus! {

/// What a table can be keyed by: a value with an identity that can be tested.
pub trait Key: Sized {
    /// The identity of a key as a mathematical value.
    type Id;

    /// The identity of this key.
    spec fn id(&self) -> Self::Id;

    /// Whether two keys have the same identity.
    fn same(&self, other: &Self) -> (same: bool)
        ensures
            same == (self.id() == other.id()),
    ;
}

impl Key for String {
    type Id = Seq<char>;

    open spec fn id(&self) -> Seq<char> {
        self@
    }

    fn same(&self, other: &Self) -> (same: bool) {
        *self == *other
    }
}

/// The map that a list of keys and the list of their values stand for; where
/// an identity occurs twice, the later position counts.
spec fn map_of<K: Key, V: View>(keys: Seq<K>, values: Seq<V>) -> Map<K::Id, V::V>
    decreases keys.len(),
{
    if keys.len() == 0 || values.len() != keys.len() {
        Map::empty()
    } else {
        map_of(keys.drop_last(), values.drop_last()).insert(keys.last().id(), values.last()@)
    }
}

/// No identity occurs twice among the keys.
spec fn distinct<K: Key>(keys: Seq<K>) -> bool {
    forall|i: int, j: int|
        0 <= i < j < keys.len() ==> #[trigger] keys[i].id() != #[trigger] keys[j].id()
}

/// Distinct keys stay distinct without the last of them.
proof fn lemma_distinct_drop_last<K: Key>(keys: Seq<K>)
    requires
        distinct(keys),
        keys.len() > 0,
    ensures
        distinct(keys.drop_last()),
{
    assert forall|a: int, b: int| 0 <= a < b < keys.drop_last().len() implies 
        #[trigger] keys.drop_last()[a].id() != #[trigger] keys.drop_last()[b].id() by {
        assert(keys[a].id() != keys[b].id());
    }
}

/// The map holds exactly the identities of the keys.
proof fn lemma_map_of_dom<K: Key, V: View>(keys: Seq<K>, values: Seq<V>, id: K::Id)
    requires
        keys.len() == values.len(),
    ensures
        map_of(keys, values).contains_key(id) <==> exists|i: int|
            0 <= i < keys.len() && #[trigger] keys[i].id() == id,
    decreases keys.len(),
{
    if keys.len() > 0 {
        lemma_map_of_dom(keys.drop_last(), values.drop_last(), id);
        if exists|i: int| 0 <= i < keys.len() && #[trigger] keys[i].id() == id {
            let i = choose|i: int| 0 <= i < keys.len() && #[trigger] keys[i].id() == id;
            if i < keys.len() - 1 {
                assert(keys.drop_last()[i].id() == id);
            }
        }
    }
}

/// Among distinct keys, each key maps to the value at its own position.
proof fn lemma_map_of_at<K: Key, V: View>(keys: Seq<K>, values: Seq<V>, i: int)
    requires
        keys.len() == values.len(),
        distinct(keys),
        0 <= i < keys.len(),
    ensures
        map_of(keys, values).contains_key(keys[i].id()),
        map_of(keys, values)[keys[i].id()] == values[i]@,
    decreases keys.len(),
{
    if i < keys.len() - 1 {
        lemma_distinct_drop_last(keys);
        lemma_map_of_at(keys.drop_last(), values.drop_last(), i);
    }
}

/// Among distinct keys, a new value at a position replaces the value of that
/// key in the map.
proof fn lemma_map_of_update<K: Key, V: View>(keys: Seq<K>, values: Seq<V>, i: int, value: V)
    requires
        keys.len() == values.len(),
        distinct(keys),
        0 <= i < keys.len(),
    ensures
        map_of(keys, values.update(i, value)) == map_of(keys, values).insert(
            keys[i].id(),
            value@,
        ),
{
    let before = map_of(keys, values);
    let after = map_of(keys, values.update(i, value));
    assert forall|id: K::Id| #[trigger]
        after.contains_key(id) == before.insert(keys[i].id(), value@).contains_key(id) by {
        lemma_map_of_dom(keys, values, id);
        lemma_map_of_dom(keys, values.update(i, value), id);
    }
    assert forall|id: K::Id| #[trigger] after.contains_key(id) implies after[id] == before.insert(
        keys[i].id(),
        value@,
    )[id] by {
        lemma_map_of_dom(keys, values.update(i, value), id);
        let j = choose|j: int| 0 <= j < keys.len() && #[trigger] keys[j].id() == id;
        lemma_map_of_at(keys, values.update(i, value), j);
        lemma_map_of_at(keys, values, j);
    }
    assert(after =~= before.insert(keys[i].id(), value@));
}

/// Among distinct keys, taking a position out takes that key out of the map.
proof fn lemma_map_of_remove<K: Key, V: View>(keys: Seq<K>, values: Seq<V>, i: int)
    requires
        keys.len() == values.len(),
        distinct(keys),
        0 <= i < keys.len(),
    ensures
        distinct(keys.remove(i)),
        map_of(keys.remove(i), values.remove(i)) == map_of(keys, values).remove(keys[i].id()),
{
    let before = map_of(keys, values);
    let short_keys = keys.remove(i);
    let short_values = values.remove(i);
    let after = map_of(short_keys, short_values);
    assert forall|id: K::Id| #[trigger]
        after.contains_key(id) == before.remove(keys[i].id()).contains_key(id) by {
        lemma_map_of_dom(keys, values, id);
        lemma_map_of_dom(short_keys, short_values, id);
        if before.remove(keys[i].id()).contains_key(id) {
            let j = choose|j: int| 0 <= j < keys.len() && #[trigger] keys[j].id() == id;
            let a = if j < i {
                j
            } else {
                j - 1
            };
            assert(short_keys[a].id() == id);
        }
    }
    assert forall|id: K::Id| #[trigger] after.contains_key(id) implies after[id] == before.remove(
        keys[i].id(),
    )[id] by {
        lemma_map_of_dom(short_keys, short_values, id);
        let a = choose|a: int| 0 <= a < short_keys.len() && #[trigger] short_keys[a].id() == id;
        let a0 = if a < i {
            a
        } else {
            a + 1
        };
        lemma_map_of_at(short_keys, short_values, a);
        lemma_map_of_at(keys, values, a0);
    }
    assert(after =~= before.remove(keys[i].id()));
}

/// Among distinct keys, the map has as many entries as there are keys.
proof fn lemma_map_of_len<K: Key, V: View>(keys: Seq<K>, values: Seq<V>)
    requires
        keys.len() == values.len(),
        distinct(keys),
    ensures
        map_of(keys, values).dom().finite(),
        map_of(keys, values).dom().len() == keys.len(),
    decreases keys.len(),
{
    if keys.len() > 0 {
        lemma_distinct_drop_last(keys);
        lemma_map_of_len(keys.drop_last(), values.drop_last());
        lemma_map_of_dom(keys.drop_last(), values.drop_last(), keys.last().id());
    }
}

/// A table from keys to values.
pub struct Table<K: Key, V: View> {
    keys: Vec<K>,
    values: Vec<V>,
}

impl<K: Key, V: View> View for Table<K, V> {
    type V = Map<K::Id, V::V>;

    closed spec fn view(&self) -> Map<K::Id, V::V> {
        map_of(self.keys@, self.values@)
    }
}

impl<K: Key, V: View> Table<K, V> {
    /// Every key has its value, and no identity occurs twice.
    pub closed spec fn wf(&self) -> bool {
        &&& self.keys@.len() == self.values@.len()
        &&& distinct(self.keys@)
    }

    /// The empty table.
    pub fn new() -> (table: Self)
        ensures
            table.wf(),
            table@ == Map::<K::Id, V::V>::empty(),
    {
        Table { keys: Vec::new(), values: Vec::new() }
    }

    /// The position of `key`, if the table holds it.
    fn position(&self, key: &K) -> (found: Option<usize>)
        requires
            self.wf(),
        ensures
            found is Some <==> self@.contains_key(key.id()),
            found matches Some(i) ==> i < self.keys@.len() && self.keys@[i as int].id()
                == key.id(),
    {
        proof {
            lemma_map_of_dom(self.keys@, self.values@, key.id());
        }
        let mut i: usize = 0;
        while i < self.keys.len()
            invariant
                i <= self.keys.len(),
                self.keys@.len() == self.values@.len(),
                forall|j: int| 0 <= j < i ==> self.keys@[j].id() != key.id(),
                self@.contains_key(key.id()) <==> exists|j: int|
                    0 <= j < self.keys@.len() && #[trigger] self.keys@[j].id() == key.id(),
            decreases self.keys.len() - i,
        {
            if self.keys[i].same(key) {
                return Some(i);
            }
            i = i + 1;
        }
        None
    }

    /// Whether the table holds `key`.
    pub fn contains_key(&self, key: &K) -> (held: bool)
        requires
            self.wf(),
        ensures
            held == self@.contains_key(key.id()),
    {
        self.position(key).is_some()
    }

    /// The value of `key`, if the table holds it.
    pub fn get(&self, key: &K) -> (found: Option<&V>)
        requires
            self.wf(),
        ensures
            found is Some <==> self@.contains_key(key.id()),
            found matches Some(value) ==> value@ == self@[key.id()],
    {
        match self.position(key) {
            Some(i) => {
                proof {
                    lemma_map_of_at(self.keys@, self.values@, i as int);
                }
                Some(&self.values[i])
            },
            None => None,
        }
    }

    /// The number of keys.
    pub fn len(&self) -> (count: usize)
        requires
            self.wf(),
        ensures
            self@.dom().finite(),
            count == self@.dom().len(),
    {
        proof {
            lemma_map_of_len(self.keys@, self.values@);
        }
        self.keys.len()
    }

    /// Gives `key` the value `value`, whether or not the table held the key.
    pub fn insert(&mut self, key: K, value: V)
        requires
            old(self).wf(),
        ensures
            final(self).wf(),
            final(self)@ == old(self)@.insert(key.id(), value@),
    {
        match self.position(&key) {
            Some(i) => {
                proof {
                    lemma_map_of_update(self.keys@, self.values@, i as int, value);
                }
                self.values.set(i, value);
            },
            None => {
                proof {
                    lemma_map_of_dom(self.keys@, self.values@, key.id());
                    assert(self.keys@.push(key).drop_last() =~= self.keys@);
                    assert(self.values@.push(value).drop_last() =~= self.values@);
                }
                self.keys.push(key);
                self.values.push(value);
            },
        }
    }

    /// Takes `key` and its value out, if the table holds it.
    pub fn remove(&mut self, key: &K)
        requires
            old(self).wf(),
        ensures
            final(self).wf(),
            final(self)@ == old(self)@.remove(key.id()),
    {
        match self.position(key) {
            Some(i) => {
                proof {
                    lemma_map_of_remove(self.keys@, self.values@, i as int);
                }
                self.keys.remove(i);
                self.values.remove(i);
            },
            None => {
                assert(self@.remove(key.id()) =~= self@);
            },
        }
    }
}

} // verus!
