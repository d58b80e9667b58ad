//! Configuration values and their merge.
//!
//! [`ConfigValue`] is the tree that sources produce and the engine merges.
//! Its view is a [`Tree`]; every contract here is stated over that view.

use vstd::prelude::*;
use crate::json::copy_number;
use crate::model::{
    empty_record, lemma_merge_all_push, lemma_merge_records, lemma_record_at,
    lemma_record_push, lemma_record_update, lemma_take_next, merge_all_tree, merge_tree, merged_entry,
    merged_record, record_of, Tree,
};

verus! {

/// A configuration value: the common form of what every source produces.
#[derive(Debug, PartialEq)]
pub enum ConfigValue {
    Null,
    Bool(bool),
    Number(serde_json::Number),
    String(String),
    Array(Vec<ConfigValue>),
    Object(ObjectMap),
}

/// The entries of an object: keys with their values, no key twice.
///
/// The view is a map, so to every contract the order of the entries plays no
/// role. `==` compares the entries in their order: keys that were there
/// stay where they were, keys that are new come last.
#[derive(Debug, PartialEq)]
pub struct ObjectMap {
    pub(crate) entries: Vec<(String, ConfigValue)>,
}

/// The keys of a list of entries, in the list's order.
pub closed spec fn entry_keys(entries: Seq<(String, ConfigValue)>) -> Seq<Seq<char>> {
    Seq::new(entries.len(), |i: int| entries[i].0@)
}

/// The values of a list of entries, in the list's order.
pub closed spec fn entry_trees(entries: Seq<(String, ConfigValue)>) -> Seq<Tree>
    decreases entries,
{
    Seq::new(
        entries.len(),
        |i: int|
            if 0 <= i < entries.len() {
                entries[i].1@
            } else {
                Tree::Null
            },
    )
}

/// The trees of a list of values, in the list's order.
pub open spec fn item_trees(items: Seq<ConfigValue>) -> Seq<Tree>
    decreases items,
{
    Seq::new(
        items.len(),
        |i: int|
            if 0 <= i < items.len() {
                items[i]@
            } else {
                Tree::Null
            },
    )
}

impl View for ConfigValue {
    type V = Tree;

    open spec fn view(&self) -> Tree
        decreases self,
    {
        match self {
            ConfigValue::Null => Tree::Null,
            ConfigValue::Bool(b) => Tree::Bool(*b),
            ConfigValue::Number(n) => Tree::Number(*n),
            ConfigValue::String(s) => Tree::Text(s@),
            ConfigValue::Array(items) => Tree::List(item_trees(items@)),
            ConfigValue::Object(map) => Tree::Record(map@),
        }
    }
}

impl View for ObjectMap {
    type V = Map<Seq<char>, Tree>;

    closed spec fn view(&self) -> Map<Seq<char>, Tree>
        decreases self,
    {
        record_of(entry_keys(self.entries@), entry_trees(self.entries@))
    }
}

/// The index of the entry with key `key`, if there is one.
pub(crate) fn position_in(entries: &Vec<(String, ConfigValue)>, key: &String) -> (r: Option<usize>)
    ensures
        match r {
            Some(i) => i < entries@.len() && entry_keys(entries@)[i as int] == key@,
            None => !entry_keys(entries@).contains(key@),
        },
{
    let mut i: usize = 0;
    while i < entries.len()
        invariant
            i <= entries@.len(),
            forall|j: int| 0 <= j < i ==> entry_keys(entries@)[j] != key@,
        decreases entries@.len() - i,
    {
        if entries[i].0 == *key {
            return Some(i);
        }
        i += 1;
    }
    None
}

impl ObjectMap {
    #[verifier::type_invariant]
    pub closed spec fn distinct_keys(self) -> bool {
        entry_keys(self.entries@).no_duplicates()
    }

    /// What the view of an object is, for the other modules of the crate.
    pub(crate) proof fn lemma_view(&self)
        ensures
            self@ == record_of(entry_keys(self.entries@), entry_trees(self.entries@)),
            self.distinct_keys() == entry_keys(self.entries@).no_duplicates(),
    {
    }

    /// What the keys and trees of a list of entries are.
    pub(crate) proof fn lemma_entries(entries: Seq<(String, ConfigValue)>)
        ensures
            entry_keys(entries).len() == entries.len(),
            entry_trees(entries).len() == entries.len(),
            forall|i: int| 0 <= i < entries.len() ==> #[trigger] entry_keys(entries)[i] == entries[i].0@,
            forall|i: int| 0 <= i < entries.len() ==> #[trigger] entry_trees(entries)[i] == entries[i].1@,
    {
    }

    /// The object without keys.
    pub fn new() -> (r: Self)
        ensures
            r@ == Map::<Seq<char>, Tree>::empty(),
    {
        let r = ObjectMap { entries: Vec::new() };
        assert(r@ =~= Map::<Seq<char>, Tree>::empty());
        r
    }

    /// How many keys the object has.
    pub fn len(&self) -> (count: usize)
        ensures
            count == self@.len(),
            self@.dom().finite(),
    {
        proof {
            use_type_invariant(self);
            let keys = entry_keys(self.entries@);
            keys.unique_seq_to_set();
            vstd::seq_lib::seq_to_set_is_finite(keys);
            assert(self@.dom() =~= keys.to_set());
        }
        self.entries.len()
    }

    /// Whether the object has no keys.
    pub fn is_empty(&self) -> (empty: bool)
        ensures
            empty == (self@ == Map::<Seq<char>, Tree>::empty()),
    {
        let empty = self.entries.len() == 0;
        proof {
            let keys = entry_keys(self.entries@);
            if empty {
                assert(self@ =~= Map::<Seq<char>, Tree>::empty());
            } else {
                assert(keys[0] == keys[0]);
                assert(keys.contains(keys[0]));
                assert(self@.contains_key(keys[0]));
            }
        }
        empty
    }

    /// The keys of the object, each once.
    pub fn keys(&self) -> (keys: Vec<String>)
        ensures
            keys@.len() == self@.len(),
            forall|i: int, j: int| 0 <= i < j < keys@.len() ==> keys@[i]@ != keys@[j]@,
            forall|i: int| 0 <= i < keys@.len() ==> self@.contains_key(#[trigger] keys@[i]@),
            forall|k: Seq<char>|
                self@.contains_key(k) ==> exists|i: int| 0 <= i < keys@.len() && #[trigger] keys@[i]@ == k,
    {
        let ghost own = entry_keys(self.entries@);
        proof {
            use_type_invariant(self);
            own.unique_seq_to_set();
            vstd::seq_lib::seq_to_set_is_finite(own);
            assert(self@.dom() =~= own.to_set());
        }
        let mut keys: Vec<String> = Vec::new();
        let mut i: usize = 0;
        while i < self.entries.len()
            invariant
                i <= self.entries@.len(),
                keys@.len() == i,
                own == entry_keys(self.entries@),
                own.no_duplicates(),
                self@.len() == self.entries@.len(),
                forall|j: int| 0 <= j < i ==> keys@[j]@ == own[j],
            decreases self.entries@.len() - i,
        {
            keys.push(self.entries[i].0.clone());
            i += 1;
        }
        proof {
            assert forall|k: Seq<char>| self@.contains_key(k) implies exists|i: int|
                0 <= i < keys@.len() && #[trigger] keys@[i]@ == k by {
                let x = choose|x: int| 0 <= x < own.len() && own[x] == k;
                assert(keys@[x]@ == k);
            }
            assert forall|i: int| 0 <= i < keys@.len() implies self@.contains_key(#[trigger] keys@[i]@) by {
                assert(own[i] == keys@[i]@);
            }
            assert forall|i: int, j: int| 0 <= i < j < keys@.len() implies keys@[i]@ != keys@[j]@ by {
                assert(own[i] != own[j]);
            }
        }
        keys
    }

    /// Whether the object has the key `key`.
    pub fn contains_key(&self, key: &str) -> (r: bool)
        ensures
            r == self@.contains_key(key@),
    {
        let key = String::from_str(key);
        position_in(&self.entries, &key).is_some()
    }

    /// The value at `key`, if the object has that key.
    pub fn get(&self, key: &str) -> (r: Option<&ConfigValue>)
        ensures
            match r {
                Some(v) => self@.contains_key(key@) && v@ == self@[key@],
                None => !self@.contains_key(key@),
            },
    {
        let key = String::from_str(key);
        match position_in(&self.entries, &key) {
            Some(i) => {
                proof {
                    use_type_invariant(self);
                    lemma_record_at(entry_keys(self.entries@), entry_trees(self.entries@), i as int);
                }
                Some(&self.entries[i].1)
            },
            None => None,
        }
    }

    /// Sets the value at `key`, replacing the value that the key had.
    pub fn insert(&mut self, key: String, value: ConfigValue)
        ensures
            final(self)@ == old(self)@.insert(key@, value@),
    {
        let mut taken = ObjectMap { entries: Vec::new() };
        std::mem::swap(self, &mut taken);
        proof {
            use_type_invariant(&taken);
        }
        let mut entries = taken.entries;
        let ghost keys = entry_keys(entries@);
        let ghost trees = entry_trees(entries@);
        match position_in(&entries, &key) {
            Some(i) => {
                proof {
                    lemma_record_update(keys, trees, i as int, value@);
                }
                entries.set(i, (key, value));
                assert(entry_keys(entries@) =~= keys);
                assert(entry_trees(entries@) =~= trees.update(i as int, value@));
            },
            None => {
                proof {
                    lemma_record_push(keys, trees, key@, value@);
                }
                entries.push((key, value));
                assert(entry_keys(entries@) =~= keys.push(key@));
                assert(entry_trees(entries@) =~= trees.push(value@));
            },
        }
        *self = ObjectMap { entries };
    }
}

impl Clone for ConfigValue {
    /// A copy with the same tree.
    fn clone(&self) -> (r: Self)
        ensures
            r@ == self@,
        decreases self,
    {
        match self {
            ConfigValue::Null => ConfigValue::Null,
            ConfigValue::Bool(b) => ConfigValue::Bool(*b),
            ConfigValue::Number(n) => ConfigValue::Number(copy_number(n)),
            ConfigValue::String(s) => ConfigValue::String(s.clone()),
            ConfigValue::Array(items) => {
                let mut out: Vec<ConfigValue> = Vec::new();
                let mut i: usize = 0;
                while i < items.len()
                    invariant
                        self is Array,
                        self->Array_0 == *items,
                        i <= items@.len(),
                        out@.len() == i,
                        forall|j: int| 0 <= j < i ==> out@[j]@ == items@[j]@,
                    decreases items@.len() - i,
                {
                    assert(decreases_to!(*self => self->Array_0));
                    let item = items[i].clone();
                    out.push(item);
                    i += 1;
                }
                assert(item_trees(out@) =~= item_trees(items@));
                ConfigValue::Array(out)
            },
            ConfigValue::Object(map) => ConfigValue::Object(map.clone()),
        }
    }
}

impl Clone for ObjectMap {
    /// A copy with the same keys and values.
    fn clone(&self) -> (r: Self)
        ensures
            r@ == self@,
        decreases self,
    {
        proof {
            use_type_invariant(self);
        }
        let mut out: Vec<(String, ConfigValue)> = Vec::new();
        let mut i: usize = 0;
        while i < self.entries.len()
            invariant
                i <= self.entries@.len(),
                out@.len() == i,
                forall|j: int| 0 <= j < i ==> out@[j].0@ == self.entries@[j].0@,
                forall|j: int| 0 <= j < i ==> out@[j].1@ == self.entries@[j].1@,
            decreases self.entries@.len() - i,
        {
            let key = self.entries[i].0.clone();
            let value = self.entries[i].1.clone();
            out.push((key, value));
            i += 1;
        }
        assert(entry_keys(out@) =~= entry_keys(self.entries@));
        assert(entry_trees(out@) =~= entry_trees(self.entries@));
        ObjectMap { entries: out }
    }
}

/// The merge of `source` into `target`: a new value, whose tree is
/// `merge_tree` of the two trees.
///
/// Objects are merged key by key, and recursively where both hold an object
/// at a key. In every other case the result is a copy of `source`: arrays
/// are never merged element by element.
pub fn merge(target: &ConfigValue, source: &ConfigValue) -> (merged: ConfigValue)
    ensures
        merged@ == merge_tree(target@, source@),
    decreases source,
{
    match (target, source) {
        (ConfigValue::Object(t), ConfigValue::Object(s)) => {
            let merged = merge_objects(t, s);
            proof {
                lemma_merge_records(t@, s@);
            }
            ConfigValue::Object(merged)
        },
        _ => source.clone(),
    }
}

/// The merge of two objects: the keys of `target` first, each with its value
/// merged with what `source` holds at that key, then the keys that only
/// `source` has.
fn merge_objects(target: &ObjectMap, source: &ObjectMap) -> (merged: ObjectMap)
    ensures
        merged@ == merged_record(target@, source@),
    decreases source,
{
    proof {
        use_type_invariant(target);
        use_type_invariant(source);
    }
    let ghost tkeys = entry_keys(target.entries@);
    let ghost ttrees = entry_trees(target.entries@);
    let ghost skeys = entry_keys(source.entries@);
    let ghost strees = entry_trees(source.entries@);
    let mut out: Vec<(String, ConfigValue)> = Vec::new();
    let mut i: usize = 0;
    assert(record_of(entry_keys(out@), entry_trees(out@)) =~= Map::<Seq<char>, Tree>::empty());
    while i < target.entries.len()
        invariant
            i <= target.entries@.len(),
            out@.len() == i,
            tkeys == entry_keys(target.entries@),
            ttrees == entry_trees(target.entries@),
            skeys == entry_keys(source.entries@),
            strees == entry_trees(source.entries@),
            tkeys.no_duplicates(),
            skeys.no_duplicates(),
            entry_keys(out@) == tkeys.take(i as int),
            entry_keys(out@).no_duplicates(),
            record_of(entry_keys(out@), entry_trees(out@)) == Map::new(
                |k: Seq<char>| tkeys.take(i as int).contains(k),
                |k: Seq<char>| merged_entry(target@, source@, k),
            ),
        decreases target.entries@.len() - i,
    {
        let key = target.entries[i].0.clone();
        let ghost k = key@;
        proof {
            lemma_record_at(tkeys, ttrees, i as int);
            assert(tkeys[i as int] == k);
        }
        let value = match position_in(&source.entries, &key) {
            Some(j) => {
                proof {
                    lemma_record_at(skeys, strees, j as int);
                }
                merge(&target.entries[i].1, &source.entries[j].1)
            },
            None => target.entries[i].1.clone(),
        };
        assert(value@ == merged_entry(target@, source@, k));
        proof {
            let keys = entry_keys(out@);
            let trees = entry_trees(out@);
            assert(!keys.contains(k)) by {
                if keys.contains(k) {
                    let q = choose|q: int| 0 <= q < keys.len() && keys[q] == k;
                    assert(tkeys[q] == k);
                }
            }
            lemma_record_push(keys, trees, k, value@);
            lemma_take_next(tkeys, i as int);
            assert(record_of(keys, trees).insert(k, value@) =~= Map::new(
                |q: Seq<char>| tkeys.take(i as int + 1).contains(q),
                |q: Seq<char>| merged_entry(target@, source@, q),
            ));
        }
        let ghost before = out@;
        out.push((key, value));
        assert(entry_keys(out@) =~= entry_keys(before).push(k));
        assert(entry_trees(out@) =~= entry_trees(before).push(value@));
        i += 1;
    }
    assert(tkeys.take(i as int) =~= tkeys);
    let mut j: usize = 0;
    while j < source.entries.len()
        invariant
            j <= source.entries@.len(),
            tkeys == entry_keys(target.entries@),
            skeys == entry_keys(source.entries@),
            strees == entry_trees(source.entries@),
            target@ == record_of(tkeys, entry_trees(target.entries@)),
            source@ == record_of(skeys, strees),
            skeys.no_duplicates(),
            entry_keys(out@).no_duplicates(),
            record_of(entry_keys(out@), entry_trees(out@)) == Map::new(
                |k: Seq<char>| tkeys.contains(k) || skeys.take(j as int).contains(k),
                |k: Seq<char>| merged_entry(target@, source@, k),
            ),
        decreases source.entries@.len() - j,
    {
        let key = source.entries[j].0.clone();
        let ghost k = key@;
        let ghost keys = entry_keys(out@);
        let ghost trees = entry_trees(out@);
        proof {
            lemma_record_at(skeys, strees, j as int);
            assert(skeys[j as int] == k);
            lemma_take_next(skeys, j as int);
        }
        if position_in(&target.entries, &key).is_none() {
            let value = source.entries[j].1.clone();
            proof {
                assert(!record_of(keys, trees).contains_key(k));
                assert(!keys.contains(k));
                lemma_record_push(keys, trees, k, value@);
                assert(record_of(keys, trees).insert(k, value@) =~= Map::new(
                    |q: Seq<char>| tkeys.contains(q) || skeys.take(j as int + 1).contains(q),
                    |q: Seq<char>| merged_entry(target@, source@, q),
                ));
            }
            let ghost before = out@;
            out.push((key, value));
            assert(entry_keys(out@) =~= entry_keys(before).push(k));
            assert(entry_trees(out@) =~= entry_trees(before).push(value@));
        } else {
            assert(record_of(keys, trees) =~= Map::new(
                |q: Seq<char>| tkeys.contains(q) || skeys.take(j as int + 1).contains(q),
                |q: Seq<char>| merged_entry(target@, source@, q),
            ));
        }
        j += 1;
    }
    assert(skeys.take(j as int) =~= skeys);
    let merged = ObjectMap { entries: out };
    assert(merged@ =~= merged_record(target@, source@));
    merged
}

/// The values merged in list order, starting from the object without keys.
pub fn merge_all(values: &Vec<ConfigValue>) -> (merged: ConfigValue)
    ensures
        merged@ == merge_all_tree(item_trees(values@)),
{
    let mut merged = ConfigValue::Object(ObjectMap::new());
    let mut i: usize = 0;
    assert(item_trees(values@).take(0) =~= Seq::<Tree>::empty());
    while i < values.len()
        invariant
            i <= values@.len(),
            merged@ == merge_all_tree(item_trees(values@).take(i as int)),
        decreases values@.len() - i,
    {
        proof {
            lemma_merge_all_push(item_trees(values@).take(i as int), values@[i as int]@);
            assert(item_trees(values@).take(i as int + 1) =~= item_trees(values@).take(i as int).push(
                values@[i as int]@,
            ));
        }
        merged = merge(&merged, &values[i]);
        i += 1;
    }
    assert(item_trees(values@).take(i as int) =~= item_trees(values@));
    merged
}

} // verus!
