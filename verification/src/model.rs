//! The mathematical model of configuration values.
//!
//! A configuration value is modelled as a [`Tree`]; an object is a map from
//! keys to trees, so the order in which keys were inserted plays no role.
//! [`merge_tree`] defines the merge of two trees, and the proof functions at
//! the end of this module state what holds of it for all trees.

use vstd::prelude::*;

verus! {

/// The mathematical model of a configuration value.
pub enum Tree {
    Null,
    Bool(bool),
    Number(serde_json::Number),
    Text(Seq<char>),
    List(Seq<Tree>),
    Record(Map<Seq<char>, Tree>),
}

/// The object without keys, from which every load starts.
pub open spec fn empty_record() -> Tree {
    Tree::Record(Map::empty())
}

/// The merge of `source` into `target`.
///
/// Two objects are merged key by key: a key of `source` that `target` also
/// has holds the merge of the two values, a key that only one of them has
/// keeps its value. In every other case `source` replaces `target`.
pub open spec fn merge_tree(target: Tree, source: Tree) -> Tree
    decreases source,
{
    match (target, source) {
        (Tree::Record(t), Tree::Record(s)) => Tree::Record(
            Map::new(
                |k: Seq<char>| t.contains_key(k) || s.contains_key(k),
                |k: Seq<char>|
                    if s.contains_key(k) {
                        if t.contains_key(k) {
                            merge_tree(t[k], s[k])
                        } else {
                            s[k]
                        }
                    } else {
                        t[k]
                    },
            ),
        ),
        _ => source,
    }
}

/// The value that the merge of the objects `t` and `s` holds at key `k`.
pub open spec fn merged_entry(t: Map<Seq<char>, Tree>, s: Map<Seq<char>, Tree>, k: Seq<char>) -> Tree {
    if s.contains_key(k) {
        if t.contains_key(k) {
            merge_tree(t[k], s[k])
        } else {
            s[k]
        }
    } else {
        t[k]
    }
}

/// The merge of the objects `t` and `s`, as a map.
pub open spec fn merged_record(t: Map<Seq<char>, Tree>, s: Map<Seq<char>, Tree>) -> Map<Seq<char>, Tree> {
    Map::new(|k: Seq<char>| t.contains_key(k) || s.contains_key(k), |k: Seq<char>| merged_entry(t, s, k))
}

/// The merge of two objects is the object that holds `merged_record`.
pub proof fn lemma_merge_records(t: Map<Seq<char>, Tree>, s: Map<Seq<char>, Tree>)
    ensures
        merge_tree(Tree::Record(t), Tree::Record(s)) == Tree::Record(merged_record(t, s)),
{
    assert(merge_tree(Tree::Record(t), Tree::Record(s))->Record_0 =~= merged_record(t, s));
}

/// The sources merged in list order, starting from the empty object.
pub open spec fn merge_all_tree(sources: Seq<Tree>) -> Tree
    decreases sources.len(),
{
    if sources.len() == 0 {
        empty_record()
    } else {
        merge_tree(merge_all_tree(sources.drop_last()), sources.last())
    }
}

/// The map that holds `trees[i]` at `keys[i]`.
pub open spec fn record_of(keys: Seq<Seq<char>>, trees: Seq<Tree>) -> Map<Seq<char>, Tree> {
    Map::new(|k: Seq<char>| keys.contains(k), |k: Seq<char>| trees[keys.index_of(k)])
}

/// With distinct keys, `record_of` holds `trees[i]` at `keys[i]`.
pub proof fn lemma_record_at(keys: Seq<Seq<char>>, trees: Seq<Tree>, i: int)
    requires
        keys.no_duplicates(),
        0 <= i < keys.len(),
    ensures
        record_of(keys, trees).contains_key(keys[i]),
        record_of(keys, trees)[keys[i]] == trees[i],
{
    let j = keys.index_of(keys[i]);
    assert(0 <= j < keys.len() && keys[j] == keys[i]);
}

/// Appending a new key to `keys` inserts it into the map.
pub proof fn lemma_record_push(keys: Seq<Seq<char>>, trees: Seq<Tree>, k: Seq<char>, t: Tree)
    requires
        keys.no_duplicates(),
        keys.len() == trees.len(),
        !keys.contains(k),
    ensures
        keys.push(k).no_duplicates(),
        record_of(keys.push(k), trees.push(t)) == record_of(keys, trees).insert(k, t),
{
    let keys2 = keys.push(k);
    let trees2 = trees.push(t);
    assert(keys2.no_duplicates()) by {
        assert forall|i: int, j: int| 0 <= i < keys2.len() && 0 <= j < keys2.len() && i != j implies keys2[i]
            != keys2[j] by {
            if i < keys.len() && j < keys.len() {
                assert(keys[i] != keys[j]);
            } else if i < keys.len() {
                assert(keys[i] != k);
            } else {
                assert(keys[j] != k);
            }
        }
    }
    let left = record_of(keys2, trees2);
    let right = record_of(keys, trees).insert(k, t);
    assert forall|q: Seq<char>| left.contains_key(q) <==> right.contains_key(q) by {
        if keys2.contains(q) {
            let i = choose|i: int| 0 <= i < keys2.len() && keys2[i] == q;
            if i < keys.len() {
                assert(keys[i] == q);
            }
        }
        if keys.contains(q) {
            let i = choose|i: int| 0 <= i < keys.len() && keys[i] == q;
            assert(keys2[i] == q);
        }
        if q == k {
            assert(keys2[keys.len() as int] == k);
        }
    }
    assert forall|q: Seq<char>| left.contains_key(q) implies left[q] == right[q] by {
        let i = keys2.index_of(q);
        assert(0 <= i < keys2.len() && keys2[i] == q);
        if i < keys.len() {
            assert(keys[i] == q);
            lemma_record_at(keys, trees, i);
        }
    }
    assert(left =~= right);
}

/// Replacing the tree at index `i` replaces the value at `keys[i]`.
pub proof fn lemma_record_update(keys: Seq<Seq<char>>, trees: Seq<Tree>, i: int, t: Tree)
    requires
        keys.no_duplicates(),
        keys.len() == trees.len(),
        0 <= i < keys.len(),
    ensures
        record_of(keys, trees.update(i, t)) == record_of(keys, trees).insert(keys[i], t),
{
    let left = record_of(keys, trees.update(i, t));
    let right = record_of(keys, trees).insert(keys[i], t);
    assert forall|q: Seq<char>| left.contains_key(q) implies left[q] == right[q] by {
        let j = keys.index_of(q);
        assert(0 <= j < keys.len() && keys[j] == q);
    }
    assert(left =~= right);
}

/// The first `i + 1` keys are the first `i` keys and `keys[i]`.
pub proof fn lemma_take_next(keys: Seq<Seq<char>>, i: int)
    requires
        0 <= i < keys.len(),
    ensures
        keys.take(i + 1) == keys.take(i).push(keys[i]),
        forall|q: Seq<char>| #[trigger]
            keys.take(i + 1).contains(q) <==> (q == keys[i] || keys.take(i).contains(q)),
        keys.no_duplicates() ==> !keys.take(i).contains(keys[i]),
{
    let a = keys.take(i + 1);
    let b = keys.take(i);
    assert(a =~= b.push(keys[i]));
    assert forall|q: Seq<char>| #[trigger] a.contains(q) <==> (q == keys[i] || b.contains(q)) by {
        if a.contains(q) {
            let x = choose|x: int| 0 <= x < a.len() && a[x] == q;
            if x < i {
                assert(b[x] == q);
            }
        }
        if b.contains(q) {
            let x = choose|x: int| 0 <= x < b.len() && b[x] == q;
            assert(a[x] == q);
        }
        if q == keys[i] {
            assert(a[i] == q);
        }
    }
    if keys.no_duplicates() && b.contains(keys[i]) {
        let x = choose|x: int| 0 <= x < b.len() && b[x] == keys[i];
        assert(keys[x] == keys[i]);
    }
}

/// `record_of` has finitely many keys.
pub proof fn lemma_record_finite(keys: Seq<Seq<char>>, trees: Seq<Tree>)
    ensures
        record_of(keys, trees).dom().finite(),
{
    vstd::seq_lib::seq_to_set_is_finite(keys);
    assert(record_of(keys, trees).dom() =~= keys.to_set());
}

/// Merging two objects keeps every key of the source with the source's
/// value, merged into the target's value where the target has the key too
/// (which is the source's value unless both are objects), keeps every key
/// that only the target has with the target's value, and holds no other key.
pub proof fn lemma_merge_holds_source_and_fills_from_target(a: Tree, b: Tree)
    requires
        a is Record,
        b is Record,
    ensures
        merge_tree(a, b) is Record,
        forall|k: Seq<char>|
            merge_tree(a, b)->Record_0.contains_key(k) <==> a->Record_0.contains_key(k)
                || b->Record_0.contains_key(k),
        forall|k: Seq<char>|
            b->Record_0.contains_key(k) && a->Record_0.contains_key(k) ==> #[trigger] merge_tree(
                a,
                b,
            )->Record_0[k] == merge_tree(a->Record_0[k], b->Record_0[k]),
        forall|k: Seq<char>|
            b->Record_0.contains_key(k) && a->Record_0.contains_key(k) && !(a->Record_0[k] is Record
                && b->Record_0[k] is Record) ==> #[trigger] merge_tree(a, b)->Record_0[k]
                == b->Record_0[k],
        forall|k: Seq<char>|
            b->Record_0.contains_key(k) && !a->Record_0.contains_key(k) ==> #[trigger] merge_tree(
                a,
                b,
            )->Record_0[k] == b->Record_0[k],
        forall|k: Seq<char>|
            a->Record_0.contains_key(k) && !b->Record_0.contains_key(k) ==> #[trigger] merge_tree(
                a,
                b,
            )->Record_0[k] == a->Record_0[k],
{
    lemma_merge_records(a->Record_0, b->Record_0);
}

/// Merging a tree into itself changes nothing.
pub proof fn lemma_merge_idempotent(a: Tree)
    ensures
        merge_tree(a, a) == a,
    decreases a,
{
    match a {
        Tree::Record(m) => {
            assert forall|k: Seq<char>| m.contains_key(k) implies merge_tree(m[k], m[k]) == m[k] by {
                lemma_merge_idempotent(m[k]);
            }
            assert(merge_tree(a, a)->Record_0 =~= m);
        },
        _ => {},
    }
}

/// Where two sources hold different values that are not objects at one key,
/// the source merged last decides the value at that key, so the two orders
/// of merging them give different results.
pub proof fn lemma_merge_order_matters(a: Tree, b: Tree, c: Tree, k: Seq<char>)
    requires
        a is Record,
        b is Record,
        c is Record,
        b->Record_0.contains_key(k),
        c->Record_0.contains_key(k),
        !(b->Record_0[k] is Record),
        !(c->Record_0[k] is Record),
        b->Record_0[k] != c->Record_0[k],
    ensures
        merge_tree(merge_tree(a, b), c)->Record_0[k] == c->Record_0[k],
        merge_tree(merge_tree(a, c), b)->Record_0[k] == b->Record_0[k],
        merge_tree(merge_tree(a, b), c) != merge_tree(merge_tree(a, c), b),
{
    lemma_merge_records(a->Record_0, b->Record_0);
    lemma_merge_records(a->Record_0, c->Record_0);
    lemma_merge_records(merged_record(a->Record_0, b->Record_0), c->Record_0);
    lemma_merge_records(merged_record(a->Record_0, c->Record_0), b->Record_0);
}

/// A source without keys contributes nothing to an object.
pub proof fn lemma_merge_empty_source(a: Tree)
    requires
        a is Record,
    ensures
        merge_tree(a, empty_record()) == a,
{
    assert(merge_tree(a, empty_record())->Record_0 =~= a->Record_0);
}

/// A source that is no object replaces the target as a whole, and so does
/// any source where the target is no object.
pub proof fn lemma_merge_replaces(target: Tree, source: Tree)
    requires
        !(target is Record && source is Record),
    ensures
        merge_tree(target, source) == source,
{
}

/// Merging one more source after the others is one more merge.
pub proof fn lemma_merge_all_push(sources: Seq<Tree>, last: Tree)
    ensures
        merge_all_tree(sources.push(last)) == merge_tree(merge_all_tree(sources), last),
{
    assert(sources.push(last).drop_last() =~= sources);
}

} // verus!
