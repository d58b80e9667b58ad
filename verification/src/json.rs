//! Configuration values as JSON values, and JSON text.
//!
//! `serde_json::Value` is opaque to the verifier. [`json_tree`] names the tree
//! that such a value holds; [`from_json`] and [`to_json`] convert between it
//! and [`ConfigValue`], one level at a time.

use vstd::prelude::*;
use crate::model::{lemma_record_at, lemma_record_finite, record_of, Tree};
use crate::value::{entry_keys, entry_trees, item_trees, ConfigValue, ObjectMap};

verus! {

/// `serde_json::Number`: a JSON number. The library carries numbers through
/// unchanged and never looks inside one.
#[verifier::external_type_specification]
#[verifier::external_body]
pub struct ExJsonNumber(serde_json::Number);

/// `serde_json::Value`: a JSON value.
#[verifier::external_type_specification]
#[verifier::external_body]
pub struct ExJsonValue(serde_json::Value);

/// `serde_json::Error`: why JSON text could not be read or a value not decoded.
#[verifier::external_type_specification]
#[verifier::external_body]
pub struct ExJsonError(serde_json::Error);

/// The tree that a JSON value holds.
pub uninterp spec fn json_tree(v: serde_json::Value) -> Tree;

/// What `serde_json::from_str` makes of a text: the tree of the JSON value
/// that the text stands for, or why it stands for none.
pub uninterp spec fn json_parsed(text: Seq<char>) -> Result<Tree, serde_json::Error>;

/// What `serde_json::to_string` makes of the JSON value with the tree
/// `tree`: its text. The members of an object are written in the order of
/// their keys, so the text depends on the tree alone.
pub uninterp spec fn json_text(tree: Tree) -> Result<Seq<char>, serde_json::Error>;

/// One level of a JSON value that is read: what it is, with its children
/// still JSON values.
pub enum JsonNode<'a> {
    Null,
    Bool(bool),
    Number(&'a serde_json::Number),
    String(&'a String),
    Array(&'a Vec<serde_json::Value>),
    Object(Vec<(&'a String, &'a serde_json::Value)>),
}

/// One level of a JSON value that is built, with its children already built.
pub enum JsonParts {
    Null,
    Bool(bool),
    Number(serde_json::Number),
    String(String),
    Array(Vec<serde_json::Value>),
    Object(Vec<(String, serde_json::Value)>),
}

/// The trees of a list of JSON values.
pub open spec fn json_trees(items: Seq<serde_json::Value>) -> Seq<Tree> {
    Seq::new(items.len(), |i: int| json_tree(items[i]))
}

/// The keys of the members of an object that is read.
pub open spec fn node_keys(members: Seq<(&String, &serde_json::Value)>) -> Seq<Seq<char>> {
    Seq::new(members.len(), |i: int| members[i].0@)
}

/// The trees of the members of an object that is read.
pub open spec fn node_trees(members: Seq<(&String, &serde_json::Value)>) -> Seq<Tree> {
    Seq::new(members.len(), |i: int| json_tree(*members[i].1))
}

/// The keys of the members of an object that is built.
pub open spec fn part_keys(members: Seq<(String, serde_json::Value)>) -> Seq<Seq<char>> {
    Seq::new(members.len(), |i: int| members[i].0@)
}

/// The trees of the members of an object that is built.
pub open spec fn part_trees(members: Seq<(String, serde_json::Value)>) -> Seq<Tree> {
    Seq::new(members.len(), |i: int| json_tree(members[i].1))
}

/// The tree of one level that is read.
pub open spec fn node_tree(node: JsonNode) -> Tree {
    match node {
        JsonNode::Null => Tree::Null,
        JsonNode::Bool(b) => Tree::Bool(b),
        JsonNode::Number(n) => Tree::Number(*n),
        JsonNode::String(s) => Tree::Text(s@),
        JsonNode::Array(items) => Tree::List(json_trees(items@)),
        JsonNode::Object(members) => Tree::Record(record_of(node_keys(members@), node_trees(members@))),
    }
}

/// The tree of one level that is built.
pub open spec fn parts_tree(parts: JsonParts) -> Tree {
    match parts {
        JsonParts::Null => Tree::Null,
        JsonParts::Bool(b) => Tree::Bool(b),
        JsonParts::Number(n) => Tree::Number(n),
        JsonParts::String(s) => Tree::Text(s@),
        JsonParts::Array(items) => Tree::List(json_trees(items@)),
        JsonParts::Object(members) => Tree::Record(record_of(part_keys(members@), part_trees(members@))),
    }
}

/// Matches on a `serde_json::Value`: the variant with its payload, the
/// members of an object as `serde_json::Map::iter` gives them. The tree of
/// the value is the tree of that level, and no key of an object comes twice.
#[verifier::external_body]
fn open_json<'a>(v: &'a serde_json::Value) -> (node: JsonNode<'a>)
    ensures
        node_tree(node) == json_tree(*v),
        node matches JsonNode::Object(members) ==> node_keys(members@).no_duplicates(),
{
    match v {
        serde_json::Value::Null => JsonNode::Null,
        serde_json::Value::Bool(b) => JsonNode::Bool(*b),
        serde_json::Value::Number(n) => JsonNode::Number(n),
        serde_json::Value::String(s) => JsonNode::String(s),
        serde_json::Value::Array(items) => JsonNode::Array(items),
        serde_json::Value::Object(members) => JsonNode::Object(members.iter().collect()),
    }
}

/// Builds a `serde_json::Value` of the variant that `parts` names, an object
/// by collecting its members into a `serde_json::Map`. The tree of the
/// value is the tree of `parts`.
#[verifier::external_body]
fn close_json(parts: JsonParts) -> (v: serde_json::Value)
    requires
        parts matches JsonParts::Object(members) ==> part_keys(members@).no_duplicates(),
    ensures
        json_tree(v) == parts_tree(parts),
{
    match parts {
        JsonParts::Null => serde_json::Value::Null,
        JsonParts::Bool(b) => serde_json::Value::Bool(b),
        JsonParts::Number(n) => serde_json::Value::Number(n),
        JsonParts::String(s) => serde_json::Value::String(s),
        JsonParts::Array(items) => serde_json::Value::Array(items),
        JsonParts::Object(members) => serde_json::Value::Object(members.into_iter().collect()),
    }
}

/// `serde_json::Number::clone`: the copy is the same number.
#[verifier::external_body]
pub(crate) fn copy_number(n: &serde_json::Number) -> (r: serde_json::Number)
    ensures
        r == *n,
{
    n.clone()
}

/// `serde_json::from_str` at `serde_json::Value`: the tree of the value, or
/// the error, is `json_parsed` of the text.
#[verifier::external_body]
pub(crate) fn json_from_str(text: &str) -> (r: Result<serde_json::Value, serde_json::Error>)
    ensures
        match r {
            Ok(v) => json_parsed(text@) == Ok::<Tree, serde_json::Error>(json_tree(v)),
            Err(e) => json_parsed(text@) == Err::<Tree, serde_json::Error>(e),
        },
{
    serde_json::from_str::<serde_json::Value>(text)
}

/// `serde_json::to_string` of a `serde_json::Value`: the text, or the
/// error, is `json_text` of the tree of the value.
#[verifier::external_body]
pub(crate) fn json_to_string(v: &serde_json::Value) -> (r: Result<String, serde_json::Error>)
    ensures
        match r {
            Ok(text) => json_text(json_tree(*v)) == Ok::<Seq<char>, serde_json::Error>(text@),
            Err(e) => json_text(json_tree(*v)) == Err::<Seq<char>, serde_json::Error>(e),
        },
{
    serde_json::to_string(v)
}

/// The configuration value with the tree of the JSON value `v`.
pub fn from_json(v: &serde_json::Value) -> (r: ConfigValue)
    ensures
        r@ == json_tree(*v),
    decreases json_tree(*v),
{
    match open_json(v) {
        JsonNode::Null => ConfigValue::Null,
        JsonNode::Bool(b) => ConfigValue::Bool(b),
        JsonNode::Number(n) => ConfigValue::Number(copy_number(n)),
        JsonNode::String(s) => ConfigValue::String(s.clone()),
        JsonNode::Array(items) => {
            let mut out: Vec<ConfigValue> = Vec::new();
            let mut i: usize = 0;
            while i < items.len()
                invariant
                    i <= items@.len(),
                    out@.len() == i,
                    json_tree(*v) == Tree::List(json_trees(items@)),
                    forall|j: int| 0 <= j < i ==> out@[j]@ == json_tree(items@[j]),
                decreases items@.len() - i,
            {
                proof {
                    let whole = json_tree(*v);
                    let list = json_trees(items@);
                    assert(list[i as int] == json_tree(items@[i as int]));
                    assert(decreases_to!(whole => whole->List_0));
                    assert(decreases_to!(list => list[i as int]));
                }
                let item = from_json(&items[i]);
                out.push(item);
                i += 1;
            }
            assert(item_trees(out@) =~= json_trees(items@));
            ConfigValue::Array(out)
        },
        JsonNode::Object(members) => {
            let ghost keys = node_keys(members@);
            let ghost trees = node_trees(members@);
            let mut map = ObjectMap::new();
            let mut i: usize = 0;
            while i < members.len()
                invariant
                    i <= members@.len(),
                    keys == node_keys(members@),
                    trees == node_trees(members@),
                    keys.no_duplicates(),
                    json_tree(*v) == Tree::Record(record_of(keys, trees)),
                    map@ == record_of(keys.take(i as int), trees.take(i as int)),
                decreases members@.len() - i,
            {
                proof {
                    lemma_record_at(keys, trees, i as int);
                    lemma_record_finite(keys, trees);
                    assert(trees[i as int] == json_tree(*members@[i as int].1));
                    let whole = json_tree(*v);
                    let record = record_of(keys, trees);
                    assert(decreases_to!(whole => whole->Record_0));
                    assert(decreases_to!(record => record[keys[i as int]]));
                }
                let key = members[i].0.clone();
                let value = from_json(members[i].1);
                proof {
                    crate::model::lemma_take_next(keys, i as int);
                    assert(keys.take(i as int).no_duplicates());
                    crate::model::lemma_record_push(
                        keys.take(i as int),
                        trees.take(i as int),
                        keys[i as int],
                        trees[i as int],
                    );
                    assert(trees.take(i as int + 1) =~= trees.take(i as int).push(trees[i as int]));
                }
                map.insert(key, value);
                i += 1;
            }
            assert(keys.take(i as int) =~= keys);
            assert(trees.take(i as int) =~= trees);
            ConfigValue::Object(map)
        },
    }
}

/// The JSON value with the tree of the configuration value `v`.
pub fn to_json(v: &ConfigValue) -> (r: serde_json::Value)
    ensures
        json_tree(r) == v@,
    decreases v,
{
    match v {
        ConfigValue::Null => close_json(JsonParts::Null),
        ConfigValue::Bool(b) => close_json(JsonParts::Bool(*b)),
        ConfigValue::Number(n) => close_json(JsonParts::Number(copy_number(n))),
        ConfigValue::String(s) => close_json(JsonParts::String(s.clone())),
        ConfigValue::Array(items) => {
            let mut out: Vec<serde_json::Value> = Vec::new();
            let mut i: usize = 0;
            while i < items.len()
                invariant
                    v is Array,
                    v->Array_0 == *items,
                    i <= items@.len(),
                    out@.len() == i,
                    forall|j: int| 0 <= j < i ==> json_tree(out@[j]) == items@[j]@,
                decreases items@.len() - i,
            {
                assert(decreases_to!(*v => v->Array_0));
                let item = to_json(&items[i]);
                out.push(item);
                i += 1;
            }
            assert(json_trees(out@) =~= item_trees(items@));
            close_json(JsonParts::Array(out))
        },
        ConfigValue::Object(map) => {
            proof {
                use_type_invariant(map);
            }
            let mut out: Vec<(String, serde_json::Value)> = Vec::new();
            let mut i: usize = 0;
            while i < map.entries.len()
                invariant
                    v is Object,
                    v->Object_0 == *map,
                    i <= map.entries@.len(),
                    out@.len() == i,
                    forall|j: int| 0 <= j < i ==> out@[j].0@ == map.entries@[j].0@,
                    forall|j: int| 0 <= j < i ==> json_tree(out@[j].1) == map.entries@[j].1@,
                decreases map.entries@.len() - i,
            {
                assert(decreases_to!(*v => v->Object_0));
                let key = map.entries[i].0.clone();
                let value = to_json(&map.entries[i].1);
                out.push((key, value));
                i += 1;
            }
            proof {
                map.lemma_view();
                ObjectMap::lemma_entries(map.entries@);
                assert(part_keys(out@) =~= entry_keys(map.entries@));
                assert(part_trees(out@) =~= entry_trees(map.entries@));
            }
            close_json(JsonParts::Object(out))
        },
    }
}

} // verus!
