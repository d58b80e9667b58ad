use confiq::json::{from_json, to_json};
use confiq::value::{merge, merge_all, ConfigValue, ObjectMap};

fn num(n: u64) -> ConfigValue {
    ConfigValue::Number(serde_json::Number::from(n))
}

fn text(s: &str) -> ConfigValue {
    ConfigValue::String(s.to_string())
}

fn obj(pairs: Vec<(&str, ConfigValue)>) -> ConfigValue {
    let mut map = ObjectMap::new();
    for (key, value) in pairs {
        map.insert(key.to_string(), value);
    }
    ConfigValue::Object(map)
}

fn same(a: &ConfigValue, b: &ConfigValue) -> bool {
    to_json(a) == to_json(b)
}

#[test]
fn sources_merged_in_order_give_the_layered_result() {
    let sources = vec![
        obj(vec![("a", num(1)), ("b", obj(vec![("x", num(1))]))]),
        obj(vec![("b", obj(vec![("y", num(2))]))]),
        obj(vec![("a", num(2))]),
    ];
    let merged = merge_all(&sources);
    let expected = obj(vec![("a", num(2)), ("b", obj(vec![("x", num(1)), ("y", num(2))]))]);
    assert_eq!(merged, expected);
    assert!(same(&merged, &expected));
}

#[test]
fn merge_all_of_nothing_is_the_empty_object() {
    let merged = merge_all(&Vec::new());
    assert_eq!(merged, ConfigValue::Object(ObjectMap::new()));
}

#[test]
fn merge_keeps_source_keys_and_fills_from_target() {
    let a = obj(vec![
        ("only_a", num(1)),
        ("both_scalar", num(2)),
        ("both_object", obj(vec![("p", num(3)), ("q", num(4))])),
        ("object_then_scalar", obj(vec![("z", num(5))])),
    ]);
    let b = obj(vec![
        ("both_scalar", text("two")),
        ("both_object", obj(vec![("q", num(40)), ("r", num(50))])),
        ("object_then_scalar", num(6)),
        ("only_b", ConfigValue::Bool(true)),
    ]);
    let merged = merge(&a, &b);
    let map = match &merged {
        ConfigValue::Object(map) => map,
        _ => panic!("the merge of two objects is an object"),
    };
    assert_eq!(map.get("only_a"), Some(&num(1)));
    assert_eq!(map.get("both_scalar"), Some(&text("two")));
    assert_eq!(map.get("object_then_scalar"), Some(&num(6)));
    assert_eq!(map.get("only_b"), Some(&ConfigValue::Bool(true)));
    let inner = map.get("both_object").unwrap();
    assert!(same(inner, &obj(vec![("p", num(3)), ("q", num(40)), ("r", num(50))])));
    assert_eq!(map.get("missing"), None);
    assert_eq!(map.keys().len(), 5);
}

#[test]
fn merge_with_itself_changes_nothing() {
    let a = obj(vec![
        ("a", num(1)),
        ("b", obj(vec![("x", ConfigValue::Array(vec![num(1), num(2)])), ("y", ConfigValue::Null)])),
        ("c", text("c")),
    ]);
    assert_eq!(merge(&a, &a), a);
}

#[test]
fn merge_order_matters() {
    let a = obj(vec![("k", num(0)), ("kept", num(9))]);
    let b = obj(vec![("k", num(1))]);
    let c = obj(vec![("k", num(2))]);
    let b_then_c = merge(&merge(&a, &b), &c);
    let c_then_b = merge(&merge(&a, &c), &b);
    assert_ne!(b_then_c, c_then_b);
    assert_eq!(b_then_c, obj(vec![("k", num(2)), ("kept", num(9))]));
    assert_eq!(c_then_b, obj(vec![("k", num(1)), ("kept", num(9))]));
}

#[test]
fn arrays_are_replaced_as_a_whole() {
    let a = obj(vec![("list", ConfigValue::Array(vec![num(1), num(2), num(3)]))]);
    let b = obj(vec![("list", ConfigValue::Array(vec![num(9)]))]);
    assert_eq!(merge(&a, &b), b);
    let top_a = ConfigValue::Array(vec![num(1), num(2)]);
    let top_b = ConfigValue::Array(vec![num(3)]);
    assert_eq!(merge(&top_a, &top_b), top_b);
}

#[test]
fn a_source_that_is_no_object_replaces_the_target() {
    let a = obj(vec![("a", num(1))]);
    assert_eq!(merge(&a, &text("bare")), text("bare"));
    assert_eq!(merge(&a, &ConfigValue::Null), ConfigValue::Null);
    assert_eq!(merge(&text("bare"), &a), a);
    assert_eq!(merge(&num(1), &ConfigValue::Bool(false)), ConfigValue::Bool(false));
    let merged = merge_all(&vec![a, text("bare")]);
    assert_eq!(merged, text("bare"));
}

#[test]
fn an_empty_source_contributes_nothing() {
    let a = obj(vec![("a", num(1)), ("b", obj(vec![("x", num(1))]))]);
    let empty = ConfigValue::Object(ObjectMap::new());
    assert_eq!(merge(&a, &empty), a);
    assert_eq!(merge(&empty, &a), a);
}

#[test]
fn merge_leaves_its_arguments_alone() {
    let a = obj(vec![("a", num(1))]);
    let b = obj(vec![("b", num(2))]);
    let merged = merge(&a, &b);
    assert_eq!(a, obj(vec![("a", num(1))]));
    assert_eq!(b, obj(vec![("b", num(2))]));
    assert_eq!(merged, obj(vec![("a", num(1)), ("b", num(2))]));
}

#[test]
fn insert_replaces_the_value_of_a_key() {
    let mut map = ObjectMap::new();
    assert!(map.is_empty());
    map.insert("a".to_string(), num(1));
    map.insert("b".to_string(), num(2));
    map.insert("a".to_string(), num(3));
    assert_eq!(map.len(), 2);
    assert!(!map.is_empty());
    assert!(map.contains_key("a"));
    assert!(!map.contains_key("c"));
    assert_eq!(map.get("a"), Some(&num(3)));
    assert_eq!(map.get("b"), Some(&num(2)));
    assert_eq!(map.keys(), vec!["a".to_string(), "b".to_string()]);
}

#[test]
fn a_clone_is_equal_and_independent() {
    let a = obj(vec![("a", ConfigValue::Array(vec![num(1), text("x")])), ("b", obj(vec![("c", ConfigValue::Bool(true))]))]);
    let copy = a.clone();
    assert_eq!(copy, a);
    let changed = merge(&copy, &obj(vec![("a", num(0))]));
    assert_ne!(changed, a);
    assert_eq!(copy, a);
}

#[test]
fn json_values_convert_both_ways() {
    let mut inner = serde_json::Map::new();
    inner.insert("pi".to_string(), serde_json::Value::Number(serde_json::Number::from_f64(3.5).unwrap()));
    inner.insert("neg".to_string(), serde_json::Value::Number(serde_json::Number::from(-7i64)));
    let mut top = serde_json::Map::new();
    top.insert("inner".to_string(), serde_json::Value::Object(inner));
    top.insert(
        "list".to_string(),
        serde_json::Value::Array(vec![
            serde_json::Value::Null,
            serde_json::Value::Bool(true),
            serde_json::Value::String("s".to_string()),
        ]),
    );
    let json = serde_json::Value::Object(top);
    let value = from_json(&json);
    let map = match &value {
        ConfigValue::Object(map) => map,
        _ => panic!("an object converts to an object"),
    };
    assert_eq!(
        map.get("list"),
        Some(&ConfigValue::Array(vec![ConfigValue::Null, ConfigValue::Bool(true), text("s")]))
    );
    let inner = match map.get("inner") {
        Some(ConfigValue::Object(inner)) => inner,
        _ => panic!("a nested object converts to an object"),
    };
    assert_eq!(inner.get("neg"), Some(&ConfigValue::Number(serde_json::Number::from(-7i64))));
    assert_eq!(inner.get("pi"), Some(&ConfigValue::Number(serde_json::Number::from_f64(3.5).unwrap())));
    assert_eq!(to_json(&value), json);
}

#[test]
fn scalars_convert_to_json() {
    assert_eq!(to_json(&ConfigValue::Null), serde_json::Value::Null);
    assert_eq!(to_json(&ConfigValue::Bool(false)), serde_json::Value::Bool(false));
    assert_eq!(to_json(&num(8080)), serde_json::Value::Number(serde_json::Number::from(8080u64)));
    assert_eq!(to_json(&text("x")), serde_json::Value::String("x".to_string()));
    assert_eq!(from_json(&serde_json::Value::String("x".to_string())), text("x"));
}
