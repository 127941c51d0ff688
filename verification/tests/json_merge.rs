//! The JSON deep merge used for pod-template overrides.

use vpn_operator::merge::{deep_merge, JsonValue};

fn obj(entries: Vec<(&str, JsonValue)>) -> JsonValue {
    JsonValue::Obj(entries.into_iter().map(|(k, v)| (k.to_owned(), v)).collect())
}

fn s(v: &str) -> JsonValue {
    JsonValue::Str(v.to_owned())
}

fn lookup(v: &JsonValue, key: &str) -> Option<JsonValue> {
    match v {
        JsonValue::Obj(entries) => entries
            .iter()
            .find(|(k, _)| k == key)
            .map(|(_, v)| clone_value(v)),
        _ => None,
    }
}

fn clone_value(v: &JsonValue) -> JsonValue {
    match v {
        JsonValue::Null => JsonValue::Null,
        JsonValue::Bool(b) => JsonValue::Bool(*b),
        JsonValue::Num(n) => JsonValue::Num(n.clone()),
        JsonValue::Str(t) => JsonValue::Str(t.clone()),
        JsonValue::Arr(items) => JsonValue::Arr(items.iter().map(clone_value).collect()),
        JsonValue::Obj(entries) => JsonValue::Obj(
            entries.iter().map(|(k, v)| (k.clone(), clone_value(v))).collect(),
        ),
    }
}

fn eq(a: &JsonValue, b: &JsonValue) -> bool {
    match (a, b) {
        (JsonValue::Null, JsonValue::Null) => true,
        (JsonValue::Bool(x), JsonValue::Bool(y)) => x == y,
        (JsonValue::Num(x), JsonValue::Num(y)) => x == y,
        (JsonValue::Str(x), JsonValue::Str(y)) => x == y,
        (JsonValue::Arr(x), JsonValue::Arr(y)) => {
            x.len() == y.len() && x.iter().zip(y.iter()).all(|(i, j)| eq(i, j))
        },
        (JsonValue::Obj(x), JsonValue::Obj(y)) => {
            x.len() == y.len()
                && x.iter().zip(y.iter()).all(|((k1, v1), (k2, v2))| k1 == k2 && eq(v1, v2))
        },
        _ => false,
    }
}

#[test]
fn non_objects_are_replaced_wholesale() {
    let r = deep_merge(s("old"), s("new"));
    assert!(eq(&r, &s("new")));
    let r = deep_merge(obj(vec![("a", s("x"))]), JsonValue::Bool(true));
    assert!(eq(&r, &JsonValue::Bool(true)));
    let r = deep_merge(
        JsonValue::Arr(vec![s("a")]),
        JsonValue::Arr(vec![s("b"), s("c")]),
    );
    assert!(eq(&r, &JsonValue::Arr(vec![s("b"), s("c")])));
}

#[test]
fn null_deletes_the_field() {
    let a = obj(vec![("keep", s("k")), ("drop", s("d"))]);
    let b = obj(vec![("drop", JsonValue::Null)]);
    let r = deep_merge(a, b);
    assert!(lookup(&r, "drop").is_none());
    assert!(eq(&lookup(&r, "keep").unwrap(), &s("k")));
}

#[test]
fn objects_merge_recursively() {
    let a = obj(vec![(
        "env",
        obj(vec![("A", s("1")), ("B", s("2"))]),
    )]);
    let b = obj(vec![(
        "env",
        obj(vec![("B", s("3")), ("C", s("4"))]),
    )]);
    let r = deep_merge(a, b);
    let env = lookup(&r, "env").unwrap();
    assert!(eq(&lookup(&env, "A").unwrap(), &s("1")));
    assert!(eq(&lookup(&env, "B").unwrap(), &s("3")));
    assert!(eq(&lookup(&env, "C").unwrap(), &s("4")));
}

#[test]
fn fresh_keys_are_added() {
    let a = obj(vec![("image", s("base"))]);
    let b = obj(vec![("command", JsonValue::Arr(vec![s("sh")]))]);
    let r = deep_merge(a, b);
    assert!(eq(&lookup(&r, "image").unwrap(), &s("base")));
    assert!(eq(&lookup(&r, "command").unwrap(), &JsonValue::Arr(vec![s("sh")])));
}

#[test]
fn numbers_replace_objects_and_vice_versa() {
    let a = obj(vec![("x", obj(vec![("inner", s("v"))]))]);
    let b = obj(vec![("x", JsonValue::Num("7".to_owned()))]);
    let r = deep_merge(a, b);
    assert!(eq(&lookup(&r, "x").unwrap(), &JsonValue::Num("7".to_owned())));
}

#[test]
fn empty_override_changes_nothing() {
    let a = obj(vec![("a", s("1")), ("b", s("2"))]);
    let r = deep_merge(a, obj(vec![]));
    assert!(eq(&lookup(&r, "a").unwrap(), &s("1")));
    assert!(eq(&lookup(&r, "b").unwrap(), &s("2")));
}
