use dino::database::{Database, LoadError};
use dino::tree::Tree;
use serde_json::Value;

fn loaded(text: &str) -> Database {
    let mut db = Database::new("db.json");
    db.load(text).unwrap();
    db
}

fn reload(db: &Database) -> Database {
    loaded(&db.serialized())
}

fn string(s: &str) -> Value {
    Value::String(s.to_string())
}

#[test]
fn scalar_lifecycle_survives_reload() {
    let mut db = loaded("");
    db.insert("name", "dino");
    assert_eq!(db.find("name"), Ok(&string("dino")));
    assert_eq!(db.len(), 1);
    db.remove("name");
    assert!(!db.contains_key("name"));
    assert_eq!(db.len(), 0);
    let mut again = reload(&db);
    assert_eq!(again.len(), 0);
}

#[test]
fn tree_survives_reload() {
    let mut t = Tree::new();
    t.insert("a", "1");
    t.insert("b", "2");
    let mut db = loaded("");
    db.insert_tree("nested", t);
    let again = reload(&db);
    let expected: Value = serde_json::from_str("{\"a\":\"1\",\"b\":\"2\"}").unwrap();
    assert_eq!(again.find("nested"), Ok(&expected));
}

#[test]
fn sequence_of_changes_round_trips() {
    let mut db = loaded("");
    db.insert("x", "1");
    db.insert("y", "2");
    let mut t = Tree::new();
    t.insert("k", "v");
    db.insert_tree("z", t);
    db.remove("x");
    let mut again = reload(&db);
    assert_eq!(again.len(), 2);
    assert!(!again.contains_key("x"));
    assert_eq!(again.find("y"), Ok(&string("2")));
    assert_eq!(again.serialized(), db.serialized());
}

#[test]
fn removing_absent_key_keeps_text() {
    let mut db = loaded("{\"a\":\"1\"}");
    let before = db.serialized();
    db.remove("missing");
    assert_eq!(db.serialized(), before);
    assert_eq!(db.len(), 1);
}

#[test]
fn second_scalar_replaces_first() {
    let mut db = loaded("");
    db.insert("k", "one");
    db.insert("k", "two");
    assert_eq!(db.find("k"), Ok(&string("two")));
    assert_eq!(db.len(), 1);
}

#[test]
fn tree_replaces_scalar_and_back() {
    let mut db = loaded("");
    db.insert("k", "one");
    let mut t = Tree::new();
    t.insert("a", "1");
    db.insert_tree("k", t);
    let expected: Value = serde_json::from_str("{\"a\":\"1\"}").unwrap();
    assert_eq!(db.find("k"), Ok(&expected));
    db.insert("k", "two");
    assert_eq!(db.find("k"), Ok(&string("two")));
}

#[test]
fn empty_text_loads_as_empty_object() {
    let mut db = loaded("");
    assert_eq!(db.len(), 0);
    assert!(!db.contains_key("anything"));
    assert_eq!(db.serialized(), "{}");
}

#[test]
fn missing_key_is_an_error() {
    let db = loaded("{}");
    assert_eq!(
        db.find("ghost"),
        Err("The key `ghost` does not exist in the database. You might want to create this or handle the error!".to_string())
    );
}

#[test]
fn null_value_is_reported_as_missing() {
    let mut db = loaded("{\"k\":null}");
    assert!(db.contains_key("k"));
    assert!(db.find("k").is_err());
}

#[test]
fn malformed_text_is_refused() {
    let mut db = Database::new("db.json");
    assert_eq!(db.load("{not json"), Err(LoadError::Malformed));
}

#[test]
fn non_object_text_is_refused() {
    let mut db = Database::new("db.json");
    assert_eq!(db.load("[1, 2]"), Err(LoadError::NotAnObject));
}

#[test]
fn serialized_text_is_compact_json() {
    let mut db = loaded("");
    db.insert("b", "2");
    db.insert("a", "1");
    assert_eq!(db.serialized(), "{\"a\":\"1\",\"b\":\"2\"}");
}

#[test]
fn loaded_members_are_counted() {
    let mut db = loaded("{ \"a\": \"1\", \"b\": {\"c\": \"d\"} }");
    assert_eq!(db.len(), 2);
    assert!(db.contains_key("b"));
}

#[test]
fn tree_insert_overwrites_member() {
    let mut t = Tree::new();
    t.insert("a", "1");
    t.insert("a", "3");
    let expected: Value = serde_json::from_str("{\"a\":\"3\"}").unwrap();
    assert_eq!(t.children, Some(expected));
}
