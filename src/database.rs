//! A key-value store kept as one JSON object. The file that backs it is read
//! and written by the caller: `load` takes the file's text, and after each
//! change `serialized` gives the text that the file is rewritten with.
use vstd::prelude::*;
use vstd::string::StringExecFns;
use crate::json::{
    empty_object, json_of, json_parse, json_text, member, members, object_contains_key, object_insert,
    object_len, object_remove, parse, print, string_value, Json,
};
use crate::tree::Tree;

verus! {

/// Why a text could not be loaded.
#[derive(Debug, PartialEq, Eq, Structural)]
pub enum LoadError {
    /// The text is not JSON.
    Malformed,
    /// The text is JSON, but not an object.
    NotAnObject,
}

pub struct Database {
    /// Where the backing file lies.
    pub path: String,
    /// The whole content, once loaded.
    json: Option<serde_json::Value>,
}

/// The message of a failed lookup of `key`.
pub open spec fn not_found_message(key: Seq<char>) -> Seq<char> {
    "The key `"@ + key + "` does not exist in the database. You might want to create this or handle the error!"@
}

/// What the content of a loaded database becomes when it is loaded from `text`:
/// an empty text is an empty object.
pub open spec fn loaded_from(text: Seq<char>) -> Option<Json> {
    if text.len() == 0 {
        Some(Json::Object(Map::empty()))
    } else {
        json_parse(text)
    }
}

impl Database {
    /// `load` has succeeded: the content is there and is an object.
    pub closed spec fn is_loaded(&self) -> bool {
        self.json is Some && json_of(self.json->0) is Object
    }

    /// The path of the backing file.
    pub closed spec fn location(&self) -> Seq<char> {
        self.path@
    }

    /// The top-level members of the content.
    pub closed spec fn entries(&self) -> Map<Seq<char>, Json> {
        match self.json {
            Some(v) => members(json_of(v)),
            None => Map::empty(),
        }
    }

    /// A database for the file at `path`, not loaded yet.
    pub fn new(path: &str) -> (db: Database)
        ensures
            db.location() == path@,
            !db.is_loaded(),
    {
        Database { path: String::from_str(path), json: None }
    }

    /// Loads the content from the file's text. An empty text is an empty
    /// object; any other text must be a JSON object.
    pub fn load(&mut self, text: &str) -> (r: Result<(), LoadError>)
        ensures
            final(self).location() == old(self).location(),
            match loaded_from(text@) {
                None => r == Err::<(), LoadError>(LoadError::Malformed),
                Some(j) => if j is Object {
                    r is Ok && final(self).is_loaded() && final(self).entries() == members(j)
                } else {
                    r == Err::<(), LoadError>(LoadError::NotAnObject)
                },
            },
            r is Err ==> *final(self) == *old(self),
    {
        let value = if text.is_empty() {
            empty_object()
        } else {
            match parse(text) {
                Ok(v) => v,
                Err(_) => {
                    return Err(LoadError::Malformed);
                },
            }
        };
        if !value.is_object() {
            return Err(LoadError::NotAnObject);
        }
        self.json = Some(value);
        Ok(())
    }

    /// Stores the object that `value` built under `key`, replacing any earlier
    /// value there.
    pub fn insert_tree(&mut self, key: &str, value: Tree)
        requires
            old(self).is_loaded(),
            value.children is Some,
        ensures
            final(self).is_loaded(),
            final(self).location() == old(self).location(),
            final(self).entries() == old(self).entries().insert(key@, json_of(value.children->0)),
    {
        let mut json = self.json.take().unwrap();
        object_insert(&mut json, key, value.children.unwrap());
        self.json = Some(json);
    }

    /// Stores the string `value` under `key`, replacing any earlier value there.
    pub fn insert(&mut self, key: &str, value: &str)
        requires
            old(self).is_loaded(),
        ensures
            final(self).is_loaded(),
            final(self).location() == old(self).location(),
            final(self).entries() == old(self).entries().insert(key@, Json::Str(value@)),
    {
        let mut json = self.json.take().unwrap();
        object_insert(&mut json, key, string_value(value));
        self.json = Some(json);
    }

    /// Removes `key` and its value; nothing changes where there is no such key.
    pub fn remove(&mut self, key: &str)
        requires
            old(self).is_loaded(),
        ensures
            final(self).is_loaded(),
            final(self).location() == old(self).location(),
            final(self).entries() == old(self).entries().remove(key@),
    {
        let mut json = self.json.take().unwrap();
        object_remove(&mut json, key);
        self.json = Some(json);
    }

    /// The text that the backing file holds after the latest change.
    pub fn serialized(&self) -> (r: String)
        requires
            self.is_loaded(),
        ensures
            r@ == json_text(Json::Object(self.entries())),
    {
        print(self.json.as_ref().unwrap())
    }

    /// The value under `key`. A missing key and a key whose value is `null`
    /// both give the error.
    pub fn find(&self, key: &str) -> (r: Result<&serde_json::Value, String>)
        requires
            self.is_loaded(),
        ensures
            match r {
                Ok(v) => self.entries().contains_key(key@) && json_of(*v) == self.entries()[key@]
                    && !(json_of(*v) is Null),
                Err(msg) => !(self.entries().contains_key(key@) && !(self.entries()[key@] is Null))
                    && msg@ == not_found_message(key@),
            },
    {
        let val = member(self.json.as_ref().unwrap(), key);
        if val.is_null() {
            let mut msg = String::from_str("The key `");
            msg.append(key);
            msg.append("` does not exist in the database. You might want to create this or handle the error!");
            return Err(msg);
        }
        Ok(val)
    }

    /// Whether `key` is a top-level member.
    pub fn contains_key(&mut self, key: &str) -> (r: bool)
        requires
            old(self).is_loaded(),
        ensures
            *final(self) == *old(self),
            r == old(self).entries().contains_key(key@),
    {
        object_contains_key(self.json.as_ref().unwrap(), key)
    }

    /// The number of top-level members.
    pub fn len(&mut self) -> (r: usize)
        requires
            old(self).is_loaded(),
        ensures
            *final(self) == *old(self),
            r as nat == old(self).entries().dom().len(),
    {
        object_len(self.json.as_ref().unwrap())
    }
}

/// Removing a key that is absent leaves the content as it was, so the file is
/// rewritten with the same text.
pub proof fn remove_absent_changes_nothing(db: Database, key: Seq<char>)
    requires
        db.is_loaded(),
        !db.entries().contains_key(key),
    ensures
        db.entries().remove(key) == db.entries(),
        json_text(Json::Object(db.entries().remove(key))) == json_text(Json::Object(db.entries())),
{
    assert(db.entries().remove(key) =~= db.entries());
}

/// Of two values stored under one key, scalar or object, only the second
/// remains, and it is what a lookup of the key sees.
pub proof fn last_insert_wins(db: Database, key: Seq<char>, first: Json, second: Json)
    requires
        db.is_loaded(),
    ensures
        db.entries().insert(key, first).insert(key, second) == db.entries().insert(key, second),
        db.entries().insert(key, first).insert(key, second).contains_key(key),
        db.entries().insert(key, first).insert(key, second)[key] == second,
{
    assert(db.entries().insert(key, first).insert(key, second) =~= db.entries().insert(key, second));
}

/// Loading an empty text gives an object without members: its length is zero
/// and it contains no key.
pub proof fn empty_text_loads_empty(key: Seq<char>)
    ensures
        loaded_from(Seq::empty()) == Some(Json::Object(Map::empty())),
        members(loaded_from(Seq::empty())->0).dom().len() == 0,
        !members(loaded_from(Seq::empty())->0).contains_key(key),
{
}

} // verus!
