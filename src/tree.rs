//! A builder for a sub-document: string members gathered in memory before the
//! whole object is stored under one key of a database.
use vstd::prelude::*;
use crate::json::{empty_object, json_of, members, object_insert, string_value, Json};

verus! {

pub struct Tree {
    /// The object built so far; `None` only in a tree that was not made by `new`.
    pub children: Option<serde_json::Value>,
}

impl Tree {
    /// A tree is usable when it holds an object.
    pub open spec fn wf(&self) -> bool {
        self.children is Some && json_of(self.children->0) is Object
    }

    /// The members gathered so far.
    pub open spec fn entries(&self) -> Map<Seq<char>, Json> {
        match self.children {
            Some(v) => members(json_of(v)),
            None => Map::empty(),
        }
    }

    /// An empty tree.
    pub fn new() -> (t: Tree)
        ensures
            t.wf(),
            t.entries() == Map::<Seq<char>, Json>::empty(),
    {
        Tree { children: Some(empty_object()) }
    }

    /// Sets member `key` to the string `value`, replacing any earlier one.
    pub fn insert(&mut self, key: &str, value: &str)
        requires
            old(self).wf(),
        ensures
            final(self).wf(),
            final(self).entries() == old(self).entries().insert(key@, Json::Str(value@)),
    {
        let mut children = self.children.take().unwrap();
        object_insert(&mut children, key, string_value(value));
        self.children = Some(children);
    }
}

} // verus!
