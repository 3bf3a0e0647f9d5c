//! The JSON values that the store keeps, and the calls into serde_json that
//! read, build, print and parse them.
use vstd::prelude::*;

verus! {

/// What a JSON value holds, as plain mathematical values.
pub enum Json {
    Null,
    Bool(bool),
    /// A number, by the text that serde_json prints for it.
    Number(Seq<char>),
    Str(Seq<char>),
    Array(Seq<Json>),
    Object(Map<Seq<char>, Json>),
}

#[verifier::external_type_specification]
#[verifier::external_body]
pub struct ExValue(serde_json::Value);

#[verifier::external_type_specification]
#[verifier::external_body]
pub struct ExError(serde_json::Error);

/// What a `serde_json::Value` holds.
pub uninterp spec fn json_of(v: serde_json::Value) -> Json;

/// The text that serde_json prints for a value (`Display`, compact form).
pub uninterp spec fn json_text(j: Json) -> Seq<char>;

/// What serde_json parses out of a text, or `None` where it refuses it.
pub uninterp spec fn json_parse(s: Seq<char>) -> Option<Json>;

/// The members of an object; empty for any other value.
pub open spec fn members(j: Json) -> Map<Seq<char>, Json> {
    match j {
        Json::Object(m) => m,
        _ => Map::empty(),
    }
}

/// Relies on serde_json::from_str: parses a whole text as one JSON value.
#[verifier::external_body]
pub(crate) fn parse(text: &str) -> (r: Result<serde_json::Value, serde_json::Error>)
    ensures
        match r {
            Ok(v) => json_parse(text@) == Some(json_of(v)),
            Err(_) => json_parse(text@) is None,
        },
{
    serde_json::from_str(text)
}

/// Relies on Value::to_string (serde_json's `Display`): the compact JSON text.
#[verifier::external_body]
pub(crate) fn print(v: &serde_json::Value) -> (r: String)
    ensures
        r@ == json_text(json_of(*v)),
{
    v.to_string()
}

/// Relies on Map::new and the Value::Object variant: an object without members.
#[verifier::external_body]
pub(crate) fn empty_object() -> (r: serde_json::Value)
    ensures
        json_of(r) == Json::Object(Map::empty()),
{
    serde_json::Value::Object(serde_json::Map::new())
}

/// Relies on the Value::String variant: a string value holding `s`.
#[verifier::external_body]
pub(crate) fn string_value(s: &str) -> (r: serde_json::Value)
    ensures
        json_of(r) == Json::Str(s@),
{
    serde_json::Value::String(s.to_string())
}

/// Relies on Value::is_null: true of `null` alone.
pub assume_specification[ serde_json::Value::is_null ](v: &serde_json::Value) -> (r: bool)
    ensures
        r == (json_of(*v) is Null),
;

/// Relies on Value::is_object: true of an object alone.
pub assume_specification[ serde_json::Value::is_object ](v: &serde_json::Value) -> (r: bool)
    ensures
        r == (json_of(*v) is Object),
;

/// Relies on Value::as_object_mut and Map::insert: sets member `k` to `x`,
/// replacing any member of that name.
#[verifier::external_body]
pub(crate) fn object_insert(v: &mut serde_json::Value, k: &str, x: serde_json::Value)
    requires
        json_of(*old(v)) is Object,
    ensures
        json_of(*final(v)) == Json::Object(members(json_of(*old(v))).insert(k@, json_of(x))),
{
    v.as_object_mut().unwrap().insert(k.to_string(), x);
}

/// Relies on Value::as_object_mut and Map::remove: drops member `k` if present.
#[verifier::external_body]
pub(crate) fn object_remove(v: &mut serde_json::Value, k: &str)
    requires
        json_of(*old(v)) is Object,
    ensures
        json_of(*final(v)) == Json::Object(members(json_of(*old(v))).remove(k@)),
{
    v.as_object_mut().unwrap().remove(k);
}

/// Relies on Value::as_object and Map::contains_key.
#[verifier::external_body]
pub(crate) fn object_contains_key(v: &serde_json::Value, k: &str) -> (r: bool)
    requires
        json_of(*v) is Object,
    ensures
        r == members(json_of(*v)).contains_key(k@),
{
    v.as_object().unwrap().contains_key(k)
}

/// Relies on Value::as_object and Map::len: the number of members.
#[verifier::external_body]
pub(crate) fn object_len(v: &serde_json::Value) -> (r: usize)
    requires
        json_of(*v) is Object,
    ensures
        r as nat == members(json_of(*v)).dom().len(),
{
    v.as_object().unwrap().len()
}

/// Relies on `Index<&str> for Value`: the member `k` of an object, and `null`
/// where there is no such member.
#[verifier::external_body]
pub(crate) fn member<'a>(v: &'a serde_json::Value, k: &str) -> (r: &'a serde_json::Value)
    ensures
        json_of(*r) == (if members(json_of(*v)).contains_key(k@) {
            members(json_of(*v))[k@]
        } else {
            Json::Null
        }),
{
    &v[k]
}

} // verus!
