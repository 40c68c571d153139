//! The JSON boundary.
//!
//! `serde_json` parses and prints the text and owns the value tree. Verus does
//! not look inside a `serde_json::Value` or a `serde_json::Map`; this module
//! gives their content a mathematical name, [`json_of`] and [`members_of`],
//! and states for each `serde_json` function the crate calls what the function
//! does in terms of those names. Nothing in this module is proved: every
//! contract here is an assumption about `serde_json`, and every proof in the
//! crate rests on them.

use vstd::prelude::*;

verus! {

/// The mathematical content of a JSON value.
///
/// An object is a finite map from member names to values: `serde_json` keeps
/// one value under each name. The order in which it keeps the members is left
/// out of the model: with the default features it is the order of the names,
/// which the members themselves determine.
pub ghost enum Json {
    Null,
    Bool(bool),
    /// A number. The codec never reads one, so only its being a number matters;
    /// the payload stands for whatever tells two numbers apart.
    Number(Seq<char>),
    Str(Seq<char>),
    Array(Seq<Json>),
    Object(Map<Seq<char>, Json>),
}

/// `serde_json::Value`, a JSON value tree. Opaque here: [`json_of`] names what
/// it holds.
#[verifier::external_type_specification]
#[verifier::external_body]
pub struct ExValue(serde_json::Value);

/// `serde_json::Map`, the members of a JSON object. Opaque here:
/// [`members_of`] names what it holds.
#[verifier::external_type_specification]
#[verifier::external_body]
#[verifier::reject_recursive_types(K)]
#[verifier::reject_recursive_types(V)]
pub struct ExMap<K, V>(serde_json::Map<K, V>);

/// The members of a JSON object: the value under each name.
pub type Members = Map<Seq<char>, Json>;

/// No members.
pub open spec fn no_members() -> Members {
    Map::empty()
}

/// What a `serde_json::Value` holds.
pub uninterp spec fn json_of(v: serde_json::Value) -> Json;

/// What a `serde_json::Map` holds: the content of the value under each name.
pub uninterp spec fn members_of(m: serde_json::Map<String, serde_json::Value>) -> Members;

/// What `serde_json::from_str` reads from a text at type `Value`: the value,
/// or `None` where it rejects the text.
pub uninterp spec fn parsed(text: Seq<char>) -> Option<Json>;

/// What `serde_json::to_string` prints for a `Value` with the given content:
/// the text, or `None` where it reports an error.
pub uninterp spec fn printed(j: Json) -> Option<Seq<char>>;

/// The contents of a vector of values, element by element.
pub open spec fn json_seq(items: Seq<serde_json::Value>) -> Seq<Json> {
    Seq::new(items.len(), |i: int| json_of(items[i]))
}

/// `Value::is_null` is true of `Value::Null` alone.
pub assume_specification[ serde_json::Value::is_null ](v: &serde_json::Value) -> (r: bool)
    ensures
        r == (json_of(*v) is Null),
;

/// `Value::is_object` is true of `Value::Object(_)` alone.
pub assume_specification[ serde_json::Value::is_object ](v: &serde_json::Value) -> (r: bool)
    ensures
        r == (json_of(*v) is Object),
;

/// `Value::as_bool` hands out the boolean of `Value::Bool(_)`, and `None` for
/// every other value.
pub assume_specification[ serde_json::Value::as_bool ](v: &serde_json::Value) -> (r: Option<bool>)
    ensures
        r == (match json_of(*v) {
            Json::Bool(b) => Some(b),
            _ => None,
        }),
;

/// `Value::as_str` hands out the string of `Value::String(_)`, and `None` for
/// every other value.
pub assume_specification<'a>[ serde_json::Value::as_str ](v: &'a serde_json::Value) -> (r: Option<
    &'a str,
>)
    ensures
        match json_of(*v) {
            Json::Str(s) => r matches Some(t) && t@ == s,
            _ => r is None,
        },
;

/// `Value::as_array` hands out the vector of `Value::Array(_)`, and `None` for
/// every other value.
pub assume_specification<'a>[ serde_json::Value::as_array ](v: &'a serde_json::Value) -> (r: Option<
    &'a Vec<serde_json::Value>,
>)
    ensures
        match json_of(*v) {
            Json::Array(items) => r matches Some(a) && json_seq(a@) == items,
            _ => r is None,
        },
;

/// `Value::get` with a string index: the member of an object under that name,
/// and `None` where the value is no object or the object has no such member.
#[verifier::external_body]
pub(crate) fn member<'a>(v: &'a serde_json::Value, key: &str) -> (r: Option<&'a serde_json::Value>)
    ensures
        match json_of(*v) {
            Json::Object(m) if m.contains_key(key@) => r matches Some(x) && json_of(*x) == m[key@],
            _ => r is None,
        },
{
    v.get(key)
}

/// The variant `Value::Null`.
#[verifier::external_body]
pub(crate) fn null() -> (r: serde_json::Value)
    ensures
        json_of(r) == Json::Null,
{
    serde_json::Value::Null
}

/// The variant `Value::Bool`.
#[verifier::external_body]
pub(crate) fn boolean(b: bool) -> (r: serde_json::Value)
    ensures
        json_of(r) == Json::Bool(b),
{
    serde_json::Value::Bool(b)
}

/// The variant `Value::String`.
#[verifier::external_body]
pub(crate) fn string(s: String) -> (r: serde_json::Value)
    ensures
        json_of(r) == Json::Str(s@),
{
    serde_json::Value::String(s)
}

/// The variant `Value::Array`.
#[verifier::external_body]
pub(crate) fn array(items: Vec<serde_json::Value>) -> (r: serde_json::Value)
    ensures
        json_of(r) == Json::Array(json_seq(items@)),
{
    serde_json::Value::Array(items)
}

/// The variant `Value::Object`: the object that has the members of the map.
#[verifier::external_body]
pub(crate) fn object(m: serde_json::Map<String, serde_json::Value>) -> (r: serde_json::Value)
    ensures
        json_of(r) == Json::Object(members_of(m)),
{
    serde_json::Value::Object(m)
}

/// `Map::new` makes a map without members.
pub assume_specification[ serde_json::Map::<String, serde_json::Value>::new ]() -> (r: serde_json::Map<String, serde_json::Value>)
    ensures
        members_of(r) == no_members(),
;

/// `Map::insert` puts the value under the name, in place of what the map held
/// there before, and leaves the other members as they were. It hands back
/// what the map held under the name before, if anything.
pub assume_specification[ serde_json::Map::<String, serde_json::Value>::insert ](
    m: &mut serde_json::Map<String, serde_json::Value>,
    k: String,
    v: serde_json::Value,
) -> (r: Option<serde_json::Value>)
    ensures
        members_of(*final(m)) == members_of(*old(m)).insert(k@, json_of(v)),
        match r {
            Some(x) => members_of(*old(m)).contains_key(k@) && json_of(x) == members_of(*old(m))[k@],
            None => !members_of(*old(m)).contains_key(k@),
        },
;

/// `serde_json::from_str` at type `Value`, its error dropped. The same text
/// always reads as the same value, which [`parsed`] names.
#[verifier::external_body]
pub(crate) fn parse(text: &str) -> (r: Option<serde_json::Value>)
    ensures
        match r {
            Some(v) => parsed(text@) == Some(json_of(v)),
            None => parsed(text@) is None,
        },
{
    serde_json::from_str::<serde_json::Value>(text).ok()
}

/// `serde_json::to_string` on a `Value`, its error dropped. The text depends
/// on the content of the value alone, and [`printed`] names it.
#[verifier::external_body]
pub(crate) fn print(v: &serde_json::Value) -> (r: Option<String>)
    ensures
        r.deep_view() == printed(json_of(*v)),
{
    serde_json::to_string(v).ok()
}

} // verus!
