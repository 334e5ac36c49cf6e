//! Abstract model of parsed JSON, and the trusted boundary to serde_json.
//!
//! The server answers every request with one bare JSON object; which
//! schema it follows can only be decided by inspecting the parsed value.
//! Parsing itself is delegated to serde_json. Everything serde_json hands
//! back is described through one abstract model: `json_parse` names the
//! document a text parses to (a function of the text alone), `json_rep`
//! names the document a `serde_json::Value` holds, and each accessor
//! wrapper states below what it returns in terms of that model. All schema
//! decisions are made by verified code on top of these accessors.

use vstd::prelude::*;

verus! {

/// A JSON document, as specification-level data. Numbers are split into
/// mathematical integers (covering every integer serde_json represents
/// exactly, i.e. `-(2^63) ..= 2^64 - 1`) and `NonInt` for the rest;
/// objects keep their fields as a sequence of name/value pairs.
pub enum JsonRep {
    Null,
    Bool(bool),
    Int(int),
    NonInt,
    Text(Seq<char>),
    Arr(Seq<JsonRep>),
    Obj(Seq<(Seq<char>, JsonRep)>),
}

/// The value of field `key` among `fields`, if present: the first pair
/// with that name (documents parsed by serde_json never repeat a name).
pub open spec fn obj_lookup(fields: Seq<(Seq<char>, JsonRep)>, key: Seq<char>) -> Option<JsonRep>
    decreases fields.len(),
{
    if fields.len() == 0 {
        None
    } else if fields.first().0 == key {
        Some(fields.first().1)
    } else {
        obj_lookup(fields.drop_first(), key)
    }
}

/// The document that `raw` parses to, or `None` where `raw` is not valid
/// JSON. Named, not defined: serde_json decides it, as a function of the
/// text alone.
pub uninterp spec fn json_parse(raw: Seq<char>) -> Option<JsonRep>;

/// The document held by a parsed `serde_json::Value`.
pub uninterp spec fn json_rep(v: serde_json::Value) -> JsonRep;

#[verifier::external_type_specification]
#[verifier::external_body]
pub struct ExValue(serde_json::Value);

/// Relies on serde_json::from_str::<Value>: parses the text or fails,
/// deterministically in the text alone.
#[verifier::external_body]
pub(crate) fn parse_document(raw: &str) -> (r: Option<serde_json::Value>)
    ensures
        match r {
            Some(v) => json_parse(raw@) == Some(json_rep(v)),
            None => json_parse(raw@) is None,
        },
{
    serde_json::from_str::<serde_json::Value>(raw).ok()
}

/// Relies on serde_json::Value::get with a string index: looks the field
/// up when the value is an object, and returns nothing otherwise.
#[verifier::external_body]
pub(crate) fn doc_get<'a>(v: &'a serde_json::Value, key: &str) -> (r: Option<&'a serde_json::Value>)
    ensures
        match r {
            Some(f) => {
                &&& json_rep(*v) matches JsonRep::Obj(fields)
                &&& obj_lookup(fields, key@) == Some(json_rep(*f))
            },
            None => !(json_rep(*v) matches JsonRep::Obj(fields)
                && obj_lookup(fields, key@) is Some),
        },
{
    v.get(key)
}

/// Relies on serde_json::Value::as_str: the string when the value is a
/// string, nothing otherwise.
#[verifier::external_body]
pub(crate) fn doc_as_str<'a>(v: &'a serde_json::Value) -> (r: Option<&'a str>)
    ensures
        match r {
            Some(s) => json_rep(*v) == JsonRep::Text(s@),
            None => !(json_rep(*v) is Text),
        },
{
    v.as_str()
}

/// Relies on serde_json::Value::as_i64: the value when it is an integer
/// in `i64` range, nothing otherwise (floats are never integers here).
#[verifier::external_body]
pub(crate) fn doc_as_i64(v: &serde_json::Value) -> (r: Option<i64>)
    ensures
        match r {
            Some(n) => json_rep(*v) == JsonRep::Int(n as int),
            None => !(json_rep(*v) matches JsonRep::Int(n) && n <= i64::MAX),
        },
{
    v.as_i64()
}

/// Relies on serde_json::Value::as_array: the elements when the value is
/// an array, nothing otherwise.
#[verifier::external_body]
pub(crate) fn doc_as_array<'a>(v: &'a serde_json::Value) -> (r: Option<&'a Vec<serde_json::Value>>)
    ensures
        match r {
            Some(a) => json_rep(*v) == JsonRep::Arr(a@.map_values(|e: serde_json::Value| json_rep(e))),
            None => !(json_rep(*v) is Arr),
        },
{
    v.as_array()
}

/// Relies on serde_json::Value::is_null.
#[verifier::external_body]
pub(crate) fn doc_is_null(v: &serde_json::Value) -> (r: bool)
    ensures
        r == (json_rep(*v) is Null),
{
    v.is_null()
}

/// Relies on serde_json::Value::is_object.
#[verifier::external_body]
pub(crate) fn doc_is_object(v: &serde_json::Value) -> (r: bool)
    ensures
        r == (json_rep(*v) is Obj),
{
    v.is_object()
}

} // verus!
