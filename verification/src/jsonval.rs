//! Access to JSON documents through `serde_json`, behind trusted wrappers.
//!
//! A `serde_json::Value` is opaque here; what it holds is described by a
//! ghost model, [`JsonDoc`], that only the trusted accessors below relate
//! to the value. [`parsed_json`] names what parsing a text yields — a
//! function of the text alone — so verified code walking a document can say
//! exactly what it read of the raw text.

use vstd::prelude::*;

verus! {

/// The ghost model of a JSON document. A number is modeled by its unsigned
/// 64-bit reading alone, since that is all this library reads of numbers.
pub enum JsonDoc {
    Null,
    Bool(bool),
    Num(Option<u64>),
    Str(Seq<char>),
    Arr(Seq<JsonDoc>),
    Obj(Map<Seq<char>, JsonDoc>),
}

/// The field of an object model under a key, if the model is an object
/// holding it.
pub open spec fn doc_field(d: JsonDoc, key: Seq<char>) -> Option<JsonDoc> {
    match d {
        JsonDoc::Obj(m) => if m.dom().contains(key) {
            Some(m[key])
        } else {
            None
        },
        _ => None,
    }
}

/// An optional string field as the decoders read it: the text when the
/// field is present and a string, nothing otherwise.
pub open spec fn opt_str_field(d: JsonDoc, key: Seq<char>) -> Option<Seq<char>> {
    match doc_field(d, key) {
        Some(f) => match f {
            JsonDoc::Str(text) => Some(text),
            _ => None,
        },
        None => None,
    }
}

#[verifier::external_type_specification]
#[verifier::external_body]
pub struct ExJsonValue(serde_json::Value);

/// The model of a parsed value: what the accessors read of it.
pub uninterp spec fn doc_of(v: serde_json::Value) -> JsonDoc;

/// What parsing a text as JSON yields, if anything: a function of the text
/// alone.
pub uninterp spec fn parsed_json(s: Seq<char>) -> Option<JsonDoc>;

/// Relies on `serde_json::from_str::<Value>`: parses a JSON document;
/// `None` when the text is not valid JSON. The parse is deterministic, so
/// the outcome is the named function of the text.
#[verifier::external_body]
pub fn json_parse(s: &str) -> (r: Option<serde_json::Value>)
    ensures
        match r {
            Some(v) => parsed_json(s@) == Some(doc_of(v)),
            None => parsed_json(s@) is None,
        },
{
    serde_json::from_str(s).ok()
}

/// Relies on `serde_json::Value::is_object`.
#[verifier::external_body]
pub fn value_is_object(v: &serde_json::Value) -> (r: bool)
    ensures
        r == (doc_of(*v) is Obj),
{
    v.is_object()
}

/// Relies on `serde_json::Value::is_null`.
#[verifier::external_body]
pub fn value_is_null(v: &serde_json::Value) -> (r: bool)
    ensures
        r == (doc_of(*v) is Null),
{
    v.is_null()
}

/// Relies on `serde_json::Value::get` with a string index: the value under
/// that key when `v` is an object holding it, `None` otherwise.
#[verifier::external_body]
pub fn value_get<'a>(v: &'a serde_json::Value, key: &str) -> (r: Option<&'a serde_json::Value>)
    ensures
        match r {
            Some(f) => doc_field(doc_of(*v), key@) == Some(doc_of(*f)),
            None => doc_field(doc_of(*v), key@) is None,
        },
{
    v.get(key)
}

/// Relies on `serde_json::Value::as_str`: the text exactly when `v` is a
/// string.
#[verifier::external_body]
pub fn value_as_string(v: &serde_json::Value) -> (r: Option<String>)
    ensures
        match r {
            Some(s) => doc_of(*v) == JsonDoc::Str(s@),
            None => !(doc_of(*v) is Str),
        },
{
    match v.as_str() {
        Some(s) => Some(s.to_string()),
        None => None,
    }
}

/// Relies on `serde_json::Value::as_bool`: the flag exactly when `v` is a
/// boolean.
#[verifier::external_body]
pub fn value_as_bool(v: &serde_json::Value) -> (r: Option<bool>)
    ensures
        match r {
            Some(b) => doc_of(*v) == JsonDoc::Bool(b),
            None => !(doc_of(*v) is Bool),
        },
{
    v.as_bool()
}

/// Relies on `serde_json::Value::as_u64`: the number exactly when `v` is a
/// number representable as an unsigned 64-bit integer.
#[verifier::external_body]
pub fn value_as_u64(v: &serde_json::Value) -> (r: Option<u64>)
    ensures
        match r {
            Some(n) => doc_of(*v) == JsonDoc::Num(Some(n)),
            None => !(doc_of(*v) is Num) || doc_of(*v)->Num_0 is None,
        },
{
    v.as_u64()
}

/// Relies on `serde_json::Value::as_array`: the elements exactly when `v`
/// is an array, each modeled by the corresponding element of the model.
#[verifier::external_body]
pub fn value_as_array<'a>(v: &'a serde_json::Value) -> (r: Option<&'a Vec<serde_json::Value>>)
    ensures
        match r {
            Some(a) => doc_of(*v) is Arr && a@.len() == doc_of(*v)->Arr_0.len() && forall|i: int|
                0 <= i < a@.len() ==> doc_of(#[trigger] a@[i]) == doc_of(*v)->Arr_0[i],
            None => !(doc_of(*v) is Arr),
        },
{
    v.as_array()
}

} // verus!
