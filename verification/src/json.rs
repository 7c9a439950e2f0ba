//! Mathematical model of parsed JSON documents, and the trusted boundary to
//! `serde_json`, which does the text-level parsing.
//!
//! The engine's own logic (envelope decoding) is verified against `JsonModel`;
//! a `serde_json::Value` is opaque to the verifier and is read only through
//! the wrappers below, whose contracts speak of `value_model`.

use vstd::prelude::*;

verus! {

/// Model of a JSON document. An object is modelled as its (key, value) pairs
/// in iteration order with distinct keys; a number carries its value as a
/// signed and as an unsigned integer where it has one, and its decimal text.
pub enum JsonModel {
    Null,
    Bool(bool),
    Num { as_int: Option<i64>, as_uint: Option<u64>, text: Seq<char> },
    Text(Seq<char>),
    Arr(Seq<JsonModel>),
    Obj(Seq<(Seq<char>, JsonModel)>),
}

/// First binding of `key` among an object's fields.
pub open spec fn obj_lookup(fields: Seq<(Seq<char>, JsonModel)>, key: Seq<char>) -> Option<
    JsonModel,
>
    decreases fields.len(),
{
    if fields.len() == 0 {
        None
    } else if fields[0].0 == key {
        Some(fields[0].1)
    } else {
        obj_lookup(fields.drop_first(), key)
    }
}

/// Field lookup on a JSON value: defined only on objects, `None` elsewhere.
pub open spec fn json_get(j: JsonModel, key: Seq<char>) -> Option<JsonModel> {
    match j {
        JsonModel::Obj(fields) => obj_lookup(fields, key),
        _ => None,
    }
}

#[verifier::external_type_specification]
#[verifier::external_body]
pub struct ExValue(serde_json::Value);

/// The JSON document a `serde_json::Value` holds.
pub uninterp spec fn value_model(v: serde_json::Value) -> JsonModel;

/// The document that JSON text denotes, `None` when the text is not valid
/// JSON. Parsing is a function of the text alone.
pub uninterp spec fn parsed_json(s: Seq<char>) -> Option<JsonModel>;

/// Relies on `serde_json::from_str::<Value>`: `Ok` exactly on valid JSON
/// text, and the returned value holds the document the text denotes.
#[verifier::external_body]
pub(crate) fn parse_json(s: &str) -> (r: Result<serde_json::Value, ()>)
    ensures
        match r {
            Ok(v) => parsed_json(s@) == Some(value_model(v)),
            Err(_) => parsed_json(s@) is None,
        },
{
    match serde_json::from_str::<serde_json::Value>(s) {
        Ok(v) => Ok(v),
        Err(_) => Err(()),
    }
}

/// Relies on `serde_json::Value::get` with a string index: on an object,
/// the field named `key`; `None` on any other value.
#[verifier::external_body]
pub(crate) fn value_get<'a>(v: &'a serde_json::Value, key: &str) -> (r: Option<
    &'a serde_json::Value,
>)
    ensures
        match r {
            Some(f) => json_get(value_model(*v), key@) == Some(value_model(*f)),
            None => json_get(value_model(*v), key@) is None,
        },
{
    v.get(key)
}

/// Relies on `serde_json::Value::as_u64`: `Some` exactly for a number stored
/// as a nonnegative integer.
#[verifier::external_body]
pub(crate) fn value_as_u64(v: &serde_json::Value) -> (r: Option<u64>)
    ensures
        r == (match value_model(*v) {
            JsonModel::Num { as_uint, .. } => as_uint,
            _ => None::<u64>,
        }),
{
    v.as_u64()
}

/// Relies on `serde_json::Value::as_i64`: `Some` exactly for a number stored
/// as an integer that fits in `i64`.
#[verifier::external_body]
pub(crate) fn value_as_i64(v: &serde_json::Value) -> (r: Option<i64>)
    ensures
        r == (match value_model(*v) {
            JsonModel::Num { as_int, .. } => as_int,
            _ => None::<i64>,
        }),
{
    v.as_i64()
}

/// Relies on `serde_json::Value::as_bool`: `Some` exactly on a boolean.
#[verifier::external_body]
pub(crate) fn value_as_bool(v: &serde_json::Value) -> (r: Option<bool>)
    ensures
        match r {
            Some(b) => value_model(*v) == JsonModel::Bool(b),
            None => !(value_model(*v) is Bool),
        },
{
    v.as_bool()
}

/// Relies on `serde_json::Value::as_str`: `Some` exactly on a string.
#[verifier::external_body]
pub(crate) fn value_as_str<'a>(v: &'a serde_json::Value) -> (r: Option<&'a str>)
    ensures
        match r {
            Some(s) => value_model(*v) == JsonModel::Text(s@),
            None => !(value_model(*v) is Text),
        },
{
    v.as_str()
}

/// Relies on `serde_json::Value::is_null`.
#[verifier::external_body]
pub(crate) fn value_is_null(v: &serde_json::Value) -> (r: bool)
    ensures
        r == (value_model(*v) is Null),
{
    v.is_null()
}

/// Relies on `serde_json::Value::as_array`: `Some` exactly on an array, whose
/// elements hold the modelled elements in order.
#[verifier::external_body]
pub(crate) fn value_as_array<'a>(v: &'a serde_json::Value) -> (r: Option<
    &'a Vec<serde_json::Value>,
>)
    ensures
        match r {
            Some(a) => value_model(*v) matches JsonModel::Arr(elems) && a@.len() == elems.len()
                && (forall|i: int| 0 <= i < elems.len() ==> value_model(a@[i]) == elems[i]),
            None => !(value_model(*v) is Arr),
        },
{
    v.as_array()
}

/// Relies on `serde_json::Number`'s `Display`: the decimal text of the
/// number, a function of the stored number alone. `Some` exactly on a number.
#[verifier::external_body]
pub(crate) fn value_number_text(v: &serde_json::Value) -> (r: Option<String>)
    ensures
        match r {
            Some(s) => value_model(*v) matches JsonModel::Num { text, .. } && s@ == text,
            None => !(value_model(*v) is Num),
        },
{
    match v {
        serde_json::Value::Number(n) => Some(n.to_string()),
        _ => None,
    }
}

} // verus!
