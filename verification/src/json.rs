//! The wire format, modelled, and the trusted boundary around the JSON
//! library.
//!
//! A parsed document is held in a `serde_json::Value`, which Verus treats as
//! opaque. Its contents are given a mathematical model, [`Json`], through the
//! uninterpreted function [`json_rep`]; what the parser makes of a given text
//! is named by [`json_of_text`]. Every trusted item below states its contract
//! over these two names, and all decoding and encoding logic of the library
//! is verified against those contracts.

use vstd::prelude::*;

verus! {

/// The mathematical model of a JSON document.
///
/// Numbers that are representable as `u64` are modelled exactly, since they
/// are the only numbers the wire shapes of this library carry; every other
/// number (negative, fractional, or out of range) is modelled as `Other`.
pub enum Json {
    Null,
    Bool(bool),
    UInt(u64),
    Str(Seq<char>),
    Arr(Seq<Json>),
    Obj(Map<Seq<char>, Json>),
    Other,
}

/// The model of the document a `serde_json::Value` holds.
pub uninterp spec fn json_rep(v: serde_json::Value) -> Json;

/// The document that the JSON parser reads out of a text, or `None` where
/// the text is not JSON the parser accepts. Parsing depends on the text
/// alone, so this is a function of the text.
pub uninterp spec fn json_of_text(s: Seq<char>) -> Option<Json>;

/// The entries of a `serde_json::Map` of strings to values, as a map from
/// the key's characters to the model of the value.
pub uninterp spec fn jmap_rep(m: serde_json::Map<String, serde_json::Value>) -> Map<
    Seq<char>,
    Json,
>;

#[verifier::external_type_specification]
#[verifier::external_body]
pub struct ExJsonValue(serde_json::Value);

#[verifier::external_type_specification]
#[verifier::external_body]
#[verifier::reject_recursive_types(K)]
#[verifier::reject_recursive_types(V)]
pub struct ExJsonMap<K, V>(serde_json::Map<K, V>);

/// Relies on `serde_json::from_str::<serde_json::Value>`: it returns the
/// document the text holds, and fails exactly on text that is not JSON it
/// accepts. Parsing reads nothing but the text, so two calls on one text
/// agree, which is what `json_of_text` names.
#[verifier::external_body]
pub(crate) fn json_parse(s: &str) -> (r: Result<serde_json::Value, String>)
    ensures
        match r {
            Ok(v) => json_of_text(s@) == Some(json_rep(v)),
            Err(_) => json_of_text(s@) is None,
        },
{
    match serde_json::from_str::<serde_json::Value>(s) {
        Ok(v) => Ok(v),
        Err(e) => Err(e.to_string()),
    }
}

/// Holds of a document that is one object whose fields are all strings: the
/// only shape this library ever serializes.
pub open spec fn flat_string_object(j: Json) -> bool {
    &&& j matches Json::Obj(m)
    &&& forall|k: Seq<char>| #[trigger] m.contains_key(k) ==> m[k] is Str
}

/// Relies on `serde_json::to_string` on a `serde_json::Value`: for a value
/// that is one object of string fields it cannot fail — serialization
/// errors come only from a failing `Serialize` impl or a map with
/// non-string keys, and the writer is a byte vector — and the produced
/// text is JSON that parses back to an equal value.
#[verifier::external_body]
pub(crate) fn json_to_text(v: &serde_json::Value) -> (r: Result<String, String>)
    requires
        flat_string_object(json_rep(*v)),
    ensures
        r is Ok,
        r matches Ok(t) ==> json_of_text(t@) == Some(json_rep(*v)),
{
    match serde_json::to_string(v) {
        Ok(t) => Ok(t),
        Err(e) => Err(e.to_string()),
    }
}

/// Relies on `serde_json::Value::as_array`: it returns the elements exactly
/// of a value that holds an array.
pub assume_specification[ serde_json::Value::as_array ](v: &serde_json::Value) -> (r: Option<
    &Vec<serde_json::Value>,
>)
    ensures
        match r {
            Some(a) => json_rep(*v) == Json::Arr(a@.map_values(|e| json_rep(e))),
            None => !(json_rep(*v) is Arr),
        },
;

/// Relies on `serde_json::Value::as_str`: it returns the characters exactly
/// of a value that holds a string.
pub assume_specification[ serde_json::Value::as_str ](v: &serde_json::Value) -> (r: Option<&str>)
    ensures
        match r {
            Some(s) => json_rep(*v) == Json::Str(s@),
            None => !(json_rep(*v) is Str),
        },
;

/// Relies on `serde_json::Value::as_u64`: it returns the number exactly of
/// a value that holds a number representable as `u64`.
pub assume_specification[ serde_json::Value::as_u64 ](v: &serde_json::Value) -> (r: Option<u64>)
    ensures
        match json_rep(*v) {
            Json::UInt(n) => r == Some(n),
            _ => r is None,
        },
;

/// Relies on `serde_json::Value::get` with a string index: on a value that
/// holds an object it looks the key up, on any other value it returns
/// `None`.
#[verifier::external_body]
pub(crate) fn json_get<'a>(v: &'a serde_json::Value, key: &str) -> (r: Option<
    &'a serde_json::Value,
>)
    ensures
        match r {
            Some(w) => json_rep(*v) matches Json::Obj(m) && m.contains_key(key@) && json_rep(*w)
                == m[key@],
            None => json_rep(*v) matches Json::Obj(m) ==> !m.contains_key(key@),
        },
{
    v.get(key)
}

/// Relies on `serde_json::Value::String`: the variant holds the characters
/// it is given.
#[verifier::external_body]
pub(crate) fn json_string(s: &str) -> (r: serde_json::Value)
    ensures
        json_rep(r) == Json::Str(s@),
{
    serde_json::Value::String(s.to_string())
}

/// Relies on `serde_json::Value::Object`: the variant holds the entries of
/// the map it is given.
#[verifier::external_body]
pub(crate) fn json_object(m: serde_json::Map<String, serde_json::Value>) -> (r: serde_json::Value)
    ensures
        json_rep(r) == Json::Obj(jmap_rep(m)),
{
    serde_json::Value::Object(m)
}

/// Relies on `serde_json::Map::new`: the new map is empty.
#[verifier::external_body]
pub(crate) fn jmap_new() -> (r: serde_json::Map<String, serde_json::Value>)
    ensures
        jmap_rep(r) =~= Map::empty(),
{
    serde_json::Map::new()
}

/// Relies on `serde_json::Map::insert`: the entry is added to the map,
/// replacing any entry under the same key.
#[verifier::external_body]
pub(crate) fn jmap_insert(
    m: &mut serde_json::Map<String, serde_json::Value>,
    key: &str,
    value: serde_json::Value,
)
    ensures
        jmap_rep(*final(m)) == jmap_rep(*old(m)).insert(key@, json_rep(value)),
{
    m.insert(key.to_string(), value);
}

} // verus!
