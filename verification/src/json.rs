//! The boundary with `serde_json`: a mathematical model of a JSON document,
//! and the few constructors and the serialiser of that crate that the
//! library calls. Nothing in this file is proved; every contract here is
//! taken from the source of `serde_json` and believed.

use vstd::prelude::*;

verus! {

/// What a JSON document holds.
///
/// An object is a map from keys to documents: a key occurs once, and the
/// order in which the keys were put in plays no part.
pub enum Json {
    Null,
    Bool(bool),
    /// A whole number.
    Integer(int),
    /// A number with a fractional part, by its 64-bit pattern.
    Fractional(u64),
    Text(Seq<char>),
    Array(Seq<Json>),
    Object(Map<Seq<char>, Json>),
}

#[verifier::external_type_specification]
#[verifier::external_body]
pub struct ExValue(serde_json::Value);

#[verifier::external_type_specification]
#[verifier::external_body]
#[verifier::reject_recursive_types(K)]
#[verifier::reject_recursive_types(V)]
pub struct ExMap<K, V>(serde_json::Map<K, V>);

#[verifier::external_type_specification]
#[verifier::external_body]
pub struct ExError(serde_json::Error);

/// The map that `serde_json` keeps the members of an object in.
pub type JsonMap = serde_json::Map<String, serde_json::Value>;

/// No entries at all.
pub open spec fn empty_entries() -> Map<Seq<char>, Json> {
    Map::empty()
}

/// The document that a `serde_json::Value` holds.
pub uninterp spec fn json_of(value: serde_json::Value) -> Json;

/// The entries that a `serde_json::Map` holds, each value as a document.
pub uninterp spec fn json_entries(map: JsonMap) -> Map<Seq<char>, Json>;

/// What `serde_json::to_string` makes of a document: its compact text, or
/// nothing where the serialiser fails on it.
pub uninterp spec fn json_text(document: Json) -> Option<Seq<char>>;

/// `serde_json::Value::from` on a `usize`: the value is the number `n`,
/// held as a whole number.
#[verifier::external_body]
pub(crate) fn json_number(n: usize) -> (value: serde_json::Value)
    ensures
        json_of(value) == Json::Integer(n as int),
{
    serde_json::Value::from(n)
}

/// `serde_json::Value::from` on a `bool`: the value is that boolean.
#[verifier::external_body]
pub(crate) fn json_bool(b: bool) -> (value: serde_json::Value)
    ensures
        json_of(value) == Json::Bool(b),
{
    serde_json::Value::from(b)
}

/// `serde_json::Value::from` on a `String`: the value is a string with the
/// same characters.
#[verifier::external_body]
pub(crate) fn json_string(s: String) -> (value: serde_json::Value)
    ensures
        json_of(value) == Json::Text(s@),
{
    serde_json::Value::from(s)
}

/// `serde_json::Map::new`: a map without entries.
#[verifier::external_body]
pub(crate) fn json_map_new() -> (fields: JsonMap)
    ensures
        json_entries(fields) == empty_entries(),
{
    serde_json::Map::new()
}

/// `serde_json::Map::insert`: the key now leads to the value, whatever it
/// led to before, and every other entry is as it was. The value that the
/// key led to before, which the method hands back, is dropped.
#[verifier::external_body]
pub(crate) fn json_map_insert(
    map: &mut JsonMap,
    key: &str,
    value: serde_json::Value,
)
    ensures
        json_entries(*final(map)) == json_entries(*old(map)).insert(key@, json_of(value)),
{
    map.insert(key.to_owned(), value);
}

/// `serde_json::Value::from` on a map: the value is the object with the
/// map's entries.
#[verifier::external_body]
pub(crate) fn json_object(map: JsonMap) -> (value: serde_json::Value)
    ensures
        json_of(value) == Json::Object(json_entries(map)),
{
    serde_json::Value::from(map)
}

/// `serde_json::to_string` on a `Value`: whether it succeeds, and with
/// which text, depends on the document that the value holds and on nothing
/// else. Nothing is claimed about which documents it succeeds on, nor
/// about what the text looks like.
#[verifier::external_body]
pub(crate) fn json_to_string(value: &serde_json::Value) -> (text: Result<String, serde_json::Error>)
    ensures
        match text {
            Ok(written) => json_text(json_of(*value)) == Some(written@),
            Err(_) => json_text(json_of(*value)) is None,
        },
{
    serde_json::to_string(value)
}

} // verus!
