//! The boundary to `serde_json`: the mathematical model of a JSON value and
//! the calls into the crate, each with the contract that is taken on trust.

use vstd::prelude::*;
use vstd::string::*;
use vstd::utf8::*;

verus! {

/// A JSON number as `serde_json` stores it: a non-negative integer, a negative
/// integer, or a finite fraction, the last given by its bit pattern.
pub enum JsonNumber {
    Unsigned(u64),
    Negative(i64),
    Fraction(u64),
}

/// The mathematical model of a JSON value.
pub enum Json {
    Null,
    Bool(bool),
    Number(JsonNumber),
    Text(Seq<char>),
    List(Seq<Json>),
    Object(Map<Seq<char>, Json>),
}

/// The member of an object under `key`; a value that is no object has none.
pub open spec fn member(v: Json, key: Seq<char>) -> Option<Json> {
    match v {
        Json::Object(entries) => if entries.contains_key(key) {
            Some(entries[key])
        } else {
            None
        },
        _ => None,
    }
}

/// The characters of a JSON string; `None` for any other value.
pub open spec fn as_text(v: Json) -> Option<Seq<char>> {
    match v {
        Json::Text(s) => Some(s),
        _ => None,
    }
}

/// A JSON number that is a non-negative integer within 64 bits; `None` for
/// any other value.
pub open spec fn as_u64(v: Json) -> Option<u64> {
    match v {
        Json::Number(JsonNumber::Unsigned(n)) => Some(n),
        _ => None,
    }
}

/// The entries of an object that has none.
pub open spec fn no_entries() -> Map<Seq<char>, Json> {
    Map::empty()
}

/// `serde_json::Value`, carried as it is; what it holds is `json_model`.
#[verifier::external_type_specification]
#[verifier::external_body]
pub struct ExValue(serde_json::Value);

/// `serde_json::Error`, carried as it is.
#[verifier::external_type_specification]
#[verifier::external_body]
pub struct ExJsonError(serde_json::Error);

/// `serde_json::Map`, carried as it is; what it holds is `object_entries`.
#[verifier::external_type_specification]
#[verifier::external_body]
#[verifier::reject_recursive_types(K)]
#[verifier::reject_recursive_types(V)]
pub struct ExJsonMap<K, V>(serde_json::Map<K, V>);

/// What a `serde_json::Value` holds.
pub uninterp spec fn json_model(v: serde_json::Value) -> Json;

/// What a `serde_json::Map` holds: its values by key.
pub uninterp spec fn object_entries(m: serde_json::Map<String, serde_json::Value>) -> Map<
    Seq<char>,
    Json,
>;

/// The value that `serde_json::from_str` reads from a text, `None` where it
/// rejects the text.
pub uninterp spec fn parsed_text(text: Seq<char>) -> Option<Json>;

/// The text that `serde_json::to_string` writes for a value, `None` where it
/// fails.
pub uninterp spec fn printed_text(v: Json) -> Option<Seq<char>>;

/// `std::str::from_utf8`: the bytes as text exactly when they are valid
/// UTF-8, and then the text's bytes are the given ones.
#[verifier::external_body]
pub(crate) fn utf8_text(bytes: &[u8]) -> (r: Option<&str>)
    ensures
        r is Some <==> valid_utf8(bytes@),
        r is Some ==> r.unwrap().spec_bytes() == bytes@,
{
    std::str::from_utf8(bytes).ok()
}

/// `serde_json::from_str` at `serde_json::Value`: succeeds exactly on the
/// texts for which a parsed value is defined, and returns that value.
#[verifier::external_body]
pub(crate) fn parse_text(text: &str) -> (r: Result<serde_json::Value, serde_json::Error>)
    ensures
        match r {
            Ok(v) => parsed_text(text@) == Some(json_model(v)),
            Err(_) => parsed_text(text@) is None,
        },
{
    serde_json::from_str::<serde_json::Value>(text)
}

/// `serde_json::to_string` on a `serde_json::Value`: the text depends on
/// what the value holds alone (an object is kept sorted by key, so the order
/// in which its members were put in leaves no trace).
#[verifier::external_body]
pub(crate) fn print_value(v: &serde_json::Value) -> (r: Result<String, serde_json::Error>)
    ensures
        match r {
            Ok(s) => printed_text(json_model(*v)) == Some(s@),
            Err(_) => printed_text(json_model(*v)) is None,
        },
{
    serde_json::to_string(v)
}

/// `Display` of `serde_json::Error`: a description for people; nothing is
/// claimed of its wording.
#[verifier::external_body]
pub(crate) fn error_text(e: &serde_json::Error) -> (r: String) {
    e.to_string()
}

/// `serde_json::Value::get` with a string key: the member under that key
/// where the value is an object that has it.
#[verifier::external_body]
pub(crate) fn value_member<'a>(v: &'a serde_json::Value, key: &str) -> (r: Option<&'a serde_json::Value>)
    ensures
        match r {
            Some(x) => member(json_model(*v), key@) == Some(json_model(*x)),
            None => member(json_model(*v), key@) is None,
        },
{
    v.get(key)
}

/// `Clone` of `serde_json::Value`: the copy holds what the value holds.
pub assume_specification[ <serde_json::Value as Clone>::clone ](v: &serde_json::Value) -> (r: serde_json::Value)
    ensures
        json_model(r) == json_model(*v),
;

/// `serde_json::Value::as_str`: the characters where the value is a string.
#[verifier::external_body]
pub(crate) fn value_text(v: &serde_json::Value) -> (r: Option<String>)
    ensures
        match r {
            Some(s) => as_text(json_model(*v)) == Some(s@),
            None => as_text(json_model(*v)) is None,
        },
{
    v.as_str().map(String::from)
}

/// `serde_json::Value::as_u64`: the number where the value is a non-negative
/// integer.
#[verifier::external_body]
pub(crate) fn value_u64(v: &serde_json::Value) -> (r: Option<u64>)
    ensures
        r == as_u64(json_model(*v)),
{
    v.as_u64()
}

/// `serde_json::Value::String`: the JSON string with the given characters.
#[verifier::external_body]
pub(crate) fn text_value(s: String) -> (r: serde_json::Value)
    ensures
        json_model(r) == Json::Text(s@),
{
    serde_json::Value::String(s)
}

/// `From<u64>` of `serde_json::Value`: the JSON number that is this integer.
#[verifier::external_body]
pub(crate) fn u64_value(n: u64) -> (r: serde_json::Value)
    ensures
        json_model(r) == Json::Number(JsonNumber::Unsigned(n)),
{
    serde_json::Value::from(n)
}

/// `serde_json::Value::Object`: the JSON object with the map's entries.
#[verifier::external_body]
pub(crate) fn object_value(m: serde_json::Map<String, serde_json::Value>) -> (r: serde_json::Value)
    ensures
        json_model(r) == Json::Object(object_entries(m)),
{
    serde_json::Value::Object(m)
}

/// `serde_json::Map::new`: a map without entries.
#[verifier::external_body]
pub(crate) fn new_object() -> (r: serde_json::Map<String, serde_json::Value>)
    ensures
        object_entries(r) == no_entries(),
{
    serde_json::Map::new()
}

/// `serde_json::Map::insert`: the entry under `key` is set to the value, the
/// others stay.
#[verifier::external_body]
pub(crate) fn object_insert(m: &mut serde_json::Map<String, serde_json::Value>, key: String, v: serde_json::Value)
    ensures
        object_entries(*final(m)) == object_entries(*old(m)).insert(key@, json_model(v)),
{
    m.insert(key, v);
}

} // verus!
