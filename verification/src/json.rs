//! JSON documents, read and written through `serde_json`.
//!
//! `serde_json::Value` stays opaque to the verifier; [`json_model`] names what a
//! value holds, and the wrappers below state each call over that model.

use vstd::prelude::*;

verus! {

#[verifier::external_type_specification]
#[verifier::external_body]
pub struct ExJsonValue(serde_json::Value);

#[verifier::external_type_specification]
#[verifier::external_body]
pub struct ExJsonError(serde_json::Error);

/// A JSON value as the logic of this crate sees it.
pub ghost enum Json {
    Null,
    Bool(bool),
    /// A number, by the decimal text that serde_json writes for it.
    Number(Seq<char>),
    Text(Seq<char>),
    Array(Seq<Json>),
    Object(Map<Seq<char>, Json>),
}

/// What a `serde_json::Value` holds.
pub uninterp spec fn json_model(v: serde_json::Value) -> Json;

/// What `serde_json::from_str::<Value>` gives for a text: `None` where it fails.
pub uninterp spec fn parse_model(raw: Seq<char>) -> Option<Json>;

/// The text that `serde_json::to_string_pretty` writes for a value.
pub uninterp spec fn pretty_text(doc: Json) -> Seq<char>;

/// The text that `Display` of `serde_json::Value` (compact form) writes for a value.
pub uninterp spec fn compact_text(doc: Json) -> Seq<char>;

/// Calls `serde_json::from_str::<Value>`. Claims that the outcome depends on
/// the text alone: a value whose model is `parse_model(raw)`, or an error
/// exactly where `parse_model(raw)` is `None`.
#[verifier::external_body]
pub(crate) fn parse_json(raw: &str) -> (r: Result<serde_json::Value, serde_json::Error>)
    ensures
        match r {
            Ok(v) => parse_model(raw@) == Some(json_model(v)),
            Err(_) => parse_model(raw@) is None,
        },
{
    serde_json::from_str(raw)
}

/// Calls `Display` of `serde_json::Error`; nothing is claimed of the message.
#[verifier::external_body]
pub(crate) fn json_error_text(e: &serde_json::Error) -> String {
    e.to_string()
}

/// `s` starts with `p`.
pub open spec fn has_prefix(s: Seq<char>, p: Seq<char>) -> bool {
    p.len() <= s.len() && s.subrange(0, p.len() as int) == p
}

/// An error message: `prefix` followed by serde_json's message for `e`.
pub(crate) fn json_error_message(prefix: &str, e: &serde_json::Error) -> (r: String)
    ensures
        has_prefix(r@, prefix@),
{
    let mut msg = String::new();
    msg.append(prefix);
    let detail = json_error_text(e);
    msg.append(detail.as_str());
    assert(msg@.subrange(0, prefix@.len() as int) == prefix@);
    msg
}

/// Calls `Value::get` with a string key: the member of an object, `None` for
/// a missing key or a value that is not an object.
#[verifier::external_body]
pub(crate) fn json_get<'a>(v: &'a serde_json::Value, key: &str) -> (r: Option<&'a serde_json::Value>)
    ensures
        match json_model(*v) {
            Json::Object(m) => if m.contains_key(key@) {
                r matches Some(x) && json_model(*x) == m[key@]
            } else {
                r is None
            },
            _ => r is None,
        },
{
    v.get(key)
}

/// Calls `Value::as_str`: the text of a string value, `None` for any other.
#[verifier::external_body]
pub(crate) fn json_as_str<'a>(v: &'a serde_json::Value) -> (r: Option<&'a str>)
    ensures
        match json_model(*v) {
            Json::Text(s) => r matches Some(t) && t@ == s,
            _ => r is None,
        },
{
    v.as_str()
}

/// Calls `Value::as_object_mut` and `Map::insert`: sets a member of an object
/// value, and leaves any other value as it is.
#[verifier::external_body]
pub(crate) fn json_insert(v: &mut serde_json::Value, key: String, member: serde_json::Value) -> (r: bool)
    ensures
        r == (json_model(*old(v)) is Object),
        match json_model(*old(v)) {
            Json::Object(m) => json_model(*final(v)) == Json::Object(m.insert(key@, json_model(member))),
            _ => *final(v) == *old(v),
        },
{
    match v.as_object_mut() {
        Some(map) => {
            map.insert(key, member);
            true
        },
        None => false,
    }
}

/// Calls `Value::as_object_mut` and `Map::remove`: drops a member of an object
/// value, and leaves any other value as it is.
#[verifier::external_body]
pub(crate) fn json_remove(v: &mut serde_json::Value, key: &str) -> (r: bool)
    ensures
        r == (json_model(*old(v)) is Object),
        match json_model(*old(v)) {
            Json::Object(m) => json_model(*final(v)) == Json::Object(m.remove(key@)),
            _ => *final(v) == *old(v),
        },
{
    match v.as_object_mut() {
        Some(map) => {
            map.remove(key);
            true
        },
        None => false,
    }
}

/// Builds `Value::String`.
#[verifier::external_body]
pub(crate) fn json_string(s: String) -> (r: serde_json::Value)
    ensures
        json_model(r) == Json::Text(s@),
{
    serde_json::Value::String(s)
}

/// Builds an empty `Value::Object`.
#[verifier::external_body]
pub(crate) fn json_empty_object() -> (r: serde_json::Value)
    ensures
        json_model(r) == Json::Object(Map::empty()),
{
    serde_json::Value::Object(serde_json::Map::new())
}

/// Calls `serde_json::to_string_pretty` on a `Value`: it succeeds, with a text
/// that depends on the value's model alone. Serializing a `Value` fails only
/// for a map with non-string keys, which a `Value` never has, and the output
/// goes to a `Vec`, which raises no I/O error.
#[verifier::external_body]
pub(crate) fn json_to_string_pretty(v: &serde_json::Value) -> (r: Result<String, serde_json::Error>)
    ensures
        r is Ok,
        r matches Ok(s) ==> s@ == pretty_text(json_model(*v)),
{
    serde_json::to_string_pretty(v)
}

/// Calls `ToString` (through `Display`) of `serde_json::Value`: the compact
/// text, which depends on the value's model alone.
#[verifier::external_body]
pub(crate) fn json_to_string(v: &serde_json::Value) -> (r: String)
    ensures
        r@ == compact_text(json_model(*v)),
{
    v.to_string()
}

} // verus!
