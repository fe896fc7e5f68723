//! The wire-level outcome convention on signaling payloads.
//!
//! A payload is opaque structured data (`serde_json::Value`); the relay
//! never parses its signaling semantics. All it ever does at the boundary
//! is, on success, make sure the payload carries an `"ok": true` marker,
//! and, on failure, build a fresh `{"ok": false, "error": <description>}`
//! object. The payload's JSON object is modelled abstractly as a map from
//! key to the serialized text of the entry's value.

use vstd::prelude::*;

verus! {

/// Whether this value is a JSON object.
pub uninterp spec fn json_is_object(v: serde_json::Value) -> bool;

/// The entries of a JSON object: each key mapped to the serialized text of
/// its value. Serialization of a value is a function of the value alone
/// (keys are kept sorted), so this identifies an object's contents without
/// spelling out the value grammar.
pub uninterp spec fn json_entries(v: serde_json::Value) -> Map<Seq<char>, Seq<char>>;

/// The serialized text of a JSON string with these characters (the quoted,
/// escaped form).
pub uninterp spec fn json_text_of_str(s: Seq<char>) -> Seq<char>;

#[verifier::external_type_specification]
#[verifier::external_body]
pub struct ExValue(serde_json::Value);

/// An object model with no entries.
pub open spec fn no_entries() -> Map<Seq<char>, Seq<char>> {
    Map::empty()
}

/// The serialized text of a JSON boolean.
pub open spec fn bool_text(b: bool) -> Seq<char> {
    if b {
        "true"@
    } else {
        "false"@
    }
}

/// Relies on `serde_json::Map::new` and the `Value::Object` constructor:
/// a freshly built object value with no entries.
#[verifier::external_body]
pub fn new_object() -> (v: serde_json::Value)
    ensures
        json_is_object(v),
        json_entries(v) == no_entries(),
{
    serde_json::Value::Object(serde_json::Map::new())
}

/// Relies on `serde_json::Value::is_object`: true exactly for the
/// `Value::Object` variant.
#[verifier::external_body]
pub fn is_object(v: &serde_json::Value) -> (r: bool)
    ensures
        r == json_is_object(*v),
{
    v.is_object()
}

/// Relies on `serde_json::Map::insert` (through `Value::as_object_mut`):
/// sets the entry under `key` to the boolean `b`, replacing any previous
/// entry under that key and leaving every other entry as it was.
#[verifier::external_body]
pub fn set_bool(v: &mut serde_json::Value, key: &str, b: bool)
    requires
        json_is_object(*old(v)),
    ensures
        json_is_object(*final(v)),
        json_entries(*final(v)) == json_entries(*old(v)).insert(key@, bool_text(b)),
{
    v.as_object_mut().unwrap().insert(key.to_string(), serde_json::Value::Bool(b));
}

/// Relies on `serde_json::Map::insert` (through `Value::as_object_mut`):
/// sets the entry under `key` to the string `s`, replacing any previous
/// entry under that key and leaving every other entry as it was.
#[verifier::external_body]
pub fn set_str(v: &mut serde_json::Value, key: &str, s: &str)
    requires
        json_is_object(*old(v)),
    ensures
        json_is_object(*final(v)),
        json_entries(*final(v)) == json_entries(*old(v)).insert(key@, json_text_of_str(s@)),
{
    v.as_object_mut().unwrap().insert(key.to_string(), serde_json::Value::String(s.to_string()));
}

/// Relies on `serde_json::Map::entry` and `Entry::or_insert` (through
/// `Value::as_object_mut`): inserts the boolean `b` under `key` only if no
/// entry with that key is present; an existing entry, whatever its value,
/// is left untouched, as is every other entry.
#[verifier::external_body]
pub fn set_bool_if_absent(v: &mut serde_json::Value, key: &str, b: bool)
    requires
        json_is_object(*old(v)),
    ensures
        json_is_object(*final(v)),
        json_entries(*final(v)) == if json_entries(*old(v)).dom().contains(key@) {
            json_entries(*old(v))
        } else {
            json_entries(*old(v)).insert(key@, bool_text(b))
        },
{
    v.as_object_mut().unwrap().entry(key).or_insert(serde_json::Value::Bool(b));
}

/// The entries of an object after the success marker has been ensured: an
/// absent `"ok"` entry becomes `true`, a present one is kept as it is.
pub open spec fn ok_marked(m: Map<Seq<char>, Seq<char>>) -> Map<Seq<char>, Seq<char>> {
    if m.dom().contains("ok"@) {
        m
    } else {
        m.insert("ok"@, bool_text(true))
    }
}

/// The entries of the failure object built for an error description.
pub open spec fn failure_entries(description: Seq<char>) -> Map<Seq<char>, Seq<char>> {
    no_entries().insert("ok"@, bool_text(false)).insert("error"@, json_text_of_str(description))
}

/// Inject the `"ok": true` success marker into a response payload if it is
/// not already present; a payload that already carries an `"ok"` entry is
/// returned unchanged.
pub fn mark_ok(v: &mut serde_json::Value)
    requires
        json_is_object(*old(v)),
    ensures
        json_is_object(*final(v)),
        json_entries(*final(v)) == ok_marked(json_entries(*old(v))),
{
    set_bool_if_absent(v, "ok", true);
}

/// Build the wire-level failure payload `{"ok": false, "error":
/// <description>}` that replaces a response wholesale when processing or
/// peer resolution has failed.
pub fn failure_payload(description: &str) -> (v: serde_json::Value)
    ensures
        json_is_object(v),
        json_entries(v) == failure_entries(description@),
{
    let mut v = new_object();
    set_bool(&mut v, "ok", false);
    set_str(&mut v, "error", description);
    v
}

} // verus!
