//! A JSON document as the decoder reads it.

use vstd::prelude::*;
use crate::text::same_text;

verus! {

/// A JSON value. A number is kept as the text that serde_json writes for it;
/// an object keeps one entry per key.
#[derive(Debug)]
pub enum JsonValue {
    Null,
    Bool(bool),
    Number(String),
    Str(String),
    Array(Vec<JsonValue>),
    Object(Vec<(String, JsonValue)>),
}

/// serde_json's own tree of a JSON document; the library only converts it.
#[verifier::external_type_specification]
#[verifier::external_body]
pub struct ExValue(serde_json::Value);

/// The value that serde_json reads from a text, or none when the text is not
/// one well-formed JSON document.
pub uninterp spec fn parsed_json(text: Seq<char>) -> Option<JsonValue>;

/// Relies on serde_json's `Value` variants: copies one value into the
/// library's own tree, variant for variant.
#[verifier::external_body]
fn from_serde(v: serde_json::Value) -> JsonValue {
    match v {
        serde_json::Value::Null => JsonValue::Null,
        serde_json::Value::Bool(b) => JsonValue::Bool(b),
        serde_json::Value::Number(n) => JsonValue::Number(n.to_string()),
        serde_json::Value::String(s) => JsonValue::Str(s),
        serde_json::Value::Array(a) => JsonValue::Array(a.into_iter().map(from_serde).collect()),
        serde_json::Value::Object(m) => JsonValue::Object(
            m.into_iter().map(|(k, x)| (k, from_serde(x))).collect(),
        ),
    }
}

/// Relies on `serde_json::from_str` into a `Value`: reads one JSON document, or
/// fails with a diagnostic.
#[verifier::external_body]
pub(crate) fn parse_json(text: &str) -> (r: Result<JsonValue, String>)
    ensures
        r matches Ok(v) ==> parsed_json(text@) == Some(v),
        r is Err ==> parsed_json(text@) is None,
{
    match serde_json::from_str::<serde_json::Value>(text) {
        Ok(v) => Ok(from_serde(v)),
        Err(e) => Err(e.to_string()),
    }
}

/// The value of the first entry with the given key.
pub open spec fn entry(entries: Seq<(String, JsonValue)>, key: Seq<char>) -> Option<JsonValue>
    decreases entries.len(),
{
    if entries.len() == 0 {
        None
    } else if entries[0].0@ == key {
        Some(entries[0].1)
    } else {
        entry(entries.drop_first(), key)
    }
}

/// The value under `key` when `v` is an object that has that key.
pub open spec fn field(v: JsonValue, key: Seq<char>) -> Option<JsonValue> {
    match v {
        JsonValue::Object(entries) => entry(entries@, key),
        _ => None,
    }
}

/// Looks up the first entry with the given key.
pub fn get_entry<'a>(entries: &'a Vec<(String, JsonValue)>, key: &str) -> (r: Option<&'a JsonValue>)
    ensures
        match entry(entries@, key@) {
            Some(v) => r == Some(&v),
            None => r is None,
        },
{
    let mut i: usize = 0;
    assert(entries@.subrange(0, entries@.len() as int) == entries@);
    while i < entries.len()
        invariant
            i <= entries@.len(),
            entry(entries@, key@) == entry(entries@.subrange(i as int, entries@.len() as int), key@),
        decreases entries@.len() - i,
    {
        let ghost rest = entries@.subrange(i as int, entries@.len() as int);
        assert(rest.drop_first() == entries@.subrange(i + 1, entries@.len() as int));
        assert(rest[0] == entries@[i as int]);
        if same_text(entries[i].0.as_str(), key) {
            return Some(&entries[i].1);
        }
        i = i + 1;
    }
    assert(entries@.subrange(i as int, entries@.len() as int).len() == 0);
    None
}

} // verus!
