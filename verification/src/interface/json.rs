//! JSON as `serde_json` reads and writes it.
//!
//! Parsing and string escaping are `serde_json`'s work and are not proved
//! here. This module gives their results names, declares the parsed value as
//! an opaque type, and states of each of its accessors what the value's
//! content makes it return. Everything in the rest of the crate is proved from
//! these statements.

use vstd::prelude::*;

verus! {

/// A parsed JSON value, as `serde_json` holds it.
#[verifier::external_type_specification]
#[verifier::external_body]
pub struct ExValue(serde_json::Value);

/// What a JSON value holds. A number is kept as the text `serde_json` prints
/// it with; an object maps each of its keys to one value.
pub enum JsonTree {
    Null,
    Bool(bool),
    Number(Seq<char>),
    Text(Seq<char>),
    Array(Seq<JsonTree>),
    Object(Map<Seq<char>, JsonTree>),
}

impl JsonTree {
    /// The value under `key`, if this is an object that has the key.
    pub open spec fn member(self, key: Seq<char>) -> Option<JsonTree> {
        match self {
            JsonTree::Object(members) => if members.contains_key(key) {
                Some(members[key])
            } else {
                None
            },
            _ => None,
        }
    }
}

/// The content of a parsed value.
pub uninterp spec fn json_of(value: serde_json::Value) -> JsonTree;

/// What `serde_json::from_str` makes of a text: the content of the value it
/// parses, or the text of the error it reports.
pub uninterp spec fn json_parse(text: Seq<char>) -> Result<JsonTree, Seq<char>>;

/// What `serde_json::to_string` makes of a string: the JSON string literal,
/// quotes and escapes included, or nothing where it reports an error.
pub uninterp spec fn json_quoted(text: Seq<char>) -> Option<Seq<char>>;

/// Calls `serde_json::from_str` for a `serde_json::Value`. The contract only
/// names the result: the parsed value's content, or the error's display text,
/// is what `json_parse` gives for the same text.
#[verifier::external_body]
pub(crate) fn parse_json(text: &str) -> (parsed: Result<serde_json::Value, String>)
    ensures
        match parsed {
            Ok(value) => json_parse(text@) == Ok::<JsonTree, Seq<char>>(json_of(value)),
            Err(diagnostic) => json_parse(text@) == Err::<JsonTree, Seq<char>>(diagnostic@),
        },
{
    match serde_json::from_str::<serde_json::Value>(text) {
        Ok(value) => Ok(value),
        Err(error) => Err(error.to_string()),
    }
}

/// Calls `serde_json::Value::get` with a string key. It returns the member
/// under that key when the value is an object that has it, and nothing for a
/// missing key or a value that is no object.
#[verifier::external_body]
pub(crate) fn value_member<'a>(value: &'a serde_json::Value, key: &str) -> (found: Option<
    &'a serde_json::Value,
>)
    ensures
        match found {
            Some(inner) => json_of(*value).member(key@) == Some(json_of(*inner)),
            None => json_of(*value).member(key@) is None,
        },
{
    value.get(key)
}

/// Calls `serde_json::Value::as_str`. It returns the string of a string value
/// and nothing for any other value.
#[verifier::external_body]
pub(crate) fn value_text<'a>(value: &'a serde_json::Value) -> (text: Option<&'a str>)
    ensures
        match text {
            Some(s) => json_of(*value) == JsonTree::Text(s@),
            None => !(json_of(*value) is Text),
        },
{
    value.as_str()
}

/// Calls `serde_json::Value::as_number` and prints the number. It returns the
/// number's text for a number value and nothing for any other value.
#[verifier::external_body]
pub(crate) fn value_number_text(value: &serde_json::Value) -> (text: Option<String>)
    ensures
        match text {
            Some(s) => json_of(*value) == JsonTree::Number(s@),
            None => !(json_of(*value) is Number),
        },
{
    match value.as_number() {
        Some(number) => Some(number.to_string()),
        None => None,
    }
}

/// Calls `serde_json::Value::is_object`. It tells whether the value is an
/// object.
#[verifier::external_body]
pub(crate) fn value_is_object(value: &serde_json::Value) -> (yes: bool)
    ensures
        yes == (json_of(*value) is Object),
{
    value.is_object()
}

/// Calls `serde_json::to_string` on a string. The contract only names the
/// result: the literal, or nothing on an error, is what `json_quoted` gives
/// for the same string.
#[verifier::external_body]
pub(crate) fn quote_json(text: &str) -> (quoted: Option<String>)
    ensures
        match quoted {
            Some(literal) => json_quoted(text@) == Some(literal@),
            None => json_quoted(text@) is None,
        },
{
    match serde_json::to_string(text) {
        Ok(literal) => Some(literal),
        Err(_) => None,
    }
}

} // verus!
