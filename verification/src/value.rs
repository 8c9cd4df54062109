//! JSON documents, and what `serde_json` does for them: reading a document
//! from text and writing it out, compact or indented.

use vstd::prelude::*;

verus! {

/// A JSON document or a part of one.
#[derive(Debug, PartialEq, Eq)]
pub enum JsonValue {
    Null,
    Bool(bool),
    /// A number, held as its text: an integer stays an integer, and a
    /// fraction is neither rounded nor cut when it is only carried along.
    Number(String),
    String(String),
    Array(Vec<JsonValue>),
    /// The members of an object, in the order in which they are written.
    Object(Vec<(String, JsonValue)>),
}

/// Why a document could not be read or written.
#[derive(Debug, Clone, Copy, PartialEq, Eq)]
pub enum JsonError {
    /// The text is not a JSON document.
    Malformed,
    /// The value cannot be written as JSON: it holds a number whose text is
    /// not a JSON number.
    NotSerializable,
}

/// `serde_json::Value`, carried between the calls into `serde_json` and
/// never looked into.
#[verifier::external_type_specification]
#[verifier::external_body]
pub struct ExValue(serde_json::Value);

/// `serde_json::Error`, of which the library keeps only that there was one.
#[verifier::external_type_specification]
#[verifier::external_body]
pub struct ExError(serde_json::Error);

/// The indented text of `value`: what `serde_json` writes for it through a
/// `PrettyFormatter` with an indentation of four spaces. `None` where
/// `serde_json` does not take the value.
pub uninterp spec fn pretty_text(value: JsonValue) -> Option<Seq<u8>>;

/// The compact text of `value`: what `serde_json::to_string` gives for it.
/// `None` where `serde_json` does not take the value.
pub uninterp spec fn compact_text(value: JsonValue) -> Option<Seq<char>>;

/// The document that `serde_json::from_str` reads from `text`; `None` where it
/// reports an error.
pub uninterp spec fn parsed_text(text: Seq<char>) -> Option<JsonValue>;

/// Builds the `serde_json::Value` that stands for `value`, variant by
/// variant. A number is handed to `serde_json`'s number parser as its text;
/// where the parser refuses it there is no value. Nothing is claimed of the
/// result.
#[verifier::external_body]
fn to_outside(value: &JsonValue) -> Option<serde_json::Value> {
    Some(match value {
        JsonValue::Null => serde_json::Value::Null,
        JsonValue::Bool(b) => serde_json::Value::Bool(*b),
        JsonValue::Number(text) => serde_json::Value::Number(text.parse().ok()?),
        JsonValue::String(s) => serde_json::Value::String(s.clone()),
        JsonValue::Array(items) => serde_json::Value::Array(
            items.iter().map(to_outside).collect::<Option<_>>()?,
        ),
        JsonValue::Object(members) => serde_json::Value::Object(
            members.iter().map(|(k, v)| Some((k.clone(), to_outside(v)?))).collect::<Option<_>>()?,
        ),
    })
}

/// Builds the value that stands for a `serde_json::Value`, variant by
/// variant. A number is taken as the text that `serde_json` displays it with.
/// Nothing is claimed of the result.
#[verifier::external_body]
fn from_outside(value: &serde_json::Value) -> JsonValue {
    match value {
        serde_json::Value::Null => JsonValue::Null,
        serde_json::Value::Bool(b) => JsonValue::Bool(*b),
        serde_json::Value::Number(n) => JsonValue::Number(n.to_string()),
        serde_json::Value::String(s) => JsonValue::String(s.clone()),
        serde_json::Value::Array(items) => JsonValue::Array(items.iter().map(from_outside).collect()),
        serde_json::Value::Object(members) => JsonValue::Object(
            members.iter().map(|(k, v)| (k.clone(), from_outside(v))).collect(),
        ),
    }
}

/// Calls `serde::Serialize::serialize` on the `serde_json::Value` for `value`
/// with a `serde_json::Serializer` that writes into a byte vector through
/// `PrettyFormatter::with_indent` of four spaces. The contract claims only
/// that the bytes depend on `value` alone.
#[verifier::external_body]
fn pretty_bytes(value: &JsonValue) -> (out: Option<Vec<u8>>)
    ensures
        match out {
            Some(bytes) => pretty_text(*value) == Some(bytes@),
            None => pretty_text(*value) is None,
        },
{
    let outside = to_outside(value)?;
    let mut bytes = Vec::new();
    let formatter = serde_json::ser::PrettyFormatter::with_indent(b"    ");
    let mut serializer = serde_json::Serializer::with_formatter(&mut bytes, formatter);
    serde::Serialize::serialize(&outside, &mut serializer).ok()?;
    Some(bytes)
}

/// Calls `serde_json::to_string` on the `serde_json::Value` for `value`. The
/// contract claims only that the text depends on `value` alone.
#[verifier::external_body]
fn compact_string(value: &JsonValue) -> (out: Option<String>)
    ensures
        match out {
            Some(text) => compact_text(*value) == Some(text@),
            None => compact_text(*value) is None,
        },
{
    serde_json::to_string(&to_outside(value)?).ok()
}

/// Calls `serde_json::from_str` for a `serde_json::Value`. The contract
/// claims only that the outcome depends on `text` alone.
#[verifier::external_body]
fn parse_text(text: &str) -> (out: Result<JsonValue, serde_json::Error>)
    ensures
        match out {
            Ok(value) => parsed_text(text@) == Some(value),
            Err(_) => parsed_text(text@) is None,
        },
{
    serde_json::from_str::<serde_json::Value>(text).map(|outside| from_outside(&outside))
}

impl JsonValue {
    /// Reads a document from JSON text.
    pub fn parse(text: &str) -> (result: Result<JsonValue, JsonError>)
        ensures
            match result {
                Ok(value) => parsed_text(text@) == Some(value),
                Err(error) => error == JsonError::Malformed && parsed_text(text@) is None,
            },
    {
        match parse_text(text) {
            Ok(value) => Ok(value),
            Err(_) => Err(JsonError::Malformed),
        }
    }

    /// The indented text of the document: one member or element per line,
    /// four spaces for each level of nesting, no line terminator at the end.
    pub fn to_pretty_bytes(&self) -> (result: Result<Vec<u8>, JsonError>)
        ensures
            match result {
                Ok(bytes) => pretty_text(*self) == Some(bytes@),
                Err(error) => error == JsonError::NotSerializable && pretty_text(*self) is None,
            },
    {
        match pretty_bytes(self) {
            Some(bytes) => Ok(bytes),
            None => Err(JsonError::NotSerializable),
        }
    }

    /// The compact text of the document, as it is stored.
    pub fn to_compact_string(&self) -> (result: Result<String, JsonError>)
        ensures
            match result {
                Ok(text) => compact_text(*self) == Some(text@),
                Err(error) => error == JsonError::NotSerializable && compact_text(*self) is None,
            },
    {
        match compact_string(self) {
            Some(text) => Ok(text),
            None => Err(JsonError::NotSerializable),
        }
    }

    /// The number of elements, if the value is an array.
    pub fn array_len(&self) -> (len: Option<usize>)
        ensures
            len == match *self {
                JsonValue::Array(items) => Some(items@.len() as usize),
                _ => None,
            },
    {
        match self {
            JsonValue::Array(items) => Some(items.len()),
            _ => None,
        }
    }
}

} // verus!
