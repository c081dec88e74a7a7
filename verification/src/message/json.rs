//! The boundary to `serde_json`: parsing text into a document, reading a
//! document's members, and writing a document back out as text.
//!
//! A `serde_json::Value` is opaque to the verifier. What it holds is named by
//! [`json_tree`], and every function here that reads a value says what it
//! returns in terms of that tree. None of these contracts is proved: they
//! restate what `serde_json` documents.

use serde_json::Value;
use vstd::prelude::*;

verus! {

#[verifier::external_type_specification]
#[verifier::external_body]
pub struct ExValue(serde_json::Value);

#[verifier::external_type_specification]
#[verifier::external_body]
pub struct ExJsonError(serde_json::Error);

/// A JSON document as a mathematical value. The digits of a number are not
/// modelled: nothing in this library reads them.
pub enum JsonTree {
    Null,
    Bool { value: bool },
    Number,
    Text { text: Seq<char> },
    Array { items: Seq<JsonTree> },
    Object { fields: Map<Seq<char>, JsonTree> },
}

/// The document that a `serde_json::Value` holds.
pub uninterp spec fn json_tree(value: Value) -> JsonTree;

/// The value that `serde_json::from_str` reads from a text, or `None` where
/// it reports an error.
pub uninterp spec fn parsed_json(text: Seq<char>) -> Option<Value>;

/// The string value that `Value::from` makes of a text.
pub uninterp spec fn json_string(text: Seq<char>) -> Value;

/// The compact text that `serde_json::to_string` writes for a value, or
/// `None` where it reports an error.
pub uninterp spec fn json_text(value: Value) -> Option<Seq<char>>;

/// `serde_json::from_str` at `Value`: parses one JSON document. The result
/// depends on the text alone and is named by [`parsed_json`].
#[verifier::external_body]
pub(crate) fn parse_json(text: &str) -> (parsed: Result<Value, serde_json::Error>)
    ensures
        parsed is Ok <==> parsed_json(text@) is Some,
        parsed matches Ok(value) ==> parsed_json(text@) == Some(value),
{
    serde_json::from_str::<Value>(text)
}

/// `Value::get` with a string key: the member of an object under that key.
/// It returns `None` when the value is not an object or has no such member.
#[verifier::external_body]
pub(crate) fn value_member<'a>(value: &'a Value, key: &str) -> (member: Option<&'a Value>)
    ensures
        match member {
            Some(found) => json_tree(*value) matches JsonTree::Object { fields }
                && fields.contains_key(key@) && json_tree(*found) == fields[key@],
            None => !(json_tree(*value) matches JsonTree::Object { fields } && fields.contains_key(
                key@,
            )),
        },
{
    value.get(key)
}

/// `Value::as_str`: the text of a string value, `None` for any other value.
#[verifier::external_body]
pub(crate) fn value_text<'a>(value: &'a Value) -> (text: Option<&'a str>)
    ensures
        match text {
            Some(s) => json_tree(*value) == (JsonTree::Text { text: s@ }),
            None => !(json_tree(*value) is Text),
        },
{
    value.as_str()
}

/// `Value::is_null`: whether the value is JSON `null`.
#[verifier::external_body]
pub(crate) fn value_is_null(value: &Value) -> (null: bool)
    ensures
        null == (json_tree(*value) is Null),
{
    value.is_null()
}

/// `Value::clone`: a copy equal to the value it was made from.
#[verifier::external_body]
pub(crate) fn clone_value(value: &Value) -> (copy: Value)
    ensures
        copy == *value,
{
    value.clone()
}

/// `Value::from` at `&str`: the string value with the given text, named by
/// [`json_string`].
#[verifier::external_body]
pub(crate) fn string_value(text: &str) -> (value: Value)
    ensures
        value == json_string(text@),
        json_tree(value) == (JsonTree::Text { text: text@ }),
{
    Value::from(text)
}

/// `serde_json::to_string` at `Value`: the value as compact JSON text. The
/// result depends on the value alone and is named by [`json_text`].
#[verifier::external_body]
pub(crate) fn render_value(value: &Value) -> (rendered: Result<String, serde_json::Error>)
    ensures
        rendered is Ok <==> json_text(*value) is Some,
        rendered matches Ok(text) ==> json_text(*value) == Some(text@),
{
    serde_json::to_string(value)
}

} // verus!
