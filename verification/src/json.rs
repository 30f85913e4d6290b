//! JSON documents, as far as a token response needs them.
//!
//! Parsing is `serde_json`'s. Its documents stay opaque to the verifier: what
//! the parser and the accessors return is given a name here, and everything
//! that is decided on those results is proved against the names.

use vstd::prelude::*;

verus! {

/// `serde_json::Value`, a parsed JSON document or a part of one. Nothing of
/// its inside is known to the verifier.
#[verifier::external_type_specification]
#[verifier::external_body]
pub struct ExJsonValue(serde_json::Value);

/// `serde_json::Error`, the diagnostic of a text that is no JSON document.
/// Nothing of its inside is known to the verifier.
#[verifier::external_type_specification]
#[verifier::external_body]
pub struct ExJsonError(serde_json::Error);

/// What `serde_json::from_str` makes of a text: the document, or the
/// diagnostic with which it rejects the text.
pub uninterp spec fn json_document(text: Seq<char>) -> Result<serde_json::Value, serde_json::Error>;

/// What `serde_json::Value::get` finds under a string key.
pub uninterp spec fn json_member(value: serde_json::Value, key: Seq<char>) -> Option<
    serde_json::Value,
>;

/// What `serde_json::Value::as_str` reads from a value.
pub uninterp spec fn json_text(value: serde_json::Value) -> Option<Seq<char>>;

/// What `serde_json::Value::as_i64` reads from a value.
pub uninterp spec fn json_integer(value: serde_json::Value) -> Option<i64>;

/// Calls `serde_json::from_str` for a `serde_json::Value`. The parser reads
/// nothing but the text, so its answer is the same for the same text; the
/// contract gives that answer its name and claims no more.
#[verifier::external_body]
pub(crate) fn parse_document(text: &str) -> (parsed: Result<serde_json::Value, serde_json::Error>)
    ensures
        parsed == json_document(text@),
{
    serde_json::from_str(text)
}

/// Calls `serde_json::Value::get` with a string key: the member of that name
/// where the value is an object that has one, nothing otherwise. The
/// contract names the answer and claims no more.
#[verifier::external_body]
fn member<'a>(value: &'a serde_json::Value, key: &str) -> (found: Option<&'a serde_json::Value>)
    ensures
        match found {
            Some(inner) => json_member(*value, key@) == Some(*inner),
            None => json_member(*value, key@) is None,
        },
{
    value.get(key)
}

/// `serde_json::Value::as_str`: the text where the value is a string, nothing
/// otherwise. The contract names the answer and claims no more.
pub assume_specification[ serde_json::Value::as_str ](value: &serde_json::Value) -> (text: Option<
    &str,
>)
    ensures
        match text {
            Some(s) => json_text(*value) == Some(s@),
            None => json_text(*value) is None,
        },
;

/// `serde_json::Value::as_i64`: the number where the value is an integer
/// within `i64`, nothing otherwise. The contract names the answer and claims
/// no more.
pub assume_specification[ serde_json::Value::as_i64 ](value: &serde_json::Value) -> (number: Option<
    i64,
>)
    ensures
        number == json_integer(*value),
;

/// What one member of a document holds, as far as a token response cares.
#[derive(Debug, Clone, PartialEq, Eq)]
pub enum JsonField {
    /// The document has no such member, or is no object at all.
    Missing,
    /// A string.
    Text(String),
    /// An integer within `i64`.
    Integer(i64),
    /// Anything else: null, a boolean, another number, an array, an object.
    Other,
}

/// A [`JsonField`] as mathematical values.
pub enum JsonFieldView {
    Missing,
    Text(Seq<char>),
    Integer(int),
    Other,
}

impl View for JsonField {
    type V = JsonFieldView;

    open spec fn view(&self) -> JsonFieldView {
        match *self {
            JsonField::Missing => JsonFieldView::Missing,
            JsonField::Text(s) => JsonFieldView::Text(s@),
            JsonField::Integer(n) => JsonFieldView::Integer(n as int),
            JsonField::Other => JsonFieldView::Other,
        }
    }
}

/// The member `key` of `document`: a string before an integer before
/// anything else.
pub open spec fn field_of(document: serde_json::Value, key: Seq<char>) -> JsonFieldView {
    match json_member(document, key) {
        None => JsonFieldView::Missing,
        Some(inner) => match json_text(inner) {
            Some(text) => JsonFieldView::Text(text),
            None => match json_integer(inner) {
                Some(number) => JsonFieldView::Integer(number as int),
                None => JsonFieldView::Other,
            },
        },
    }
}

/// Reads the member `key` of `document`.
pub fn read_field(document: &serde_json::Value, key: &str) -> (field: JsonField)
    ensures
        field@ == field_of(*document, key@),
{
    match member(document, key) {
        None => JsonField::Missing,
        Some(inner) => match inner.as_str() {
            Some(text) => JsonField::Text(text.to_owned()),
            None => match inner.as_i64() {
                Some(number) => JsonField::Integer(number),
                None => JsonField::Other,
            },
        },
    }
}

} // verus!
