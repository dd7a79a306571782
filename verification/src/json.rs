//! JSON documents as `serde_json` holds them, and what the library states of
//! them. Every function here hands one call to `serde_json`; its contract is
//! believed, not proved.

use vstd::prelude::*;

verus! {

/// What a JSON number holds, as far as the library reads it.
pub enum JsonNumber {
    /// An integer between zero and `u64::MAX`.
    Unsigned(u64),
    /// Any other number: negative, or written with a fraction or an exponent.
    Other,
}

/// What a JSON document holds.
pub enum Json {
    Null,
    Bool(bool),
    Number(JsonNumber),
    Text(Seq<char>),
    List(Seq<Json>),
    Object(Map<Seq<char>, Json>),
}

impl Json {
    /// The member stored under `key`, if this is an object that has one.
    pub open spec fn member(self, key: Seq<char>) -> Option<Json> {
        match self {
            Json::Object(fields) => if fields.contains_key(key) {
                Some(fields[key])
            } else {
                None
            },
            _ => None,
        }
    }

    /// The text, if this is a JSON string.
    pub open spec fn text(self) -> Option<Seq<char>> {
        match self {
            Json::Text(t) => Some(t),
            _ => None,
        }
    }

    /// The number, if this is an integer between zero and `u64::MAX`.
    pub open spec fn unsigned(self) -> Option<u64> {
        match self {
            Json::Number(JsonNumber::Unsigned(n)) => Some(n),
            _ => None,
        }
    }
}

/// `serde_json::Value`: a JSON document. What it holds is named by
/// `document_model`.
#[verifier::external_type_specification]
#[verifier::external_body]
pub struct ExValue(serde_json::Value);

/// What the document `doc` holds.
pub uninterp spec fn document_model(doc: serde_json::Value) -> Json;

/// What `serde_json::from_str` makes of `text`: the document it reads, or the
/// message of the error it reports.
pub uninterp spec fn parsed(text: Seq<char>) -> Result<Json, Seq<char>>;

/// What an outcome of parsing holds: the document's model, or the message.
pub open spec fn outcome_model(outcome: Result<serde_json::Value, String>) -> Result<
    Json,
    Seq<char>,
> {
    match outcome {
        Ok(doc) => Ok(document_model(doc)),
        Err(message) => Err(message@),
    }
}

/// Calls `serde_json::from_str` for a `Value` and turns its error into the
/// error's message. `parsed` names the outcome.
#[verifier::external_body]
pub(crate) fn parse_document(text: &str) -> (outcome: Result<serde_json::Value, String>)
    ensures
        outcome_model(outcome) == parsed(text@),
{
    serde_json::from_str::<serde_json::Value>(text).map_err(|e| e.to_string())
}

/// Calls `Value::get` with a string key: the member under `key` where `doc` is
/// an object that has one, `None` otherwise.
#[verifier::external_body]
pub(crate) fn member<'a>(doc: &'a serde_json::Value, key: &str) -> (found: Option<
    &'a serde_json::Value,
>)
    ensures
        found matches Some(value) ==> document_model(*doc).member(key@) == Some(
            document_model(*value),
        ),
        found is None ==> document_model(*doc).member(key@) is None,
{
    doc.get(key)
}

/// Calls `Value::as_str`: the text of a JSON string, `None` for anything else.
#[verifier::external_body]
pub(crate) fn text_of<'a>(doc: &'a serde_json::Value) -> (text: Option<&'a str>)
    ensures
        text matches Some(t) ==> document_model(*doc).text() == Some(t@),
        text is None ==> document_model(*doc).text() is None,
{
    doc.as_str()
}

/// Calls `Value::as_u64`: the number where `doc` is an integer between zero and
/// `u64::MAX`, `None` for anything else.
#[verifier::external_body]
pub(crate) fn unsigned_of(doc: &serde_json::Value) -> (number: Option<u64>)
    ensures
        number == document_model(*doc).unsigned(),
{
    doc.as_u64()
}

/// Calls `Value::is_object`.
#[verifier::external_body]
pub(crate) fn is_object(doc: &serde_json::Value) -> (object: bool)
    ensures
        object == (document_model(*doc) is Object),
{
    doc.is_object()
}

/// Calls `Value::is_null`.
#[verifier::external_body]
pub(crate) fn is_null(doc: &serde_json::Value) -> (null: bool)
    ensures
        null == (document_model(*doc) is Null),
{
    doc.is_null()
}

/// Makes `Value::Object` of `serde_json::Map::new()`: an object without members.
#[verifier::external_body]
pub(crate) fn empty_object() -> (doc: serde_json::Value)
    ensures
        document_model(doc) == Json::Object(Map::<Seq<char>, Json>::empty()),
{
    serde_json::Value::Object(serde_json::Map::new())
}

/// Calls `serde_json::Map::insert` on the members of the object `doc`: `value`
/// is stored under `key`, in place of what was there.
#[verifier::external_body]
pub(crate) fn set_member(doc: &mut serde_json::Value, key: &str, value: serde_json::Value)
    requires
        document_model(*old(doc)) is Object,
    ensures
        document_model(*final(doc)) == Json::Object(
            document_model(*old(doc))->Object_0.insert(key@, document_model(value)),
        ),
{
    if let Some(fields) = doc.as_object_mut() {
        fields.insert(key.to_owned(), value);
    }
}

/// Calls `Value::from` on a string slice: a JSON string of the same text.
#[verifier::external_body]
pub(crate) fn text_value(text: &str) -> (doc: serde_json::Value)
    ensures
        document_model(doc) == Json::Text(text@),
{
    serde_json::Value::from(text)
}

/// Calls `Value::from` on a `u64`: the JSON number `number`.
#[verifier::external_body]
pub(crate) fn unsigned_value(number: u64) -> (doc: serde_json::Value)
    ensures
        document_model(doc) == Json::Number(JsonNumber::Unsigned(number)),
{
    serde_json::Value::from(number)
}

} // verus!
