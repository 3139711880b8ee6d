//! The calls into serde_json that the response interpretation makes, and the
//! model of JSON values that their contracts speak of.
use vstd::prelude::*;

verus! {

#[verifier::external_type_specification]
#[verifier::external_body]
pub struct ExValue(serde_json::Value);

#[verifier::external_type_specification]
#[verifier::external_body]
pub struct ExNumber(serde_json::Number);

#[verifier::external_type_specification]
#[verifier::external_body]
pub struct ExError(serde_json::Error);

/// A JSON value as the logic reads it; a number is held as its decimal text.
pub enum Json {
    Null,
    Bool(bool),
    Number(Seq<char>),
    Str(Seq<char>),
    Array(Seq<Json>),
    Object(Map<Seq<char>, Json>),
}

/// What serde_json makes of a text: the value it denotes, or the message of
/// the error that refuses it.
pub uninterp spec fn parsed(text: Seq<char>) -> Result<Json, Seq<char>>;

/// What a serde_json value holds.
pub uninterp spec fn json_view(v: serde_json::Value) -> Json;

/// The decimal text of a serde_json number.
pub uninterp spec fn number_view(n: serde_json::Number) -> Seq<char>;

/// The message of a serde_json error.
pub uninterp spec fn error_message(e: serde_json::Error) -> Seq<char>;

/// Relies on serde_json::from_str: parses the whole text as one JSON value,
/// or fails with an error whose message depends on the text alone.
#[verifier::external_body]
pub(crate) fn parse_json(text: &str) -> (r: Result<serde_json::Value, serde_json::Error>)
    ensures
        match r {
            Ok(v) => parsed(text@) == Ok::<Json, Seq<char>>(json_view(v)),
            Err(e) => parsed(text@) == Err::<Json, Seq<char>>(error_message(e)),
        },
{
    serde_json::from_str(text)
}

/// Relies on serde_json::Value::get with a string index: the member of an
/// object under `key`, `None` for a missing key or anything but an object.
#[verifier::external_body]
pub(crate) fn member<'a>(v: &'a serde_json::Value, key: &str) -> (r: Option<&'a serde_json::Value>)
    ensures
        match json_view(*v) {
            Json::Object(m) => match r {
                Some(c) => m.contains_key(key@) && m[key@] == json_view(*c),
                None => !m.contains_key(key@),
            },
            _ => r is None,
        },
{
    v.get(key)
}

/// Relies on serde_json::Value::as_array: the elements of an array,
/// `None` for anything else.
#[verifier::external_body]
pub(crate) fn array_items<'a>(v: &'a serde_json::Value) -> (r: Option<&'a Vec<serde_json::Value>>)
    ensures
        match json_view(*v) {
            Json::Array(s) => r matches Some(items) && items@.len() == s.len()
                && forall|i: int| 0 <= i < s.len() ==> #[trigger] json_view(items@[i]) == s[i],
            _ => r is None,
        },
{
    v.as_array()
}

/// Relies on serde_json::Value::as_number: a copy of the number that a value
/// holds, `None` for anything else.
#[verifier::external_body]
pub(crate) fn number_of(v: &serde_json::Value) -> (r: Option<serde_json::Number>)
    ensures
        match json_view(*v) {
            Json::Number(t) => r matches Some(n) && number_view(n) == t,
            _ => r is None,
        },
{
    v.as_number().cloned()
}

/// Relies on `Display` of serde_json::Number: its decimal text.
#[verifier::external_body]
pub(crate) fn number_text(n: &serde_json::Number) -> (r: String)
    ensures
        r@ == number_view(*n),
{
    n.to_string()
}

/// Relies on `Display` of serde_json::Error: its message and position.
#[verifier::external_body]
pub(crate) fn error_text(e: &serde_json::Error) -> (r: String)
    ensures
        r@ == error_message(*e),
{
    e.to_string()
}

} // verus!
