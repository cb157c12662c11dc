//! JSON, as the `serde_json` crate parses and prints it. Nothing here is
//! proved: each item says what is taken on trust from that crate.

use vstd::prelude::*;

verus! {

/// `serde_json::Value`, a JSON value. The verifier sees nothing inside it.
#[verifier::external_type_specification]
#[verifier::external_body]
pub struct ExJsonValue(serde_json::Value);

/// `serde_json::Number`, a JSON number. The verifier sees nothing inside it.
#[verifier::external_type_specification]
#[verifier::external_body]
pub struct ExJsonNumber(serde_json::Number);

/// The JSON value that `serde_json::from_slice` reads from the UTF-8 bytes of
/// a text, and `None` where it reads none.
pub uninterp spec fn parsed_json(text: Seq<char>) -> Option<serde_json::Value>;

/// What a JSON value is at its top: the variant of `serde_json::Value`, with
/// the variant's content.
pub enum JsonShape {
    Null,
    Bool(bool),
    Number(serde_json::Number),
    String(String),
    Array(serde_json::Value),
    Object(serde_json::Value),
}

/// The variant of a `serde_json::Value`, with the variant's content: what
/// `json_shape` hands out for the value.
pub uninterp spec fn json_shape_of(json: serde_json::Value) -> JsonShape;

/// What `serde_json::Number::as_i64` hands out for a number.
pub uninterp spec fn number_integer(number: serde_json::Number) -> Option<i64>;

/// The bit pattern of what `serde_json::Number::as_f64` hands out for a
/// number.
pub uninterp spec fn number_real(number: serde_json::Number) -> Option<u64>;

/// The text that the `Display` of `serde_json::Value` prints for a value.
pub uninterp spec fn json_printed(json: serde_json::Value) -> Seq<char>;

/// `serde_json::from_slice` at the type `serde_json::Value`, on the bytes of
/// `text`; a failure is handed out as the message of the crate's error.
/// Trusted: the value depends on the text alone, so it has a name. Nothing is
/// claimed of the message.
#[verifier::external_body]
pub(crate) fn parse_json(text: &str) -> (json: Result<serde_json::Value, String>)
    ensures
        match json {
            Ok(value) => parsed_json(text@) == Some(value),
            Err(_) => parsed_json(text@) is None,
        },
{
    serde_json::from_slice(text.as_bytes()).map_err(|error: serde_json::Error| error.to_string())
}

/// The variant `serde_json::Value::Null`. Trusted: it is the value that
/// `json_shape` tells to be null.
#[verifier::external_body]
pub(crate) fn json_null() -> (json: serde_json::Value)
    ensures
        json_shape_of(json) is Null,
{
    serde_json::Value::Null
}

/// Tells the variants of `serde_json::Value` apart and hands out the
/// variant's content; an array or an object is handed out whole. Trusted: the
/// outcome depends on the value alone, so it has a name; nothing else is
/// claimed of it.
#[verifier::external_body]
pub(crate) fn json_shape(json: serde_json::Value) -> (shape: JsonShape)
    ensures
        shape == json_shape_of(json),
{
    match json {
        serde_json::Value::Null => JsonShape::Null,
        serde_json::Value::Bool(boolean) => JsonShape::Bool(boolean),
        serde_json::Value::Number(number) => JsonShape::Number(number),
        serde_json::Value::String(string) => JsonShape::String(string),
        array @ serde_json::Value::Array(_) => JsonShape::Array(array),
        object @ serde_json::Value::Object(_) => JsonShape::Object(object),
    }
}

/// `serde_json::Number::as_i64`: the number as a 64-bit signed integer, where
/// it is an integer in that range. Trusted: the outcome depends on the number
/// alone, so it has a name; nothing else is claimed of it.
#[verifier::external_body]
pub(crate) fn number_as_i64(number: &serde_json::Number) -> (integer: Option<i64>)
    ensures
        integer == number_integer(*number),
{
    number.as_i64()
}

/// `serde_json::Number::as_f64`: the number as a 64-bit float, handed out as
/// the float's bit pattern. Trusted: the outcome depends on the number alone,
/// so it has a name; nothing else is claimed of it.
#[verifier::external_body]
pub(crate) fn number_as_f64(number: &serde_json::Number) -> (bits: Option<u64>)
    ensures
        bits == number_real(*number),
{
    number.as_f64().map(|float| float.to_bits())
}

/// The compact JSON text of a value, by the `Display` of `serde_json::Value`.
/// Trusted: the text depends on the value alone, so it has a name; nothing
/// else is claimed of it.
#[verifier::external_body]
pub(crate) fn json_text(json: &serde_json::Value) -> (text: String)
    ensures
        text@ == json_printed(*json),
{
    json.to_string()
}

} // verus!
