//! The scalar function `extract_ordinal`, by which the store compares stored
//! values in range conditions.
//!
//! Stored values are mostly JSON text, and text compares character by
//! character: `"10"` would come before `"2"`. The function hands out, for a
//! stored value, a value that compares as the payload does.

use crate::component::StorageError;
use crate::json::{
    json_printed, json_shape, json_shape_of, json_text, number_as_f64, number_as_i64,
    number_integer, number_real, parse_json, parsed_json, JsonShape,
};
use crate::value::{StoreValue, StoreValueView};
use vstd::prelude::*;

verus! {

/// The name under which the function is registered with the store.
pub const EXTRACT_ORDINAL: &'static str = "extract_ordinal";

/// A JSON value, as far as its ordinal depends on it.
#[derive(Debug, PartialEq)]
pub enum JsonScalar {
    Null,
    Bool(bool),
    /// A number: as a 64-bit signed integer where it is one, and as the bit
    /// pattern of a 64-bit float where it has one.
    Number { integer: Option<i64>, real: Option<u64> },
    String(String),
    /// An array or an object, by its compact JSON text.
    Composite(String),
}

/// Mathematical model of a [`JsonScalar`].
pub ghost enum JsonScalarView {
    Null,
    Bool(bool),
    Number { integer: Option<i64>, real: Option<u64> },
    String(Seq<char>),
    Composite(Seq<char>),
}

impl View for JsonScalar {
    type V = JsonScalarView;

    open spec fn view(&self) -> JsonScalarView {
        match self {
            JsonScalar::Null => JsonScalarView::Null,
            JsonScalar::Bool(boolean) => JsonScalarView::Bool(*boolean),
            JsonScalar::Number { integer, real: bits } => JsonScalarView::Number {
                integer: *integer,
                real: *bits,
            },
            JsonScalar::String(text) => JsonScalarView::String(text@),
            JsonScalar::Composite(text) => JsonScalarView::Composite(text@),
        }
    }
}

impl JsonScalarView {
    /// Whether the value has an ordinal: all have but a number that is
    /// neither an integer nor a float.
    pub open spec fn has_ordinal(self) -> bool {
        !(self matches JsonScalarView::Number { integer: None, real: None })
    }

    /// The ordinal of a JSON value: null for null, 1 and 0 for true and
    /// false, the integer for a number that is one and else its float, the
    /// text of a string, and the compact JSON text of an array or object.
    pub open spec fn ordinal_of(self) -> StoreValueView {
        match self {
            JsonScalarView::Null => StoreValueView::Null,
            JsonScalarView::Bool(true) => StoreValueView::Integer(1),
            JsonScalarView::Bool(false) => StoreValueView::Integer(0),
            JsonScalarView::Number { integer: Some(integer), .. } => StoreValueView::Integer(
                integer,
            ),
            JsonScalarView::Number { integer: None, real: Some(bits) } => StoreValueView::Real(
                bits,
            ),
            JsonScalarView::Number { integer: None, real: None } => StoreValueView::Null,
            JsonScalarView::String(text) => StoreValueView::Text(text),
            JsonScalarView::Composite(text) => StoreValueView::Text(text),
        }
    }
}

/// What the ordinal of a parsed JSON value depends on: null, true or false,
/// the text of a string, of a number what it is as an integer and as a
/// float, and of an array or an object its compact JSON text.
pub open spec fn scalar_of_json(json: serde_json::Value) -> JsonScalarView {
    match json_shape_of(json) {
        JsonShape::Null => JsonScalarView::Null,
        JsonShape::Bool(boolean) => JsonScalarView::Bool(boolean),
        JsonShape::Number(number) => JsonScalarView::Number {
            integer: number_integer(number),
            real: number_real(number),
        },
        JsonShape::String(text) => JsonScalarView::String(text@),
        JsonShape::Array(array) => JsonScalarView::Composite(json_printed(array)),
        JsonShape::Object(object) => JsonScalarView::Composite(json_printed(object)),
    }
}

/// The ordinal of a text: that of the JSON value that the text is read as.
/// There is none for a text that is not JSON, nor for a JSON number that is
/// neither an integer nor a float.
pub open spec fn ordinal_of_text(text: Seq<char>) -> Option<StoreValueView> {
    match parsed_json(text) {
        Some(json) => if scalar_of_json(json).has_ordinal() {
            Some(scalar_of_json(json).ordinal_of())
        } else {
            None
        },
        None => None,
    }
}

impl JsonScalar {
    /// Whether the value has an ordinal: all have but a number that is
    /// neither an integer nor a float.
    pub open spec fn has_ordinal(&self) -> bool {
        self@.has_ordinal()
    }

    /// The ordinal of the value.
    pub open spec fn ordinal_of(&self) -> StoreValueView {
        self@.ordinal_of()
    }

    /// Whether the value has an ordinal.
    pub fn is_ordered(&self) -> (ordered: bool)
        ensures
            ordered == self.has_ordinal(),
    {
        match self {
            JsonScalar::Number { integer: None, real: None } => false,
            _ => true,
        }
    }

    /// The ordinal of the value.
    pub fn ordinal(self) -> (ordinal: StoreValue)
        requires
            self.has_ordinal(),
        ensures
            ordinal@ == self.ordinal_of(),
    {
        match self {
            JsonScalar::Null => StoreValue::Null,
            JsonScalar::Bool(true) => StoreValue::Integer(1),
            JsonScalar::Bool(false) => StoreValue::Integer(0),
            JsonScalar::Number { integer: Some(integer), .. } => StoreValue::Integer(integer),
            JsonScalar::Number { integer: None, real: Some(bits) } => StoreValue::Real(bits),
            JsonScalar::Number { integer: None, real: None } => unreached(),
            JsonScalar::String(text) => StoreValue::Text(text),
            JsonScalar::Composite(text) => StoreValue::Text(text),
        }
    }
}

/// Reads from a parsed JSON value what its ordinal depends on.
fn scalar_of(json: serde_json::Value) -> (scalar: JsonScalar)
    ensures
        scalar@ == scalar_of_json(json),
{
    match json_shape(json) {
        JsonShape::Null => JsonScalar::Null,
        JsonShape::Bool(boolean) => JsonScalar::Bool(boolean),
        JsonShape::Number(number) => JsonScalar::Number {
            integer: number_as_i64(&number),
            real: number_as_f64(&number),
        },
        JsonShape::String(text) => JsonScalar::String(text),
        JsonShape::Array(array) => JsonScalar::Composite(json_text(&array)),
        JsonShape::Object(object) => JsonScalar::Composite(json_text(&object)),
    }
}

/// The ordinal of a stored value.
///
/// Null, integers and reals are their own ordinals, and a blob has the
/// ordinal null, for bytes have no order. Text is read as JSON and has the
/// ordinal of the JSON value; text that is not JSON has none, and neither
/// has a JSON number that is neither an integer nor a float.
pub fn extract_ordinal(value: &StoreValue) -> (ordinal: Result<StoreValue, StorageError>)
    ensures
        match value@ {
            StoreValueView::Null => ordinal matches Ok(ordinal) && ordinal@ == StoreValueView::Null,
            StoreValueView::Integer(integer) => ordinal matches Ok(ordinal) && ordinal@
                == StoreValueView::Integer(integer),
            StoreValueView::Real(bits) => ordinal matches Ok(ordinal) && ordinal@
                == StoreValueView::Real(bits),
            StoreValueView::Blob(_) => ordinal matches Ok(ordinal) && ordinal@
                == StoreValueView::Null,
            StoreValueView::Text(text) => match ordinal_of_text(text) {
                Some(expected) => ordinal matches Ok(ordinal) && ordinal@ == expected,
                None => ordinal is Err,
            },
        },
{
    match value {
        StoreValue::Null => Ok(StoreValue::Null),
        StoreValue::Integer(integer) => Ok(StoreValue::Integer(*integer)),
        StoreValue::Real(bits) => Ok(StoreValue::Real(*bits)),
        StoreValue::Blob(_) => Ok(StoreValue::Null),
        StoreValue::Text(text) => {
            match parse_json(text.as_str()) {
                Err(message) => Err(StorageError(message)),
                Ok(json) => {
                    let scalar = scalar_of(json);
                    if scalar.is_ordered() {
                        Ok(scalar.ordinal())
                    } else {
                        Err(StorageError(String::from_str("number without an ordinal")))
                    }
                },
            }
        },
    }
}

} // verus!
