//! From the bytes of a JSON text to its tree. The parsing is `serde_json`'s;
//! what is stated of it here is believed, not proved.

use crate::decode::DecodeError;
use crate::json::{Document, Json, Member};
use crate::number::Numeral;
use serde_json::Value;
use vstd::prelude::*;

verus! {

/// `serde_json::Value`, of which nothing is seen here but what `value_document` names.
#[verifier::external_type_specification]
#[verifier::external_body]
pub struct ExValue(serde_json::Value);

/// `serde_json::Error`, of which nothing is seen here: any error is a failure to parse.
#[verifier::external_type_specification]
#[verifier::external_body]
pub struct ExError(serde_json::Error);

/// What `serde_json::from_slice` makes of a text: the value that the text
/// stands for, or nothing where the text is not one JSON value.
pub uninterp spec fn parsed(text: Seq<u8>) -> Option<Document>;

/// What a `serde_json::Value` holds.
pub uninterp spec fn value_document(value: serde_json::Value) -> Document;

/// `serde_json::from_slice`, asked for a `Value`. The result depends on the
/// bytes alone: `parsed` names it, and an error stands for nothing parsed.
#[verifier::external_body]
fn parse_value(text: &[u8]) -> (made: Result<serde_json::Value, serde_json::Error>)
    ensures
        match made {
            Ok(value) => parsed(text@) == Some(value_document(value)),
            Err(_) => parsed(text@) is None,
        },
{
    serde_json::from_slice::<Value>(text)
}

/// Moves a `serde_json::Value` into a tree, variant by variant. A number
/// that `Number::as_i64` gives as a whole number becomes that whole number;
/// any other number is carried as it is. The members of an object come in
/// the order in which `Map::iter` hands them out.
#[verifier::external_body]
fn lift(value: &serde_json::Value) -> (made: Json)
    ensures
        made@ == value_document(*value),
{
    match value {
        Value::Null => Json::Null,
        Value::Bool(b) => Json::Bool(*b),
        Value::Number(n) => Json::Number(n.as_i64().map_or(Numeral::Real(n.clone()), Numeral::Whole)),
        Value::String(s) => Json::Text(s.clone()),
        Value::Array(items) => Json::List(items.iter().map(lift).collect()),
        Value::Object(map) => Json::Record(
            map.iter().map(|(k, v)| Member { name: k.clone(), value: lift(v) }).collect(),
        ),
    }
}

/// Parses one JSON text into its tree.
pub fn parse(text: &[u8]) -> (read: Result<Json, DecodeError>)
    ensures
        match read {
            Ok(doc) => parsed(text@) == Some(doc@),
            Err(_) => parsed(text@) is None,
        },
{
    match parse_value(text) {
        Ok(value) => Ok(lift(&value)),
        Err(_) => Err(DecodeError),
    }
}

} // verus!
