//! The JSON values that decoding produces.
use vstd::prelude::*;

verus! {

#[verifier::external_type_specification]
#[verifier::external_body]
pub struct ExJsonDocument(serde_json::Value);

#[verifier::external_type_specification]
#[verifier::external_body]
pub struct ExJsonNumber(serde_json::Number);

/// A JSON value as the decoder hands it out.
///
/// Integers keep their 64-bit signed or unsigned domain; a floating-point
/// number is carried as the finite `serde_json::Number` it was widened to; a
/// JSON column's parsed document is embedded as it is.
#[derive(Debug, PartialEq)]
pub enum JsonValue {
    Null,
    Bool(bool),
    Int(i64),
    UInt(u64),
    Float(serde_json::Number),
    Text(String),
    Array(Vec<JsonValue>),
    Document(serde_json::Value),
}

/// What a `JsonValue` stands for: its text as a character sequence and its
/// array as the sequence of its items.
pub enum JsonModel {
    Null,
    Bool(bool),
    Int(i64),
    UInt(u64),
    Float(serde_json::Number),
    Text(Seq<char>),
    Array(Seq<JsonValue>),
    Document(serde_json::Value),
}

impl View for JsonValue {
    type V = JsonModel;

    open spec fn view(&self) -> JsonModel {
        match self {
            JsonValue::Null => JsonModel::Null,
            JsonValue::Bool(b) => JsonModel::Bool(*b),
            JsonValue::Int(i) => JsonModel::Int(*i),
            JsonValue::UInt(u) => JsonModel::UInt(*u),
            JsonValue::Float(n) => JsonModel::Float(*n),
            JsonValue::Text(s) => JsonModel::Text(s@),
            JsonValue::Array(items) => JsonModel::Array(items@),
            JsonValue::Document(d) => JsonModel::Document(*d),
        }
    }
}

/// The JSON array of a byte string: one unsigned number per byte, in order.
pub open spec fn byte_array(bytes: Seq<u8>) -> Seq<JsonValue> {
    bytes.map_values(|b: u8| JsonValue::UInt(b as u64))
}

/// Builds the JSON array of `bytes`.
pub fn bytes_to_array(bytes: &Vec<u8>) -> (r: JsonValue)
    ensures
        r@ == JsonModel::Array(byte_array(bytes@)),
{
    let mut items: Vec<JsonValue> = Vec::with_capacity(bytes.len());
    let mut i: usize = 0;
    while i < bytes.len()
        invariant
            i <= bytes@.len(),
            items@ == byte_array(bytes@.take(i as int)),
        decreases bytes@.len() - i,
    {
        items.push(JsonValue::UInt(bytes[i] as u64));
        i = i + 1;
        assert(bytes@.take(i as int) == bytes@.take(i - 1).push(bytes@[i - 1]));
        assert(items@ =~= byte_array(bytes@.take(i as int)));
    }
    assert(bytes@.take(i as int) == bytes@);
    JsonValue::Array(items)
}

} // verus!
