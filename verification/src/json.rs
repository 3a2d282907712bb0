//! The trusted boundary around serde_json, and the plain-value model of a
//! parsed JSON document.
//!
//! Records reach this crate as JSON text. serde_json parses that text; the
//! one trusted function here converts its `Value` tree, member by member,
//! into the crate's own `JsonValue` — a tree of plain values that verified
//! code can take apart. Parsing is a function of the body text alone, so
//! the whole parse-and-convert step carries the name `json_of`: everything
//! downstream — member lookup, typed reads, record materialization — is
//! verified against that name.

use vstd::prelude::*;

verus! {

#[verifier::external_type_specification]
#[verifier::external_body]
pub struct ExValue(serde_json::Value);

/// A parsed JSON value, as plain values. Object members keep unique keys
/// (a duplicated key in the text keeps its last value, as serde_json
/// does); numbers are carried as the integer the catalog's records use
/// them as, or as `OtherNumber` where they fit no 64-bit integer (a
/// fraction, an exponent, a number out of range).
#[derive(Debug)]
pub enum JsonValue {
    Null,
    Boolean(bool),
    /// An integer in `0 ..= u64::MAX`.
    Unsigned(u64),
    /// A negative integer in `i64::MIN ..= -1`.
    Signed(i64),
    /// A number that is no 64-bit integer.
    OtherNumber,
    Text(String),
    Array(Vec<JsonValue>),
    Object(Vec<(String, JsonValue)>),
}

/// The JSON document a body text parses to, or `None` where the text is
/// not valid JSON. The name stands for serde_json's parse composed with
/// the fixed conversion into `JsonValue` below; both depend on the text
/// alone.
pub uninterp spec fn json_of(body: Seq<char>) -> Option<JsonValue>;

/// Relies on serde_json::from_str::<Value>: parses a JSON document, or
/// fails on text that is not valid JSON. The result, converted to the
/// crate's model by `value_to_model`, is a function of the body text
/// alone and carries the name `json_of`.
#[verifier::external_body]
pub(crate) fn parse_json(body: &str) -> (r: Option<JsonValue>)
    ensures
        r == json_of(body@),
{
    match serde_json::from_str::<serde_json::Value>(body) {
        Ok(v) => Some(value_to_model(&v)),
        Err(_) => None,
    }
}

/// The conversion half of the trusted boundary behind `parse_json`: turns
/// serde_json's `Value` tree into the crate's model, one arm per variant,
/// moving each member. Relies on the variants of serde_json::Value and on
/// serde_json::Number::as_u64 / as_i64 for the two integer ranges. Object
/// members come out in serde_json's own (sorted, unique-key) order.
#[verifier::external_body]
fn value_to_model(v: &serde_json::Value) -> JsonValue {
    match v {
        serde_json::Value::Null => JsonValue::Null,
        serde_json::Value::Bool(b) => JsonValue::Boolean(*b),
        serde_json::Value::Number(n) => match (n.as_u64(), n.as_i64()) {
            (Some(u), _) => JsonValue::Unsigned(u),
            (_, Some(i)) => JsonValue::Signed(i),
            _ => JsonValue::OtherNumber,
        },
        serde_json::Value::String(s) => JsonValue::Text(s.clone()),
        serde_json::Value::Array(a) => JsonValue::Array(a.iter().map(value_to_model).collect()),
        serde_json::Value::Object(m) => JsonValue::Object(
            m.iter().map(|(k, x)| (k.clone(), value_to_model(x))).collect(),
        ),
    }
}

} // verus!
