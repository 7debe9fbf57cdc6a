//! JSON text.

use serde_json::Number as JsonNumber;
use serde_json::Value as JsonValue;
use vstd::prelude::*;

use crate::value::{Tree, Value};

verus! {

/// A JSON value.
#[verifier::external_type_specification]
#[verifier::external_body]
pub struct ExJsonValue(JsonValue);

/// The JSON text of a value, without white space between its parts.
pub uninterp spec fn json_text(t: Tree) -> Seq<char>;

/// A value in the form of the `serde_json` crate. The text of a number is read by the crate;
/// one that it does not read stays a string.
#[verifier::external_body]
fn json_of(v: &Value) -> (r: JsonValue) {
    match v {
        Value::Null => JsonValue::Null,
        Value::Bool(b) => JsonValue::Bool(*b),
        Value::Atom(s) => match serde_json::from_str::<JsonNumber>(s) {
            Ok(n) => JsonValue::Number(n),
            Err(_) => JsonValue::String(s.clone()),
        },
        Value::Text(s) => JsonValue::String(s.clone()),
        Value::List(items) => JsonValue::Array(items.iter().map(json_of).collect()),
        Value::Table(fields) => JsonValue::Object(
            fields.iter().map(|(k, v)| (k.clone(), json_of(v))).collect(),
        ),
    }
}

/// `to_string` on a `Value` of the `serde_json` crate: a function of the value.
#[verifier::external_body]
pub(crate) fn to_json(v: &Value) -> (r: String)
    ensures
        r@ == json_text(v@),
{
    json_of(v).to_string()
}

} // verus!
