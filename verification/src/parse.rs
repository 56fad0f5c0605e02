//! The boundary to the `json` crate: parsing frame text into the library's
//! value model. Everything past this boundary is verified against the
//! contracts stated here.

use crate::error::Error;
use crate::value::{JsonNumber, JsonVal};
use vstd::prelude::*;

verus! {

#[verifier::external_type_specification]
#[verifier::external_body]
pub struct ExJsonValue(json::JsonValue);

/// What parsing a frame text yields: `None` when the text is not valid
/// JSON, otherwise the parsed value. Parsing is a pure function of the
/// text, so the outcome carries a name that the parse wrapper's contract
/// speaks of.
pub uninterp spec fn parse_of(s: Seq<char>) -> Option<JsonVal>;

/// Relies on `json::JsonValue`'s public shape: maps each of its variants to
/// the corresponding library value, a number through
/// `json::number::Number::as_parts` (sign, decimal mantissa, decimal
/// exponent), arrays and objects member by member in order.
#[verifier::external_body]
fn lift_value(v: json::JsonValue) -> JsonVal {
    match v {
        json::JsonValue::Null => JsonVal::Null,
        json::JsonValue::Boolean(b) => JsonVal::Bool(b),
        json::JsonValue::Number(n) => {
            let (positive, mantissa, exponent) = n.as_parts();
            JsonVal::Number(JsonNumber { positive, mantissa, exponent })
        },
        json::JsonValue::Short(s) => JsonVal::Str(s.as_str().to_owned()),
        json::JsonValue::String(s) => JsonVal::Str(s),
        json::JsonValue::Array(a) => JsonVal::Array(a.into_iter().map(lift_value).collect()),
        json::JsonValue::Object(o) => JsonVal::Object(o.iter().map(|(k, w)| (k.to_owned(), lift_value(w.clone()))).collect()),
    }
}

/// Relies on `json::parse`: it returns `Ok` exactly on valid JSON text, and
/// its result depends on the text alone. A syntax error comes back as the
/// description that `json::Error` displays.
#[verifier::external_body]
fn json_parse(s: &str) -> (r: Result<JsonVal, String>)
    ensures
        r is Ok <==> parse_of(s@) is Some,
        r matches Ok(v) ==> parse_of(s@) == Some(v),
{
    match json::parse(s) {
        Ok(v) => Ok(lift_value(v)),
        Err(e) => Err(e.to_string()),
    }
}

/// Parses frame text into the library's value model; a syntax error comes
/// back as `Error::JsonError` with the parser's description.
pub fn parse_json_text(s: &str) -> (r: Result<JsonVal, Error>)
    ensures
        parse_of(s@) matches Some(v) ==> r == Ok::<JsonVal, Error>(v),
        parse_of(s@) is None ==> (r matches Err(e) && e is JsonError),
{
    match json_parse(s) {
        Ok(v) => Ok(v),
        Err(msg) => Err(Error::JsonError(msg)),
    }
}

} // verus!
