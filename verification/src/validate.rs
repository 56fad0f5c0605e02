//! Field validators: pure conversions from a generic JSON value to a
//! required scalar or composite type. Each returns the typed value or a
//! kind-specific failure carrying the offending value.

use crate::error::Error;
use crate::value::{spec_u64_value, spec_u8_value, JsonVal};
use vstd::prelude::*;

verus! {

/// What validating a value as a 64-bit unsigned integer returns.
pub open spec fn sv_u64(v: JsonVal) -> Result<u64, Error> {
    match v {
        JsonVal::Number(n) => match spec_u64_value(n) {
            Some(u) => Ok(u),
            None => Err(Error::InvalidJsonU64 { offense: v }),
        },
        _ => Err(Error::InvalidJsonU64 { offense: v }),
    }
}

/// What validating a value as an 8-bit unsigned integer returns.
pub open spec fn sv_u8(v: JsonVal) -> Result<u8, Error> {
    match v {
        JsonVal::Number(n) => match spec_u8_value(n) {
            Some(u) => Ok(u),
            None => Err(Error::InvalidJsonU8 { offense: v }),
        },
        _ => Err(Error::InvalidJsonU8 { offense: v }),
    }
}

/// What validating a value as an object returns.
pub open spec fn sv_dict(v: JsonVal) -> Result<JsonVal, Error> {
    if v is Object {
        Ok(v)
    } else {
        Err(Error::InvalidJsonDict { offense: v })
    }
}

/// What validating a value as an array returns.
pub open spec fn sv_array(v: JsonVal) -> Result<JsonVal, Error> {
    if v is Array {
        Ok(v)
    } else {
        Err(Error::InvalidJsonArray { offense: v })
    }
}

/// What validating a value as a string returns.
pub open spec fn sv_str(v: JsonVal) -> Result<String, Error> {
    match v {
        JsonVal::Str(s) => Ok(s),
        _ => Err(Error::InvalidJsonStr { offense: v }),
    }
}

/// What validating a value in the optional `Args` position returns:
/// `null` means absent, anything else must be an array.
pub open spec fn sv_args(v: JsonVal) -> Result<Option<JsonVal>, Error> {
    if v is Null {
        Ok(None)
    } else {
        match sv_array(v) {
            Ok(a) => Ok(Some(a)),
            Err(e) => Err(e),
        }
    }
}

/// What validating a value in the optional `Kwargs` position returns:
/// `null` means absent, anything else must be an object.
pub open spec fn sv_kwargs(v: JsonVal) -> Result<Option<JsonVal>, Error> {
    if v is Null {
        Ok(None)
    } else {
        match sv_dict(v) {
            Ok(k) => Ok(Some(k)),
            Err(e) => Err(e),
        }
    }
}

/// What validating a discriminator against a type's fixed identifier
/// returns: the byte when it matches, the distinct mismatch error naming
/// the actual byte when it does not.
pub open spec fn sv_id(v: JsonVal, expected: u8) -> Result<u8, Error> {
    match sv_u8(v) {
        Ok(id) => if id == expected {
            Ok(id)
        } else {
            Err(Error::NonMatchingMessageId { offense: id })
        },
        Err(e) => Err(e),
    }
}

/// Validates that the value is a non-negative integer representable in 64
/// bits.
pub fn validate_u64_argument(value: JsonVal) -> (r: Result<u64, Error>)
    ensures
        r == sv_u64(value),
{
    match &value {
        JsonVal::Number(n) => match n.as_u64() {
            Some(u) => Ok(u),
            None => Err(Error::InvalidJsonU64 { offense: value }),
        },
        _ => Err(Error::InvalidJsonU64 { offense: value }),
    }
}

/// Validates that the value is a non-negative integer representable in 8
/// bits.
pub fn validate_u8_argument(value: JsonVal) -> (r: Result<u8, Error>)
    ensures
        r == sv_u8(value),
{
    match &value {
        JsonVal::Number(n) => match n.as_u8() {
            Some(u) => Ok(u),
            None => Err(Error::InvalidJsonU8 { offense: value }),
        },
        _ => Err(Error::InvalidJsonU8 { offense: value }),
    }
}

/// Validates that the value is an object.
pub fn validate_dict_argument(value: JsonVal) -> (r: Result<JsonVal, Error>)
    ensures
        r == sv_dict(value),
{
    if value.is_object() {
        Ok(value)
    } else {
        Err(Error::InvalidJsonDict { offense: value })
    }
}

/// Validates that the value is an array.
pub fn validate_array_argument(value: JsonVal) -> (r: Result<JsonVal, Error>)
    ensures
        r == sv_array(value),
{
    if value.is_array() {
        Ok(value)
    } else {
        Err(Error::InvalidJsonArray { offense: value })
    }
}

/// Validates that the value is a string.
pub fn validate_str_argument(value: JsonVal) -> (r: Result<String, Error>)
    ensures
        r == sv_str(value),
{
    match value {
        JsonVal::Str(s) => Ok(s),
        other => Err(Error::InvalidJsonStr { offense: other }),
    }
}

/// Validates the optional `Args` position: `null` means absent.
pub fn validate_args(value: JsonVal) -> (r: Result<Option<JsonVal>, Error>)
    ensures
        r == sv_args(value),
{
    if value.is_null() {
        Ok(None)
    } else {
        match validate_array_argument(value) {
            Ok(a) => Ok(Some(a)),
            Err(e) => Err(e),
        }
    }
}

/// Validates the optional `Kwargs` position: `null` means absent.
pub fn validate_kwargs(value: JsonVal) -> (r: Result<Option<JsonVal>, Error>)
    ensures
        r == sv_kwargs(value),
{
    if value.is_null() {
        Ok(None)
    } else {
        match validate_dict_argument(value) {
            Ok(k) => Ok(Some(k)),
            Err(e) => Err(e),
        }
    }
}

} // verus!
