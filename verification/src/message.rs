//! The capability shared by all message types: a fixed discriminator,
//! decoding from a frame, encoding to a frame, and the direction table.

use crate::direction::{MessageDirection, Roles};
use crate::error::Error;
use crate::parse::{parse_json_text, parse_of};
use crate::validate::{sv_id, sv_u8, validate_u8_argument};
use crate::value::{elem_seq, into_items, items_of, tail1, take_front, JsonVal};
use vstd::prelude::*;

verus! {

/// What decoding a whole frame value as a message of type `T` returns: the
/// leading element must equal the type's fixed identifier, then the
/// required fields follow.
pub open spec fn from_items_spec<T: WampMessageTrait>(s: Seq<JsonVal>) -> Result<T, Error> {
    match sv_id(elem_seq(s, 0), T::ID) {
        Ok(_) => T::fields_spec(tail1(s)),
        Err(e) => Err(e),
    }
}

/// Decoding through a specific type's entry point with a mismatched
/// leading byte always fails, naming the actual byte.
pub proof fn lemma_discriminator_mismatch<T: WampMessageTrait>(s: Seq<JsonVal>, id: u8)
    requires
        sv_u8(elem_seq(s, 0)) == Ok::<u8, Error>(id),
        id != T::ID,
    ensures
        from_items_spec::<T>(s) == Err::<T, Error>(Error::NonMatchingMessageId { offense: id }),
{
}

pub trait WampMessageTrait: Sized {
    /// The type's fixed discriminator byte.
    const ID: u8;

    /// What decoding the ordered required fields, after the discriminator,
    /// returns: the fields are consumed left to right, and the first
    /// missing or wrong-kind field decides the error.
    spec fn fields_spec(s: Seq<JsonVal>) -> Result<Self, Error>;

    /// Whether `items` is the frame that encoding `self` produces.
    spec fn frame_ok(self, items: Seq<JsonVal>) -> bool;

    /// The direction table entry of this message type for a peer role.
    spec fn direction_spec(role: Roles) -> MessageDirection;

    /// Decodes the required fields that follow the discriminator.
    fn decode_fields(items: Vec<JsonVal>) -> (r: Result<Self, Error>)
        ensures
            r == Self::fields_spec(items@),
    ;

    /// Consumes the message and produces its frame: the discriminator, the
    /// required fields in order, then the optional payload fields.
    fn to_json(self) -> (r: Result<JsonVal, Error>)
        ensures
            (r matches Ok(f) && f matches JsonVal::Array(a) && self.frame_ok(a@)),
    ;

    /// The direction table entry of this message type for a peer role.
    fn get_message_direction(role: Roles) -> (r: MessageDirection)
        ensures
            r == Self::direction_spec(role),
    ;

    /// Validates a discriminator value against this type's fixed
    /// identifier: a mismatch fails naming the actual byte.
    fn validate_id(value: JsonVal) -> (r: Result<u8, Error>)
        ensures
            r == sv_id(value, Self::ID),
    {
        match validate_u8_argument(value) {
            Ok(id) => if id == Self::ID {
                Ok(id)
            } else {
                Err(Error::NonMatchingMessageId { offense: id })
            },
            Err(e) => Err(e),
        }
    }

    /// Parses frame text to a generic JSON value, propagating syntax
    /// errors.
    fn parse_raw_json(data: String) -> (r: Result<JsonVal, Error>)
        ensures
            parse_of(data@) matches Some(v) ==> r == Ok::<JsonVal, Error>(v),
            parse_of(data@) is None ==> (r matches Err(e) && e is JsonError),
    {
        parse_json_text(data.as_str())
    }

    /// Decodes a message of this type from a whole frame value: the
    /// discriminator must match, then the required fields follow.
    fn from_frame(v: JsonVal) -> (r: Result<Self, Error>)
        ensures
            ({
                match sv_id(elem_seq(items_of(v), 0), Self::ID) {
                    Ok(id) => r == Self::fields_spec(tail1(items_of(v))),
                    Err(e) => r == Err::<Self, Error>(e),
                }
            }),
    {
        let mut items = into_items(v);
        let first = take_front(&mut items);
        match Self::validate_id(first) {
            Ok(_) => Self::decode_fields(items),
            Err(e) => Err(e),
        }
    }

    /// Decodes a message of this type from frame text: a syntax error is
    /// propagated, then the frame decodes as `from_frame` says.
    fn from_str(s: &str) -> (r: Result<Self, Error>)
        ensures
            ({
                match parse_of(s@) {
                    Some(v) => match sv_id(elem_seq(items_of(v), 0), Self::ID) {
                        Ok(id) => r == Self::fields_spec(tail1(items_of(v))),
                        Err(e) => r == Err::<Self, Error>(e),
                    },
                    None => r matches Err(e) && e is JsonError,
                }
            }),
    {
        match Self::parse_raw_json(s.to_owned()) {
            Ok(v) => Self::from_frame(v),
            Err(e) => Err(e),
        }
    }
}

} // verus!
