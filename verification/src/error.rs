//! Errors of the codec.
//!
//! Every failure of a decode or encode surfaces as one of these variants;
//! the per-field variants carry the offending value.

use crate::value::JsonVal;
use vstd::prelude::*;

verus! {

/// What can go wrong while decoding or encoding a frame.
#[derive(Debug, PartialEq, Eq)]
pub enum Error {
    /// The frame text is not valid JSON; carries the parser's description.
    JsonError(String),
    /// The dispatcher found no valid 8-bit discriminator at the front.
    InvalidId,
    /// The discriminator is a well-formed number outside the known set.
    ExtensionMessage,
    /// A specific type's decoder saw another type's discriminator.
    NonMatchingMessageId { offense: u8 },
    /// The value is not a non-negative integer representable in 8 bits.
    InvalidJsonU8 { offense: JsonVal },
    /// The value is not an object.
    InvalidJsonDict { offense: JsonVal },
    /// The value is not an array.
    InvalidJsonArray { offense: JsonVal },
    /// The value is not a non-negative integer representable in 64 bits.
    InvalidJsonU64 { offense: JsonVal },
    /// The value is not a string.
    InvalidJsonStr { offense: JsonVal },
}

} // verus!
