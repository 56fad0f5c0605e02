//! Codec for a WAMP-style text-frame RPC/pub-sub wire protocol.
//!
//! The library translates between typed protocol messages and the
//! protocol's positional JSON array encoding: twenty-four message shapes,
//! each with a fixed discriminator byte, required fields in fixed order,
//! and optional trailing `Args`/`Kwargs` payload fields.
//!
//! JSON text itself is read by the `json` crate behind the small trusted
//! boundary in [`parse`]; everything past that boundary — the field
//! validators, every message codec, the dispatcher and the direction
//! table — is verified.

pub mod auth;
pub mod direction;
pub mod error;
pub mod events;
pub mod message;
pub mod messages;
pub mod parse;
pub mod payload;
pub mod pubsub;
pub mod registry;
pub mod rpc;
pub mod session;
pub mod validate;
pub mod value;

pub use value::JsonNumber;
pub use value::JsonVal;
