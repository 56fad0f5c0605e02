//! Every message type, the dispatcher and the shared capability, under one
//! roof.

pub use crate::auth::Authenticate;
pub use crate::auth::Challenge;
pub use crate::direction::MessageDirection;
pub use crate::direction::Roles;
pub use crate::events::lemma_extension_message;
pub use crate::events::lemma_profile_partition;
pub use crate::events::spec_known_id;
pub use crate::events::spec_leading_id;
pub use crate::events::Events;
pub use crate::message::from_items_spec;
pub use crate::message::lemma_discriminator_mismatch;
pub use crate::message::WampMessageTrait;
pub use crate::pubsub::Event;
pub use crate::pubsub::Publish;
pub use crate::pubsub::Published;
pub use crate::pubsub::Subscribe;
pub use crate::pubsub::Subscribed;
pub use crate::pubsub::Unsubscribe;
pub use crate::pubsub::Unsubscribed;
pub use crate::registry::Register;
pub use crate::registry::Registered;
pub use crate::registry::Unregister;
pub use crate::registry::Unregistered;
pub use crate::rpc::Call;
pub use crate::rpc::Cancel;
pub use crate::rpc::Interrupt;
pub use crate::rpc::Invocation;
pub use crate::rpc::MessageResult;
pub use crate::rpc::Yield;
pub use crate::session::Abort;
pub use crate::session::ErrorMessage;
pub use crate::session::Goodbye;
pub use crate::session::Hello;
pub use crate::session::Welcome;
pub use crate::value::Args;
pub use crate::value::Details;
pub use crate::value::Kwargs;
pub use crate::value::Options;
pub use crate::value::Uri;
pub use crate::value::WampId;
