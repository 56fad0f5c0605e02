//! Peer roles and the direction table's entries.

use vstd::prelude::*;

verus! {

/// A protocol participant role. A dealer routes calls between callees and
/// callers; a broker routes events from publishers to subscribers.
#[derive(Debug, Clone, Copy, PartialEq, Eq, Structural)]
pub enum Roles {
    Callee,
    Caller,
    Publisher,
    Subscriber,
    Dealer,
    Broker,
}

/// Whether a peer role may receive and/or send a message type. Static
/// protocol metadata for the session layer; the codec does not enforce it.
#[derive(Debug, Clone, Copy, PartialEq, Eq, Structural)]
pub struct MessageDirection {
    pub receives: bool,
    pub sends: bool,
}

} // verus!
