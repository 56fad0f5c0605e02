//! The dispatcher: reads a frame's discriminator, routes to the matching
//! variant decoder, and classifies the result as basic or advanced.

use crate::auth::{Authenticate, Challenge};
use crate::pubsub::{Event, Publish, Published, Subscribe, Subscribed, Unsubscribe, Unsubscribed};
use crate::registry::{Register, Registered, Unregister, Unregistered};
use crate::rpc::{Call, Cancel, Interrupt, Invocation, MessageResult, Yield};
use crate::session::{Abort, ErrorMessage, Goodbye, Hello, Welcome};
use crate::error::Error;
use crate::message::WampMessageTrait;
use crate::parse::{parse_json_text, parse_of};
use crate::validate::{sv_u8};
use crate::value::{elem_seq, into_items, items_of, tail1, take_front, JsonVal};
use vstd::prelude::*;

verus! {

/// The dispatcher's result: a closed union over all message types.
#[derive(Debug, PartialEq)]
pub enum Events {
    Hello(Hello),
    Welcome(Welcome),
    Abort(Abort),
    Challenge(Challenge),
    Authenticate(Authenticate),
    Goodbye(Goodbye),
    ErrorMessage(ErrorMessage),
    Publish(Publish),
    Published(Published),
    Subscribe(Subscribe),
    Subscribed(Subscribed),
    Unsubscribe(Unsubscribe),
    Unsubscribed(Unsubscribed),
    Event(Event),
    Call(Call),
    Cancel(Cancel),
    MessageResult(MessageResult),
    Register(Register),
    Registered(Registered),
    Unregister(Unregister),
    Unregistered(Unregistered),
    Invocation(Invocation),
    Interrupt(Interrupt),
    Yield(Yield),
}

/// The discriminator at the front of a frame's elements, when there is a
/// well-formed 8-bit one.
pub open spec fn spec_leading_id(s: Seq<JsonVal>) -> Option<u8> {
    match sv_u8(elem_seq(s, 0)) {
        Ok(id) => Some(id),
        Err(_) => None,
    }
}

/// Whether the byte is one of the twenty-four known discriminators.
pub open spec fn spec_known_id(id: u8) -> bool {
    ||| id == 1
    ||| id == 2
    ||| id == 3
    ||| id == 4
    ||| id == 5
    ||| id == 6
    ||| id == 8
    ||| id == 16
    ||| id == 17
    ||| id == 32
    ||| id == 33
    ||| id == 34
    ||| id == 35
    ||| id == 36
    ||| id == 48
    ||| id == 49
    ||| id == 50
    ||| id == 64
    ||| id == 65
    ||| id == 66
    ||| id == 67
    ||| id == 68
    ||| id == 69
    ||| id == 70
}

impl Events {
    /// What dispatching a frame's elements returns: no valid leading
    /// discriminator fails with `InvalidId`; a known discriminator
    /// delegates to that type's field decoding; an unrecognized but
    /// well-formed one fails with `ExtensionMessage`.
    pub open spec fn dispatch_spec(s: Seq<JsonVal>) -> Result<Events, Error> {
        match spec_leading_id(s) {
            None => Err(Error::InvalidId),
            Some(id) => {
                if id == 1 {
                    match Hello::fields_spec(tail1(s)) {
                        Ok(m) => Ok(Events::Hello(m)),
                        Err(e) => Err(e),
                    }
                } else if id == 2 {
                    match Welcome::fields_spec(tail1(s)) {
                        Ok(m) => Ok(Events::Welcome(m)),
                        Err(e) => Err(e),
                    }
                } else if id == 3 {
                    match Abort::fields_spec(tail1(s)) {
                        Ok(m) => Ok(Events::Abort(m)),
                        Err(e) => Err(e),
                    }
                } else if id == 4 {
                    match Challenge::fields_spec(tail1(s)) {
                        Ok(m) => Ok(Events::Challenge(m)),
                        Err(e) => Err(e),
                    }
                } else if id == 5 {
                    match Authenticate::fields_spec(tail1(s)) {
                        Ok(m) => Ok(Events::Authenticate(m)),
                        Err(e) => Err(e),
                    }
                } else if id == 6 {
                    match Goodbye::fields_spec(tail1(s)) {
                        Ok(m) => Ok(Events::Goodbye(m)),
                        Err(e) => Err(e),
                    }
                } else if id == 8 {
                    match ErrorMessage::fields_spec(tail1(s)) {
                        Ok(m) => Ok(Events::ErrorMessage(m)),
                        Err(e) => Err(e),
                    }
                } else if id == 16 {
                    match Publish::fields_spec(tail1(s)) {
                        Ok(m) => Ok(Events::Publish(m)),
                        Err(e) => Err(e),
                    }
                } else if id == 17 {
                    match Published::fields_spec(tail1(s)) {
                        Ok(m) => Ok(Events::Published(m)),
                        Err(e) => Err(e),
                    }
                } else if id == 32 {
                    match Subscribe::fields_spec(tail1(s)) {
                        Ok(m) => Ok(Events::Subscribe(m)),
                        Err(e) => Err(e),
                    }
                } else if id == 33 {
                    match Subscribed::fields_spec(tail1(s)) {
                        Ok(m) => Ok(Events::Subscribed(m)),
                        Err(e) => Err(e),
                    }
                } else if id == 34 {
                    match Unsubscribe::fields_spec(tail1(s)) {
                        Ok(m) => Ok(Events::Unsubscribe(m)),
                        Err(e) => Err(e),
                    }
                } else if id == 35 {
                    match Unsubscribed::fields_spec(tail1(s)) {
                        Ok(m) => Ok(Events::Unsubscribed(m)),
                        Err(e) => Err(e),
                    }
                } else if id == 36 {
                    match Event::fields_spec(tail1(s)) {
                        Ok(m) => Ok(Events::Event(m)),
                        Err(e) => Err(e),
                    }
                } else if id == 48 {
                    match Call::fields_spec(tail1(s)) {
                        Ok(m) => Ok(Events::Call(m)),
                        Err(e) => Err(e),
                    }
                } else if id == 49 {
                    match Cancel::fields_spec(tail1(s)) {
                        Ok(m) => Ok(Events::Cancel(m)),
                        Err(e) => Err(e),
                    }
                } else if id == 50 {
                    match MessageResult::fields_spec(tail1(s)) {
                        Ok(m) => Ok(Events::MessageResult(m)),
                        Err(e) => Err(e),
                    }
                } else if id == 64 {
                    match Register::fields_spec(tail1(s)) {
                        Ok(m) => Ok(Events::Register(m)),
                        Err(e) => Err(e),
                    }
                } else if id == 65 {
                    match Registered::fields_spec(tail1(s)) {
                        Ok(m) => Ok(Events::Registered(m)),
                        Err(e) => Err(e),
                    }
                } else if id == 66 {
                    match Unregister::fields_spec(tail1(s)) {
                        Ok(m) => Ok(Events::Unregister(m)),
                        Err(e) => Err(e),
                    }
                } else if id == 67 {
                    match Unregistered::fields_spec(tail1(s)) {
                        Ok(m) => Ok(Events::Unregistered(m)),
                        Err(e) => Err(e),
                    }
                } else if id == 68 {
                    match Invocation::fields_spec(tail1(s)) {
                        Ok(m) => Ok(Events::Invocation(m)),
                        Err(e) => Err(e),
                    }
                } else if id == 69 {
                    match Interrupt::fields_spec(tail1(s)) {
                        Ok(m) => Ok(Events::Interrupt(m)),
                        Err(e) => Err(e),
                    }
                } else if id == 70 {
                    match Yield::fields_spec(tail1(s)) {
                        Ok(m) => Ok(Events::Yield(m)),
                        Err(e) => Err(e),
                    }
                } else {
                    Err(Error::ExtensionMessage)
                }
            },
        }
    }

    /// Dispatches a parsed frame value to the matching variant decoder.
    pub fn dispatch_value(v: JsonVal) -> (r: Result<Events, Error>)
        ensures
            r == Events::dispatch_spec(items_of(v)),
    {
        let mut items = into_items(v);
        let first = take_front(&mut items);
        let id_opt = match &first {
            JsonVal::Number(n) => n.as_u8(),
            _ => None,
        };
        match id_opt {
            None => Err(Error::InvalidId),
            Some(id) => match id {
                1 => match Hello::decode_fields(items) {
                    Ok(m) => Ok(Events::Hello(m)),
                    Err(e) => Err(e),
                },
                2 => match Welcome::decode_fields(items) {
                    Ok(m) => Ok(Events::Welcome(m)),
                    Err(e) => Err(e),
                },
                3 => match Abort::decode_fields(items) {
                    Ok(m) => Ok(Events::Abort(m)),
                    Err(e) => Err(e),
                },
                4 => match Challenge::decode_fields(items) {
                    Ok(m) => Ok(Events::Challenge(m)),
                    Err(e) => Err(e),
                },
                5 => match Authenticate::decode_fields(items) {
                    Ok(m) => Ok(Events::Authenticate(m)),
                    Err(e) => Err(e),
                },
                6 => match Goodbye::decode_fields(items) {
                    Ok(m) => Ok(Events::Goodbye(m)),
                    Err(e) => Err(e),
                },
                8 => match ErrorMessage::decode_fields(items) {
                    Ok(m) => Ok(Events::ErrorMessage(m)),
                    Err(e) => Err(e),
                },
                16 => match Publish::decode_fields(items) {
                    Ok(m) => Ok(Events::Publish(m)),
                    Err(e) => Err(e),
                },
                17 => match Published::decode_fields(items) {
                    Ok(m) => Ok(Events::Published(m)),
                    Err(e) => Err(e),
                },
                32 => match Subscribe::decode_fields(items) {
                    Ok(m) => Ok(Events::Subscribe(m)),
                    Err(e) => Err(e),
                },
                33 => match Subscribed::decode_fields(items) {
                    Ok(m) => Ok(Events::Subscribed(m)),
                    Err(e) => Err(e),
                },
                34 => match Unsubscribe::decode_fields(items) {
                    Ok(m) => Ok(Events::Unsubscribe(m)),
                    Err(e) => Err(e),
                },
                35 => match Unsubscribed::decode_fields(items) {
                    Ok(m) => Ok(Events::Unsubscribed(m)),
                    Err(e) => Err(e),
                },
                36 => match Event::decode_fields(items) {
                    Ok(m) => Ok(Events::Event(m)),
                    Err(e) => Err(e),
                },
                48 => match Call::decode_fields(items) {
                    Ok(m) => Ok(Events::Call(m)),
                    Err(e) => Err(e),
                },
                49 => match Cancel::decode_fields(items) {
                    Ok(m) => Ok(Events::Cancel(m)),
                    Err(e) => Err(e),
                },
                50 => match MessageResult::decode_fields(items) {
                    Ok(m) => Ok(Events::MessageResult(m)),
                    Err(e) => Err(e),
                },
                64 => match Register::decode_fields(items) {
                    Ok(m) => Ok(Events::Register(m)),
                    Err(e) => Err(e),
                },
                65 => match Registered::decode_fields(items) {
                    Ok(m) => Ok(Events::Registered(m)),
                    Err(e) => Err(e),
                },
                66 => match Unregister::decode_fields(items) {
                    Ok(m) => Ok(Events::Unregister(m)),
                    Err(e) => Err(e),
                },
                67 => match Unregistered::decode_fields(items) {
                    Ok(m) => Ok(Events::Unregistered(m)),
                    Err(e) => Err(e),
                },
                68 => match Invocation::decode_fields(items) {
                    Ok(m) => Ok(Events::Invocation(m)),
                    Err(e) => Err(e),
                },
                69 => match Interrupt::decode_fields(items) {
                    Ok(m) => Ok(Events::Interrupt(m)),
                    Err(e) => Err(e),
                },
                70 => match Yield::decode_fields(items) {
                    Ok(m) => Ok(Events::Yield(m)),
                    Err(e) => Err(e),
                },
                _ => Err(Error::ExtensionMessage),
            },
        }
    }

    /// Parses a raw frame text and dispatches it: a syntax error is
    /// propagated, then the frame dispatches as `dispatch_value` says.
    pub fn parse_message(raw_message_string: &String) -> (r: Result<Events, Error>)
        ensures
            ({
                match parse_of(raw_message_string@) {
                    Some(v) => r == Events::dispatch_spec(items_of(v)),
                    None => r matches Err(e) && e is JsonError,
                }
            }),
    {
        match parse_json_text(raw_message_string.as_str()) {
            Ok(v) => Events::dispatch_value(v),
            Err(e) => Err(e),
        }
    }

    /// Whether the message belongs to the core profile.
    pub open spec fn spec_is_basic(&self) -> bool {
        match self {
            Events::Authenticate(_) => false,
            Events::Cancel(_) => false,
            Events::Challenge(_) => false,
            Events::Interrupt(_) => false,
            _ => true,
        }
    }

    /// Whether the message belongs to the advanced profile:
    /// authentication, call cancellation and interruption.
    pub open spec fn spec_is_advanced(&self) -> bool {
        match self {
            Events::Authenticate(_) => true,
            Events::Cancel(_) => true,
            Events::Challenge(_) => true,
            Events::Interrupt(_) => true,
            _ => false,
        }
    }

    /// Whether the message belongs to the core profile.
    pub fn is_basic(&self) -> (r: bool)
        ensures
            r == self.spec_is_basic(),
    {
        match self {
            Events::Authenticate(_authenticate) => false,
            Events::Cancel(_cancel) => false,
            Events::Challenge(_challenge) => false,
            Events::Interrupt(_interrupt) => false,
            _ => true,
        }
    }

    /// Whether the message belongs to the advanced profile.
    pub fn is_advanced(&self) -> (r: bool)
        ensures
            r == self.spec_is_advanced(),
    {
        match self {
            Events::Authenticate(_authenticate) => true,
            Events::Cancel(_cancel) => true,
            Events::Challenge(_challenge) => true,
            Events::Interrupt(_interrupt) => true,
            _ => false,
        }
    }
}

/// The profile classification is a partition: every message is basic or
/// advanced and never both, and the advanced set is exactly `Challenge`,
/// `Authenticate`, `Cancel` and `Interrupt`.
pub proof fn lemma_profile_partition(e: &Events)
    ensures
        e.spec_is_basic() <==> !e.spec_is_advanced(),
        e.spec_is_advanced() <==> (*e is Challenge || *e is Authenticate || *e is Cancel
            || *e is Interrupt),
{
}

/// A frame whose leading value is a well-formed byte outside the known
/// discriminator set dispatches to `ExtensionMessage`, never to another
/// error and never to a message.
pub proof fn lemma_extension_message(s: Seq<JsonVal>, id: u8)
    requires
        spec_leading_id(s) == Some(id),
        !spec_known_id(id),
    ensures
        Events::dispatch_spec(s) == Err::<Events, Error>(Error::ExtensionMessage),
{
}

} // verus!
