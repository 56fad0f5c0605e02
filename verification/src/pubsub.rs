//! Publish and subscribe messages: publications, subscriptions and
//! event delivery.

use crate::direction::{MessageDirection, Roles};
use crate::error::Error;
use crate::message::{from_items_spec, WampMessageTrait};
use crate::payload::{payload_ok, payload_round_trip, payload_wf, push_payload};
use crate::validate::{
    sv_args, sv_dict, sv_kwargs, sv_str, sv_u64, validate_args, validate_dict_argument, validate_kwargs, validate_str_argument, validate_u64_argument,
};
use crate::value::{
    Args, Details, JsonVal, Kwargs, Options, Uri, WampId, elem_seq, lemma_tail1_elem, spec_number, tail1, take_front,
};
use vstd::prelude::*;

verus! {

/// A publisher's request to publish to a topic:
/// `[16, Request, Options, Topic, Args?, Kwargs?]`.
#[derive(Debug, PartialEq)]
pub struct Publish {
    pub request: WampId,
    pub options: Options,
    pub topic: Uri,
    pub args: Option<Args>,
    pub kwargs: Option<Kwargs>,
}

impl Publish {
    /// Whether the instance is legally constructed: every metadata
    /// field holds an object, and the payload fields, when present,
    /// hold an array and an object.
    pub open spec fn wf(self) -> bool {
        &&& self.options is Object
        &&& payload_wf(self.args, self.kwargs)
    }

    /// The discriminator and required fields of the frame that
    /// encoding produces; the optional payload follows them.
    pub open spec fn base_seq(self) -> Seq<JsonVal> {
        seq![
            JsonVal::Number(spec_number(16)),
            JsonVal::Number(spec_number(self.request)),
            self.options,
            JsonVal::Str(self.topic),
        ]
    }

    /// Decoding the encoded frame reproduces the required fields
    /// exactly and the payload per the placeholder policy.
    pub proof fn lemma_round_trip(m: Publish, items: Seq<JsonVal>)
        requires
            m.wf(),
            m.frame_ok(items),
        ensures
            ({
                match from_items_spec::<Publish>(items) {
                    Ok(m2) => {
                        &&& m2.request == m.request
                        &&& m2.options == m.options
                        &&& m2.topic == m.topic
                        &&& payload_round_trip(m.args, m.kwargs, m2.args, m2.kwargs)
                    },
                    Err(e) => false,
                }
            }),
    {
        let n: int = 4;
        let p = items.skip(n);
        assert(items.subrange(0, n)[0] == items[0]);
        assert(items.subrange(0, n)[1] == items[1]);
        assert(items.subrange(0, n)[2] == items[2]);
        assert(items.subrange(0, n)[3] == items[3]);
        assert(forall|j: int| 0 <= j < p.len() ==> p[j] == items[n + j]);
        assert(items.len() == n + p.len());
        assert(elem_seq(items, n) == if p.len() > 0 { p[0] } else { JsonVal::Null });
        assert(elem_seq(items, n + 1) == if p.len() > 1 { p[1] } else { JsonVal::Null });
        assert forall|i: int| i >= 0 implies elem_seq(tail1(items), i) == elem_seq(
            items,
            i + 1,
        ) by {
            lemma_tail1_elem(items, i);
        }
    }
}

impl WampMessageTrait for Publish {
    const ID: u8 = 16;

    open spec fn fields_spec(s: Seq<JsonVal>) -> Result<Self, Error> {
        match sv_u64(elem_seq(s, 0)) {
            Ok(request) => match sv_dict(elem_seq(s, 1)) {
                Ok(options) => match sv_str(elem_seq(s, 2)) {
                    Ok(topic) => match sv_args(elem_seq(s, 3)) {
                        Ok(args) => match sv_kwargs(elem_seq(s, 4)) {
                            Ok(kwargs) => Ok(Publish { request, options, topic, args, kwargs }),
                            Err(e) => Err(e),
                        },
                        Err(e) => Err(e),
                    },
                    Err(e) => Err(e),
                },
                Err(e) => Err(e),
            },
            Err(e) => Err(e),
        }
    }

    open spec fn frame_ok(self, items: Seq<JsonVal>) -> bool {
        &&& items.len() >= 4
        &&& items.subrange(0, 4) == self.base_seq()
        &&& payload_ok(self.args, self.kwargs, items.skip(4))
    }

    open spec fn direction_spec(role: Roles) -> MessageDirection {
        match role {
            Roles::Callee => (MessageDirection { receives: false, sends: true }),
            Roles::Caller => (MessageDirection { receives: false, sends: false }),
            Roles::Publisher => (MessageDirection { receives: false, sends: true }),
            Roles::Subscriber => (MessageDirection { receives: false, sends: false }),
            Roles::Dealer => (MessageDirection { receives: false, sends: false }),
            Roles::Broker => (MessageDirection { receives: true, sends: false }),
        }
    }

    fn decode_fields(items: Vec<JsonVal>) -> (r: Result<Self, Error>) {
        let mut rest = items;
        let v0 = take_front(&mut rest);
        let request = match validate_u64_argument(v0) {
            Ok(x) => x,
            Err(e) => {
                return Err(e);
            },
        };
        let v1 = take_front(&mut rest);
        let options = match validate_dict_argument(v1) {
            Ok(x) => x,
            Err(e) => {
                return Err(e);
            },
        };
        let v2 = take_front(&mut rest);
        let topic = match validate_str_argument(v2) {
            Ok(x) => x,
            Err(e) => {
                return Err(e);
            },
        };
        let v3 = take_front(&mut rest);
        let args = match validate_args(v3) {
            Ok(x) => x,
            Err(e) => {
                return Err(e);
            },
        };
        let v4 = take_front(&mut rest);
        let kwargs = match validate_kwargs(v4) {
            Ok(x) => x,
            Err(e) => {
                return Err(e);
            },
        };
        Ok(Publish { request, options, topic, args, kwargs })
    }

    fn to_json(self) -> (r: Result<JsonVal, Error>) {
        let mut data: Vec<JsonVal> = Vec::new();
        data.push(JsonVal::number_u64(16));
        data.push(JsonVal::number_u64(self.request));
        data.push(self.options);
        data.push(JsonVal::Str(self.topic));
        proof {
            assert(data@ =~= self.base_seq());
        }
        push_payload(&mut data, self.args, self.kwargs);
        Ok(JsonVal::Array(data))
    }

    fn get_message_direction(role: Roles) -> MessageDirection {
        match role {
            Roles::Callee => MessageDirection { receives: false, sends: true },
            Roles::Caller => MessageDirection { receives: false, sends: false },
            Roles::Publisher => MessageDirection { receives: false, sends: true },
            Roles::Subscriber => MessageDirection { receives: false, sends: false },
            Roles::Dealer => MessageDirection { receives: false, sends: false },
            Roles::Broker => MessageDirection { receives: true, sends: false },
        }
    }
}

/// A broker's acknowledgement of a publication:
/// `[17, Request, Publication]`.
#[derive(Debug, PartialEq)]
pub struct Published {
    pub request: WampId,
    pub publication: WampId,
}

impl Published {
    /// Whether the instance is legally constructed: its fields are
    /// plain values, so every instance is.
    pub open spec fn wf(self) -> bool {
        true
    }

    /// The frame that encoding produces.
    pub open spec fn frame_seq(self) -> Seq<JsonVal> {
        seq![
            JsonVal::Number(spec_number(17)),
            JsonVal::Number(spec_number(self.request)),
            JsonVal::Number(spec_number(self.publication)),
        ]
    }

    /// Decoding the encoded frame reproduces the message.
    pub proof fn lemma_round_trip(m: Published)
        requires
            m.wf(),
        ensures
            from_items_spec::<Published>(m.frame_seq()) == Ok::<Published, Error>(m),
    {
        let s = m.frame_seq();
        assert(tail1(s) =~= seq![JsonVal::Number(spec_number(m.request)), JsonVal::Number(spec_number(m.publication))]);
    }
}

impl WampMessageTrait for Published {
    const ID: u8 = 17;

    open spec fn fields_spec(s: Seq<JsonVal>) -> Result<Self, Error> {
        match sv_u64(elem_seq(s, 0)) {
            Ok(request) => match sv_u64(elem_seq(s, 1)) {
                Ok(publication) => Ok(Published { request, publication }),
                Err(e) => Err(e),
            },
            Err(e) => Err(e),
        }
    }

    open spec fn frame_ok(self, items: Seq<JsonVal>) -> bool {
        items == self.frame_seq()
    }

    open spec fn direction_spec(role: Roles) -> MessageDirection {
        match role {
            Roles::Callee => (MessageDirection { receives: true, sends: false }),
            Roles::Caller => (MessageDirection { receives: false, sends: false }),
            Roles::Publisher => (MessageDirection { receives: true, sends: false }),
            Roles::Subscriber => (MessageDirection { receives: false, sends: false }),
            Roles::Dealer => (MessageDirection { receives: false, sends: false }),
            Roles::Broker => (MessageDirection { receives: false, sends: true }),
        }
    }

    fn decode_fields(items: Vec<JsonVal>) -> (r: Result<Self, Error>) {
        let mut rest = items;
        let v0 = take_front(&mut rest);
        let request = match validate_u64_argument(v0) {
            Ok(x) => x,
            Err(e) => {
                return Err(e);
            },
        };
        let v1 = take_front(&mut rest);
        let publication = match validate_u64_argument(v1) {
            Ok(x) => x,
            Err(e) => {
                return Err(e);
            },
        };
        Ok(Published { request, publication })
    }

    fn to_json(self) -> (r: Result<JsonVal, Error>) {
        let mut data: Vec<JsonVal> = Vec::new();
        data.push(JsonVal::number_u64(17));
        data.push(JsonVal::number_u64(self.request));
        data.push(JsonVal::number_u64(self.publication));
        proof {
            assert(data@ =~= self.frame_seq());
        }
        Ok(JsonVal::Array(data))
    }

    fn get_message_direction(role: Roles) -> MessageDirection {
        match role {
            Roles::Callee => MessageDirection { receives: true, sends: false },
            Roles::Caller => MessageDirection { receives: false, sends: false },
            Roles::Publisher => MessageDirection { receives: true, sends: false },
            Roles::Subscriber => MessageDirection { receives: false, sends: false },
            Roles::Dealer => MessageDirection { receives: false, sends: false },
            Roles::Broker => MessageDirection { receives: false, sends: true },
        }
    }
}

/// A subscriber's request to subscribe to a topic:
/// `[32, Request, Options, Topic]`.
#[derive(Debug, PartialEq)]
pub struct Subscribe {
    pub request: WampId,
    pub options: Options,
    pub topic: Uri,
}

impl Subscribe {
    /// Whether the instance is legally constructed: every metadata
    /// field holds an object.
    pub open spec fn wf(self) -> bool {
        self.options is Object
    }

    /// The frame that encoding produces.
    pub open spec fn frame_seq(self) -> Seq<JsonVal> {
        seq![
            JsonVal::Number(spec_number(32)),
            JsonVal::Number(spec_number(self.request)),
            self.options,
            JsonVal::Str(self.topic),
        ]
    }

    /// Decoding the encoded frame reproduces the message.
    pub proof fn lemma_round_trip(m: Subscribe)
        requires
            m.wf(),
        ensures
            from_items_spec::<Subscribe>(m.frame_seq()) == Ok::<Subscribe, Error>(m),
    {
        let s = m.frame_seq();
        assert(tail1(s) =~= seq![JsonVal::Number(spec_number(m.request)), m.options, JsonVal::Str(m.topic)]);
    }
}

impl WampMessageTrait for Subscribe {
    const ID: u8 = 32;

    open spec fn fields_spec(s: Seq<JsonVal>) -> Result<Self, Error> {
        match sv_u64(elem_seq(s, 0)) {
            Ok(request) => match sv_dict(elem_seq(s, 1)) {
                Ok(options) => match sv_str(elem_seq(s, 2)) {
                    Ok(topic) => Ok(Subscribe { request, options, topic }),
                    Err(e) => Err(e),
                },
                Err(e) => Err(e),
            },
            Err(e) => Err(e),
        }
    }

    open spec fn frame_ok(self, items: Seq<JsonVal>) -> bool {
        items == self.frame_seq()
    }

    open spec fn direction_spec(role: Roles) -> MessageDirection {
        match role {
            Roles::Callee => (MessageDirection { receives: false, sends: false }),
            Roles::Caller => (MessageDirection { receives: false, sends: false }),
            Roles::Publisher => (MessageDirection { receives: false, sends: false }),
            Roles::Subscriber => (MessageDirection { receives: false, sends: true }),
            Roles::Dealer => (MessageDirection { receives: false, sends: false }),
            Roles::Broker => (MessageDirection { receives: true, sends: false }),
        }
    }

    fn decode_fields(items: Vec<JsonVal>) -> (r: Result<Self, Error>) {
        let mut rest = items;
        let v0 = take_front(&mut rest);
        let request = match validate_u64_argument(v0) {
            Ok(x) => x,
            Err(e) => {
                return Err(e);
            },
        };
        let v1 = take_front(&mut rest);
        let options = match validate_dict_argument(v1) {
            Ok(x) => x,
            Err(e) => {
                return Err(e);
            },
        };
        let v2 = take_front(&mut rest);
        let topic = match validate_str_argument(v2) {
            Ok(x) => x,
            Err(e) => {
                return Err(e);
            },
        };
        Ok(Subscribe { request, options, topic })
    }

    fn to_json(self) -> (r: Result<JsonVal, Error>) {
        let mut data: Vec<JsonVal> = Vec::new();
        data.push(JsonVal::number_u64(32));
        data.push(JsonVal::number_u64(self.request));
        data.push(self.options);
        data.push(JsonVal::Str(self.topic));
        proof {
            assert(data@ =~= self.frame_seq());
        }
        Ok(JsonVal::Array(data))
    }

    fn get_message_direction(role: Roles) -> MessageDirection {
        match role {
            Roles::Callee => MessageDirection { receives: false, sends: false },
            Roles::Caller => MessageDirection { receives: false, sends: false },
            Roles::Publisher => MessageDirection { receives: false, sends: false },
            Roles::Subscriber => MessageDirection { receives: false, sends: true },
            Roles::Dealer => MessageDirection { receives: false, sends: false },
            Roles::Broker => MessageDirection { receives: true, sends: false },
        }
    }
}

/// A broker's acknowledgement of a subscription:
/// `[33, Request, Subscription]`.
#[derive(Debug, PartialEq)]
pub struct Subscribed {
    pub request: WampId,
    pub subscription: WampId,
}

impl Subscribed {
    /// Whether the instance is legally constructed: its fields are
    /// plain values, so every instance is.
    pub open spec fn wf(self) -> bool {
        true
    }

    /// The frame that encoding produces.
    pub open spec fn frame_seq(self) -> Seq<JsonVal> {
        seq![
            JsonVal::Number(spec_number(33)),
            JsonVal::Number(spec_number(self.request)),
            JsonVal::Number(spec_number(self.subscription)),
        ]
    }

    /// Decoding the encoded frame reproduces the message.
    pub proof fn lemma_round_trip(m: Subscribed)
        requires
            m.wf(),
        ensures
            from_items_spec::<Subscribed>(m.frame_seq()) == Ok::<Subscribed, Error>(m),
    {
        let s = m.frame_seq();
        assert(tail1(s) =~= seq![JsonVal::Number(spec_number(m.request)), JsonVal::Number(spec_number(m.subscription))]);
    }
}

impl WampMessageTrait for Subscribed {
    const ID: u8 = 33;

    open spec fn fields_spec(s: Seq<JsonVal>) -> Result<Self, Error> {
        match sv_u64(elem_seq(s, 0)) {
            Ok(request) => match sv_u64(elem_seq(s, 1)) {
                Ok(subscription) => Ok(Subscribed { request, subscription }),
                Err(e) => Err(e),
            },
            Err(e) => Err(e),
        }
    }

    open spec fn frame_ok(self, items: Seq<JsonVal>) -> bool {
        items == self.frame_seq()
    }

    open spec fn direction_spec(role: Roles) -> MessageDirection {
        match role {
            Roles::Callee => (MessageDirection { receives: false, sends: false }),
            Roles::Caller => (MessageDirection { receives: false, sends: false }),
            Roles::Publisher => (MessageDirection { receives: false, sends: false }),
            Roles::Subscriber => (MessageDirection { receives: true, sends: false }),
            Roles::Dealer => (MessageDirection { receives: false, sends: false }),
            Roles::Broker => (MessageDirection { receives: false, sends: true }),
        }
    }

    fn decode_fields(items: Vec<JsonVal>) -> (r: Result<Self, Error>) {
        let mut rest = items;
        let v0 = take_front(&mut rest);
        let request = match validate_u64_argument(v0) {
            Ok(x) => x,
            Err(e) => {
                return Err(e);
            },
        };
        let v1 = take_front(&mut rest);
        let subscription = match validate_u64_argument(v1) {
            Ok(x) => x,
            Err(e) => {
                return Err(e);
            },
        };
        Ok(Subscribed { request, subscription })
    }

    fn to_json(self) -> (r: Result<JsonVal, Error>) {
        let mut data: Vec<JsonVal> = Vec::new();
        data.push(JsonVal::number_u64(33));
        data.push(JsonVal::number_u64(self.request));
        data.push(JsonVal::number_u64(self.subscription));
        proof {
            assert(data@ =~= self.frame_seq());
        }
        Ok(JsonVal::Array(data))
    }

    fn get_message_direction(role: Roles) -> MessageDirection {
        match role {
            Roles::Callee => MessageDirection { receives: false, sends: false },
            Roles::Caller => MessageDirection { receives: false, sends: false },
            Roles::Publisher => MessageDirection { receives: false, sends: false },
            Roles::Subscriber => MessageDirection { receives: true, sends: false },
            Roles::Dealer => MessageDirection { receives: false, sends: false },
            Roles::Broker => MessageDirection { receives: false, sends: true },
        }
    }
}

/// A subscriber's request to end a subscription:
/// `[34, Request, Subscription]`.
#[derive(Debug, PartialEq)]
pub struct Unsubscribe {
    pub request: WampId,
    pub subscription: WampId,
}

impl Unsubscribe {
    /// Whether the instance is legally constructed: its fields are
    /// plain values, so every instance is.
    pub open spec fn wf(self) -> bool {
        true
    }

    /// The frame that encoding produces.
    pub open spec fn frame_seq(self) -> Seq<JsonVal> {
        seq![
            JsonVal::Number(spec_number(34)),
            JsonVal::Number(spec_number(self.request)),
            JsonVal::Number(spec_number(self.subscription)),
        ]
    }

    /// Decoding the encoded frame reproduces the message.
    pub proof fn lemma_round_trip(m: Unsubscribe)
        requires
            m.wf(),
        ensures
            from_items_spec::<Unsubscribe>(m.frame_seq()) == Ok::<Unsubscribe, Error>(m),
    {
        let s = m.frame_seq();
        assert(tail1(s) =~= seq![JsonVal::Number(spec_number(m.request)), JsonVal::Number(spec_number(m.subscription))]);
    }
}

impl WampMessageTrait for Unsubscribe {
    const ID: u8 = 34;

    open spec fn fields_spec(s: Seq<JsonVal>) -> Result<Self, Error> {
        match sv_u64(elem_seq(s, 0)) {
            Ok(request) => match sv_u64(elem_seq(s, 1)) {
                Ok(subscription) => Ok(Unsubscribe { request, subscription }),
                Err(e) => Err(e),
            },
            Err(e) => Err(e),
        }
    }

    open spec fn frame_ok(self, items: Seq<JsonVal>) -> bool {
        items == self.frame_seq()
    }

    open spec fn direction_spec(role: Roles) -> MessageDirection {
        match role {
            Roles::Callee => (MessageDirection { receives: false, sends: false }),
            Roles::Caller => (MessageDirection { receives: false, sends: false }),
            Roles::Publisher => (MessageDirection { receives: false, sends: false }),
            Roles::Subscriber => (MessageDirection { receives: false, sends: true }),
            Roles::Dealer => (MessageDirection { receives: false, sends: false }),
            Roles::Broker => (MessageDirection { receives: true, sends: false }),
        }
    }

    fn decode_fields(items: Vec<JsonVal>) -> (r: Result<Self, Error>) {
        let mut rest = items;
        let v0 = take_front(&mut rest);
        let request = match validate_u64_argument(v0) {
            Ok(x) => x,
            Err(e) => {
                return Err(e);
            },
        };
        let v1 = take_front(&mut rest);
        let subscription = match validate_u64_argument(v1) {
            Ok(x) => x,
            Err(e) => {
                return Err(e);
            },
        };
        Ok(Unsubscribe { request, subscription })
    }

    fn to_json(self) -> (r: Result<JsonVal, Error>) {
        let mut data: Vec<JsonVal> = Vec::new();
        data.push(JsonVal::number_u64(34));
        data.push(JsonVal::number_u64(self.request));
        data.push(JsonVal::number_u64(self.subscription));
        proof {
            assert(data@ =~= self.frame_seq());
        }
        Ok(JsonVal::Array(data))
    }

    fn get_message_direction(role: Roles) -> MessageDirection {
        match role {
            Roles::Callee => MessageDirection { receives: false, sends: false },
            Roles::Caller => MessageDirection { receives: false, sends: false },
            Roles::Publisher => MessageDirection { receives: false, sends: false },
            Roles::Subscriber => MessageDirection { receives: false, sends: true },
            Roles::Dealer => MessageDirection { receives: false, sends: false },
            Roles::Broker => MessageDirection { receives: true, sends: false },
        }
    }
}

/// A broker's acknowledgement that a subscription ended:
/// `[35, Request]`.
#[derive(Debug, PartialEq)]
pub struct Unsubscribed {
    pub request: WampId,
}

impl Unsubscribed {
    /// Whether the instance is legally constructed: its fields are
    /// plain values, so every instance is.
    pub open spec fn wf(self) -> bool {
        true
    }

    /// The frame that encoding produces.
    pub open spec fn frame_seq(self) -> Seq<JsonVal> {
        seq![
            JsonVal::Number(spec_number(35)),
            JsonVal::Number(spec_number(self.request)),
        ]
    }

    /// Decoding the encoded frame reproduces the message.
    pub proof fn lemma_round_trip(m: Unsubscribed)
        requires
            m.wf(),
        ensures
            from_items_spec::<Unsubscribed>(m.frame_seq()) == Ok::<Unsubscribed, Error>(m),
    {
        let s = m.frame_seq();
        assert(tail1(s) =~= seq![JsonVal::Number(spec_number(m.request))]);
    }
}

impl WampMessageTrait for Unsubscribed {
    const ID: u8 = 35;

    open spec fn fields_spec(s: Seq<JsonVal>) -> Result<Self, Error> {
        match sv_u64(elem_seq(s, 0)) {
            Ok(request) => Ok(Unsubscribed { request }),
            Err(e) => Err(e),
        }
    }

    open spec fn frame_ok(self, items: Seq<JsonVal>) -> bool {
        items == self.frame_seq()
    }

    open spec fn direction_spec(role: Roles) -> MessageDirection {
        match role {
            Roles::Callee => (MessageDirection { receives: false, sends: false }),
            Roles::Caller => (MessageDirection { receives: false, sends: false }),
            Roles::Publisher => (MessageDirection { receives: false, sends: false }),
            Roles::Subscriber => (MessageDirection { receives: true, sends: false }),
            Roles::Dealer => (MessageDirection { receives: false, sends: false }),
            Roles::Broker => (MessageDirection { receives: false, sends: true }),
        }
    }

    fn decode_fields(items: Vec<JsonVal>) -> (r: Result<Self, Error>) {
        let mut rest = items;
        let v0 = take_front(&mut rest);
        let request = match validate_u64_argument(v0) {
            Ok(x) => x,
            Err(e) => {
                return Err(e);
            },
        };
        Ok(Unsubscribed { request })
    }

    fn to_json(self) -> (r: Result<JsonVal, Error>) {
        let mut data: Vec<JsonVal> = Vec::new();
        data.push(JsonVal::number_u64(35));
        data.push(JsonVal::number_u64(self.request));
        proof {
            assert(data@ =~= self.frame_seq());
        }
        Ok(JsonVal::Array(data))
    }

    fn get_message_direction(role: Roles) -> MessageDirection {
        match role {
            Roles::Callee => MessageDirection { receives: false, sends: false },
            Roles::Caller => MessageDirection { receives: false, sends: false },
            Roles::Publisher => MessageDirection { receives: false, sends: false },
            Roles::Subscriber => MessageDirection { receives: true, sends: false },
            Roles::Dealer => MessageDirection { receives: false, sends: false },
            Roles::Broker => MessageDirection { receives: false, sends: true },
        }
    }
}

/// A broker's delivery of a publication to a subscriber:
/// `[36, Subscription, Publication, Details, Args?, Kwargs?]`.
#[derive(Debug, PartialEq)]
pub struct Event {
    pub subscription: WampId,
    pub publication: WampId,
    pub details: Details,
    pub args: Option<Args>,
    pub kwargs: Option<Kwargs>,
}

impl Event {
    /// Whether the instance is legally constructed: every metadata
    /// field holds an object, and the payload fields, when present,
    /// hold an array and an object.
    pub open spec fn wf(self) -> bool {
        &&& self.details is Object
        &&& payload_wf(self.args, self.kwargs)
    }

    /// The discriminator and required fields of the frame that
    /// encoding produces; the optional payload follows them.
    pub open spec fn base_seq(self) -> Seq<JsonVal> {
        seq![
            JsonVal::Number(spec_number(36)),
            JsonVal::Number(spec_number(self.subscription)),
            JsonVal::Number(spec_number(self.publication)),
            self.details,
        ]
    }

    /// Decoding the encoded frame reproduces the required fields
    /// exactly and the payload per the placeholder policy.
    pub proof fn lemma_round_trip(m: Event, items: Seq<JsonVal>)
        requires
            m.wf(),
            m.frame_ok(items),
        ensures
            ({
                match from_items_spec::<Event>(items) {
                    Ok(m2) => {
                        &&& m2.subscription == m.subscription
                        &&& m2.publication == m.publication
                        &&& m2.details == m.details
                        &&& payload_round_trip(m.args, m.kwargs, m2.args, m2.kwargs)
                    },
                    Err(e) => false,
                }
            }),
    {
        let n: int = 4;
        let p = items.skip(n);
        assert(items.subrange(0, n)[0] == items[0]);
        assert(items.subrange(0, n)[1] == items[1]);
        assert(items.subrange(0, n)[2] == items[2]);
        assert(items.subrange(0, n)[3] == items[3]);
        assert(forall|j: int| 0 <= j < p.len() ==> p[j] == items[n + j]);
        assert(items.len() == n + p.len());
        assert(elem_seq(items, n) == if p.len() > 0 { p[0] } else { JsonVal::Null });
        assert(elem_seq(items, n + 1) == if p.len() > 1 { p[1] } else { JsonVal::Null });
        assert forall|i: int| i >= 0 implies elem_seq(tail1(items), i) == elem_seq(
            items,
            i + 1,
        ) by {
            lemma_tail1_elem(items, i);
        }
    }
}

impl WampMessageTrait for Event {
    const ID: u8 = 36;

    open spec fn fields_spec(s: Seq<JsonVal>) -> Result<Self, Error> {
        match sv_u64(elem_seq(s, 0)) {
            Ok(subscription) => match sv_u64(elem_seq(s, 1)) {
                Ok(publication) => match sv_dict(elem_seq(s, 2)) {
                    Ok(details) => match sv_args(elem_seq(s, 3)) {
                        Ok(args) => match sv_kwargs(elem_seq(s, 4)) {
                            Ok(kwargs) => Ok(Event { subscription, publication, details, args, kwargs }),
                            Err(e) => Err(e),
                        },
                        Err(e) => Err(e),
                    },
                    Err(e) => Err(e),
                },
                Err(e) => Err(e),
            },
            Err(e) => Err(e),
        }
    }

    open spec fn frame_ok(self, items: Seq<JsonVal>) -> bool {
        &&& items.len() >= 4
        &&& items.subrange(0, 4) == self.base_seq()
        &&& payload_ok(self.args, self.kwargs, items.skip(4))
    }

    open spec fn direction_spec(role: Roles) -> MessageDirection {
        match role {
            Roles::Callee => (MessageDirection { receives: false, sends: false }),
            Roles::Caller => (MessageDirection { receives: false, sends: false }),
            Roles::Publisher => (MessageDirection { receives: false, sends: false }),
            Roles::Subscriber => (MessageDirection { receives: true, sends: false }),
            Roles::Dealer => (MessageDirection { receives: false, sends: false }),
            Roles::Broker => (MessageDirection { receives: false, sends: true }),
        }
    }

    fn decode_fields(items: Vec<JsonVal>) -> (r: Result<Self, Error>) {
        let mut rest = items;
        let v0 = take_front(&mut rest);
        let subscription = match validate_u64_argument(v0) {
            Ok(x) => x,
            Err(e) => {
                return Err(e);
            },
        };
        let v1 = take_front(&mut rest);
        let publication = match validate_u64_argument(v1) {
            Ok(x) => x,
            Err(e) => {
                return Err(e);
            },
        };
        let v2 = take_front(&mut rest);
        let details = match validate_dict_argument(v2) {
            Ok(x) => x,
            Err(e) => {
                return Err(e);
            },
        };
        let v3 = take_front(&mut rest);
        let args = match validate_args(v3) {
            Ok(x) => x,
            Err(e) => {
                return Err(e);
            },
        };
        let v4 = take_front(&mut rest);
        let kwargs = match validate_kwargs(v4) {
            Ok(x) => x,
            Err(e) => {
                return Err(e);
            },
        };
        Ok(Event { subscription, publication, details, args, kwargs })
    }

    fn to_json(self) -> (r: Result<JsonVal, Error>) {
        let mut data: Vec<JsonVal> = Vec::new();
        data.push(JsonVal::number_u64(36));
        data.push(JsonVal::number_u64(self.subscription));
        data.push(JsonVal::number_u64(self.publication));
        data.push(self.details);
        proof {
            assert(data@ =~= self.base_seq());
        }
        push_payload(&mut data, self.args, self.kwargs);
        Ok(JsonVal::Array(data))
    }

    fn get_message_direction(role: Roles) -> MessageDirection {
        match role {
            Roles::Callee => MessageDirection { receives: false, sends: false },
            Roles::Caller => MessageDirection { receives: false, sends: false },
            Roles::Publisher => MessageDirection { receives: false, sends: false },
            Roles::Subscriber => MessageDirection { receives: true, sends: false },
            Roles::Dealer => MessageDirection { receives: false, sends: false },
            Roles::Broker => MessageDirection { receives: false, sends: true },
        }
    }
}

} // verus!
