//! Remote procedure call messages: calling, cancelling, results, and
//! the callee's side of an invocation.

use crate::direction::{MessageDirection, Roles};
use crate::error::Error;
use crate::message::{from_items_spec, WampMessageTrait};
use crate::payload::{payload_ok, payload_round_trip, payload_wf, push_payload};
use crate::validate::{
    sv_args, sv_dict, sv_kwargs, sv_str, sv_u64, validate_args, validate_dict_argument, validate_kwargs, validate_str_argument, validate_u64_argument,
};
use crate::value::{
    Args, Details, JsonVal, Kwargs, Options, Uri, WampId, elem_seq, lemma_tail1_elem, spec_number, tail1, take_front,
};
use vstd::prelude::*;

verus! {

/// A caller's request to run a procedure:
/// `[48, Request, Options, Procedure, Args?, Kwargs?]`.
#[derive(Debug, PartialEq)]
pub struct Call {
    pub request: WampId,
    pub options: Options,
    pub procedure: Uri,
    pub args: Option<Args>,
    pub kwargs: Option<Kwargs>,
}

impl Call {
    /// Whether the instance is legally constructed: every metadata
    /// field holds an object, and the payload fields, when present,
    /// hold an array and an object.
    pub open spec fn wf(self) -> bool {
        &&& self.options is Object
        &&& payload_wf(self.args, self.kwargs)
    }

    /// The discriminator and required fields of the frame that
    /// encoding produces; the optional payload follows them.
    pub open spec fn base_seq(self) -> Seq<JsonVal> {
        seq![
            JsonVal::Number(spec_number(48)),
            JsonVal::Number(spec_number(self.request)),
            self.options,
            JsonVal::Str(self.procedure),
        ]
    }

    /// Decoding the encoded frame reproduces the required fields
    /// exactly and the payload per the placeholder policy.
    pub proof fn lemma_round_trip(m: Call, items: Seq<JsonVal>)
        requires
            m.wf(),
            m.frame_ok(items),
        ensures
            ({
                match from_items_spec::<Call>(items) {
                    Ok(m2) => {
                        &&& m2.request == m.request
                        &&& m2.options == m.options
                        &&& m2.procedure == m.procedure
                        &&& payload_round_trip(m.args, m.kwargs, m2.args, m2.kwargs)
                    },
                    Err(e) => false,
                }
            }),
    {
        let n: int = 4;
        let p = items.skip(n);
        assert(items.subrange(0, n)[0] == items[0]);
        assert(items.subrange(0, n)[1] == items[1]);
        assert(items.subrange(0, n)[2] == items[2]);
        assert(items.subrange(0, n)[3] == items[3]);
        assert(forall|j: int| 0 <= j < p.len() ==> p[j] == items[n + j]);
        assert(items.len() == n + p.len());
        assert(elem_seq(items, n) == if p.len() > 0 { p[0] } else { JsonVal::Null });
        assert(elem_seq(items, n + 1) == if p.len() > 1 { p[1] } else { JsonVal::Null });
        assert forall|i: int| i >= 0 implies elem_seq(tail1(items), i) == elem_seq(
            items,
            i + 1,
        ) by {
            lemma_tail1_elem(items, i);
        }
    }
}

impl WampMessageTrait for Call {
    const ID: u8 = 48;

    open spec fn fields_spec(s: Seq<JsonVal>) -> Result<Self, Error> {
        match sv_u64(elem_seq(s, 0)) {
            Ok(request) => match sv_dict(elem_seq(s, 1)) {
                Ok(options) => match sv_str(elem_seq(s, 2)) {
                    Ok(procedure) => match sv_args(elem_seq(s, 3)) {
                        Ok(args) => match sv_kwargs(elem_seq(s, 4)) {
                            Ok(kwargs) => Ok(Call { request, options, procedure, args, kwargs }),
                            Err(e) => Err(e),
                        },
                        Err(e) => Err(e),
                    },
                    Err(e) => Err(e),
                },
                Err(e) => Err(e),
            },
            Err(e) => Err(e),
        }
    }

    open spec fn frame_ok(self, items: Seq<JsonVal>) -> bool {
        &&& items.len() >= 4
        &&& items.subrange(0, 4) == self.base_seq()
        &&& payload_ok(self.args, self.kwargs, items.skip(4))
    }

    open spec fn direction_spec(role: Roles) -> MessageDirection {
        match role {
            Roles::Callee => (MessageDirection { receives: false, sends: false }),
            Roles::Caller => (MessageDirection { receives: false, sends: true }),
            Roles::Publisher => (MessageDirection { receives: false, sends: false }),
            Roles::Subscriber => (MessageDirection { receives: false, sends: false }),
            Roles::Dealer => (MessageDirection { receives: false, sends: true }),
            Roles::Broker => (MessageDirection { receives: false, sends: false }),
        }
    }

    fn decode_fields(items: Vec<JsonVal>) -> (r: Result<Self, Error>) {
        let mut rest = items;
        let v0 = take_front(&mut rest);
        let request = match validate_u64_argument(v0) {
            Ok(x) => x,
            Err(e) => {
                return Err(e);
            },
        };
        let v1 = take_front(&mut rest);
        let options = match validate_dict_argument(v1) {
            Ok(x) => x,
            Err(e) => {
                return Err(e);
            },
        };
        let v2 = take_front(&mut rest);
        let procedure = match validate_str_argument(v2) {
            Ok(x) => x,
            Err(e) => {
                return Err(e);
            },
        };
        let v3 = take_front(&mut rest);
        let args = match validate_args(v3) {
            Ok(x) => x,
            Err(e) => {
                return Err(e);
            },
        };
        let v4 = take_front(&mut rest);
        let kwargs = match validate_kwargs(v4) {
            Ok(x) => x,
            Err(e) => {
                return Err(e);
            },
        };
        Ok(Call { request, options, procedure, args, kwargs })
    }

    fn to_json(self) -> (r: Result<JsonVal, Error>) {
        let mut data: Vec<JsonVal> = Vec::new();
        data.push(JsonVal::number_u64(48));
        data.push(JsonVal::number_u64(self.request));
        data.push(self.options);
        data.push(JsonVal::Str(self.procedure));
        proof {
            assert(data@ =~= self.base_seq());
        }
        push_payload(&mut data, self.args, self.kwargs);
        Ok(JsonVal::Array(data))
    }

    fn get_message_direction(role: Roles) -> MessageDirection {
        match role {
            Roles::Callee => MessageDirection { receives: false, sends: false },
            Roles::Caller => MessageDirection { receives: false, sends: true },
            Roles::Publisher => MessageDirection { receives: false, sends: false },
            Roles::Subscriber => MessageDirection { receives: false, sends: false },
            Roles::Dealer => MessageDirection { receives: false, sends: true },
            Roles::Broker => MessageDirection { receives: false, sends: false },
        }
    }
}

/// A caller's request to cancel a pending call:
/// `[49, Request, Options]`.
#[derive(Debug, PartialEq)]
pub struct Cancel {
    pub request: WampId,
    pub options: Options,
}

impl Cancel {
    /// Whether the instance is legally constructed: every metadata
    /// field holds an object.
    pub open spec fn wf(self) -> bool {
        self.options is Object
    }

    /// The frame that encoding produces.
    pub open spec fn frame_seq(self) -> Seq<JsonVal> {
        seq![
            JsonVal::Number(spec_number(49)),
            JsonVal::Number(spec_number(self.request)),
            self.options,
        ]
    }

    /// Decoding the encoded frame reproduces the message.
    pub proof fn lemma_round_trip(m: Cancel)
        requires
            m.wf(),
        ensures
            from_items_spec::<Cancel>(m.frame_seq()) == Ok::<Cancel, Error>(m),
    {
        let s = m.frame_seq();
        assert(tail1(s) =~= seq![JsonVal::Number(spec_number(m.request)), m.options]);
    }
}

impl WampMessageTrait for Cancel {
    const ID: u8 = 49;

    open spec fn fields_spec(s: Seq<JsonVal>) -> Result<Self, Error> {
        match sv_u64(elem_seq(s, 0)) {
            Ok(request) => match sv_dict(elem_seq(s, 1)) {
                Ok(options) => Ok(Cancel { request, options }),
                Err(e) => Err(e),
            },
            Err(e) => Err(e),
        }
    }

    open spec fn frame_ok(self, items: Seq<JsonVal>) -> bool {
        items == self.frame_seq()
    }

    open spec fn direction_spec(role: Roles) -> MessageDirection {
        match role {
            Roles::Callee => (MessageDirection { receives: false, sends: false }),
            Roles::Caller => (MessageDirection { receives: false, sends: true }),
            Roles::Publisher => (MessageDirection { receives: false, sends: false }),
            Roles::Subscriber => (MessageDirection { receives: false, sends: false }),
            Roles::Dealer => (MessageDirection { receives: false, sends: true }),
            Roles::Broker => (MessageDirection { receives: false, sends: false }),
        }
    }

    fn decode_fields(items: Vec<JsonVal>) -> (r: Result<Self, Error>) {
        let mut rest = items;
        let v0 = take_front(&mut rest);
        let request = match validate_u64_argument(v0) {
            Ok(x) => x,
            Err(e) => {
                return Err(e);
            },
        };
        let v1 = take_front(&mut rest);
        let options = match validate_dict_argument(v1) {
            Ok(x) => x,
            Err(e) => {
                return Err(e);
            },
        };
        Ok(Cancel { request, options })
    }

    fn to_json(self) -> (r: Result<JsonVal, Error>) {
        let mut data: Vec<JsonVal> = Vec::new();
        data.push(JsonVal::number_u64(49));
        data.push(JsonVal::number_u64(self.request));
        data.push(self.options);
        proof {
            assert(data@ =~= self.frame_seq());
        }
        Ok(JsonVal::Array(data))
    }

    fn get_message_direction(role: Roles) -> MessageDirection {
        match role {
            Roles::Callee => MessageDirection { receives: false, sends: false },
            Roles::Caller => MessageDirection { receives: false, sends: true },
            Roles::Publisher => MessageDirection { receives: false, sends: false },
            Roles::Subscriber => MessageDirection { receives: false, sends: false },
            Roles::Dealer => MessageDirection { receives: false, sends: true },
            Roles::Broker => MessageDirection { receives: false, sends: false },
        }
    }
}

/// A dealer's delivery of a call's result:
/// `[50, Request, Details, Args?, Kwargs?]`.
#[derive(Debug, PartialEq)]
pub struct MessageResult {
    pub request: WampId,
    pub details: Details,
    pub args: Option<Args>,
    pub kwargs: Option<Kwargs>,
}

impl MessageResult {
    /// Whether the instance is legally constructed: every metadata
    /// field holds an object, and the payload fields, when present,
    /// hold an array and an object.
    pub open spec fn wf(self) -> bool {
        &&& self.details is Object
        &&& payload_wf(self.args, self.kwargs)
    }

    /// The discriminator and required fields of the frame that
    /// encoding produces; the optional payload follows them.
    pub open spec fn base_seq(self) -> Seq<JsonVal> {
        seq![
            JsonVal::Number(spec_number(50)),
            JsonVal::Number(spec_number(self.request)),
            self.details,
        ]
    }

    /// Decoding the encoded frame reproduces the required fields
    /// exactly and the payload per the placeholder policy.
    pub proof fn lemma_round_trip(m: MessageResult, items: Seq<JsonVal>)
        requires
            m.wf(),
            m.frame_ok(items),
        ensures
            ({
                match from_items_spec::<MessageResult>(items) {
                    Ok(m2) => {
                        &&& m2.request == m.request
                        &&& m2.details == m.details
                        &&& payload_round_trip(m.args, m.kwargs, m2.args, m2.kwargs)
                    },
                    Err(e) => false,
                }
            }),
    {
        let n: int = 3;
        let p = items.skip(n);
        assert(items.subrange(0, n)[0] == items[0]);
        assert(items.subrange(0, n)[1] == items[1]);
        assert(items.subrange(0, n)[2] == items[2]);
        assert(forall|j: int| 0 <= j < p.len() ==> p[j] == items[n + j]);
        assert(items.len() == n + p.len());
        assert(elem_seq(items, n) == if p.len() > 0 { p[0] } else { JsonVal::Null });
        assert(elem_seq(items, n + 1) == if p.len() > 1 { p[1] } else { JsonVal::Null });
        assert forall|i: int| i >= 0 implies elem_seq(tail1(items), i) == elem_seq(
            items,
            i + 1,
        ) by {
            lemma_tail1_elem(items, i);
        }
    }
}

impl WampMessageTrait for MessageResult {
    const ID: u8 = 50;

    open spec fn fields_spec(s: Seq<JsonVal>) -> Result<Self, Error> {
        match sv_u64(elem_seq(s, 0)) {
            Ok(request) => match sv_dict(elem_seq(s, 1)) {
                Ok(details) => match sv_args(elem_seq(s, 2)) {
                    Ok(args) => match sv_kwargs(elem_seq(s, 3)) {
                        Ok(kwargs) => Ok(MessageResult { request, details, args, kwargs }),
                        Err(e) => Err(e),
                    },
                    Err(e) => Err(e),
                },
                Err(e) => Err(e),
            },
            Err(e) => Err(e),
        }
    }

    open spec fn frame_ok(self, items: Seq<JsonVal>) -> bool {
        &&& items.len() >= 3
        &&& items.subrange(0, 3) == self.base_seq()
        &&& payload_ok(self.args, self.kwargs, items.skip(3))
    }

    open spec fn direction_spec(role: Roles) -> MessageDirection {
        match role {
            Roles::Callee => (MessageDirection { receives: false, sends: false }),
            Roles::Caller => (MessageDirection { receives: true, sends: false }),
            Roles::Publisher => (MessageDirection { receives: false, sends: false }),
            Roles::Subscriber => (MessageDirection { receives: false, sends: false }),
            Roles::Dealer => (MessageDirection { receives: false, sends: false }),
            Roles::Broker => (MessageDirection { receives: false, sends: true }),
        }
    }

    fn decode_fields(items: Vec<JsonVal>) -> (r: Result<Self, Error>) {
        let mut rest = items;
        let v0 = take_front(&mut rest);
        let request = match validate_u64_argument(v0) {
            Ok(x) => x,
            Err(e) => {
                return Err(e);
            },
        };
        let v1 = take_front(&mut rest);
        let details = match validate_dict_argument(v1) {
            Ok(x) => x,
            Err(e) => {
                return Err(e);
            },
        };
        let v2 = take_front(&mut rest);
        let args = match validate_args(v2) {
            Ok(x) => x,
            Err(e) => {
                return Err(e);
            },
        };
        let v3 = take_front(&mut rest);
        let kwargs = match validate_kwargs(v3) {
            Ok(x) => x,
            Err(e) => {
                return Err(e);
            },
        };
        Ok(MessageResult { request, details, args, kwargs })
    }

    fn to_json(self) -> (r: Result<JsonVal, Error>) {
        let mut data: Vec<JsonVal> = Vec::new();
        data.push(JsonVal::number_u64(50));
        data.push(JsonVal::number_u64(self.request));
        data.push(self.details);
        proof {
            assert(data@ =~= self.base_seq());
        }
        push_payload(&mut data, self.args, self.kwargs);
        Ok(JsonVal::Array(data))
    }

    fn get_message_direction(role: Roles) -> MessageDirection {
        match role {
            Roles::Callee => MessageDirection { receives: false, sends: false },
            Roles::Caller => MessageDirection { receives: true, sends: false },
            Roles::Publisher => MessageDirection { receives: false, sends: false },
            Roles::Subscriber => MessageDirection { receives: false, sends: false },
            Roles::Dealer => MessageDirection { receives: false, sends: false },
            Roles::Broker => MessageDirection { receives: false, sends: true },
        }
    }
}

/// A dealer's delivery of a call to a callee:
/// `[68, Request, Registration, Details, Args?, Kwargs?]`.
#[derive(Debug, PartialEq)]
pub struct Invocation {
    pub request: WampId,
    pub registration: WampId,
    pub details: Details,
    pub args: Option<Args>,
    pub kwargs: Option<Kwargs>,
}

impl Invocation {
    /// Whether the instance is legally constructed: every metadata
    /// field holds an object, and the payload fields, when present,
    /// hold an array and an object.
    pub open spec fn wf(self) -> bool {
        &&& self.details is Object
        &&& payload_wf(self.args, self.kwargs)
    }

    /// The discriminator and required fields of the frame that
    /// encoding produces; the optional payload follows them.
    pub open spec fn base_seq(self) -> Seq<JsonVal> {
        seq![
            JsonVal::Number(spec_number(68)),
            JsonVal::Number(spec_number(self.request)),
            JsonVal::Number(spec_number(self.registration)),
            self.details,
        ]
    }

    /// Decoding the encoded frame reproduces the required fields
    /// exactly and the payload per the placeholder policy.
    pub proof fn lemma_round_trip(m: Invocation, items: Seq<JsonVal>)
        requires
            m.wf(),
            m.frame_ok(items),
        ensures
            ({
                match from_items_spec::<Invocation>(items) {
                    Ok(m2) => {
                        &&& m2.request == m.request
                        &&& m2.registration == m.registration
                        &&& m2.details == m.details
                        &&& payload_round_trip(m.args, m.kwargs, m2.args, m2.kwargs)
                    },
                    Err(e) => false,
                }
            }),
    {
        let n: int = 4;
        let p = items.skip(n);
        assert(items.subrange(0, n)[0] == items[0]);
        assert(items.subrange(0, n)[1] == items[1]);
        assert(items.subrange(0, n)[2] == items[2]);
        assert(items.subrange(0, n)[3] == items[3]);
        assert(forall|j: int| 0 <= j < p.len() ==> p[j] == items[n + j]);
        assert(items.len() == n + p.len());
        assert(elem_seq(items, n) == if p.len() > 0 { p[0] } else { JsonVal::Null });
        assert(elem_seq(items, n + 1) == if p.len() > 1 { p[1] } else { JsonVal::Null });
        assert forall|i: int| i >= 0 implies elem_seq(tail1(items), i) == elem_seq(
            items,
            i + 1,
        ) by {
            lemma_tail1_elem(items, i);
        }
    }
}

impl WampMessageTrait for Invocation {
    const ID: u8 = 68;

    open spec fn fields_spec(s: Seq<JsonVal>) -> Result<Self, Error> {
        match sv_u64(elem_seq(s, 0)) {
            Ok(request) => match sv_u64(elem_seq(s, 1)) {
                Ok(registration) => match sv_dict(elem_seq(s, 2)) {
                    Ok(details) => match sv_args(elem_seq(s, 3)) {
                        Ok(args) => match sv_kwargs(elem_seq(s, 4)) {
                            Ok(kwargs) => Ok(Invocation { request, registration, details, args, kwargs }),
                            Err(e) => Err(e),
                        },
                        Err(e) => Err(e),
                    },
                    Err(e) => Err(e),
                },
                Err(e) => Err(e),
            },
            Err(e) => Err(e),
        }
    }

    open spec fn frame_ok(self, items: Seq<JsonVal>) -> bool {
        &&& items.len() >= 4
        &&& items.subrange(0, 4) == self.base_seq()
        &&& payload_ok(self.args, self.kwargs, items.skip(4))
    }

    open spec fn direction_spec(role: Roles) -> MessageDirection {
        match role {
            Roles::Callee => (MessageDirection { receives: true, sends: false }),
            Roles::Caller => (MessageDirection { receives: false, sends: false }),
            Roles::Publisher => (MessageDirection { receives: false, sends: false }),
            Roles::Subscriber => (MessageDirection { receives: false, sends: false }),
            Roles::Dealer => (MessageDirection { receives: false, sends: true }),
            Roles::Broker => (MessageDirection { receives: false, sends: false }),
        }
    }

    fn decode_fields(items: Vec<JsonVal>) -> (r: Result<Self, Error>) {
        let mut rest = items;
        let v0 = take_front(&mut rest);
        let request = match validate_u64_argument(v0) {
            Ok(x) => x,
            Err(e) => {
                return Err(e);
            },
        };
        let v1 = take_front(&mut rest);
        let registration = match validate_u64_argument(v1) {
            Ok(x) => x,
            Err(e) => {
                return Err(e);
            },
        };
        let v2 = take_front(&mut rest);
        let details = match validate_dict_argument(v2) {
            Ok(x) => x,
            Err(e) => {
                return Err(e);
            },
        };
        let v3 = take_front(&mut rest);
        let args = match validate_args(v3) {
            Ok(x) => x,
            Err(e) => {
                return Err(e);
            },
        };
        let v4 = take_front(&mut rest);
        let kwargs = match validate_kwargs(v4) {
            Ok(x) => x,
            Err(e) => {
                return Err(e);
            },
        };
        Ok(Invocation { request, registration, details, args, kwargs })
    }

    fn to_json(self) -> (r: Result<JsonVal, Error>) {
        let mut data: Vec<JsonVal> = Vec::new();
        data.push(JsonVal::number_u64(68));
        data.push(JsonVal::number_u64(self.request));
        data.push(JsonVal::number_u64(self.registration));
        data.push(self.details);
        proof {
            assert(data@ =~= self.base_seq());
        }
        push_payload(&mut data, self.args, self.kwargs);
        Ok(JsonVal::Array(data))
    }

    fn get_message_direction(role: Roles) -> MessageDirection {
        match role {
            Roles::Callee => MessageDirection { receives: true, sends: false },
            Roles::Caller => MessageDirection { receives: false, sends: false },
            Roles::Publisher => MessageDirection { receives: false, sends: false },
            Roles::Subscriber => MessageDirection { receives: false, sends: false },
            Roles::Dealer => MessageDirection { receives: false, sends: true },
            Roles::Broker => MessageDirection { receives: false, sends: false },
        }
    }
}

/// A dealer's request that a callee stop an invocation:
/// `[69, Request, Options]`.
#[derive(Debug, PartialEq)]
pub struct Interrupt {
    pub request: WampId,
    pub options: Options,
}

impl Interrupt {
    /// Whether the instance is legally constructed: every metadata
    /// field holds an object.
    pub open spec fn wf(self) -> bool {
        self.options is Object
    }

    /// The frame that encoding produces.
    pub open spec fn frame_seq(self) -> Seq<JsonVal> {
        seq![
            JsonVal::Number(spec_number(69)),
            JsonVal::Number(spec_number(self.request)),
            self.options,
        ]
    }

    /// Decoding the encoded frame reproduces the message.
    pub proof fn lemma_round_trip(m: Interrupt)
        requires
            m.wf(),
        ensures
            from_items_spec::<Interrupt>(m.frame_seq()) == Ok::<Interrupt, Error>(m),
    {
        let s = m.frame_seq();
        assert(tail1(s) =~= seq![JsonVal::Number(spec_number(m.request)), m.options]);
    }
}

impl WampMessageTrait for Interrupt {
    const ID: u8 = 69;

    open spec fn fields_spec(s: Seq<JsonVal>) -> Result<Self, Error> {
        match sv_u64(elem_seq(s, 0)) {
            Ok(request) => match sv_dict(elem_seq(s, 1)) {
                Ok(options) => Ok(Interrupt { request, options }),
                Err(e) => Err(e),
            },
            Err(e) => Err(e),
        }
    }

    open spec fn frame_ok(self, items: Seq<JsonVal>) -> bool {
        items == self.frame_seq()
    }

    open spec fn direction_spec(role: Roles) -> MessageDirection {
        match role {
            Roles::Callee => (MessageDirection { receives: true, sends: false }),
            Roles::Caller => (MessageDirection { receives: false, sends: false }),
            Roles::Publisher => (MessageDirection { receives: false, sends: false }),
            Roles::Subscriber => (MessageDirection { receives: false, sends: false }),
            Roles::Dealer => (MessageDirection { receives: false, sends: true }),
            Roles::Broker => (MessageDirection { receives: false, sends: false }),
        }
    }

    fn decode_fields(items: Vec<JsonVal>) -> (r: Result<Self, Error>) {
        let mut rest = items;
        let v0 = take_front(&mut rest);
        let request = match validate_u64_argument(v0) {
            Ok(x) => x,
            Err(e) => {
                return Err(e);
            },
        };
        let v1 = take_front(&mut rest);
        let options = match validate_dict_argument(v1) {
            Ok(x) => x,
            Err(e) => {
                return Err(e);
            },
        };
        Ok(Interrupt { request, options })
    }

    fn to_json(self) -> (r: Result<JsonVal, Error>) {
        let mut data: Vec<JsonVal> = Vec::new();
        data.push(JsonVal::number_u64(69));
        data.push(JsonVal::number_u64(self.request));
        data.push(self.options);
        proof {
            assert(data@ =~= self.frame_seq());
        }
        Ok(JsonVal::Array(data))
    }

    fn get_message_direction(role: Roles) -> MessageDirection {
        match role {
            Roles::Callee => MessageDirection { receives: true, sends: false },
            Roles::Caller => MessageDirection { receives: false, sends: false },
            Roles::Publisher => MessageDirection { receives: false, sends: false },
            Roles::Subscriber => MessageDirection { receives: false, sends: false },
            Roles::Dealer => MessageDirection { receives: false, sends: true },
            Roles::Broker => MessageDirection { receives: false, sends: false },
        }
    }
}

/// A callee's delivery of an invocation's result:
/// `[70, Request, Options, Args?, Kwargs?]`.
#[derive(Debug, PartialEq)]
pub struct Yield {
    pub request: WampId,
    pub options: Options,
    pub args: Option<Args>,
    pub kwargs: Option<Kwargs>,
}

impl Yield {
    /// Whether the instance is legally constructed: every metadata
    /// field holds an object, and the payload fields, when present,
    /// hold an array and an object.
    pub open spec fn wf(self) -> bool {
        &&& self.options is Object
        &&& payload_wf(self.args, self.kwargs)
    }

    /// The discriminator and required fields of the frame that
    /// encoding produces; the optional payload follows them.
    pub open spec fn base_seq(self) -> Seq<JsonVal> {
        seq![
            JsonVal::Number(spec_number(70)),
            JsonVal::Number(spec_number(self.request)),
            self.options,
        ]
    }

    /// Decoding the encoded frame reproduces the required fields
    /// exactly and the payload per the placeholder policy.
    pub proof fn lemma_round_trip(m: Yield, items: Seq<JsonVal>)
        requires
            m.wf(),
            m.frame_ok(items),
        ensures
            ({
                match from_items_spec::<Yield>(items) {
                    Ok(m2) => {
                        &&& m2.request == m.request
                        &&& m2.options == m.options
                        &&& payload_round_trip(m.args, m.kwargs, m2.args, m2.kwargs)
                    },
                    Err(e) => false,
                }
            }),
    {
        let n: int = 3;
        let p = items.skip(n);
        assert(items.subrange(0, n)[0] == items[0]);
        assert(items.subrange(0, n)[1] == items[1]);
        assert(items.subrange(0, n)[2] == items[2]);
        assert(forall|j: int| 0 <= j < p.len() ==> p[j] == items[n + j]);
        assert(items.len() == n + p.len());
        assert(elem_seq(items, n) == if p.len() > 0 { p[0] } else { JsonVal::Null });
        assert(elem_seq(items, n + 1) == if p.len() > 1 { p[1] } else { JsonVal::Null });
        assert forall|i: int| i >= 0 implies elem_seq(tail1(items), i) == elem_seq(
            items,
            i + 1,
        ) by {
            lemma_tail1_elem(items, i);
        }
    }
}

impl WampMessageTrait for Yield {
    const ID: u8 = 70;

    open spec fn fields_spec(s: Seq<JsonVal>) -> Result<Self, Error> {
        match sv_u64(elem_seq(s, 0)) {
            Ok(request) => match sv_dict(elem_seq(s, 1)) {
                Ok(options) => match sv_args(elem_seq(s, 2)) {
                    Ok(args) => match sv_kwargs(elem_seq(s, 3)) {
                        Ok(kwargs) => Ok(Yield { request, options, args, kwargs }),
                        Err(e) => Err(e),
                    },
                    Err(e) => Err(e),
                },
                Err(e) => Err(e),
            },
            Err(e) => Err(e),
        }
    }

    open spec fn frame_ok(self, items: Seq<JsonVal>) -> bool {
        &&& items.len() >= 3
        &&& items.subrange(0, 3) == self.base_seq()
        &&& payload_ok(self.args, self.kwargs, items.skip(3))
    }

    open spec fn direction_spec(role: Roles) -> MessageDirection {
        match role {
            Roles::Callee => (MessageDirection { receives: false, sends: true }),
            Roles::Caller => (MessageDirection { receives: false, sends: false }),
            Roles::Publisher => (MessageDirection { receives: false, sends: false }),
            Roles::Subscriber => (MessageDirection { receives: false, sends: false }),
            Roles::Dealer => (MessageDirection { receives: true, sends: false }),
            Roles::Broker => (MessageDirection { receives: false, sends: false }),
        }
    }

    fn decode_fields(items: Vec<JsonVal>) -> (r: Result<Self, Error>) {
        let mut rest = items;
        let v0 = take_front(&mut rest);
        let request = match validate_u64_argument(v0) {
            Ok(x) => x,
            Err(e) => {
                return Err(e);
            },
        };
        let v1 = take_front(&mut rest);
        let options = match validate_dict_argument(v1) {
            Ok(x) => x,
            Err(e) => {
                return Err(e);
            },
        };
        let v2 = take_front(&mut rest);
        let args = match validate_args(v2) {
            Ok(x) => x,
            Err(e) => {
                return Err(e);
            },
        };
        let v3 = take_front(&mut rest);
        let kwargs = match validate_kwargs(v3) {
            Ok(x) => x,
            Err(e) => {
                return Err(e);
            },
        };
        Ok(Yield { request, options, args, kwargs })
    }

    fn to_json(self) -> (r: Result<JsonVal, Error>) {
        let mut data: Vec<JsonVal> = Vec::new();
        data.push(JsonVal::number_u64(70));
        data.push(JsonVal::number_u64(self.request));
        data.push(self.options);
        proof {
            assert(data@ =~= self.base_seq());
        }
        push_payload(&mut data, self.args, self.kwargs);
        Ok(JsonVal::Array(data))
    }

    fn get_message_direction(role: Roles) -> MessageDirection {
        match role {
            Roles::Callee => MessageDirection { receives: false, sends: true },
            Roles::Caller => MessageDirection { receives: false, sends: false },
            Roles::Publisher => MessageDirection { receives: false, sends: false },
            Roles::Subscriber => MessageDirection { receives: false, sends: false },
            Roles::Dealer => MessageDirection { receives: true, sends: false },
            Roles::Broker => MessageDirection { receives: false, sends: false },
        }
    }
}

} // verus!
