//! Procedure registration messages.

use crate::direction::{MessageDirection, Roles};
use crate::error::Error;
use crate::message::{from_items_spec, WampMessageTrait};
use crate::validate::{
    sv_dict, sv_str, sv_u64, validate_dict_argument, validate_str_argument, validate_u64_argument,
};
use crate::value::{
    JsonVal, Options, Uri, WampId, elem_seq, spec_number, tail1, take_front,
};
use vstd::prelude::*;

verus! {

/// A callee's request to register a procedure:
/// `[64, Request, Options, Procedure]`.
#[derive(Debug, PartialEq)]
pub struct Register {
    pub request: WampId,
    pub options: Options,
    pub procedure: Uri,
}

impl Register {
    /// Whether the instance is legally constructed: every metadata
    /// field holds an object.
    pub open spec fn wf(self) -> bool {
        self.options is Object
    }

    /// The frame that encoding produces.
    pub open spec fn frame_seq(self) -> Seq<JsonVal> {
        seq![
            JsonVal::Number(spec_number(64)),
            JsonVal::Number(spec_number(self.request)),
            self.options,
            JsonVal::Str(self.procedure),
        ]
    }

    /// Decoding the encoded frame reproduces the message.
    pub proof fn lemma_round_trip(m: Register)
        requires
            m.wf(),
        ensures
            from_items_spec::<Register>(m.frame_seq()) == Ok::<Register, Error>(m),
    {
        let s = m.frame_seq();
        assert(tail1(s) =~= seq![JsonVal::Number(spec_number(m.request)), m.options, JsonVal::Str(m.procedure)]);
    }
}

impl WampMessageTrait for Register {
    const ID: u8 = 64;

    open spec fn fields_spec(s: Seq<JsonVal>) -> Result<Self, Error> {
        match sv_u64(elem_seq(s, 0)) {
            Ok(request) => match sv_dict(elem_seq(s, 1)) {
                Ok(options) => match sv_str(elem_seq(s, 2)) {
                    Ok(procedure) => Ok(Register { request, options, procedure }),
                    Err(e) => Err(e),
                },
                Err(e) => Err(e),
            },
            Err(e) => Err(e),
        }
    }

    open spec fn frame_ok(self, items: Seq<JsonVal>) -> bool {
        items == self.frame_seq()
    }

    open spec fn direction_spec(role: Roles) -> MessageDirection {
        match role {
            Roles::Callee => (MessageDirection { receives: false, sends: true }),
            Roles::Caller => (MessageDirection { receives: false, sends: false }),
            Roles::Publisher => (MessageDirection { receives: false, sends: false }),
            Roles::Subscriber => (MessageDirection { receives: false, sends: false }),
            Roles::Dealer => (MessageDirection { receives: true, sends: false }),
            Roles::Broker => (MessageDirection { receives: false, sends: false }),
        }
    }

    fn decode_fields(items: Vec<JsonVal>) -> (r: Result<Self, Error>) {
        let mut rest = items;
        let v0 = take_front(&mut rest);
        let request = match validate_u64_argument(v0) {
            Ok(x) => x,
            Err(e) => {
                return Err(e);
            },
        };
        let v1 = take_front(&mut rest);
        let options = match validate_dict_argument(v1) {
            Ok(x) => x,
            Err(e) => {
                return Err(e);
            },
        };
        let v2 = take_front(&mut rest);
        let procedure = match validate_str_argument(v2) {
            Ok(x) => x,
            Err(e) => {
                return Err(e);
            },
        };
        Ok(Register { request, options, procedure })
    }

    fn to_json(self) -> (r: Result<JsonVal, Error>) {
        let mut data: Vec<JsonVal> = Vec::new();
        data.push(JsonVal::number_u64(64));
        data.push(JsonVal::number_u64(self.request));
        data.push(self.options);
        data.push(JsonVal::Str(self.procedure));
        proof {
            assert(data@ =~= self.frame_seq());
        }
        Ok(JsonVal::Array(data))
    }

    fn get_message_direction(role: Roles) -> MessageDirection {
        match role {
            Roles::Callee => MessageDirection { receives: false, sends: true },
            Roles::Caller => MessageDirection { receives: false, sends: false },
            Roles::Publisher => MessageDirection { receives: false, sends: false },
            Roles::Subscriber => MessageDirection { receives: false, sends: false },
            Roles::Dealer => MessageDirection { receives: true, sends: false },
            Roles::Broker => MessageDirection { receives: false, sends: false },
        }
    }
}

/// A dealer's acknowledgement of a registration:
/// `[65, Request, Registration]`.
#[derive(Debug, PartialEq)]
pub struct Registered {
    pub request: WampId,
    pub registration: WampId,
}

impl Registered {
    /// Whether the instance is legally constructed: its fields are
    /// plain values, so every instance is.
    pub open spec fn wf(self) -> bool {
        true
    }

    /// The frame that encoding produces.
    pub open spec fn frame_seq(self) -> Seq<JsonVal> {
        seq![
            JsonVal::Number(spec_number(65)),
            JsonVal::Number(spec_number(self.request)),
            JsonVal::Number(spec_number(self.registration)),
        ]
    }

    /// Decoding the encoded frame reproduces the message.
    pub proof fn lemma_round_trip(m: Registered)
        requires
            m.wf(),
        ensures
            from_items_spec::<Registered>(m.frame_seq()) == Ok::<Registered, Error>(m),
    {
        let s = m.frame_seq();
        assert(tail1(s) =~= seq![JsonVal::Number(spec_number(m.request)), JsonVal::Number(spec_number(m.registration))]);
    }
}

impl WampMessageTrait for Registered {
    const ID: u8 = 65;

    open spec fn fields_spec(s: Seq<JsonVal>) -> Result<Self, Error> {
        match sv_u64(elem_seq(s, 0)) {
            Ok(request) => match sv_u64(elem_seq(s, 1)) {
                Ok(registration) => Ok(Registered { request, registration }),
                Err(e) => Err(e),
            },
            Err(e) => Err(e),
        }
    }

    open spec fn frame_ok(self, items: Seq<JsonVal>) -> bool {
        items == self.frame_seq()
    }

    open spec fn direction_spec(role: Roles) -> MessageDirection {
        match role {
            Roles::Callee => (MessageDirection { receives: true, sends: false }),
            Roles::Caller => (MessageDirection { receives: false, sends: false }),
            Roles::Publisher => (MessageDirection { receives: false, sends: false }),
            Roles::Subscriber => (MessageDirection { receives: false, sends: false }),
            Roles::Dealer => (MessageDirection { receives: false, sends: true }),
            Roles::Broker => (MessageDirection { receives: false, sends: false }),
        }
    }

    fn decode_fields(items: Vec<JsonVal>) -> (r: Result<Self, Error>) {
        let mut rest = items;
        let v0 = take_front(&mut rest);
        let request = match validate_u64_argument(v0) {
            Ok(x) => x,
            Err(e) => {
                return Err(e);
            },
        };
        let v1 = take_front(&mut rest);
        let registration = match validate_u64_argument(v1) {
            Ok(x) => x,
            Err(e) => {
                return Err(e);
            },
        };
        Ok(Registered { request, registration })
    }

    fn to_json(self) -> (r: Result<JsonVal, Error>) {
        let mut data: Vec<JsonVal> = Vec::new();
        data.push(JsonVal::number_u64(65));
        data.push(JsonVal::number_u64(self.request));
        data.push(JsonVal::number_u64(self.registration));
        proof {
            assert(data@ =~= self.frame_seq());
        }
        Ok(JsonVal::Array(data))
    }

    fn get_message_direction(role: Roles) -> MessageDirection {
        match role {
            Roles::Callee => MessageDirection { receives: true, sends: false },
            Roles::Caller => MessageDirection { receives: false, sends: false },
            Roles::Publisher => MessageDirection { receives: false, sends: false },
            Roles::Subscriber => MessageDirection { receives: false, sends: false },
            Roles::Dealer => MessageDirection { receives: false, sends: true },
            Roles::Broker => MessageDirection { receives: false, sends: false },
        }
    }
}

/// A callee's request to end a registration:
/// `[66, Request, Registration]`.
#[derive(Debug, PartialEq)]
pub struct Unregister {
    pub request: WampId,
    pub registration: WampId,
}

impl Unregister {
    /// Whether the instance is legally constructed: its fields are
    /// plain values, so every instance is.
    pub open spec fn wf(self) -> bool {
        true
    }

    /// The frame that encoding produces.
    pub open spec fn frame_seq(self) -> Seq<JsonVal> {
        seq![
            JsonVal::Number(spec_number(66)),
            JsonVal::Number(spec_number(self.request)),
            JsonVal::Number(spec_number(self.registration)),
        ]
    }

    /// Decoding the encoded frame reproduces the message.
    pub proof fn lemma_round_trip(m: Unregister)
        requires
            m.wf(),
        ensures
            from_items_spec::<Unregister>(m.frame_seq()) == Ok::<Unregister, Error>(m),
    {
        let s = m.frame_seq();
        assert(tail1(s) =~= seq![JsonVal::Number(spec_number(m.request)), JsonVal::Number(spec_number(m.registration))]);
    }
}

impl WampMessageTrait for Unregister {
    const ID: u8 = 66;

    open spec fn fields_spec(s: Seq<JsonVal>) -> Result<Self, Error> {
        match sv_u64(elem_seq(s, 0)) {
            Ok(request) => match sv_u64(elem_seq(s, 1)) {
                Ok(registration) => Ok(Unregister { request, registration }),
                Err(e) => Err(e),
            },
            Err(e) => Err(e),
        }
    }

    open spec fn frame_ok(self, items: Seq<JsonVal>) -> bool {
        items == self.frame_seq()
    }

    open spec fn direction_spec(role: Roles) -> MessageDirection {
        match role {
            Roles::Callee => (MessageDirection { receives: false, sends: true }),
            Roles::Caller => (MessageDirection { receives: false, sends: false }),
            Roles::Publisher => (MessageDirection { receives: false, sends: false }),
            Roles::Subscriber => (MessageDirection { receives: false, sends: false }),
            Roles::Dealer => (MessageDirection { receives: true, sends: false }),
            Roles::Broker => (MessageDirection { receives: false, sends: false }),
        }
    }

    fn decode_fields(items: Vec<JsonVal>) -> (r: Result<Self, Error>) {
        let mut rest = items;
        let v0 = take_front(&mut rest);
        let request = match validate_u64_argument(v0) {
            Ok(x) => x,
            Err(e) => {
                return Err(e);
            },
        };
        let v1 = take_front(&mut rest);
        let registration = match validate_u64_argument(v1) {
            Ok(x) => x,
            Err(e) => {
                return Err(e);
            },
        };
        Ok(Unregister { request, registration })
    }

    fn to_json(self) -> (r: Result<JsonVal, Error>) {
        let mut data: Vec<JsonVal> = Vec::new();
        data.push(JsonVal::number_u64(66));
        data.push(JsonVal::number_u64(self.request));
        data.push(JsonVal::number_u64(self.registration));
        proof {
            assert(data@ =~= self.frame_seq());
        }
        Ok(JsonVal::Array(data))
    }

    fn get_message_direction(role: Roles) -> MessageDirection {
        match role {
            Roles::Callee => MessageDirection { receives: false, sends: true },
            Roles::Caller => MessageDirection { receives: false, sends: false },
            Roles::Publisher => MessageDirection { receives: false, sends: false },
            Roles::Subscriber => MessageDirection { receives: false, sends: false },
            Roles::Dealer => MessageDirection { receives: true, sends: false },
            Roles::Broker => MessageDirection { receives: false, sends: false },
        }
    }
}

/// A dealer's acknowledgement that a registration ended:
/// `[67, Request]`.
#[derive(Debug, PartialEq)]
pub struct Unregistered {
    pub request: WampId,
}

impl Unregistered {
    /// Whether the instance is legally constructed: its fields are
    /// plain values, so every instance is.
    pub open spec fn wf(self) -> bool {
        true
    }

    /// The frame that encoding produces.
    pub open spec fn frame_seq(self) -> Seq<JsonVal> {
        seq![
            JsonVal::Number(spec_number(67)),
            JsonVal::Number(spec_number(self.request)),
        ]
    }

    /// Decoding the encoded frame reproduces the message.
    pub proof fn lemma_round_trip(m: Unregistered)
        requires
            m.wf(),
        ensures
            from_items_spec::<Unregistered>(m.frame_seq()) == Ok::<Unregistered, Error>(m),
    {
        let s = m.frame_seq();
        assert(tail1(s) =~= seq![JsonVal::Number(spec_number(m.request))]);
    }
}

impl WampMessageTrait for Unregistered {
    const ID: u8 = 67;

    open spec fn fields_spec(s: Seq<JsonVal>) -> Result<Self, Error> {
        match sv_u64(elem_seq(s, 0)) {
            Ok(request) => Ok(Unregistered { request }),
            Err(e) => Err(e),
        }
    }

    open spec fn frame_ok(self, items: Seq<JsonVal>) -> bool {
        items == self.frame_seq()
    }

    open spec fn direction_spec(role: Roles) -> MessageDirection {
        match role {
            Roles::Callee => (MessageDirection { receives: true, sends: false }),
            Roles::Caller => (MessageDirection { receives: false, sends: false }),
            Roles::Publisher => (MessageDirection { receives: false, sends: false }),
            Roles::Subscriber => (MessageDirection { receives: false, sends: false }),
            Roles::Dealer => (MessageDirection { receives: false, sends: true }),
            Roles::Broker => (MessageDirection { receives: false, sends: false }),
        }
    }

    fn decode_fields(items: Vec<JsonVal>) -> (r: Result<Self, Error>) {
        let mut rest = items;
        let v0 = take_front(&mut rest);
        let request = match validate_u64_argument(v0) {
            Ok(x) => x,
            Err(e) => {
                return Err(e);
            },
        };
        Ok(Unregistered { request })
    }

    fn to_json(self) -> (r: Result<JsonVal, Error>) {
        let mut data: Vec<JsonVal> = Vec::new();
        data.push(JsonVal::number_u64(67));
        data.push(JsonVal::number_u64(self.request));
        proof {
            assert(data@ =~= self.frame_seq());
        }
        Ok(JsonVal::Array(data))
    }

    fn get_message_direction(role: Roles) -> MessageDirection {
        match role {
            Roles::Callee => MessageDirection { receives: true, sends: false },
            Roles::Caller => MessageDirection { receives: false, sends: false },
            Roles::Publisher => MessageDirection { receives: false, sends: false },
            Roles::Subscriber => MessageDirection { receives: false, sends: false },
            Roles::Dealer => MessageDirection { receives: false, sends: true },
            Roles::Broker => MessageDirection { receives: false, sends: false },
        }
    }
}

} // verus!
