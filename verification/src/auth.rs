//! Authentication messages of the advanced profile.

use crate::direction::{MessageDirection, Roles};
use crate::error::Error;
use crate::message::{from_items_spec, WampMessageTrait};
use crate::validate::{
    sv_dict, sv_str, validate_dict_argument, validate_str_argument,
};
use crate::value::{
    JsonVal, Kwargs, elem_seq, spec_number, tail1, take_front,
};
use vstd::prelude::*;

verus! {

/// A router's authentication challenge:
/// `[4, Authmethod, Details]`.
#[derive(Debug, PartialEq)]
pub struct Challenge {
    pub authmethod: String,
    pub details: Kwargs,
}

impl Challenge {
    /// Whether the instance is legally constructed: every metadata
    /// field holds an object.
    pub open spec fn wf(self) -> bool {
        self.details is Object
    }

    /// The frame that encoding produces.
    pub open spec fn frame_seq(self) -> Seq<JsonVal> {
        seq![
            JsonVal::Number(spec_number(4)),
            JsonVal::Str(self.authmethod),
            self.details,
        ]
    }

    /// Decoding the encoded frame reproduces the message.
    pub proof fn lemma_round_trip(m: Challenge)
        requires
            m.wf(),
        ensures
            from_items_spec::<Challenge>(m.frame_seq()) == Ok::<Challenge, Error>(m),
    {
        let s = m.frame_seq();
        assert(tail1(s) =~= seq![JsonVal::Str(m.authmethod), m.details]);
    }
}

impl WampMessageTrait for Challenge {
    const ID: u8 = 4;

    open spec fn fields_spec(s: Seq<JsonVal>) -> Result<Self, Error> {
        match sv_str(elem_seq(s, 0)) {
            Ok(authmethod) => match sv_dict(elem_seq(s, 1)) {
                Ok(details) => Ok(Challenge { authmethod, details }),
                Err(e) => Err(e),
            },
            Err(e) => Err(e),
        }
    }

    open spec fn frame_ok(self, items: Seq<JsonVal>) -> bool {
        items == self.frame_seq()
    }

    open spec fn direction_spec(role: Roles) -> MessageDirection {
        match role {
            Roles::Callee => (MessageDirection { receives: true, sends: false }),
            Roles::Caller => (MessageDirection { receives: true, sends: false }),
            Roles::Publisher => (MessageDirection { receives: true, sends: false }),
            Roles::Subscriber => (MessageDirection { receives: true, sends: false }),
            Roles::Dealer => (MessageDirection { receives: false, sends: true }),
            Roles::Broker => (MessageDirection { receives: false, sends: true }),
        }
    }

    fn decode_fields(items: Vec<JsonVal>) -> (r: Result<Self, Error>) {
        let mut rest = items;
        let v0 = take_front(&mut rest);
        let authmethod = match validate_str_argument(v0) {
            Ok(x) => x,
            Err(e) => {
                return Err(e);
            },
        };
        let v1 = take_front(&mut rest);
        let details = match validate_dict_argument(v1) {
            Ok(x) => x,
            Err(e) => {
                return Err(e);
            },
        };
        Ok(Challenge { authmethod, details })
    }

    fn to_json(self) -> (r: Result<JsonVal, Error>) {
        let mut data: Vec<JsonVal> = Vec::new();
        data.push(JsonVal::number_u64(4));
        data.push(JsonVal::Str(self.authmethod));
        data.push(self.details);
        proof {
            assert(data@ =~= self.frame_seq());
        }
        Ok(JsonVal::Array(data))
    }

    fn get_message_direction(role: Roles) -> MessageDirection {
        match role {
            Roles::Callee => MessageDirection { receives: true, sends: false },
            Roles::Caller => MessageDirection { receives: true, sends: false },
            Roles::Publisher => MessageDirection { receives: true, sends: false },
            Roles::Subscriber => MessageDirection { receives: true, sends: false },
            Roles::Dealer => MessageDirection { receives: false, sends: true },
            Roles::Broker => MessageDirection { receives: false, sends: true },
        }
    }
}

/// A client's answer to an authentication challenge:
/// `[5, Signature, Details]`.
#[derive(Debug, PartialEq)]
pub struct Authenticate {
    pub signature: String,
    pub details: Kwargs,
}

impl Authenticate {
    /// Whether the instance is legally constructed: every metadata
    /// field holds an object.
    pub open spec fn wf(self) -> bool {
        self.details is Object
    }

    /// The frame that encoding produces.
    pub open spec fn frame_seq(self) -> Seq<JsonVal> {
        seq![
            JsonVal::Number(spec_number(5)),
            JsonVal::Str(self.signature),
            self.details,
        ]
    }

    /// Decoding the encoded frame reproduces the message.
    pub proof fn lemma_round_trip(m: Authenticate)
        requires
            m.wf(),
        ensures
            from_items_spec::<Authenticate>(m.frame_seq()) == Ok::<Authenticate, Error>(m),
    {
        let s = m.frame_seq();
        assert(tail1(s) =~= seq![JsonVal::Str(m.signature), m.details]);
    }
}

impl WampMessageTrait for Authenticate {
    const ID: u8 = 5;

    open spec fn fields_spec(s: Seq<JsonVal>) -> Result<Self, Error> {
        match sv_str(elem_seq(s, 0)) {
            Ok(signature) => match sv_dict(elem_seq(s, 1)) {
                Ok(details) => Ok(Authenticate { signature, details }),
                Err(e) => Err(e),
            },
            Err(e) => Err(e),
        }
    }

    open spec fn frame_ok(self, items: Seq<JsonVal>) -> bool {
        items == self.frame_seq()
    }

    open spec fn direction_spec(role: Roles) -> MessageDirection {
        match role {
            Roles::Callee => (MessageDirection { receives: false, sends: true }),
            Roles::Caller => (MessageDirection { receives: false, sends: true }),
            Roles::Publisher => (MessageDirection { receives: false, sends: true }),
            Roles::Subscriber => (MessageDirection { receives: false, sends: true }),
            Roles::Dealer => (MessageDirection { receives: true, sends: false }),
            Roles::Broker => (MessageDirection { receives: true, sends: false }),
        }
    }

    fn decode_fields(items: Vec<JsonVal>) -> (r: Result<Self, Error>) {
        let mut rest = items;
        let v0 = take_front(&mut rest);
        let signature = match validate_str_argument(v0) {
            Ok(x) => x,
            Err(e) => {
                return Err(e);
            },
        };
        let v1 = take_front(&mut rest);
        let details = match validate_dict_argument(v1) {
            Ok(x) => x,
            Err(e) => {
                return Err(e);
            },
        };
        Ok(Authenticate { signature, details })
    }

    fn to_json(self) -> (r: Result<JsonVal, Error>) {
        let mut data: Vec<JsonVal> = Vec::new();
        data.push(JsonVal::number_u64(5));
        data.push(JsonVal::Str(self.signature));
        data.push(self.details);
        proof {
            assert(data@ =~= self.frame_seq());
        }
        Ok(JsonVal::Array(data))
    }

    fn get_message_direction(role: Roles) -> MessageDirection {
        match role {
            Roles::Callee => MessageDirection { receives: false, sends: true },
            Roles::Caller => MessageDirection { receives: false, sends: true },
            Roles::Publisher => MessageDirection { receives: false, sends: true },
            Roles::Subscriber => MessageDirection { receives: false, sends: true },
            Roles::Dealer => MessageDirection { receives: true, sends: false },
            Roles::Broker => MessageDirection { receives: true, sends: false },
        }
    }
}

} // verus!
