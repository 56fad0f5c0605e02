//! Session lifecycle messages: opening, acceptance, refusal, closing,
//! and the error report.

use crate::direction::{MessageDirection, Roles};
use crate::error::Error;
use crate::message::{from_items_spec, WampMessageTrait};
use crate::payload::{payload_ok, payload_round_trip, payload_wf, push_payload};
use crate::validate::{
    sv_args, sv_dict, sv_kwargs, sv_str, sv_u64, sv_u8, validate_args, validate_dict_argument, validate_kwargs, validate_str_argument, validate_u64_argument, validate_u8_argument,
};
use crate::value::{
    Args, Details, JsonVal, Kwargs, Uri, WampId, elem_seq, entries_keys, lemma_tail1_elem,
    set_object_entry, spec_number, tail1, take_front,
};
use vstd::prelude::*;

verus! {

/// A client's request to open a session on a realm:
/// `[1, Realm, Details]`.
#[derive(Debug, PartialEq)]
pub struct Hello {
    pub realm: Uri,
    pub details: Details,
}

impl Hello {
    /// Whether the instance is legally constructed: every metadata
    /// field holds an object.
    pub open spec fn wf(self) -> bool {
        self.details is Object
    }

    /// The frame that encoding produces.
    pub open spec fn frame_seq(self) -> Seq<JsonVal> {
        seq![
            JsonVal::Number(spec_number(1)),
            JsonVal::Str(self.realm),
            self.details,
        ]
    }

    /// Decoding the encoded frame reproduces the message.
    pub proof fn lemma_round_trip(m: Hello)
        requires
            m.wf(),
        ensures
            from_items_spec::<Hello>(m.frame_seq()) == Ok::<Hello, Error>(m),
    {
        let s = m.frame_seq();
        assert(tail1(s) =~= seq![JsonVal::Str(m.realm), m.details]);
    }

    /// Builds a `Hello` whose details object holds the given roles, each
    /// under its own key with an empty object, and, when given, the list
    /// of authentication methods.
    pub fn default(realm: String, roles: Vec<Roles>, authmethods: Option<Vec<String>>) -> (r:
        Hello)
        ensures
            r.realm == realm,
            r.wf(),
            ({
                &&& r.details matches JsonVal::Object(top)
                &&& top@.len() == (if authmethods is Some { 2int } else { 1int })
                &&& top@[0].0@ == "roles"@
                &&& (top@[0].1 matches JsonVal::Object(re) && {
                    let keys = role_keys_dedup(roles@);
                    &&& re@.len() == keys.len()
                    &&& (forall|i: int| 0 <= i < re@.len() ==> (#[trigger] re@[i]).0@ == keys[i])
                    &&& (forall|i: int| 0 <= i < re@.len() ==> is_empty_object(#[trigger] re@[i].1))
                })
                &&& (authmethods matches Some(ms) ==> (top@[1].0@ == "authmethods"@ && (
                top@[1].1 matches JsonVal::Array(a) && a@.len() == ms@.len() && (forall|i: int|
                    0 <= i < a@.len() ==> a@[i] == JsonVal::Str(ms@[i])))))
            }),
    {
        let mut role_entries: Vec<(String, JsonVal)> = Vec::new();
        let mut i: usize = 0;
        while i < roles.len()
            invariant
                i <= roles.len(),
                entries_keys(role_entries@) == role_keys_dedup(roles@.take(i as int)),
                forall|j: int|
                    0 <= j < role_entries@.len() ==> is_empty_object(
                        (#[trigger] role_entries@[j]).1,
                    ),
            decreases roles.len() - i,
        {
            let key: String = match roles[i] {
                Roles::Callee => "callee".to_owned(),
                Roles::Caller => "caller".to_owned(),
                Roles::Publisher => "publisher".to_owned(),
                Roles::Subscriber => "subscriber".to_owned(),
                Roles::Dealer => "dealer".to_owned(),
                Roles::Broker => "broker".to_owned(),
            };
            let ghost old_e = role_entries@;
            let empty: Vec<(String, JsonVal)> = Vec::new();
            set_object_entry(&mut role_entries, key, JsonVal::Object(empty));
            proof {
                let rk = role_key(roles@[i as int]);
                let prev = entries_keys(old_e);
                assert(roles@.take(i as int + 1).drop_last() =~= roles@.take(i as int));
                assert(roles@.take(i as int + 1).last() == roles@[i as int]);
                if exists|j: int| 0 <= j < old_e.len() && (#[trigger] old_e[j]).0@ == rk {
                    let j = choose|j: int| 0 <= j < old_e.len() && (#[trigger] old_e[j]).0@ == rk;
                    assert(prev[j] == rk);
                    assert(prev.contains(rk));
                    assert(entries_keys(role_entries@) =~= prev);
                } else {
                    assert(!prev.contains(rk)) by {
                        if prev.contains(rk) {
                            let j = choose|j: int| 0 <= j < prev.len() && prev[j] == rk;
                            assert(old_e[j].0@ == rk);
                        }
                    }
                    assert(entries_keys(role_entries@) =~= prev.push(rk));
                }
            }
            i += 1;
        }
        proof {
            assert(roles@.take(roles@.len() as int) =~= roles@);
        }
        let mut top: Vec<(String, JsonVal)> = Vec::new();
        top.push(("roles".to_owned(), JsonVal::Object(role_entries)));
        match authmethods {
            Some(methods) => {
                let mut ms = methods;
                let ghost all = ms@;
                let mut arr: Vec<JsonVal> = Vec::new();
                while ms.len() > 0
                    invariant
                        arr@.len() + ms@.len() == all.len(),
                        ms@ == all.skip(arr@.len() as int),
                        forall|j: int|
                            0 <= j < arr@.len() ==> arr@[j] == JsonVal::Str(all[j]),
                    decreases ms.len(),
                {
                    let ghost k = arr@.len() as int;
                    let m = ms.remove(0);
                    proof {
                        assert(m == all[k]);
                        assert(ms@ =~= all.skip(k + 1));
                    }
                    arr.push(JsonVal::Str(m));
                }
                top.push(("authmethods".to_owned(), JsonVal::Array(arr)));
            },
            None => {},
        }
        Hello { realm, details: JsonVal::Object(top) }
    }
}

/// The key under which a role appears in the `roles` object of a `Hello`.
pub open spec fn role_key(r: Roles) -> Seq<char> {
    match r {
        Roles::Callee => "callee"@,
        Roles::Caller => "caller"@,
        Roles::Publisher => "publisher"@,
        Roles::Subscriber => "subscriber"@,
        Roles::Dealer => "dealer"@,
        Roles::Broker => "broker"@,
    }
}

/// The role keys in order of first appearance, each kept once.
pub open spec fn role_keys_dedup(rs: Seq<Roles>) -> Seq<Seq<char>>
    decreases rs.len(),
{
    if rs.len() == 0 {
        Seq::empty()
    } else {
        let prev = role_keys_dedup(rs.drop_last());
        if prev.contains(role_key(rs.last())) {
            prev
        } else {
            prev.push(role_key(rs.last()))
        }
    }
}

/// Whether the value is an object without entries.
pub open spec fn is_empty_object(v: JsonVal) -> bool {
    v matches JsonVal::Object(e) && e@.len() == 0
}

impl WampMessageTrait for Hello {
    const ID: u8 = 1;

    open spec fn fields_spec(s: Seq<JsonVal>) -> Result<Self, Error> {
        match sv_str(elem_seq(s, 0)) {
            Ok(realm) => match sv_dict(elem_seq(s, 1)) {
                Ok(details) => Ok(Hello { realm, details }),
                Err(e) => Err(e),
            },
            Err(e) => Err(e),
        }
    }

    open spec fn frame_ok(self, items: Seq<JsonVal>) -> bool {
        items == self.frame_seq()
    }

    open spec fn direction_spec(role: Roles) -> MessageDirection {
        match role {
            Roles::Callee => (MessageDirection { receives: false, sends: true }),
            Roles::Caller => (MessageDirection { receives: false, sends: true }),
            Roles::Publisher => (MessageDirection { receives: false, sends: true }),
            Roles::Subscriber => (MessageDirection { receives: false, sends: true }),
            Roles::Dealer => (MessageDirection { receives: true, sends: false }),
            Roles::Broker => (MessageDirection { receives: true, sends: false }),
        }
    }

    fn decode_fields(items: Vec<JsonVal>) -> (r: Result<Self, Error>) {
        let mut rest = items;
        let v0 = take_front(&mut rest);
        let realm = match validate_str_argument(v0) {
            Ok(x) => x,
            Err(e) => {
                return Err(e);
            },
        };
        let v1 = take_front(&mut rest);
        let details = match validate_dict_argument(v1) {
            Ok(x) => x,
            Err(e) => {
                return Err(e);
            },
        };
        Ok(Hello { realm, details })
    }

    fn to_json(self) -> (r: Result<JsonVal, Error>) {
        let mut data: Vec<JsonVal> = Vec::new();
        data.push(JsonVal::number_u64(1));
        data.push(JsonVal::Str(self.realm));
        data.push(self.details);
        proof {
            assert(data@ =~= self.frame_seq());
        }
        Ok(JsonVal::Array(data))
    }

    fn get_message_direction(role: Roles) -> MessageDirection {
        match role {
            Roles::Callee => MessageDirection { receives: false, sends: true },
            Roles::Caller => MessageDirection { receives: false, sends: true },
            Roles::Publisher => MessageDirection { receives: false, sends: true },
            Roles::Subscriber => MessageDirection { receives: false, sends: true },
            Roles::Dealer => MessageDirection { receives: true, sends: false },
            Roles::Broker => MessageDirection { receives: true, sends: false },
        }
    }
}

/// A router's acceptance of a session:
/// `[2, Session, Details]`.
#[derive(Debug, PartialEq)]
pub struct Welcome {
    pub session: u64,
    pub details: Details,
}

impl Welcome {
    /// Whether the instance is legally constructed: every metadata
    /// field holds an object.
    pub open spec fn wf(self) -> bool {
        self.details is Object
    }

    /// The frame that encoding produces.
    pub open spec fn frame_seq(self) -> Seq<JsonVal> {
        seq![
            JsonVal::Number(spec_number(2)),
            JsonVal::Number(spec_number(self.session)),
            self.details,
        ]
    }

    /// Decoding the encoded frame reproduces the message.
    pub proof fn lemma_round_trip(m: Welcome)
        requires
            m.wf(),
        ensures
            from_items_spec::<Welcome>(m.frame_seq()) == Ok::<Welcome, Error>(m),
    {
        let s = m.frame_seq();
        assert(tail1(s) =~= seq![JsonVal::Number(spec_number(m.session)), m.details]);
    }
}

impl WampMessageTrait for Welcome {
    const ID: u8 = 2;

    open spec fn fields_spec(s: Seq<JsonVal>) -> Result<Self, Error> {
        match sv_u64(elem_seq(s, 0)) {
            Ok(session) => match sv_dict(elem_seq(s, 1)) {
                Ok(details) => Ok(Welcome { session, details }),
                Err(e) => Err(e),
            },
            Err(e) => Err(e),
        }
    }

    open spec fn frame_ok(self, items: Seq<JsonVal>) -> bool {
        items == self.frame_seq()
    }

    open spec fn direction_spec(role: Roles) -> MessageDirection {
        match role {
            Roles::Callee => (MessageDirection { receives: true, sends: false }),
            Roles::Caller => (MessageDirection { receives: true, sends: false }),
            Roles::Publisher => (MessageDirection { receives: true, sends: false }),
            Roles::Subscriber => (MessageDirection { receives: true, sends: false }),
            Roles::Dealer => (MessageDirection { receives: false, sends: true }),
            Roles::Broker => (MessageDirection { receives: false, sends: true }),
        }
    }

    fn decode_fields(items: Vec<JsonVal>) -> (r: Result<Self, Error>) {
        let mut rest = items;
        let v0 = take_front(&mut rest);
        let session = match validate_u64_argument(v0) {
            Ok(x) => x,
            Err(e) => {
                return Err(e);
            },
        };
        let v1 = take_front(&mut rest);
        let details = match validate_dict_argument(v1) {
            Ok(x) => x,
            Err(e) => {
                return Err(e);
            },
        };
        Ok(Welcome { session, details })
    }

    fn to_json(self) -> (r: Result<JsonVal, Error>) {
        let mut data: Vec<JsonVal> = Vec::new();
        data.push(JsonVal::number_u64(2));
        data.push(JsonVal::number_u64(self.session));
        data.push(self.details);
        proof {
            assert(data@ =~= self.frame_seq());
        }
        Ok(JsonVal::Array(data))
    }

    fn get_message_direction(role: Roles) -> MessageDirection {
        match role {
            Roles::Callee => MessageDirection { receives: true, sends: false },
            Roles::Caller => MessageDirection { receives: true, sends: false },
            Roles::Publisher => MessageDirection { receives: true, sends: false },
            Roles::Subscriber => MessageDirection { receives: true, sends: false },
            Roles::Dealer => MessageDirection { receives: false, sends: true },
            Roles::Broker => MessageDirection { receives: false, sends: true },
        }
    }
}

/// A peer's refusal to open a session:
/// `[3, Details, Reason]`.
#[derive(Debug, PartialEq)]
pub struct Abort {
    pub details: Details,
    pub reason: Uri,
}

impl Abort {
    /// Whether the instance is legally constructed: every metadata
    /// field holds an object.
    pub open spec fn wf(self) -> bool {
        self.details is Object
    }

    /// The frame that encoding produces.
    pub open spec fn frame_seq(self) -> Seq<JsonVal> {
        seq![
            JsonVal::Number(spec_number(3)),
            self.details,
            JsonVal::Str(self.reason),
        ]
    }

    /// Decoding the encoded frame reproduces the message.
    pub proof fn lemma_round_trip(m: Abort)
        requires
            m.wf(),
        ensures
            from_items_spec::<Abort>(m.frame_seq()) == Ok::<Abort, Error>(m),
    {
        let s = m.frame_seq();
        assert(tail1(s) =~= seq![m.details, JsonVal::Str(m.reason)]);
    }
}

impl WampMessageTrait for Abort {
    const ID: u8 = 3;

    open spec fn fields_spec(s: Seq<JsonVal>) -> Result<Self, Error> {
        match sv_dict(elem_seq(s, 0)) {
            Ok(details) => match sv_str(elem_seq(s, 1)) {
                Ok(reason) => Ok(Abort { details, reason }),
                Err(e) => Err(e),
            },
            Err(e) => Err(e),
        }
    }

    open spec fn frame_ok(self, items: Seq<JsonVal>) -> bool {
        items == self.frame_seq()
    }

    open spec fn direction_spec(role: Roles) -> MessageDirection {
        match role {
            Roles::Callee => (MessageDirection { receives: true, sends: false }),
            Roles::Caller => (MessageDirection { receives: true, sends: false }),
            Roles::Publisher => (MessageDirection { receives: true, sends: false }),
            Roles::Subscriber => (MessageDirection { receives: true, sends: false }),
            Roles::Dealer => (MessageDirection { receives: false, sends: true }),
            Roles::Broker => (MessageDirection { receives: false, sends: true }),
        }
    }

    fn decode_fields(items: Vec<JsonVal>) -> (r: Result<Self, Error>) {
        let mut rest = items;
        let v0 = take_front(&mut rest);
        let details = match validate_dict_argument(v0) {
            Ok(x) => x,
            Err(e) => {
                return Err(e);
            },
        };
        let v1 = take_front(&mut rest);
        let reason = match validate_str_argument(v1) {
            Ok(x) => x,
            Err(e) => {
                return Err(e);
            },
        };
        Ok(Abort { details, reason })
    }

    fn to_json(self) -> (r: Result<JsonVal, Error>) {
        let mut data: Vec<JsonVal> = Vec::new();
        data.push(JsonVal::number_u64(3));
        data.push(self.details);
        data.push(JsonVal::Str(self.reason));
        proof {
            assert(data@ =~= self.frame_seq());
        }
        Ok(JsonVal::Array(data))
    }

    fn get_message_direction(role: Roles) -> MessageDirection {
        match role {
            Roles::Callee => MessageDirection { receives: true, sends: false },
            Roles::Caller => MessageDirection { receives: true, sends: false },
            Roles::Publisher => MessageDirection { receives: true, sends: false },
            Roles::Subscriber => MessageDirection { receives: true, sends: false },
            Roles::Dealer => MessageDirection { receives: false, sends: true },
            Roles::Broker => MessageDirection { receives: false, sends: true },
        }
    }
}

/// A peer's orderly closing of a session:
/// `[6, Details, Reason]`.
#[derive(Debug, PartialEq)]
pub struct Goodbye {
    pub details: Details,
    pub reason: Uri,
}

impl Goodbye {
    /// Whether the instance is legally constructed: every metadata
    /// field holds an object.
    pub open spec fn wf(self) -> bool {
        self.details is Object
    }

    /// The frame that encoding produces.
    pub open spec fn frame_seq(self) -> Seq<JsonVal> {
        seq![
            JsonVal::Number(spec_number(6)),
            self.details,
            JsonVal::Str(self.reason),
        ]
    }

    /// Decoding the encoded frame reproduces the message.
    pub proof fn lemma_round_trip(m: Goodbye)
        requires
            m.wf(),
        ensures
            from_items_spec::<Goodbye>(m.frame_seq()) == Ok::<Goodbye, Error>(m),
    {
        let s = m.frame_seq();
        assert(tail1(s) =~= seq![m.details, JsonVal::Str(m.reason)]);
    }
}

impl WampMessageTrait for Goodbye {
    const ID: u8 = 6;

    open spec fn fields_spec(s: Seq<JsonVal>) -> Result<Self, Error> {
        match sv_dict(elem_seq(s, 0)) {
            Ok(details) => match sv_str(elem_seq(s, 1)) {
                Ok(reason) => Ok(Goodbye { details, reason }),
                Err(e) => Err(e),
            },
            Err(e) => Err(e),
        }
    }

    open spec fn frame_ok(self, items: Seq<JsonVal>) -> bool {
        items == self.frame_seq()
    }

    open spec fn direction_spec(role: Roles) -> MessageDirection {
        match role {
            Roles::Callee => (MessageDirection { receives: true, sends: true }),
            Roles::Caller => (MessageDirection { receives: true, sends: true }),
            Roles::Publisher => (MessageDirection { receives: true, sends: true }),
            Roles::Subscriber => (MessageDirection { receives: true, sends: false }),
            Roles::Dealer => (MessageDirection { receives: true, sends: true }),
            Roles::Broker => (MessageDirection { receives: true, sends: true }),
        }
    }

    fn decode_fields(items: Vec<JsonVal>) -> (r: Result<Self, Error>) {
        let mut rest = items;
        let v0 = take_front(&mut rest);
        let details = match validate_dict_argument(v0) {
            Ok(x) => x,
            Err(e) => {
                return Err(e);
            },
        };
        let v1 = take_front(&mut rest);
        let reason = match validate_str_argument(v1) {
            Ok(x) => x,
            Err(e) => {
                return Err(e);
            },
        };
        Ok(Goodbye { details, reason })
    }

    fn to_json(self) -> (r: Result<JsonVal, Error>) {
        let mut data: Vec<JsonVal> = Vec::new();
        data.push(JsonVal::number_u64(6));
        data.push(self.details);
        data.push(JsonVal::Str(self.reason));
        proof {
            assert(data@ =~= self.frame_seq());
        }
        Ok(JsonVal::Array(data))
    }

    fn get_message_direction(role: Roles) -> MessageDirection {
        match role {
            Roles::Callee => MessageDirection { receives: true, sends: true },
            Roles::Caller => MessageDirection { receives: true, sends: true },
            Roles::Publisher => MessageDirection { receives: true, sends: true },
            Roles::Subscriber => MessageDirection { receives: true, sends: false },
            Roles::Dealer => MessageDirection { receives: true, sends: true },
            Roles::Broker => MessageDirection { receives: true, sends: true },
        }
    }
}

/// A peer's error report for an earlier request:
/// `[8, RequestType, Request, Details, Error, Args?, Kwargs?]`.
#[derive(Debug, PartialEq)]
pub struct ErrorMessage {
    pub request_type: u8,
    pub request: WampId,
    pub details: Details,
    pub error: Uri,
    pub args: Option<Args>,
    pub kwargs: Option<Kwargs>,
}

impl ErrorMessage {
    /// Whether the instance is legally constructed: every metadata
    /// field holds an object, and the payload fields, when present,
    /// hold an array and an object.
    pub open spec fn wf(self) -> bool {
        &&& self.details is Object
        &&& payload_wf(self.args, self.kwargs)
    }

    /// The discriminator and required fields of the frame that
    /// encoding produces; the optional payload follows them.
    pub open spec fn base_seq(self) -> Seq<JsonVal> {
        seq![
            JsonVal::Number(spec_number(8)),
            JsonVal::Number(spec_number(self.request_type as u64)),
            JsonVal::Number(spec_number(self.request)),
            self.details,
            JsonVal::Str(self.error),
        ]
    }

    /// Decoding the encoded frame reproduces the required fields
    /// exactly and the payload per the placeholder policy.
    pub proof fn lemma_round_trip(m: ErrorMessage, items: Seq<JsonVal>)
        requires
            m.wf(),
            m.frame_ok(items),
        ensures
            ({
                match from_items_spec::<ErrorMessage>(items) {
                    Ok(m2) => {
                        &&& m2.request_type == m.request_type
                        &&& m2.request == m.request
                        &&& m2.details == m.details
                        &&& m2.error == m.error
                        &&& payload_round_trip(m.args, m.kwargs, m2.args, m2.kwargs)
                    },
                    Err(e) => false,
                }
            }),
    {
        let n: int = 5;
        let p = items.skip(n);
        assert(items.subrange(0, n)[0] == items[0]);
        assert(items.subrange(0, n)[1] == items[1]);
        assert(items.subrange(0, n)[2] == items[2]);
        assert(items.subrange(0, n)[3] == items[3]);
        assert(items.subrange(0, n)[4] == items[4]);
        assert(forall|j: int| 0 <= j < p.len() ==> p[j] == items[n + j]);
        assert(items.len() == n + p.len());
        assert(elem_seq(items, n) == if p.len() > 0 { p[0] } else { JsonVal::Null });
        assert(elem_seq(items, n + 1) == if p.len() > 1 { p[1] } else { JsonVal::Null });
        assert forall|i: int| i >= 0 implies elem_seq(tail1(items), i) == elem_seq(
            items,
            i + 1,
        ) by {
            lemma_tail1_elem(items, i);
        }
    }
}

impl WampMessageTrait for ErrorMessage {
    const ID: u8 = 8;

    open spec fn fields_spec(s: Seq<JsonVal>) -> Result<Self, Error> {
        match sv_u8(elem_seq(s, 0)) {
            Ok(request_type) => match sv_u64(elem_seq(s, 1)) {
                Ok(request) => match sv_dict(elem_seq(s, 2)) {
                    Ok(details) => match sv_str(elem_seq(s, 3)) {
                        Ok(error) => match sv_args(elem_seq(s, 4)) {
                            Ok(args) => match sv_kwargs(elem_seq(s, 5)) {
                                Ok(kwargs) => Ok(ErrorMessage { request_type, request, details, error, args, kwargs }),
                                Err(e) => Err(e),
                            },
                            Err(e) => Err(e),
                        },
                        Err(e) => Err(e),
                    },
                    Err(e) => Err(e),
                },
                Err(e) => Err(e),
            },
            Err(e) => Err(e),
        }
    }

    open spec fn frame_ok(self, items: Seq<JsonVal>) -> bool {
        &&& items.len() >= 5
        &&& items.subrange(0, 5) == self.base_seq()
        &&& payload_ok(self.args, self.kwargs, items.skip(5))
    }

    open spec fn direction_spec(role: Roles) -> MessageDirection {
        match role {
            Roles::Callee => (MessageDirection { receives: true, sends: true }),
            Roles::Caller => (MessageDirection { receives: true, sends: false }),
            Roles::Publisher => (MessageDirection { receives: true, sends: false }),
            Roles::Subscriber => (MessageDirection { receives: true, sends: false }),
            Roles::Dealer => (MessageDirection { receives: true, sends: true }),
            Roles::Broker => (MessageDirection { receives: false, sends: true }),
        }
    }

    fn decode_fields(items: Vec<JsonVal>) -> (r: Result<Self, Error>) {
        let mut rest = items;
        let v0 = take_front(&mut rest);
        let request_type = match validate_u8_argument(v0) {
            Ok(x) => x,
            Err(e) => {
                return Err(e);
            },
        };
        let v1 = take_front(&mut rest);
        let request = match validate_u64_argument(v1) {
            Ok(x) => x,
            Err(e) => {
                return Err(e);
            },
        };
        let v2 = take_front(&mut rest);
        let details = match validate_dict_argument(v2) {
            Ok(x) => x,
            Err(e) => {
                return Err(e);
            },
        };
        let v3 = take_front(&mut rest);
        let error = match validate_str_argument(v3) {
            Ok(x) => x,
            Err(e) => {
                return Err(e);
            },
        };
        let v4 = take_front(&mut rest);
        let args = match validate_args(v4) {
            Ok(x) => x,
            Err(e) => {
                return Err(e);
            },
        };
        let v5 = take_front(&mut rest);
        let kwargs = match validate_kwargs(v5) {
            Ok(x) => x,
            Err(e) => {
                return Err(e);
            },
        };
        Ok(ErrorMessage { request_type, request, details, error, args, kwargs })
    }

    fn to_json(self) -> (r: Result<JsonVal, Error>) {
        let mut data: Vec<JsonVal> = Vec::new();
        data.push(JsonVal::number_u64(8));
        data.push(JsonVal::number_u64(self.request_type as u64));
        data.push(JsonVal::number_u64(self.request));
        data.push(self.details);
        data.push(JsonVal::Str(self.error));
        proof {
            assert(data@ =~= self.base_seq());
        }
        push_payload(&mut data, self.args, self.kwargs);
        Ok(JsonVal::Array(data))
    }

    fn get_message_direction(role: Roles) -> MessageDirection {
        match role {
            Roles::Callee => MessageDirection { receives: true, sends: true },
            Roles::Caller => MessageDirection { receives: true, sends: false },
            Roles::Publisher => MessageDirection { receives: true, sends: false },
            Roles::Subscriber => MessageDirection { receives: true, sends: false },
            Roles::Dealer => MessageDirection { receives: true, sends: true },
            Roles::Broker => MessageDirection { receives: false, sends: true },
        }
    }
}

} // verus!
