use wamp_v1::error::Error;
use wamp_v1::messages::{
    Abort, Authenticate, Call, Cancel, Challenge, ErrorMessage, Event, Goodbye, Hello, Interrupt, Invocation, MessageResult, Publish, Published, Register, Registered, Subscribe, Subscribed, Unregister, Unregistered, Unsubscribe, Unsubscribed, Welcome, Yield, Events, MessageDirection, Roles, WampMessageTrait,
};
use wamp_v1::{JsonNumber, JsonVal};

fn num(v: u64) -> JsonVal {
    JsonVal::Number(JsonNumber { positive: true, mantissa: v, exponent: 0 })
}

fn obj(entries: Vec<(&str, JsonVal)>) -> JsonVal {
    JsonVal::Object(entries.into_iter().map(|(k, v)| (k.to_string(), v)).collect())
}

fn s(text: &str) -> JsonVal {
    JsonVal::Str(text.to_string())
}

fn sample_hello() -> Hello {
    Hello {
        realm: "realm.one".to_string(),
        details: obj(vec![("roles", obj(vec![]))]),
    }
}

#[test]
fn round_trip_hello() {
    let frame = sample_hello().to_json().unwrap();
    match &frame {
        JsonVal::Array(items) => assert_eq!(items[0], num(1)),
        other => panic!("frame is not an array: {:?}", other),
    }
    let back = Hello::from_frame(frame).unwrap();
    assert_eq!(back, sample_hello());
}

fn sample_welcome() -> Welcome {
    Welcome {
        session: 41,
        details: obj(vec![]),
    }
}

#[test]
fn round_trip_welcome() {
    let frame = sample_welcome().to_json().unwrap();
    match &frame {
        JsonVal::Array(items) => assert_eq!(items[0], num(2)),
        other => panic!("frame is not an array: {:?}", other),
    }
    let back = Welcome::from_frame(frame).unwrap();
    assert_eq!(back, sample_welcome());
}

fn sample_abort() -> Abort {
    Abort {
        details: obj(vec![]),
        reason: "wamp.error.denied".to_string(),
    }
}

#[test]
fn round_trip_abort() {
    let frame = sample_abort().to_json().unwrap();
    match &frame {
        JsonVal::Array(items) => assert_eq!(items[0], num(3)),
        other => panic!("frame is not an array: {:?}", other),
    }
    let back = Abort::from_frame(frame).unwrap();
    assert_eq!(back, sample_abort());
}

fn sample_challenge() -> Challenge {
    Challenge {
        authmethod: "ticket".to_string(),
        details: obj(vec![]),
    }
}

#[test]
fn round_trip_challenge() {
    let frame = sample_challenge().to_json().unwrap();
    match &frame {
        JsonVal::Array(items) => assert_eq!(items[0], num(4)),
        other => panic!("frame is not an array: {:?}", other),
    }
    let back = Challenge::from_frame(frame).unwrap();
    assert_eq!(back, sample_challenge());
}

fn sample_authenticate() -> Authenticate {
    Authenticate {
        signature: "sig".to_string(),
        details: obj(vec![]),
    }
}

#[test]
fn round_trip_authenticate() {
    let frame = sample_authenticate().to_json().unwrap();
    match &frame {
        JsonVal::Array(items) => assert_eq!(items[0], num(5)),
        other => panic!("frame is not an array: {:?}", other),
    }
    let back = Authenticate::from_frame(frame).unwrap();
    assert_eq!(back, sample_authenticate());
}

fn sample_goodbye() -> Goodbye {
    Goodbye {
        details: obj(vec![]),
        reason: "wamp.close.normal".to_string(),
    }
}

#[test]
fn round_trip_goodbye() {
    let frame = sample_goodbye().to_json().unwrap();
    match &frame {
        JsonVal::Array(items) => assert_eq!(items[0], num(6)),
        other => panic!("frame is not an array: {:?}", other),
    }
    let back = Goodbye::from_frame(frame).unwrap();
    assert_eq!(back, sample_goodbye());
}

fn sample_error_message() -> ErrorMessage {
    ErrorMessage {
        request_type: 48,
        request: 11,
        details: obj(vec![]),
        error: "wamp.error.failed".to_string(),
        args: Some(JsonVal::Array(vec![num(1), s("x")])),
        kwargs: Some(obj(vec![("k", num(2))])),
    }
}

#[test]
fn round_trip_error_message() {
    let frame = sample_error_message().to_json().unwrap();
    match &frame {
        JsonVal::Array(items) => assert_eq!(items[0], num(8)),
        other => panic!("frame is not an array: {:?}", other),
    }
    let back = ErrorMessage::from_frame(frame).unwrap();
    assert_eq!(back, sample_error_message());
}

fn sample_publish() -> Publish {
    Publish {
        request: 12,
        options: obj(vec![]),
        topic: "com.topic".to_string(),
        args: Some(JsonVal::Array(vec![num(1), s("x")])),
        kwargs: Some(obj(vec![("k", num(2))])),
    }
}

#[test]
fn round_trip_publish() {
    let frame = sample_publish().to_json().unwrap();
    match &frame {
        JsonVal::Array(items) => assert_eq!(items[0], num(16)),
        other => panic!("frame is not an array: {:?}", other),
    }
    let back = Publish::from_frame(frame).unwrap();
    assert_eq!(back, sample_publish());
}

fn sample_published() -> Published {
    Published {
        request: 13,
        publication: 77,
    }
}

#[test]
fn round_trip_published() {
    let frame = sample_published().to_json().unwrap();
    match &frame {
        JsonVal::Array(items) => assert_eq!(items[0], num(17)),
        other => panic!("frame is not an array: {:?}", other),
    }
    let back = Published::from_frame(frame).unwrap();
    assert_eq!(back, sample_published());
}

fn sample_subscribe() -> Subscribe {
    Subscribe {
        request: 14,
        options: obj(vec![]),
        topic: "com.topic".to_string(),
    }
}

#[test]
fn round_trip_subscribe() {
    let frame = sample_subscribe().to_json().unwrap();
    match &frame {
        JsonVal::Array(items) => assert_eq!(items[0], num(32)),
        other => panic!("frame is not an array: {:?}", other),
    }
    let back = Subscribe::from_frame(frame).unwrap();
    assert_eq!(back, sample_subscribe());
}

fn sample_subscribed() -> Subscribed {
    Subscribed {
        request: 15,
        subscription: 88,
    }
}

#[test]
fn round_trip_subscribed() {
    let frame = sample_subscribed().to_json().unwrap();
    match &frame {
        JsonVal::Array(items) => assert_eq!(items[0], num(33)),
        other => panic!("frame is not an array: {:?}", other),
    }
    let back = Subscribed::from_frame(frame).unwrap();
    assert_eq!(back, sample_subscribed());
}

fn sample_unsubscribe() -> Unsubscribe {
    Unsubscribe {
        request: 16,
        subscription: 88,
    }
}

#[test]
fn round_trip_unsubscribe() {
    let frame = sample_unsubscribe().to_json().unwrap();
    match &frame {
        JsonVal::Array(items) => assert_eq!(items[0], num(34)),
        other => panic!("frame is not an array: {:?}", other),
    }
    let back = Unsubscribe::from_frame(frame).unwrap();
    assert_eq!(back, sample_unsubscribe());
}

fn sample_unsubscribed() -> Unsubscribed {
    Unsubscribed {
        request: 17,
    }
}

#[test]
fn round_trip_unsubscribed() {
    let frame = sample_unsubscribed().to_json().unwrap();
    match &frame {
        JsonVal::Array(items) => assert_eq!(items[0], num(35)),
        other => panic!("frame is not an array: {:?}", other),
    }
    let back = Unsubscribed::from_frame(frame).unwrap();
    assert_eq!(back, sample_unsubscribed());
}

fn sample_event() -> Event {
    Event {
        subscription: 88,
        publication: 77,
        details: obj(vec![]),
        args: Some(JsonVal::Array(vec![num(1), s("x")])),
        kwargs: Some(obj(vec![("k", num(2))])),
    }
}

#[test]
fn round_trip_event() {
    let frame = sample_event().to_json().unwrap();
    match &frame {
        JsonVal::Array(items) => assert_eq!(items[0], num(36)),
        other => panic!("frame is not an array: {:?}", other),
    }
    let back = Event::from_frame(frame).unwrap();
    assert_eq!(back, sample_event());
}

fn sample_call() -> Call {
    Call {
        request: 18,
        options: obj(vec![]),
        procedure: "com.proc".to_string(),
        args: Some(JsonVal::Array(vec![num(1), s("x")])),
        kwargs: Some(obj(vec![("k", num(2))])),
    }
}

#[test]
fn round_trip_call() {
    let frame = sample_call().to_json().unwrap();
    match &frame {
        JsonVal::Array(items) => assert_eq!(items[0], num(48)),
        other => panic!("frame is not an array: {:?}", other),
    }
    let back = Call::from_frame(frame).unwrap();
    assert_eq!(back, sample_call());
}

fn sample_cancel() -> Cancel {
    Cancel {
        request: 19,
        options: obj(vec![]),
    }
}

#[test]
fn round_trip_cancel() {
    let frame = sample_cancel().to_json().unwrap();
    match &frame {
        JsonVal::Array(items) => assert_eq!(items[0], num(49)),
        other => panic!("frame is not an array: {:?}", other),
    }
    let back = Cancel::from_frame(frame).unwrap();
    assert_eq!(back, sample_cancel());
}

fn sample_message_result() -> MessageResult {
    MessageResult {
        request: 20,
        details: obj(vec![]),
        args: Some(JsonVal::Array(vec![num(1), s("x")])),
        kwargs: Some(obj(vec![("k", num(2))])),
    }
}

#[test]
fn round_trip_message_result() {
    let frame = sample_message_result().to_json().unwrap();
    match &frame {
        JsonVal::Array(items) => assert_eq!(items[0], num(50)),
        other => panic!("frame is not an array: {:?}", other),
    }
    let back = MessageResult::from_frame(frame).unwrap();
    assert_eq!(back, sample_message_result());
}

fn sample_register() -> Register {
    Register {
        request: 21,
        options: obj(vec![]),
        procedure: "com.proc".to_string(),
    }
}

#[test]
fn round_trip_register() {
    let frame = sample_register().to_json().unwrap();
    match &frame {
        JsonVal::Array(items) => assert_eq!(items[0], num(64)),
        other => panic!("frame is not an array: {:?}", other),
    }
    let back = Register::from_frame(frame).unwrap();
    assert_eq!(back, sample_register());
}

fn sample_registered() -> Registered {
    Registered {
        request: 22,
        registration: 99,
    }
}

#[test]
fn round_trip_registered() {
    let frame = sample_registered().to_json().unwrap();
    match &frame {
        JsonVal::Array(items) => assert_eq!(items[0], num(65)),
        other => panic!("frame is not an array: {:?}", other),
    }
    let back = Registered::from_frame(frame).unwrap();
    assert_eq!(back, sample_registered());
}

fn sample_unregister() -> Unregister {
    Unregister {
        request: 23,
        registration: 99,
    }
}

#[test]
fn round_trip_unregister() {
    let frame = sample_unregister().to_json().unwrap();
    match &frame {
        JsonVal::Array(items) => assert_eq!(items[0], num(66)),
        other => panic!("frame is not an array: {:?}", other),
    }
    let back = Unregister::from_frame(frame).unwrap();
    assert_eq!(back, sample_unregister());
}

fn sample_unregistered() -> Unregistered {
    Unregistered {
        request: 24,
    }
}

#[test]
fn round_trip_unregistered() {
    let frame = sample_unregistered().to_json().unwrap();
    match &frame {
        JsonVal::Array(items) => assert_eq!(items[0], num(67)),
        other => panic!("frame is not an array: {:?}", other),
    }
    let back = Unregistered::from_frame(frame).unwrap();
    assert_eq!(back, sample_unregistered());
}

fn sample_invocation() -> Invocation {
    Invocation {
        request: 25,
        registration: 99,
        details: obj(vec![]),
        args: Some(JsonVal::Array(vec![num(1), s("x")])),
        kwargs: Some(obj(vec![("k", num(2))])),
    }
}

#[test]
fn round_trip_invocation() {
    let frame = sample_invocation().to_json().unwrap();
    match &frame {
        JsonVal::Array(items) => assert_eq!(items[0], num(68)),
        other => panic!("frame is not an array: {:?}", other),
    }
    let back = Invocation::from_frame(frame).unwrap();
    assert_eq!(back, sample_invocation());
}

fn sample_interrupt() -> Interrupt {
    Interrupt {
        request: 26,
        options: obj(vec![]),
    }
}

#[test]
fn round_trip_interrupt() {
    let frame = sample_interrupt().to_json().unwrap();
    match &frame {
        JsonVal::Array(items) => assert_eq!(items[0], num(69)),
        other => panic!("frame is not an array: {:?}", other),
    }
    let back = Interrupt::from_frame(frame).unwrap();
    assert_eq!(back, sample_interrupt());
}

fn sample_yield() -> Yield {
    Yield {
        request: 27,
        options: obj(vec![]),
        args: Some(JsonVal::Array(vec![num(1), s("x")])),
        kwargs: Some(obj(vec![("k", num(2))])),
    }
}

#[test]
fn round_trip_yield() {
    let frame = sample_yield().to_json().unwrap();
    match &frame {
        JsonVal::Array(items) => assert_eq!(items[0], num(70)),
        other => panic!("frame is not an array: {:?}", other),
    }
    let back = Yield::from_frame(frame).unwrap();
    assert_eq!(back, sample_yield());
}

#[test]
fn round_trip_event_payload_combinations() {
    let build = |args: Option<JsonVal>, kwargs: Option<JsonVal>| Event {
        subscription: 88,
        publication: 77,
        details: obj(vec![]),
        args,
        kwargs,
    };
    let back = Event::from_frame(build(None, None).to_json().unwrap()).unwrap();
    assert_eq!(back, build(None, None));
    let only_args = build(Some(JsonVal::Array(vec![num(5)])), None);
    let back = Event::from_frame(only_args.to_json().unwrap()).unwrap();
    assert_eq!(back, build(Some(JsonVal::Array(vec![num(5)])), None));
    let only_kwargs = build(None, Some(obj(vec![("k", num(2))])));
    let back = Event::from_frame(only_kwargs.to_json().unwrap()).unwrap();
    assert_eq!(
        back,
        build(Some(JsonVal::Array(vec![])), Some(obj(vec![("k", num(2))]))),
    );
}

#[test]
fn direction_table_matches_the_protocol() {
    let d = |receives: bool, sends: bool| MessageDirection { receives, sends };
    assert_eq!(Hello::get_message_direction(Roles::Caller), d(false, true));
    assert_eq!(Hello::get_message_direction(Roles::Dealer), d(true, false));
    assert_eq!(Welcome::get_message_direction(Roles::Subscriber), d(true, false));
    assert_eq!(Goodbye::get_message_direction(Roles::Callee), d(true, true));
    assert_eq!(Goodbye::get_message_direction(Roles::Subscriber), d(true, false));
    assert_eq!(Publish::get_message_direction(Roles::Broker), d(true, false));
    assert_eq!(Publish::get_message_direction(Roles::Caller), d(false, false));
    assert_eq!(Subscribe::get_message_direction(Roles::Subscriber), d(false, true));
    assert_eq!(Call::get_message_direction(Roles::Caller), d(false, true));
    assert_eq!(Invocation::get_message_direction(Roles::Callee), d(true, false));
    assert_eq!(Yield::get_message_direction(Roles::Dealer), d(true, false));
    assert_eq!(Interrupt::get_message_direction(Roles::Dealer), d(false, true));
}

#[test]
fn classification_is_a_partition_with_four_advanced_types() {
    let all: Vec<Events> = vec![
        Events::Hello(sample_hello()),
        Events::Welcome(sample_welcome()),
        Events::Abort(sample_abort()),
        Events::Challenge(sample_challenge()),
        Events::Authenticate(sample_authenticate()),
        Events::Goodbye(sample_goodbye()),
        Events::ErrorMessage(sample_error_message()),
        Events::Publish(sample_publish()),
        Events::Published(sample_published()),
        Events::Subscribe(sample_subscribe()),
        Events::Subscribed(sample_subscribed()),
        Events::Unsubscribe(sample_unsubscribe()),
        Events::Unsubscribed(sample_unsubscribed()),
        Events::Event(sample_event()),
        Events::Call(sample_call()),
        Events::Cancel(sample_cancel()),
        Events::MessageResult(sample_message_result()),
        Events::Register(sample_register()),
        Events::Registered(sample_registered()),
        Events::Unregister(sample_unregister()),
        Events::Unregistered(sample_unregistered()),
        Events::Invocation(sample_invocation()),
        Events::Interrupt(sample_interrupt()),
        Events::Yield(sample_yield()),
    ];
    let mut advanced = 0;
    for e in &all {
        assert_ne!(e.is_basic(), e.is_advanced());
        if e.is_advanced() {
            advanced += 1;
            assert!(matches!(
                e,
                Events::Challenge(_) | Events::Authenticate(_) | Events::Cancel(_)
                    | Events::Interrupt(_)
            ));
        }
    }
    assert_eq!(advanced, 4);
    assert_eq!(all.len(), 24);
}

#[test]
fn dispatch_accepts_every_discriminator() {
    let known = [1u8, 2, 3, 4, 5, 6, 8, 16, 17, 32, 33, 34, 35, 36, 48, 49, 50, 64, 65, 66, 67, 68, 69, 70];
    for id in 0u8..=80 {
        let frame = format!("[{}]", id);
        let got = Events::parse_message(&frame);
        if known.contains(&id) {
            assert_ne!(got, Err(Error::ExtensionMessage), "id {}", id);
        } else {
            assert_eq!(got, Err(Error::ExtensionMessage), "id {}", id);
        }
    }
}
