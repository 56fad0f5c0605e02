use wamp_v1::error::Error;
use wamp_v1::messages::{
    Call, ErrorMessage, Events, Hello, Roles, WampMessageTrait, Welcome,
};
use wamp_v1::{JsonNumber, JsonVal};

fn num(v: u64) -> JsonVal {
    JsonVal::Number(JsonNumber { positive: true, mantissa: v, exponent: 0 })
}

fn obj(entries: Vec<(&str, JsonVal)>) -> JsonVal {
    JsonVal::Object(entries.into_iter().map(|(k, v)| (k.to_string(), v)).collect())
}

fn s(text: &str) -> JsonVal {
    JsonVal::Str(text.to_string())
}

#[test]
fn hello_decodes_realm_and_details() {
    let got = Hello::from_str("[1,\"realm1\",{\"roles\":{\"caller\":{}}}]").unwrap();
    let want = Hello {
        realm: "realm1".to_string(),
        details: obj(vec![("roles", obj(vec![("caller", obj(vec![]))]))]),
    };
    assert_eq!(got, want);
}

#[test]
fn call_decodes_and_reencodes_identically() {
    let text = "[48,7,{},\"com.test.add\",[1,2]]";
    let got = Call::from_str(text).unwrap();
    let want = Call {
        request: 7,
        options: obj(vec![]),
        procedure: "com.test.add".to_string(),
        args: Some(JsonVal::Array(vec![num(1), num(2)])),
        kwargs: None,
    };
    assert_eq!(got, want);
    let reencoded = Call::from_str(text).unwrap().to_json().unwrap();
    let frame = JsonVal::Array(vec![
        num(48),
        num(7),
        obj(vec![]),
        s("com.test.add"),
        JsonVal::Array(vec![num(1), num(2)]),
    ]);
    assert_eq!(reencoded, frame);
}

#[test]
fn welcome_rejects_string_session() {
    let got = Welcome::from_str("[2,\"not-a-number\",{}]");
    assert_eq!(got, Err(Error::InvalidJsonU64 { offense: s("not-a-number") }));
}

#[test]
fn unknown_discriminator_is_extension_message() {
    let got = Events::parse_message(&"[99]".to_string());
    assert_eq!(got, Err(Error::ExtensionMessage));
}

#[test]
fn kwargs_alone_gets_empty_array_placeholder() {
    let m = Call {
        request: 1,
        options: obj(vec![]),
        procedure: "p".to_string(),
        args: None,
        kwargs: Some(obj(vec![])),
    };
    let frame = m.to_json().unwrap();
    let want = JsonVal::Array(vec![
        num(48),
        num(1),
        obj(vec![]),
        s("p"),
        JsonVal::Array(vec![]),
        obj(vec![]),
    ]);
    assert_eq!(frame, want);
}

#[test]
fn non_array_args_is_dropped_on_encode() {
    let m = Call {
        request: 1,
        options: obj(vec![]),
        procedure: "p".to_string(),
        args: Some(JsonVal::Null),
        kwargs: None,
    };
    let frame = m.to_json().unwrap();
    let want = JsonVal::Array(vec![num(48), num(1), obj(vec![]), s("p")]);
    assert_eq!(frame, want);
}

#[test]
fn mismatched_discriminator_names_the_byte() {
    let got = Welcome::from_str("[1,\"realm1\",{}]");
    assert_eq!(got, Err(Error::NonMatchingMessageId { offense: 1 }));
    let frame = JsonVal::Array(vec![num(3), obj(vec![]), s("wamp.error.no")]);
    let direct = Welcome::from_frame(frame);
    assert_eq!(direct, Err(Error::NonMatchingMessageId { offense: 3 }));
}

#[test]
fn syntax_error_is_propagated() {
    match Welcome::from_str("not json") {
        Err(Error::JsonError(_)) => {},
        other => panic!("expected a syntax error, got {:?}", other),
    }
    match Events::parse_message(&"[1,".to_string()) {
        Err(Error::JsonError(_)) => {},
        other => panic!("expected a syntax error, got {:?}", other),
    }
}

#[test]
fn missing_discriminator_is_invalid_id() {
    assert_eq!(Events::parse_message(&"[\"x\"]".to_string()), Err(Error::InvalidId));
    assert_eq!(Events::parse_message(&"{}".to_string()), Err(Error::InvalidId));
    assert_eq!(Events::parse_message(&"[]".to_string()), Err(Error::InvalidId));
    assert_eq!(Events::parse_message(&"[2.5,1,{}]".to_string()), Err(Error::InvalidId));
}

#[test]
fn dispatch_routes_to_the_matching_variant() {
    let got = Events::parse_message(&"[2,9007,{}]".to_string()).unwrap();
    assert_eq!(got, Events::Welcome(Welcome { session: 9007, details: obj(vec![]) }));
    assert!(got.is_basic());
    assert!(!got.is_advanced());
    let adv = Events::parse_message(&"[49,5,{}]".to_string()).unwrap();
    assert!(adv.is_advanced());
    assert!(!adv.is_basic());
}

#[test]
fn session_accepts_integers_in_scientific_notation() {
    let got = Welcome::from_str("[2,1e2,{}]").unwrap();
    assert_eq!(got.session, 100);
    let fractional = Welcome::from_str("[2,1.0,{}]").unwrap();
    assert_eq!(fractional.session, 1);
}

#[test]
fn session_rejects_non_integers_and_negatives() {
    assert!(matches!(
        Welcome::from_str("[2,1.5,{}]"),
        Err(Error::InvalidJsonU64 { offense: JsonVal::Number(_) })
    ));
    assert!(matches!(
        Welcome::from_str("[2,-1,{}]"),
        Err(Error::InvalidJsonU64 { offense: JsonVal::Number(_) })
    ));
    assert!(matches!(
        Welcome::from_str("[2,1e20,{}]"),
        Err(Error::InvalidJsonU64 { offense: JsonVal::Number(_) })
    ));
}

#[test]
fn session_accepts_the_largest_id() {
    let got = Welcome::from_str("[2,18446744073709551615,{}]").unwrap();
    assert_eq!(got.session, u64::MAX);
}

#[test]
fn request_type_must_fit_eight_bits() {
    let got = ErrorMessage::from_str("[8,256,1,{},\"wamp.error.x\"]");
    assert_eq!(got, Err(Error::InvalidJsonU8 { offense: num(256) }));
    let ok = ErrorMessage::from_str("[8,255,1,{},\"wamp.error.x\"]").unwrap();
    assert_eq!(ok.request_type, 255);
    assert_eq!(ok.args, None);
    assert_eq!(ok.kwargs, None);
}

#[test]
fn wrong_field_kinds_name_the_offending_value() {
    assert_eq!(
        Hello::from_str("[1,7,{}]"),
        Err(Error::InvalidJsonStr { offense: num(7) }),
    );
    assert_eq!(
        Hello::from_str("[1,\"r\",3]"),
        Err(Error::InvalidJsonDict { offense: num(3) }),
    );
    assert_eq!(
        Call::from_str("[48,1,{},\"p\",{}]"),
        Err(Error::InvalidJsonArray { offense: obj(vec![]) }),
    );
    assert_eq!(
        Call::from_str("[48,1,{},\"p\",[],7]"),
        Err(Error::InvalidJsonDict { offense: num(7) }),
    );
    assert_eq!(
        Hello::from_frame(JsonVal::Bool(true)),
        Err(Error::InvalidJsonU8 { offense: JsonVal::Null }),
    );
}

#[test]
fn missing_fields_fail_on_the_first_gap() {
    assert_eq!(
        Welcome::from_str("[2,7]"),
        Err(Error::InvalidJsonDict { offense: JsonVal::Null }),
    );
    assert_eq!(
        Welcome::from_str("[2]"),
        Err(Error::InvalidJsonU64 { offense: JsonVal::Null }),
    );
}

#[test]
fn extra_trailing_elements_are_tolerated() {
    let got = Welcome::from_str("[2,7,{},\"extra\",42]").unwrap();
    assert_eq!(got, Welcome { session: 7, details: obj(vec![]) });
}

#[test]
fn parse_raw_json_returns_the_parsed_value() {
    let got = Hello::parse_raw_json("{\"a\":[true,null]}".to_string()).unwrap();
    let want = obj(vec![("a", JsonVal::Array(vec![JsonVal::Bool(true), JsonVal::Null]))]);
    assert_eq!(got, want);
}

#[test]
fn validate_id_checks_the_fixed_byte() {
    assert_eq!(Hello::validate_id(num(1)), Ok(1));
    assert_eq!(Hello::validate_id(num(2)), Err(Error::NonMatchingMessageId { offense: 2 }));
    assert_eq!(
        Hello::validate_id(s("1")),
        Err(Error::InvalidJsonU8 { offense: s("1") }),
    );
    assert_eq!(Hello::ID, 1);
    assert_eq!(Call::ID, 48);
}

#[test]
fn default_hello_builds_roles_and_authmethods() {
    let h = Hello::default(
        "some.realm.uri".to_string(),
        vec![Roles::Callee, Roles::Caller],
        Some(vec!["ticket".to_string()]),
    );
    assert_eq!(h.realm, "some.realm.uri");
    let want = obj(vec![
        ("roles", obj(vec![("callee", obj(vec![])), ("caller", obj(vec![]))])),
        ("authmethods", JsonVal::Array(vec![s("ticket")])),
    ]);
    assert_eq!(h.details, want);
}

#[test]
fn default_hello_keeps_each_role_once() {
    let h = Hello::default(
        "r".to_string(),
        vec![Roles::Subscriber, Roles::Subscriber, Roles::Publisher],
        None,
    );
    let want = obj(vec![(
        "roles",
        obj(vec![("subscriber", obj(vec![])), ("publisher", obj(vec![]))]),
    )]);
    assert_eq!(h.details, want);
}

#[test]
fn number_extraction_follows_the_integer_rule() {
    let n = |positive: bool, mantissa: u64, exponent: i16| JsonNumber {
        positive,
        mantissa,
        exponent,
    };
    assert_eq!(n(true, 7, 0).as_u64(), Some(7));
    assert_eq!(n(true, 7, 2).as_u64(), Some(700));
    assert_eq!(n(true, 700, -2).as_u64(), Some(7));
    assert_eq!(n(true, 75, -1).as_u64(), None);
    assert_eq!(n(false, 7, 0).as_u64(), None);
    assert_eq!(n(false, 0, 0).as_u64(), Some(0));
    assert_eq!(n(true, u64::MAX, 0).as_u64(), Some(u64::MAX));
    assert_eq!(n(true, u64::MAX, 1).as_u64(), None);
    assert_eq!(n(true, 2, 63).as_u64(), None);
    assert_eq!(n(true, 255, 0).as_u8(), Some(255));
    assert_eq!(n(true, 256, 0).as_u8(), None);
}
