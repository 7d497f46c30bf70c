use stitch::json::{array, empty_object, object, object2, string, Json, JsonNumber};
use stitch::text::{decimal_string, push_decimal};
use stitch::wire::{as_i64, as_string, member_copy, parse_rpc_error, AsyncRpcError, RpcError};

fn s(t: &str) -> Json {
    Json::Str(t.to_string())
}

fn obj(members: Vec<(&str, Json)>) -> Json {
    Json::Object(members.into_iter().map(|(k, v)| (k.to_string(), v)).collect())
}

fn num(n: i64) -> Json {
    if n >= 0 {
        Json::Number(JsonNumber::PosInt(n as u64))
    } else {
        Json::Number(JsonNumber::NegInt(n))
    }
}

#[test]
fn get_finds_member_and_ignores_non_objects() {
    let v = obj(vec![("a", num(1)), ("b", s("x"))]);
    assert_eq!(v.get("b"), Some(&s("x")));
    assert_eq!(v.get("c"), None);
    assert_eq!(Json::Array(vec![obj(vec![("a", num(1))])]).get("a"), None);
    assert_eq!(s("a").get("a"), None);
}

#[test]
fn get_takes_the_first_member_of_a_name() {
    let v = obj(vec![("a", num(1)), ("a", num(2))]);
    assert_eq!(v.get("a"), Some(&num(1)));
}

#[test]
fn copy_keeps_nested_content() {
    let v = obj(vec![("list", Json::Array(vec![num(-3), Json::Null, Json::Bool(true)])), ("f", Json::Number(JsonNumber::Float("1.5".to_string())))]);
    assert_eq!(v.copy(), v);
}

#[test]
fn builders_make_the_expected_values() {
    assert_eq!(object2("x", num(1), "y", string("z")), obj(vec![("x", num(1)), ("y", s("z"))]));
    assert_eq!(empty_object(), Json::Object(vec![]));
    assert_eq!(array(vec![num(1)]), Json::Array(vec![num(1)]));
    assert_eq!(object(vec![("k".to_string(), Json::Null)]), obj(vec![("k", Json::Null)]));
}

#[test]
fn decimal_text() {
    assert_eq!(decimal_string(0), "0");
    assert_eq!(decimal_string(7), "7");
    assert_eq!(decimal_string(10), "10");
    assert_eq!(decimal_string(1234567890), "1234567890");
    assert_eq!(decimal_string(u64::MAX), "18446744073709551615");
    let mut t = "n=".to_string();
    push_decimal(&mut t, 42);
    assert_eq!(t, "n=42");
}

#[test]
fn scalar_readers() {
    assert_eq!(as_i64(Some(&num(-7))), Some(-7));
    assert_eq!(as_i64(Some(&Json::Number(JsonNumber::PosInt(i64::MAX as u64)))), Some(i64::MAX));
    assert_eq!(as_i64(Some(&Json::Number(JsonNumber::PosInt(i64::MAX as u64 + 1)))), None);
    assert_eq!(as_i64(Some(&Json::Number(JsonNumber::Float("2.0".to_string())))), None);
    assert_eq!(as_i64(None), None);
    assert_eq!(as_string(Some(&s("x"))), Some("x".to_string()));
    assert_eq!(as_string(Some(&num(1))), None);
    assert_eq!(member_copy(&obj(vec![("r", num(1))]), "r"), Some(num(1)));
    assert_eq!(member_copy(&obj(vec![]), "r"), None);
}

#[test]
fn strict_error_record_from_object() {
    let e = RpcError::from_json(&obj(vec![
        ("code", num(-32601)),
        ("message", s("unknown method: x")),
        ("traceback", s("tb")),
        ("extra", Json::Bool(true)),
    ]))
    .unwrap();
    assert_eq!(e.code, Some(-32601));
    assert_eq!(e.message, "unknown method: x");
    assert_eq!(e.traceback, Some("tb".to_string()));
    assert_eq!(e.backtrace, None);
    assert_eq!(e.to_text(), "unknown method: x");
    assert_eq!(e.copy(), e);
}

#[test]
fn strict_error_record_nulls_and_missing() {
    let e = RpcError::from_json(&obj(vec![("message", s("m")), ("code", Json::Null), ("backtrace", Json::Null)])).unwrap();
    assert_eq!(e, RpcError { code: None, message: "m".to_string(), traceback: None, backtrace: None });
}

#[test]
fn strict_error_record_refusals() {
    assert_eq!(RpcError::from_json(&obj(vec![("code", num(1))])), None);
    assert_eq!(RpcError::from_json(&obj(vec![("message", num(1))])), None);
    assert_eq!(RpcError::from_json(&obj(vec![("message", s("m")), ("code", s("1"))])), None);
    assert_eq!(
        RpcError::from_json(&obj(vec![("message", s("m")), ("code", Json::Number(JsonNumber::Float("1.5".to_string())))])),
        None
    );
    assert_eq!(
        RpcError::from_json(&obj(vec![("message", s("m")), ("code", Json::Number(JsonNumber::PosInt(u64::MAX)))])),
        None
    );
    assert_eq!(RpcError::from_json(&obj(vec![("message", s("m")), ("traceback", num(3))])), None);
    assert_eq!(RpcError::from_json(&s("boom")), None);
    assert_eq!(RpcError::from_json(&Json::Null), None);
}

#[test]
fn strict_error_record_from_array() {
    let e = RpcError::from_json(&Json::Array(vec![num(5), s("m"), Json::Null, s("bt")])).unwrap();
    assert_eq!(e, RpcError { code: Some(5), message: "m".to_string(), traceback: None, backtrace: Some("bt".to_string()) });
    assert_eq!(RpcError::from_json(&Json::Array(vec![num(5), s("m"), Json::Null])), None);
    assert_eq!(RpcError::from_json(&Json::Array(vec![num(5), s("m"), Json::Null, Json::Null, Json::Null])), None);
}

#[test]
fn lenient_error_record() {
    let e = parse_rpc_error(&obj(vec![("code", num(-32000)), ("message", s("deliberate test error")), ("backtrace", s("bt"))]));
    assert_eq!(e, AsyncRpcError { code: Some(-32000), message: "deliberate test error".to_string(), traceback: None, backtrace: Some("bt".to_string()) });
    let e = parse_rpc_error(&obj(vec![("message", num(3)), ("code", Json::Number(JsonNumber::Float("1.5".to_string())))]));
    assert_eq!(e, AsyncRpcError { code: None, message: "unknown error".to_string(), traceback: None, backtrace: None });
    let e = parse_rpc_error(&Json::Null);
    assert_eq!(e.message, "unknown error");
    assert_eq!(e.to_text(), "unknown error");
    assert_eq!(String::from(AsyncRpcError::with_message("oops".to_string())), "oops");
}

#[test]
fn error_record_array_form() {
    assert_eq!(
        RpcError::from_json(&Json::Array(vec![Json::Null, s("m"), Json::Null, Json::Null])),
        Some(RpcError { code: None, message: "m".to_string(), traceback: None, backtrace: None })
    );
    assert_eq!(
        RpcError::from_json(&Json::Array(vec![num(-1), s("m"), s("t"), s("b")])),
        Some(RpcError { code: Some(-1), message: "m".to_string(), traceback: Some("t".to_string()), backtrace: Some("b".to_string()) })
    );
    assert_eq!(RpcError::from_json(&Json::Array(vec![num(1), num(2), Json::Null, Json::Null])), None);
    assert_eq!(RpcError::from_json(&Json::Array(vec![s("1"), s("m"), Json::Null, Json::Null])), None);
    assert_eq!(RpcError::from_json(&Json::Array(vec![])), None);
}

#[test]
fn error_record_missing_optional_members() {
    assert_eq!(
        RpcError::from_json(&obj(vec![("message", s("only"))])),
        Some(RpcError { code: None, message: "only".to_string(), traceback: None, backtrace: None })
    );
    assert_eq!(RpcError::from_json(&obj(vec![])), None);
}

#[test]
fn error_record_null_members() {
    assert_eq!(
        RpcError::from_json(&obj(vec![("code", Json::Null), ("message", s("m")), ("traceback", Json::Null), ("backtrace", Json::Null)])),
        Some(RpcError { code: None, message: "m".to_string(), traceback: None, backtrace: None })
    );
    assert_eq!(RpcError::from_json(&obj(vec![("message", Json::Null)])), None);
}

#[test]
fn error_record_extra_members_are_ignored() {
    assert_eq!(
        RpcError::from_json(&obj(vec![
            ("data", obj(vec![("x", Json::Array(vec![num(1)]))])),
            ("message", s("m")),
            ("code", Json::Number(JsonNumber::NegInt(i64::MIN))),
            ("zzz", Json::Bool(false)),
        ])),
        Some(RpcError { code: Some(i64::MIN), message: "m".to_string(), traceback: None, backtrace: None })
    );
}

#[test]
fn error_record_wrongly_typed_members() {
    assert_eq!(RpcError::from_json(&obj(vec![("message", s("m")), ("traceback", Json::Bool(true))])), None);
    assert_eq!(RpcError::from_json(&obj(vec![("message", s("m")), ("backtrace", Json::Array(vec![]))])), None);
    assert_eq!(RpcError::from_json(&obj(vec![("message", s("m")), ("code", obj(vec![]))])), None);
    assert_eq!(RpcError::from_json(&obj(vec![("message", Json::Array(vec![s("m")]))])), None);
    assert_eq!(RpcError::from_json(&Json::Bool(true)), None);
}
