use rust_ex::addition::{self, Addition, HostInfo};
use rust_ex::obj::{Obj, ObjPayload};
use rust_ex::value::{find_int, find_string, MethodCall, PlatformError, PlatformResult, Value};

fn s(text: &str) -> Value {
    Value::Str(text.to_string())
}

fn pairs(entries: Vec<(&str, Value)>) -> Value {
    Value::Pairs(entries.into_iter().map(|(k, v)| (s(k), v)).collect())
}

fn call(method: &str, args: Value) -> MethodCall {
    MethodCall { method: method.to_string(), args }
}

fn host() -> HostInfo {
    HostInfo { os: "linux".to_string(), arch: "x86_64".to_string(), family: "unix".to_string() }
}

fn ok_int(r: PlatformResult) -> i64 {
    match r {
        Ok(Value::I64(n)) => n,
        other => panic!("expected an integer, got {:?}", other),
    }
}

fn ok_str(r: PlatformResult) -> String {
    match r {
        Ok(Value::Str(t)) => t,
        other => panic!("expected a string, got {:?}", other),
    }
}

fn err(r: PlatformResult) -> PlatformError {
    match r {
        Err(e) => e,
        Ok(v) => panic!("expected a failure, got {:?}", v),
    }
}

#[test]
fn add_with_only_a_returns_a() {
    let h = Addition::new(host());
    let r = h.on_method_call(&call("add", pairs(vec![("a", Value::I64(5))])));
    assert_eq!(ok_int(r), 5);
}

#[test]
fn add_sums_both_fields() {
    let r = addition::add(&pairs(vec![("a", Value::I64(40)), ("b", Value::I64(2))]));
    assert_eq!(ok_int(r), 42);
}

#[test]
fn add_with_no_fields_is_zero() {
    assert_eq!(ok_int(addition::add(&pairs(vec![]))), 0);
    assert_eq!(ok_int(addition::add(&Value::Null)), 0);
}

#[test]
fn add_treats_wrong_types_as_zero() {
    let r = addition::add(&pairs(vec![("a", s("7")), ("b", Value::I64(-3))]));
    assert_eq!(ok_int(r), -3);
}

#[test]
fn add_wraps_on_overflow() {
    let r = addition::add(&pairs(vec![("a", Value::I64(i64::MAX)), ("b", Value::I64(1))]));
    assert_eq!(ok_int(r), i64::MIN);
}

#[test]
fn send_message_echoes_with_prefix() {
    let h = Addition::new(host());
    let r = h.on_method_call(&call("send_message", pairs(vec![("message", s("hi"))])));
    assert_eq!(ok_str(r), "Echo from Rust: hi");
}

#[test]
fn echo_of_empty_text_is_the_prefix() {
    let r = addition::echo(&pairs(vec![("message", s(""))]));
    assert_eq!(ok_str(r), "Echo from Rust: ");
}

#[test]
fn echo_without_message_is_invalid_argument() {
    let e = err(addition::echo(&pairs(vec![("other", s("hi"))])));
    assert_eq!(e.code, "INVALID_ARGUMENT");
    let e = err(addition::echo(&pairs(vec![("message", Value::I64(1))])));
    assert_eq!(e.code, "INVALID_ARGUMENT");
    let e = err(addition::echo(&Value::Null));
    assert_eq!(e.code, "INVALID_ARGUMENT");
}

#[test]
fn unknown_method_is_not_implemented() {
    let h = Addition::new(host());
    let e = err(h.on_method_call(&call("unknown_method", pairs(vec![]))));
    assert_eq!(e.code, "NOT_IMPLEMENTED");
    match e.detail {
        Value::Str(d) => assert_eq!(d, "unknown_method"),
        other => panic!("unexpected detail {:?}", other),
    }
}

#[test]
fn system_info_lists_host_facts_in_order() {
    let h = Addition::new(host());
    match h.on_method_call(&call("get_system_info", Value::Null)) {
        Ok(Value::List(items)) => {
            let texts: Vec<String> = items
                .into_iter()
                .map(|v| match v {
                    Value::Str(t) => t,
                    other => panic!("unexpected item {:?}", other),
                })
                .collect();
            assert_eq!(texts, vec!["linux", "x86_64", "unix", "Rust"]);
        },
        other => panic!("unexpected reply {:?}", other),
    }
}

#[test]
fn lookups_take_the_first_matching_entry() {
    let v = pairs(vec![
        ("message", Value::I64(3)),
        ("message", s("first")),
        ("message", s("second")),
        ("n", s("x")),
        ("n", Value::I64(8)),
        ("n", Value::I64(9)),
    ]);
    assert_eq!(find_string(&v, "message"), Some("first".to_string()));
    assert_eq!(find_int(&v, "n"), Some(8));
    assert_eq!(find_string(&v, "missing"), None);
    assert_eq!(find_int(&s("n"), "n"), None);
}

fn payload_fields(v: Value) -> (String, String) {
    let p = ObjPayload::try_from_value(&v).expect("a payload");
    (p.tag, p.value)
}

#[test]
fn insert_replaces_the_value_with_the_marker() {
    let obj = Obj::new();
    let r = obj.on_method_call(&call("insert", pairs(vec![("tag", s("t1")), ("value", s("original"))])));
    let v = r.expect("insert succeeds");
    assert_eq!(payload_fields(v), ("t1".to_string(), "Inserted Value".to_string()));
}

#[test]
fn insert_without_value_is_a_decode_failure() {
    let obj = Obj::new();
    let e = err(obj.on_method_call(&call("insert", pairs(vec![("tag", s("t1"))]))));
    assert_eq!(e.code, "try_from_error");
    let e = err(obj.on_method_call(&call("insert", Value::Null)));
    assert_eq!(e.code, "try_from_error");
}

#[test]
fn obj_unknown_method_is_not_implemented() {
    let obj = Obj::new();
    let e = err(obj.on_method_call(&call("remove", Value::Null)));
    assert_eq!(e.code, "NOT_IMPLEMENTED");
    match e.detail {
        Value::Str(d) => assert_eq!(d, "remove"),
        other => panic!("unexpected detail {:?}", other),
    }
}

#[test]
fn payload_encoding_decodes_back() {
    let p = ObjPayload { tag: "k".to_string(), value: "v".to_string() };
    let v = p.into_value();
    match &v {
        Value::Pairs(entries) => assert_eq!(entries.len(), 2),
        other => panic!("unexpected encoding {:?}", other),
    }
    assert_eq!(payload_fields(v), ("k".to_string(), "v".to_string()));
}
