use nix_inspector_mcp::classify::{classify, ClassifyError};
use nix_inspector_mcp::codec::encode;
use nix_inspector_mcp::message::{ErrorObject, Message, Notification, Request, RequestId, Response};

fn request(line: &str) -> Request {
    match classify(line) {
        Ok(Message::Request(r)) => r,
        other => panic!("expected a request, got {:?}", other),
    }
}

#[test]
fn request_keeps_string_id_and_method() {
    let r = request(r#"{"jsonrpc":"2.0","method":"tools/list","id":"abc"}"#);
    assert_eq!(r.method, "tools/list");
    assert!(matches!(r.id, RequestId::Str(ref s) if s == "abc"));
    assert!(r.params.is_none());
}

#[test]
fn request_keeps_numeric_id_apart_from_string_id() {
    let n = request(r#"{"method":"m","id":7}"#);
    assert!(matches!(n.id, RequestId::Num(7)));
    let s = request(r#"{"method":"m","id":"7"}"#);
    assert!(matches!(s.id, RequestId::Str(ref t) if t == "7"));
}

#[test]
fn request_carries_params_as_compact_json() {
    let r = request(r#"{"method":"run", "id": 1, "params": {"a": [1, 2]}}"#);
    assert_eq!(r.params.as_deref(), Some(r#"{"a":[1,2]}"#));
}

#[test]
fn method_without_id_is_notification() {
    match classify(r#"{"method":"notifications/initialized","params":{"x":true}}"#) {
        Ok(Message::Notification(n)) => {
            assert_eq!(n.method, "notifications/initialized");
            assert_eq!(n.params.as_deref(), Some(r#"{"x":true}"#));
        }
        other => panic!("expected a notification, got {:?}", other),
    }
}

#[test]
fn method_with_result_is_still_a_request_or_notification() {
    assert!(matches!(classify(r#"{"method":"m","id":1,"result":2}"#), Ok(Message::Request(_))));
    assert!(matches!(classify(r#"{"method":"m","result":2}"#), Ok(Message::Notification(_))));
}

#[test]
fn result_without_method_is_response() {
    match classify(r#"{"id":3,"result":{"ok":1}}"#) {
        Ok(Message::Response(p)) => {
            assert!(matches!(p.id, RequestId::Num(3)));
            assert_eq!(p.result.as_deref(), Some(r#"{"ok":1}"#));
            assert!(p.error.is_none());
        }
        other => panic!("expected a response, got {:?}", other),
    }
}

#[test]
fn error_without_method_is_response() {
    match classify(r#"{"id":"q","error":{"code":-32601,"message":"no such method","data":[1]}}"#) {
        Ok(Message::Response(p)) => {
            assert!(p.result.is_none());
            let e = p.error.expect("error member");
            assert_eq!(e.code, -32601);
            assert_eq!(e.message, "no such method");
            assert_eq!(e.data.as_deref(), Some("[1]"));
        }
        other => panic!("expected a response, got {:?}", other),
    }
}

#[test]
fn response_with_both_result_and_error_is_malformed() {
    let line = r#"{"id":1,"result":1,"error":{"code":1,"message":"x"}}"#;
    assert_eq!(classify(line).unwrap_err(), ClassifyError::Malformed);
}

#[test]
fn null_result_reads_as_absent() {
    match classify(r#"{"id":1,"result":null}"#) {
        Ok(Message::Response(p)) => {
            assert!(p.result.is_none());
            assert!(p.error.is_none());
        }
        other => panic!("expected a response, got {:?}", other),
    }
}

#[test]
fn malformed_lines_yield_no_message() {
    for line in ["{not json", "{}", "null", "[1,2]", r#"{"id":1}"#, r#"{"method":5,"id":1}"#,
        r#"{"method":"m","id":1.5}"#, r#"{"result":1}"#, r#"{"id":1,"error":{"code":"x","message":"m"}}"#]
    {
        assert_eq!(classify(line).unwrap_err(), ClassifyError::Malformed, "line {}", line);
    }
}

#[test]
fn encodes_request_with_escaped_strings() {
    let q = Request::new("say \"hi\"".to_string(), Some("\"test message\"".to_string()),
        RequestId::Num(-12));
    assert_eq!(encode(&Message::Request(q)),
        r#"{"jsonrpc":"2.0","method":"say \"hi\"","params":"test message","id":-12}"#);
}

#[test]
fn encodes_notification_without_absent_params() {
    let n = Notification::new("ping".to_string(), None);
    assert_eq!(encode(&Message::Notification(n)), r#"{"jsonrpc":"2.0","method":"ping"}"#);
}

#[test]
fn encodes_error_response() {
    let e = ErrorObject { code: -32700, message: "bad\nline".to_string(), data: None };
    let p = Response::failure(RequestId::Str("a".to_string()), e);
    assert_eq!(encode(&Message::Response(p)),
        r#"{"jsonrpc":"2.0","id":"a","error":{"code":-32700,"message":"bad\nline"}}"#);
}

#[test]
fn response_round_trips_through_encoding() {
    let p = Response::success(RequestId::Str("7".to_string()), Some("42".to_string()));
    let line = encode(&Message::Response(p));
    match classify(&line) {
        Ok(Message::Response(back)) => {
            assert!(matches!(back.id, RequestId::Str(ref s) if s == "7"));
            assert_eq!(back.result.as_deref(), Some("42"));
            assert!(back.error.is_none());
        }
        other => panic!("expected a response, got {:?}", other),
    }
}

#[test]
fn request_round_trips_through_encoding() {
    let q = Request::new("tools/call".to_string(), Some(r#"{"name":"x"}"#.to_string()),
        RequestId::Num(99));
    let line = encode(&Message::Request(q));
    let back = request(&line);
    assert_eq!(back.method, "tools/call");
    assert!(matches!(back.id, RequestId::Num(99)));
    assert_eq!(back.params.as_deref(), Some(r#"{"name":"x"}"#));
}
