use nix_inspector_mcp::broadcast::{Broadcaster, Received};
use nix_inspector_mcp::classify::ClassifyError;
use nix_inspector_mcp::message::{Message, Request, RequestId, Response};
use nix_inspector_mcp::transport::{StdioError, StdioTransport};

fn method_of(r: Received) -> String {
    match r {
        Received::Message(Message::Request(q)) => q.method,
        Received::Message(Message::Notification(n)) => n.method,
        other => panic!("expected a message, got {:?}", other),
    }
}

fn note(method: &str) -> String {
    format!(r#"{{"method":"{}"}}"#, method)
}

#[test]
fn test_create_stdio_transport() {
    let transport = StdioTransport::new();
    assert!(transport.is_ok());
}

#[test]
fn test_send_message() {
    let transport = StdioTransport::new().unwrap();
    let request = Request::new(
        "test".to_string(),
        Some("\"test message\"".to_string()),
        RequestId::Str("test".to_string()),
    );
    let message = Message::Request(request);
    let result = transport.send(&message);
    assert!(result.is_ok());
    assert_eq!(result.unwrap(),
        r#"{"jsonrpc":"2.0","method":"test","params":"test message","id":"test"}"#);
}

#[test]
fn session_starts_uninitialized_and_stays_initialized() {
    let mut t = StdioTransport::new().unwrap();
    assert!(!t.is_initialized());
    t.handle_line(r#"{"method":"initialize","id":1}"#).unwrap();
    assert!(t.is_initialized());
    t.handle_line(r#"{"method":"initialize","id":2}"#).unwrap();
    assert!(t.is_initialized());
    t.handle_line(r#"{"method":"other","id":3}"#).unwrap();
    assert!(t.is_initialized());
}

#[test]
fn initialize_notification_does_not_initialize() {
    let mut t = StdioTransport::new().unwrap();
    t.handle_line(r#"{"method":"initialize"}"#).unwrap();
    assert!(!t.is_initialized());
}

#[test]
fn sessions_of_two_transports_are_separate() {
    let mut a = StdioTransport::new().unwrap();
    let b = StdioTransport::new().unwrap();
    a.handle_line(r#"{"method":"initialize","id":1}"#).unwrap();
    assert!(a.is_initialized());
    assert!(!b.is_initialized());
}

#[test]
fn malformed_lines_are_skipped_and_reading_goes_on() {
    let mut t = StdioTransport::new().unwrap();
    let sub = t.receive().unwrap();
    for line in ["{not json", "{}", "null", ""] {
        assert_eq!(t.handle_line(line), Err(ClassifyError::Malformed));
    }
    assert_eq!(t.published_count(), 0);
    assert_eq!(t.handle_line(&note("after")), Ok(1));
    assert_eq!(method_of(t.next_message(sub).unwrap()), "after");
    assert!(matches!(t.next_message(sub).unwrap(), Received::Empty));
}

#[test]
fn two_subscribers_see_the_same_messages_in_order() {
    let mut t = StdioTransport::new().unwrap();
    let a = t.receive().unwrap();
    let b = t.receive().unwrap();
    for m in ["one", "two", "three"] {
        assert_eq!(t.handle_line(&note(m)), Ok(2));
    }
    for sub in [a, b] {
        assert_eq!(method_of(t.next_message(sub).unwrap()), "one");
        assert_eq!(method_of(t.next_message(sub).unwrap()), "two");
        assert_eq!(method_of(t.next_message(sub).unwrap()), "three");
        assert!(matches!(t.next_message(sub).unwrap(), Received::Empty));
    }
}

#[test]
fn late_subscriber_sees_only_later_messages() {
    let mut t = StdioTransport::new().unwrap();
    t.handle_line(&note("one")).unwrap();
    let late = t.receive().unwrap();
    t.handle_line(&note("two")).unwrap();
    t.handle_line(&note("three")).unwrap();
    assert_eq!(method_of(t.next_message(late).unwrap()), "two");
    assert_eq!(method_of(t.next_message(late).unwrap()), "three");
    assert!(matches!(t.next_message(late).unwrap(), Received::Empty));
}

#[test]
fn end_of_input_ends_every_subscription() {
    let mut t = StdioTransport::new().unwrap();
    let sub = t.receive().unwrap();
    t.handle_line(&note("last")).unwrap();
    t.end_of_input();
    assert_eq!(method_of(t.next_message(sub).unwrap()), "last");
    assert!(matches!(t.next_message(sub).unwrap(), Received::Closed));
    assert!(matches!(t.next_message(sub).unwrap(), Received::Closed));
}

#[test]
fn send_after_close_fails_every_time() {
    let mut t = StdioTransport::new().unwrap();
    let sub = t.receive().unwrap();
    assert!(t.close().is_ok());
    assert!(t.close().is_ok());
    assert!(t.is_closed());
    let p = Message::Response(Response::success(RequestId::Num(1), None));
    for _ in 0..3 {
        assert_eq!(t.send(&p).unwrap_err(), StdioError::Closed);
    }
    assert_eq!(t.receive().unwrap_err(), StdioError::Closed);
    assert_eq!(t.next_message(sub).unwrap_err(), StdioError::Closed);
}

#[test]
fn send_refuses_response_with_result_and_error() {
    let t = StdioTransport::new().unwrap();
    let mut p = Response::success(RequestId::Num(1), Some("1".to_string()));
    p.error = Some(nix_inspector_mcp::message::ErrorObject {
        code: 1,
        message: "x".to_string(),
        data: None,
    });
    assert_eq!(t.send(&Message::Response(p)).unwrap_err(), StdioError::InvalidResponse);
}

#[test]
fn slow_subscriber_is_told_of_lag_and_others_are_not() {
    let mut b = Broadcaster::new(2);
    let slow = b.subscribe();
    let fast = b.subscribe();
    let msg = |m: &str| Message::Request(Request::new(m.to_string(), None, RequestId::Num(0)));
    b.publish(msg("one"));
    assert_eq!(method_of(b.recv(fast)), "one");
    b.publish(msg("two"));
    assert_eq!(method_of(b.recv(fast)), "two");
    b.publish(msg("three"));
    assert_eq!(method_of(b.recv(fast)), "three");
    assert!(matches!(b.recv(slow), Received::Lagged(1)));
    assert_eq!(method_of(b.recv(slow)), "two");
    assert_eq!(method_of(b.recv(slow)), "three");
    assert!(matches!(b.recv(slow), Received::Empty));
    assert_eq!(b.published_count(), 3);
    assert_eq!(b.subscriber_count(), 2);
}

#[test]
fn publishing_with_no_subscriber_is_harmless() {
    let mut b = Broadcaster::new(1);
    assert_eq!(b.publish(Message::Request(Request::new("x".to_string(), None, RequestId::Num(1)))), 0);
    let s = b.subscribe();
    assert!(matches!(b.recv(s), Received::Empty));
    b.close();
    assert!(!b.is_open());
    assert!(matches!(b.recv(s), Received::Closed));
}

#[test]
fn default_transport_is_fresh() {
    let t = StdioTransport::default();
    assert!(!t.is_initialized());
    assert!(!t.is_closed());
    assert_eq!(t.published_count(), 0);
}
