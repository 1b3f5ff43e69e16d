use fetch_bridge::bridge::{complete, settle, start, step, Action, CallState, Event, Reply};
use fetch_bridge::failure::FailureReason;
use fetch_bridge::method::Method;
use fetch_bridge::response::{Payload, RawHeader};
use fetch_bridge::status::StatusCode;
use serde_json::{Number, Value};

fn raw(name: &str, value: &str) -> RawHeader {
    RawHeader { name: name.to_string(), value: Some(value.to_string()) }
}

fn whole(status: u16, headers: Vec<RawHeader>, text: &str) -> Reply {
    Reply::Complete { status: StatusCode::new(status).unwrap(), headers, text: text.to_string() }
}

fn start_event(target: &str, options: Option<serde_json::Map<String, Value>>) -> Event {
    Event::Start { target: target.to_string(), options }
}

fn method_option(name: &str) -> serde_json::Map<String, Value> {
    let mut o = serde_json::Map::new();
    o.insert("method".to_string(), Value::String(name.to_string()));
    o
}

#[test]
fn get_with_json_body_resolves_to_status_headers_and_data() {
    let (state, action) = step(CallState::Invoked, start_event("https://example.test/get", None));
    assert_eq!(state, CallState::Dispatched);
    match action {
        Action::Send(request) => {
            assert_eq!(request.target, "https://example.test/get");
            assert_eq!(request.method, Method::Get);
            assert!(request.headers.is_empty());
            assert_eq!(request.body, None);
        }
        other => panic!("expected a request to send, got {:?}", other),
    }
    let reply = whole(200, vec![raw("content-type", "application/json")], "{\"a\":1}");
    let response = complete(reply.clone()).unwrap();
    assert_eq!(response.status.code(), 200);
    assert_eq!(response.headers.fields().len(), 1);
    assert_eq!(response.headers.get("content-type"), Some("application/json"));
    let mut data = serde_json::Map::new();
    data.insert("a".to_string(), Value::Number(Number::from(1u16)));
    assert_eq!(response.body, Payload::Structured(Value::Object(data)));
    let (state, action) = step(state, Event::Reply(reply));
    assert_eq!(state, CallState::Resolved);
    assert_eq!(
        action,
        Action::Evaluate(
            "JSON.parse('{\"data\":{\"a\":1},\"headers\":{\"content-type\":\"application/json\"},\"status\":200}')"
                .to_string()
        )
    );
}

#[test]
fn patch_fails_before_anything_is_sent() {
    let (state, action) =
        step(CallState::Invoked, start_event("https://example.test/x", Some(method_option("PATCH"))));
    assert_eq!(state, CallState::Failed);
    match &action {
        Action::Raise(reason) => {
            assert_eq!(reason, &FailureReason::UnsupportedMethod { method: "PATCH".to_string() });
            assert!(reason.message().contains("PATCH"));
            assert_eq!(reason.message(), "Unsupported HTTP method: PATCH");
        }
        other => panic!("expected an error to raise, got {:?}", other),
    }
    let (state, action) = step(state, Event::Reply(whole(200, vec![], "{}")));
    assert_eq!(state, CallState::Failed);
    assert_eq!(action, Action::Idle);
    let (state, action) = step(state, start_event("https://example.test/x", None));
    assert_eq!(state, CallState::Failed);
    assert_eq!(action, Action::Idle);
}

#[test]
fn refused_connection_fails_the_call() {
    let (state, _) = step(CallState::Invoked, start_event("https://example.test/get", None));
    let reply = Reply::TransportFailed { cause: "connection refused".to_string() };
    let (state, action) = step(state, Event::Reply(reply));
    assert_eq!(state, CallState::Failed);
    match action {
        Action::Raise(reason) => {
            assert!(reason.message().contains("HTTP request failed"));
            assert_eq!(reason.message(), "HTTP request failed: connection refused");
        }
        other => panic!("expected an error to raise, got {:?}", other),
    }
}

#[test]
fn unread_body_fails_the_call_in_its_own_words() {
    let reply = Reply::BodyFailed { cause: "connection reset".to_string() };
    assert_eq!(
        complete(reply.clone()),
        Err(FailureReason::BodyRead { cause: "connection reset".to_string() })
    );
    let (state, action) = step(CallState::Dispatched, Event::Reply(reply));
    assert_eq!(state, CallState::Failed);
    assert_eq!(
        action,
        Action::Raise(FailureReason::BodyRead { cause: "connection reset".to_string() })
    );
}

#[test]
fn plain_text_body_resolves_to_a_string() {
    let reply = whole(200, vec![], "hello");
    let response = complete(reply.clone()).unwrap();
    assert_eq!(response.body, Payload::Text("hello".to_string()));
    let (state, action) = step(CallState::Dispatched, Event::Reply(reply));
    assert_eq!(state, CallState::Resolved);
    assert_eq!(
        action,
        Action::Evaluate("JSON.parse('{\"data\":\"hello\",\"headers\":{},\"status\":200}')".to_string())
    );
}

#[test]
fn two_calls_in_a_row_both_complete() {
    for (body, expected) in [
        ("{\"n\":1}", "JSON.parse('{\"data\":{\"n\":1},\"headers\":{},\"status\":200}')"),
        ("{\"n\":2}", "JSON.parse('{\"data\":{\"n\":2},\"headers\":{},\"status\":200}')"),
    ] {
        let (state, action) =
            step(CallState::Invoked, start_event("https://example.test/get", None));
        assert_eq!(state, CallState::Dispatched);
        assert!(matches!(action, Action::Send(_)));
        let (state, action) = step(state, Event::Reply(whole(200, vec![], body)));
        assert_eq!(state, CallState::Resolved);
        assert_eq!(action, Action::Evaluate(expected.to_string()));
    }
}

#[test]
fn each_supported_method_is_dispatched_with_its_verb() {
    for (name, verb) in [
        ("GET", Method::Get),
        ("POST", Method::Post),
        ("PUT", Method::Put),
        ("DELETE", Method::Delete),
    ] {
        let o = method_option(name);
        let (state, action) = start("https://example.test/x".to_string(), Some(&o));
        assert_eq!(state, CallState::Dispatched);
        match action {
            Action::Send(request) => assert_eq!(request.method, verb),
            other => panic!("expected a request to send, got {:?}", other),
        }
    }
}

#[test]
fn events_out_of_turn_change_nothing() {
    let (state, action) = step(CallState::Invoked, Event::Reply(whole(200, vec![], "{}")));
    assert_eq!(state, CallState::Invoked);
    assert_eq!(action, Action::Idle);
    let (state, action) = step(CallState::Dispatched, start_event("u", None));
    assert_eq!(state, CallState::Dispatched);
    assert_eq!(action, Action::Idle);
    let (state, action) = step(CallState::Resolved, start_event("u", None));
    assert_eq!(state, CallState::Resolved);
    assert_eq!(action, Action::Idle);
    let (state, action) = step(CallState::Resolved, Event::Reply(whole(200, vec![], "{}")));
    assert_eq!(state, CallState::Resolved);
    assert_eq!(action, Action::Idle);
}

#[test]
fn settle_takes_the_encoder_at_its_word() {
    assert_eq!(
        settle(Ok("{\"a\":\"it's\"}".to_string())),
        (CallState::Resolved, Action::Evaluate("JSON.parse('{\"a\":\"it\\'s\"}')".to_string()))
    );
    assert_eq!(
        settle(Err("key must be a string".to_string())),
        (
            CallState::Failed,
            Action::Raise(FailureReason::Encoding { cause: "key must be a string".to_string() })
        )
    );
}

#[test]
fn received_takes_a_status_code_and_refuses_any_other_number() {
    for code in [100u16, 200, 404, 599] {
        assert_eq!(
            Reply::received(code, vec![raw("a", "1")], "x".to_string()),
            whole(code, vec![raw("a", "1")], "x")
        );
    }
    for code in [0u16, 99, 600, 999, u16::MAX] {
        assert_eq!(
            Reply::received(code, vec![raw("a", "1")], "x".to_string()),
            Reply::TransportFailed { cause: "status code out of range".to_string() }
        );
    }
}

#[test]
fn response_without_a_status_code_fails_the_call() {
    let reply = Reply::received(600, vec![], "{}".to_string());
    let (state, action) = step(CallState::Dispatched, Event::Reply(reply));
    assert_eq!(state, CallState::Failed);
    match action {
        Action::Raise(reason) => {
            assert_eq!(reason.message(), "HTTP request failed: status code out of range");
        }
        other => panic!("expected an error to raise, got {:?}", other),
    }
}

#[test]
fn request_that_goes_out_carries_the_string_headers() {
    let mut h = serde_json::Map::new();
    h.insert("x-a".to_string(), Value::String("1".to_string()));
    h.insert("x-n".to_string(), Value::Number(Number::from(2u16)));
    let mut o = serde_json::Map::new();
    o.insert("headers".to_string(), Value::Object(h));
    let (state, action) = step(CallState::Invoked, start_event("u", Some(o)));
    assert_eq!(state, CallState::Dispatched);
    match action {
        Action::Send(request) => {
            assert_eq!(request.headers.len(), 1);
            assert_eq!(request.headers[0].name, "x-a");
            assert_eq!(request.headers[0].value, "1");
        }
        other => panic!("expected a request to send, got {:?}", other),
    }
}
