use fetch_bridge::codec::encode;
use fetch_bridge::headers::Headers;
use fetch_bridge::response::{decode, flatten, Payload, RawHeader, ResponseDescriptor};
use fetch_bridge::script::{escape, script_source};
use fetch_bridge::status::StatusCode;
use serde_json::{Number, Value};

fn raw(name: &str, value: Option<&str>) -> RawHeader {
    RawHeader { name: name.to_string(), value: value.map(|v| v.to_string()) }
}

fn status(n: u16) -> StatusCode {
    StatusCode::new(n).unwrap()
}

fn object(entries: Vec<(&str, Value)>) -> Value {
    let mut m = serde_json::Map::new();
    for (k, v) in entries {
        m.insert(k.to_string(), v);
    }
    Value::Object(m)
}

fn number(n: u16) -> Value {
    Value::Number(Number::from(n))
}

fn text(s: &str) -> Value {
    Value::String(s.to_string())
}

#[test]
fn status_code_bounds() {
    assert!(StatusCode::new(0).is_none());
    assert!(StatusCode::new(99).is_none());
    assert_eq!(StatusCode::new(100).map(|s| s.code()), Some(100));
    assert_eq!(StatusCode::new(200).map(|s| s.code()), Some(200));
    assert_eq!(StatusCode::new(599).map(|s| s.code()), Some(599));
    assert!(StatusCode::new(600).is_none());
    assert!(StatusCode::new(u16::MAX).is_none());
}

#[test]
fn headers_set_and_get() {
    let mut h = Headers::new();
    assert_eq!(h.fields().len(), 0);
    assert_eq!(h.get("a"), None);
    h.set("a".to_string(), "1".to_string());
    h.set("b".to_string(), "2".to_string());
    assert_eq!(h.fields().len(), 2);
    assert_eq!(h.get("a"), Some("1"));
    assert_eq!(h.get("b"), Some("2"));
    assert_eq!(h.get("c"), None);
    h.set("a".to_string(), "3".to_string());
    assert_eq!(h.fields().len(), 2);
    assert_eq!(h.get("a"), Some("3"));
    assert_eq!(h.get("b"), Some("2"));
    assert_eq!(h.fields().get("a"), Some(&text("3")));
    assert_eq!(h.fields().get("b"), Some(&text("2")));
}

#[test]
fn of_headers_with_one_name_the_last_one_wins() {
    let h = flatten(vec![
        raw("set-cookie", Some("a=1")),
        raw("content-type", Some("text/html")),
        raw("set-cookie", Some("b=2")),
    ]);
    assert_eq!(h.fields().len(), 2);
    assert_eq!(h.get("set-cookie"), Some("b=2"));
    assert_eq!(h.get("content-type"), Some("text/html"));
}

#[test]
fn unreadable_header_value_becomes_empty_text() {
    let h = flatten(vec![raw("x-bin", None), raw("x-a", Some("1")), raw("x-a", None)]);
    assert_eq!(h.fields().len(), 2);
    assert_eq!(h.get("x-bin"), Some(""));
    assert_eq!(h.get("x-a"), Some(""));
}

#[test]
fn decode_well_formed_text_gives_structured_data() {
    assert_eq!(
        decode("{\"a\":1}".to_string()),
        Payload::Structured(object(vec![("a", number(1))]))
    );
    assert_eq!(decode(" [1, 2] ".to_string()), Payload::Structured(Value::Array(vec![number(1), number(2)])));
    assert_eq!(decode("\"hello\"".to_string()), Payload::Structured(text("hello")));
    assert_eq!(decode("null".to_string()), Payload::Structured(Value::Null));
    assert_eq!(decode("true".to_string()), Payload::Structured(Value::Bool(true)));
    assert_eq!(decode("12".to_string()), Payload::Structured(number(12)));
}

#[test]
fn decode_other_text_gives_the_text_back() {
    for t in ["hello", "", "{", "{\"a\":1} x", "<html></html>", "{'a':1}", "01", "nul"] {
        assert_eq!(decode(t.to_string()), Payload::Text(t.to_string()));
    }
}

#[test]
fn assemble_keeps_status_flattens_headers_and_decodes_body() {
    let d = ResponseDescriptor::assemble(
        status(404),
        vec![raw("content-type", Some("application/json")), raw("x-a", Some("1"))],
        "{\"error\":\"nope\"}".to_string(),
    );
    assert_eq!(d.status.code(), 404);
    assert_eq!(d.headers.fields().len(), 2);
    assert_eq!(d.headers.get("content-type"), Some("application/json"));
    assert_eq!(d.headers.get("x-a"), Some("1"));
    assert_eq!(d.body, Payload::Structured(object(vec![("error", text("nope"))])));
}

#[test]
fn body_that_is_no_structured_data_is_kept_as_string() {
    let d = ResponseDescriptor::assemble(status(200), vec![], "hello".to_string());
    assert_eq!(d.body, Payload::Text("hello".to_string()));
    let encoded = encode(&d).unwrap();
    assert_eq!(encoded, "{\"data\":\"hello\",\"headers\":{},\"status\":200}");
    let back: Value = serde_json::from_str(&encoded).unwrap();
    assert_eq!(back["data"], text("hello"));
}

#[test]
fn encode_writes_status_headers_and_data() {
    let d = ResponseDescriptor::assemble(
        status(200),
        vec![raw("content-type", Some("application/json"))],
        "{\"a\":1}".to_string(),
    );
    let encoded = encode(&d).unwrap();
    assert_eq!(
        encoded,
        "{\"data\":{\"a\":1},\"headers\":{\"content-type\":\"application/json\"},\"status\":200}"
    );
}

#[test]
fn encoded_response_reads_back_as_status_headers_and_body() {
    let body = "{\"list\":[1,\"two\",null,true,{\"k\":\"it's \\\"quoted\\\" \\\\ \\n\"}],\"n\":-3}";
    let d = ResponseDescriptor::assemble(
        status(201),
        vec![
            raw("b", Some("2")),
            raw("a", Some("1")),
            raw("b", Some("3")),
            raw("odd", None),
            raw("q", Some("say \"hi\"")),
        ],
        body.to_string(),
    );
    let encoded = encode(&d).unwrap();
    let back: Value = serde_json::from_str(&encoded).unwrap();
    let expected = object(vec![
        ("status", number(201)),
        (
            "headers",
            object(vec![
                ("a", text("1")),
                ("b", text("3")),
                ("odd", text("")),
                ("q", text("say \"hi\"")),
            ]),
        ),
        ("data", serde_json::from_str(body).unwrap()),
    ]);
    assert_eq!(back, expected);
    assert_eq!(decode(encoded), Payload::Structured(expected));
}

#[test]
fn escape_writes_significant_characters_as_escapes() {
    assert_eq!(escape(""), "");
    assert_eq!(escape("{\"a\":1}"), "{\"a\":1}");
    assert_eq!(escape("it's"), "it\\'s");
    assert_eq!(escape("''"), "\\'\\'");
    assert_eq!(escape("a\\b"), "a\\\\b");
    assert_eq!(escape("\\'"), "\\\\\\'");
    assert_eq!(escape("a\nb\rc"), "a\\nb\\rc");
    assert_eq!(escape("\u{2028}\u{2029}"), "\\u2028\\u2029");
    assert_eq!(escape("\"\t\u{e9}\u{1f600}"), "\"\t\u{e9}\u{1f600}");
}

#[test]
fn script_source_wraps_the_literal_in_a_parse_call() {
    assert_eq!(script_source(""), "JSON.parse('')");
    assert_eq!(script_source("{\"a\":1}"), "JSON.parse('{\"a\":1}')");
    assert_eq!(script_source("{\"a\":\"it's\"}"), "JSON.parse('{\"a\":\"it\\'s\"}')");
    assert_eq!(script_source("{\"a\":\"x\\\"y\"}"), "JSON.parse('{\"a\":\"x\\\\\"y\"}')");
}
