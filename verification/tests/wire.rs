use kuri::codec::{decode_message, decode_request, encode_message, encode_response_item};
use kuri::json::JsonValue;
use kuri::jsonrpc::{
    ErrorCode, ErrorData, MethodCall, Notification, Params, Request, RequestId, ResponseItem,
    SendableMessage,
};
use kuri::parse::parse_json;
use kuri::render::to_json_string;

fn parse(text: &str) -> JsonValue {
    parse_json(text).expect("expected a JSON document")
}

fn render_message(msg: SendableMessage) -> String {
    to_json_string(&encode_message(msg))
}

#[test]
fn id_deserialization() {
    let msg = decode_message(parse(r#"{"jsonrpc":"2.0","id":"2","method":"test"}"#));
    match msg {
        SendableMessage::Request(mc) => assert_eq!(mc.id, RequestId::Str("2".to_string())),
        _ => panic!("expected a request"),
    }

    let msg = decode_message(parse(r#"{"jsonrpc":"2.0","id":2,"method":"test"}"#));
    match msg {
        SendableMessage::Request(mc) => assert_eq!(mc.id, RequestId::Num(2)),
        _ => panic!("expected a request"),
    }

    let msg = decode_message(parse(r#"{"jsonrpc":"2.0","id":"2x","method":"test"}"#));
    match msg {
        SendableMessage::Request(mc) => assert_eq!(mc.id, RequestId::Str("2x".to_string())),
        _ => panic!("expected a request"),
    }

    let msg = decode_message(parse(
        r#"{"jsonrpc":"2.0","id":"4a54203b-20c0-4367-a15b-938ec6d92bf2","method":"test"}"#,
    ));
    match msg {
        SendableMessage::Request(mc) => assert_eq!(
            mc.id,
            RequestId::Str("4a54203b-20c0-4367-a15b-938ec6d92bf2".to_string())
        ),
        _ => panic!("expected a request"),
    }

    // JSON null is a readable id.
    let msg = decode_message(parse(r#"{"jsonrpc":"2.0","id":null,"method":"test"}"#));
    match msg {
        SendableMessage::Request(mc) => assert_eq!(mc.id, RequestId::Null),
        _ => panic!("expected a request"),
    }
}

#[test]
fn id_serialization() {
    let ids = vec![
        (RequestId::Num(0), "0"),
        (RequestId::Num(2), "2"),
        (RequestId::Num(3), "3"),
        (RequestId::Str("3".to_string()), "\"3\""),
        (RequestId::Str("test".to_string()), "\"test\""),
        (
            RequestId::Str("4a54203b-20c0-4367-a15b-938ec6d92bf2".to_string()),
            "\"4a54203b-20c0-4367-a15b-938ec6d92bf2\"",
        ),
    ];
    for (id, expected) in ids {
        let msg = SendableMessage::Request(MethodCall::new(id, "test".to_string(), None));
        let line = render_message(msg);
        let expected_line = format!(r#"{{"jsonrpc":"2.0","id":{},"method":"test"}}"#, expected);
        assert_eq!(line, expected_line);
    }
}

#[test]
fn request_serialization() {
    // without params
    let request = MethodCall::new(RequestId::Num(1), "test".to_string(), None);
    let line = render_message(SendableMessage::Request(request));
    assert_eq!(line, r#"{"jsonrpc":"2.0","id":1,"method":"test"}"#);

    // with array params
    let request = MethodCall::new(
        RequestId::Num(1),
        "test".to_string(),
        Some(Params::Array(vec![
            JsonValue::Num(1),
            JsonValue::Num(2),
            JsonValue::Num(3),
        ])),
    );
    let line = render_message(SendableMessage::Request(request));
    assert_eq!(
        line,
        r#"{"jsonrpc":"2.0","id":1,"method":"test","params":[1,2,3]}"#
    );

    // with map params
    let request = MethodCall::new(
        RequestId::Num(1),
        "test".to_string(),
        Some(Params::Object(vec![
            ("key".to_string(), JsonValue::Str("value".to_string())),
            ("key2".to_string(), JsonValue::Str("value2".to_string())),
        ])),
    );
    let line = render_message(SendableMessage::Request(request));
    assert_eq!(
        line,
        r#"{"jsonrpc":"2.0","id":1,"method":"test","params":{"key":"value","key2":"value2"}}"#
    );

    let request = MethodCall::new(RequestId::Null, "test".to_string(), None);
    let line = render_message(SendableMessage::Request(request));
    assert_eq!(line, r#"{"jsonrpc":"2.0","id":null,"method":"test"}"#);
}

#[test]
fn request_deserialization() {
    // without params
    let msg = decode_message(parse(r#"{"jsonrpc":"2.0","id":1,"method":"test"}"#));
    match msg {
        SendableMessage::Request(mc) => {
            assert_eq!(mc.id, RequestId::Num(1));
            assert_eq!(mc.method, "test");
            assert!(mc.params.is_none());
        }
        _ => panic!("expected a request"),
    }

    // with array params
    let msg = decode_message(parse(
        r#"{"jsonrpc":"2.0","id":1,"method":"test","params":[1,2,3]}"#,
    ));
    match msg {
        SendableMessage::Request(mc) => match mc.params {
            Some(Params::Array(elems)) => {
                assert_eq!(elems.len(), 3);
                assert!(matches!(elems[0], JsonValue::Num(1)));
                assert!(matches!(elems[2], JsonValue::Num(3)));
            }
            _ => panic!("expected array params"),
        },
        _ => panic!("expected a request"),
    }

    // with map params
    let msg = decode_message(parse(
        r#"{"jsonrpc":"2.0","id":1,"method":"test","params":{"key":"value"}}"#,
    ));
    match msg {
        SendableMessage::Request(mc) => match mc.params {
            Some(Params::Object(pairs)) => {
                assert_eq!(pairs.len(), 1);
                assert_eq!(pairs[0].0, "key");
                assert!(matches!(&pairs[0].1, JsonValue::Str(s) if s == "value"));
            }
            _ => panic!("expected object params"),
        },
        _ => panic!("expected a request"),
    }
}

#[test]
fn notification_serialization() {
    let notification = Notification::new("test".to_string(), None);
    let line = render_message(SendableMessage::Notification(notification));
    assert_eq!(line, r#"{"jsonrpc":"2.0","method":"test"}"#);

    let notification = Notification::new(
        "test".to_string(),
        Some(Params::Object(vec![(
            "key".to_string(),
            JsonValue::Str("value".to_string()),
        )])),
    );
    let line = render_message(SendableMessage::Notification(notification));
    assert_eq!(line, r#"{"jsonrpc":"2.0","method":"test","params":{"key":"value"}}"#);
}

#[test]
fn notification_deserialization() {
    let msg = decode_message(parse(r#"{"jsonrpc":"2.0","method":"test"}"#));
    match msg {
        SendableMessage::Notification(n) => {
            assert_eq!(n.method, "test");
            assert!(n.params.is_none());
        }
        _ => panic!("expected a notification"),
    }

    let msg = decode_message(parse(r#"{"jsonrpc":"2.0","method":"test","params":{"key":"value"}}"#));
    match msg {
        SendableMessage::Notification(n) => match n.params {
            Some(Params::Object(pairs)) => {
                assert_eq!(pairs[0].0, "key");
            }
            _ => panic!("expected object params"),
        },
        _ => panic!("expected a notification"),
    }
}

#[test]
fn response_serialization() {
    let result = JsonValue::Obj(vec![(
        "key".to_string(),
        JsonValue::Str("value".to_string()),
    )]);
    let response = ResponseItem::success(RequestId::Num(1), result);
    let line = to_json_string(&encode_response_item(response));
    assert_eq!(line, r#"{"jsonrpc":"2.0","id":1,"result":{"key":"value"}}"#);
}

#[test]
fn error_serialization() {
    let error = ResponseItem::error(
        RequestId::Num(42),
        ErrorData::new(ErrorCode::ParseError, "Parse error".to_string()),
    );
    let line = to_json_string(&encode_response_item(error));
    assert_eq!(
        line,
        r#"{"jsonrpc":"2.0","id":42,"error":{"code":-32700,"message":"Parse error"}}"#
    );
}

#[test]
fn jsonrpc_version_error() {
    // v1.0: not a valid JSON-RPC 2.0 envelope; the id is salvaged.
    let msg = decode_message(parse(r#"{"jsonrpc":"1.0","id":1,"method":"test"}"#));
    assert!(matches!(
        msg,
        SendableMessage::Invalid { id: RequestId::Num(1) }
    ));

    // no version at all
    let msg = decode_message(parse(r#"{"id":1,"method":"test"}"#));
    assert!(matches!(
        msg,
        SendableMessage::Invalid { id: RequestId::Num(1) }
    ));
}

#[test]
fn request_batch_deserialisation() {
    let request = r#"[{"jsonrpc":"2.0","id":1,"method":"tools/calc/add","params":[1,2,3]}, {"jsonrpc":"2.0","id":2,"method":"tools/list"}, {"jsonrpc": "2.0", "method": "notify_sum", "params": [1,2,4]}]"#;
    let request = decode_request(parse(request)).expect("expected a request");
    match request {
        Request::Batch(messages) => {
            assert_eq!(messages.len(), 3);
            assert!(matches!(messages[0], SendableMessage::Request(_)));
            assert!(matches!(messages[1], SendableMessage::Request(_)));
            assert!(matches!(messages[2], SendableMessage::Notification(_)));
        }
        _ => panic!("expected a batch"),
    }
}

#[test]
fn request_batch_deserialisation_with_errors() {
    // all invalid
    let request = decode_request(parse(r#"[1]"#)).expect("expected a request");
    match request {
        Request::Batch(messages) => {
            assert_eq!(messages.len(), 1);
            assert!(matches!(
                messages[0],
                SendableMessage::Invalid { id: RequestId::Null }
            ));
        }
        _ => panic!("expected a batch"),
    }

    // one valid, two invalid
    let request = r#"[{"jsonrpc":"2.0","id":1,"method":"test"}, {"jsonrpc":"1.0","id":1,"method":"test"}, {"foo":"bar"}]"#;
    let request = decode_request(parse(request)).expect("expected a request");
    match request {
        Request::Batch(messages) => {
            assert_eq!(messages.len(), 3);
            assert!(matches!(messages[0], SendableMessage::Request(_)));
            assert!(matches!(
                messages[1],
                SendableMessage::Invalid { id: RequestId::Num(1) }
            ));
            assert!(matches!(
                messages[2],
                SendableMessage::Invalid { id: RequestId::Null }
            ));
        }
        _ => panic!("expected a batch"),
    }
}

#[test]
fn response_serialisation() {
    let result = JsonValue::Obj(vec![(
        "key".to_string(),
        JsonValue::Str("value".to_string()),
    )]);
    let response = kuri::jsonrpc::Response::Single(Some(ResponseItem::success(
        RequestId::Num(1),
        result,
    )));
    let line = kuri::serve::response_to_line(response);
    assert_eq!(line, r#"{"jsonrpc":"2.0","id":1,"result":{"key":"value"}}"#);
}

#[test]
fn message_round_trip() {
    // Decoding inverts encoding: a rendered message reads back as itself.
    let cases = vec![
        r#"{"jsonrpc":"2.0","id":1,"method":"test"}"#,
        r#"{"jsonrpc":"2.0","id":"abc","method":"tools/call","params":{"name":"calculator"}}"#,
        r#"{"jsonrpc":"2.0","method":"notify","params":[1,2,3]}"#,
    ];
    for text in cases {
        let msg = decode_message(parse(text));
        let rendered = render_message(msg);
        assert_eq!(rendered, text);
    }
}

#[test]
fn parser_reads_documents() {
    // The wire parser reads real JSON, not the raw line.
    let v = parse(r#"  {"a": [1, true, null, "x\n"]}  "#);
    let rendered = to_json_string(&v);
    assert_eq!(rendered, r#"{"a":[1,true,null,"x\n"]}"#);

    assert!(parse_json("not json").is_none());
    assert!(parse_json("{\"a\":}").is_none());
}

#[test]
fn test_error_code_round_trip() {
    let codes = vec![-32700, -32600, -32601, -32602, -32603, -32000, 7];
    for n in codes {
        assert_eq!(ErrorCode::from_code(n).code(), n);
    }
    assert_eq!(ErrorCode::from_code(-32000), ErrorCode::Custom(-32000));
    assert_eq!(ErrorCode::from_code(-32700), ErrorCode::ParseError);
}

#[test]
fn test_large_numeric_id_round_trip() {
    // A numeric id beyond the inline 64-bit signed range is carried as
    // digit text and still round-trips.
    let id = RequestId::Num(u64::MAX);
    let msg = SendableMessage::Request(MethodCall::new(id, "ping".to_string(), None));
    let line = render_message(msg);
    assert_eq!(
        line,
        r#"{"jsonrpc":"2.0","id":18446744073709551615,"method":"ping"}"#
    );
    let back = decode_message(parse(&line));
    match back {
        SendableMessage::Request(mc) => assert_eq!(mc.id, RequestId::Num(u64::MAX)),
        _ => panic!("expected a request"),
    }
}
