use kuri::content::{Content, Role};
use kuri::handler::ToolHandler;
use kuri::id::{RequestIdGenerator, Uuidv7RequestIdGenerator};
use kuri::json::JsonValue;
use kuri::jsonrpc::RequestId;
use kuri::messages::CallToolResult;
use kuri::render::to_json_string;
use kuri::resource::{Resource, ResourceError};

#[test]
fn test_audience_annotation() {
    let content = Content::text("hello".to_string());
    assert!(content.audience().is_none());

    let content = Content::text("hello".to_string()).with_audience(vec![Role::User]);
    assert_eq!(content.audience(), Some(&vec![Role::User]));

    let content = Content::image("data".to_string(), "image/png".to_string())
        .with_audience(vec![Role::User]);
    assert_eq!(content.audience(), Some(&vec![Role::User]));
}

#[test]
fn test_audience_annotation_override() {
    let content = Content::text("hello".to_string())
        .with_audience(vec![Role::User])
        .with_audience(vec![Role::Assistant]);

    assert_eq!(content.audience(), Some(&vec![Role::Assistant]));
}

#[test]
fn test_audience_preserved_in_annotations() {
    let content = Content::text("hello".to_string()).with_audience(vec![Role::User]);
    let rendered = to_json_string(&content.to_json());
    assert_eq!(
        rendered,
        r#"{"type":"text","text":"hello","annotations":{"audience":["user"]}}"#
    );
}

#[test]
fn test_unannotated() {
    let content = Content::text("hello".to_string()).with_audience(vec![Role::User]);
    let unannotated = content.unannotated();
    assert!(unannotated.audience().is_none());
}

#[test]
fn test_mime_type_validation() {
    let resource = Resource::new(
        "file:///test.txt".to_string(),
        Some("text/plain".to_string()),
        None,
        None,
    )
    .unwrap();
    assert_eq!(resource.mime_type, Some("text/plain".to_string()));
    assert_eq!(resource.name, "test.txt");

    let resource = Resource::new(
        "file:///test.png".to_string(),
        Some("image/png".to_string()),
        None,
        None,
    )
    .unwrap();
    assert_eq!(resource.mime_type, Some("image/png".to_string()));

    // The mime type is not validated, so an "invalid" one is kept.
    let resource = Resource::new(
        "file:///test.txt".to_string(),
        Some("invalid".to_string()),
        None,
        None,
    )
    .unwrap();
    assert_eq!(resource.mime_type, Some("invalid".to_string()));

    // The mime type is optional.
    let resource = Resource::new("file:///test.txt".to_string(), None, None, None).unwrap();
    assert_eq!(resource.mime_type, None);
}

#[test]
fn test_invalid_uri() {
    let result = Resource::new(
        "not-a-uri".to_string(),
        Some("text/plain".to_string()),
        Some("test.txt".to_string()),
        None,
    );
    match result {
        Err(ResourceError::InvalidUri(uri, _)) => assert_eq!(uri, "not-a-uri"),
        _ => panic!("expected an invalid-uri error"),
    }
}

#[test]
fn test_uuid_v7_request_ids() {
    let generator = Uuidv7RequestIdGenerator;
    match generator.next_id() {
        RequestId::Str(s) => {
            assert_eq!(s.len(), 36);
            assert_eq!(s.chars().filter(|c| *c == '-').count(), 4);
        }
        _ => panic!("expected a string id"),
    }
}

#[test]
fn test_call_tool_result_encoding() {
    // isError is written only when true.
    let result = CallToolResult {
        content: vec![Content::text("ok".to_string())],
        is_error: false,
    };
    assert_eq!(
        to_json_string(&result.to_json()),
        r#"{"content":[{"type":"text","text":"ok"}]}"#
    );

    let result = CallToolResult {
        content: vec![],
        is_error: true,
    };
    assert_eq!(to_json_string(&result.to_json()), r#"{"content":[],"isError":true}"#);
}

#[test]
fn test_embedded_text_content() {
    let content = Content::embedded_text("file:///x.txt".to_string(), "body".to_string());
    assert_eq!(
        to_json_string(&content.to_json()),
        r#"{"type":"resource","resource":{"uri":"file:///x.txt","mimeType":"text/plain","text":"body"}}"#
    );
}

#[test]
fn test_string_escaping() {
    let v = JsonValue::Str("a\"b\\c\nd\te\u{8}f\u{c}g\ru\u{1}".to_string());
    assert_eq!(
        to_json_string(&v),
        "\"a\\\"b\\\\c\\nd\\te\\bf\\fg\\ru\\u0001\""
    );

    let v = JsonValue::Num(-42);
    assert_eq!(to_json_string(&v), "-42");
}

struct EchoTool;

impl kuri::handler::ToolHandler for EchoTool {
    fn name(&self) -> String {
        "echo".to_string()
    }

    fn description(&self) -> String {
        "Echo the input".to_string()
    }

    fn schema(&self) -> JsonValue {
        JsonValue::Obj(vec![
            ("type".to_string(), JsonValue::Str("object".to_string())),
            (
                "properties".to_string(),
                JsonValue::Obj(vec![(
                    "input".to_string(),
                    JsonValue::Obj(vec![
                        ("type".to_string(), JsonValue::Str("string".to_string())),
                        (
                            "description".to_string(),
                            JsonValue::Str("The text to echo back".to_string()),
                        ),
                    ]),
                )]),
            ),
            (
                "required".to_string(),
                JsonValue::Arr(vec![JsonValue::Str("input".to_string())]),
            ),
        ])
    }

    fn call(
        &self,
        _context: &kuri::context::Context,
        params: JsonValue,
    ) -> Result<CallToolResult, kuri::tool::ToolError> {
        match params.get(&"input".to_string()) {
            Some(JsonValue::Str(input)) => {
                kuri::response::IntoCallToolResult::into_call_tool_result(input.clone())
            }
            _ => Err(kuri::tool::ToolError::InvalidParameters(
                "Missing or incorrect tool arguments".to_string(),
            )),
        }
    }
}

#[test]
fn test_echo_tool() {
    let tool = EchoTool;
    let ctx = kuri::context::Context::new();
    let args = JsonValue::Obj(vec![(
        "input".to_string(),
        JsonValue::Str("hello".to_string()),
    )]);
    let result = tool.call(&ctx, args).unwrap();
    assert_eq!(
        to_json_string(&result.to_json()),
        r#"{"content":[{"type":"text","text":"hello"}]}"#
    );
}
