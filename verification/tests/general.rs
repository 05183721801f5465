use kuri::context::Context;
use kuri::handler::{NotificationSink, ToolHandler};
use kuri::jsonrpc::Notification;
use std::sync::atomic::{AtomicBool, Ordering};
use std::sync::Arc;
use kuri::json::JsonValue;
use kuri::jsonrpc::{MethodCall, Params, RequestId, ResponseItem, SendableMessage};
use kuri::messages::CallToolResult;
use kuri::render::to_json_string;
use kuri::response::text_tool_result;
use kuri::service::{MCPService, MCPServiceBuilder};
use kuri::tool::ToolError;

struct HelloWorldTool;

impl ToolHandler for HelloWorldTool {
    fn name(&self) -> String {
        "hello_world_tool".to_string()
    }

    fn description(&self) -> String {
        "Say hello".to_string()
    }

    fn schema(&self) -> JsonValue {
        JsonValue::Obj(vec![("type".to_string(), JsonValue::Str("object".to_string()))])
    }

    fn call(&self, _context: &Context, params: JsonValue) -> Result<CallToolResult, ToolError> {
        let int = match params.get(&"int".to_string()) {
            Some(JsonValue::Num(n)) => *n,
            _ => {
                return Err(ToolError::InvalidParameters(
                    "Missing or incorrect tool arguments".to_string(),
                ))
            }
        };
        Ok(text_tool_result(format!("Hello, {}!", int)))
    }
}

type Simple = MCPService<
    kuri::handler::ToolEntry<HelloWorldTool, kuri::handler::NoTools>,
    kuri::handler::NoPrompts,
    kuri::handler::NoSink,
>;

fn init_simple_server() -> Simple {
    MCPServiceBuilder::new("Simple server".to_string())
        .with_tool(HelloWorldTool)
        .build()
}

fn call_server(server: &Simple, method: &str, params: Option<Params>) -> Option<ResponseItem> {
    let request = MethodCall::new(RequestId::Num(1), method.to_string(), params);
    server.call(SendableMessage::Request(request))
}

#[test]
fn general_test_ping() {
    let server = init_simple_server();

    let response = call_server(&server, "ping", Some(Params::Object(vec![]))).unwrap();

    match response {
        ResponseItem::Success { result, .. } => {
            assert_eq!(to_json_string(&result), "{}");
        }
        ResponseItem::Error { .. } => {
            panic!("Expected success response");
        }
    }
}

#[test]
fn general_test_initialize() {
    let server = init_simple_server();

    let params = Params::Object(vec![
        (
            "protocolVersion".to_string(),
            JsonValue::Str("2024-11-05".to_string()),
        ),
        ("capabilities".to_string(), JsonValue::Obj(vec![])),
        (
            "clientInfo".to_string(),
            JsonValue::Obj(vec![
                ("name".to_string(), JsonValue::Str("ExampleClient".to_string())),
                ("version".to_string(), JsonValue::Str("1.0.0".to_string())),
            ]),
        ),
    ]);
    let response = call_server(&server, "initialize", Some(params)).unwrap();

    match response {
        ResponseItem::Success { id, result } => {
            assert_eq!(id, RequestId::Num(1));
            let expected = r#"{"protocolVersion":"2024-11-05","capabilities":{"tools":{"listChanged":false}},"serverInfo":{"name":"Simple server","version":"0.1.0"}}"#;
            assert_eq!(to_json_string(&result), expected);
        }
        ResponseItem::Error { .. } => {
            panic!("Expected success response");
        }
    }
}

#[test]
fn general_test_unknown_method() {
    let server = init_simple_server();

    let response = call_server(&server, "unknown_method", Some(Params::Object(vec![]))).unwrap();

    match response {
        ResponseItem::Success { .. } => {
            panic!("Expected error response");
        }
        ResponseItem::Error { error, .. } => {
            assert_eq!(error.code.code(), -32601);
        }
    }
}

struct Recorder {
    called: Arc<AtomicBool>,
}

impl NotificationSink for Recorder {
    fn handle(&self, _context: &Context, notification: Notification) {
        if notification.method == "my_notification" {
            self.called.store(true, Ordering::SeqCst);
        }
    }
}

#[test]
fn test_notification_handler() {
    let called = Arc::new(AtomicBool::new(false));
    let server = MCPServiceBuilder::new("Notification server".to_string())
        .with_notification_handler(Recorder { called: Arc::clone(&called) })
        .build();

    let response = server.call(SendableMessage::Notification(Notification::new(
        "my_notification".to_string(),
        None,
    )));

    assert!(response.is_none());
    assert!(called.load(Ordering::SeqCst));
}
