use kuri::context::Context;
use kuri::handler::{NoPrompts, NoSink, NoTools, ToolEntry, ToolHandler};
use kuri::json::JsonValue;
use kuri::messages::CallToolResult;
use kuri::response::text_tool_result;
use kuri::serve::{parse_message_line, serve_line, MessageParseError};
use kuri::server::Server;
use kuri::service::{MCPRequestService, MCPService, MCPServiceBuilder};
use kuri::service_ext::ServiceExt;
use kuri::tool::ToolError;

struct Calculator;

impl ToolHandler for Calculator {
    fn name(&self) -> String {
        "calculator".to_string()
    }

    fn description(&self) -> String {
        "Perform basic arithmetic operations".to_string()
    }

    fn schema(&self) -> JsonValue {
        JsonValue::Obj(vec![("type".to_string(), JsonValue::Str("object".to_string()))])
    }

    fn call(&self, _context: &Context, params: JsonValue) -> Result<CallToolResult, ToolError> {
        let x = match params.get(&"x".to_string()) {
            Some(JsonValue::Num(n)) => *n,
            _ => {
                return Err(ToolError::InvalidParameters(
                    "Missing or incorrect tool arguments".to_string(),
                ))
            }
        };
        let y = match params.get(&"y".to_string()) {
            Some(JsonValue::Num(n)) => *n,
            _ => {
                return Err(ToolError::InvalidParameters(
                    "Missing or incorrect tool arguments".to_string(),
                ))
            }
        };
        let operation = match params.get(&"operation".to_string()) {
            Some(JsonValue::Str(s)) => s.clone(),
            _ => {
                return Err(ToolError::InvalidParameters(
                    "Missing or incorrect tool arguments".to_string(),
                ))
            }
        };
        let value = match operation.as_str() {
            "add" => x + y,
            "subtract" => x - y,
            "multiply" => x * y,
            "divide" => {
                if y == 0 {
                    return Err(ToolError::ExecutionError("Division by zero".to_string()));
                }
                x / y
            }
            _ => {
                return Err(ToolError::InvalidParameters(format!(
                    "Unknown operation: {}",
                    operation
                )))
            }
        };
        Ok(text_tool_result(format!("{}", value)))
    }
}

type LineService =
    MCPRequestService<MCPService<ToolEntry<Calculator, NoTools>, NoPrompts, NoSink>>;

fn init_service() -> LineService {
    MCPServiceBuilder::new("Calculator".to_string())
        .with_tool(Calculator)
        .build()
        .into_request_service()
}

fn request(input: &str) -> String {
    let service = init_service();
    serve_line(&service, input).expect("expected a response line")
}

fn normalise(text: &str) -> serde_json::Value {
    serde_json::from_str(text).expect("response must be valid JSON")
}

fn assert_json_text_eq(actual: &str, expected: &str) {
    assert_eq!(normalise(actual), normalise(expected));
}

#[test]
fn test_invalid_json() {
    let response = request(r#"{"jsonrpc": "2.0", "method": "foobar, "params": "bar", "baz]"#);
    assert_json_text_eq(
        &response,
        r#"{"jsonrpc": "2.0", "error": {"code": -32700, "message": "JSON parsing error when deserialising the message"}, "id": null}"#,
    );
}

#[test]
fn test_invalid_request() {
    let response = request(r#"{}"#);
    assert_json_text_eq(
        &response,
        r#"{"jsonrpc": "2.0", "error": {"code": -32600, "message": "Invalid request"}, "id": null}"#,
    );

    let response = request(r#"{"jsonrpc": "2.0", "method": 1, "params": "bar"}"#);
    assert_json_text_eq(
        &response,
        r#"{"jsonrpc":"2.0", "error": {"code": -32600, "message": "Invalid request"}, "id": null}"#,
    );
}

#[test]
fn test_method_not_found() {
    let response =
        request(r#"{"jsonrpc": "2.0", "method": "non_existent_method", "params": {}, "id": 1}"#);
    assert_json_text_eq(
        &response,
        r#"{"jsonrpc": "2.0", "error": {"code": -32601, "message": "Method not found: non_existent_method"}, "id": 1}"#,
    );
}

#[test]
fn test_logical_param_errors() {
    let response = request(
        r#"{"jsonrpc": "2.0", "method": "tools/call", "params": {"name": "calculator", "arguments": {"x": "not_a_number", "y": 2, "operation": "add"}}, "id": 1}"#,
    );
    assert_json_text_eq(
        &response,
        r#"{"jsonrpc": "2.0", "error": {"code": -32602, "message": "Invalid parameters: Missing or incorrect tool arguments"}, "id": 1}"#,
    );

    let response = request(
        r#"{"jsonrpc": "2.0", "method": "tools/call", "params": {"name": "calculator", "arguments": {"x": 1, "y": 2, "operation": "invalid_operation"}}, "id": 1}"#,
    );
    assert_json_text_eq(
        &response,
        r#"{"jsonrpc": "2.0", "error": {"code": -32602, "message": "Invalid parameters: Unknown operation: invalid_operation"}, "id": 1}"#,
    );
}

#[test]
fn test_incorrect_jsonrpc_version() {
    // JSON-RPC v1.0
    let response = request(r#"{"jsonrpc": "1.0", "method": "initialize", "params": {}, "id": 1}"#);
    assert_json_text_eq(
        &response,
        r#"{"jsonrpc": "2.0", "error": {"code": -32600, "message": "Invalid request"}, "id": 1}"#,
    );

    // missing JSON-RPC version
    let response = request(r#"{"method": "initialize", "params": {}, "id": 1}"#);
    assert_json_text_eq(
        &response,
        r#"{"jsonrpc": "2.0", "error": {"code": -32600, "message": "Invalid request"}, "id": 1}"#,
    );
}

#[test]
fn test_batch_no_valid_messages() {
    // Empty array
    let response = request(r#"[]"#);
    assert_json_text_eq(
        &response,
        r#"{"jsonrpc": "2.0", "error": {"code": -32600, "message": "Invalid request: batch is empty"}, "id": null}"#,
    );

    // Non-empty batch (one message), but no valid message
    let response = request(r#"[1]"#);
    assert_json_text_eq(
        &response,
        r#"[{"jsonrpc": "2.0", "error": {"code": -32600, "message": "Invalid request"}, "id": null}]"#,
    );

    // Non-empty batch (multiple messages), but no valid message
    let response = request(r#"[1,2]"#);
    assert_json_text_eq(
        &response,
        r#"[{"jsonrpc": "2.0", "error": {"code": -32600, "message": "Invalid request"}, "id": null},{"jsonrpc": "2.0", "error": {"code": -32600, "message": "Invalid request"}, "id": null}]"#,
    );
}

#[test]
fn test_batch_invalid_json() {
    let response = request(
        r#"[{"jsonrpc": "2.0", "method": "sum", "params": [1,2,4], "id": "1"},{"jsonrpc": "2.0", "method"]"#,
    );
    assert_json_text_eq(
        &response,
        r#"{"jsonrpc": "2.0", "error": {"code": -32700, "message": "JSON parsing error when deserialising the message"}, "id": null}"#,
    );
}

#[test]
fn test_ping_line_exact() {
    let response = request(r#"{"jsonrpc":"2.0","id":1,"method":"ping"}"#);
    assert_eq!(response, r#"{"jsonrpc":"2.0","id":1,"result":{}}"#);
}

#[test]
fn test_batch_with_mixed_messages() {
    // A ping, a notification and a wrong-version envelope: two items come
    // back, the notification is omitted, the bad envelope keeps its id.
    let service = init_service();
    let response = serve_line(
        &service,
        r#"[{"jsonrpc":"2.0","id":1,"method":"ping"},{"jsonrpc":"2.0","method":"note"},{"jsonrpc":"1.0","id":7,"method":"ping"}]"#,
    )
    .expect("expected a response line");
    assert_json_text_eq(
        &response,
        r#"[{"jsonrpc":"2.0","id":1,"result":{}},{"jsonrpc":"2.0","id":7,"error":{"code":-32600,"message":"Invalid request"}}]"#,
    );
}

#[test]
fn test_single_notification_emits_nothing() {
    let service = init_service();
    let response = serve_line(&service, r#"{"jsonrpc":"2.0","method":"note"}"#);
    assert!(response.is_none());
}

#[test]
fn test_message_level_server() {
    let server = Server::new(
        MCPServiceBuilder::new("Calculator".to_string())
            .with_tool(Calculator)
            .build(),
    );

    let msg = parse_message_line(r#"{"jsonrpc":"2.0","id":1,"method":"ping"}"#).unwrap();
    let out = server.process_message(msg).expect("ping expects a response");
    assert_eq!(out, r#"{"jsonrpc":"2.0","id":1,"result":{}}"#);

    let msg = parse_message_line(r#"{"jsonrpc":"2.0","method":"note"}"#).unwrap();
    assert!(server.process_message(msg).is_none());

    // This transport refuses wrong-version envelopes instead of answering.
    let err = parse_message_line(r#"{"jsonrpc":"1.0","id":1,"method":"ping"}"#).unwrap_err();
    assert_eq!(err, MessageParseError::NotJsonRpc2Message);

    let err = parse_message_line(r#"[1,2]"#).unwrap_err();
    assert_eq!(err, MessageParseError::NotJsonRpc2Message);

    let err = parse_message_line("nonsense").unwrap_err();
    assert_eq!(err, MessageParseError::Deserialisation);
}

#[test]
fn test_resources_list_is_empty() {
    let response = request(r#"{"jsonrpc":"2.0","id":4,"method":"resources/list"}"#);
    assert_eq!(response, r#"{"jsonrpc":"2.0","id":4,"result":{"resources":[]}}"#);
}

#[test]
fn test_resources_read_is_stubbed() {
    let response = request(
        r#"{"jsonrpc":"2.0","id":5,"method":"resources/read","params":{"uri":"file:///x"}}"#,
    );
    assert_json_text_eq(
        &response,
        r#"{"jsonrpc":"2.0","id":5,"error":{"code":-32603,"message":"Internal error: Unknown resource error: Execution failed: Reading resources is not yet implemented"}}"#,
    );

    let response =
        request(r#"{"jsonrpc":"2.0","id":5,"method":"resources/read","params":{}}"#);
    assert_json_text_eq(
        &response,
        r#"{"jsonrpc":"2.0","id":5,"error":{"code":-32602,"message":"Invalid parameters: Missing resource URI"}}"#,
    );
}
