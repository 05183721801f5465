use kuri::context::{Context, Inject};
use kuri::handler::{NoPrompts, NoSink, NoTools, ToolEntry, ToolHandler};
use kuri::json::JsonValue;
use kuri::jsonrpc::{ErrorCode, MethodCall, Params, RequestId, ResponseItem, SendableMessage};
use kuri::messages::CallToolResult;
use kuri::render::to_json_string;
use kuri::response::{empty_tool_result, text_tool_result};
use kuri::service::{MCPService, MCPServiceBuilder, MessageService};
use kuri::tool::ToolError;
use std::sync::atomic::{AtomicI64, Ordering};

pub struct Calculator;

fn calculator_schema() -> JsonValue {
    JsonValue::Obj(vec![
        (
            "$schema".to_string(),
            JsonValue::Str("http://json-schema.org/draft-07/schema#".to_string()),
        ),
        (
            "properties".to_string(),
            JsonValue::Obj(vec![
                (
                    "operation".to_string(),
                    JsonValue::Obj(vec![
                        (
                            "description".to_string(),
                            JsonValue::Str(
                                "The operation to perform (add, subtract, multiply, divide)"
                                    .to_string(),
                            ),
                        ),
                        ("type".to_string(), JsonValue::Str("string".to_string())),
                    ]),
                ),
                (
                    "x".to_string(),
                    JsonValue::Obj(vec![
                        (
                            "description".to_string(),
                            JsonValue::Str("First number in the calculation".to_string()),
                        ),
                        ("format".to_string(), JsonValue::Str("int32".to_string())),
                        ("type".to_string(), JsonValue::Str("integer".to_string())),
                    ]),
                ),
                (
                    "y".to_string(),
                    JsonValue::Obj(vec![
                        (
                            "description".to_string(),
                            JsonValue::Str("Second number in the calculation".to_string()),
                        ),
                        ("format".to_string(), JsonValue::Str("int32".to_string())),
                        ("type".to_string(), JsonValue::Str("integer".to_string())),
                    ]),
                ),
            ]),
        ),
        (
            "required".to_string(),
            JsonValue::Arr(vec![
                JsonValue::Str("operation".to_string()),
                JsonValue::Str("x".to_string()),
                JsonValue::Str("y".to_string()),
            ]),
        ),
        (
            "title".to_string(),
            JsonValue::Str("CalculatorParameters".to_string()),
        ),
        ("type".to_string(), JsonValue::Str("object".to_string())),
    ])
}

fn calculate(x: i64, y: i64, operation: &str) -> Result<i64, ToolError> {
    match operation {
        "add" => Ok(x + y),
        "subtract" => Ok(x - y),
        "multiply" => Ok(x * y),
        "divide" => {
            if y == 0 {
                Err(ToolError::ExecutionError("Division by zero".to_string()))
            } else {
                Ok(x / y)
            }
        }
        _ => Err(ToolError::InvalidParameters(format!(
            "Unknown operation: {}",
            operation
        ))),
    }
}

fn calculator_call(params: &JsonValue) -> Result<CallToolResult, ToolError> {
    let x = match params.get(&"x".to_string()) {
        Some(JsonValue::Num(n)) => *n,
        _ => {
            return Err(ToolError::InvalidParameters(
                "Missing or incorrect tool arguments".to_string(),
            ))
        }
    };
    let y = match params.get(&"y".to_string()) {
        Some(JsonValue::Num(n)) => *n,
        _ => {
            return Err(ToolError::InvalidParameters(
                "Missing or incorrect tool arguments".to_string(),
            ))
        }
    };
    let operation = match params.get(&"operation".to_string()) {
        Some(JsonValue::Str(s)) => s.clone(),
        _ => {
            return Err(ToolError::InvalidParameters(
                "Missing or incorrect tool arguments".to_string(),
            ))
        }
    };
    let value = calculate(x, y, &operation)?;
    Ok(text_tool_result(format!("{}", value)))
}

impl ToolHandler for Calculator {
    fn name(&self) -> String {
        "calculator".to_string()
    }

    fn description(&self) -> String {
        "Perform basic arithmetic operations".to_string()
    }

    fn schema(&self) -> JsonValue {
        calculator_schema()
    }

    fn call(&self, _context: &Context, params: JsonValue) -> Result<CallToolResult, ToolError> {
        calculator_call(&params)
    }
}

pub struct CalculatorNoDesc;

impl ToolHandler for CalculatorNoDesc {
    fn name(&self) -> String {
        "calculator_no_desc".to_string()
    }

    fn description(&self) -> String {
        String::new()
    }

    fn schema(&self) -> JsonValue {
        calculator_schema()
    }

    fn call(&self, _context: &Context, params: JsonValue) -> Result<CallToolResult, ToolError> {
        calculator_call(&params)
    }
}

struct Counter {
    inner: AtomicI64,
}

struct Increment;

impl ToolHandler for Increment {
    fn name(&self) -> String {
        "increment".to_string()
    }

    fn description(&self) -> String {
        "Increment the counter by a specified quantity".to_string()
    }

    fn schema(&self) -> JsonValue {
        JsonValue::Obj(vec![("type".to_string(), JsonValue::Str("object".to_string()))])
    }

    fn call(&self, context: &Context, params: JsonValue) -> Result<CallToolResult, ToolError> {
        let quantity = match params.get(&"quantity".to_string()) {
            Some(JsonValue::Num(n)) => *n,
            _ => {
                return Err(ToolError::InvalidParameters(
                    "Missing or incorrect tool arguments".to_string(),
                ))
            }
        };
        let counter: &Inject<Counter> = context.get().expect("counter state is registered");
        counter.get_ref().inner.fetch_add(quantity, Ordering::SeqCst);
        Ok(empty_tool_result())
    }
}

struct GetValue;

impl ToolHandler for GetValue {
    fn name(&self) -> String {
        "get_value".to_string()
    }

    fn description(&self) -> String {
        "Get current value of counter".to_string()
    }

    fn schema(&self) -> JsonValue {
        JsonValue::Obj(vec![("type".to_string(), JsonValue::Str("object".to_string()))])
    }

    fn call(&self, context: &Context, _params: JsonValue) -> Result<CallToolResult, ToolError> {
        let counter: &Inject<Counter> = context.get().expect("counter state is registered");
        let value = counter.get_ref().inner.load(Ordering::SeqCst);
        Ok(text_tool_result(format!("{}", value)))
    }
}

type SimpleServer = MCPService<ToolEntry<Calculator, NoTools>, NoPrompts, NoSink>;

fn init_tool_server_simple() -> SimpleServer {
    MCPServiceBuilder::new("Calculator".to_string())
        .with_tool(Calculator)
        .build()
}

fn init_tool_server_no_desc(
) -> MCPService<ToolEntry<CalculatorNoDesc, NoTools>, NoPrompts, NoSink> {
    MCPServiceBuilder::new("Calculator".to_string())
        .with_tool(CalculatorNoDesc)
        .build()
}

fn init_tool_server_with_ctx(
) -> MCPService<ToolEntry<GetValue, ToolEntry<Increment, NoTools>>, NoPrompts, NoSink> {
    MCPServiceBuilder::new("Counter".to_string())
        .with_tool(Increment)
        .with_tool(GetValue)
        .with_state(Inject::new(Counter { inner: AtomicI64::new(0) }))
        .build()
}

fn call<S: MessageService>(server: &S, method: &str, params: Params) -> Option<ResponseItem> {
    let request = MethodCall::new(RequestId::Num(1), method.to_string(), Some(params));
    server.call_message(SendableMessage::Request(request))
}

fn tool_call_params(name: &str, arguments: Option<JsonValue>) -> Params {
    let mut pairs = vec![("name".to_string(), JsonValue::Str(name.to_string()))];
    if let Some(args) = arguments {
        pairs.push(("arguments".to_string(), args));
    }
    Params::Object(pairs)
}

fn calc_args(x: i64, y: i64, operation: &str) -> JsonValue {
    JsonValue::Obj(vec![
        ("x".to_string(), JsonValue::Num(x)),
        ("y".to_string(), JsonValue::Num(y)),
        ("operation".to_string(), JsonValue::Str(operation.to_string())),
    ])
}

#[test]
fn tools_test_tools_list() {
    let server = init_tool_server_simple();

    // Basic list
    let response = call(&server, "tools/list", Params::Object(vec![])).unwrap();
    validate_tools_list(response);

    // List with unnecessary params
    let response = call(
        &server,
        "tools/list",
        Params::Object(vec![
            (
                "cursor".to_string(),
                JsonValue::Str("optional-cursor-value".to_string()),
            ),
            (
                "random_param".to_string(),
                JsonValue::Str("some-value".to_string()),
            ),
        ]),
    )
    .unwrap();
    validate_tools_list(response);
}

fn validate_tools_list(response: ResponseItem) {
    match response {
        ResponseItem::Success { id, result } => {
            assert_eq!(id, RequestId::Num(1));
            let expected_schema = to_json_string(&calculator_schema());
            let expected = format!(
                r#"{{"tools":[{{"name":"calculator","description":"Perform basic arithmetic operations","inputSchema":{}}}]}}"#,
                expected_schema
            );
            assert_eq!(to_json_string(&result), expected);
        }
        ResponseItem::Error { .. } => {
            panic!("Expected success response");
        }
    }
}

#[test]
fn tools_test_tools_call_simple_text() {
    let server = init_tool_server_simple();
    let response = call(
        &server,
        "tools/call",
        tool_call_params("calculator", Some(calc_args(1, 2, "add"))),
    )
    .unwrap();
    expect_text_result(response, "3");
}

#[test]
fn tools_test_tools_call_no_tool_descriptions() {
    let server = init_tool_server_no_desc();
    let response = call(
        &server,
        "tools/call",
        tool_call_params("calculator_no_desc", Some(calc_args(1, 2, "add"))),
    )
    .unwrap();
    expect_text_result(response, "3");
}

fn expect_text_result(response: ResponseItem, text: &str) {
    match response {
        ResponseItem::Success { id, result } => {
            assert_eq!(id, RequestId::Num(1));
            let expected = format!(r#"{{"content":[{{"type":"text","text":"{}"}}]}}"#, text);
            assert_eq!(to_json_string(&result), expected);
        }
        ResponseItem::Error { .. } => {
            panic!("Expected success response");
        }
    }
}

#[test]
fn tools_test_tools_call_with_invalid_parameters() {
    let server = init_tool_server_simple();

    // Parameters required by tool, but not given in request
    let response = call(&server, "tools/call", tool_call_params("calculator", None)).unwrap();

    match response {
        ResponseItem::Error { id, error } => {
            assert_eq!(id, RequestId::Num(1));
            assert_eq!(error.code, ErrorCode::InvalidParams);
            assert_eq!(
                error.message,
                "Invalid parameters: Missing or incorrect tool arguments"
            );
        }
        _ => {
            panic!("Expected error response");
        }
    }

    // Not all required params were given
    let response = call(
        &server,
        "tools/call",
        tool_call_params(
            "calculator",
            Some(JsonValue::Obj(vec![
                ("x".to_string(), JsonValue::Num(1)),
                ("y".to_string(), JsonValue::Num(2)),
            ])),
        ),
    )
    .unwrap();

    match response {
        ResponseItem::Success { .. } => {
            panic!("Expected error response");
        }
        ResponseItem::Error { id, error } => {
            assert_eq!(id, RequestId::Num(1));
            assert_eq!(error.code, ErrorCode::InvalidParams);
            assert_eq!(
                error.message,
                "Invalid parameters: Missing or incorrect tool arguments"
            );
        }
    }
}

#[test]
fn tools_test_tools_call_invalid_tool() {
    let server = init_tool_server_simple();

    let response = call(
        &server,
        "tools/call",
        tool_call_params("some_invalid_tool", Some(JsonValue::Obj(vec![]))),
    )
    .unwrap();

    match response {
        ResponseItem::Success { .. } => {
            panic!("Expected error response");
        }
        ResponseItem::Error { id, error } => {
            assert_eq!(id, RequestId::Num(1));
            assert_eq!(error.code, ErrorCode::InvalidParams);
            assert_eq!(error.message, "Tool not found: some_invalid_tool");
        }
    }
}

#[test]
fn tools_test_tools_call_with_context() {
    let server = init_tool_server_with_ctx();

    // First call the increment tool
    let response = call(
        &server,
        "tools/call",
        tool_call_params(
            "increment",
            Some(JsonValue::Obj(vec![(
                "quantity".to_string(),
                JsonValue::Num(1),
            )])),
        ),
    )
    .unwrap();

    match response {
        ResponseItem::Success { id, result } => {
            assert_eq!(id, RequestId::Num(1));
            assert_eq!(to_json_string(&result), r#"{"content":[]}"#);
        }
        ResponseItem::Error { .. } => {
            panic!("Expected success response");
        }
    }

    // Then get the value
    let response = call(
        &server,
        "tools/call",
        tool_call_params("get_value", Some(JsonValue::Obj(vec![]))),
    )
    .unwrap();
    expect_text_result(response, "1");

    // Request may provide no arguments, if no arguments are needed by the tool
    let response = call(&server, "tools/call", tool_call_params("get_value", None)).unwrap();
    expect_text_result(response, "1");
}

#[test]
fn test_division_by_zero_is_logical_error() {
    let server = init_tool_server_simple();
    let response = call(
        &server,
        "tools/call",
        tool_call_params("calculator", Some(calc_args(1, 0, "divide"))),
    )
    .unwrap();

    match response {
        ResponseItem::Success { id, result } => {
            assert_eq!(id, RequestId::Num(1));
            let expected = r#"{"content":[{"type":"text","text":"Error: Division by zero"}],"isError":true}"#;
            assert_eq!(to_json_string(&result), expected);
        }
        ResponseItem::Error { .. } => {
            panic!("Expected a successful envelope carrying the logical error");
        }
    }
}

#[test]
fn test_initialize_calculator() {
    let server = init_tool_server_simple();
    let response = call(&server, "initialize", Params::Object(vec![])).unwrap();
    match response {
        ResponseItem::Success { id, result } => {
            assert_eq!(id, RequestId::Num(1));
            let expected = r#"{"protocolVersion":"2024-11-05","capabilities":{"tools":{"listChanged":false}},"serverInfo":{"name":"Calculator","version":"0.1.0"}}"#;
            assert_eq!(to_json_string(&result), expected);
        }
        ResponseItem::Error { .. } => {
            panic!("Expected success response");
        }
    }
}

struct CalculatorVariant;

impl ToolHandler for CalculatorVariant {
    fn name(&self) -> String {
        "calculator".to_string()
    }

    fn description(&self) -> String {
        "A replacement calculator".to_string()
    }

    fn schema(&self) -> JsonValue {
        JsonValue::Obj(vec![("type".to_string(), JsonValue::Str("object".to_string()))])
    }

    fn call(&self, _context: &Context, _params: JsonValue) -> Result<CallToolResult, ToolError> {
        Ok(text_tool_result("variant".to_string()))
    }
}

#[test]
fn test_duplicate_tool_name_replaces() {
    // Registering a second tool under an existing name replaces the first:
    // one list entry, and calls go to the newer handler.
    let server = MCPServiceBuilder::new("Calculator".to_string())
        .with_tool(Calculator)
        .with_tool(CalculatorVariant)
        .build();

    let response = call(&server, "tools/list", Params::Object(vec![])).unwrap();
    match response {
        ResponseItem::Success { result, .. } => {
            let schema = to_json_string(&JsonValue::Obj(vec![(
                "type".to_string(),
                JsonValue::Str("object".to_string()),
            )]));
            let expected = format!(
                r#"{{"tools":[{{"name":"calculator","description":"A replacement calculator","inputSchema":{}}}]}}"#,
                schema
            );
            assert_eq!(to_json_string(&result), expected);
        }
        ResponseItem::Error { .. } => panic!("Expected success response"),
    }

    let response = call(
        &server,
        "tools/call",
        tool_call_params("calculator", Some(JsonValue::Obj(vec![]))),
    )
    .unwrap();
    expect_text_result(response, "variant");
}
