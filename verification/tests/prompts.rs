use kuri::context::Context;
use kuri::handler::{NoPrompts, NoSink, NoTools, PromptEntry, PromptHandler};
use kuri::json::JsonValue;
use kuri::jsonrpc::{ErrorCode, MethodCall, Params, RequestId, ResponseItem, SendableMessage};
use kuri::prompt::{PromptArgument, PromptError};
use kuri::render::to_json_string;
use kuri::service::{MCPService, MCPServiceBuilder, MessageService};

struct ReviewCode;

impl PromptHandler for ReviewCode {
    fn name(&self) -> String {
        "review_code".to_string()
    }

    fn description(&self) -> Option<String> {
        Some("Generates a code review prompt for the provided code".to_string())
    }

    fn arguments(&self) -> Option<Vec<PromptArgument>> {
        Some(vec![PromptArgument {
            name: "code".to_string(),
            description: Some("The code to review".to_string()),
            required: Some(true),
        }])
    }

    fn call(
        &self,
        _context: &Context,
        params: Vec<(String, JsonValue)>,
    ) -> Result<String, PromptError> {
        let code = params.iter().find(|(k, _)| k == "code");
        match code {
            Some((_, JsonValue::Str(code))) => Ok(format!("Please review this code:\n\n{}", code)),
            _ => Err(PromptError::InvalidParameters(
                "Missing or incorrect prompt arguments".to_string(),
            )),
        }
    }
}

struct SummariseText;

impl PromptHandler for SummariseText {
    fn name(&self) -> String {
        "summarise_text".to_string()
    }

    fn description(&self) -> Option<String> {
        Some("Generates a prompt for summarising text".to_string())
    }

    fn arguments(&self) -> Option<Vec<PromptArgument>> {
        Some(vec![
            PromptArgument {
                name: "text".to_string(),
                description: Some("The text to summarise".to_string()),
                required: Some(true),
            },
            PromptArgument {
                name: "format".to_string(),
                description: Some(
                    "Optional format for the summary (e.g., 'bullet points', 'paragraph')"
                        .to_string(),
                ),
                required: Some(false),
            },
        ])
    }

    fn call(
        &self,
        _context: &Context,
        params: Vec<(String, JsonValue)>,
    ) -> Result<String, PromptError> {
        let text = match params.iter().find(|(k, _)| k == "text") {
            Some((_, JsonValue::Str(text))) => text.clone(),
            _ => {
                return Err(PromptError::InvalidParameters(
                    "Missing or incorrect prompt arguments".to_string(),
                ))
            }
        };
        let format_instruction = match params.iter().find(|(k, _)| k == "format") {
            Some((_, JsonValue::Str(f))) => format!(" in the format of {}", f),
            _ => String::new(),
        };
        Ok(format!(
            "Please summarize the following text{}:\n\n{}",
            format_instruction, text
        ))
    }
}

type PromptServer =
    MCPService<NoTools, PromptEntry<SummariseText, PromptEntry<ReviewCode, NoPrompts>>, NoSink>;

fn init_prompt_server() -> PromptServer {
    MCPServiceBuilder::new("Prompt Server".to_string())
        .with_prompt(ReviewCode)
        .with_prompt(SummariseText)
        .build()
}

fn call(server: &PromptServer, method: &str, params: Params) -> Option<ResponseItem> {
    let request = MethodCall::new(RequestId::Num(1), method.to_string(), Some(params));
    server.call_message(SendableMessage::Request(request))
}

fn get_prompt_params(name: &str, arguments: Vec<(String, JsonValue)>) -> Params {
    Params::Object(vec![
        ("name".to_string(), JsonValue::Str(name.to_string())),
        ("arguments".to_string(), JsonValue::Obj(arguments)),
    ])
}

#[test]
fn prompts_test_prompts_list() {
    let server = init_prompt_server();

    let response = call(&server, "prompts/list", Params::Object(vec![])).unwrap();

    match response {
        ResponseItem::Success { id, result } => {
            assert_eq!(id, RequestId::Num(1));
            let review = r#"{"name":"review_code","description":"Generates a code review prompt for the provided code","arguments":[{"name":"code","description":"The code to review","required":true}]}"#;
            let summarise = r#"{"name":"summarise_text","description":"Generates a prompt for summarising text","arguments":[{"name":"text","description":"The text to summarise","required":true},{"name":"format","description":"Optional format for the summary (e.g., 'bullet points', 'paragraph')","required":false}]}"#;
            let expected = format!(r#"{{"prompts":[{},{}]}}"#, review, summarise);
            assert_eq!(to_json_string(&result), expected);
        }
        ResponseItem::Error { .. } => {
            panic!("Expected success response");
        }
    }
}

#[test]
fn prompts_test_prompts_get_simple() {
    let server = init_prompt_server();

    let response = call(
        &server,
        "prompts/get",
        get_prompt_params(
            "review_code",
            vec![("code".to_string(), JsonValue::Str("123".to_string()))],
        ),
    )
    .unwrap();

    match response {
        ResponseItem::Success { id, result } => {
            assert_eq!(id, RequestId::Num(1));
            let expected = r#"{"messages":[{"role":"user","content":{"type":"text","text":"Please review this code:\n\n123"}}]}"#;
            assert_eq!(to_json_string(&result), expected);
        }
        ResponseItem::Error { .. } => {
            panic!("Expected success response");
        }
    }
}

#[test]
fn prompts_test_prompts_get_invalid_prompt() {
    let server = init_prompt_server();

    let response = call(
        &server,
        "prompts/get",
        get_prompt_params("some_invalid_prompt", vec![]),
    )
    .unwrap();

    match response {
        ResponseItem::Error { id, error } => {
            assert_eq!(id, RequestId::Num(1));
            assert_eq!(error.code, ErrorCode::InvalidParams);
            assert_eq!(
                error.message,
                "Invalid parameters: Prompt not found: some_invalid_prompt"
            );
        }
        _ => {
            panic!("Expected error response");
        }
    }
}

#[test]
fn prompts_test_prompts_get_optional_params() {
    let server = init_prompt_server();

    // Include the optional format parameter
    let response = call(
        &server,
        "prompts/get",
        get_prompt_params(
            "summarise_text",
            vec![
                ("text".to_string(), JsonValue::Str("123".to_string())),
                (
                    "format".to_string(),
                    JsonValue::Str("bullet points".to_string()),
                ),
            ],
        ),
    )
    .unwrap();

    match response {
        ResponseItem::Success { id, result } => {
            assert_eq!(id, RequestId::Num(1));
            let expected = r#"{"messages":[{"role":"user","content":{"type":"text","text":"Please summarize the following text in the format of bullet points:\n\n123"}}]}"#;
            assert_eq!(to_json_string(&result), expected);
        }
        ResponseItem::Error { .. } => {
            panic!("Expected success response");
        }
    }

    // Don't include the format parameter
    let response = call(
        &server,
        "prompts/get",
        get_prompt_params(
            "summarise_text",
            vec![("text".to_string(), JsonValue::Str("123".to_string()))],
        ),
    )
    .unwrap();

    match response {
        ResponseItem::Success { id, result } => {
            assert_eq!(id, RequestId::Num(1));
            let expected = r#"{"messages":[{"role":"user","content":{"type":"text","text":"Please summarize the following text:\n\n123"}}]}"#;
            assert_eq!(to_json_string(&result), expected);
        }
        ResponseItem::Error { .. } => {
            panic!("Expected success response");
        }
    }
}

#[test]
fn test_prompts_get_requires_arguments_object() {
    let server = init_prompt_server();

    let response = call(
        &server,
        "prompts/get",
        Params::Object(vec![(
            "name".to_string(),
            JsonValue::Str("review_code".to_string()),
        )]),
    )
    .unwrap();

    match response {
        ResponseItem::Error { id, error } => {
            assert_eq!(id, RequestId::Num(1));
            assert_eq!(error.code, ErrorCode::InvalidParams);
            assert_eq!(error.message, "Invalid parameters: Missing arguments object");
        }
        _ => {
            panic!("Expected error response");
        }
    }
}

struct FailingPrompt;

impl PromptHandler for FailingPrompt {
    fn name(&self) -> String {
        "failing".to_string()
    }

    fn description(&self) -> Option<String> {
        None
    }

    fn arguments(&self) -> Option<Vec<PromptArgument>> {
        None
    }

    fn call(
        &self,
        _context: &Context,
        _params: Vec<(String, JsonValue)>,
    ) -> Result<String, PromptError> {
        Err(PromptError::InternalError("broken template".to_string()))
    }
}

#[test]
fn test_prompts_get_internal_error() {
    let server = MCPServiceBuilder::new("Prompt Server".to_string())
        .with_prompt(FailingPrompt)
        .build();
    let request = MethodCall::new(
        RequestId::Num(9),
        "prompts/get".to_string(),
        Some(get_prompt_params("failing", vec![])),
    );
    let response = server
        .call_message(SendableMessage::Request(request))
        .unwrap();
    match response {
        ResponseItem::Error { id, error } => {
            assert_eq!(id, RequestId::Num(9));
            assert_eq!(error.code, ErrorCode::InternalError);
            assert_eq!(
                error.message,
                "Internal error: Internal error: broken template"
            );
        }
        _ => panic!("Expected error response"),
    }
}
