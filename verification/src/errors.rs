//! Errors raised while answering a request, and their wire form.
//!
//! These errors assume the request itself parsed; a malformed request is
//! answered at the envelope level instead.

use vstd::prelude::*;

use crate::jsonrpc::{ErrorCode, ErrorData, SpecErrorData};
use crate::prompt::{spec_prompt_error_text, PromptError};
use crate::resource::{spec_resource_error_text, ResourceError, SpecResourceError};
use crate::tool::{SpecToolError, ToolError};

verus! {

/// What went wrong while answering a well-formed request.
#[derive(Debug)]
pub enum RequestError {
    /// No route exists for the requested method.
    MethodNotFound(String),
    /// The request's parameters were missing or malformed.
    InvalidParams(String),
    /// The service failed internally.
    Internal(String),
    /// The named tool is not registered.
    ToolNotFound(String),
    /// The named resource is not known.
    ResourceNotFound(String),
    /// The named prompt is not registered.
    PromptNotFound(String),
    /// The service does not support this kind of message.
    Unsupported(String),
}

/// Model of a request error.
pub enum SpecRequestError {
    MethodNotFound(Seq<char>),
    InvalidParams(Seq<char>),
    Internal(Seq<char>),
    ToolNotFound(Seq<char>),
    ResourceNotFound(Seq<char>),
    PromptNotFound(Seq<char>),
    Unsupported(Seq<char>),
}

impl View for RequestError {
    type V = SpecRequestError;

    open spec fn view(&self) -> SpecRequestError {
        match self {
            RequestError::MethodNotFound(s) => SpecRequestError::MethodNotFound(s@),
            RequestError::InvalidParams(s) => SpecRequestError::InvalidParams(s@),
            RequestError::Internal(s) => SpecRequestError::Internal(s@),
            RequestError::ToolNotFound(s) => SpecRequestError::ToolNotFound(s@),
            RequestError::ResourceNotFound(s) => SpecRequestError::ResourceNotFound(s@),
            RequestError::PromptNotFound(s) => SpecRequestError::PromptNotFound(s@),
            RequestError::Unsupported(s) => SpecRequestError::Unsupported(s@),
        }
    }
}

/// The JSON-RPC code a request error is reported under. Every "not found"
/// of a named thing is an invalid-parameters error on the wire; only an
/// unknown method is a method-not-found.
pub open spec fn spec_request_error_code(e: SpecRequestError) -> ErrorCode {
    match e {
        SpecRequestError::MethodNotFound(_) => ErrorCode::MethodNotFound,
        SpecRequestError::InvalidParams(_) => ErrorCode::InvalidParams,
        SpecRequestError::Internal(_) => ErrorCode::InternalError,
        SpecRequestError::ToolNotFound(_) => ErrorCode::InvalidParams,
        SpecRequestError::ResourceNotFound(_) => ErrorCode::InvalidParams,
        SpecRequestError::PromptNotFound(_) => ErrorCode::InvalidParams,
        SpecRequestError::Unsupported(_) => ErrorCode::InvalidRequest,
    }
}

/// The one-sentence text of a request error.
pub open spec fn spec_request_error_text(e: SpecRequestError) -> Seq<char> {
    match e {
        SpecRequestError::MethodNotFound(s) => "Method not found: "@ + s,
        SpecRequestError::InvalidParams(s) => "Invalid parameters: "@ + s,
        SpecRequestError::Internal(s) => "Internal error: "@ + s,
        SpecRequestError::ToolNotFound(s) => "Tool not found: "@ + s,
        SpecRequestError::ResourceNotFound(s) => "Resource not found: "@ + s,
        SpecRequestError::PromptNotFound(s) => "Not found: "@ + s,
        SpecRequestError::Unsupported(s) => "This implementation doesn't support message type: "@
            + s,
    }
}

/// Model of the error body a request error is answered with.
pub open spec fn spec_request_error_data(e: SpecRequestError) -> SpecErrorData {
    SpecErrorData {
        code: spec_request_error_code(e),
        message: spec_request_error_text(e),
        data: None,
    }
}

impl RequestError {
    /// The error body this error is answered with: its code and its
    /// one-sentence text.
    pub fn into_error_data(self) -> (r: ErrorData)
        ensures
            r@ == spec_request_error_data(self@),
    {
        let code = match &self {
            RequestError::MethodNotFound(_) => ErrorCode::MethodNotFound,
            RequestError::InvalidParams(_) => ErrorCode::InvalidParams,
            RequestError::Internal(_) => ErrorCode::InternalError,
            RequestError::ToolNotFound(_) => ErrorCode::InvalidParams,
            RequestError::ResourceNotFound(_) => ErrorCode::InvalidParams,
            RequestError::PromptNotFound(_) => ErrorCode::InvalidParams,
            RequestError::Unsupported(_) => ErrorCode::InvalidRequest,
        };
        let message: String = match self {
            RequestError::MethodNotFound(s) => {
                let mut t: String = "Method not found: ".to_owned();
                t.append(s.as_str());
                t
            },
            RequestError::InvalidParams(s) => {
                let mut t: String = "Invalid parameters: ".to_owned();
                t.append(s.as_str());
                t
            },
            RequestError::Internal(s) => {
                let mut t: String = "Internal error: ".to_owned();
                t.append(s.as_str());
                t
            },
            RequestError::ToolNotFound(s) => {
                let mut t: String = "Tool not found: ".to_owned();
                t.append(s.as_str());
                t
            },
            RequestError::ResourceNotFound(s) => {
                let mut t: String = "Resource not found: ".to_owned();
                t.append(s.as_str());
                t
            },
            RequestError::PromptNotFound(s) => {
                let mut t: String = "Not found: ".to_owned();
                t.append(s.as_str());
                t
            },
            RequestError::Unsupported(s) => {
                let mut t: String = "This implementation doesn't support message type: "
                    .to_owned();
                t.append(s.as_str());
                t
            },
        };
        ErrorData::new(code, message)
    }

    /// The request error a tool error bubbles up as. An execution failure
    /// never reaches this: it is folded into a successful result first.
    pub fn of_tool_error(e: ToolError) -> (r: Self)
        requires
            !(e@ matches SpecToolError::ExecutionError(_)),
        ensures
            r@ == spec_request_error_of_tool(e@),
    {
        match e {
            ToolError::NotFound(msg) => RequestError::ToolNotFound(msg),
            ToolError::InvalidParameters(msg) => RequestError::InvalidParams(msg),
            ToolError::SchemaError(msg) => RequestError::InvalidParams(msg),
            ToolError::ExecutionError(_) => unreached(),
        }
    }

    /// The request error a resource error bubbles up as.
    pub fn of_resource_error(e: ResourceError) -> (r: Self)
        ensures
            r@ == spec_request_error_of_resource(e@),
    {
        match e {
            ResourceError::NotFound(msg) => RequestError::ResourceNotFound(msg),
            other => {
                let mut t: String = "Unknown resource error: ".to_owned();
                let text = other.text();
                t.append(text.as_str());
                RequestError::Internal(t)
            },
        }
    }

    /// The request error a prompt error bubbles up as: parameter problems
    /// and unknown prompts are invalid parameters on the wire, carrying the
    /// prompt error's own text; a handler failure is internal.
    pub fn of_prompt_error(e: PromptError) -> (r: Self)
        ensures
            r@ == spec_request_error_of_prompt(e@),
    {
        let text = e.text();
        match e {
            PromptError::InvalidParameters(_) => RequestError::InvalidParams(text),
            PromptError::NotFound(_) => RequestError::InvalidParams(text),
            PromptError::InternalError(_) => RequestError::Internal(text),
        }
    }
}

/// Model of the tool-error conversion.
pub open spec fn spec_request_error_of_tool(e: SpecToolError) -> SpecRequestError {
    match e {
        SpecToolError::NotFound(msg) => SpecRequestError::ToolNotFound(msg),
        SpecToolError::InvalidParameters(msg) => SpecRequestError::InvalidParams(msg),
        SpecToolError::SchemaError(msg) => SpecRequestError::InvalidParams(msg),
        SpecToolError::ExecutionError(msg) => SpecRequestError::Internal(msg),
    }
}

/// Model of the resource-error conversion.
pub open spec fn spec_request_error_of_resource(e: SpecResourceError) -> SpecRequestError {
    match e {
        SpecResourceError::NotFound(msg) => SpecRequestError::ResourceNotFound(msg),
        _ => SpecRequestError::Internal("Unknown resource error: "@ + spec_resource_error_text(e)),
    }
}

/// Model of the prompt-error conversion.
pub open spec fn spec_request_error_of_prompt(e: crate::prompt::SpecPromptError) -> SpecRequestError {
    match e {
        crate::prompt::SpecPromptError::InvalidParameters(_) => SpecRequestError::InvalidParams(
            spec_prompt_error_text(e),
        ),
        crate::prompt::SpecPromptError::NotFound(_) => SpecRequestError::InvalidParams(
            spec_prompt_error_text(e),
        ),
        crate::prompt::SpecPromptError::InternalError(_) => SpecRequestError::Internal(
            spec_prompt_error_text(e),
        ),
    }
}

} // verus!
