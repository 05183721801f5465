//! A verified framework for building Model Context Protocol (MCP) servers
//! over JSON-RPC 2.0.
//!
//! An application declares *tools* (schema-described operations a model may
//! invoke) and *prompts* (named text-template generators), binds them into
//! an [`service::MCPService`] with shared state, and serves the result over
//! a line-delimited transport. The protocol engine in between — envelope
//! validation, method routing, parameter checks, batching, error taxonomy
//! and wire rendering — is verified: each public function carries a
//! contract, and the protocol's laws (ids echo, notifications stay silent,
//! malformed envelopes are answered exactly once, decoding inverts
//! encoding, lists never change after build) are proved.
//!
//! The JSON grammar itself is read through serde_json behind a small
//! trusted boundary ([`parse`]); everything downstream of the parse, and
//! all rendering, is verified code. The transport loop — bytes, framing,
//! the executor — lives outside the library and drives
//! [`serve::serve_line`] one line at a time.

pub mod codec;
pub mod content;
pub mod context;
pub mod errors;
pub mod handler;
pub mod id;
pub mod json;
pub mod jsonrpc;
pub mod messages;
pub mod middleware;
pub mod parse;
pub mod prompt;
pub mod render;
pub mod resource;
pub mod response;
pub mod serve;
pub mod server;
pub mod service;
pub mod service_ext;
pub mod tool;

pub use handler::{PromptHandler, ToolHandler};
pub use messages::CallToolResult;
pub use prompt::{PromptArgument, PromptError};
pub use resource::ResourceError;
pub use response::IntoCallToolResult;
pub use serve::serve_line;
pub use service::{MCPRequestService, MCPService, MCPServiceBuilder};
pub use service_ext::ServiceExt;
pub use tool::ToolError;
