//! The capabilities a service dispatches to: tool handlers, prompt
//! handlers, notification sinks, and the registries that hold them.
//!
//! A handler is user code; nothing is assumed about what its `call`
//! returns, and the dispatcher's contracts say what holds whatever comes
//! back. Registries are built as nested [`ToolEntry`] / [`PromptEntry`]
//! chains, one link per registration, newest first; a later registration
//! under the same name shadows the earlier one.

use vstd::prelude::*;

use crate::context::Context;
use crate::json::JsonValue;
use crate::jsonrpc::Notification;
use crate::messages::CallToolResult;
use crate::prompt::{PromptArgument, PromptError};
use crate::tool::ToolError;

verus! {

/// A tool: a named, schema-described operation a model may invoke.
///
/// `name`, `description` and `schema` are read once, when the tool is
/// registered; the service lists what it captured then.
pub trait ToolHandler {
    /// The tool's name.
    fn name(&self) -> String;

    /// What the tool does.
    fn description(&self) -> String;

    /// A JSON Schema object describing the tool's parameters.
    fn schema(&self) -> JsonValue;

    /// Run the tool. `params` is the `arguments` member of the call, JSON
    /// null when the caller sent none.
    fn call(&self, context: &Context, params: JsonValue) -> Result<CallToolResult, ToolError>;
}

/// A prompt: a named text-template generator.
pub trait PromptHandler {
    /// The prompt's name.
    fn name(&self) -> String;

    /// What the prompt generates.
    fn description(&self) -> Option<String>;

    /// The arguments the prompt accepts, in order.
    fn arguments(&self) -> Option<Vec<PromptArgument>>;

    /// Render the prompt from named arguments.
    fn call(&self, context: &Context, params: Vec<(String, JsonValue)>) -> Result<
        String,
        PromptError,
    >;
}

/// A sink for notifications: called once per well-formed notification, never
/// for method calls or malformed envelopes.
pub trait NotificationSink {
    /// Observe one notification.
    fn handle(&self, context: &Context, notification: Notification);
}

/// A registry of tool handlers, dispatched by name.
pub trait ToolSet {
    /// The names this registry answers to.
    spec fn has_name(&self, name: Seq<char>) -> bool;

    /// Call the named tool. An unregistered name is answered with
    /// `ToolError::NotFound` carrying it; a registered name is answered
    /// with whatever the handler returns.
    fn call_by_name(&self, context: &Context, name: &String, params: JsonValue) -> (r: Result<
        CallToolResult,
        ToolError,
    >)
        ensures
            !self.has_name(name@) ==> (r matches Err(e) && e@
                == crate::tool::SpecToolError::NotFound(name@)),
    ;
}

/// The empty tool registry.
pub struct NoTools;

impl ToolSet for NoTools {
    open spec fn has_name(&self, name: Seq<char>) -> bool {
        false
    }

    fn call_by_name(&self, context: &Context, name: &String, params: JsonValue) -> (r: Result<
        CallToolResult,
        ToolError,
    >) {
        Err(ToolError::NotFound(name.clone()))
    }
}

/// One registered tool in front of the rest of the registry.
pub struct ToolEntry<H, R> {
    /// The name the handler was registered under.
    pub name: String,
    /// The handler itself.
    pub handler: H,
    /// The registrations made before this one.
    pub rest: R,
}

impl<H: ToolHandler, R: ToolSet> ToolSet for ToolEntry<H, R> {
    open spec fn has_name(&self, name: Seq<char>) -> bool {
        self.name@ == name || self.rest.has_name(name)
    }

    fn call_by_name(&self, context: &Context, name: &String, params: JsonValue) -> (r: Result<
        CallToolResult,
        ToolError,
    >) {
        if self.name == *name {
            self.handler.call(context, params)
        } else {
            self.rest.call_by_name(context, name, params)
        }
    }
}

/// A registry of prompt handlers, dispatched by name.
pub trait PromptSet {
    /// The names this registry answers to.
    spec fn has_name(&self, name: Seq<char>) -> bool;

    /// Call the named prompt. An unregistered name is answered with
    /// `PromptError::NotFound` carrying it; a registered name is answered
    /// with whatever the handler returns.
    fn call_by_name(
        &self,
        context: &Context,
        name: &String,
        params: Vec<(String, JsonValue)>,
    ) -> (r: Result<String, PromptError>)
        ensures
            !self.has_name(name@) ==> (r matches Err(e) && e@
                == crate::prompt::SpecPromptError::NotFound(name@)),
    ;
}

/// The empty prompt registry.
pub struct NoPrompts;

impl PromptSet for NoPrompts {
    open spec fn has_name(&self, name: Seq<char>) -> bool {
        false
    }

    fn call_by_name(
        &self,
        context: &Context,
        name: &String,
        params: Vec<(String, JsonValue)>,
    ) -> (r: Result<String, PromptError>) {
        Err(PromptError::NotFound(name.clone()))
    }
}

/// One registered prompt in front of the rest of the registry.
pub struct PromptEntry<H, R> {
    /// The name the handler was registered under.
    pub name: String,
    /// The handler itself.
    pub handler: H,
    /// The registrations made before this one.
    pub rest: R,
}

impl<H: PromptHandler, R: PromptSet> PromptSet for PromptEntry<H, R> {
    open spec fn has_name(&self, name: Seq<char>) -> bool {
        self.name@ == name || self.rest.has_name(name)
    }

    fn call_by_name(
        &self,
        context: &Context,
        name: &String,
        params: Vec<(String, JsonValue)>,
    ) -> (r: Result<String, PromptError>) {
        if self.name == *name {
            self.handler.call(context, params)
        } else {
            self.rest.call_by_name(context, name, params)
        }
    }
}

/// The sink used where none is registered: notifications are accepted and
/// dropped.
pub struct NoSink;

impl NotificationSink for NoSink {
    fn handle(&self, context: &Context, notification: Notification) {
    }
}

} // verus!
