//! The message service: the dispatcher that answers one inbound message.
//!
//! A service is built once, from a name, a version, optional instructions,
//! tool and prompt registrations, shared state and an optional notification
//! sink, and is immutable afterwards. [`MCPService::call`] turns one
//! [`SendableMessage`] into at most one [`ResponseItem`] and never fails:
//! every failure mode is an in-band error response.
//!
//! The routing contract is [`MCPService::spec_dispatch`]: for each method it
//! pins the response down exactly, up to the outcome of the user's handler
//! where one is invoked; the response's id always echoes the call's.

use vstd::prelude::*;

use crate::context::{Context, Inject};
use crate::errors::{
    spec_request_error_data, spec_request_error_of_prompt, spec_request_error_of_tool,
    RequestError, SpecRequestError,
};
use crate::handler::{
    NoPrompts, NoSink, NoTools, NotificationSink, PromptEntry, PromptHandler, PromptSet,
    ToolEntry, ToolHandler, ToolSet,
};
use crate::json::{spec_obj_get, view_obj, JsonValue, SpecJson};
use crate::jsonrpc::{
    ErrorCode, ErrorData, MethodCall, Notification, Params, RequestId, Request, Response,
    ResponseItem, SendableMessage, SpecErrorData, SpecId, SpecMessage, SpecMethodCall,
    SpecParams, SpecRequest, SpecResponse, SpecResponseItem, view_batch, view_items, lemma_view_batch_len,
    lemma_view_batch_index, lemma_view_items_len, lemma_view_items_index,
};
use crate::messages::{
    spec_encode_call_tool_result, spec_encode_capabilities, spec_encode_empty_resources_list,
    spec_encode_get_prompt_result, spec_encode_initialize_result, spec_encode_prompts_list,
    spec_encode_tools_list, view_prompts, view_tools, lemma_view_prompts_len,
    lemma_view_prompts_index, lemma_view_tools_len, lemma_view_tools_index, CallToolResult,
    GetPromptResult, Implementation, InitializeResult, ListPromptsResult, ListResourcesResult,
    ListToolsResult, PromptsCapability, ResourcesCapability,
    ServerCapabilities, SpecCallToolResult, SpecInitializeResult, ToolsCapability,
};
use crate::prompt::{
    Prompt, PromptError, PromptMessage, PromptMessageRole, SpecPrompt, SpecPromptError,
    SpecPromptMessage,
};
use crate::resource::{Resource, ResourceError, SpecResourceError};
use crate::response::{fold_tool_outcome, spec_fold_tool_outcome, spec_tool_outcome};
use crate::tool::{SpecTool, SpecToolError, Tool, ToolError};
use crate::codec::spec_opt_json;

verus! {

/// Builder for a server-capabilities declaration.
pub struct CapabilitiesBuilder {
    tools: Option<ToolsCapability>,
    prompts: Option<PromptsCapability>,
    resources: Option<ResourcesCapability>,
}

impl CapabilitiesBuilder {
    /// A declaration with no capabilities.
    pub fn new() -> (r: Self)
        ensures
            r.spec_value() == (ServerCapabilities { prompts: None, resources: None, tools: None }),
    {
        CapabilitiesBuilder { tools: None, prompts: None, resources: None }
    }

    /// The capabilities declared so far.
    pub closed spec fn spec_value(&self) -> ServerCapabilities {
        ServerCapabilities { prompts: self.prompts, resources: self.resources, tools: self.tools }
    }

    /// Declare the tools capability.
    pub fn with_tools(self, list_changed: bool) -> (r: Self)
        ensures
            r.spec_value() == (ServerCapabilities {
                tools: Some(ToolsCapability { list_changed: Some(list_changed) }),
                ..self.spec_value()
            }),
    {
        CapabilitiesBuilder {
            tools: Some(ToolsCapability { list_changed: Some(list_changed) }),
            prompts: self.prompts,
            resources: self.resources,
        }
    }

    /// Declare the prompts capability.
    pub fn with_prompts(self, list_changed: bool) -> (r: Self)
        ensures
            r.spec_value() == (ServerCapabilities {
                prompts: Some(PromptsCapability { list_changed: Some(list_changed) }),
                ..self.spec_value()
            }),
    {
        CapabilitiesBuilder {
            tools: self.tools,
            prompts: Some(PromptsCapability { list_changed: Some(list_changed) }),
            resources: self.resources,
        }
    }

    /// Declare the resources capability.
    pub fn with_resources(self, subscribe: bool, list_changed: bool) -> (r: Self)
        ensures
            r.spec_value() == (ServerCapabilities {
                resources: Some(
                    ResourcesCapability {
                        subscribe: Some(subscribe),
                        list_changed: Some(list_changed),
                    },
                ),
                ..self.spec_value()
            }),
    {
        CapabilitiesBuilder {
            tools: self.tools,
            prompts: self.prompts,
            resources: Some(
                ResourcesCapability { subscribe: Some(subscribe), list_changed: Some(list_changed) },
            ),
        }
    }

    /// The declaration.
    pub fn build(self) -> (r: ServerCapabilities)
        ensures
            r == self.spec_value(),
    {
        ServerCapabilities { prompts: self.prompts, resources: self.resources, tools: self.tools }
    }
}

impl Default for CapabilitiesBuilder {
    /// The same empty declaration as [`CapabilitiesBuilder::new`].
    fn default() -> (r: Self)
        ensures
            r.spec_value() == (ServerCapabilities { prompts: None, resources: None, tools: None }),
    {
        CapabilitiesBuilder::new()
    }
}

/// A service that answers MCP messages.
///
/// Built once by [`MCPServiceBuilder`]; the registries, metadata and
/// context never change afterwards, so listing methods are referentially
/// transparent.
pub struct MCPService<TS, PS, NS> {
    name: String,
    version: String,
    instructions: Option<String>,
    tools_meta: Vec<Tool>,
    prompts_meta: Vec<Prompt>,
    tools: TS,
    prompts: PS,
    ctx: Context,
    notification_sink: Option<NS>,
}

impl<TS: ToolSet, PS: PromptSet, NS: NotificationSink> MCPService<TS, PS, NS> {
    /// The service's name.
    pub closed spec fn spec_name(&self) -> Seq<char> {
        self.name@
    }

    /// The service's version.
    pub closed spec fn spec_version(&self) -> Seq<char> {
        self.version@
    }

    /// The service's instructions, if any.
    pub closed spec fn spec_instructions(&self) -> Option<Seq<char>> {
        match self.instructions {
            Some(ref i) => Some(i@),
            None => None,
        }
    }

    /// The metadata of the registered tools, in registration order.
    pub closed spec fn spec_tools(&self) -> Seq<SpecTool> {
        view_tools(self.tools_meta@, self.tools_meta@.len() as int)
    }

    /// The metadata of the registered prompts, in registration order.
    pub closed spec fn spec_prompts(&self) -> Seq<SpecPrompt> {
        view_prompts(self.prompts_meta@, self.prompts_meta@.len() as int)
    }

    /// The tool registry.
    pub closed spec fn spec_toolset(&self) -> TS {
        self.tools
    }

    /// The prompt registry.
    pub closed spec fn spec_promptset(&self) -> PS {
        self.prompts
    }

    /// Whether a tool of this name is registered.
    pub open spec fn spec_tool_registered(&self, name: Seq<char>) -> bool {
        self.spec_toolset().has_name(name)
    }

    /// Whether a prompt of this name is registered.
    pub open spec fn spec_prompt_registered(&self, name: Seq<char>) -> bool {
        self.spec_promptset().has_name(name)
    }

    /// The capabilities this service declares: a capability is present
    /// exactly when something of its kind is registered, and the registry
    /// can never change.
    pub open spec fn spec_capabilities(&self) -> ServerCapabilities {
        ServerCapabilities {
            prompts: if self.spec_prompts().len() > 0 {
                Some(PromptsCapability { list_changed: Some(false) })
            } else {
                None
            },
            resources: None,
            tools: if self.spec_tools().len() > 0 {
                Some(ToolsCapability { list_changed: Some(false) })
            } else {
                None
            },
        }
    }

    /// The initialize result this service answers with.
    pub open spec fn spec_initialize_result(&self) -> SpecInitializeResult {
        SpecInitializeResult {
            protocol_version: "2024-11-05"@,
            capabilities: self.spec_capabilities(),
            server_name: self.spec_name(),
            server_version: self.spec_version(),
            instructions: self.spec_instructions(),
        }
    }

    /// The declared capabilities.
    pub fn capabilities(&self) -> (r: ServerCapabilities)
        ensures
            r == self.spec_capabilities(),
    {
        let mut builder = CapabilitiesBuilder::new();
        proof {
            lemma_view_tools_len(self.tools_meta@, self.tools_meta@.len() as int);
            lemma_view_prompts_len(self.prompts_meta@, self.prompts_meta@.len() as int);
        }
        if self.tools_meta.len() > 0 {
            builder = builder.with_tools(false);
        }
        if self.prompts_meta.len() > 0 {
            builder = builder.with_prompts(false);
        }
        builder.build()
    }

    /// The metadata of every registered tool, in registration order.
    pub fn list_tools(&self) -> (r: Vec<Tool>)
        ensures
            view_tools(r@, r@.len() as int) == self.spec_tools(),
    {
        let ghost gtools = self.spec_tools();
        proof {
            lemma_view_tools_len(self.tools_meta@, self.tools_meta@.len() as int);
        }
        let n = self.tools_meta.len();
        let mut out: Vec<Tool> = Vec::new();
        let mut i: usize = 0;
        while i < n
            invariant
                n == self.tools_meta@.len(),
                i == out@.len(),
                0 <= i <= n,
                gtools == self.spec_tools(),
                gtools.len() == n,
                forall|k: int| 0 <= k < i ==> #[trigger] out@[k]@ == gtools[k],
            decreases n - i,
        {
            proof {
                lemma_view_tools_index(self.tools_meta@, self.tools_meta@.len() as int, i as int);
            }
            let t = self.tools_meta[i].dup();
            out.push(t);
            i = i + 1;
        }
        proof {
            lemma_view_tools_len(out@, out@.len() as int);
            assert forall|k: int| 0 <= k < n implies #[trigger] view_tools(
                out@,
                out@.len() as int,
            )[k] == gtools[k] by {
                lemma_view_tools_index(out@, out@.len() as int, k);
            }
            assert(view_tools(out@, out@.len() as int) =~= gtools);
        }
        out
    }

    /// The metadata of every registered prompt, in registration order.
    pub fn list_prompts(&self) -> (r: Vec<Prompt>)
        ensures
            view_prompts(r@, r@.len() as int) == self.spec_prompts(),
    {
        let ghost gprompts = self.spec_prompts();
        proof {
            lemma_view_prompts_len(self.prompts_meta@, self.prompts_meta@.len() as int);
        }
        let n = self.prompts_meta.len();
        let mut out: Vec<Prompt> = Vec::new();
        let mut i: usize = 0;
        while i < n
            invariant
                n == self.prompts_meta@.len(),
                i == out@.len(),
                0 <= i <= n,
                gprompts == self.spec_prompts(),
                gprompts.len() == n,
                forall|k: int| 0 <= k < i ==> #[trigger] out@[k]@ == gprompts[k],
            decreases n - i,
        {
            proof {
                lemma_view_prompts_index(
                    self.prompts_meta@,
                    self.prompts_meta@.len() as int,
                    i as int,
                );
            }
            let p = self.prompts_meta[i].dup();
            out.push(p);
            i = i + 1;
        }
        proof {
            lemma_view_prompts_len(out@, out@.len() as int);
            assert forall|k: int| 0 <= k < n implies #[trigger] view_prompts(
                out@,
                out@.len() as int,
            )[k] == gprompts[k] by {
                lemma_view_prompts_index(out@, out@.len() as int, k);
            }
            assert(view_prompts(out@, out@.len() as int) =~= gprompts);
        }
        out
    }

    /// Call a tool by name. An unregistered name is answered with
    /// `ToolError::NotFound`; a registered one with whatever its handler
    /// returns.
    pub fn call_tool(&self, tool_name: &String, arguments: JsonValue) -> (r: Result<
        CallToolResult,
        ToolError,
    >)
        ensures
            !self.spec_tool_registered(tool_name@) ==> (r matches Err(e) && e@
                == SpecToolError::NotFound(tool_name@)),
    {
        self.tools.call_by_name(&self.ctx, tool_name, arguments)
    }

    /// Render a prompt by name. An unregistered name is answered with
    /// `PromptError::NotFound`; a registered one with whatever its handler
    /// returns.
    pub fn get_prompt(&self, prompt_name: &String, arguments: Vec<(String, JsonValue)>) -> (r:
        Result<String, PromptError>)
        ensures
            !self.spec_prompt_registered(prompt_name@) ==> (r matches Err(e) && e@
                == SpecPromptError::NotFound(prompt_name@)),
    {
        self.prompts.call_by_name(&self.ctx, prompt_name, arguments)
    }

    /// The registered resources. Resource listing is a stub: the list is
    /// always empty.
    pub fn list_resources(&self) -> (r: Vec<Resource>)
        ensures
            r@.len() == 0,
    {
        Vec::new()
    }

    /// Read a resource. Resource reading is a stub: every read fails.
    pub fn read_resource(&self, uri: &str) -> (r: Result<String, ResourceError>)
        ensures
            r matches Err(e) && e@ == SpecResourceError::ExecutionError(
                "Reading resources is not yet implemented"@,
            ),
    {
        Err(ResourceError::ExecutionError("Reading resources is not yet implemented".to_owned()))
    }
}

/// A route outcome that failed.
pub open spec fn vr_err(e: SpecRequestError) -> Result<SpecResponseItem, SpecRequestError> {
    Err(e)
}

/// A route outcome that produced an item.
pub open spec fn vr_ok(item: SpecResponseItem) -> Result<SpecResponseItem, SpecRequestError> {
    Ok(item)
}

/// The response a finished route gives: a produced item passes through; an
/// error becomes an error item echoing the call's id.
pub open spec fn spec_finish(
    mc: SpecMethodCall,
    vr: Result<SpecResponseItem, SpecRequestError>,
) -> SpecResponseItem {
    match vr {
        Ok(item) => item,
        Err(e) => SpecResponseItem::Error { id: mc.id, error: spec_request_error_data(e) },
    }
}

/// Model of a route's `Result`.
pub open spec fn spec_result_view(r: Result<ResponseItem, RequestError>) -> Result<
    SpecResponseItem,
    SpecRequestError,
> {
    match r {
        Ok(item) => Ok(item@),
        Err(e) => Err(e@),
    }
}

/// What the dispatcher makes of one tool outcome `o`: an unregistered name
/// forces the not-found outcome; the folded outcome is a success envelope,
/// or bubbles up as a request error.
pub open spec fn spec_tool_call_shape(
    has: bool,
    id: SpecId,
    nm: Seq<char>,
    o: Result<SpecCallToolResult, SpecToolError>,
    vr: Result<SpecResponseItem, SpecRequestError>,
) -> bool {
    &&& ((!has) ==> o == Err::<SpecCallToolResult, SpecToolError>(SpecToolError::NotFound(nm)))
    &&& match spec_fold_tool_outcome(o) {
        Ok(res) => vr == vr_ok(
            SpecResponseItem::Success { id, result: spec_encode_call_tool_result(res) },
        ),
        Err(e) => vr == vr_err(spec_request_error_of_tool(e)),
    }
}

/// What the dispatcher makes of one prompt outcome `o`: an unregistered
/// name forces the not-found outcome; a rendered text becomes one user
/// message in a success envelope; an error bubbles up.
pub open spec fn spec_prompt_get_shape(
    has: bool,
    id: SpecId,
    nm: Seq<char>,
    o: Result<Seq<char>, SpecPromptError>,
    vr: Result<SpecResponseItem, SpecRequestError>,
) -> bool {
    &&& ((!has) ==> o == Err::<Seq<char>, SpecPromptError>(SpecPromptError::NotFound(nm)))
    &&& match o {
        Ok(text) => vr == vr_ok(
            SpecResponseItem::Success {
                id,
                result: spec_encode_get_prompt_result(
                    None,
                    seq![SpecPromptMessage { role: PromptMessageRole::User, text }],
                ),
            },
        ),
        Err(e) => vr == vr_err(spec_request_error_of_prompt(e)),
    }
}

/// Whether `vr` answers a `tools/call` for tool `nm` under some handler
/// outcome.
pub closed spec fn spec_some_tool_outcome(
    has: bool,
    id: SpecId,
    nm: Seq<char>,
    vr: Result<SpecResponseItem, SpecRequestError>,
) -> bool {
    exists|o: Result<SpecCallToolResult, SpecToolError>| #[trigger] spec_tool_call_shape(
        has,
        id,
        nm,
        o,
        vr,
    )
}

/// A concrete tool outcome witnesses a `tools/call` answer.
pub proof fn lemma_some_tool_outcome(
    has: bool,
    id: SpecId,
    nm: Seq<char>,
    o: Result<SpecCallToolResult, SpecToolError>,
    vr: Result<SpecResponseItem, SpecRequestError>,
)
    requires
        spec_tool_call_shape(has, id, nm, o, vr),
    ensures
        spec_some_tool_outcome(has, id, nm, vr),
{
}

/// Every `tools/call` answer allows some handler outcome; the outcome is
/// handed out for case analysis.
pub proof fn lemma_some_tool_outcome_elim(
    has: bool,
    id: SpecId,
    nm: Seq<char>,
    vr: Result<SpecResponseItem, SpecRequestError>,
) -> (o: Result<SpecCallToolResult, SpecToolError>)
    requires
        spec_some_tool_outcome(has, id, nm, vr),
    ensures
        spec_tool_call_shape(has, id, nm, o, vr),
{
    choose|o: Result<SpecCallToolResult, SpecToolError>| #[trigger] spec_tool_call_shape(
        has,
        id,
        nm,
        o,
        vr,
    )
}

/// Whether `vr` answers a `prompts/get` for prompt `nm` under some handler
/// outcome.
pub closed spec fn spec_some_prompt_outcome(
    has: bool,
    id: SpecId,
    nm: Seq<char>,
    vr: Result<SpecResponseItem, SpecRequestError>,
) -> bool {
    exists|o: Result<Seq<char>, SpecPromptError>| #[trigger] spec_prompt_get_shape(
        has,
        id,
        nm,
        o,
        vr,
    )
}

/// A concrete prompt outcome witnesses a `prompts/get` answer.
pub proof fn lemma_some_prompt_outcome(
    has: bool,
    id: SpecId,
    nm: Seq<char>,
    o: Result<Seq<char>, SpecPromptError>,
    vr: Result<SpecResponseItem, SpecRequestError>,
)
    requires
        spec_prompt_get_shape(has, id, nm, o, vr),
    ensures
        spec_some_prompt_outcome(has, id, nm, vr),
{
}

/// Every `prompts/get` answer allows some handler outcome; the outcome is
/// handed out for case analysis.
pub proof fn lemma_some_prompt_outcome_elim(
    has: bool,
    id: SpecId,
    nm: Seq<char>,
    vr: Result<SpecResponseItem, SpecRequestError>,
) -> (o: Result<Seq<char>, SpecPromptError>)
    requires
        spec_some_prompt_outcome(has, id, nm, vr),
    ensures
        spec_prompt_get_shape(has, id, nm, o, vr),
{
    choose|o: Result<Seq<char>, SpecPromptError>| #[trigger] spec_prompt_get_shape(
        has,
        id,
        nm,
        o,
        vr,
    )
}

impl<TS: ToolSet, PS: PromptSet, NS: NotificationSink> MCPService<TS, PS, NS> {
    /// How a `tools/call` request is answered, given the handler outcome.
    pub open spec fn spec_tools_call_routed(
        &self,
        mc: SpecMethodCall,
        vr: Result<SpecResponseItem, SpecRequestError>,
    ) -> bool {
        &&& (mc.params is None ==> vr == vr_err(
            SpecRequestError::InvalidParams("The request was empty"@),
        ))
        &&& (mc.params matches Some(SpecParams::Array(_)) ==> vr == vr_err(
            SpecRequestError::InvalidParams("Parameters must be a map-like object"@),
        ))
        &&& (mc.params matches Some(SpecParams::Object(pairs)) ==> {
            &&& (spec_obj_get(pairs, "name"@) matches Some(SpecJson::Str(nm))
                ==> spec_some_tool_outcome(self.spec_tool_registered(nm), mc.id, nm, vr))
            &&& (!(spec_obj_get(pairs, "name"@) matches Some(SpecJson::Str(_))) ==> vr == vr_err(
                SpecRequestError::InvalidParams("No tool name was provided"@),
            ))
        })
    }

    /// How a `prompts/get` request is answered, given the handler outcome.
    pub open spec fn spec_prompts_get_routed(
        &self,
        mc: SpecMethodCall,
        vr: Result<SpecResponseItem, SpecRequestError>,
    ) -> bool {
        &&& (mc.params is None ==> vr == vr_err(
            SpecRequestError::InvalidParams("The request was empty"@),
        ))
        &&& (mc.params matches Some(SpecParams::Array(_)) ==> vr == vr_err(
            SpecRequestError::InvalidParams("Parameters must be a map-like object"@),
        ))
        &&& (mc.params matches Some(SpecParams::Object(pairs)) ==> {
            &&& (!(spec_obj_get(pairs, "name"@) matches Some(SpecJson::Str(_))) ==> vr == vr_err(
                SpecRequestError::InvalidParams("Missing prompt name"@),
            ))
            &&& (spec_obj_get(pairs, "name"@) matches Some(SpecJson::Str(nm)) ==> {
                &&& (spec_obj_get(pairs, "arguments"@) matches Some(SpecJson::Obj(_))
                    ==> spec_some_prompt_outcome(self.spec_prompt_registered(nm), mc.id, nm, vr))
                &&& (!(spec_obj_get(pairs, "arguments"@) matches Some(SpecJson::Obj(_))) ==> vr
                    == vr_err(SpecRequestError::InvalidParams("Missing arguments object"@)))
            })
        })
    }

    /// How a `resources/read` request is answered: resource reading is a
    /// stub, so a well-formed request always fails as internal.
    pub open spec fn spec_resources_read_routed(
        &self,
        mc: SpecMethodCall,
        vr: Result<SpecResponseItem, SpecRequestError>,
    ) -> bool {
        &&& (mc.params is None ==> vr == vr_err(
            SpecRequestError::InvalidParams("The request was empty"@),
        ))
        &&& (mc.params matches Some(SpecParams::Array(_)) ==> vr == vr_err(
            SpecRequestError::InvalidParams("Parameters must be a map-like object"@),
        ))
        &&& (mc.params matches Some(SpecParams::Object(pairs)) ==> {
            &&& (spec_obj_get(pairs, "uri"@) matches Some(SpecJson::Str(_)) ==> vr == vr_err(
                SpecRequestError::Internal(
                    "Unknown resource error: "@ + ("Execution failed: "@
                        + "Reading resources is not yet implemented"@),
                ),
            ))
            &&& (!(spec_obj_get(pairs, "uri"@) matches Some(SpecJson::Str(_))) ==> vr == vr_err(
                SpecRequestError::InvalidParams("Missing resource URI"@),
            ))
        })
    }

    /// How a method call is routed, before error finishing: exactly one
    /// clause per supported method, and `MethodNotFound` for the rest.
    pub open spec fn spec_routed(
        &self,
        mc: SpecMethodCall,
        vr: Result<SpecResponseItem, SpecRequestError>,
    ) -> bool {
        if mc.method == "ping"@ {
            vr == vr_ok(SpecResponseItem::Success { id: mc.id, result: SpecJson::Obj(Seq::empty()) })
        } else if mc.method == "initialize"@ {
            vr == vr_ok(
                SpecResponseItem::Success {
                    id: mc.id,
                    result: spec_encode_initialize_result(self.spec_initialize_result()),
                },
            )
        } else if mc.method == "tools/list"@ {
            vr == vr_ok(
                SpecResponseItem::Success {
                    id: mc.id,
                    result: spec_encode_tools_list(self.spec_tools()),
                },
            )
        } else if mc.method == "tools/call"@ {
            self.spec_tools_call_routed(mc, vr)
        } else if mc.method == "resources/list"@ {
            vr == vr_ok(
                SpecResponseItem::Success {
                    id: mc.id,
                    result: spec_encode_empty_resources_list(),
                },
            )
        } else if mc.method == "resources/read"@ {
            self.spec_resources_read_routed(mc, vr)
        } else if mc.method == "prompts/list"@ {
            vr == vr_ok(
                SpecResponseItem::Success {
                    id: mc.id,
                    result: spec_encode_prompts_list(self.spec_prompts()),
                },
            )
        } else if mc.method == "prompts/get"@ {
            self.spec_prompts_get_routed(mc, vr)
        } else {
            vr == vr_err(SpecRequestError::MethodNotFound(mc.method))
        }
    }

    /// How a method call is answered: some route outcome, finished into a
    /// response item that echoes the call's id.
    pub open spec fn spec_dispatch(&self, mc: SpecMethodCall, item: SpecResponseItem) -> bool {
        exists|vr: Result<SpecResponseItem, SpecRequestError>|
            #[trigger] self.spec_routed(mc, vr) && item == spec_finish(mc, vr)
    }
}


/// Take two distinctly named members out of a parameter object, each the
/// first of its name.
fn take_two_fields(pairs: Vec<(String, JsonValue)>, key1: &String, key2: &String) -> (r: (
    Option<JsonValue>,
    Option<JsonValue>,
))
    requires
        key1@ != key2@,
    ensures
        ({
            let vp = view_obj(pairs@, pairs@.len() as int);
            &&& spec_opt_json(r.0) == spec_obj_get(vp, key1@)
            &&& spec_opt_json(r.1) == spec_obj_get(vp, key2@)
        }),
{
    let ghost orig = pairs@;
    let ghost vp = view_obj(pairs@, pairs@.len() as int);
    proof {
        crate::json::lemma_view_obj_len(orig, orig.len() as int);
    }
    let mut pairs = pairs;
    let mut r1: Option<JsonValue> = None;
    let mut r2: Option<JsonValue> = None;
    while pairs.len() > 0
        invariant
            pairs@.len() <= orig.len(),
            pairs@ == orig.take(pairs@.len() as int),
            vp == view_obj(orig, orig.len() as int),
            vp.len() == orig.len(),
            key1@ != key2@,
            spec_opt_json(r1) == crate::json::spec_obj_get_from(vp, key1@, pairs@.len() as int),
            spec_opt_json(r2) == crate::json::spec_obj_get_from(vp, key2@, pairs@.len() as int),
        decreases pairs@.len(),
    {
        let ghost j = pairs@.len() as int;
        let pair = pairs.pop().unwrap();
        let (k, val) = pair;
        proof {
            assert(orig.take(j)[j - 1] == orig[j - 1]);
            crate::json::lemma_view_obj_index(orig, orig.len() as int, j - 1);
            assert(pairs@ =~= orig.take(j - 1));
        }
        if k == *key1 {
            r1 = Some(val);
        } else if k == *key2 {
            r2 = Some(val);
        }
    }
    (r1, r2)
}

/// Take one named member out of a parameter object, the first of its name.
fn take_one_field(pairs: Vec<(String, JsonValue)>, key: &String) -> (r: Option<JsonValue>)
    ensures
        spec_opt_json(r) == spec_obj_get(view_obj(pairs@, pairs@.len() as int), key@),
{
    let ghost orig = pairs@;
    let ghost vp = view_obj(pairs@, pairs@.len() as int);
    proof {
        crate::json::lemma_view_obj_len(orig, orig.len() as int);
    }
    let mut pairs = pairs;
    let mut found: Option<JsonValue> = None;
    while pairs.len() > 0
        invariant
            pairs@.len() <= orig.len(),
            pairs@ == orig.take(pairs@.len() as int),
            vp == view_obj(orig, orig.len() as int),
            vp.len() == orig.len(),
            spec_opt_json(found) == crate::json::spec_obj_get_from(vp, key@, pairs@.len() as int),
        decreases pairs@.len(),
    {
        let ghost j = pairs@.len() as int;
        let pair = pairs.pop().unwrap();
        let (k, val) = pair;
        proof {
            assert(orig.take(j)[j - 1] == orig[j - 1]);
            crate::json::lemma_view_obj_index(orig, orig.len() as int, j - 1);
            assert(pairs@ =~= orig.take(j - 1));
        }
        if k == *key {
            found = Some(val);
        }
    }
    found
}

impl<TS: ToolSet, PS: PromptSet, NS: NotificationSink> MCPService<TS, PS, NS> {
    /// Answer a `ping` call: an empty object.
    fn handle_ping(&self, req: MethodCall) -> (r: Result<ResponseItem, RequestError>)
        ensures
            spec_result_view(r) == vr_ok(
                SpecResponseItem::Success { id: req@.id, result: SpecJson::Obj(Seq::empty()) },
            ),
    {
        let empty = JsonValue::Obj(Vec::new());
        proof {
            reveal_with_fuel(view_obj, 2);
            assert(empty@->Obj_0 =~= Seq::<(Seq<char>, SpecJson)>::empty());
        }
        Ok(ResponseItem::success(req.id, empty))
    }

    /// Answer an `initialize` call: the protocol version, the inferred
    /// capabilities, the server's identity and its instructions.
    fn handle_initialize(&self, req: MethodCall) -> (r: Result<ResponseItem, RequestError>)
        ensures
            spec_result_view(r) == vr_ok(
                SpecResponseItem::Success {
                    id: req@.id,
                    result: spec_encode_initialize_result(self.spec_initialize_result()),
                },
            ),
    {
        let result = InitializeResult {
            protocol_version: "2024-11-05".to_owned(),
            capabilities: self.capabilities(),
            server_info: Implementation {
                name: self.name.clone(),
                version: self.version.clone(),
            },
            instructions: match &self.instructions {
                Some(i) => Some(i.clone()),
                None => None,
            },
        };
        Ok(ResponseItem::success(req.id, result.to_json()))
    }

    /// Answer a `tools/list` call: the registered tools' metadata. Input
    /// parameters are ignored.
    fn handle_tools_list(&self, req: MethodCall) -> (r: Result<ResponseItem, RequestError>)
        ensures
            spec_result_view(r) == vr_ok(
                SpecResponseItem::Success {
                    id: req@.id,
                    result: spec_encode_tools_list(self.spec_tools()),
                },
            ),
    {
        let tools = self.list_tools();
        let result = ListToolsResult { tools };
        Ok(ResponseItem::success(req.id, result.to_json()))
    }

    /// Answer a `tools/call` call: parameters must be an object with a
    /// string `name`; `arguments` defaults to JSON null; the named handler
    /// decides the rest.
    #[verifier::rlimit(100)]
    fn handle_tools_call(&self, req: MethodCall) -> (r: Result<ResponseItem, RequestError>)
        ensures
            self.spec_tools_call_routed(req@, spec_result_view(r)),
    {
        let ghost gmc = req@;
        let id = req.id;
        let params = req.params;
        match params {
            None => {
                return Err(RequestError::InvalidParams("The request was empty".to_owned()));
            },
            Some(Params::Array(_)) => {
                return Err(
                    RequestError::InvalidParams("Parameters must be a map-like object".to_owned()),
                );
            },
            Some(Params::Object(pairs)) => {
                let key_name: String = "name".to_owned();
                let key_args: String = "arguments".to_owned();
                proof {
                    reveal_strlit("name");
                    reveal_strlit("arguments");
                    assert("name"@.len() == 4 && "arguments"@.len() == 9);
                }
                let (name_f, args_f) = take_two_fields(pairs, &key_name, &key_args);
                match name_f {
                    Some(JsonValue::Str(nm)) => {
                        let arguments = match args_f {
                            Some(v) => v,
                            None => JsonValue::Null,
                        };
                        let outcome = self.call_tool(&nm, arguments);
                        let ghost go = spec_tool_outcome(&outcome);
                        let folded = fold_tool_outcome(outcome);
                        let result = match folded {
                            Ok(res) => Ok(ResponseItem::success(id, res.to_json())),
                            Err(e) => Err(RequestError::of_tool_error(e)),
                        };
                        proof {
                            lemma_some_tool_outcome(
                                self.spec_tool_registered(nm@),
                                gmc.id,
                                nm@,
                                go,
                                spec_result_view(result),
                            );
                        }
                        return result;
                    },
                    _ => {
                        return Err(
                            RequestError::InvalidParams("No tool name was provided".to_owned()),
                        );
                    },
                }
            },
        }
    }

    /// Answer a `resources/list` call: the resource list is a stub, always
    /// empty.
    fn handle_resources_list(&self, req: MethodCall) -> (r: Result<ResponseItem, RequestError>)
        ensures
            spec_result_view(r) == vr_ok(
                SpecResponseItem::Success {
                    id: req@.id,
                    result: spec_encode_empty_resources_list(),
                },
            ),
    {
        let resources = self.list_resources();
        let result = ListResourcesResult { resources };
        Ok(ResponseItem::success(req.id, result.to_json()))
    }

    /// Answer a `resources/read` call: parameters must be an object with a
    /// string `uri`; reading is a stub, so every well-formed read fails.
    #[verifier::rlimit(100)]
    fn handle_resources_read(&self, req: MethodCall) -> (r: Result<ResponseItem, RequestError>)
        ensures
            self.spec_resources_read_routed(req@, spec_result_view(r)),
    {
        let params = req.params;
        match params {
            None => Err(RequestError::InvalidParams("The request was empty".to_owned())),
            Some(Params::Array(_)) => Err(
                RequestError::InvalidParams("Parameters must be a map-like object".to_owned()),
            ),
            Some(Params::Object(pairs)) => {
                let key_uri: String = "uri".to_owned();
                let uri_f = take_one_field(pairs, &key_uri);
                match uri_f {
                    Some(JsonValue::Str(uri)) => {
                        let read = self.read_resource(uri.as_str());
                        match read {
                            Ok(_) => Err(
                                RequestError::Internal("Unknown resource error: ".to_owned()),
                            ),
                            Err(e) => {
                                let err = RequestError::of_resource_error(e);
                                Err(err)
                            },
                        }
                    },
                    _ => Err(RequestError::InvalidParams("Missing resource URI".to_owned())),
                }
            },
        }
    }

    /// Answer a `prompts/list` call: the registered prompts' metadata.
    /// Input parameters are ignored.
    fn handle_prompts_list(&self, req: MethodCall) -> (r: Result<ResponseItem, RequestError>)
        ensures
            spec_result_view(r) == vr_ok(
                SpecResponseItem::Success {
                    id: req@.id,
                    result: spec_encode_prompts_list(self.spec_prompts()),
                },
            ),
    {
        let prompts = self.list_prompts();
        let result = ListPromptsResult { prompts };
        Ok(ResponseItem::success(req.id, result.to_json()))
    }

    /// Answer a `prompts/get` call: parameters must be an object with a
    /// string `name` and an object `arguments`; the named handler renders
    /// the prompt, which is returned as one user message.
    #[verifier::rlimit(100)]
    fn handle_prompts_get(&self, req: MethodCall) -> (r: Result<ResponseItem, RequestError>)
        ensures
            self.spec_prompts_get_routed(req@, spec_result_view(r)),
    {
        let id = req.id;
        let params = req.params;
        match params {
            None => Err(RequestError::InvalidParams("The request was empty".to_owned())),
            Some(Params::Array(_)) => Err(
                RequestError::InvalidParams("Parameters must be a map-like object".to_owned()),
            ),
            Some(Params::Object(pairs)) => {
                let key_name: String = "name".to_owned();
                let key_args: String = "arguments".to_owned();
                proof {
                    reveal_strlit("name");
                    reveal_strlit("arguments");
                    assert("name"@.len() == 4 && "arguments"@.len() == 9);
                }
                let (name_f, args_f) = take_two_fields(pairs, &key_name, &key_args);
                match name_f {
                    Some(JsonValue::Str(nm)) => {
                        match args_f {
                            Some(JsonValue::Obj(arg_pairs)) => {
                                let outcome = self.get_prompt(&nm, arg_pairs);
                                let ghost go: Result<Seq<char>, SpecPromptError> = match &outcome {
                                    Ok(text) => Ok(text@),
                                    Err(e) => Err(e@),
                                };
                                let result = match outcome {
                                    Ok(text) => {
                                        let ghost gtext = text@;
                                        let message = PromptMessage::new_text(
                                            PromptMessageRole::User,
                                            text,
                                        );
                                        let mut messages: Vec<PromptMessage> = Vec::new();
                                        messages.push(message);
                                        proof {
                                            reveal_with_fuel(
                                                crate::messages::view_messages,
                                                3,
                                            );
                                            assert(crate::messages::view_messages(
                                                messages@,
                                                messages@.len() as int,
                                            ) =~= seq![
                                                SpecPromptMessage {
                                                    role: PromptMessageRole::User,
                                                    text: gtext,
                                                },
                                            ]);
                                        }
                                        let prompt_result = GetPromptResult {
                                            description: None,
                                            messages,
                                        };
                                        Ok(ResponseItem::success(id, prompt_result.to_json()))
                                    },
                                    Err(e) => Err(RequestError::of_prompt_error(e)),
                                };
                                proof {
                                    lemma_some_prompt_outcome(
                                        self.spec_prompt_registered(nm@),
                                        id@,
                                        nm@,
                                        go,
                                        spec_result_view(result),
                                    );
                                }
                                result
                            },
                            _ => Err(
                                RequestError::InvalidParams("Missing arguments object".to_owned()),
                            ),
                        }
                    },
                    _ => Err(RequestError::InvalidParams("Missing prompt name".to_owned())),
                }
            },
        }
    }

    /// Route one method call and finish its outcome into a response item
    /// that echoes the call's id.
    fn route_call(&self, req: MethodCall) -> (item: ResponseItem)
        ensures
            self.spec_dispatch(req@, item@),
    {
        let ghost gmc = req@;
        let id = req.id.dup();
        let method = req.method.clone();
        let result: Result<ResponseItem, RequestError> = if method == "ping".to_owned() {
            self.handle_ping(req)
        } else if method == "initialize".to_owned() {
            self.handle_initialize(req)
        } else if method == "tools/list".to_owned() {
            self.handle_tools_list(req)
        } else if method == "tools/call".to_owned() {
            self.handle_tools_call(req)
        } else if method == "resources/list".to_owned() {
            self.handle_resources_list(req)
        } else if method == "resources/read".to_owned() {
            self.handle_resources_read(req)
        } else if method == "prompts/list".to_owned() {
            self.handle_prompts_list(req)
        } else if method == "prompts/get".to_owned() {
            self.handle_prompts_get(req)
        } else {
            Err(RequestError::MethodNotFound(req.method))
        };
        let ghost gvr = spec_result_view(result);
        let item = match result {
            Ok(item) => item,
            Err(e) => ResponseItem::error(id, e.into_error_data()),
        };
        proof {
            assert(self.spec_routed(gmc, gvr));
            assert(item@ == spec_finish(gmc, gvr));
        }
        item
    }

    /// Answer one inbound message: a method call is routed and answered, a
    /// notification is handed to the sink and produces nothing, a malformed
    /// envelope is answered with an invalid-request error echoing whatever
    /// id it carried.
    pub fn call(&self, msg: SendableMessage) -> (r: Option<ResponseItem>)
        ensures
            spec_message_response_consistent(msg@, spec_opt_item(r)),
            msg@ matches SpecMessage::Request(mc) ==> (r matches Some(item) && self.spec_dispatch(
                mc,
                item@,
            )),
    {
        match msg {
            SendableMessage::Request(mc) => {
                let item = self.route_call(mc);
                Some(item)
            },
            SendableMessage::Notification(n) => {
                match &self.notification_sink {
                    Some(sink) => sink.handle(&self.ctx, n),
                    None => (),
                }
                None
            },
            SendableMessage::Invalid { id } => {
                let error = ErrorData::new(ErrorCode::InvalidRequest, "Invalid request".to_owned());
                Some(ResponseItem::error(id, error))
            },
        }
    }
}

/// Model of an optional response item.
pub open spec fn spec_opt_item(r: Option<ResponseItem>) -> Option<SpecResponseItem> {
    match r {
        Some(item) => Some(item@),
        None => None,
    }
}

/// What every message service promises of one answer: a method call gets
/// exactly one response item echoing its id; a notification gets none; a
/// malformed envelope gets an invalid-request error echoing whatever id it
/// carried.
pub open spec fn spec_message_response_consistent(
    m: SpecMessage,
    r: Option<SpecResponseItem>,
) -> bool {
    match m {
        SpecMessage::Request(mc) => r matches Some(item) && item.spec_id() == mc.id,
        SpecMessage::Notification(_) => r is None,
        SpecMessage::Invalid(id) => r == Some(
            SpecResponseItem::Error {
                id,
                error: SpecErrorData {
                    code: ErrorCode::InvalidRequest,
                    message: "Invalid request"@,
                    data: None,
                },
            },
        ),
    }
}


/// The first `n` tool entries with every entry named `name` removed,
/// order kept.
pub open spec fn spec_remove_tool_upto(metas: Seq<Tool>, name: Seq<char>, n: int) -> Seq<Tool>
    decreases n,
{
    if n <= 0 || n > metas.len() {
        Seq::empty()
    } else {
        spec_remove_tool_upto(metas, name, n - 1) + (if metas[n - 1]@.name == name {
            Seq::empty()
        } else {
            seq![metas[n - 1]]
        })
    }
}

/// The tool entries with every entry named `name` removed, order kept.
pub open spec fn spec_remove_tool(metas: Seq<Tool>, name: Seq<char>) -> Seq<Tool> {
    spec_remove_tool_upto(metas, name, metas.len() as int)
}

/// The first `n` prompt entries with every entry named `name` removed,
/// order kept.
pub open spec fn spec_remove_prompt_upto(
    metas: Seq<Prompt>,
    name: Seq<char>,
    n: int,
) -> Seq<Prompt>
    decreases n,
{
    if n <= 0 || n > metas.len() {
        Seq::empty()
    } else {
        spec_remove_prompt_upto(metas, name, n - 1) + (if metas[n - 1]@.name == name {
            Seq::empty()
        } else {
            seq![metas[n - 1]]
        })
    }
}

/// The prompt entries with every entry named `name` removed, order kept.
pub open spec fn spec_remove_prompt(metas: Seq<Prompt>, name: Seq<char>) -> Seq<Prompt> {
    spec_remove_prompt_upto(metas, name, metas.len() as int)
}

/// Drop every tool entry named `name`, keeping the order of the rest.
fn remove_tool_meta(metas: Vec<Tool>, name: &String) -> (r: Vec<Tool>)
    ensures
        r@ == spec_remove_tool(metas@, name@),
{
    let ghost orig = metas@;
    let mut metas = metas;
    let n = metas.len();
    let mut out: Vec<Tool> = Vec::new();
    let mut i: usize = 0;
    while i < n
        invariant
            n == orig.len(),
            n == metas@.len(),
            0 <= i <= n,
            forall|k: int| i <= k < n ==> #[trigger] metas@[k] == orig[k],
            out@ == spec_remove_tool_upto(orig, name@, i as int),
        decreases n - i,
    {
        let mut t = Tool {
            name: String::new(),
            description: String::new(),
            input_schema: JsonValue::Null,
        };
        core::mem::swap(&mut metas[i], &mut t);
        if !(t.name == *name) {
            out.push(t);
            proof {
                assert(out@ =~= spec_remove_tool_upto(orig, name@, i + 1 as int));
            }
        }
        i = i + 1;
    }
    out
}

/// Drop every prompt entry named `name`, keeping the order of the rest.
fn remove_prompt_meta(metas: Vec<Prompt>, name: &String) -> (r: Vec<Prompt>)
    ensures
        r@ == spec_remove_prompt(metas@, name@),
{
    let ghost orig = metas@;
    let mut metas = metas;
    let n = metas.len();
    let mut out: Vec<Prompt> = Vec::new();
    let mut i: usize = 0;
    while i < n
        invariant
            n == orig.len(),
            n == metas@.len(),
            0 <= i <= n,
            forall|k: int| i <= k < n ==> #[trigger] metas@[k] == orig[k],
            out@ == spec_remove_prompt_upto(orig, name@, i as int),
        decreases n - i,
    {
        let mut p = Prompt { name: String::new(), description: None, arguments: None };
        core::mem::swap(&mut metas[i], &mut p);
        if !(p.name == *name) {
            out.push(p);
            proof {
                assert(out@ =~= spec_remove_prompt_upto(orig, name@, i + 1 as int));
            }
        }
        i = i + 1;
    }
    out
}

/// Builder for an [`MCPService`]. Tools, prompts, state and the sink are
/// declared here; [`MCPServiceBuilder::build`] freezes them.
pub struct MCPServiceBuilder<TS, PS, NS> {
    /// The service's name.
    pub name: String,
    /// The service's version.
    pub version: String,
    /// The service's instructions, if any.
    pub instructions: Option<String>,
    /// The metadata captured at each tool registration.
    pub tools_meta: Vec<Tool>,
    /// The metadata captured at each prompt registration.
    pub prompts_meta: Vec<Prompt>,
    /// The tool registry, newest registration first.
    pub tools: TS,
    /// The prompt registry, newest registration first.
    pub prompts: PS,
    /// The shared state handlers may read.
    pub ctx: Context,
    /// The notification sink, if one was registered.
    pub notification_sink: Option<NS>,
}

impl MCPServiceBuilder<NoTools, NoPrompts, NoSink> {
    /// Start building a service with the given name. The version defaults
    /// to `0.1.0`; nothing is registered yet.
    pub fn new(name: String) -> (r: Self)
        ensures
            r.name@ == name@,
            r.version@ == "0.1.0"@,
            r.instructions is None,
            r.tools_meta@.len() == 0,
            r.prompts_meta@.len() == 0,
            r.notification_sink is None,
    {
        MCPServiceBuilder {
            name,
            version: "0.1.0".to_owned(),
            instructions: None,
            tools_meta: Vec::new(),
            prompts_meta: Vec::new(),
            tools: NoTools,
            prompts: NoPrompts,
            ctx: Context::new(),
            notification_sink: None,
        }
    }
}

impl<TS: ToolSet, PS: PromptSet, NS: NotificationSink> MCPServiceBuilder<TS, PS, NS> {
    /// Set the service's version.
    pub fn with_version(self, version: String) -> (r: Self)
        ensures
            r == (MCPServiceBuilder { version, ..self }),
    {
        MCPServiceBuilder { version, ..self }
    }

    /// Set the service's instructions.
    pub fn with_instructions(self, instructions: String) -> (r: Self)
        ensures
            r == (MCPServiceBuilder { instructions: Some(instructions), ..self }),
    {
        MCPServiceBuilder { instructions: Some(instructions), ..self }
    }

    /// Register a tool. Its name, description and schema are read once,
    /// now; calls to that name go to this handler, and any earlier
    /// registration of the same name is replaced.
    pub fn with_tool<H: ToolHandler>(self, tool: H) -> (r: MCPServiceBuilder<
        ToolEntry<H, TS>,
        PS,
        NS,
    >)
        ensures
            r.name == self.name,
            r.version == self.version,
            r.instructions == self.instructions,
            r.prompts_meta == self.prompts_meta,
            r.prompts == self.prompts,
            r.notification_sink == self.notification_sink,
            r.tools.rest == self.tools,
            r.tools_meta@.len() >= 1,
            r.tools_meta@ == spec_remove_tool(self.tools_meta@, r.tools.name@).push(
                r.tools_meta@.last(),
            ),
            r.tools_meta@.last()@.name == r.tools.name@,
    {
        let nm = tool.name();
        let description = tool.description();
        let schema = tool.schema();
        let meta = Tool::new(nm.clone(), description, schema);
        let mut tools_meta = remove_tool_meta(self.tools_meta, &nm);
        tools_meta.push(meta);
        MCPServiceBuilder {
            name: self.name,
            version: self.version,
            instructions: self.instructions,
            tools_meta,
            prompts_meta: self.prompts_meta,
            tools: ToolEntry { name: nm, handler: tool, rest: self.tools },
            prompts: self.prompts,
            ctx: self.ctx,
            notification_sink: self.notification_sink,
        }
    }

    /// Register a prompt. Its name, description and arguments are read
    /// once, now; calls to that name go to this handler, and any earlier
    /// registration of the same name is replaced.
    pub fn with_prompt<H: PromptHandler>(self, prompt: H) -> (r: MCPServiceBuilder<
        TS,
        PromptEntry<H, PS>,
        NS,
    >)
        ensures
            r.name == self.name,
            r.version == self.version,
            r.instructions == self.instructions,
            r.tools_meta == self.tools_meta,
            r.tools == self.tools,
            r.notification_sink == self.notification_sink,
            r.prompts.rest == self.prompts,
            r.prompts_meta@.len() >= 1,
            r.prompts_meta@ == spec_remove_prompt(self.prompts_meta@, r.prompts.name@).push(
                r.prompts_meta@.last(),
            ),
            r.prompts_meta@.last()@.name == r.prompts.name@,
    {
        let nm = prompt.name();
        let description = prompt.description();
        let arguments = prompt.arguments();
        let meta = Prompt::new(nm.clone(), description, arguments);
        let mut prompts_meta = remove_prompt_meta(self.prompts_meta, &nm);
        prompts_meta.push(meta);
        MCPServiceBuilder {
            name: self.name,
            version: self.version,
            instructions: self.instructions,
            tools_meta: self.tools_meta,
            prompts_meta,
            tools: self.tools,
            prompts: PromptEntry { name: nm, handler: prompt, rest: self.prompts },
            ctx: self.ctx,
            notification_sink: self.notification_sink,
        }
    }

    /// Register shared state, keyed by its type.
    pub fn with_state<T: 'static>(self, state: Inject<T>) -> (r: Self)
        ensures
            r.name == self.name,
            r.version == self.version,
            r.instructions == self.instructions,
            r.tools_meta == self.tools_meta,
            r.tools == self.tools,
            r.prompts_meta == self.prompts_meta,
            r.prompts == self.prompts,
            r.notification_sink == self.notification_sink,
    {
        let mut ctx = self.ctx;
        ctx.insert(state);
        MCPServiceBuilder { ctx, ..self }
    }

    /// Register the notification sink.
    pub fn with_notification_handler<N2: NotificationSink>(self, handler: N2) -> (r:
        MCPServiceBuilder<TS, PS, N2>)
        ensures
            r.name == self.name,
            r.version == self.version,
            r.instructions == self.instructions,
            r.tools_meta == self.tools_meta,
            r.tools == self.tools,
            r.prompts_meta == self.prompts_meta,
            r.prompts == self.prompts,
            r.notification_sink == Some(handler),
    {
        MCPServiceBuilder {
            name: self.name,
            version: self.version,
            instructions: self.instructions,
            tools_meta: self.tools_meta,
            prompts_meta: self.prompts_meta,
            tools: self.tools,
            prompts: self.prompts,
            ctx: self.ctx,
            notification_sink: Some(handler),
        }
    }

    /// Freeze the declarations into a service.
    pub fn build(self) -> (r: MCPService<TS, PS, NS>)
        ensures
            r.spec_name() == self.name@,
            r.spec_version() == self.version@,
            r.spec_instructions() == (match self.instructions {
                Some(i) => Some(i@),
                None => None::<Seq<char>>,
            }),
            r.spec_tools() == view_tools(self.tools_meta@, self.tools_meta@.len() as int),
            r.spec_prompts() == view_prompts(self.prompts_meta@, self.prompts_meta@.len() as int),
            r.spec_toolset() == self.tools,
            r.spec_promptset() == self.prompts,
    {
        MCPService {
            name: self.name,
            version: self.version,
            instructions: self.instructions,
            tools_meta: self.tools_meta,
            prompts_meta: self.prompts_meta,
            tools: self.tools,
            prompts: self.prompts,
            ctx: self.ctx,
            notification_sink: self.notification_sink,
        }
    }
}

/// A service that answers one message at a time. Whatever stands between
/// the dispatcher and the wire — middleware included — answers a method
/// call with exactly one item echoing its id, a notification with nothing,
/// and a malformed envelope with an invalid-request error; `answers` says,
/// per service, which answers it gives, so the dispatcher's routing law
/// survives any stack of wrappers.
pub trait MessageService {
    /// Which answers this service gives to a message.
    spec fn answers(&self, m: SpecMessage, r: Option<SpecResponseItem>) -> bool;

    /// Answer one message.
    fn call_message(&self, msg: SendableMessage) -> (r: Option<ResponseItem>)
        ensures
            spec_message_response_consistent(msg@, spec_opt_item(r)),
            self.answers(msg@, spec_opt_item(r)),
    ;
}

impl<TS: ToolSet, PS: PromptSet, NS: NotificationSink> MessageService for MCPService<
    TS,
    PS,
    NS,
> {
    /// The dispatcher's routing law: a method call's answer is exactly what
    /// the routes prescribe.
    open spec fn answers(&self, m: SpecMessage, r: Option<SpecResponseItem>) -> bool {
        m matches SpecMessage::Request(mc) ==> (r matches Some(item) && self.spec_dispatch(
            mc,
            item,
        ))
    }

    fn call_message(&self, msg: SendableMessage) -> (r: Option<ResponseItem>) {
        self.call(msg)
    }
}

/// The items of the first `n` answers that are answers at all, in order.
pub open spec fn spec_filtered(rs: Seq<Option<SpecResponseItem>>, n: int) -> Seq<
    SpecResponseItem,
>
    decreases n,
{
    if n <= 0 || n > rs.len() {
        Seq::empty()
    } else {
        spec_filtered(rs, n - 1) + (match rs[n - 1] {
            Some(item) => seq![item],
            None => Seq::empty(),
        })
    }
}

/// Whether `rs` is a per-message answer list tying `msgs` to `items`: one
/// answer per message, each consistent with its message, and `items` are
/// the answers that exist, in order.
pub open spec fn spec_batch_witness(
    msgs: Seq<SpecMessage>,
    rs: Seq<Option<SpecResponseItem>>,
    items: Seq<SpecResponseItem>,
) -> bool {
    &&& rs.len() == msgs.len()
    &&& forall|i: int|
        0 <= i < msgs.len() ==> spec_message_response_consistent(msgs[i], #[trigger] rs[i])
    &&& items == spec_filtered(rs, rs.len() as int)
}

/// Whether `items` answers the batch `msgs`: some consistent per-message
/// answer list produces it.
pub closed spec fn spec_batch_answers(
    msgs: Seq<SpecMessage>,
    items: Seq<SpecResponseItem>,
) -> bool {
    exists|rs: Seq<Option<SpecResponseItem>>| #[trigger] spec_batch_witness(msgs, rs, items)
}

/// A concrete answer list witnesses a batch answer.
pub proof fn lemma_batch_answers(
    msgs: Seq<SpecMessage>,
    rs: Seq<Option<SpecResponseItem>>,
    items: Seq<SpecResponseItem>,
)
    requires
        spec_batch_witness(msgs, rs, items),
    ensures
        spec_batch_answers(msgs, items),
{
}

/// Every batch answer has an answer list; it is handed out for analysis.
pub proof fn lemma_batch_answers_elim(
    msgs: Seq<SpecMessage>,
    items: Seq<SpecResponseItem>,
) -> (rs: Seq<Option<SpecResponseItem>>)
    requires
        spec_batch_answers(msgs, items),
    ensures
        spec_batch_witness(msgs, rs, items),
{
    choose|rs: Seq<Option<SpecResponseItem>>| #[trigger] spec_batch_witness(msgs, rs, items)
}

/// Whether `rs` is an answer list that this very service gives: each
/// answer consistent with its message and allowed by the service.
pub open spec fn spec_batch_witness_for<S: MessageService>(
    svc: S,
    msgs: Seq<SpecMessage>,
    rs: Seq<Option<SpecResponseItem>>,
    items: Seq<SpecResponseItem>,
) -> bool {
    &&& spec_batch_witness(msgs, rs, items)
    &&& forall|i: int| 0 <= i < msgs.len() ==> svc.answers(msgs[i], #[trigger] rs[i])
}

/// Whether `items` answers the batch `msgs` as `svc` answers it: some
/// answer list of that service produces it.
pub closed spec fn spec_batch_answers_for<S: MessageService>(
    svc: S,
    msgs: Seq<SpecMessage>,
    items: Seq<SpecResponseItem>,
) -> bool {
    exists|rs: Seq<Option<SpecResponseItem>>| #[trigger] spec_batch_witness_for(
        svc,
        msgs,
        rs,
        items,
    )
}

/// A concrete answer list of the service witnesses its batch answer.
pub proof fn lemma_batch_answers_for<S: MessageService>(
    svc: S,
    msgs: Seq<SpecMessage>,
    rs: Seq<Option<SpecResponseItem>>,
    items: Seq<SpecResponseItem>,
)
    requires
        spec_batch_witness_for(svc, msgs, rs, items),
    ensures
        spec_batch_answers_for(svc, msgs, items),
        spec_batch_answers(msgs, items),
{
    lemma_batch_answers(msgs, rs, items);
}

/// Every batch answer of a service has an answer list of that service; it
/// is handed out for analysis.
pub proof fn lemma_batch_answers_for_elim<S: MessageService>(
    svc: S,
    msgs: Seq<SpecMessage>,
    items: Seq<SpecResponseItem>,
) -> (rs: Seq<Option<SpecResponseItem>>)
    requires
        spec_batch_answers_for(svc, msgs, items),
    ensures
        spec_batch_witness_for(svc, msgs, rs, items),
{
    choose|rs: Seq<Option<SpecResponseItem>>| #[trigger] spec_batch_witness_for(
        svc,
        msgs,
        rs,
        items,
    )
}

/// Appending an answer does not change the items filtered from the
/// answers before it.
proof fn lemma_filtered_push(rs: Seq<Option<SpecResponseItem>>, x: Option<SpecResponseItem>, n: int)
    requires
        0 <= n <= rs.len(),
    ensures
        spec_filtered(rs.push(x), n) == spec_filtered(rs, n),
    decreases n,
{
    if n > 0 {
        lemma_filtered_push(rs, x, n - 1);
        assert(rs.push(x)[n - 1] == rs[n - 1]);
    }
}

/// The error body an empty batch is answered with.
pub open spec fn spec_empty_batch_error() -> SpecErrorData {
    SpecErrorData {
        code: ErrorCode::InvalidRequest,
        message: "Invalid request: batch is empty"@,
        data: None,
    }
}

/// What a request service promises of one answer: a single message gets a
/// single answer consistent with it; the empty batch gets one
/// invalid-request error under the null id; a non-empty batch gets a batch
/// of the consistent answers of its messages.
pub open spec fn spec_request_response_consistent(req: SpecRequest, r: SpecResponse) -> bool {
    &&& (req matches SpecRequest::Single(m) ==> (r matches SpecResponse::Single(o)
        && spec_message_response_consistent(m, o)))
    &&& (req matches SpecRequest::Batch(msgs) ==> (msgs.len() == 0 ==> r == SpecResponse::Single(
        Some(SpecResponseItem::Error { id: SpecId::Null, error: spec_empty_batch_error() }),
    )))
    &&& (req matches SpecRequest::Batch(msgs) ==> (msgs.len() > 0 ==> (r matches
        SpecResponse::Batch(items) && spec_batch_answers(msgs, items))))
}

/// What one request service, built over `svc`, promises of one answer: on
/// top of the shape consistency, every item is an answer `svc` gives to
/// its message, so the routing law of the service inside carries through
/// batches unchanged.
pub open spec fn spec_request_answered_by<S: MessageService>(
    svc: S,
    req: SpecRequest,
    r: SpecResponse,
) -> bool {
    &&& spec_request_response_consistent(req, r)
    &&& (req matches SpecRequest::Single(m) ==> (r matches SpecResponse::Single(o) && svc.answers(
        m,
        o,
    )))
    &&& (req matches SpecRequest::Batch(msgs) ==> (msgs.len() > 0 ==> (r matches
        SpecResponse::Batch(items) && spec_batch_answers_for(svc, msgs, items))))
}

/// A service over whole wire requests: batches fan out to the message
/// service inside, and the empty batch is one invalid-request error.
pub struct MCPRequestService<S> {
    inner: S,
}

impl<S: MessageService> MCPRequestService<S> {
    /// The message service inside.
    pub closed spec fn spec_inner(&self) -> S {
        self.inner
    }

    /// Serve whole requests through `inner`.
    pub fn new(inner: S) -> (r: Self)
        ensures
            r.spec_inner() == inner,
    {
        MCPRequestService { inner }
    }

    /// Answer one wire request.
    ///
    /// A single message is answered by the message service inside. An
    /// empty batch is answered with one invalid-request error under the
    /// null id. A non-empty batch is answered message by message, the
    /// answers of its method calls and malformed envelopes collected in
    /// order; notifications are answered by nothing.
    pub fn call(&self, req: Request) -> (r: Response)
        ensures
            spec_request_response_consistent(req@, r@),
            spec_request_answered_by(self.spec_inner(), req@, r@),
    {
        match req {
            Request::Single(msg) => {
                let item = self.inner.call_message(msg);
                Response::Single(item)
            },
            Request::Batch(mut msgs) => {
                let ghost gmsgs = view_batch(msgs@, msgs@.len() as int);
                proof {
                    lemma_view_batch_len(msgs@, msgs@.len() as int);
                }
                let n = msgs.len();
                if n == 0 {
                    let error = ErrorData::new(
                        ErrorCode::InvalidRequest,
                        "Invalid request: batch is empty".to_owned(),
                    );
                    let item = ResponseItem::error(RequestId::null(), error);
                    return Response::Single(Some(item));
                }
                let ghost orig = msgs@;
                let mut items: Vec<ResponseItem> = Vec::new();
                let ghost mut rs: Seq<Option<SpecResponseItem>> = Seq::empty();
                let mut i: usize = 0;
                while i < n
                    invariant
                        n == orig.len(),
                        n == msgs@.len(),
                        0 <= i <= n,
                        rs.len() == i,
                        gmsgs == view_batch(orig, orig.len() as int),
                        gmsgs.len() == n,
                        forall|k: int| i <= k < n ==> #[trigger] msgs@[k] == orig[k],
                        forall|k: int|
                            0 <= k < i ==> spec_message_response_consistent(
                                gmsgs[k],
                                #[trigger] rs[k],
                            ),
                        forall|k: int|
                            0 <= k < i ==> self.spec_inner().answers(gmsgs[k], #[trigger] rs[k]),
                        view_items(items@, items@.len() as int) == spec_filtered(rs, i as int),
                    decreases n - i,
                {
                    proof {
                        lemma_view_batch_index(orig, orig.len() as int, i as int);
                    }
                    let mut msg = SendableMessage::Invalid { id: RequestId::Null };
                    core::mem::swap(&mut msgs[i], &mut msg);
                    let ghost old_items = view_items(items@, items@.len() as int);
                    let answer = self.inner.call_message(msg);
                    proof {
                        lemma_filtered_push(rs, spec_opt_item(answer), i as int);
                    }
                    match answer {
                        Some(item) => {
                            let ghost old_vec = items@;
                            proof {
                                lemma_view_items_len(old_vec, old_vec.len() as int);
                            }
                            let ghost gitem = item@;
                            items.push(item);
                            proof {
                                lemma_view_items_len(items@, items@.len() as int);
                                assert forall|k: int| 0 <= k < old_vec.len() implies
                                    #[trigger] view_items(items@, items@.len() as int)[k]
                                    == old_items[k] by {
                                    lemma_view_items_index(items@, items@.len() as int, k);
                                    lemma_view_items_index(old_vec, old_vec.len() as int, k);
                                }
                                lemma_view_items_index(
                                    items@,
                                    items@.len() as int,
                                    items@.len() - 1,
                                );
                                rs = rs.push(Some(gitem));
                                assert(view_items(items@, items@.len() as int) =~= spec_filtered(
                                    rs,
                                    i + 1 as int,
                                ));
                            }
                        },
                        None => {
                            proof {
                                rs = rs.push(None);
                                assert(view_items(items@, items@.len() as int) =~= spec_filtered(
                                    rs,
                                    i + 1 as int,
                                ));
                            }
                        },
                    }
                    i = i + 1;
                }
                proof {
                    lemma_batch_answers_for(
                        self.spec_inner(),
                        gmsgs,
                        rs,
                        view_items(items@, items@.len() as int),
                    );
                }
                Response::Batch(items)
            },
        }
    }
}


/// The number of method calls among the first `n` messages.
pub open spec fn spec_count_calls(msgs: Seq<SpecMessage>, n: int) -> int
    decreases n,
{
    if n <= 0 || n > msgs.len() {
        0
    } else {
        spec_count_calls(msgs, n - 1) + (if msgs[n - 1] matches SpecMessage::Request(_) {
            1int
        } else {
            0int
        })
    }
}

/// The number of items among the first `n` whose id is not null.
pub open spec fn spec_count_identified(items: Seq<SpecResponseItem>, n: int) -> int
    decreases n,
{
    if n <= 0 || n > items.len() {
        0
    } else {
        spec_count_identified(items, n - 1) + (if !(items[n - 1].spec_id() is Null) {
            1int
        } else {
            0int
        })
    }
}

/// Appending an item does not change the identified count of the items
/// before it.
proof fn lemma_count_identified_push(items: Seq<SpecResponseItem>, x: SpecResponseItem, n: int)
    requires
        0 <= n <= items.len(),
    ensures
        spec_count_identified(items.push(x), n) == spec_count_identified(items, n),
    decreases n,
{
    if n > 0 {
        lemma_count_identified_push(items, x, n - 1);
        assert(items.push(x)[n - 1] == items[n - 1]);
    }
}

proof fn lemma_filtered_len(rs: Seq<Option<SpecResponseItem>>, n: int)
    requires
        0 <= n <= rs.len(),
    ensures
        spec_filtered(rs, n).len() <= n,
    decreases n,
{
    if n > 0 {
        lemma_filtered_len(rs, n - 1);
    }
}

proof fn lemma_batch_count_helper(
    msgs: Seq<SpecMessage>,
    rs: Seq<Option<SpecResponseItem>>,
    n: int,
)
    requires
        rs.len() == msgs.len(),
        0 <= n <= msgs.len(),
        forall|i: int|
            0 <= i < msgs.len() ==> spec_message_response_consistent(msgs[i], #[trigger] rs[i]),
        forall|i: int|
            0 <= i < msgs.len() ==> (#[trigger] msgs[i] matches SpecMessage::Request(mc)
                ==> !(mc.id is Null)),
        forall|i: int|
            0 <= i < msgs.len() ==> (#[trigger] msgs[i] matches SpecMessage::Invalid(id)
                ==> id is Null),
    ensures
        spec_count_identified(spec_filtered(rs, n), spec_filtered(rs, n).len() as int)
            == spec_count_calls(msgs, n),
    decreases n,
{
    if n > 0 {
        lemma_batch_count_helper(msgs, rs, n - 1);
        let f1 = spec_filtered(rs, n - 1);
        let f = spec_filtered(rs, n);
        match msgs[n - 1] {
            SpecMessage::Request(mc) => {
                let item = rs[n - 1]->0;
                assert(f =~= f1.push(item));
                lemma_count_identified_push(f1, item, f1.len() as int);
            },
            SpecMessage::Notification(_) => {
                assert(f =~= f1);
            },
            SpecMessage::Invalid(id) => {
                let item = rs[n - 1]->0;
                assert(f =~= f1.push(item));
                lemma_count_identified_push(f1, item, f1.len() as int);
            },
        }
    }
}

/// The batch law: in the answer to a non-empty batch whose method calls
/// all carry a non-null id and whose malformed envelopes carry none, the
/// items with a non-null id are exactly one per method call.
///
/// A batch may also hold a malformed envelope that carries an id; its
/// error item echoes that id and is not counted here, which is why such
/// envelopes are left out.
pub proof fn lemma_batch_response_count(msgs: Seq<SpecMessage>, items: Seq<SpecResponseItem>)
    requires
        spec_batch_answers(msgs, items),
        forall|i: int|
            0 <= i < msgs.len() ==> (#[trigger] msgs[i] matches SpecMessage::Request(mc)
                ==> !(mc.id is Null)),
        forall|i: int|
            0 <= i < msgs.len() ==> (#[trigger] msgs[i] matches SpecMessage::Invalid(id)
                ==> id is Null),
    ensures
        spec_count_identified(items, items.len() as int) == spec_count_calls(
            msgs,
            msgs.len() as int,
        ),
{
    let rs = lemma_batch_answers_elim(msgs, items);
    lemma_batch_count_helper(msgs, rs, msgs.len() as int);
}

/// The mixed-batch law: when the dispatcher answers a batch of one ping
/// call, one notification and one malformed envelope, exactly two items
/// come back — the ping's empty-object success and the envelope's
/// invalid-request error — each under its own id; the notification
/// contributes nothing.
pub proof fn lemma_mixed_batch<TS: ToolSet, PS: PromptSet, NS: NotificationSink>(
    s: &MCPService<TS, PS, NS>,
    mc: SpecMethodCall,
    bad_id: SpecId,
    msgs: Seq<SpecMessage>,
    items: Seq<SpecResponseItem>,
)
    requires
        mc.method == "ping"@,
        msgs.len() == 3,
        msgs[0] == SpecMessage::Request(mc),
        msgs[1] matches SpecMessage::Notification(_),
        msgs[2] == SpecMessage::Invalid(bad_id),
        spec_batch_answers_for(*s, msgs, items),
    ensures
        items.len() == 2,
        items[0] == (SpecResponseItem::Success { id: mc.id, result: SpecJson::Obj(Seq::empty()) }),
        items[1] == (SpecResponseItem::Error {
            id: bad_id,
            error: SpecErrorData {
                code: ErrorCode::InvalidRequest,
                message: "Invalid request"@,
                data: None,
            },
        }),
{
    let rs = lemma_batch_answers_for_elim(*s, msgs, items);
    assert(spec_message_response_consistent(msgs[0], rs[0]));
    assert(s.answers(msgs[0], rs[0]));
    let item0 = rs[0]->0;
    let vr = choose|vr: Result<SpecResponseItem, SpecRequestError>|
        #[trigger] s.spec_routed(mc, vr) && item0 == spec_finish(mc, vr);
    assert(item0 == SpecResponseItem::Success { id: mc.id, result: SpecJson::Obj(Seq::empty()) });
    assert(spec_message_response_consistent(msgs[1], rs[1]));
    assert(rs[1] is None);
    assert(spec_message_response_consistent(msgs[2], rs[2]));
    reveal_with_fuel(spec_filtered, 4);
    assert(items =~= seq![item0, rs[2]->0]);
}

/// Listing is referentially transparent: two `tools/list` calls on one
/// service, however they are interleaved with other traffic, are answered
/// with the same result; the registry cannot change after build.
pub proof fn lemma_tools_list_stable<TS: ToolSet, PS: PromptSet, NS: NotificationSink>(
    s: &MCPService<TS, PS, NS>,
    mc1: SpecMethodCall,
    mc2: SpecMethodCall,
    i1: SpecResponseItem,
    i2: SpecResponseItem,
)
    requires
        mc1.method == "tools/list"@,
        mc2.method == "tools/list"@,
        mc1.id == mc2.id,
        s.spec_dispatch(mc1, i1),
        s.spec_dispatch(mc2, i2),
    ensures
        i1 == i2,
{
    reveal_strlit("tools/list");
    reveal_strlit("ping");
    reveal_strlit("initialize");
    assert("tools/list"@.len() == 10 && "ping"@.len() == 4 && "initialize"@.len() == 10);
    assert("tools/list"@[0] == 't' && "initialize"@[0] == 'i');
    let vr1 = choose|vr: Result<SpecResponseItem, SpecRequestError>|
        #[trigger] s.spec_routed(mc1, vr) && i1 == spec_finish(mc1, vr);
    let vr2 = choose|vr: Result<SpecResponseItem, SpecRequestError>|
        #[trigger] s.spec_routed(mc2, vr) && i2 == spec_finish(mc2, vr);
    assert(vr1 == vr_ok(
        SpecResponseItem::Success {
            id: mc1.id,
            result: spec_encode_tools_list(s.spec_tools()),
        },
    ));
    assert(vr2 == vr_ok(
        SpecResponseItem::Success {
            id: mc2.id,
            result: spec_encode_tools_list(s.spec_tools()),
        },
    ));
}

/// Listing prompts is referentially transparent in the same way.
pub proof fn lemma_prompts_list_stable<TS: ToolSet, PS: PromptSet, NS: NotificationSink>(
    s: &MCPService<TS, PS, NS>,
    mc1: SpecMethodCall,
    mc2: SpecMethodCall,
    i1: SpecResponseItem,
    i2: SpecResponseItem,
)
    requires
        mc1.method == "prompts/list"@,
        mc2.method == "prompts/list"@,
        mc1.id == mc2.id,
        s.spec_dispatch(mc1, i1),
        s.spec_dispatch(mc2, i2),
    ensures
        i1 == i2,
{
    reveal_strlit("prompts/list");
    reveal_strlit("ping");
    reveal_strlit("initialize");
    reveal_strlit("tools/list");
    reveal_strlit("tools/call");
    reveal_strlit("resources/list");
    reveal_strlit("resources/read");
    assert("prompts/list"@.len() == 12 && "ping"@.len() == 4 && "initialize"@.len() == 10);
    assert("tools/list"@.len() == 10 && "tools/call"@.len() == 10);
    assert("resources/list"@.len() == 14 && "resources/read"@.len() == 14);
    let vr1 = choose|vr: Result<SpecResponseItem, SpecRequestError>|
        #[trigger] s.spec_routed(mc1, vr) && i1 == spec_finish(mc1, vr);
    let vr2 = choose|vr: Result<SpecResponseItem, SpecRequestError>|
        #[trigger] s.spec_routed(mc2, vr) && i2 == spec_finish(mc2, vr);
    assert(vr1 == vr_ok(
        SpecResponseItem::Success {
            id: mc1.id,
            result: spec_encode_prompts_list(s.spec_prompts()),
        },
    ));
    assert(vr2 == vr_ok(
        SpecResponseItem::Success {
            id: mc2.id,
            result: spec_encode_prompts_list(s.spec_prompts()),
        },
    ));
}

} // verus!
