//! MCP message payloads: what the protocol's method calls return.

use vstd::prelude::*;

use crate::content::{spec_encode_content, Content, SpecContent};
use crate::json::{view_arr, view_obj, JsonValue, SpecJson};
use crate::prompt::{
    spec_encode_prompt, spec_encode_prompt_message, Prompt, PromptMessage, SpecPrompt,
    SpecPromptMessage,
};
use crate::resource::{Resource, ResourceContents};
use crate::tool::{spec_encode_tool, SpecTool, Tool};

verus! {

/// The client's half of the initialize handshake.
#[derive(Debug)]
pub struct InitializeParams {
    pub protocol_version: String,
    pub capabilities: ClientCapabilities,
    pub client_info: ClientInfo,
}

/// What the client says it supports. The service reads none of it; the
/// values are carried as raw JSON.
#[derive(Debug)]
pub struct ClientCapabilities {
    /// Experimental, non-standard capabilities the client supports.
    pub experimental: Option<Vec<(String, JsonValue)>>,
    /// Present if the client supports listing roots.
    pub roots: Option<RootsCapability>,
    /// Present if the client supports sampling from a model.
    pub sampling: Option<JsonValue>,
}

/// Who the client is.
#[derive(Debug)]
pub struct ClientInfo {
    pub name: String,
    pub version: String,
}

/// Whether the client supports notifications for changes to its roots list.
#[derive(Debug, Clone, Copy, PartialEq, Eq, Structural)]
pub struct RootsCapability {
    pub list_changed: Option<bool>,
}

/// The result of `initialize`.
#[derive(Debug)]
pub struct InitializeResult {
    pub protocol_version: String,
    pub capabilities: ServerCapabilities,
    pub server_info: Implementation,
    pub instructions: Option<String>,
}

/// Who the server is.
#[derive(Debug)]
pub struct Implementation {
    pub name: String,
    pub version: String,
}

/// What the server supports, as declared in `initialize`.
#[derive(Debug, Clone, Copy, PartialEq, Eq, Structural)]
pub struct ServerCapabilities {
    pub prompts: Option<PromptsCapability>,
    pub resources: Option<ResourcesCapability>,
    pub tools: Option<ToolsCapability>,
}

/// The prompts capability; `list_changed` says whether the prompt list may
/// change after initialization.
#[derive(Debug, Clone, Copy, PartialEq, Eq, Structural)]
pub struct PromptsCapability {
    pub list_changed: Option<bool>,
}

/// The resources capability.
#[derive(Debug, Clone, Copy, PartialEq, Eq, Structural)]
pub struct ResourcesCapability {
    pub subscribe: Option<bool>,
    pub list_changed: Option<bool>,
}

/// The tools capability; `list_changed` says whether the tool list may
/// change after initialization.
#[derive(Debug, Clone, Copy, PartialEq, Eq, Structural)]
pub struct ToolsCapability {
    pub list_changed: Option<bool>,
}

/// How an optional boolean member appears on the wire: absent booleans are
/// written as JSON null.
pub open spec fn spec_opt_bool_json(b: Option<bool>) -> SpecJson {
    match b {
        Some(b) => SpecJson::Bool(b),
        None => SpecJson::Null,
    }
}

/// Turn an optional boolean member into its JSON form.
fn opt_bool_json(b: Option<bool>) -> (r: JsonValue)
    ensures
        r@ == spec_opt_bool_json(b),
{
    match b {
        Some(b) => JsonValue::Bool(b),
        None => JsonValue::Null,
    }
}

/// How the server capabilities appear in an `initialize` result: a member
/// per supported capability, absent capabilities not written.
pub open spec fn spec_encode_capabilities(c: ServerCapabilities) -> SpecJson {
    SpecJson::Obj(
        (match c.prompts {
            Some(p) => seq![
                (
                    "prompts"@,
                    SpecJson::Obj(seq![("listChanged"@, spec_opt_bool_json(p.list_changed))]),
                ),
            ],
            None => Seq::empty(),
        }) + (match c.resources {
            Some(r) => seq![
                (
                    "resources"@,
                    SpecJson::Obj(
                        seq![
                            ("subscribe"@, spec_opt_bool_json(r.subscribe)),
                            ("listChanged"@, spec_opt_bool_json(r.list_changed)),
                        ],
                    ),
                ),
            ],
            None => Seq::empty(),
        }) + (match c.tools {
            Some(t) => seq![
                (
                    "tools"@,
                    SpecJson::Obj(seq![("listChanged"@, spec_opt_bool_json(t.list_changed))]),
                ),
            ],
            None => Seq::empty(),
        }),
    )
}

impl ServerCapabilities {
    /// These capabilities as they appear in an `initialize` result.
    pub fn to_json(self) -> (r: JsonValue)
        ensures
            r@ == spec_encode_capabilities(self),
    {
        let mut pairs: Vec<(String, JsonValue)> = Vec::new();
        if let Some(p) = self.prompts {
            let mut inner: Vec<(String, JsonValue)> = Vec::new();
            inner.push(("listChanged".to_owned(), opt_bool_json(p.list_changed)));
            let ghost ginner = view_obj(inner@, inner@.len() as int);
            proof {
                reveal_with_fuel(view_obj, 3);
                assert(ginner =~= seq![
                    ("listChanged"@, spec_opt_bool_json(p.list_changed)),
                ]);
            }
            pairs.push(("prompts".to_owned(), JsonValue::Obj(inner)));
        }
        if let Some(r) = self.resources {
            let mut inner: Vec<(String, JsonValue)> = Vec::new();
            inner.push(("subscribe".to_owned(), opt_bool_json(r.subscribe)));
            inner.push(("listChanged".to_owned(), opt_bool_json(r.list_changed)));
            let ghost ginner = view_obj(inner@, inner@.len() as int);
            proof {
                reveal_with_fuel(view_obj, 3);
                assert(ginner =~= seq![
                    ("subscribe"@, spec_opt_bool_json(r.subscribe)),
                    ("listChanged"@, spec_opt_bool_json(r.list_changed)),
                ]);
            }
            pairs.push(("resources".to_owned(), JsonValue::Obj(inner)));
        }
        if let Some(t) = self.tools {
            let mut inner: Vec<(String, JsonValue)> = Vec::new();
            inner.push(("listChanged".to_owned(), opt_bool_json(t.list_changed)));
            let ghost ginner = view_obj(inner@, inner@.len() as int);
            proof {
                reveal_with_fuel(view_obj, 3);
                assert(ginner =~= seq![
                    ("listChanged"@, spec_opt_bool_json(t.list_changed)),
                ]);
            }
            pairs.push(("tools".to_owned(), JsonValue::Obj(inner)));
        }
        proof {
            reveal_with_fuel(view_obj, 5);
            assert(view_obj(pairs@, pairs@.len() as int) =~= spec_encode_capabilities(
                self,
            )->Obj_0);
        }
        JsonValue::Obj(pairs)
    }
}

/// Model of an `initialize` result.
pub struct SpecInitializeResult {
    pub protocol_version: Seq<char>,
    pub capabilities: ServerCapabilities,
    pub server_name: Seq<char>,
    pub server_version: Seq<char>,
    pub instructions: Option<Seq<char>>,
}

impl View for InitializeResult {
    type V = SpecInitializeResult;

    open spec fn view(&self) -> SpecInitializeResult {
        SpecInitializeResult {
            protocol_version: self.protocol_version@,
            capabilities: self.capabilities,
            server_name: self.server_info.name@,
            server_version: self.server_info.version@,
            instructions: match self.instructions {
                Some(ref i) => Some(i@),
                None => None,
            },
        }
    }
}

/// How an `initialize` result appears on the wire.
pub open spec fn spec_encode_initialize_result(r: SpecInitializeResult) -> SpecJson {
    SpecJson::Obj(
        seq![
            ("protocolVersion"@, SpecJson::Str(r.protocol_version)),
            ("capabilities"@, spec_encode_capabilities(r.capabilities)),
            (
                "serverInfo"@,
                SpecJson::Obj(
                    seq![
                        ("name"@, SpecJson::Str(r.server_name)),
                        ("version"@, SpecJson::Str(r.server_version)),
                    ],
                ),
            ),
        ] + (match r.instructions {
            Some(i) => seq![("instructions"@, SpecJson::Str(i))],
            None => Seq::empty(),
        }),
    )
}

impl InitializeResult {
    /// This result as it appears on the wire.
    pub fn to_json(self) -> (r: JsonValue)
        ensures
            r@ == spec_encode_initialize_result(self@),
    {
        let ghost gr = self@;
        let mut info: Vec<(String, JsonValue)> = Vec::new();
        info.push(("name".to_owned(), JsonValue::Str(self.server_info.name)));
        info.push(("version".to_owned(), JsonValue::Str(self.server_info.version)));
        let ghost ginfo = view_obj(info@, info@.len() as int);
        proof {
            reveal_with_fuel(view_obj, 3);
            assert(ginfo =~= seq![
                ("name"@, SpecJson::Str(gr.server_name)),
                ("version"@, SpecJson::Str(gr.server_version)),
            ]);
        }
        let mut pairs: Vec<(String, JsonValue)> = Vec::new();
        pairs.push(("protocolVersion".to_owned(), JsonValue::Str(self.protocol_version)));
        pairs.push(("capabilities".to_owned(), self.capabilities.to_json()));
        pairs.push(("serverInfo".to_owned(), JsonValue::Obj(info)));
        if let Some(i) = self.instructions {
            pairs.push(("instructions".to_owned(), JsonValue::Str(i)));
        }
        proof {
            reveal_with_fuel(view_obj, 6);
            assert(view_obj(pairs@, pairs@.len() as int) =~= spec_encode_initialize_result(
                gr,
            )->Obj_0);
        }
        JsonValue::Obj(pairs)
    }
}

/// The result of `tools/list`.
#[derive(Debug)]
pub struct ListToolsResult {
    pub tools: Vec<Tool>,
}

/// Model of the first `n` tools of a list.
pub open spec fn view_tools(tools: Seq<Tool>, n: int) -> Seq<SpecTool>
    decreases n,
{
    if n <= 0 || n > tools.len() {
        Seq::empty()
    } else {
        view_tools(tools, n - 1).push(tools[n - 1]@)
    }
}

pub broadcast proof fn lemma_view_tools_len(tools: Seq<Tool>, n: int)
    requires
        0 <= n <= tools.len(),
    ensures
        (#[trigger] view_tools(tools, n)).len() == n,
    decreases n,
{
    if n > 0 {
        lemma_view_tools_len(tools, n - 1);
    }
}

pub broadcast proof fn lemma_view_tools_index(tools: Seq<Tool>, n: int, i: int)
    requires
        0 <= n <= tools.len(),
        0 <= i < n,
    ensures
        #[trigger] view_tools(tools, n)[i] == tools[i]@,
    decreases n,
{
    lemma_view_tools_len(tools, n);
    lemma_view_tools_len(tools, n - 1);
    if i < n - 1 {
        lemma_view_tools_index(tools, n - 1, i);
    }
}

/// How a `tools/list` result appears on the wire.
pub open spec fn spec_encode_tools_list(tools: Seq<SpecTool>) -> SpecJson {
    SpecJson::Obj(
        seq![
            ("tools"@, SpecJson::Arr(Seq::new(tools.len(), |i: int| spec_encode_tool(tools[i])))),
        ],
    )
}

impl ListToolsResult {
    /// This result as it appears on the wire.
    pub fn to_json(self) -> (r: JsonValue)
        ensures
            r@ == spec_encode_tools_list(view_tools(self.tools@, self.tools@.len() as int)),
    {
        let mut tools = self.tools;
        let ghost gtools = view_tools(tools@, tools@.len() as int);
        proof {
            lemma_view_tools_len(tools@, tools@.len() as int);
            assert forall|k: int| 0 <= k < tools@.len() implies #[trigger] tools@[k]@
                == gtools[k] by {
                lemma_view_tools_index(tools@, tools@.len() as int, k);
            }
        }
        let n = tools.len();
        let mut elems: Vec<JsonValue> = Vec::new();
        let mut i: usize = 0;
        while i < n
            invariant
                n == tools@.len(),
                i == elems@.len(),
                0 <= i <= n,
                gtools.len() == n,
                forall|k: int| i <= k < n ==> #[trigger] tools@[k]@ == gtools[k],
                forall|k: int|
                    0 <= k < i ==> #[trigger] elems@[k]@ == spec_encode_tool(gtools[k]),
            decreases n - i,
        {
            let mut t = Tool {
                name: String::new(),
                description: String::new(),
                input_schema: JsonValue::Null,
            };
            core::mem::swap(&mut tools[i], &mut t);
            let e = t.to_json();
            elems.push(e);
            i = i + 1;
        }
        proof {
            crate::json::lemma_view_arr_len(elems@, elems@.len() as int);
            assert forall|k: int| 0 <= k < n implies #[trigger] view_arr(
                elems@,
                elems@.len() as int,
            )[k] == spec_encode_tool(gtools[k]) by {
                crate::json::lemma_view_arr_index(elems@, elems@.len() as int, k);
                assert(elems@[k]@ == spec_encode_tool(gtools[k]));
            }
            assert(view_arr(elems@, elems@.len() as int) =~= Seq::new(
                gtools.len(),
                |i: int| spec_encode_tool(gtools[i]),
            ));
        }
        let mut pairs: Vec<(String, JsonValue)> = Vec::new();
        pairs.push(("tools".to_owned(), JsonValue::Arr(elems)));
        proof {
            reveal_with_fuel(view_obj, 3);
            assert(view_obj(pairs@, pairs@.len() as int) =~= spec_encode_tools_list(
                gtools,
            )->Obj_0);
        }
        JsonValue::Obj(pairs)
    }
}

/// The result of `prompts/list`.
#[derive(Debug)]
pub struct ListPromptsResult {
    pub prompts: Vec<Prompt>,
}

/// Model of the first `n` prompts of a list.
pub open spec fn view_prompts(prompts: Seq<Prompt>, n: int) -> Seq<SpecPrompt>
    decreases n,
{
    if n <= 0 || n > prompts.len() {
        Seq::empty()
    } else {
        view_prompts(prompts, n - 1).push(prompts[n - 1]@)
    }
}

pub broadcast proof fn lemma_view_prompts_len(prompts: Seq<Prompt>, n: int)
    requires
        0 <= n <= prompts.len(),
    ensures
        (#[trigger] view_prompts(prompts, n)).len() == n,
    decreases n,
{
    if n > 0 {
        lemma_view_prompts_len(prompts, n - 1);
    }
}

pub broadcast proof fn lemma_view_prompts_index(prompts: Seq<Prompt>, n: int, i: int)
    requires
        0 <= n <= prompts.len(),
        0 <= i < n,
    ensures
        #[trigger] view_prompts(prompts, n)[i] == prompts[i]@,
    decreases n,
{
    lemma_view_prompts_len(prompts, n);
    lemma_view_prompts_len(prompts, n - 1);
    if i < n - 1 {
        lemma_view_prompts_index(prompts, n - 1, i);
    }
}

/// How a `prompts/list` result appears on the wire.
pub open spec fn spec_encode_prompts_list(prompts: Seq<SpecPrompt>) -> SpecJson {
    SpecJson::Obj(
        seq![
            (
                "prompts"@,
                SpecJson::Arr(Seq::new(prompts.len(), |i: int| spec_encode_prompt(prompts[i]))),
            ),
        ],
    )
}

impl ListPromptsResult {
    /// This result as it appears on the wire.
    pub fn to_json(self) -> (r: JsonValue)
        ensures
            r@ == spec_encode_prompts_list(view_prompts(self.prompts@, self.prompts@.len() as int)),
    {
        let mut prompts = self.prompts;
        let ghost gprompts = view_prompts(prompts@, prompts@.len() as int);
        proof {
            lemma_view_prompts_len(prompts@, prompts@.len() as int);
            assert forall|k: int| 0 <= k < prompts@.len() implies #[trigger] prompts@[k]@
                == gprompts[k] by {
                lemma_view_prompts_index(prompts@, prompts@.len() as int, k);
            }
        }
        let n = prompts.len();
        let mut elems: Vec<JsonValue> = Vec::new();
        let mut i: usize = 0;
        while i < n
            invariant
                n == prompts@.len(),
                i == elems@.len(),
                0 <= i <= n,
                gprompts.len() == n,
                forall|k: int| i <= k < n ==> #[trigger] prompts@[k]@ == gprompts[k],
                forall|k: int|
                    0 <= k < i ==> #[trigger] elems@[k]@ == spec_encode_prompt(gprompts[k]),
            decreases n - i,
        {
            let mut p = Prompt { name: String::new(), description: None, arguments: None };
            core::mem::swap(&mut prompts[i], &mut p);
            let e = p.to_json();
            elems.push(e);
            i = i + 1;
        }
        proof {
            crate::json::lemma_view_arr_len(elems@, elems@.len() as int);
            assert forall|k: int| 0 <= k < n implies #[trigger] view_arr(
                elems@,
                elems@.len() as int,
            )[k] == spec_encode_prompt(gprompts[k]) by {
                crate::json::lemma_view_arr_index(elems@, elems@.len() as int, k);
                assert(elems@[k]@ == spec_encode_prompt(gprompts[k]));
            }
            assert(view_arr(elems@, elems@.len() as int) =~= Seq::new(
                gprompts.len(),
                |i: int| spec_encode_prompt(gprompts[i]),
            ));
        }
        let mut pairs: Vec<(String, JsonValue)> = Vec::new();
        pairs.push(("prompts".to_owned(), JsonValue::Arr(elems)));
        proof {
            reveal_with_fuel(view_obj, 3);
            assert(view_obj(pairs@, pairs@.len() as int) =~= spec_encode_prompts_list(
                gprompts,
            )->Obj_0);
        }
        JsonValue::Obj(pairs)
    }
}

/// The result of `resources/list`.
#[derive(Debug)]
pub struct ListResourcesResult {
    pub resources: Vec<Resource>,
}

/// How an empty `resources/list` result appears on the wire.
pub open spec fn spec_encode_empty_resources_list() -> SpecJson {
    SpecJson::Obj(seq![("resources"@, SpecJson::Arr(Seq::empty()))])
}

impl ListResourcesResult {
    /// This result as it appears on the wire. Resource listing is a stub:
    /// only the empty list is ever built.
    pub fn to_json(self) -> (r: JsonValue)
        requires
            self.resources@.len() == 0,
        ensures
            r@ == spec_encode_empty_resources_list(),
    {
        let mut pairs: Vec<(String, JsonValue)> = Vec::new();
        pairs.push(("resources".to_owned(), JsonValue::Arr(Vec::new())));
        proof {
            reveal_with_fuel(view_obj, 3);
            reveal_with_fuel(view_arr, 2);
            assert(view_obj(pairs@, pairs@.len() as int) =~= spec_encode_empty_resources_list(
            )->Obj_0);
        }
        JsonValue::Obj(pairs)
    }
}

/// The result of `resources/read`.
#[derive(Debug)]
pub struct ReadResourceResult {
    pub contents: Vec<ResourceContents>,
}

/// The result of `tools/call`.
#[derive(Debug)]
pub struct CallToolResult {
    /// What the tool produced.
    pub content: Vec<Content>,
    /// Whether the tool ran and failed; such a failure is part of a
    /// successful response, for the model to observe.
    pub is_error: bool,
}

/// Model of the first `n` pieces of content.
pub open spec fn view_content(cs: Seq<Content>, n: int) -> Seq<SpecContent>
    decreases n,
{
    if n <= 0 || n > cs.len() {
        Seq::empty()
    } else {
        view_content(cs, n - 1).push(cs[n - 1]@)
    }
}

pub broadcast proof fn lemma_view_content_len(cs: Seq<Content>, n: int)
    requires
        0 <= n <= cs.len(),
    ensures
        (#[trigger] view_content(cs, n)).len() == n,
    decreases n,
{
    if n > 0 {
        lemma_view_content_len(cs, n - 1);
    }
}

pub broadcast proof fn lemma_view_content_index(cs: Seq<Content>, n: int, i: int)
    requires
        0 <= n <= cs.len(),
        0 <= i < n,
    ensures
        #[trigger] view_content(cs, n)[i] == cs[i]@,
    decreases n,
{
    lemma_view_content_len(cs, n);
    lemma_view_content_len(cs, n - 1);
    if i < n - 1 {
        lemma_view_content_index(cs, n - 1, i);
    }
}

/// Model of a tool-call result.
pub struct SpecCallToolResult {
    pub content: Seq<SpecContent>,
    pub is_error: bool,
}

impl View for CallToolResult {
    type V = SpecCallToolResult;

    open spec fn view(&self) -> SpecCallToolResult {
        SpecCallToolResult {
            content: view_content(self.content@, self.content@.len() as int),
            is_error: self.is_error,
        }
    }
}

/// How a `tools/call` result appears on the wire: the `isError` member is
/// written only when it is true.
pub open spec fn spec_encode_call_tool_result(r: SpecCallToolResult) -> SpecJson {
    SpecJson::Obj(
        seq![
            (
                "content"@,
                SpecJson::Arr(
                    Seq::new(r.content.len(), |i: int| spec_encode_content(r.content[i])),
                ),
            ),
        ] + (if r.is_error {
            seq![("isError"@, SpecJson::Bool(true))]
        } else {
            Seq::empty()
        }),
    )
}

impl CallToolResult {
    /// This result as it appears on the wire.
    pub fn to_json(self) -> (r: JsonValue)
        ensures
            r@ == spec_encode_call_tool_result(self@),
    {
        let ghost gr = self@;
        let mut content = self.content;
        let ghost gcontent = view_content(content@, content@.len() as int);
        proof {
            lemma_view_content_len(content@, content@.len() as int);
            assert forall|k: int| 0 <= k < content@.len() implies #[trigger] content@[k]@
                == gcontent[k] by {
                lemma_view_content_index(content@, content@.len() as int, k);
            }
        }
        let n = content.len();
        let mut elems: Vec<JsonValue> = Vec::new();
        let mut i: usize = 0;
        while i < n
            invariant
                n == content@.len(),
                i == elems@.len(),
                0 <= i <= n,
                gcontent.len() == n,
                forall|k: int| i <= k < n ==> #[trigger] content@[k]@ == gcontent[k],
                forall|k: int|
                    0 <= k < i ==> #[trigger] elems@[k]@ == spec_encode_content(gcontent[k]),
            decreases n - i,
        {
            let mut c = Content::Text(
                crate::content::TextContent { text: String::new(), annotations: None },
            );
            core::mem::swap(&mut content[i], &mut c);
            let e = c.to_json();
            elems.push(e);
            i = i + 1;
        }
        proof {
            crate::json::lemma_view_arr_len(elems@, elems@.len() as int);
            assert forall|k: int| 0 <= k < n implies #[trigger] view_arr(
                elems@,
                elems@.len() as int,
            )[k] == spec_encode_content(gcontent[k]) by {
                crate::json::lemma_view_arr_index(elems@, elems@.len() as int, k);
                assert(elems@[k]@ == spec_encode_content(gcontent[k]));
            }
            assert(view_arr(elems@, elems@.len() as int) =~= Seq::new(
                gcontent.len(),
                |i: int| spec_encode_content(gcontent[i]),
            ));
        }
        let mut pairs: Vec<(String, JsonValue)> = Vec::new();
        pairs.push(("content".to_owned(), JsonValue::Arr(elems)));
        if self.is_error {
            pairs.push(("isError".to_owned(), JsonValue::Bool(true)));
        }
        proof {
            reveal_with_fuel(view_obj, 4);
            assert(view_obj(pairs@, pairs@.len() as int) =~= spec_encode_call_tool_result(
                gr,
            )->Obj_0);
        }
        JsonValue::Obj(pairs)
    }
}

/// A `prompts/get` request as a client would shape it.
#[derive(Debug)]
pub struct GetPromptRequest {
    pub name: String,
    pub arguments: Option<Vec<(String, String)>>,
}

/// The result of `prompts/get`.
#[derive(Debug)]
pub struct GetPromptResult {
    pub description: Option<String>,
    pub messages: Vec<PromptMessage>,
}

/// Model of the first `n` prompt messages.
pub open spec fn view_messages(ms: Seq<PromptMessage>, n: int) -> Seq<SpecPromptMessage>
    decreases n,
{
    if n <= 0 || n > ms.len() {
        Seq::empty()
    } else {
        view_messages(ms, n - 1).push(ms[n - 1]@)
    }
}

pub broadcast proof fn lemma_view_messages_len(ms: Seq<PromptMessage>, n: int)
    requires
        0 <= n <= ms.len(),
    ensures
        (#[trigger] view_messages(ms, n)).len() == n,
    decreases n,
{
    if n > 0 {
        lemma_view_messages_len(ms, n - 1);
    }
}

pub broadcast proof fn lemma_view_messages_index(ms: Seq<PromptMessage>, n: int, i: int)
    requires
        0 <= n <= ms.len(),
        0 <= i < n,
    ensures
        #[trigger] view_messages(ms, n)[i] == ms[i]@,
    decreases n,
{
    lemma_view_messages_len(ms, n);
    lemma_view_messages_len(ms, n - 1);
    if i < n - 1 {
        lemma_view_messages_index(ms, n - 1, i);
    }
}

/// How a `prompts/get` result appears on the wire.
pub open spec fn spec_encode_get_prompt_result(
    description: Option<Seq<char>>,
    ms: Seq<SpecPromptMessage>,
) -> SpecJson {
    SpecJson::Obj(
        (match description {
            Some(d) => seq![("description"@, SpecJson::Str(d))],
            None => Seq::empty(),
        }) + seq![
            (
                "messages"@,
                SpecJson::Arr(Seq::new(ms.len(), |i: int| spec_encode_prompt_message(ms[i]))),
            ),
        ],
    )
}

impl GetPromptResult {
    /// This result as it appears on the wire.
    pub fn to_json(self) -> (r: JsonValue)
        ensures
            r@ == spec_encode_get_prompt_result(
                match self.description {
                    Some(d) => Some(d@),
                    None => None,
                },
                view_messages(self.messages@, self.messages@.len() as int),
            ),
    {
        let ghost gdesc: Option<Seq<char>> = match self.description {
            Some(ref d) => Some(d@),
            None => None,
        };
        let mut messages = self.messages;
        let ghost gmsgs = view_messages(messages@, messages@.len() as int);
        proof {
            lemma_view_messages_len(messages@, messages@.len() as int);
            assert forall|k: int| 0 <= k < messages@.len() implies #[trigger] messages@[k]@
                == gmsgs[k] by {
                lemma_view_messages_index(messages@, messages@.len() as int, k);
            }
        }
        let n = messages.len();
        let mut elems: Vec<JsonValue> = Vec::new();
        let mut i: usize = 0;
        while i < n
            invariant
                n == messages@.len(),
                i == elems@.len(),
                0 <= i <= n,
                gmsgs.len() == n,
                forall|k: int| i <= k < n ==> #[trigger] messages@[k]@ == gmsgs[k],
                forall|k: int|
                    0 <= k < i ==> #[trigger] elems@[k]@ == spec_encode_prompt_message(gmsgs[k]),
            decreases n - i,
        {
            let mut m = PromptMessage {
                role: crate::prompt::PromptMessageRole::User,
                content: crate::prompt::PromptMessageContent::Text { text: String::new() },
            };
            core::mem::swap(&mut messages[i], &mut m);
            let e = m.to_json();
            elems.push(e);
            i = i + 1;
        }
        proof {
            crate::json::lemma_view_arr_len(elems@, elems@.len() as int);
            assert forall|k: int| 0 <= k < n implies #[trigger] view_arr(
                elems@,
                elems@.len() as int,
            )[k] == spec_encode_prompt_message(gmsgs[k]) by {
                crate::json::lemma_view_arr_index(elems@, elems@.len() as int, k);
                assert(elems@[k]@ == spec_encode_prompt_message(gmsgs[k]));
            }
            assert(view_arr(elems@, elems@.len() as int) =~= Seq::new(
                gmsgs.len(),
                |i: int| spec_encode_prompt_message(gmsgs[i]),
            ));
        }
        let mut pairs: Vec<(String, JsonValue)> = Vec::new();
        if let Some(d) = self.description {
            pairs.push(("description".to_owned(), JsonValue::Str(d)));
        }
        pairs.push(("messages".to_owned(), JsonValue::Arr(elems)));
        proof {
            reveal_with_fuel(view_obj, 4);
            assert(view_obj(pairs@, pairs@.len() as int) =~= spec_encode_get_prompt_result(
                gdesc,
                gmsgs,
            )->Obj_0);
        }
        JsonValue::Obj(pairs)
    }
}

} // verus!
