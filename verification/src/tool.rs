//! Tool metadata and tool-handler errors.

use vstd::prelude::*;

use crate::json::{view_obj, JsonValue, SpecJson};

verus! {

/// Metadata describing one tool: an RPC endpoint a model may invoke.
#[derive(Debug)]
pub struct Tool {
    /// The name of the tool, unique within a service.
    pub name: String,
    /// A description of what the tool does; may be empty.
    pub description: String,
    /// A JSON Schema object describing the tool's parameters.
    pub input_schema: JsonValue,
}

/// Model of a tool's metadata.
pub struct SpecTool {
    pub name: Seq<char>,
    pub description: Seq<char>,
    pub input_schema: SpecJson,
}

impl View for Tool {
    type V = SpecTool;

    open spec fn view(&self) -> SpecTool {
        SpecTool {
            name: self.name@,
            description: self.description@,
            input_schema: self.input_schema@,
        }
    }
}

/// How a tool appears in a `tools/list` result.
pub open spec fn spec_encode_tool(t: SpecTool) -> SpecJson {
    SpecJson::Obj(
        seq![
            ("name"@, SpecJson::Str(t.name)),
            ("description"@, SpecJson::Str(t.description)),
            ("inputSchema"@, t.input_schema),
        ],
    )
}

impl Tool {
    /// A tool description with the given name, description and schema.
    pub fn new(name: String, description: String, input_schema: JsonValue) -> (r: Self)
        ensures
            r@ == (SpecTool { name: name@, description: description@, input_schema: input_schema@ }),
    {
        Tool { name, description, input_schema }
    }

    /// An identical copy of this description.
    pub fn dup(&self) -> (r: Self)
        ensures
            r@ == self@,
    {
        Tool {
            name: self.name.clone(),
            description: self.description.clone(),
            input_schema: self.input_schema.dup(),
        }
    }

    /// This tool as it appears in a `tools/list` result.
    pub fn to_json(self) -> (r: JsonValue)
        ensures
            r@ == spec_encode_tool(self@),
    {
        let ghost gt = self@;
        let mut pairs: Vec<(String, JsonValue)> = Vec::new();
        pairs.push(("name".to_owned(), JsonValue::Str(self.name)));
        pairs.push(("description".to_owned(), JsonValue::Str(self.description)));
        pairs.push(("inputSchema".to_owned(), self.input_schema));
        proof {
            reveal_with_fuel(view_obj, 5);
            assert(view_obj(pairs@, pairs@.len() as int) =~= spec_encode_tool(gt)->Obj_0);
        }
        JsonValue::Obj(pairs)
    }
}

/// The outcome of a tool invocation.
pub type ToolResult<T> = Result<T, ToolError>;

/// An error raised by a tool handler.
#[derive(Debug)]
pub enum ToolError {
    /// The arguments did not match the tool's parameters.
    InvalidParameters(String),
    /// The tool ran and failed; reported inside a successful result, not as
    /// a protocol error.
    ExecutionError(String),
    /// The tool's schema could not be produced or applied.
    SchemaError(String),
    /// No tool of the requested name is registered.
    NotFound(String),
}

/// Model of a tool error.
pub enum SpecToolError {
    InvalidParameters(Seq<char>),
    ExecutionError(Seq<char>),
    SchemaError(Seq<char>),
    NotFound(Seq<char>),
}

impl View for ToolError {
    type V = SpecToolError;

    open spec fn view(&self) -> SpecToolError {
        match self {
            ToolError::InvalidParameters(s) => SpecToolError::InvalidParameters(s@),
            ToolError::ExecutionError(s) => SpecToolError::ExecutionError(s@),
            ToolError::SchemaError(s) => SpecToolError::SchemaError(s@),
            ToolError::NotFound(s) => SpecToolError::NotFound(s@),
        }
    }
}

} // verus!
