//! Folding handler outcomes into tool results.
//!
//! A tool that runs and fails reports its failure *inside* a successful
//! result, flagged `is_error`, so the model can observe it; only parameter,
//! schema and lookup failures leave `call` as errors and become JSON-RPC
//! error responses. [`fold_tool_outcome`] is that rule;
//! [`IntoCallToolResult`] lets plain values returned by user functions
//! become tool results.

use vstd::prelude::*;

use crate::content::{Content, SpecContent};
use crate::messages::{view_content, CallToolResult, SpecCallToolResult};
use crate::render::{dec_text, int_text};
use crate::tool::{SpecToolError, ToolError};

verus! {

/// Model of a folded tool outcome: an execution failure becomes a
/// successful result whose single text content is `"Error: "` and the
/// failure's text, flagged `is_error`; anything else is kept.
pub open spec fn spec_fold_tool_outcome(
    o: Result<SpecCallToolResult, SpecToolError>,
) -> Result<SpecCallToolResult, SpecToolError> {
    match o {
        Ok(res) => Ok(res),
        Err(SpecToolError::ExecutionError(msg)) => Ok(
            SpecCallToolResult {
                content: seq![
                    SpecContent::Text { text: "Error: "@ + msg, annotations: None },
                ],
                is_error: true,
            },
        ),
        Err(e) => Err(e),
    }
}

/// Model of a tool outcome.
pub open spec fn spec_tool_outcome(o: &Result<CallToolResult, ToolError>) -> Result<
    SpecCallToolResult,
    SpecToolError,
> {
    match o {
        Ok(res) => Ok(res@),
        Err(e) => Err(e@),
    }
}

/// Fold a handler's outcome: an execution failure is embedded in a
/// successful result for the model to observe; every other error
/// propagates.
pub fn fold_tool_outcome(o: Result<CallToolResult, ToolError>) -> (r: Result<
    CallToolResult,
    ToolError,
>)
    ensures
        spec_tool_outcome(&r) == spec_fold_tool_outcome(spec_tool_outcome(&o)),
        !(r matches Err(e) && e@ matches SpecToolError::ExecutionError(_)),
{
    match o {
        Ok(res) => Ok(res),
        Err(ToolError::ExecutionError(msg)) => {
            let mut text: String = "Error: ".to_owned();
            text.append(msg.as_str());
            let content = Content::text(text);
            let mut contents: Vec<Content> = Vec::new();
            contents.push(content);
            let r = CallToolResult { content: contents, is_error: true };
            proof {
                crate::messages::lemma_view_content_len(r.content@, r.content@.len() as int);
                crate::messages::lemma_view_content_index(r.content@, r.content@.len() as int, 0);
                assert(r@.content =~= seq![
                    SpecContent::Text { text: "Error: "@ + msg@, annotations: None },
                ]);
            }
            Ok(r)
        },
        Err(e) => Err(e),
    }
}

/// No conversion ever hands a raw execution failure to the protocol
/// layer: the folded outcome is a success flagged `is_error`, or one of
/// the other error kinds.
pub proof fn lemma_fold_never_execution_error(o: Result<SpecCallToolResult, SpecToolError>)
    ensures
        !(spec_fold_tool_outcome(o) matches Err(e) && e matches SpecToolError::ExecutionError(_)),
{
}

/// A value a user function may return in place of a full tool result.
///
/// The library provides the conversions the protocol prescribes: nothing
/// becomes an empty result, scalars become one piece of text, content lists
/// stay as they are, and a `Result` folds its error. Implement it for your
/// own types to return them from handlers directly; `spec_outcome` states
/// which outcome the value denotes, and the conversion must produce
/// exactly that.
pub trait IntoCallToolResult {
    /// The tool outcome this value denotes.
    spec fn spec_outcome(self) -> Result<SpecCallToolResult, SpecToolError>;

    /// This value as a tool outcome.
    fn into_call_tool_result(self) -> (r: Result<CallToolResult, ToolError>)
        ensures
            spec_tool_outcome(&r) == self.spec_outcome(),
    ;
}

/// Model of a successful result holding one piece of text.
pub open spec fn spec_text_result(text: Seq<char>) -> SpecCallToolResult {
    SpecCallToolResult {
        content: seq![SpecContent::Text { text, annotations: None }],
        is_error: false,
    }
}

/// A successful result holding one piece of text.
pub fn text_tool_result(text: String) -> (r: CallToolResult)
    ensures
        r@ == spec_text_result(text@),
{
    let ghost gt = text@;
    let mut contents: Vec<Content> = Vec::new();
    contents.push(Content::text(text));
    let r = CallToolResult { content: contents, is_error: false };
    proof {
        crate::messages::lemma_view_content_len(r.content@, r.content@.len() as int);
        crate::messages::lemma_view_content_index(r.content@, r.content@.len() as int, 0);
        assert(r@.content =~= seq![SpecContent::Text { text: gt, annotations: None }]);
    }
    r
}

/// A successful result holding no content.
pub fn empty_tool_result() -> (r: CallToolResult)
    ensures
        r@ == (SpecCallToolResult { content: Seq::empty(), is_error: false }),
{
    let r = CallToolResult { content: Vec::new(), is_error: false };
    proof {
        assert(r@.content =~= Seq::<SpecContent>::empty());
    }
    r
}

/// The decimal text of `n`, as a fresh string.
fn i64_string(n: i64) -> (r: String)
    ensures
        r@ == int_text(n as int),
{
    let mut out = String::new();
    crate::render::append_dec_i64(n, &mut out);
    out
}

impl IntoCallToolResult for String {
    open spec fn spec_outcome(self) -> Result<SpecCallToolResult, SpecToolError> {
        Ok(spec_text_result(self@))
    }

    /// One piece of text holding this string.
    fn into_call_tool_result(self) -> (r: Result<CallToolResult, ToolError>) {
        Ok(text_tool_result(self))
    }
}

impl IntoCallToolResult for bool {
    open spec fn spec_outcome(self) -> Result<SpecCallToolResult, SpecToolError> {
        Ok(spec_text_result(if self { "true"@ } else { "false"@ }))
    }

    /// One piece of text, `"true"` or `"false"`.
    fn into_call_tool_result(self) -> (r: Result<CallToolResult, ToolError>) {
        let text: String = if self {
            "true".to_owned()
        } else {
            "false".to_owned()
        };
        Ok(text_tool_result(text))
    }
}

impl IntoCallToolResult for i64 {
    open spec fn spec_outcome(self) -> Result<SpecCallToolResult, SpecToolError> {
        Ok(spec_text_result(int_text(self as int)))
    }

    /// One piece of text holding this number in decimal.
    fn into_call_tool_result(self) -> (r: Result<CallToolResult, ToolError>) {
        Ok(text_tool_result(i64_string(self)))
    }
}

impl IntoCallToolResult for i32 {
    open spec fn spec_outcome(self) -> Result<SpecCallToolResult, SpecToolError> {
        Ok(spec_text_result(int_text(self as int)))
    }

    /// One piece of text holding this number in decimal.
    fn into_call_tool_result(self) -> (r: Result<CallToolResult, ToolError>) {
        Ok(text_tool_result(i64_string(self as i64)))
    }
}

impl IntoCallToolResult for i16 {
    open spec fn spec_outcome(self) -> Result<SpecCallToolResult, SpecToolError> {
        Ok(spec_text_result(int_text(self as int)))
    }

    /// One piece of text holding this number in decimal.
    fn into_call_tool_result(self) -> (r: Result<CallToolResult, ToolError>) {
        Ok(text_tool_result(i64_string(self as i64)))
    }
}

impl IntoCallToolResult for i8 {
    open spec fn spec_outcome(self) -> Result<SpecCallToolResult, SpecToolError> {
        Ok(spec_text_result(int_text(self as int)))
    }

    /// One piece of text holding this number in decimal.
    fn into_call_tool_result(self) -> (r: Result<CallToolResult, ToolError>) {
        Ok(text_tool_result(i64_string(self as i64)))
    }
}

impl IntoCallToolResult for u64 {
    open spec fn spec_outcome(self) -> Result<SpecCallToolResult, SpecToolError> {
        Ok(spec_text_result(dec_text(self as int)))
    }

    /// One piece of text holding this number in decimal.
    fn into_call_tool_result(self) -> (r: Result<CallToolResult, ToolError>) {
        Ok(text_tool_result(crate::render::u64_string(self)))
    }
}

impl IntoCallToolResult for u32 {
    open spec fn spec_outcome(self) -> Result<SpecCallToolResult, SpecToolError> {
        Ok(spec_text_result(dec_text(self as int)))
    }

    /// One piece of text holding this number in decimal.
    fn into_call_tool_result(self) -> (r: Result<CallToolResult, ToolError>) {
        Ok(text_tool_result(crate::render::u64_string(self as u64)))
    }
}

impl IntoCallToolResult for u16 {
    open spec fn spec_outcome(self) -> Result<SpecCallToolResult, SpecToolError> {
        Ok(spec_text_result(dec_text(self as int)))
    }

    /// One piece of text holding this number in decimal.
    fn into_call_tool_result(self) -> (r: Result<CallToolResult, ToolError>) {
        Ok(text_tool_result(crate::render::u64_string(self as u64)))
    }
}

impl IntoCallToolResult for u8 {
    open spec fn spec_outcome(self) -> Result<SpecCallToolResult, SpecToolError> {
        Ok(spec_text_result(dec_text(self as int)))
    }

    /// One piece of text holding this number in decimal.
    fn into_call_tool_result(self) -> (r: Result<CallToolResult, ToolError>) {
        Ok(text_tool_result(crate::render::u64_string(self as u64)))
    }
}

impl IntoCallToolResult for Vec<Content> {
    open spec fn spec_outcome(self) -> Result<SpecCallToolResult, SpecToolError> {
        Ok(
            SpecCallToolResult {
                content: view_content(self@, self@.len() as int),
                is_error: false,
            },
        )
    }

    /// A successful result holding exactly this content.
    fn into_call_tool_result(self) -> (r: Result<CallToolResult, ToolError>) {
        Ok(CallToolResult { content: self, is_error: false })
    }
}

impl IntoCallToolResult for () {
    open spec fn spec_outcome(self) -> Result<SpecCallToolResult, SpecToolError> {
        Ok(SpecCallToolResult { content: Seq::empty(), is_error: false })
    }

    /// A successful result holding no content.
    fn into_call_tool_result(self) -> (r: Result<CallToolResult, ToolError>) {
        Ok(empty_tool_result())
    }
}

impl<T: IntoCallToolResult> IntoCallToolResult for Result<T, ToolError> {
    open spec fn spec_outcome(self) -> Result<SpecCallToolResult, SpecToolError> {
        spec_fold_tool_outcome(
            match self {
                Ok(value) => value.spec_outcome(),
                Err(err) => Err(err@),
            },
        )
    }

    /// The folded outcome: a success converts its value; an execution
    /// failure is embedded in a successful result; other errors propagate.
    /// The result is never a raw execution failure.
    fn into_call_tool_result(self) -> (r: Result<CallToolResult, ToolError>) {
        match self {
            Ok(value) => match value.into_call_tool_result() {
                Ok(res) => fold_tool_outcome(Ok(res)),
                Err(e) => fold_tool_outcome(Err(e)),
            },
            Err(err) => fold_tool_outcome(Err(err)),
        }
    }
}

/// A logical error with a displayable message; returning `Err` of it from a
/// handler reports the failure inside a successful result.
#[derive(Debug)]
pub struct DisplayableError {
    /// The error's message.
    pub message: String,
}

impl DisplayableError {
    /// A logical error with the given message.
    pub fn new(message: String) -> (r: Self)
        ensures
            r.message@ == message@,
    {
        DisplayableError { message }
    }

    /// The message.
    pub fn message(&self) -> (r: &String)
        ensures
            r@ == self.message@,
    {
        &self.message
    }
}

impl<T: IntoCallToolResult> IntoCallToolResult for Result<T, DisplayableError> {
    open spec fn spec_outcome(self) -> Result<SpecCallToolResult, SpecToolError> {
        match self {
            Ok(value) => value.spec_outcome(),
            Err(err) => Ok(
                SpecCallToolResult {
                    content: seq![
                        SpecContent::Text { text: err.message@, annotations: None },
                    ],
                    is_error: true,
                },
            ),
        }
    }

    /// A success converts its value; an error becomes a successful result
    /// flagged `is_error`, holding the error's message.
    fn into_call_tool_result(self) -> (r: Result<CallToolResult, ToolError>) {
        match self {
            Ok(value) => value.into_call_tool_result(),
            Err(err) => {
                let ghost gmsg = err.message@;
                let mut contents: Vec<Content> = Vec::new();
                contents.push(Content::text(err.message));
                let res = CallToolResult { content: contents, is_error: true };
                proof {
                    crate::messages::lemma_view_content_len(res.content@, res.content@.len() as int);
                    crate::messages::lemma_view_content_index(
                        res.content@,
                        res.content@.len() as int,
                        0,
                    );
                    assert(res@.content =~= seq![
                        SpecContent::Text { text: gmsg, annotations: None },
                    ]);
                }
                Ok(res)
            },
        }
    }
}

} // verus!
