//! Prompt metadata, prompt messages and prompt-handler errors.

use vstd::prelude::*;

use crate::json::{view_obj, JsonValue, SpecJson};

verus! {

/// One declared argument of a prompt.
#[derive(Debug)]
pub struct PromptArgument {
    /// The argument's name.
    pub name: String,
    /// What the argument is for.
    pub description: Option<String>,
    /// Whether a caller must supply it; absent means required.
    pub required: Option<bool>,
}

/// Model of a prompt argument.
pub struct SpecPromptArgument {
    pub name: Seq<char>,
    pub description: Option<Seq<char>>,
    pub required: Option<bool>,
}

impl View for PromptArgument {
    type V = SpecPromptArgument;

    open spec fn view(&self) -> SpecPromptArgument {
        SpecPromptArgument {
            name: self.name@,
            description: match self.description {
                Some(ref d) => Some(d@),
                None => None,
            },
            required: self.required,
        }
    }
}

/// How a prompt argument appears in a `prompts/list` result.
pub open spec fn spec_encode_prompt_argument(a: SpecPromptArgument) -> SpecJson {
    SpecJson::Obj(
        seq![("name"@, SpecJson::Str(a.name))] + (match a.description {
            Some(d) => seq![("description"@, SpecJson::Str(d))],
            None => Seq::empty(),
        }) + (match a.required {
            Some(r) => seq![("required"@, SpecJson::Bool(r))],
            None => Seq::empty(),
        }),
    )
}

impl PromptArgument {
    /// An identical copy of this argument.
    pub fn dup(&self) -> (r: Self)
        ensures
            r@ == self@,
    {
        PromptArgument {
            name: self.name.clone(),
            description: match &self.description {
                Some(d) => Some(d.clone()),
                None => None,
            },
            required: self.required,
        }
    }

    /// This argument as it appears in a `prompts/list` result.
    pub fn to_json(self) -> (r: JsonValue)
        ensures
            r@ == spec_encode_prompt_argument(self@),
    {
        let ghost ga = self@;
        let mut pairs: Vec<(String, JsonValue)> = Vec::new();
        pairs.push(("name".to_owned(), JsonValue::Str(self.name)));
        if let Some(d) = self.description {
            pairs.push(("description".to_owned(), JsonValue::Str(d)));
        }
        if let Some(r) = self.required {
            pairs.push(("required".to_owned(), JsonValue::Bool(r)));
        }
        proof {
            reveal_with_fuel(view_obj, 5);
            assert(view_obj(pairs@, pairs@.len() as int) =~= spec_encode_prompt_argument(
                ga,
            )->Obj_0);
        }
        JsonValue::Obj(pairs)
    }
}

/// Metadata describing one prompt: a named text-template generator.
#[derive(Debug)]
pub struct Prompt {
    /// The name of the prompt, unique within a service.
    pub name: String,
    /// What the prompt generates.
    pub description: Option<String>,
    /// The arguments the prompt accepts, in declaration order.
    pub arguments: Option<Vec<PromptArgument>>,
}

/// Model of a prompt's metadata.
pub struct SpecPrompt {
    pub name: Seq<char>,
    pub description: Option<Seq<char>>,
    pub arguments: Option<Seq<SpecPromptArgument>>,
}

/// Model of the first `n` declared arguments.
pub open spec fn view_args(args: Seq<PromptArgument>, n: int) -> Seq<SpecPromptArgument>
    decreases n,
{
    if n <= 0 || n > args.len() {
        Seq::empty()
    } else {
        view_args(args, n - 1).push(args[n - 1]@)
    }
}

pub broadcast proof fn lemma_view_args_len(args: Seq<PromptArgument>, n: int)
    requires
        0 <= n <= args.len(),
    ensures
        (#[trigger] view_args(args, n)).len() == n,
    decreases n,
{
    if n > 0 {
        lemma_view_args_len(args, n - 1);
    }
}

pub broadcast proof fn lemma_view_args_index(args: Seq<PromptArgument>, n: int, i: int)
    requires
        0 <= n <= args.len(),
        0 <= i < n,
    ensures
        #[trigger] view_args(args, n)[i] == args[i]@,
    decreases n,
{
    lemma_view_args_len(args, n);
    lemma_view_args_len(args, n - 1);
    if i < n - 1 {
        lemma_view_args_index(args, n - 1, i);
    }
}

impl View for Prompt {
    type V = SpecPrompt;

    open spec fn view(&self) -> SpecPrompt {
        SpecPrompt {
            name: self.name@,
            description: match self.description {
                Some(ref d) => Some(d@),
                None => None,
            },
            arguments: match self.arguments {
                Some(ref args) => Some(view_args(args@, args@.len() as int)),
                None => None,
            },
        }
    }
}

/// How a prompt appears in a `prompts/list` result.
pub open spec fn spec_encode_prompt(p: SpecPrompt) -> SpecJson {
    SpecJson::Obj(
        seq![("name"@, SpecJson::Str(p.name))] + (match p.description {
            Some(d) => seq![("description"@, SpecJson::Str(d))],
            None => Seq::empty(),
        }) + (match p.arguments {
            Some(args) => seq![
                (
                    "arguments"@,
                    SpecJson::Arr(
                        Seq::new(args.len(), |i: int| spec_encode_prompt_argument(args[i])),
                    ),
                ),
            ],
            None => Seq::empty(),
        }),
    )
}

impl Prompt {
    /// A prompt description with the given name, description and arguments.
    pub fn new(
        name: String,
        description: Option<String>,
        arguments: Option<Vec<PromptArgument>>,
    ) -> (r: Self)
        ensures
            r == (Prompt { name, description, arguments }),
    {
        Prompt { name, description, arguments }
    }

    /// An identical copy of this description.
    pub fn dup(&self) -> (r: Self)
        ensures
            r@ == self@,
    {
        let arguments: Option<Vec<PromptArgument>> = match &self.arguments {
            Some(args) => {
                let ghost gargs = view_args(args@, args@.len() as int);
                proof {
                    lemma_view_args_len(args@, args@.len() as int);
                }
                let n = args.len();
                let mut out: Vec<PromptArgument> = Vec::new();
                let mut i: usize = 0;
                while i < n
                    invariant
                        n == args@.len(),
                        i == out@.len(),
                        0 <= i <= n,
                        gargs == view_args(args@, args@.len() as int),
                        gargs.len() == n,
                        forall|k: int| 0 <= k < i ==> #[trigger] out@[k]@ == gargs[k],
                    decreases n - i,
                {
                    proof {
                        lemma_view_args_index(args@, args@.len() as int, i as int);
                    }
                    let a = args[i].dup();
                    out.push(a);
                    i = i + 1;
                }
                proof {
                    lemma_view_args_len(out@, out@.len() as int);
                    assert forall|k: int| 0 <= k < n implies #[trigger] view_args(
                        out@,
                        out@.len() as int,
                    )[k] == gargs[k] by {
                        lemma_view_args_index(out@, out@.len() as int, k);
                    }
                    assert(view_args(out@, out@.len() as int) =~= gargs);
                }
                Some(out)
            },
            None => None,
        };
        Prompt {
            name: self.name.clone(),
            description: match &self.description {
                Some(d) => Some(d.clone()),
                None => None,
            },
            arguments,
        }
    }

    /// This prompt as it appears in a `prompts/list` result.
    pub fn to_json(self) -> (r: JsonValue)
        ensures
            r@ == spec_encode_prompt(self@),
    {
        let ghost gp = self@;
        let mut pairs: Vec<(String, JsonValue)> = Vec::new();
        pairs.push(("name".to_owned(), JsonValue::Str(self.name)));
        if let Some(d) = self.description {
            pairs.push(("description".to_owned(), JsonValue::Str(d)));
        }
        if let Some(args) = self.arguments {
            let ghost gargs = view_args(args@, args@.len() as int);
            let mut args = args;
            proof {
                lemma_view_args_len(args@, args@.len() as int);
            }
            proof {
                assert forall|k: int| 0 <= k < args@.len() implies #[trigger] args@[k]@
                    == gargs[k] by {
                    lemma_view_args_index(args@, args@.len() as int, k);
                }
            }
            let n = args.len();
            let mut elems: Vec<JsonValue> = Vec::new();
            let mut i: usize = 0;
            while i < n
                invariant
                    n == args@.len(),
                    i == elems@.len(),
                    0 <= i <= n,
                    gargs.len() == n,
                    forall|k: int| i <= k < n ==> #[trigger] args@[k]@ == gargs[k],
                    forall|k: int|
                        0 <= k < i ==> #[trigger] elems@[k]@ == spec_encode_prompt_argument(
                            gargs[k],
                        ),
                decreases n - i,
            {
                let mut a = PromptArgument { name: String::new(), description: None, required: None };
                core::mem::swap(&mut args[i], &mut a);
                let e = a.to_json();
                elems.push(e);
                i = i + 1;
            }
            proof {
                crate::json::lemma_view_arr_len(elems@, elems@.len() as int);
                assert forall|k: int| 0 <= k < n implies #[trigger] crate::json::view_arr(
                    elems@,
                    elems@.len() as int,
                )[k] == spec_encode_prompt_argument(gargs[k]) by {
                    crate::json::lemma_view_arr_index(elems@, elems@.len() as int, k);
                    assert(elems@[k]@ == spec_encode_prompt_argument(gargs[k]));
                }
                assert(crate::json::view_arr(elems@, elems@.len() as int) =~= Seq::new(
                    gargs.len(),
                    |i: int| spec_encode_prompt_argument(gargs[i]),
                ));
            }
            pairs.push(("arguments".to_owned(), JsonValue::Arr(elems)));
        }
        proof {
            reveal_with_fuel(view_obj, 5);
            assert(view_obj(pairs@, pairs@.len() as int) =~= spec_encode_prompt(gp)->Obj_0);
        }
        JsonValue::Obj(pairs)
    }
}

/// Who speaks a prompt message.
#[derive(Debug, Clone, Copy, PartialEq, Eq, Structural)]
pub enum PromptMessageRole {
    User,
    Assistant,
}

/// The payload of a prompt message.
#[derive(Debug)]
pub enum PromptMessageContent {
    /// Plain text.
    Text { text: String },
}

/// One message of a rendered prompt.
#[derive(Debug)]
pub struct PromptMessage {
    /// Who speaks the message.
    pub role: PromptMessageRole,
    /// What is said.
    pub content: PromptMessageContent,
}

/// Model of a prompt message.
pub struct SpecPromptMessage {
    pub role: PromptMessageRole,
    pub text: Seq<char>,
}

impl View for PromptMessage {
    type V = SpecPromptMessage;

    open spec fn view(&self) -> SpecPromptMessage {
        SpecPromptMessage {
            role: self.role,
            text: match self.content {
                PromptMessageContent::Text { ref text } => text@,
            },
        }
    }
}

/// How a role appears on the wire.
pub open spec fn spec_encode_role(r: PromptMessageRole) -> Seq<char> {
    match r {
        PromptMessageRole::User => "user"@,
        PromptMessageRole::Assistant => "assistant"@,
    }
}

/// How a prompt message appears in a `prompts/get` result.
pub open spec fn spec_encode_prompt_message(m: SpecPromptMessage) -> SpecJson {
    SpecJson::Obj(
        seq![
            ("role"@, SpecJson::Str(spec_encode_role(m.role))),
            (
                "content"@,
                SpecJson::Obj(
                    seq![("type"@, SpecJson::Str("text"@)), ("text"@, SpecJson::Str(m.text))],
                ),
            ),
        ],
    )
}

impl PromptMessage {
    /// A text message spoken by `role`.
    pub fn new_text(role: PromptMessageRole, text: String) -> (r: Self)
        ensures
            r@ == (SpecPromptMessage { role, text: text@ }),
    {
        PromptMessage { role, content: PromptMessageContent::Text { text } }
    }

    /// This message as it appears in a `prompts/get` result.
    pub fn to_json(self) -> (r: JsonValue)
        ensures
            r@ == spec_encode_prompt_message(self@),
    {
        let ghost gm = self@;
        let role_text: String = match self.role {
            PromptMessageRole::User => "user".to_owned(),
            PromptMessageRole::Assistant => "assistant".to_owned(),
        };
        let mut content: Vec<(String, JsonValue)> = Vec::new();
        content.push(("type".to_owned(), JsonValue::Str("text".to_owned())));
        match self.content {
            PromptMessageContent::Text { text } => {
                content.push(("text".to_owned(), JsonValue::Str(text)));
            },
        }
        let ghost gcontent = view_obj(content@, content@.len() as int);
        proof {
            reveal_with_fuel(view_obj, 4);
            assert(gcontent =~= seq![
                ("type"@, SpecJson::Str("text"@)),
                ("text"@, SpecJson::Str(gm.text)),
            ]);
        }
        let mut pairs: Vec<(String, JsonValue)> = Vec::new();
        pairs.push(("role".to_owned(), JsonValue::Str(role_text)));
        pairs.push(("content".to_owned(), JsonValue::Obj(content)));
        proof {
            reveal_with_fuel(view_obj, 4);
            assert(view_obj(pairs@, pairs@.len() as int) =~= spec_encode_prompt_message(
                gm,
            )->Obj_0);
        }
        JsonValue::Obj(pairs)
    }
}

/// An error raised by a prompt handler.
#[derive(Debug)]
pub enum PromptError {
    /// The arguments did not match the prompt's parameters.
    InvalidParameters(String),
    /// No prompt of the requested name is registered.
    NotFound(String),
    /// The prompt handler failed.
    InternalError(String),
}

/// Model of a prompt error.
pub enum SpecPromptError {
    InvalidParameters(Seq<char>),
    NotFound(Seq<char>),
    InternalError(Seq<char>),
}

impl View for PromptError {
    type V = SpecPromptError;

    open spec fn view(&self) -> SpecPromptError {
        match self {
            PromptError::InvalidParameters(s) => SpecPromptError::InvalidParameters(s@),
            PromptError::NotFound(s) => SpecPromptError::NotFound(s@),
            PromptError::InternalError(s) => SpecPromptError::InternalError(s@),
        }
    }
}

/// The one-sentence text of a prompt error.
pub open spec fn spec_prompt_error_text(e: SpecPromptError) -> Seq<char> {
    match e {
        SpecPromptError::InvalidParameters(s) => "Invalid parameters: "@ + s,
        SpecPromptError::NotFound(s) => "Prompt not found: "@ + s,
        SpecPromptError::InternalError(s) => "Internal error: "@ + s,
    }
}

impl PromptError {
    /// The one-sentence text of this error.
    pub fn text(&self) -> (r: String)
        ensures
            r@ == spec_prompt_error_text(self@),
    {
        match self {
            PromptError::InvalidParameters(s) => {
                let mut t: String = "Invalid parameters: ".to_owned();
                t.append(s.as_str());
                t
            },
            PromptError::NotFound(s) => {
                let mut t: String = "Prompt not found: ".to_owned();
                t.append(s.as_str());
                t
            },
            PromptError::InternalError(s) => {
                let mut t: String = "Internal error: ".to_owned();
                t.append(s.as_str());
                t
            },
        }
    }
}

} // verus!
