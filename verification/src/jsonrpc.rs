//! The JSON-RPC 2.0 message model.
//!
//! A line of wire text holds either one message or a batch of them. A
//! message is a method call (it has an `id` and expects a response), a
//! notification (no `id`, no response), or — when the envelope is malformed —
//! an [`SendableMessage::Invalid`] placeholder carrying whatever id could be
//! read. Responses echo the id of the call they answer.
//!
//! Each type has a mathematical model (`Spec…`) over `Seq` and `int`;
//! [`encode_message`] and [`decode_message`] translate between messages and
//! [`JsonValue`] trees, and the decoder is proved to invert the encoder on
//! every wire-representable message.

use vstd::prelude::*;

use crate::json::{view_arr, view_obj, JsonValue, SpecJson};

verus! {

/// A message id: a number or a string; `Null` stands for the absent id used
/// in error responses to unreadable requests.
#[derive(Debug, PartialEq, Eq, Hash)]
pub enum RequestId {
    Num(u64),
    Str(String),
    Null,
}

/// Model of a message id.
pub enum SpecId {
    Num(int),
    Str(Seq<char>),
    Null,
}

impl View for RequestId {
    type V = SpecId;

    open spec fn view(&self) -> SpecId {
        match self {
            RequestId::Num(n) => SpecId::Num(*n as int),
            RequestId::Str(s) => SpecId::Str(s@),
            RequestId::Null => SpecId::Null,
        }
    }
}

impl RequestId {
    /// The id used where no id is known.
    pub fn null() -> (r: Self)
        ensures
            r@ is Null,
    {
        RequestId::Null
    }

    /// Whether this is the null id.
    pub fn is_null(&self) -> (r: bool)
        ensures
            r == (self@ is Null),
    {
        matches!(self, RequestId::Null)
    }

    /// An identical copy of this id.
    pub fn dup(&self) -> (r: Self)
        ensures
            r@ == self@,
    {
        match self {
            RequestId::Num(n) => RequestId::Num(*n),
            RequestId::Str(s) => RequestId::Str(s.clone()),
            RequestId::Null => RequestId::Null,
        }
    }
}

/// The protocol version. Only JSON-RPC 2.0 exists on the wire.
#[derive(Debug, Clone, Copy, PartialEq, Eq, Structural)]
pub enum JsonRpcVersion {
    V2,
}

impl JsonRpcVersion {
    /// The version string as it appears on the wire.
    pub fn as_text(&self) -> (r: &'static str)
        ensures
            r@ == "2.0"@,
    {
        "2.0"
    }
}

/// Structured parameters of a call or notification: a JSON array or object,
/// never a scalar.
#[derive(Debug)]
pub enum Params {
    /// Positional parameters.
    Array(Vec<JsonValue>),
    /// Named parameters.
    Object(Vec<(String, JsonValue)>),
}

/// Model of request parameters.
pub enum SpecParams {
    Array(Seq<SpecJson>),
    Object(Seq<(Seq<char>, SpecJson)>),
}

impl View for Params {
    type V = SpecParams;

    open spec fn view(&self) -> SpecParams {
        match self {
            Params::Array(elems) => SpecParams::Array(view_arr(elems@, elems@.len() as int)),
            Params::Object(pairs) => SpecParams::Object(view_obj(pairs@, pairs@.len() as int)),
        }
    }
}

/// A method call: a request that carries an id and expects exactly one
/// response item.
#[derive(Debug)]
pub struct MethodCall {
    pub jsonrpc: JsonRpcVersion,
    pub id: RequestId,
    pub method: String,
    pub params: Option<Params>,
}

/// Model of a method call.
pub struct SpecMethodCall {
    pub id: SpecId,
    pub method: Seq<char>,
    pub params: Option<SpecParams>,
}

impl View for MethodCall {
    type V = SpecMethodCall;

    open spec fn view(&self) -> SpecMethodCall {
        SpecMethodCall {
            id: self.id@,
            method: self.method@,
            params: match self.params {
                Some(p) => Some(p@),
                None => None,
            },
        }
    }
}

impl MethodCall {
    /// A method call with the given id, method name and parameters.
    pub fn new(id: RequestId, method: String, params: Option<Params>) -> (r: Self)
        ensures
            r@ == (SpecMethodCall { id: id@, method: method@, params: spec_opt_params(params) }),
    {
        MethodCall { jsonrpc: JsonRpcVersion::V2, id, method, params }
    }
}

/// Model of an optional parameter block.
pub open spec fn spec_opt_params(p: Option<Params>) -> Option<SpecParams> {
    match p {
        Some(p) => Some(p@),
        None => None,
    }
}

/// A notification: fire-and-forget, it never receives a response.
#[derive(Debug)]
pub struct Notification {
    pub jsonrpc: JsonRpcVersion,
    pub method: String,
    pub params: Option<Params>,
}

/// Model of a notification.
pub struct SpecNotification {
    pub method: Seq<char>,
    pub params: Option<SpecParams>,
}

impl View for Notification {
    type V = SpecNotification;

    open spec fn view(&self) -> SpecNotification {
        SpecNotification {
            method: self.method@,
            params: match self.params {
                Some(p) => Some(p@),
                None => None,
            },
        }
    }
}

impl Notification {
    /// A notification with the given method name and parameters.
    pub fn new(method: String, params: Option<Params>) -> (r: Self)
        ensures
            r@ == (SpecNotification { method: method@, params: spec_opt_params(params) }),
    {
        Notification { jsonrpc: JsonRpcVersion::V2, method, params }
    }
}

/// One inbound message, after envelope validation.
#[derive(Debug)]
pub enum SendableMessage {
    Request(MethodCall),
    Notification(Notification),
    Invalid {
        /// The id of the malformed message, where one could be read.
        id: RequestId,
    },
}

/// Model of an inbound message.
pub enum SpecMessage {
    Request(SpecMethodCall),
    Notification(SpecNotification),
    Invalid(SpecId),
}

impl View for SendableMessage {
    type V = SpecMessage;

    open spec fn view(&self) -> SpecMessage {
        match self {
            SendableMessage::Request(mc) => SpecMessage::Request(mc@),
            SendableMessage::Notification(n) => SpecMessage::Notification(n@),
            SendableMessage::Invalid { id } => SpecMessage::Invalid(id@),
        }
    }
}

/// One wire request: a single message or a batch.
#[derive(Debug)]
pub enum Request {
    Single(SendableMessage),
    Batch(Vec<SendableMessage>),
}

/// Model of a wire request.
pub enum SpecRequest {
    Single(SpecMessage),
    Batch(Seq<SpecMessage>),
}

/// Model of the first `n` messages of a batch.
pub open spec fn view_batch(msgs: Seq<SendableMessage>, n: int) -> Seq<SpecMessage>
    decreases n,
{
    if n <= 0 || n > msgs.len() {
        Seq::empty()
    } else {
        view_batch(msgs, n - 1).push(msgs[n - 1]@)
    }
}

impl View for Request {
    type V = SpecRequest;

    open spec fn view(&self) -> SpecRequest {
        match self {
            Request::Single(m) => SpecRequest::Single(m@),
            Request::Batch(msgs) => SpecRequest::Batch(view_batch(msgs@, msgs@.len() as int)),
        }
    }
}

pub broadcast proof fn lemma_view_batch_len(msgs: Seq<SendableMessage>, n: int)
    requires
        0 <= n <= msgs.len(),
    ensures
        (#[trigger] view_batch(msgs, n)).len() == n,
    decreases n,
{
    if n > 0 {
        lemma_view_batch_len(msgs, n - 1);
    }
}

pub broadcast proof fn lemma_view_batch_index(msgs: Seq<SendableMessage>, n: int, i: int)
    requires
        0 <= n <= msgs.len(),
        0 <= i < n,
    ensures
        #[trigger] view_batch(msgs, n)[i] == msgs[i]@,
    decreases n,
{
    lemma_view_batch_len(msgs, n);
    lemma_view_batch_len(msgs, n - 1);
    if i < n - 1 {
        lemma_view_batch_index(msgs, n - 1, i);
    }
}

/// A standard JSON-RPC error code.
#[derive(Debug, Clone, Copy, PartialEq, Eq, Structural)]
pub enum ErrorCode {
    /// The text of the request was not valid JSON.
    ParseError,
    /// The request was not a valid JSON-RPC 2.0 request object.
    InvalidRequest,
    /// The requested method does not exist.
    MethodNotFound,
    /// The method's parameters were missing or malformed.
    InvalidParams,
    /// The server failed internally while answering.
    InternalError,
    /// An implementation-defined error.
    Custom(i32),
}

/// The numeric value of an error code.
pub open spec fn spec_code(c: ErrorCode) -> int {
    match c {
        ErrorCode::ParseError => -32700,
        ErrorCode::InvalidRequest => -32600,
        ErrorCode::MethodNotFound => -32601,
        ErrorCode::InvalidParams => -32602,
        ErrorCode::InternalError => -32603,
        ErrorCode::Custom(code) => code as int,
    }
}

/// The error code denoted by a numeric value.
pub open spec fn spec_code_of(n: int) -> ErrorCode {
    if n == -32700 {
        ErrorCode::ParseError
    } else if n == -32600 {
        ErrorCode::InvalidRequest
    } else if n == -32601 {
        ErrorCode::MethodNotFound
    } else if n == -32602 {
        ErrorCode::InvalidParams
    } else if n == -32603 {
        ErrorCode::InternalError
    } else {
        ErrorCode::Custom(n as i32)
    }
}

impl ErrorCode {
    /// The numeric value of this code as it appears on the wire.
    pub fn code(&self) -> (r: i32)
        ensures
            r as int == spec_code(*self),
    {
        match self {
            ErrorCode::ParseError => -32700,
            ErrorCode::InvalidRequest => -32600,
            ErrorCode::MethodNotFound => -32601,
            ErrorCode::InvalidParams => -32602,
            ErrorCode::InternalError => -32603,
            ErrorCode::Custom(code) => *code,
        }
    }

    /// The error code denoted by a numeric value.
    pub fn from_code(n: i32) -> (r: ErrorCode)
        ensures
            r == spec_code_of(n as int),
    {
        match n {
            -32700 => ErrorCode::ParseError,
            -32600 => ErrorCode::InvalidRequest,
            -32601 => ErrorCode::MethodNotFound,
            -32602 => ErrorCode::InvalidParams,
            -32603 => ErrorCode::InternalError,
            other => ErrorCode::Custom(other),
        }
    }
}

/// The body of an error response.
#[derive(Debug)]
pub struct ErrorData {
    /// What went wrong.
    pub code: ErrorCode,
    /// A short description of the error, one sentence.
    pub message: String,
    /// Optional structured detail, defined by the sender.
    pub data: Option<JsonValue>,
}

/// Model of an error body.
pub struct SpecErrorData {
    pub code: ErrorCode,
    pub message: Seq<char>,
    pub data: Option<SpecJson>,
}

impl View for ErrorData {
    type V = SpecErrorData;

    open spec fn view(&self) -> SpecErrorData {
        SpecErrorData {
            code: self.code,
            message: self.message@,
            data: match self.data {
                Some(d) => Some(d@),
                None => None,
            },
        }
    }
}

impl ErrorData {
    /// An error body with no additional data.
    pub fn new(code: ErrorCode, message: String) -> (r: Self)
        ensures
            r@ == (SpecErrorData { code, message: message@, data: None }),
    {
        ErrorData { code, message, data: None }
    }
}

/// One outbound response item: success with a result, or an error.
#[derive(Debug)]
pub enum ResponseItem {
    Success { id: RequestId, result: JsonValue },
    Error { id: RequestId, error: ErrorData },
}

/// Model of a response item.
pub enum SpecResponseItem {
    Success { id: SpecId, result: SpecJson },
    Error { id: SpecId, error: SpecErrorData },
}

impl View for ResponseItem {
    type V = SpecResponseItem;

    open spec fn view(&self) -> SpecResponseItem {
        match self {
            ResponseItem::Success { id, result } => SpecResponseItem::Success {
                id: id@,
                result: result@,
            },
            ResponseItem::Error { id, error } => SpecResponseItem::Error {
                id: id@,
                error: error@,
            },
        }
    }
}

impl SpecResponseItem {
    /// The id a response item carries.
    pub open spec fn spec_id(self) -> SpecId {
        match self {
            SpecResponseItem::Success { id, .. } => id,
            SpecResponseItem::Error { id, .. } => id,
        }
    }
}

impl ResponseItem {
    /// A success response echoing `id`.
    pub fn success(id: RequestId, result: JsonValue) -> (r: Self)
        ensures
            r@ == (SpecResponseItem::Success { id: id@, result: result@ }),
    {
        ResponseItem::Success { id, result }
    }

    /// An error response echoing `id`.
    pub fn error(id: RequestId, error: ErrorData) -> (r: Self)
        ensures
            r@ == (SpecResponseItem::Error { id: id@, error: error@ }),
    {
        ResponseItem::Error { id, error }
    }
}

/// One wire response: one optional item, or a batch of items.
/// `Single(None)` means nothing is to be written.
#[derive(Debug)]
pub enum Response {
    Single(Option<ResponseItem>),
    Batch(Vec<ResponseItem>),
}

/// Model of a wire response.
pub enum SpecResponse {
    Single(Option<SpecResponseItem>),
    Batch(Seq<SpecResponseItem>),
}

/// Model of the first `n` items of a response batch.
pub open spec fn view_items(items: Seq<ResponseItem>, n: int) -> Seq<SpecResponseItem>
    decreases n,
{
    if n <= 0 || n > items.len() {
        Seq::empty()
    } else {
        view_items(items, n - 1).push(items[n - 1]@)
    }
}

impl View for Response {
    type V = SpecResponse;

    open spec fn view(&self) -> SpecResponse {
        match self {
            Response::Single(Some(item)) => SpecResponse::Single(Some(item@)),
            Response::Single(None) => SpecResponse::Single(None),
            Response::Batch(items) => SpecResponse::Batch(view_items(items@, items@.len() as int)),
        }
    }
}

pub broadcast proof fn lemma_view_items_len(items: Seq<ResponseItem>, n: int)
    requires
        0 <= n <= items.len(),
    ensures
        (#[trigger] view_items(items, n)).len() == n,
    decreases n,
{
    if n > 0 {
        lemma_view_items_len(items, n - 1);
    }
}

pub broadcast proof fn lemma_view_items_index(items: Seq<ResponseItem>, n: int, i: int)
    requires
        0 <= n <= items.len(),
        0 <= i < n,
    ensures
        #[trigger] view_items(items, n)[i] == items[i]@,
    decreases n,
{
    lemma_view_items_len(items, n);
    lemma_view_items_len(items, n - 1);
    if i < n - 1 {
        lemma_view_items_index(items, n - 1, i);
    }
}

impl Response {
    /// Whether this response carries nothing to write.
    pub fn is_empty(&self) -> (r: bool)
        ensures
            r == spec_response_empty(self@),
    {
        match self {
            Response::Single(opt) => opt.is_none(),
            Response::Batch(items) => {
                proof {
                    lemma_view_items_len(items@, items@.len() as int);
                }
                items.len() == 0
            },
        }
    }
}

/// Whether a response model carries nothing to write.
pub open spec fn spec_response_empty(r: SpecResponse) -> bool {
    match r {
        SpecResponse::Single(opt) => opt is None,
        SpecResponse::Batch(items) => items.len() == 0,
    }
}

} // verus!
