//! The line-level protocol: what one framed line of wire text is answered
//! with.
//!
//! A transport frames bytes into lines and writes lines back; everything
//! between — parsing, batch fan-out, dispatch, rendering, and the
//! parse-error policy — is here, verified. The loop that moves the lines
//! lives with the transport: it reads a line, hands it to
//! [`serve_line`], and writes the answer, if one came back.

use vstd::prelude::*;

use crate::codec::{decode_request, encode_response, spec_decode_request};
use crate::json::{JsonValue, SpecJson};
use crate::jsonrpc::SendableMessage;
use crate::jsonrpc::{
    ErrorCode, ErrorData, Request, RequestId, Response, ResponseItem, SpecErrorData, SpecId,
    SpecRequest, SpecResponse, SpecResponseItem,
};
use crate::parse::{parse_json, spec_parse_json};
use crate::render::{json_text, to_json_string};
use crate::service::{spec_request_answered_by, MCPRequestService, MessageService};

verus! {

/// What went wrong reading one line as a message or request.
#[derive(Debug, Clone, Copy, PartialEq, Eq, Structural)]
pub enum MessageParseError {
    /// The line was a JSON document, but not a JSON-RPC 2.0 message
    /// object.
    NotJsonRpc2Message,
    /// The line was not a JSON document shaped as expected.
    Deserialisation,
}

/// Parse one line of wire text into a request: the text must be one JSON
/// document, and the document an object or an array.
pub fn parse_request_line(line: &str) -> (r: Result<Request, MessageParseError>)
    ensures
        match spec_parse_json(line@) {
            None => r is Err,
            Some(v) => match spec_decode_request(v) {
                None => r is Err,
                Some(req) => r matches Ok(out) && out@ == req,
            },
        },
{
    match parse_json(line) {
        None => Err(MessageParseError::Deserialisation),
        Some(v) => match decode_request(v) {
            None => Err(MessageParseError::Deserialisation),
            Some(req) => Ok(req),
        },
    }
}

/// Parse one line of wire text into a single message, as a transport that
/// frames messages itself does. The line must be one JSON object declaring
/// JSON-RPC 2.0; unlike the batch path, an envelope with the wrong version
/// is refused here rather than answered.
pub fn parse_message_line(line: &str) -> (r: Result<SendableMessage, MessageParseError>)
    ensures
        match spec_parse_json(line@) {
            None => r == Err::<SendableMessage, MessageParseError>(
                MessageParseError::Deserialisation,
            ),
            Some(v) => {
                if !(v matches SpecJson::Obj(_)) {
                    r == Err::<SendableMessage, MessageParseError>(
                        MessageParseError::NotJsonRpc2Message,
                    )
                } else if !crate::codec::spec_version_ok(v->Obj_0) {
                    r == Err::<SendableMessage, MessageParseError>(
                        MessageParseError::NotJsonRpc2Message,
                    )
                } else {
                    r matches Ok(m) && m@ == crate::codec::spec_decode_message(v)
                }
            },
        },
{
    match parse_json(line) {
        None => Err(MessageParseError::Deserialisation),
        Some(v) => {
            let version_ok = match v.get(&"jsonrpc".to_owned()) {
                Some(JsonValue::Str(s)) => {
                    let v20: String = "2.0".to_owned();
                    *s == v20
                },
                _ => false,
            };
            match &v {
                JsonValue::Obj(_) => {
                    if version_ok {
                        Ok(crate::codec::decode_message(v))
                    } else {
                        Err(MessageParseError::NotJsonRpc2Message)
                    }
                },
                _ => Err(MessageParseError::NotJsonRpc2Message),
            }
        },
    }
}

/// Render one response as a line of wire text.
pub fn response_to_line(resp: Response) -> (r: String)
    ensures
        r@ == json_text(crate::codec::spec_encode_response(resp@)),
{
    let v = encode_response(resp);
    to_json_string(&v)
}

/// The error body a line that fails to parse is answered with.
pub open spec fn spec_parse_error_body() -> SpecErrorData {
    SpecErrorData {
        code: ErrorCode::ParseError,
        message: "JSON parsing error when deserialising the message"@,
        data: None,
    }
}

/// The text a line that fails to parse is answered with.
pub open spec fn spec_parse_error_line() -> Seq<char> {
    json_text(
        crate::codec::spec_encode_response(
            SpecResponse::Single(
                Some(SpecResponseItem::Error { id: SpecId::Null, error: spec_parse_error_body() }),
            ),
        ),
    )
}

/// Model of an optional output line.
pub open spec fn spec_opt_line(r: Option<String>) -> Option<Seq<char>> {
    match r {
        Some(s) => Some(s@),
        None => None,
    }
}

/// The line, if any, emitted for one response: an empty response emits
/// nothing; anything else is rendered.
pub open spec fn spec_emitted(resp: SpecResponse) -> Option<Seq<char>> {
    if crate::jsonrpc::spec_response_empty(resp) {
        None
    } else {
        Some(json_text(crate::codec::spec_encode_response(resp)))
    }
}

/// Whether `out` answers the request `req` as the service over `svc`
/// answers it: some response of that service, shape-consistent and
/// carrying `svc`'s own routing law per item, produces it.
pub closed spec fn spec_line_answer_for<S: MessageService>(
    svc: S,
    req: SpecRequest,
    out: Option<Seq<char>>,
) -> bool {
    exists|resp: SpecResponse|
        #[trigger] spec_request_answered_by(svc, req, resp) && out == spec_emitted(resp)
}

/// A concrete response of the service witnesses its line answer.
pub proof fn lemma_line_answer_for<S: MessageService>(
    svc: S,
    req: SpecRequest,
    resp: SpecResponse,
    out: Option<Seq<char>>,
)
    requires
        spec_request_answered_by(svc, req, resp),
        out == spec_emitted(resp),
    ensures
        spec_line_answer_for(svc, req, out),
{
}

/// Every line answer has such a response behind it; it is handed out for
/// analysis.
pub proof fn lemma_line_answer_for_elim<S: MessageService>(
    svc: S,
    req: SpecRequest,
    out: Option<Seq<char>>,
) -> (resp: SpecResponse)
    requires
        spec_line_answer_for(svc, req, out),
    ensures
        spec_request_answered_by(svc, req, resp),
        out == spec_emitted(resp),
{
    choose|resp: SpecResponse|
        #[trigger] spec_request_answered_by(svc, req, resp) && out == spec_emitted(resp)
}

/// Answer one framed line of wire text.
///
/// A line that is not one JSON request document is answered with a single
/// parse error under the null id. A request line is answered by the
/// request service; nothing is emitted when the response is empty (a
/// single notification).
pub fn serve_line<S: MessageService>(service: &MCPRequestService<S>, line: &str) -> (r: Option<
    String,
>)
    ensures
        ({
            let parsed = spec_parse_json(line@);
            &&& (parsed is None ==> spec_opt_line(r) == Some(spec_parse_error_line()))
            &&& (parsed matches Some(v) ==> {
                &&& (spec_decode_request(v) is None ==> spec_opt_line(r) == Some(
                    spec_parse_error_line(),
                ))
                &&& (spec_decode_request(v) matches Some(req) ==> spec_line_answer_for(
                    service.spec_inner(),
                    req,
                    spec_opt_line(r),
                ))
            })
        }),
{
    match parse_request_line(line) {
        Ok(req) => {
            let ghost greq = req@;
            let response = service.call(req);
            let ghost gresp = response@;
            if response.is_empty() {
                proof {
                    lemma_line_answer_for(service.spec_inner(), greq, gresp, None);
                }
                None
            } else {
                let text = response_to_line(response);
                proof {
                    lemma_line_answer_for(service.spec_inner(), greq, gresp, Some(text@));
                }
                Some(text)
            }
        },
        Err(_) => {
            let error = ErrorData::new(
                ErrorCode::ParseError,
                "JSON parsing error when deserialising the message".to_owned(),
            );
            let item = ResponseItem::error(RequestId::null(), error);
            let text = response_to_line(Response::Single(Some(item)));
            Some(text)
        },
    }
}

} // verus!
