//! Translation between the message model and [`JsonValue`] trees.
//!
//! [`encode_message`] and [`encode_response`] say how messages and responses
//! appear as JSON; [`decode_message`] and [`decode_request`] read inbound
//! trees, turning every malformed envelope into
//! [`SendableMessage::Invalid`] with the best id that could be read.
//! [`lemma_message_round_trip`] proves that decoding inverts encoding for
//! every message that can stand on the wire.

use vstd::prelude::*;

use crate::json::{
    lemma_view_arr_index, lemma_view_arr_len, lemma_view_obj_index, lemma_view_obj_len,
    spec_obj_get, spec_obj_get_from, view_arr, view_obj, JsonValue, SpecJson,
};
use crate::jsonrpc::{
    lemma_view_items_index, lemma_view_items_len, spec_code, view_batch, view_items, ErrorData,
    MethodCall, Notification, Params, Request, RequestId, Response, ResponseItem,
    SendableMessage, SpecErrorData, SpecId, SpecMessage, SpecMethodCall, SpecNotification,
    SpecParams, SpecRequest, SpecResponse, SpecResponseItem,
};

verus! {

/// How an id appears in JSON.
pub open spec fn spec_encode_id(id: SpecId) -> SpecJson {
    match id {
        SpecId::Num(n) => if n <= i64::MAX {
            SpecJson::Num(n)
        } else {
            SpecJson::NumText(crate::render::dec_text(n))
        },
        SpecId::Str(s) => SpecJson::Str(s),
        SpecId::Null => SpecJson::Null,
    }
}

/// How a parameter block appears in JSON.
pub open spec fn spec_encode_params(p: SpecParams) -> SpecJson {
    match p {
        SpecParams::Array(elems) => SpecJson::Arr(elems),
        SpecParams::Object(pairs) => SpecJson::Obj(pairs),
    }
}

/// The trailing `params` member of an envelope: absent parameters are not
/// written at all.
pub open spec fn spec_params_tail(p: Option<SpecParams>) -> Seq<(Seq<char>, SpecJson)> {
    match p {
        Some(p) => seq![("params"@, spec_encode_params(p))],
        None => Seq::empty(),
    }
}

/// How a message appears in JSON.
pub open spec fn spec_encode_message(m: SpecMessage) -> SpecJson {
    match m {
        SpecMessage::Request(mc) => SpecJson::Obj(
            seq![
                ("jsonrpc"@, SpecJson::Str("2.0"@)),
                ("id"@, spec_encode_id(mc.id)),
                ("method"@, SpecJson::Str(mc.method)),
            ] + spec_params_tail(mc.params),
        ),
        SpecMessage::Notification(n) => SpecJson::Obj(
            seq![("jsonrpc"@, SpecJson::Str("2.0"@)), ("method"@, SpecJson::Str(n.method))]
                + spec_params_tail(n.params),
        ),
        SpecMessage::Invalid(id) => SpecJson::Obj(seq![("id"@, spec_encode_id(id))]),
    }
}

/// Turn an id into its JSON form.
pub fn encode_id(id: RequestId) -> (r: JsonValue)
    ensures
        r@ == spec_encode_id(id@),
{
    match id {
        RequestId::Num(n) => {
            if n <= 0x7fff_ffff_ffff_ffffu64 {
                JsonValue::Num(n as i64)
            } else {
                JsonValue::NumText(crate::render::u64_string(n))
            }
        },
        RequestId::Str(s) => JsonValue::Str(s),
        RequestId::Null => JsonValue::Null,
    }
}

/// Turn a parameter block into its JSON form.
pub fn encode_params(p: Params) -> (r: JsonValue)
    ensures
        r@ == spec_encode_params(p@),
{
    match p {
        Params::Array(elems) => JsonValue::Arr(elems),
        Params::Object(pairs) => JsonValue::Obj(pairs),
    }
}

/// Turn a message into its JSON form.
pub fn encode_message(m: SendableMessage) -> (r: JsonValue)
    ensures
        r@ == spec_encode_message(m@),
{
    let ghost gm = m@;
    match m {
        SendableMessage::Request(mc) => {
            let mut pairs: Vec<(String, JsonValue)> = Vec::new();
            pairs.push(("jsonrpc".to_owned(), JsonValue::Str("2.0".to_owned())));
            pairs.push(("id".to_owned(), encode_id(mc.id)));
            pairs.push(("method".to_owned(), JsonValue::Str(mc.method)));
            if let Some(p) = mc.params {
                pairs.push(("params".to_owned(), encode_params(p)));
            }
            proof {
                reveal_with_fuel(view_obj, 6);
                assert(view_obj(pairs@, pairs@.len() as int)
                    =~= spec_encode_message(gm)->Obj_0);
            }
            JsonValue::Obj(pairs)
        },
        SendableMessage::Notification(n) => {
            let mut pairs: Vec<(String, JsonValue)> = Vec::new();
            pairs.push(("jsonrpc".to_owned(), JsonValue::Str("2.0".to_owned())));
            pairs.push(("method".to_owned(), JsonValue::Str(n.method)));
            if let Some(p) = n.params {
                pairs.push(("params".to_owned(), encode_params(p)));
            }
            proof {
                reveal_with_fuel(view_obj, 6);
                assert(view_obj(pairs@, pairs@.len() as int)
                    =~= spec_encode_message(gm)->Obj_0);
            }
            JsonValue::Obj(pairs)
        },
        SendableMessage::Invalid { id } => {
            let mut pairs: Vec<(String, JsonValue)> = Vec::new();
            pairs.push(("id".to_owned(), encode_id(id)));
            proof {
                reveal_with_fuel(view_obj, 3);
                assert(view_obj(pairs@, pairs@.len() as int)
                    =~= spec_encode_message(gm)->Obj_0);
            }
            JsonValue::Obj(pairs)
        },
    }
}


/// Model of an optional JSON field value.
pub open spec fn spec_opt_json(o: Option<JsonValue>) -> Option<SpecJson> {
    match o {
        Some(v) => Some(v@),
        None => None,
    }
}

/// Model of an optional id.
pub open spec fn spec_opt_id(o: Option<RequestId>) -> Option<SpecId> {
    match o {
        Some(id) => Some(id@),
        None => None,
    }
}

/// Whether an envelope declares JSON-RPC 2.0.
pub open spec fn spec_version_ok(pairs: Seq<(Seq<char>, SpecJson)>) -> bool {
    spec_obj_get(pairs, "jsonrpc"@) == Some(SpecJson::Str("2.0"@))
}

/// The id denoted by a JSON value: a non-negative integer (digit text
/// beyond the model's inline numbers included, up to `u64::MAX`), a
/// string, or JSON null; anything else is no id.
pub open spec fn spec_decode_id(v: SpecJson) -> Option<SpecId> {
    match v {
        SpecJson::Num(n) => if 0 <= n {
            Some(SpecId::Num(n))
        } else {
            None
        },
        SpecJson::NumText(s) => match crate::render::dec_value(s) {
            Some(n) => if 0 <= n <= u64::MAX {
                Some(SpecId::Num(n))
            } else {
                None
            },
            None => None,
        },
        SpecJson::Str(s) => Some(SpecId::Str(s)),
        SpecJson::Null => Some(SpecId::Null),
        _ => None,
    }
}

/// The parameters denoted by an optional `params` member: absent is fine,
/// an array or an object is fine, any scalar makes the envelope malformed.
pub open spec fn spec_decode_params_field(o: Option<SpecJson>) -> Option<Option<SpecParams>> {
    match o {
        None => Some(None),
        Some(SpecJson::Arr(elems)) => Some(Some(SpecParams::Array(elems))),
        Some(SpecJson::Obj(pairs)) => Some(Some(SpecParams::Object(pairs))),
        Some(_) => None,
    }
}

/// The method name denoted by an optional `method` member.
pub open spec fn spec_decode_method(o: Option<SpecJson>) -> Option<Seq<char>> {
    match o {
        Some(SpecJson::Str(s)) => Some(s),
        _ => None,
    }
}

/// The id a malformed envelope is answered with: the `id` member where one
/// is present and readable, otherwise null.
pub open spec fn spec_salvaged_id(id: Option<SpecId>) -> SpecId {
    match id {
        Some(i) => i,
        None => SpecId::Null,
    }
}

/// The message denoted by one JSON value.
///
/// An object that declares version 2.0, has a readable id, a string method
/// and well-shaped parameters is a method call; without the id it is a
/// notification; anything else is invalid, keeping the id where one could be
/// read.
pub open spec fn spec_decode_message(v: SpecJson) -> SpecMessage {
    if !(v matches SpecJson::Obj(_)) {
        SpecMessage::Invalid(SpecId::Null)
    } else {
        let pairs = v->Obj_0;
        let ver = spec_version_ok(pairs);
        let method = spec_decode_method(spec_obj_get(pairs, "method"@));
        let params = spec_decode_params_field(spec_obj_get(pairs, "params"@));
        let id = match spec_obj_get(pairs, "id"@) {
            Some(x) => spec_decode_id(x),
            None => None,
        };
        if ver && method is Some && params is Some && id is Some {
            SpecMessage::Request(
                SpecMethodCall { id: id->0, method: method->0, params: params->0 },
            )
        } else if ver && method is Some && params is Some {
            SpecMessage::Notification(SpecNotification { method: method->0, params: params->0 })
        } else {
            SpecMessage::Invalid(spec_salvaged_id(id))
        }
    }
}

/// Take the `jsonrpc`, `id`, `method` and `params` members out of an
/// envelope, each the first of its name.
fn take_fields(pairs: Vec<(String, JsonValue)>) -> (r: (
    Option<JsonValue>,
    Option<JsonValue>,
    Option<JsonValue>,
    Option<JsonValue>,
))
    ensures
        ({
            let vp = view_obj(pairs@, pairs@.len() as int);
            &&& spec_opt_json(r.0) == spec_obj_get(vp, "jsonrpc"@)
            &&& spec_opt_json(r.1) == spec_obj_get(vp, "id"@)
            &&& spec_opt_json(r.2) == spec_obj_get(vp, "method"@)
            &&& spec_opt_json(r.3) == spec_obj_get(vp, "params"@)
        }),
{
    let ghost orig = pairs@;
    let ghost vp = view_obj(pairs@, pairs@.len() as int);
    proof {
        reveal_strlit("jsonrpc");
        reveal_strlit("id");
        reveal_strlit("method");
        reveal_strlit("params");
        lemma_view_obj_len(orig, orig.len() as int);
    }
    let key_version: String = "jsonrpc".to_owned();
    let key_id: String = "id".to_owned();
    let key_method: String = "method".to_owned();
    let key_params: String = "params".to_owned();
    let mut pairs = pairs;
    let mut r_version: Option<JsonValue> = None;
    let mut r_id: Option<JsonValue> = None;
    let mut r_method: Option<JsonValue> = None;
    let mut r_params: Option<JsonValue> = None;
    proof {
        reveal_strlit("jsonrpc");
        reveal_strlit("id");
        reveal_strlit("method");
        reveal_strlit("params");
        assert("jsonrpc"@.len() == 7 && "id"@.len() == 2 && "method"@.len() == 6
            && "params"@.len() == 6);
        assert("method"@[0] == 'm' && "params"@[0] == 'p');
        assert(key_version@ != key_id@ && key_version@ != key_method@ && key_version@
            != key_params@);
        assert(key_id@ != key_method@ && key_id@ != key_params@ && key_method@ != key_params@);
    }
    while pairs.len() > 0
        invariant
            pairs@.len() <= orig.len(),
            pairs@ == orig.take(pairs@.len() as int),
            vp == view_obj(orig, orig.len() as int),
            vp.len() == orig.len(),
            key_version@ == "jsonrpc"@,
            key_id@ == "id"@,
            key_method@ == "method"@,
            key_params@ == "params"@,
            key_version@ != key_id@,
            key_version@ != key_method@,
            key_version@ != key_params@,
            key_id@ != key_method@,
            key_id@ != key_params@,
            key_method@ != key_params@,
            spec_opt_json(r_version) == spec_obj_get_from(vp, "jsonrpc"@, pairs@.len() as int),
            spec_opt_json(r_id) == spec_obj_get_from(vp, "id"@, pairs@.len() as int),
            spec_opt_json(r_method) == spec_obj_get_from(vp, "method"@, pairs@.len() as int),
            spec_opt_json(r_params) == spec_obj_get_from(vp, "params"@, pairs@.len() as int),
        decreases pairs@.len(),
    {
        let ghost j = pairs@.len() as int;
        let pair = pairs.pop().unwrap();
        let (k, val) = pair;
        proof {
            assert(orig.take(j)[j - 1] == orig[j - 1]);
            lemma_view_obj_index(orig, orig.len() as int, j - 1);
            assert(pairs@ =~= orig.take(j - 1));
        }
        if k == key_version {
            r_version = Some(val);
        } else if k == key_id {
            r_id = Some(val);
        } else if k == key_method {
            r_method = Some(val);
        } else if k == key_params {
            r_params = Some(val);
        }
    }
    (r_version, r_id, r_method, r_params)
}

/// Read an id out of a JSON value, if it holds one.
fn decode_id_value(v: JsonValue) -> (r: Option<RequestId>)
    ensures
        spec_opt_id(r) == spec_decode_id(v@),
{
    match v {
        JsonValue::Num(n) => {
            if n >= 0 {
                Some(RequestId::Num(n as u64))
            } else {
                None
            }
        },
        JsonValue::NumText(s) => {
            proof {
                crate::render::lemma_digits_value_nonneg(s@, s@.len() as int);
            }
            match crate::render::parse_dec_u64(s.as_str()) {
                Some(n) => Some(RequestId::Num(n)),
                None => None,
            }
        },
        JsonValue::Str(s) => Some(RequestId::Str(s)),
        JsonValue::Null => Some(RequestId::Null),
        _ => None,
    }
}

/// Read one inbound message out of a JSON value. Malformed envelopes become
/// [`SendableMessage::Invalid`]; this never fails.
pub fn decode_message(v: JsonValue) -> (m: SendableMessage)
    ensures
        m@ == spec_decode_message(v@),
{
    let ghost gv = v@;
    match v {
        JsonValue::Obj(pairs) => {
            let ghost vp = view_obj(pairs@, pairs@.len() as int);
            let (f_version, f_id, f_method, f_params) = take_fields(pairs);
            let version_ok = match &f_version {
                Some(JsonValue::Str(s)) => {
                    let v20: String = "2.0".to_owned();
                    *s == v20
                },
                _ => false,
            };
            let id_opt: Option<RequestId> = match f_id {
                Some(x) => decode_id_value(x),
                None => None,
            };
            let method_opt: Option<String> = match f_method {
                Some(JsonValue::Str(s)) => Some(s),
                _ => None,
            };
            let params_opt: Result<Option<Params>, ()> = match f_params {
                None => Ok(None),
                Some(JsonValue::Arr(elems)) => Ok(Some(Params::Array(elems))),
                Some(JsonValue::Obj(obj_pairs)) => Ok(Some(Params::Object(obj_pairs))),
                Some(_) => Err(()),
            };
            if version_ok && method_opt.is_some() && params_opt.is_ok() {
                let method = match method_opt {
                    Some(s) => s,
                    None => unreached(),
                };
                let params = match params_opt {
                    Ok(p) => p,
                    Err(()) => unreached(),
                };
                match id_opt {
                    Some(id) => SendableMessage::Request(MethodCall::new(id, method, params)),
                    None => SendableMessage::Notification(Notification::new(method, params)),
                }
            } else {
                let id = match id_opt {
                    Some(id) => id,
                    None => RequestId::Null,
                };
                SendableMessage::Invalid { id }
            }
        },
        _ => SendableMessage::Invalid { id: RequestId::Null },
    }
}


/// The wire request denoted by one JSON value: an object is a single
/// message, an array is a batch, anything else is not a request at all.
pub open spec fn spec_decode_request(v: SpecJson) -> Option<SpecRequest> {
    match v {
        SpecJson::Obj(_) => Some(SpecRequest::Single(spec_decode_message(v))),
        SpecJson::Arr(elems) => Some(
            SpecRequest::Batch(Seq::new(elems.len(), |i: int| spec_decode_message(elems[i]))),
    ),
        _ => None,
    }
}

/// Read one wire request out of a JSON value, if it has the shape of one.
pub fn decode_request(v: JsonValue) -> (r: Option<Request>)
    ensures
        match r {
            Some(req) => Some(req@) == spec_decode_request(v@),
            None => spec_decode_request(v@) is None,
        },
{
    let ghost gv = v@;
    match v {
        JsonValue::Obj(_) => Some(Request::Single(decode_message(v))),
        JsonValue::Arr(mut elems) => {
            let ghost orig = elems@;
            let ghost velems = view_arr(orig, orig.len() as int);
            proof {
                lemma_view_arr_len(orig, orig.len() as int);
            }
            let n = elems.len();
            let mut msgs: Vec<SendableMessage> = Vec::new();
            let mut i: usize = 0;
            while i < n
                invariant
                    n == orig.len(),
                    n == elems@.len(),
                    i == msgs@.len(),
                    0 <= i <= n,
                    velems == view_arr(orig, orig.len() as int),
                    velems.len() == n,
                    forall|k: int| i <= k < n ==> #[trigger] elems@[k] == orig[k],
                    forall|k: int|
                        0 <= k < i ==> #[trigger] msgs@[k]@ == spec_decode_message(velems[k]),
                decreases n - i,
            {
                proof {
                    lemma_view_arr_index(orig, orig.len() as int, i as int);
                }
                let mut e = JsonValue::Null;
                core::mem::swap(&mut elems[i], &mut e);
                let m = decode_message(e);
                msgs.push(m);
                i = i + 1;
            }
            proof {
                crate::jsonrpc::lemma_view_batch_len(msgs@, msgs@.len() as int);
                assert forall|k: int| 0 <= k < n implies #[trigger] view_batch(
                    msgs@,
                    msgs@.len() as int,
                )[k] == spec_decode_message(velems[k]) by {
                    crate::jsonrpc::lemma_view_batch_index(msgs@, msgs@.len() as int, k);
                }
                assert(view_batch(msgs@, msgs@.len() as int) =~= Seq::new(
                    velems.len(),
                    |i: int| spec_decode_message(velems[i]),
                ));
            }
            Some(Request::Batch(msgs))
        },
        _ => None,
    }
}


/// The trailing `data` member of an error body: absent data is not written.
pub open spec fn spec_data_tail(d: Option<SpecJson>) -> Seq<(Seq<char>, SpecJson)> {
    match d {
        Some(d) => seq![("data"@, d)],
        None => Seq::empty(),
    }
}

/// How an error body appears in JSON.
pub open spec fn spec_encode_error_data(e: SpecErrorData) -> SpecJson {
    SpecJson::Obj(
        seq![("code"@, SpecJson::Num(spec_code(e.code))), ("message"@, SpecJson::Str(e.message))]
            + spec_data_tail(e.data),
    )
}

/// How a response item appears in JSON.
pub open spec fn spec_encode_response_item(item: SpecResponseItem) -> SpecJson {
    match item {
        SpecResponseItem::Success { id, result } => SpecJson::Obj(
            seq![
                ("jsonrpc"@, SpecJson::Str("2.0"@)),
                ("id"@, spec_encode_id(id)),
                ("result"@, result),
            ],
        ),
        SpecResponseItem::Error { id, error } => SpecJson::Obj(
            seq![
                ("jsonrpc"@, SpecJson::Str("2.0"@)),
                ("id"@, spec_encode_id(id)),
                ("error"@, spec_encode_error_data(error)),
            ],
        ),
    }
}

/// How a whole response appears in JSON. An empty single response renders as
/// JSON null; callers test [`Response::is_empty`] first and write nothing.
pub open spec fn spec_encode_response(r: SpecResponse) -> SpecJson {
    match r {
        SpecResponse::Single(Some(item)) => spec_encode_response_item(item),
        SpecResponse::Single(None) => SpecJson::Null,
        SpecResponse::Batch(items) => SpecJson::Arr(
            Seq::new(items.len(), |i: int| spec_encode_response_item(items[i])),
        ),
    }
}

/// Turn an error body into its JSON form.
pub fn encode_error_data(e: ErrorData) -> (r: JsonValue)
    ensures
        r@ == spec_encode_error_data(e@),
{
    let ghost ge = e@;
    let mut pairs: Vec<(String, JsonValue)> = Vec::new();
    pairs.push(("code".to_owned(), JsonValue::Num(e.code.code() as i64)));
    pairs.push(("message".to_owned(), JsonValue::Str(e.message)));
    if let Some(d) = e.data {
        pairs.push(("data".to_owned(), d));
    }
    proof {
        reveal_with_fuel(view_obj, 5);
        assert(view_obj(pairs@, pairs@.len() as int) =~= spec_encode_error_data(ge)->Obj_0);
    }
    JsonValue::Obj(pairs)
}

/// Turn a response item into its JSON form.
pub fn encode_response_item(item: ResponseItem) -> (r: JsonValue)
    ensures
        r@ == spec_encode_response_item(item@),
{
    let ghost gitem = item@;
    match item {
        ResponseItem::Success { id, result } => {
            let mut pairs: Vec<(String, JsonValue)> = Vec::new();
            pairs.push(("jsonrpc".to_owned(), JsonValue::Str("2.0".to_owned())));
            pairs.push(("id".to_owned(), encode_id(id)));
            pairs.push(("result".to_owned(), result));
            proof {
                reveal_with_fuel(view_obj, 5);
                assert(view_obj(pairs@, pairs@.len() as int)
                    =~= spec_encode_response_item(gitem)->Obj_0);
            }
            JsonValue::Obj(pairs)
        },
        ResponseItem::Error { id, error } => {
            let mut pairs: Vec<(String, JsonValue)> = Vec::new();
            pairs.push(("jsonrpc".to_owned(), JsonValue::Str("2.0".to_owned())));
            pairs.push(("id".to_owned(), encode_id(id)));
            pairs.push(("error".to_owned(), encode_error_data(error)));
            proof {
                reveal_with_fuel(view_obj, 5);
                assert(view_obj(pairs@, pairs@.len() as int)
                    =~= spec_encode_response_item(gitem)->Obj_0);
            }
            JsonValue::Obj(pairs)
        },
    }
}

/// Turn a whole response into its JSON form.
pub fn encode_response(r: Response) -> (out: JsonValue)
    ensures
        out@ == spec_encode_response(r@),
{
    let ghost gr = r@;
    match r {
        Response::Single(Some(item)) => encode_response_item(item),
        Response::Single(None) => JsonValue::Null,
        Response::Batch(mut items) => {
            let ghost orig = items@;
            let ghost vitems = view_items(orig, orig.len() as int);
            proof {
                lemma_view_items_len(orig, orig.len() as int);
            }
            let n = items.len();
            let mut elems: Vec<JsonValue> = Vec::new();
            let mut i: usize = 0;
            while i < n
                invariant
                    n == orig.len(),
                    n == items@.len(),
                    i == elems@.len(),
                    0 <= i <= n,
                    vitems == view_items(orig, orig.len() as int),
                    vitems.len() == n,
                    forall|k: int| i <= k < n ==> #[trigger] items@[k] == orig[k],
                    forall|k: int|
                        0 <= k < i ==> #[trigger] elems@[k]@ == spec_encode_response_item(
                            vitems[k],
                        ),
                decreases n - i,
            {
                proof {
                    lemma_view_items_index(orig, orig.len() as int, i as int);
                }
                let mut item = ResponseItem::Success {
                    id: RequestId::Null,
                    result: JsonValue::Null,
                };
                core::mem::swap(&mut items[i], &mut item);
                let e = encode_response_item(item);
                elems.push(e);
                i = i + 1;
            }
            proof {
                lemma_view_arr_len(elems@, elems@.len() as int);
                assert forall|k: int| 0 <= k < n implies #[trigger] view_arr(
                    elems@,
                    elems@.len() as int,
                )[k] == spec_encode_response_item(vitems[k]) by {
                    lemma_view_arr_index(elems@, elems@.len() as int, k);
                    assert(elems@[k]@ == spec_encode_response_item(vitems[k]));
                }
                assert(view_arr(elems@, elems@.len() as int) =~= Seq::new(
                    vitems.len(),
                    |i: int| spec_encode_response_item(vitems[i]),
                ));
            }
            JsonValue::Arr(elems)
        },
    }
}

/// Whether an id can stand on the wire as itself: a numeric id must fit
/// the wire's 64-bit numbers.
pub open spec fn wire_id(id: SpecId) -> bool {
    match id {
        SpecId::Num(n) => 0 <= n <= u64::MAX,
        SpecId::Str(_) => true,
        SpecId::Null => true,
    }
}

/// Whether a message can stand on the wire as itself: any method call,
/// notification or invalid placeholder whose id the wire model carries.
pub open spec fn wire_sendable(m: SpecMessage) -> bool {
    match m {
        SpecMessage::Request(mc) => wire_id(mc.id),
        SpecMessage::Notification(_) => true,
        SpecMessage::Invalid(id) => wire_id(id),
    }
}

/// Decoding inverts encoding: every message that can stand on the wire,
/// written out as JSON, reads back as itself.
pub proof fn lemma_message_round_trip(m: SpecMessage)
    requires
        wire_sendable(m),
    ensures
        spec_decode_message(spec_encode_message(m)) == m,
{
    reveal_with_fuel(spec_obj_get_from, 6);
    reveal_strlit("jsonrpc");
    reveal_strlit("id");
    reveal_strlit("method");
    reveal_strlit("params");
    reveal_strlit("2.0");
    assert("jsonrpc"@.len() == 7 && "id"@.len() == 2 && "method"@.len() == 6 && "params"@.len()
        == 6);
    assert("method"@[0] == 'm' && "params"@[0] == 'p');
    match m {
        SpecMessage::Request(mc) => {
            if mc.id matches SpecId::Num(n) && n > i64::MAX {
                crate::render::lemma_dec_value_of_dec_text(mc.id->Num_0);
            }
            let pairs = spec_encode_message(m)->Obj_0;
            assert(spec_obj_get(pairs, "jsonrpc"@) == Some(SpecJson::Str("2.0"@)));
            assert(spec_obj_get(pairs, "id"@) == Some(spec_encode_id(mc.id)));
            assert(spec_obj_get(pairs, "method"@) == Some(SpecJson::Str(mc.method)));
            match mc.params {
                Some(p) => {
                    assert(pairs.len() == 4);
                    assert(spec_obj_get(pairs, "params"@) == Some(spec_encode_params(p)));
                },
                None => {
                    assert(pairs.len() == 3);
                    assert(spec_obj_get(pairs, "params"@) is None);
                },
            }
        },
        SpecMessage::Notification(n) => {
            let pairs = spec_encode_message(m)->Obj_0;
            assert(spec_obj_get(pairs, "jsonrpc"@) == Some(SpecJson::Str("2.0"@)));
            assert(spec_obj_get(pairs, "id"@) is None);
            assert(spec_obj_get(pairs, "method"@) == Some(SpecJson::Str(n.method)));
            match n.params {
                Some(p) => {
                    assert(spec_obj_get(pairs, "params"@) == Some(spec_encode_params(p)));
                },
                None => {
                    assert(spec_obj_get(pairs, "params"@) is None);
                },
            }
        },
        SpecMessage::Invalid(id) => {
            if id matches SpecId::Num(n) && n > i64::MAX {
                crate::render::lemma_dec_value_of_dec_text(id->Num_0);
            }
            let pairs = spec_encode_message(m)->Obj_0;
            assert(spec_obj_get(pairs, "jsonrpc"@) is None);
            assert(spec_obj_get(pairs, "id"@) == Some(spec_encode_id(id)));
        },
    }
}

} // verus!
