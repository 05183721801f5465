//! The message-level server: answers already-parsed messages one at a
//! time.
//!
//! A transport that parses its own frames into messages drives this
//! directly: each message goes to [`Server::process_message`], and the
//! returned line, if any, is written back. The read loop itself — bytes,
//! framing, end of stream — lives with the transport.

use vstd::prelude::*;

use crate::jsonrpc::{Response, SendableMessage, SpecMessage, SpecResponse};
use crate::render::json_text;
use crate::serve::response_to_line;
use crate::service::{spec_message_response_consistent, spec_opt_item, MessageService};
use crate::jsonrpc::SpecResponseItem;

verus! {

/// A server around one message service.
pub struct Server<S> {
    service: S,
}

/// The line, if any, one answer renders to: a notification's absent
/// answer renders to nothing.
pub open spec fn spec_rendered_item(item: Option<SpecResponseItem>) -> Option<Seq<char>> {
    match item {
        Some(item) => Some(
            json_text(crate::codec::spec_encode_response(SpecResponse::Single(Some(item)))),
        ),
        None => None,
    }
}

/// Whether `out` answers the message `m` as `svc` answers it: some answer
/// of that service, consistent with the message and allowed by the
/// service's routing law, renders to it.
pub closed spec fn spec_message_answer_for<S: MessageService>(
    svc: S,
    m: SpecMessage,
    out: Option<Seq<char>>,
) -> bool {
    exists|item: Option<SpecResponseItem>|
        #[trigger] spec_message_response_consistent(m, item) && svc.answers(m, item) && out
            == spec_rendered_item(item)
}

/// A concrete answer of the service witnesses its message answer.
pub proof fn lemma_message_answer_for<S: MessageService>(
    svc: S,
    m: SpecMessage,
    item: Option<SpecResponseItem>,
    out: Option<Seq<char>>,
)
    requires
        spec_message_response_consistent(m, item),
        svc.answers(m, item),
        out == spec_rendered_item(item),
    ensures
        spec_message_answer_for(svc, m, out),
{
}

/// Every message answer has such an answer behind it; it is handed out
/// for analysis.
pub proof fn lemma_message_answer_for_elim<S: MessageService>(
    svc: S,
    m: SpecMessage,
    out: Option<Seq<char>>,
) -> (item: Option<SpecResponseItem>)
    requires
        spec_message_answer_for(svc, m, out),
    ensures
        spec_message_response_consistent(m, item),
        svc.answers(m, item),
        out == spec_rendered_item(item),
{
    choose|item: Option<SpecResponseItem>|
        #[trigger] spec_message_response_consistent(m, item) && svc.answers(m, item) && out
            == spec_rendered_item(item)
}

impl<S: MessageService> Server<S> {
    /// The service inside.
    pub closed spec fn spec_service(&self) -> S {
        self.service
    }

    /// Serve messages through `service`.
    pub fn new(service: S) -> (r: Self)
        ensures
            r.spec_service() == service,
    {
        Server { service }
    }

    /// Answer one parsed message: the line to write back, or nothing for a
    /// notification.
    pub fn process_message(&self, msg: SendableMessage) -> (r: Option<String>)
        ensures
            spec_message_answer_for(self.spec_service(), msg@, crate::serve::spec_opt_line(r)),
    {
        let ghost gm = msg@;
        let answer = self.service.call_message(msg);
        let ghost gitem = spec_opt_item(answer);
        match answer {
            Some(item) => {
                let text = response_to_line(Response::Single(Some(item)));
                proof {
                    lemma_message_answer_for(self.spec_service(), gm, gitem, Some(text@));
                }
                Some(text)
            },
            None => {
                proof {
                    lemma_message_answer_for(self.spec_service(), gm, gitem, None);
                }
                None
            },
        }
    }
}

} // verus!
