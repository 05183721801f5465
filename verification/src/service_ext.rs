//! Promoting a message service to a request service.

use vstd::prelude::*;

use crate::service::{MCPRequestService, MessageService};

verus! {

/// Extra methods on any message service.
pub trait ServiceExt: MessageService + Sized {
    /// This service, serving whole wire requests: single messages pass
    /// through, batches fan out.
    fn into_request_service(self) -> (r: MCPRequestService<Self>)
        ensures
            r.spec_inner() == self,
    ;
}

impl<S: MessageService> ServiceExt for S {
    fn into_request_service(self) -> (r: MCPRequestService<Self>) {
        MCPRequestService::new(self)
    }
}

} // verus!
