//! Middleware: wrapping a message service in another.
//!
//! A layer turns a service into a service of the same shape; the first
//! declared layer is the outermost, seeing each message first and its
//! answer last. Every layer answers under the same consistency contract
//! as the service it wraps, so the protocol's laws survive any stack of
//! them.

use vstd::prelude::*;

use crate::jsonrpc::{ResponseItem, SendableMessage};
use crate::service::MessageService;

verus! {

/// A wrapper that turns one message service into another.
pub trait Layer<S> {
    /// The wrapped service's type.
    type Service;

    /// Wrap `inner`.
    fn layer(&self, inner: S) -> Self::Service;
}

/// The reference layer: a transparent wrapper marking where an observation
/// hook sits in the stack. Logging itself stays outside the verified
/// library, so this service forwards every message unchanged.
pub struct TracingService<S> {
    /// The service inside.
    pub inner: S,
}

impl<S: MessageService> TracingService<S> {
    /// The service inside.
    pub open spec fn spec_inner(&self) -> S {
        self.inner
    }
}

impl<S: MessageService> MessageService for TracingService<S> {
    /// Exactly the answers the service inside gives.
    open spec fn answers(
        &self,
        m: crate::jsonrpc::SpecMessage,
        r: Option<crate::jsonrpc::SpecResponseItem>,
    ) -> bool {
        self.inner.answers(m, r)
    }

    fn call_message(&self, msg: SendableMessage) -> (r: Option<ResponseItem>) {
        self.inner.call_message(msg)
    }
}

/// The layer that applies [`TracingService`].
pub struct TracingLayer;

impl TracingLayer {
    /// A tracing layer.
    pub fn new() -> Self {
        TracingLayer
    }
}

impl<S: MessageService> Layer<S> for TracingLayer {
    type Service = TracingService<S>;

    fn layer(&self, inner: S) -> (r: TracingService<S>)
        ensures
            r.spec_inner() == inner,
    {
        TracingService { inner }
    }
}

} // verus!
