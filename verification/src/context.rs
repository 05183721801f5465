//! Shared state for handlers: a type-keyed bag frozen when the service is
//! built.

use vstd::prelude::*;

verus! {

/// A shared-ownership handle on a piece of state that tool and prompt
/// handlers may read.
///
/// The value lives for the service's lifetime; cloning the handle shares
/// it. Interior mutability, where wanted, is the user's to arrange inside
/// `T`.
#[derive(Debug)]
pub struct Inject<T> {
    inner: std::sync::Arc<T>,
}

impl<T> Inject<T> {
    /// Wrap `state` in a shared-ownership handle.
    pub fn new(state: T) -> (r: Inject<T>)
        ensures
            r@ == state,
    {
        Inject { inner: std::sync::Arc::new(state) }
    }

    /// Relies on Arc's Deref: borrows the shared value.
    #[verifier::external_body]
    pub fn get_ref(&self) -> (r: &T)
        ensures
            *r == self@,
    {
        &self.inner
    }

    /// Relies on Arc::clone: the new handle shares the same value.
    #[verifier::external_body]
    pub fn dup(&self) -> (r: Inject<T>)
        ensures
            r@ == self@,
    {
        Inject { inner: std::sync::Arc::clone(&self.inner) }
    }
}

impl<T> View for Inject<T> {
    type V = T;

    closed spec fn view(&self) -> T {
        *self.inner
    }
}

/// The registry of state that handlers may pull out by type.
///
/// Values go in when the service is built and cannot change afterwards.
/// The bag is keyed by the Rust type of the stored handle; it is
/// heterogeneous, so Verus sees it as opaque, and nothing is proved about
/// what it holds: the verified pipeline never reads it, only hands it to
/// handlers.
#[verifier::external_body]
#[derive(Default)]
pub struct Context {
    map: std::collections::HashMap<std::any::TypeId, Box<dyn std::any::Any>>,
}

impl Context {
    /// An empty context.
    #[verifier::external_body]
    pub fn new() -> Self {
        Context { map: std::collections::HashMap::new() }
    }

    /// Relies on HashMap::insert keyed by std::any::TypeId: registers
    /// `state` under the type `Inject<T>`, replacing an earlier value of
    /// the same type.
    #[verifier::external_body]
    pub fn insert<T: 'static>(&mut self, state: Inject<T>) {
        self.map.insert(std::any::TypeId::of::<Inject<T>>(), Box::new(state));
    }

    /// Relies on HashMap::get and Any::downcast_ref: returns the value
    /// registered under type `T`, if one was inserted.
    #[verifier::external_body]
    pub fn get<T: 'static>(&self) -> Option<&T> {
        self.map.get(&std::any::TypeId::of::<T>()).and_then(|boxed| boxed.downcast_ref())
    }
}

/// The capability by which a handler parameter is materialised from the
/// context.
pub trait FromContext: Sized {
    /// Extract a value of this type from the context, if it was registered.
    fn from_context(ctx: &Context) -> Option<Self>;
}

impl<T: 'static> FromContext for Inject<T> {
    /// A shared handle on the `Inject<T>` registered at build time, or
    /// `None` where none was. Asking for unregistered state is a
    /// programmer error; a verified library may not panic on it, so the
    /// caller is handed the `None` to fail on, deliberately, instead of a
    /// crash inside the library.
    fn from_context(ctx: &Context) -> Option<Self> {
        match ctx.get::<Inject<T>>() {
            Some(handle) => Some(handle.dup()),
            None => None,
        }
    }
}

} // verus!
