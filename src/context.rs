use vstd::prelude::*;

use crate::config::PoolError;

verus! {

/// The context of one unit of work (a request), into which a shared handle is
/// registered before any handler code runs.
pub struct RequestContext<H> {
    handle: Option<H>,
}

impl<H> View for RequestContext<H> {
    type V = Option<H>;

    /// The handle registered in this unit of work, if any.
    closed spec fn view(&self) -> Option<H> {
        self.handle
    }
}

impl<H> RequestContext<H> {
    /// A context in which nothing is registered yet.
    pub fn new() -> (r: RequestContext<H>)
        ensures
            r@ is None,
    {
        RequestContext { handle: None }
    }

    /// Registers `handle`, replacing any handle registered before.
    pub fn register(&mut self, handle: H)
        ensures
            final(self)@ == Some(handle),
    {
        self.handle = Some(handle);
    }

    /// Whether a handle was registered.
    pub fn is_registered(&self) -> (r: bool)
        ensures
            r == self@ is Some,
    {
        self.handle.is_some()
    }

    /// The registered handle, or `ContextMissing` where none was registered.
    pub fn handle(&self) -> (r: Result<&H, PoolError>)
        ensures
            self@ is None ==> r == Err::<&H, PoolError>(PoolError::ContextMissing),
            self@ is Some ==> (r is Ok && *r->Ok_0 == self@->Some_0),
    {
        match &self.handle {
            Some(h) => Ok(h),
            None => Err(PoolError::ContextMissing),
        }
    }
}

} // verus!
