use std::marker::PhantomData;
use vstd::prelude::*;

verus! {

/// An execution context: the global object and other execution state.
#[derive(Debug, Clone, Copy)]
pub struct JsContext<'global> {
    _phantom: PhantomData<&'global ()>,
    rf: usize,
}

impl<'global> View for JsContext<'global> {
    type V = usize;

    closed spec fn view(&self) -> usize {
        self.rf
    }
}

impl<'global> JsContext<'global> {
    /// Wraps a context reference that the engine handed out.
    pub fn from_rf(rf: usize) -> (r: Self)
        ensures
            r@ == rf,
    {
        JsContext { _phantom: PhantomData, rf }
    }

    /// The engine's reference.
    pub fn rf(&self) -> (r: usize)
        ensures
            r == self@,
    {
        self.rf
    }

    /// The same context, detached from the lifetime of its global context.
    pub fn extend_lifetime_unchecked(&self) -> (r: JsContext<'static>)
        ensures
            r@ == self@,
    {
        JsContext::from_rf(self.rf)
    }
}

} // verus!
