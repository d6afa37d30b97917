use vstd::prelude::*;

use crate::object::JsObject;
use crate::value::JsValue;

verus! {

/// The JavaScript `Error` interface: an error object whose `name`, `cause`,
/// `message` and `stack` properties the engine reads.
#[derive(Clone, Copy)]
pub struct Error<'ctx> {
    obj: JsObject<'ctx>,
}

impl<'ctx> View for Error<'ctx> {
    type V = usize;

    closed spec fn view(&self) -> usize {
        self.obj@
    }
}

impl<'ctx> Error<'ctx> {
    /// Views an error object through the `Error` interface.
    pub fn from_object(obj: JsObject<'ctx>) -> (r: Self)
        ensures
            r@ == obj@,
    {
        Error { obj }
    }

    /// The error object as a value.
    pub fn as_value(&self) -> (r: JsValue<'ctx>)
        ensures
            r@ == self@,
    {
        self.obj.as_value()
    }
}

} // verus!
