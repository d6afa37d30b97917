use std::marker::PhantomData;
use vstd::prelude::*;

use crate::value::JsValue;

verus! {

/// A JavaScript object, identified by the engine's reference.
#[derive(Debug, Clone, Copy)]
pub struct JsObject<'ctx> {
    _phantom: PhantomData<&'ctx ()>,
    rf: usize,
}

impl<'ctx> View for JsObject<'ctx> {
    type V = usize;

    closed spec fn view(&self) -> usize {
        self.rf
    }
}

impl<'ctx> JsObject<'ctx> {
    /// Wraps an object reference that the engine handed out.
    pub fn from_rf(rf: usize) -> (r: Self)
        ensures
            r@ == rf,
    {
        JsObject { _phantom: PhantomData, rf }
    }

    /// The engine's reference.
    pub fn rf(&self) -> (r: usize)
        ensures
            r == self@,
    {
        self.rf
    }

    /// Casts to a [`JsValue`]: an object is a value, with the same reference.
    pub fn as_value(&self) -> (r: JsValue<'ctx>)
        ensures
            r@ == self@,
    {
        JsValue::from_rf(self.rf)
    }

    /// The same object, detached from the lifetime of its context.
    pub fn extend_lifetime_unchecked(&self) -> (r: JsObject<'static>)
        ensures
            r@ == self@,
    {
        JsObject::from_rf(self.rf)
    }

    /// The answer of an engine call that creates an object or returns the null
    /// reference and an exception.
    pub fn from_rf_or_exception(rf: usize, exception: JsValue<'ctx>) -> (r: Result<
        JsObject<'ctx>,
        JsValue<'ctx>,
    >)
        ensures
            r is Err <==> rf == 0,
            r matches Ok(o) ==> o@ == rf,
            r matches Err(e) ==> e == exception,
    {
        if rf == 0 {
            Err(exception)
        } else {
            Ok(JsObject::from_rf(rf))
        }
    }

    /// The objects of an argument list the engine handed to a callback, in
    /// order.
    pub fn objects_from_refs(refs: &[usize]) -> (r: Vec<JsObject<'ctx>>)
        ensures
            r@.len() == refs@.len(),
            forall|i: int| 0 <= i < refs@.len() ==> (#[trigger] r@[i])@ == refs@[i],
    {
        let mut objects: Vec<JsObject<'ctx>> = Vec::new();
        let mut i: usize = 0;
        while i < refs.len()
            invariant
                i <= refs@.len(),
                objects@.len() == i,
                forall|j: int| 0 <= j < i ==> (#[trigger] objects@[j])@ == refs@[j],
            decreases refs@.len() - i,
        {
            objects.push(JsObject::from_rf(refs[i]));
            i = i + 1;
        }
        objects
    }

    /// The answer of deleting a property: success, or the exception.
    pub fn delete_outcome(success: bool, exception: JsValue<'ctx>) -> (r: Result<(), JsValue<'ctx>>)
        ensures
            r is Ok <==> success,
            r matches Err(e) ==> e == exception,
    {
        if success {
            Ok(())
        } else {
            Err(exception)
        }
    }
}

} // verus!
