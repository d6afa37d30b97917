use std::cmp::Ordering;
use std::marker::PhantomData;
use vstd::prelude::*;

use crate::object::JsObject;

verus! {

/// The engine's code for `kJSRelationConditionUndefined`: the values could not
/// be compared and an exception was raised.
pub const RELATION_UNDEFINED: u32 = 0;

/// The engine's code for `kJSRelationConditionEqual`.
pub const RELATION_EQUAL: u32 = 1;

/// The engine's code for `kJSRelationConditionGreaterThan`.
pub const RELATION_GREATER_THAN: u32 = 2;

/// The engine's code for `kJSRelationConditionLessThan`.
pub const RELATION_LESS_THAN: u32 = 3;

/// A JavaScript value, identified by the engine's reference (`0` is the null
/// reference).
#[derive(Debug, Clone, Copy)]
pub struct JsValue<'ctx> {
    _phantom: PhantomData<&'ctx ()>,
    rf: usize,
}

impl<'ctx> View for JsValue<'ctx> {
    type V = usize;

    closed spec fn view(&self) -> usize {
        self.rf
    }
}

/// What a comparison answer code means: `None` for an exception, otherwise the
/// ordering of the left operand against the right one.
pub open spec fn relation_meaning(code: u32) -> Option<Ordering> {
    if code == RELATION_EQUAL {
        Some(Ordering::Equal)
    } else if code == RELATION_GREATER_THAN {
        Some(Ordering::Greater)
    } else if code == RELATION_LESS_THAN {
        Some(Ordering::Less)
    } else {
        None
    }
}

impl<'ctx> JsValue<'ctx> {
    /// Wraps a value reference that the engine handed out.
    pub fn from_rf(rf: usize) -> (r: Self)
        ensures
            r@ == rf,
    {
        JsValue { _phantom: PhantomData, rf }
    }

    /// The engine's reference.
    pub fn rf(&self) -> (r: usize)
        ensures
            r == self@,
    {
        self.rf
    }

    /// The answer of an engine call that returns a value or the null reference
    /// and an exception: the value when the reference is not null, the
    /// exception otherwise.
    pub fn from_rf_or_exception(rf: usize, exception: JsValue<'ctx>) -> (r: Result<
        JsValue<'ctx>,
        JsValue<'ctx>,
    >)
        ensures
            r is Err <==> rf == 0,
            r matches Ok(v) ==> v@ == rf,
            r matches Err(e) ==> e == exception,
    {
        if rf == 0 {
            Err(exception)
        } else {
            Ok(JsValue::from_rf(rf))
        }
    }

    /// The answer of an engine call that returns a value or the null reference
    /// without an exception (parsing JSON): `None` for the null reference.
    pub fn from_nullable_rf(rf: usize) -> (r: Option<JsValue<'ctx>>)
        ensures
            r is None <==> rf == 0,
            r matches Some(v) ==> v@ == rf,
    {
        if rf == 0 {
            None
        } else {
            Some(JsValue::from_rf(rf))
        }
    }

    /// Casts to a [`JsObject`] when the engine says the value is an object.
    pub fn as_object_if(&self, is_object: bool) -> (r: Option<JsObject<'ctx>>)
        ensures
            r is Some <==> is_object,
            r matches Some(o) ==> o@ == self@,
    {
        if is_object {
            Some(self.as_object_unchecked())
        } else {
            None
        }
    }

    /// Casts to a [`JsObject`] without asking the engine; the reference is kept.
    pub fn as_object_unchecked(&self) -> (r: JsObject<'ctx>)
        ensures
            r@ == self@,
    {
        JsObject::from_rf(self.rf)
    }

    /// The same value, detached from the lifetime of its context.
    pub fn extend_lifetime_unchecked(&self) -> (r: JsValue<'static>)
        ensures
            r@ == self@,
    {
        JsValue::from_rf(self.rf)
    }

    /// The answer of a conversion to `i32`: a zero result together with a
    /// raised exception (the exception slot no longer holds `null`) is a
    /// failure; any other result is the number.
    pub fn i32_outcome(res: i32, exception: JsValue<'ctx>, exception_is_null: bool) -> (r: Result<
        i32,
        JsValue<'ctx>,
    >)
        ensures
            r is Err <==> (res == 0 && !exception_is_null),
            r matches Ok(v) ==> v == res,
            r matches Err(e) ==> e == exception,
    {
        if res == 0 && !exception_is_null {
            Err(exception)
        } else {
            Ok(res)
        }
    }

    /// The answer of a conversion to `i64`, decided as for `i32`.
    pub fn i64_outcome(res: i64, exception: JsValue<'ctx>, exception_is_null: bool) -> (r: Result<
        i64,
        JsValue<'ctx>,
    >)
        ensures
            r is Err <==> (res == 0 && !exception_is_null),
            r matches Ok(v) ==> v == res,
            r matches Err(e) ==> e == exception,
    {
        if res == 0 && !exception_is_null {
            Err(exception)
        } else {
            Ok(res)
        }
    }

    /// The answer of a conversion to `u32`, decided as for `i32`.
    pub fn u32_outcome(res: u32, exception: JsValue<'ctx>, exception_is_null: bool) -> (r: Result<
        u32,
        JsValue<'ctx>,
    >)
        ensures
            r is Err <==> (res == 0 && !exception_is_null),
            r matches Ok(v) ==> v == res,
            r matches Err(e) ==> e == exception,
    {
        if res == 0 && !exception_is_null {
            Err(exception)
        } else {
            Ok(res)
        }
    }

    /// The answer of a conversion to `u64`, decided as for `i32`.
    pub fn u64_outcome(res: u64, exception: JsValue<'ctx>, exception_is_null: bool) -> (r: Result<
        u64,
        JsValue<'ctx>,
    >)
        ensures
            r is Err <==> (res == 0 && !exception_is_null),
            r matches Ok(v) ==> v == res,
            r matches Err(e) ==> e == exception,
    {
        if res == 0 && !exception_is_null {
            Err(exception)
        } else {
            Ok(res)
        }
    }

    /// The answer of a comparison: the engine's relation code becomes an
    /// ordering, or the exception when the values could not be compared.
    ///
    /// The engine answers with one of four codes; no other code is accepted.
    pub fn relation_outcome(code: u32, exception: JsValue<'ctx>) -> (r: Result<
        Ordering,
        JsValue<'ctx>,
    >)
        requires
            code <= RELATION_LESS_THAN,
        ensures
            r is Err <==> code == RELATION_UNDEFINED,
            r matches Ok(o) ==> relation_meaning(code) == Some(o),
            r matches Err(e) ==> e == exception,
    {
        if code == RELATION_UNDEFINED {
            Err(exception)
        } else if code == RELATION_EQUAL {
            Ok(Ordering::Equal)
        } else if code == RELATION_GREATER_THAN {
            Ok(Ordering::Greater)
        } else {
            Ok(Ordering::Less)
        }
    }
}


impl<'ctx> JsValue<'ctx> {
    /// The argument list the engine receives for a call that is told of
    /// `arg_count` arguments: the references of the first `arg_count` values,
    /// in order. The engine reads exactly `arg_count` references, so there
    /// must be at least that many values.
    pub fn argument_refs(args: &[JsValue<'ctx>], arg_count: usize) -> (r: Vec<usize>)
        requires
            arg_count <= args@.len(),
        ensures
            r@.len() == arg_count,
            forall|i: int| 0 <= i < arg_count ==> r@[i] == (#[trigger] args@[i])@,
    {
        let mut refs: Vec<usize> = Vec::new();
        let mut i: usize = 0;
        while i < arg_count
            invariant
                arg_count <= args@.len(),
                i <= arg_count,
                refs@.len() == i,
                forall|j: int| 0 <= j < i ==> refs@[j] == (#[trigger] args@[j])@,
            decreases arg_count - i,
        {
            refs.push(args[i].rf());
            i = i + 1;
        }
        refs
    }
}

impl<'ctx> From<JsObject<'ctx>> for JsValue<'ctx> {
    /// An object is a value with the same reference.
    fn from(value: JsObject<'ctx>) -> (r: Self) {
        value.as_value()
    }
}

impl<'ctx> vstd::std_specs::convert::FromSpecImpl<JsObject<'ctx>> for JsValue<'ctx> {
    open spec fn obeys_from_spec() -> bool {
        true
    }

    closed spec fn from_spec(v: JsObject<'ctx>) -> JsValue<'ctx> {
        JsValue { _phantom: PhantomData, rf: v@ }
    }
}

/// Converting an object into a value keeps its reference.
pub proof fn law_object_into_value_keeps_ref<'ctx>(o: JsObject<'ctx>)
    ensures
        <JsValue<'ctx> as vstd::std_specs::convert::FromSpec<JsObject<'ctx>>>::from_spec(o)@ == o@,
{
}
} // verus!
