use std::marker::PhantomData;
use vstd::prelude::*;

use crate::attributes::{JsClassAttributes, JsPropertyAttributes};
use crate::value::JsValue;

verus! {

/// A name the engine can take as a C string: it holds no zero character.
pub open spec fn is_c_name(name: Seq<char>) -> bool {
    !name.contains('\0')
}

/// A JavaScript class, identified by the engine's reference.
pub struct JsClass {
    rf: usize,
}

impl View for JsClass {
    type V = usize;

    closed spec fn view(&self) -> usize {
        self.rf
    }
}

impl JsClass {
    /// Wraps a class reference that the engine handed out.
    pub fn from_rf(rf: usize) -> (r: Self)
        ensures
            r@ == rf,
    {
        JsClass { rf }
    }

    /// The engine's reference.
    pub fn as_ptr(&self) -> (r: usize)
        ensures
            r == self@,
    {
        self.rf
    }

    /// The reference of an optional class, `0` (the default object class) for none.
    pub fn optional_ref(class: Option<&JsClass>) -> (r: usize)
        ensures
            r == (match class {
                Some(c) => c@,
                None => 0,
            }),
    {
        match class {
            Some(c) => c.rf,
            None => 0,
        }
    }
}

/// Builds a statically declared value property of a class.
///
/// The getter and setter are the addresses of the engine callbacks that serve
/// the property (`None` for none).
pub struct JsStaticValueBuilder {
    name: String,
    get_property: Option<usize>,
    set_property: Option<usize>,
    attributes: u32,
}

impl JsStaticValueBuilder {
    #[verifier::type_invariant]
    closed spec fn inv(self) -> bool {
        is_c_name(self.name@)
    }

    /// The property's name.
    pub closed spec fn spec_name(&self) -> Seq<char> {
        self.name@
    }

    /// The getter callback.
    pub closed spec fn spec_get_property(&self) -> Option<usize> {
        self.get_property
    }

    /// The setter callback.
    pub closed spec fn spec_set_property(&self) -> Option<usize> {
        self.set_property
    }

    /// The property attributes' bits.
    pub closed spec fn spec_attributes(&self) -> u32 {
        self.attributes
    }

    /// Starts a property with this name, no callbacks and no attributes.
    ///
    /// The name must not hold a zero character.
    pub fn new(name: &str) -> (r: Self)
        requires
            is_c_name(name@),
        ensures
            r.spec_name() == name@,
            r.spec_get_property() is None,
            r.spec_set_property() is None,
            r.spec_attributes() == 0,
    {
        JsStaticValueBuilder {
            name: name.to_owned(),
            get_property: None,
            set_property: None,
            attributes: 0,
        }
    }

    /// Sets the getter callback.
    pub fn with_get_callback(self, callback: usize) -> (r: Self)
        ensures
            r.spec_name() == self.spec_name(),
            r.spec_get_property() == Some(callback),
            r.spec_set_property() == self.spec_set_property(),
            r.spec_attributes() == self.spec_attributes(),
    {
        proof {
            use_type_invariant(&self);
        }
        JsStaticValueBuilder { get_property: Some(callback), ..self }
    }

    /// Sets the setter callback.
    pub fn with_set_callback(self, callback: usize) -> (r: Self)
        ensures
            r.spec_name() == self.spec_name(),
            r.spec_get_property() == self.spec_get_property(),
            r.spec_set_property() == Some(callback),
            r.spec_attributes() == self.spec_attributes(),
    {
        proof {
            use_type_invariant(&self);
        }
        JsStaticValueBuilder { set_property: Some(callback), ..self }
    }

    /// Sets the property attributes.
    pub fn with_attributes(self, attributes: JsPropertyAttributes) -> (r: Self)
        ensures
            r.spec_name() == self.spec_name(),
            r.spec_get_property() == self.spec_get_property(),
            r.spec_set_property() == self.spec_set_property(),
            r.spec_attributes() == attributes@,
    {
        proof {
            use_type_invariant(&self);
        }
        JsStaticValueBuilder { attributes: attributes.bits(), ..self }
    }

    /// The finished property.
    pub fn build(self) -> (r: ReusableJsStaticValue)
        ensures
            r.spec_name() == self.spec_name(),
            r.spec_get_property() == self.spec_get_property(),
            r.spec_set_property() == self.spec_set_property(),
            r.spec_attributes() == self.spec_attributes(),
    {
        proof {
            use_type_invariant(&self);
        }
        ReusableJsStaticValue {
            name: self.name,
            get_property: self.get_property,
            set_property: self.set_property,
            attributes: self.attributes,
        }
    }
}

/// A finished statically declared value property.
pub struct ReusableJsStaticValue {
    name: String,
    get_property: Option<usize>,
    set_property: Option<usize>,
    attributes: u32,
}

impl ReusableJsStaticValue {
    #[verifier::type_invariant]
    closed spec fn inv(self) -> bool {
        is_c_name(self.name@)
    }

    /// The property's name.
    pub closed spec fn spec_name(&self) -> Seq<char> {
        self.name@
    }

    /// The getter callback.
    pub closed spec fn spec_get_property(&self) -> Option<usize> {
        self.get_property
    }

    /// The setter callback.
    pub closed spec fn spec_set_property(&self) -> Option<usize> {
        self.set_property
    }

    /// The property attributes' bits.
    pub closed spec fn spec_attributes(&self) -> u32 {
        self.attributes
    }

    /// The property's name; it holds no zero character.
    pub fn name(&self) -> (r: &str)
        ensures
            r@ == self.spec_name(),
            is_c_name(r@),
    {
        proof {
            use_type_invariant(self);
        }
        self.name.as_str()
    }

    /// The getter callback.
    pub fn get_property(&self) -> (r: Option<usize>)
        ensures
            r == self.spec_get_property(),
    {
        self.get_property
    }

    /// The setter callback.
    pub fn set_property(&self) -> (r: Option<usize>)
        ensures
            r == self.spec_set_property(),
    {
        self.set_property
    }

    /// The property attributes' bits.
    pub fn attributes(&self) -> (r: u32)
        ensures
            r == self.spec_attributes(),
    {
        self.attributes
    }
}


/// Builds a statically declared function property of a class.
///
/// The callback is the address of the engine callback that runs when the
/// property is called (`None` for none).
pub struct JsStaticFunctionBuilder {
    name: String,
    call_as_function: Option<usize>,
    attributes: u32,
}

impl JsStaticFunctionBuilder {
    #[verifier::type_invariant]
    closed spec fn inv(self) -> bool {
        is_c_name(self.name@)
    }

    /// The function's name.
    pub closed spec fn spec_name(&self) -> Seq<char> {
        self.name@
    }

    /// The call callback.
    pub closed spec fn spec_call_as_function(&self) -> Option<usize> {
        self.call_as_function
    }

    /// The property attributes' bits.
    pub closed spec fn spec_attributes(&self) -> u32 {
        self.attributes
    }

    /// Starts a function property with this name, no callback and no attributes.
    ///
    /// The name must not hold a zero character.
    pub fn new(function_name: &str) -> (r: Self)
        requires
            is_c_name(function_name@),
        ensures
            r.spec_name() == function_name@,
            r.spec_call_as_function() is None,
            r.spec_attributes() == 0,
    {
        JsStaticFunctionBuilder { name: function_name.to_owned(), call_as_function: None, attributes: 0 }
    }

    /// Sets the call callback.
    pub fn with_call_as_function_callback(self, callback: usize) -> (r: Self)
        ensures
            r.spec_name() == self.spec_name(),
            r.spec_call_as_function() == Some(callback),
            r.spec_attributes() == self.spec_attributes(),
    {
        proof {
            use_type_invariant(&self);
        }
        JsStaticFunctionBuilder { call_as_function: Some(callback), ..self }
    }

    /// Sets the property attributes.
    pub fn with_attributes(self, attributes: JsPropertyAttributes) -> (r: Self)
        ensures
            r.spec_name() == self.spec_name(),
            r.spec_call_as_function() == self.spec_call_as_function(),
            r.spec_attributes() == attributes@,
    {
        proof {
            use_type_invariant(&self);
        }
        JsStaticFunctionBuilder { attributes: attributes.bits(), ..self }
    }

    /// The finished function property.
    pub fn build(self) -> (r: ReusableJsStaticFunction)
        ensures
            r.spec_name() == self.spec_name(),
            r.spec_call_as_function() == self.spec_call_as_function(),
            r.spec_attributes() == self.spec_attributes(),
    {
        proof {
            use_type_invariant(&self);
        }
        ReusableJsStaticFunction {
            name: self.name,
            call_as_function: self.call_as_function,
            attributes: self.attributes,
        }
    }
}

/// A finished statically declared function property.
pub struct ReusableJsStaticFunction {
    name: String,
    call_as_function: Option<usize>,
    attributes: u32,
}

impl ReusableJsStaticFunction {
    #[verifier::type_invariant]
    closed spec fn inv(self) -> bool {
        is_c_name(self.name@)
    }

    /// The function's name.
    pub closed spec fn spec_name(&self) -> Seq<char> {
        self.name@
    }

    /// The call callback.
    pub closed spec fn spec_call_as_function(&self) -> Option<usize> {
        self.call_as_function
    }

    /// The property attributes' bits.
    pub closed spec fn spec_attributes(&self) -> u32 {
        self.attributes
    }

    /// The function's name; it holds no zero character.
    pub fn name(&self) -> (r: &str)
        ensures
            r@ == self.spec_name(),
            is_c_name(r@),
    {
        proof {
            use_type_invariant(self);
        }
        self.name.as_str()
    }

    /// The call callback.
    pub fn call_as_function(&self) -> (r: Option<usize>)
        ensures
            r == self.spec_call_as_function(),
    {
        self.call_as_function
    }

    /// The property attributes' bits.
    pub fn attributes(&self) -> (r: u32)
        ensures
            r == self.spec_attributes(),
    {
        self.attributes
    }
}

/// `Vec::from` on an array: the vector holds the array's elements in order.
#[verifier::external_body]
fn vec_from_array<T, const N: usize>(a: [T; N]) -> (r: Vec<T>)
    ensures
        r@ == a@,
{
    Vec::from(a)
}

/// Builds the definition of a class: its parent, name, version, attributes
/// and statically declared properties.
///
/// The engine callbacks of the definition (initialize, finalize, property
/// access, calls, conversions) are never set by the builder and stay empty.
pub struct JsClassDefinitionBuilder<'ctx> {
    _phantom: PhantomData<&'ctx ()>,
    parent_class: usize,
    class_name: Option<String>,
    version: i32,
    attributes: u32,
    static_functions: Option<ReusableJsStaticFunction>,
    static_values: Option<Vec<ReusableJsStaticValue>>,
}

/// The parts of a class definition that a builder or a finished definition
/// holds, static properties aside.
pub struct ClassDefinitionFields {
    pub parent_class: usize,
    pub class_name: Option<Seq<char>>,
    pub version: i32,
    pub attributes: u32,
}

/// The view of an optional owned name.
pub open spec fn optional_name_view(n: Option<String>) -> Option<Seq<char>> {
    match n {
        Some(s) => Some(s@),
        None => None,
    }
}

impl<'ctx> JsClassDefinitionBuilder<'ctx> {
    #[verifier::type_invariant]
    closed spec fn inv(self) -> bool {
        self.class_name matches Some(n) ==> is_c_name(n@)
    }

    /// The definition's fields.
    pub closed spec fn spec_fields(&self) -> ClassDefinitionFields {
        ClassDefinitionFields {
            parent_class: self.parent_class,
            class_name: optional_name_view(self.class_name),
            version: self.version,
            attributes: self.attributes,
        }
    }

    /// The static function property.
    pub closed spec fn spec_static_functions(&self) -> Option<ReusableJsStaticFunction> {
        self.static_functions
    }

    /// The static value properties of the class.
    pub closed spec fn spec_static_values(&self) -> Option<Seq<ReusableJsStaticValue>> {
        match self.static_values {
            Some(v) => Some(v@),
            None => None,
        }
    }

    /// Starts a definition of this version with no parent, name, attributes
    /// or static properties.
    pub fn new(version: i32) -> (r: Self)
        ensures
            r.spec_fields() == (ClassDefinitionFields {
                parent_class: 0,
                class_name: None,
                version,
                attributes: 0,
            }),
            r.spec_static_functions() is None,
            r.spec_static_values() is None,
    {
        JsClassDefinitionBuilder {
            _phantom: PhantomData,
            parent_class: 0,
            class_name: None,
            version,
            attributes: 0,
            static_functions: None,
            static_values: None,
        }
    }

    /// Sets the parent class.
    pub fn with_parent_class(self, parent_class: &'ctx JsClass) -> (r: Self)
        ensures
            r.spec_fields() == (ClassDefinitionFields { parent_class: parent_class@, ..self.spec_fields() }),
            r.spec_static_functions() == self.spec_static_functions(),
            r.spec_static_values() == self.spec_static_values(),
    {
        proof {
            use_type_invariant(&self);
        }
        JsClassDefinitionBuilder { parent_class: parent_class.as_ptr(), ..self }
    }

    /// Sets the class name.
    ///
    /// The name must not hold a zero character.
    pub fn with_class_name(self, class_name: &str) -> (r: Self)
        requires
            is_c_name(class_name@),
        ensures
            r.spec_fields() == (ClassDefinitionFields { class_name: Some(class_name@), ..self.spec_fields() }),
            r.spec_static_functions() == self.spec_static_functions(),
            r.spec_static_values() == self.spec_static_values(),
    {
        proof {
            use_type_invariant(&self);
        }
        JsClassDefinitionBuilder { class_name: Some(class_name.to_owned()), ..self }
    }

    /// Sets the class attributes.
    pub fn with_attributes(self, attributes: JsClassAttributes) -> (r: Self)
        ensures
            r.spec_fields() == (ClassDefinitionFields { attributes: attributes@, ..self.spec_fields() }),
            r.spec_static_functions() == self.spec_static_functions(),
            r.spec_static_values() == self.spec_static_values(),
    {
        proof {
            use_type_invariant(&self);
        }
        JsClassDefinitionBuilder { attributes: attributes.bits(), ..self }
    }

    /// Sets the static value properties of the class, in this order; they
    /// replace any given before.
    pub fn with_static_values<const N: usize>(self, static_values: [ReusableJsStaticValue; N]) -> (r: Self)
        ensures
            r.spec_fields() == self.spec_fields(),
            r.spec_static_functions() == self.spec_static_functions(),
            r.spec_static_values() == Some(static_values@),
    {
        proof {
            use_type_invariant(&self);
        }
        let values = vec_from_array(static_values);
        JsClassDefinitionBuilder { static_values: Some(values), ..self }
    }

    /// Sets the static function property.
    pub fn with_static_functions(self, static_functions: ReusableJsStaticFunction) -> (r: Self)
        ensures
            r.spec_fields() == self.spec_fields(),
            r.spec_static_functions() == Some(static_functions),
            r.spec_static_values() == self.spec_static_values(),
    {
        proof {
            use_type_invariant(&self);
        }
        JsClassDefinitionBuilder { static_functions: Some(static_functions), ..self }
    }

    /// The finished definition.
    pub fn build(self) -> (r: ReusableJsClassDefinition)
        ensures
            r.spec_fields() == self.spec_fields(),
            r.spec_static_functions() == self.spec_static_functions(),
            r.spec_static_values() == self.spec_static_values(),
    {
        proof {
            use_type_invariant(&self);
        }
        ReusableJsClassDefinition {
            parent_class: self.parent_class,
            class_name: self.class_name,
            version: self.version,
            attributes: self.attributes,
            static_functions: self.static_functions,
            static_values: self.static_values,
        }
    }
}

/// A finished class definition, ready to create classes from.
pub struct ReusableJsClassDefinition {
    parent_class: usize,
    class_name: Option<String>,
    version: i32,
    attributes: u32,
    static_functions: Option<ReusableJsStaticFunction>,
    static_values: Option<Vec<ReusableJsStaticValue>>,
}

impl ReusableJsClassDefinition {
    #[verifier::type_invariant]
    closed spec fn inv(self) -> bool {
        self.class_name matches Some(n) ==> is_c_name(n@)
    }

    /// The definition's fields.
    pub closed spec fn spec_fields(&self) -> ClassDefinitionFields {
        ClassDefinitionFields {
            parent_class: self.parent_class,
            class_name: optional_name_view(self.class_name),
            version: self.version,
            attributes: self.attributes,
        }
    }

    /// The static function property.
    pub closed spec fn spec_static_functions(&self) -> Option<ReusableJsStaticFunction> {
        self.static_functions
    }

    /// The static value properties of the class.
    pub closed spec fn spec_static_values(&self) -> Option<Seq<ReusableJsStaticValue>> {
        match self.static_values {
            Some(v) => Some(v@),
            None => None,
        }
    }

    /// The parent class reference, `0` for none.
    pub fn parent_class(&self) -> (r: usize)
        ensures
            r == self.spec_fields().parent_class,
    {
        self.parent_class
    }

    /// The class name; it holds no zero character.
    pub fn class_name(&self) -> (r: Option<&str>)
        ensures
            r matches Some(n) ==> is_c_name(n@),
            (match r {
                Some(n) => Some(n@),
                None => None,
            }) == self.spec_fields().class_name,
    {
        proof {
            use_type_invariant(self);
        }
        match &self.class_name {
            Some(n) => Some(n.as_str()),
            None => None,
        }
    }

    /// The version of the definition structure.
    pub fn version(&self) -> (r: i32)
        ensures
            r == self.spec_fields().version,
    {
        self.version
    }

    /// The class attributes' bits.
    pub fn attributes(&self) -> (r: u32)
        ensures
            r == self.spec_fields().attributes,
    {
        self.attributes
    }

    /// The static value properties of the class, in order.
    pub fn static_values(&self) -> (r: Option<&[ReusableJsStaticValue]>)
        ensures
            (match r {
                Some(v) => Some(v@),
                None => None,
            }) == self.spec_static_values(),
    {
        match &self.static_values {
            Some(v) => Some(v.as_slice()),
            None => None,
        }
    }

    /// The static function property.
    pub fn static_functions(&self) -> (r: Option<&ReusableJsStaticFunction>)
        ensures
            (match r {
                Some(f) => Some(*f),
                None => None,
            }) == self.spec_static_functions(),
    {
        match &self.static_functions {
            Some(f) => Some(f),
            None => None,
        }
    }
}


/// What an engine callback that answers with a value hands back: the value's
/// reference and no exception on success; on failure the null reference and
/// the exception to write into the engine's exception slot.
pub fn value_callback_outcome<'ctx>(res: Result<JsValue<'ctx>, JsValue<'ctx>>) -> (r: (usize, Option<usize>))
    ensures
        res matches Ok(v) ==> r == (v@, None::<usize>),
        res matches Err(e) ==> r == (0usize, Some(e@)),
{
    match res {
        Ok(v) => (v.rf(), None),
        Err(e) => (0, Some(e.rf())),
    }
}

/// What an engine callback that answers with a boolean hands back: the boolean
/// and no exception on success; on failure `false` and the exception to write
/// into the engine's exception slot.
pub fn bool_callback_outcome<'ctx>(res: Result<bool, JsValue<'ctx>>) -> (r: (bool, Option<usize>))
    ensures
        res matches Ok(b) ==> r == (b, None::<usize>),
        res matches Err(e) ==> r == (false, Some(e@)),
{
    match res {
        Ok(b) => (b, None),
        Err(e) => (false, Some(e.rf())),
    }
}
} // verus!
