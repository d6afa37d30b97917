use vstd::prelude::*;

verus! {

/// The type of a JavaScript value, as the engine reports it.
#[derive(Debug, Clone, Copy, PartialEq, Eq, Structural)]
pub enum JsType {
    Undefined,
    Null,
    Boolean,
    Number,
    String,
    Object,
    Symbol,
    BigInt,
}

/// The engine's numeric code for each type (the order of the `JSType` enumeration).
pub open spec fn js_type_code(t: JsType) -> nat {
    match t {
        JsType::Undefined => 0,
        JsType::Null => 1,
        JsType::Boolean => 2,
        JsType::Number => 3,
        JsType::String => 4,
        JsType::Object => 5,
        JsType::Symbol => 6,
        JsType::BigInt => 7,
    }
}

/// Number of type codes the engine defines.
pub const JS_TYPE_CODE_COUNT: u32 = 8;

impl JsType {
    /// Maps an engine type code to its [`JsType`].
    ///
    /// The engine only reports codes below eight; other codes are not values
    /// of the enumeration.
    pub fn from_ffi(typ: u32) -> (r: JsType)
        requires
            typ < JS_TYPE_CODE_COUNT,
        ensures
            js_type_code(r) == typ,
    {
        match typ {
            0 => JsType::Undefined,
            1 => JsType::Null,
            2 => JsType::Boolean,
            3 => JsType::Number,
            4 => JsType::String,
            5 => JsType::Object,
            6 => JsType::Symbol,
            _ => JsType::BigInt,
        }
    }
}

/// Distinct types have distinct engine codes, so a code names exactly one type.
pub proof fn law_js_type_code_injective(a: JsType, b: JsType)
    ensures
        js_type_code(a) == js_type_code(b) <==> a == b,
{
}

} // verus!
