//! The items a user of the bindings needs, under one path.

pub use crate::attributes::{JsClassAttributes, JsPropertyAttributes};
pub use crate::class::{
    JsClass, JsClassDefinitionBuilder, JsStaticFunctionBuilder, JsStaticValueBuilder,
    ReusableJsClassDefinition, ReusableJsStaticFunction, ReusableJsStaticValue,
};
pub use crate::context::JsContext;
pub use crate::interfaces::error::Error;
pub use crate::interfaces::symbol::Symbol;
pub use crate::js_type::JsType;
pub use crate::object::JsObject;
pub use crate::script::{Script, ScriptBuilder, ScriptParts};
pub use crate::string::{JsChars, JsString};
pub use crate::value::JsValue;
