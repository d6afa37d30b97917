//! Value model of the JavaScriptCore bindings: handles, type codes, attribute
//! flags, class and script descriptions, string encodings, and the decisions
//! that turn the engine's raw answers into Rust results.

pub mod attributes;
pub mod js_type;
pub mod context;
pub mod object;
pub mod value;
pub mod string;
pub mod script;
pub mod class;
pub mod interfaces;
pub mod prelude;
