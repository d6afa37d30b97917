pub mod error;
pub mod symbol;
