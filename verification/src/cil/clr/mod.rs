//! What operands refer to: metadata tokens, arguments and local variables.
pub mod argument;
pub mod local;
pub mod token;
