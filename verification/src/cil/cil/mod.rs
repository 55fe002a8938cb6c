//! The instruction set: opcodes, operands, exception handlers and method bodies.
pub mod enums;
pub mod exception;
pub mod function;
pub mod instruction;
pub mod opcode;
