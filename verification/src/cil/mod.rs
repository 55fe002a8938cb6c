//! Method bodies: the instruction set and the runtime values it names.
pub mod cil;
pub mod clr;
