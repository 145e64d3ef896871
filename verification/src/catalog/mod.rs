//! The instruction catalog: every x86-family encoder described by its
//! operation, opcode bytes, prefixes and operand sizes, and rendered as the
//! source text of one encoder function.

pub mod text;
pub mod util;
pub mod x86;
pub mod amd64;
