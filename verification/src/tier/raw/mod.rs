//! Encoders that take registers and immediates already resolved to numbers
//! and return the bytes of one instruction.

pub mod amd64;
pub mod layout;
pub mod rv32;
pub mod rv32_effect;
pub mod rv32_fields;
pub mod x86;
