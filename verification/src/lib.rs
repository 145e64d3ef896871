//! Machine-code encoders for x86, amd64 and 32-bit RISC-V, the catalog that
//! describes the x86-family encoders as source text, and an executable
//! memory region to run assembled bytes from.

pub mod catalog;
pub mod mmap;
pub mod tier;
