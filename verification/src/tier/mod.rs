//! Encoders grouped by instruction set.

pub mod raw;
