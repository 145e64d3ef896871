use vstd::prelude::*;
use crate::catalog::amd64::{
    add_r16_i16_row, add_r16_r16_row, add_r64_i32_row, add_r64_r64_row, callnai_r64_row,
    cmp_r64_i32_row, cmp_r64_r64_row, div_r64_row, mov_r64_i64_row, mov_r64_r64_row, mul_r64_row,
    neg_r64_row, not_r64_row, or_r64_i32_row, or_r64_r64_row, pop_r16_row, pop_r64_row,
    push_i16_row, push_r64_row, sub_r16_i16_row, sub_r16_r16_row, sub_r64_i32_row,
    sub_r64_r64_row, syscall_row, xor_r64_i32_row, xor_r64_r64_row,
};
use crate::tier::raw::layout::{
    bytes_u16, bytes_u32, bytes_u64, encoding, mod_rm, MODRM_DIRECT, number_u16, number_u32,
    number_u64,
};
pub use crate::tier::raw::x86::{
    add_r32_i32, add_r32_r32, callnai_r16, callnai_r32, callnrd_i16, callnrd_i32, cmp_r16_i16,
    cmp_r16_r16, cmp_r32_i32, cmp_r32_r32, cmp_r8_i8, div_r16, div_r32, div_r8, int1, int3,
    int_i8, leave, mov_r16_i16, mov_r16_r16, mov_r32_i32, mov_r32_r32, mov_r8_i8, mov_r8_r8,
    mul_r16, mul_r32, mul_r8, neg_r16, neg_r32, nop, not_r16, not_r32, not_r8, push_i32, push_i8,
    push_r16, ret, sub_r32_i32, sub_r32_r32, xor_r16_r16, xor_r32_i32, xor_r32_r32, xor_r8_r8,
};

verus! {

/// The REX prefix with no bit set.
pub const REX: u8 = 0b0100_0000;

/// The REX prefix with the W bit set: the operation is on 64 bits.
pub const REX_W: u8 = REX + 0b1000;

/// The operand-size prefix: a 32-bit operation is on 16 bits instead.
pub const COMPAT_16: u8 = 0x66;

/// Add: `dst` and `src` are 16-bit registers.
pub fn add_r16_r16(dst: u8, src: u8) -> (out: [u8; 3])
    ensures
        out@ == encoding(add_r16_r16_row(), dst, src, 0),
{
    [COMPAT_16, 0x03, mod_rm(MODRM_DIRECT, dst, src)]
}

/// Add: `dst` and `src` are 64-bit registers.
pub fn add_r64_r64(dst: u8, src: u8) -> (out: [u8; 3])
    ensures
        out@ == encoding(add_r64_r64_row(), dst, src, 0),
{
    [REX_W, 0x03, mod_rm(MODRM_DIRECT, dst, src)]
}

/// Add: `dst` is a 16-bit register, `src` a 16-bit immediate.
pub fn add_r16_i16(dst: u8, src: u16) -> (out: [u8; 5])
    ensures
        out@ == encoding(add_r16_i16_row(), dst, 0, number_u16(src)),
{
    let b = bytes_u16(src);
    [COMPAT_16, 0x81, mod_rm(MODRM_DIRECT, 0, dst), b[0], b[1]]
}

/// Add: `dst` is a 64-bit register, `src` a 32-bit immediate.
pub fn add_r64_i32(dst: u8, src: u32) -> (out: [u8; 7])
    ensures
        out@ == encoding(add_r64_i32_row(), dst, 0, number_u32(src)),
{
    let b = bytes_u32(src);
    [REX_W, 0x81, mod_rm(MODRM_DIRECT, 0, dst), b[0], b[1], b[2], b[3]]
}

/// Subtract: `dst` and `src` are 16-bit registers.
pub fn sub_r16_r16(dst: u8, src: u8) -> (out: [u8; 3])
    ensures
        out@ == encoding(sub_r16_r16_row(), dst, src, 0),
{
    [COMPAT_16, 0x2B, mod_rm(MODRM_DIRECT, dst, src)]
}

/// Subtract: `dst` and `src` are 64-bit registers.
pub fn sub_r64_r64(dst: u8, src: u8) -> (out: [u8; 3])
    ensures
        out@ == encoding(sub_r64_r64_row(), dst, src, 0),
{
    [REX_W, 0x2B, mod_rm(MODRM_DIRECT, dst, src)]
}

/// Subtract: `dst` is a 16-bit register, `src` a 16-bit immediate.
pub fn sub_r16_i16(dst: u8, src: u16) -> (out: [u8; 5])
    ensures
        out@ == encoding(sub_r16_i16_row(), dst, 0, number_u16(src)),
{
    let b = bytes_u16(src);
    [COMPAT_16, 0x81, mod_rm(MODRM_DIRECT, 5, dst), b[0], b[1]]
}

/// Subtract: `dst` is a 64-bit register, `src` a 32-bit immediate.
pub fn sub_r64_i32(dst: u8, src: u32) -> (out: [u8; 7])
    ensures
        out@ == encoding(sub_r64_i32_row(), dst, 0, number_u32(src)),
{
    let b = bytes_u32(src);
    [REX_W, 0x81, mod_rm(MODRM_DIRECT, 5, dst), b[0], b[1], b[2], b[3]]
}

/// Unsigned multiply of the accumulator: `dst` is a 64-bit register.
pub fn mul_r64(dst: u8) -> (out: [u8; 3])
    ensures
        out@ == encoding(mul_r64_row(), dst, 0, 0),
{
    [REX_W, 0xF7, mod_rm(MODRM_DIRECT, 4, dst)]
}

/// Unsigned divide of the accumulator: `dst` is a 64-bit register.
pub fn div_r64(dst: u8) -> (out: [u8; 3])
    ensures
        out@ == encoding(div_r64_row(), dst, 0, 0),
{
    [REX_W, 0xF7, mod_rm(MODRM_DIRECT, 6, dst)]
}

/// Move: `dst` and `src` are 64-bit registers.
pub fn mov_r64_r64(dst: u8, src: u8) -> (out: [u8; 3])
    ensures
        out@ == encoding(mov_r64_r64_row(), dst, src, 0),
{
    [REX_W, 0x8B, mod_rm(MODRM_DIRECT, dst, src)]
}

/// Move: `dst` is a 64-bit register, one of the first eight, `src` a
/// 64-bit immediate.
pub fn mov_r64_i64(dst: u8, src: u64) -> (out: [u8; 10])
    requires
        dst <= 7,
    ensures
        out@ == encoding(mov_r64_i64_row(), dst, 0, number_u64(src)),
{
    let b = bytes_u64(src);
    [REX_W, 0xB8 + dst, b[0], b[1], b[2], b[3], b[4], b[5], b[6], b[7]]
}

/// Push: `src` is a 16-bit immediate.
pub fn push_i16(src: u16) -> (out: [u8; 4])
    ensures
        out@ == encoding(push_i16_row(), 0, 0, number_u16(src)),
{
    let b = bytes_u16(src);
    [COMPAT_16, 0x68, b[0], b[1]]
}

/// Pop: `dst` is a 16-bit register, one of the first eight.
pub fn pop_r16(dst: u8) -> (out: [u8; 2])
    requires
        dst <= 7,
    ensures
        out@ == encoding(pop_r16_row(), dst, 0, 0),
{
    [COMPAT_16, 0x58 + dst]
}

/// Inclusive or: `dst` and `src` are 64-bit registers.
pub fn or_r64_r64(dst: u8, src: u8) -> (out: [u8; 3])
    ensures
        out@ == encoding(or_r64_r64_row(), dst, src, 0),
{
    [REX_W, 0x0B, mod_rm(MODRM_DIRECT, dst, src)]
}

/// Inclusive or: `dst` is a 64-bit register, `src` a 32-bit immediate.
pub fn or_r64_i32(dst: u8, src: u32) -> (out: [u8; 7])
    ensures
        out@ == encoding(or_r64_i32_row(), dst, 0, number_u32(src)),
{
    let b = bytes_u32(src);
    [REX_W, 0x81, mod_rm(MODRM_DIRECT, 1, dst), b[0], b[1], b[2], b[3]]
}

/// Exclusive or: `dst` and `src` are 64-bit registers.
pub fn xor_r64_r64(dst: u8, src: u8) -> (out: [u8; 3])
    ensures
        out@ == encoding(xor_r64_r64_row(), dst, src, 0),
{
    [REX_W, 0x33, mod_rm(MODRM_DIRECT, dst, src)]
}

/// Exclusive or: `dst` is a 64-bit register, `src` a 32-bit immediate.
pub fn xor_r64_i32(dst: u8, src: u32) -> (out: [u8; 7])
    ensures
        out@ == encoding(xor_r64_i32_row(), dst, 0, number_u32(src)),
{
    let b = bytes_u32(src);
    [REX_W, 0x81, mod_rm(MODRM_DIRECT, 6, dst), b[0], b[1], b[2], b[3]]
}

/// Complements: `dst` is a 64-bit register.
pub fn not_r64(dst: u8) -> (out: [u8; 3])
    ensures
        out@ == encoding(not_r64_row(), dst, 0, 0),
{
    [REX_W, 0xF7, mod_rm(MODRM_DIRECT, 2, dst)]
}

/// Negates: `dst` is a 64-bit register.
pub fn neg_r64(dst: u8) -> (out: [u8; 3])
    ensures
        out@ == encoding(neg_r64_row(), dst, 0, 0),
{
    [REX_W, 0xF7, mod_rm(MODRM_DIRECT, 3, dst)]
}

/// Compare: `dst` and `src` are 64-bit registers.
pub fn cmp_r64_r64(dst: u8, src: u8) -> (out: [u8; 3])
    ensures
        out@ == encoding(cmp_r64_r64_row(), dst, src, 0),
{
    [REX_W, 0x3B, mod_rm(MODRM_DIRECT, dst, src)]
}

/// Compare: `dst` is a 64-bit register, `src` a 32-bit immediate.
pub fn cmp_r64_i32(dst: u8, src: u32) -> (out: [u8; 7])
    ensures
        out@ == encoding(cmp_r64_i32_row(), dst, 0, number_u32(src)),
{
    let b = bytes_u32(src);
    [REX_W, 0x81, mod_rm(MODRM_DIRECT, 7, dst), b[0], b[1], b[2], b[3]]
}

/// Near call, absolute indirect: `dst` is a 64-bit register.
pub fn callnai_r64(dst: u8) -> (out: [u8; 3])
    ensures
        out@ == encoding(callnai_r64_row(), dst, 0, 0),
{
    [REX_W, 0xFF, mod_rm(MODRM_DIRECT, 2, dst)]
}

/// Push: `dst` is a 64-bit register, one of the first eight.
pub fn push_r64(dst: u8) -> (out: [u8; 1])
    requires
        dst <= 7,
    ensures
        out@ == encoding(push_r64_row(), dst, 0, 0),
{
    [0x50 + dst]
}

/// Pop: `dst` is a 64-bit register, one of the first eight.
pub fn pop_r64(dst: u8) -> (out: [u8; 1])
    requires
        dst <= 7,
    ensures
        out@ == encoding(pop_r64_row(), dst, 0, 0),
{
    [0x58 + dst]
}

/// Fast system call.
pub fn syscall() -> (out: [u8; 2])
    ensures
        out@ == encoding(syscall_row(), 0, 0, 0),
{
    [0x0F, 0x05]
}

} // verus!
