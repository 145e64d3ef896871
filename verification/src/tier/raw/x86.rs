use vstd::prelude::*;
use crate::catalog::x86::{
    add_r16_i16_row, add_r16_r16_row, add_r32_i32_row, add_r32_r32_row, callnai_r16_row,
    callnai_r32_row, callnrd_i16_row, callnrd_i32_row, cmp_r16_i16_row, cmp_r16_r16_row,
    cmp_r32_i32_row, cmp_r32_r32_row, cmp_r8_i8_row, div_r16_row, div_r32_row, div_r8_row,
    int1_row, int3_row, int_i8_row, into_row, leave_row, mov_r16_i16_row, mov_r16_r16_row,
    mov_r32_i32_row, mov_r32_r32_row, mov_r8_i8_row, mov_r8_r8_row, mul_r16_row, mul_r32_row,
    mul_r8_row, neg_r16_row, neg_r32_row, nop_row, not_r16_row, not_r32_row, not_r8_row,
    pop_r16_row, pop_r32_row, push_i16_row, push_i32_row, push_i8_row, push_r16_row,
    push_r32_row, ret_row, sub_r16_i16_row, sub_r16_r16_row, sub_r32_i32_row, sub_r32_r32_row,
    xor_r16_r16_row, xor_r32_i32_row, xor_r32_r32_row, xor_r8_r8_row,
};
use crate::tier::raw::layout::{
    bytes_u16, bytes_u32, bytes_u8, encoding, number_u16, number_u32, number_u8,
};
pub use crate::tier::raw::layout::{mod_rm, MODRM_DIRECT, MODRM_INDIRECT};

verus! {

/// Complements: `dst` is a 8-bit register.
pub fn not_r8(dst: u8) -> (out: [u8; 2])
    ensures
        out@ == encoding(not_r8_row(), dst, 0, 0),
{
    [0xF6, mod_rm(MODRM_DIRECT, 2, dst)]
}

/// Complements: `dst` is a 16-bit register.
pub fn not_r16(dst: u8) -> (out: [u8; 2])
    ensures
        out@ == encoding(not_r16_row(), dst, 0, 0),
{
    [0xF7, mod_rm(MODRM_DIRECT, 2, dst)]
}

/// Complements: `dst` is a 32-bit register.
pub fn not_r32(dst: u8) -> (out: [u8; 2])
    ensures
        out@ == encoding(not_r32_row(), dst, 0, 0),
{
    [0xF7, mod_rm(MODRM_DIRECT, 2, dst)]
}

/// Exclusive or: `dst` and `src` are 8-bit registers.
pub fn xor_r8_r8(dst: u8, src: u8) -> (out: [u8; 2])
    ensures
        out@ == encoding(xor_r8_r8_row(), dst, src, 0),
{
    [0x32, mod_rm(MODRM_DIRECT, dst, src)]
}

/// Exclusive or: `dst` and `src` are 16-bit registers.
pub fn xor_r16_r16(dst: u8, src: u8) -> (out: [u8; 2])
    ensures
        out@ == encoding(xor_r16_r16_row(), dst, src, 0),
{
    [0x33, mod_rm(MODRM_DIRECT, dst, src)]
}

/// Exclusive or: `dst` and `src` are 32-bit registers.
pub fn xor_r32_r32(dst: u8, src: u8) -> (out: [u8; 2])
    ensures
        out@ == encoding(xor_r32_r32_row(), dst, src, 0),
{
    [0x33, mod_rm(MODRM_DIRECT, dst, src)]
}

/// Exclusive or: `dst` is a 32-bit register, `src` a 32-bit immediate.
pub fn xor_r32_i32(dst: u8, src: u32) -> (out: [u8; 6])
    ensures
        out@ == encoding(xor_r32_i32_row(), dst, 0, number_u32(src)),
{
    let b = bytes_u32(src);
    [0x81, mod_rm(MODRM_DIRECT, 6, dst), b[0], b[1], b[2], b[3]]
}

/// No operation.
pub fn nop() -> (out: [u8; 1])
    ensures
        out@ == encoding(nop_row(), 0, 0, 0),
{
    [0x90]
}

/// Near return.
pub fn ret() -> (out: [u8; 1])
    ensures
        out@ == encoding(ret_row(), 0, 0, 0),
{
    [0xC3]
}

/// Releases the stack frame.
pub fn leave() -> (out: [u8; 1])
    ensures
        out@ == encoding(leave_row(), 0, 0, 0),
{
    [0xC9]
}

/// Push: `src` is a 8-bit immediate.
pub fn push_i8(src: u8) -> (out: [u8; 2])
    ensures
        out@ == encoding(push_i8_row(), 0, 0, number_u8(src)),
{
    let b = bytes_u8(src);
    [0x6A, b[0]]
}

/// Push: `src` is a 16-bit immediate.
pub fn push_i16(src: u16) -> (out: [u8; 3])
    ensures
        out@ == encoding(push_i16_row(), 0, 0, number_u16(src)),
{
    let b = bytes_u16(src);
    [0x68, b[0], b[1]]
}

/// Push: `src` is a 32-bit immediate.
pub fn push_i32(src: u32) -> (out: [u8; 5])
    ensures
        out@ == encoding(push_i32_row(), 0, 0, number_u32(src)),
{
    let b = bytes_u32(src);
    [0x68, b[0], b[1], b[2], b[3]]
}

/// Push: `dst` is a 16-bit register, one of the first eight.
pub fn push_r16(dst: u8) -> (out: [u8; 1])
    requires
        dst <= 7,
    ensures
        out@ == encoding(push_r16_row(), dst, 0, 0),
{
    [0x50 + dst]
}

/// Pop: `dst` is a 16-bit register, one of the first eight.
pub fn pop_r16(dst: u8) -> (out: [u8; 1])
    requires
        dst <= 7,
    ensures
        out@ == encoding(pop_r16_row(), dst, 0, 0),
{
    [0x58 + dst]
}

/// Software interrupt: `src` is a 8-bit immediate.
pub fn int_i8(src: u8) -> (out: [u8; 2])
    ensures
        out@ == encoding(int_i8_row(), 0, 0, number_u8(src)),
{
    let b = bytes_u8(src);
    [0xCD, b[0]]
}

/// Debug trap.
pub fn int1() -> (out: [u8; 1])
    ensures
        out@ == encoding(int1_row(), 0, 0, 0),
{
    [0xF1]
}

/// Breakpoint.
pub fn int3() -> (out: [u8; 1])
    ensures
        out@ == encoding(int3_row(), 0, 0, 0),
{
    [0xCC]
}

/// Negates: `dst` is a 16-bit register.
pub fn neg_r16(dst: u8) -> (out: [u8; 2])
    ensures
        out@ == encoding(neg_r16_row(), dst, 0, 0),
{
    [0xF7, mod_rm(MODRM_DIRECT, 3, dst)]
}

/// Negates: `dst` is a 32-bit register.
pub fn neg_r32(dst: u8) -> (out: [u8; 2])
    ensures
        out@ == encoding(neg_r32_row(), dst, 0, 0),
{
    [0xF7, mod_rm(MODRM_DIRECT, 3, dst)]
}

/// Add: `dst` and `src` are 16-bit registers.
pub fn add_r16_r16(dst: u8, src: u8) -> (out: [u8; 2])
    ensures
        out@ == encoding(add_r16_r16_row(), dst, src, 0),
{
    [0x03, mod_rm(MODRM_DIRECT, dst, src)]
}

/// Add: `dst` and `src` are 32-bit registers.
pub fn add_r32_r32(dst: u8, src: u8) -> (out: [u8; 2])
    ensures
        out@ == encoding(add_r32_r32_row(), dst, src, 0),
{
    [0x03, mod_rm(MODRM_DIRECT, dst, src)]
}

/// Add: `dst` is a 16-bit register, `src` a 16-bit immediate.
pub fn add_r16_i16(dst: u8, src: u16) -> (out: [u8; 4])
    ensures
        out@ == encoding(add_r16_i16_row(), dst, 0, number_u16(src)),
{
    let b = bytes_u16(src);
    [0x81, mod_rm(MODRM_DIRECT, 0, dst), b[0], b[1]]
}

/// Add: `dst` is a 32-bit register, `src` a 32-bit immediate.
pub fn add_r32_i32(dst: u8, src: u32) -> (out: [u8; 6])
    ensures
        out@ == encoding(add_r32_i32_row(), dst, 0, number_u32(src)),
{
    let b = bytes_u32(src);
    [0x81, mod_rm(MODRM_DIRECT, 0, dst), b[0], b[1], b[2], b[3]]
}

/// Subtract: `dst` and `src` are 16-bit registers.
pub fn sub_r16_r16(dst: u8, src: u8) -> (out: [u8; 2])
    ensures
        out@ == encoding(sub_r16_r16_row(), dst, src, 0),
{
    [0x2B, mod_rm(MODRM_DIRECT, dst, src)]
}

/// Subtract: `dst` and `src` are 32-bit registers.
pub fn sub_r32_r32(dst: u8, src: u8) -> (out: [u8; 2])
    ensures
        out@ == encoding(sub_r32_r32_row(), dst, src, 0),
{
    [0x2B, mod_rm(MODRM_DIRECT, dst, src)]
}

/// Subtract: `dst` is a 16-bit register, `src` a 16-bit immediate.
pub fn sub_r16_i16(dst: u8, src: u16) -> (out: [u8; 4])
    ensures
        out@ == encoding(sub_r16_i16_row(), dst, 0, number_u16(src)),
{
    let b = bytes_u16(src);
    [0x81, mod_rm(MODRM_DIRECT, 5, dst), b[0], b[1]]
}

/// Subtract: `dst` is a 32-bit register, `src` a 32-bit immediate.
pub fn sub_r32_i32(dst: u8, src: u32) -> (out: [u8; 6])
    ensures
        out@ == encoding(sub_r32_i32_row(), dst, 0, number_u32(src)),
{
    let b = bytes_u32(src);
    [0x81, mod_rm(MODRM_DIRECT, 5, dst), b[0], b[1], b[2], b[3]]
}

/// Unsigned multiply of the accumulator: `dst` is a 8-bit register.
pub fn mul_r8(dst: u8) -> (out: [u8; 2])
    ensures
        out@ == encoding(mul_r8_row(), dst, 0, 0),
{
    [0xF6, mod_rm(MODRM_DIRECT, 4, dst)]
}

/// Unsigned multiply of the accumulator: `dst` is a 16-bit register.
pub fn mul_r16(dst: u8) -> (out: [u8; 2])
    ensures
        out@ == encoding(mul_r16_row(), dst, 0, 0),
{
    [0xF7, mod_rm(MODRM_DIRECT, 4, dst)]
}

/// Unsigned multiply of the accumulator: `dst` is a 32-bit register.
pub fn mul_r32(dst: u8) -> (out: [u8; 2])
    ensures
        out@ == encoding(mul_r32_row(), dst, 0, 0),
{
    [0xF7, mod_rm(MODRM_DIRECT, 4, dst)]
}

/// Unsigned divide of the accumulator: `dst` is a 8-bit register.
pub fn div_r8(dst: u8) -> (out: [u8; 2])
    ensures
        out@ == encoding(div_r8_row(), dst, 0, 0),
{
    [0xF6, mod_rm(MODRM_DIRECT, 6, dst)]
}

/// Unsigned divide of the accumulator: `dst` is a 16-bit register.
pub fn div_r16(dst: u8) -> (out: [u8; 2])
    ensures
        out@ == encoding(div_r16_row(), dst, 0, 0),
{
    [0xF7, mod_rm(MODRM_DIRECT, 6, dst)]
}

/// Unsigned divide of the accumulator: `dst` is a 32-bit register.
pub fn div_r32(dst: u8) -> (out: [u8; 2])
    ensures
        out@ == encoding(div_r32_row(), dst, 0, 0),
{
    [0xF7, mod_rm(MODRM_DIRECT, 6, dst)]
}

/// Compare: `dst` and `src` are 16-bit registers.
pub fn cmp_r16_r16(dst: u8, src: u8) -> (out: [u8; 2])
    ensures
        out@ == encoding(cmp_r16_r16_row(), dst, src, 0),
{
    [0x3B, mod_rm(MODRM_DIRECT, dst, src)]
}

/// Compare: `dst` and `src` are 32-bit registers.
pub fn cmp_r32_r32(dst: u8, src: u8) -> (out: [u8; 2])
    ensures
        out@ == encoding(cmp_r32_r32_row(), dst, src, 0),
{
    [0x3B, mod_rm(MODRM_DIRECT, dst, src)]
}

/// Compare: `dst` is a 8-bit register, `src` a 8-bit immediate.
pub fn cmp_r8_i8(dst: u8, src: u8) -> (out: [u8; 3])
    ensures
        out@ == encoding(cmp_r8_i8_row(), dst, 0, number_u8(src)),
{
    let b = bytes_u8(src);
    [0x80, mod_rm(MODRM_DIRECT, 7, dst), b[0]]
}

/// Compare: `dst` is a 16-bit register, `src` a 16-bit immediate.
pub fn cmp_r16_i16(dst: u8, src: u16) -> (out: [u8; 4])
    ensures
        out@ == encoding(cmp_r16_i16_row(), dst, 0, number_u16(src)),
{
    let b = bytes_u16(src);
    [0x81, mod_rm(MODRM_DIRECT, 7, dst), b[0], b[1]]
}

/// Compare: `dst` is a 32-bit register, `src` a 32-bit immediate.
pub fn cmp_r32_i32(dst: u8, src: u32) -> (out: [u8; 6])
    ensures
        out@ == encoding(cmp_r32_i32_row(), dst, 0, number_u32(src)),
{
    let b = bytes_u32(src);
    [0x81, mod_rm(MODRM_DIRECT, 7, dst), b[0], b[1], b[2], b[3]]
}

/// Near call, relative: `src` is a 16-bit displacement.
pub fn callnrd_i16(src: u16) -> (out: [u8; 3])
    ensures
        out@ == encoding(callnrd_i16_row(), 0, 0, number_u16(src)),
{
    let b = bytes_u16(src);
    [0xE8, b[0], b[1]]
}

/// Near call, relative: `src` is a 32-bit displacement.
pub fn callnrd_i32(src: u32) -> (out: [u8; 5])
    ensures
        out@ == encoding(callnrd_i32_row(), 0, 0, number_u32(src)),
{
    let b = bytes_u32(src);
    [0xE8, b[0], b[1], b[2], b[3]]
}

/// Near call, absolute indirect: `dst` is a 16-bit register.
pub fn callnai_r16(dst: u8) -> (out: [u8; 2])
    ensures
        out@ == encoding(callnai_r16_row(), dst, 0, 0),
{
    [0xFF, mod_rm(MODRM_DIRECT, 2, dst)]
}

/// Near call, absolute indirect: `dst` is a 32-bit register.
pub fn callnai_r32(dst: u8) -> (out: [u8; 2])
    ensures
        out@ == encoding(callnai_r32_row(), dst, 0, 0),
{
    [0xFF, mod_rm(MODRM_DIRECT, 2, dst)]
}

/// Move: `dst` and `src` are 8-bit registers.
pub fn mov_r8_r8(dst: u8, src: u8) -> (out: [u8; 2])
    ensures
        out@ == encoding(mov_r8_r8_row(), dst, src, 0),
{
    [0x8A, mod_rm(MODRM_DIRECT, dst, src)]
}

/// Move: `dst` and `src` are 16-bit registers.
pub fn mov_r16_r16(dst: u8, src: u8) -> (out: [u8; 2])
    ensures
        out@ == encoding(mov_r16_r16_row(), dst, src, 0),
{
    [0x8B, mod_rm(MODRM_DIRECT, dst, src)]
}

/// Move: `dst` and `src` are 32-bit registers.
pub fn mov_r32_r32(dst: u8, src: u8) -> (out: [u8; 2])
    ensures
        out@ == encoding(mov_r32_r32_row(), dst, src, 0),
{
    [0x8B, mod_rm(MODRM_DIRECT, dst, src)]
}

/// Move: `dst` is a 8-bit register, one of the first eight, `src` a
/// 8-bit immediate.
pub fn mov_r8_i8(dst: u8, src: u8) -> (out: [u8; 2])
    requires
        dst <= 7,
    ensures
        out@ == encoding(mov_r8_i8_row(), dst, 0, number_u8(src)),
{
    let b = bytes_u8(src);
    [0xB0 + dst, b[0]]
}

/// Move: `dst` is a 16-bit register, one of the first eight, `src` a
/// 16-bit immediate.
pub fn mov_r16_i16(dst: u8, src: u16) -> (out: [u8; 3])
    requires
        dst <= 7,
    ensures
        out@ == encoding(mov_r16_i16_row(), dst, 0, number_u16(src)),
{
    let b = bytes_u16(src);
    [0xB8 + dst, b[0], b[1]]
}

/// Move: `dst` is a 32-bit register, one of the first eight, `src` a
/// 32-bit immediate.
pub fn mov_r32_i32(dst: u8, src: u32) -> (out: [u8; 5])
    requires
        dst <= 7,
    ensures
        out@ == encoding(mov_r32_i32_row(), dst, 0, number_u32(src)),
{
    let b = bytes_u32(src);
    [0xB8 + dst, b[0], b[1], b[2], b[3]]
}

/// Interrupt on overflow.
pub fn into() -> (out: [u8; 1])
    ensures
        out@ == encoding(into_row(), 0, 0, 0),
{
    [0xCE]
}

/// Push: `dst` is a 32-bit register, one of the first eight.
pub fn push_r32(dst: u8) -> (out: [u8; 1])
    requires
        dst <= 7,
    ensures
        out@ == encoding(push_r32_row(), dst, 0, 0),
{
    [0x50 + dst]
}

/// Pop: `dst` is a 32-bit register, one of the first eight.
pub fn pop_r32(dst: u8) -> (out: [u8; 1])
    requires
        dst <= 7,
    ensures
        out@ == encoding(pop_r32_row(), dst, 0, 0),
{
    [0x58 + dst]
}

} // verus!
