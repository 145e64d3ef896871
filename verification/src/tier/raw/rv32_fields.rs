use vstd::prelude::*;
use crate::tier::raw::rv32::{b_word, i_word, j_word, lui_word, r_word, s_word, u_word};

verus! {

/// The opcode of a word: its bits 6 to 0.
pub open spec fn opcode_of(word: u32) -> u32 {
    word & 0x7F
}

/// The destination register of a word: its bits 11 to 7.
pub open spec fn rd_of(word: u32) -> u32 {
    (word >> 7) & 0x1F
}

/// The `funct3` constant of a word: its bits 14 to 12.
pub open spec fn funct3_of(word: u32) -> u32 {
    (word >> 12) & 0x7
}

/// The first source register of a word: its bits 19 to 15.
pub open spec fn rs1_of(word: u32) -> u32 {
    (word >> 15) & 0x1F
}

/// The second source register of a word: its bits 24 to 20.
pub open spec fn rs2_of(word: u32) -> u32 {
    (word >> 20) & 0x1F
}

/// The `funct7` constant of a word: its bits 31 to 25.
pub open spec fn funct7_of(word: u32) -> u32 {
    word >> 25
}

/// The immediate of a register-immediate word: its bits 31 to 20.
pub open spec fn i_immediate_of(word: u32) -> u32 {
    word >> 20
}

/// The immediate of a store, put together from its two places.
pub open spec fn s_immediate_of(word: u32) -> u32 {
    ((word >> 25) << 5) | ((word >> 7) & 0x1F)
}

/// The immediate of a branch, put together from its four places.
pub open spec fn b_immediate_of(word: u32) -> u32 {
    ((word >> 31) << 12) | (((word >> 7) & 0x1) << 11) | (((word >> 25) & 0x3F) << 5) | (((word
        >> 8) & 0xF) << 1)
}

/// The immediate of an upper-immediate word: its bits 31 to 12, where they
/// stand.
pub open spec fn u_immediate_of(word: u32) -> u32 {
    word & 0xFFFFF000
}

/// The immediate of a jump, put together from its four places.
pub open spec fn j_immediate_of(word: u32) -> u32 {
    ((word >> 31) << 20) | (((word >> 12) & 0xFF) << 12) | (((word >> 20) & 0x1) << 11) | (((word
        >> 21) & 0x3FF) << 1)
}

/// Every field of a register-register word can be read back: the three
/// constants and the three registers, as they were given.
pub proof fn lemma_r_word_fields(funct7: u32, funct3: u32, opcode: u32, rd: u8, rs1: u8, rs2: u8)
    by (bit_vector)
    requires
        funct7 < 128,
        funct3 < 8,
        opcode < 128,
        rd < 32,
        rs1 < 32,
        rs2 < 32,
    ensures
        opcode_of(r_word(funct7, funct3, opcode, rd, rs1, rs2)) == opcode,
        rd_of(r_word(funct7, funct3, opcode, rd, rs1, rs2)) == rd,
        funct3_of(r_word(funct7, funct3, opcode, rd, rs1, rs2)) == funct3,
        rs1_of(r_word(funct7, funct3, opcode, rd, rs1, rs2)) == rs1,
        rs2_of(r_word(funct7, funct3, opcode, rd, rs1, rs2)) == rs2,
        funct7_of(r_word(funct7, funct3, opcode, rd, rs1, rs2)) == funct7,
{
}

/// Every field of a register-immediate word can be read back: the
/// constants, the registers and an immediate of twelve bits, as they were
/// given.
pub proof fn lemma_i_word_fields(funct3: u32, opcode: u32, rd: u8, rs1: u8, imm: u16)
    by (bit_vector)
    requires
        funct3 < 8,
        opcode < 128,
        rd < 32,
        rs1 < 32,
        imm < 0x1000,
    ensures
        opcode_of(i_word(funct3, opcode, rd, rs1, imm)) == opcode,
        rd_of(i_word(funct3, opcode, rd, rs1, imm)) == rd,
        funct3_of(i_word(funct3, opcode, rd, rs1, imm)) == funct3,
        rs1_of(i_word(funct3, opcode, rd, rs1, imm)) == rs1,
        i_immediate_of(i_word(funct3, opcode, rd, rs1, imm)) == imm,
{
}

/// Every field of a store can be read back: the constants, the registers
/// and an immediate of twelve bits, as they were given.
pub proof fn lemma_s_word_fields(funct3: u32, opcode: u32, rs1: u8, rs2: u8, imm: u16)
    by (bit_vector)
    requires
        funct3 < 8,
        opcode < 128,
        rs1 < 32,
        rs2 < 32,
        imm < 0x1000,
    ensures
        opcode_of(s_word(funct3, opcode, rs1, rs2, imm)) == opcode,
        funct3_of(s_word(funct3, opcode, rs1, rs2, imm)) == funct3,
        rs1_of(s_word(funct3, opcode, rs1, rs2, imm)) == rs1,
        rs2_of(s_word(funct3, opcode, rs1, rs2, imm)) == rs2,
        s_immediate_of(s_word(funct3, opcode, rs1, rs2, imm)) == imm,
{
}

/// Every field of a branch can be read back: the constants, the registers
/// and an even distance of thirteen bits, as they were given.
pub proof fn lemma_b_word_fields(funct3: u32, opcode: u32, rs1: u8, rs2: u8, imm: u16)
    by (bit_vector)
    requires
        funct3 < 8,
        opcode < 128,
        rs1 < 32,
        rs2 < 32,
        imm < 0x2000,
        imm & 1 == 0,
    ensures
        opcode_of(b_word(funct3, opcode, rs1, rs2, imm)) == opcode,
        funct3_of(b_word(funct3, opcode, rs1, rs2, imm)) == funct3,
        rs1_of(b_word(funct3, opcode, rs1, rs2, imm)) == rs1,
        rs2_of(b_word(funct3, opcode, rs1, rs2, imm)) == rs2,
        b_immediate_of(b_word(funct3, opcode, rs1, rs2, imm)) == imm,
{
}

/// Every field of an upper-immediate word can be read back: the opcode,
/// the register and an immediate whose low twelve bits are clear, as they
/// were given.
pub proof fn lemma_u_word_fields(opcode: u32, rd: u8, imm: u32)
    by (bit_vector)
    requires
        opcode < 128,
        rd < 32,
        imm & 0xFFF == 0,
    ensures
        opcode_of(u_word(opcode, rd, imm)) == opcode,
        rd_of(u_word(opcode, rd, imm)) == rd,
        u_immediate_of(u_word(opcode, rd, imm)) == imm,
{
}

/// Every field of a `lui` word can be read back: the opcode, the register
/// as it was given, and an immediate of twenty bits from bits 31 to 12.
pub proof fn lemma_lui_word_fields(rd: u8, imm: u32)
    by (bit_vector)
    requires
        rd < 32,
        imm < 0x10_0000,
    ensures
        opcode_of(lui_word(rd, imm)) == 0b0110111,
        rd_of(lui_word(rd, imm)) == rd,
        u_immediate_of(lui_word(rd, imm)) >> 12 == imm,
{
}

/// Every field of a jump can be read back: the opcode, the register and an
/// even distance of twenty-one bits, as they were given.
pub proof fn lemma_j_word_fields(opcode: u32, rd: u8, imm: u32)
    by (bit_vector)
    requires
        opcode < 128,
        rd < 32,
        imm < 0x20_0000,
        imm & 1 == 0,
    ensures
        opcode_of(j_word(opcode, rd, imm)) == opcode,
        rd_of(j_word(opcode, rd, imm)) == rd,
        j_immediate_of(j_word(opcode, rd, imm)) == imm,
{
}

} // verus!
