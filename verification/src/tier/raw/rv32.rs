use vstd::prelude::*;

verus! {

/// Word of a register-register instruction: `funct7`, `rs2`, `rs1`,
/// `funct3`, `rd`, `opcode`, from bit 31 down. A register counts by its low
/// five bits.
pub open spec fn r_word(funct7: u32, funct3: u32, opcode: u32, rd: u8, rs1: u8, rs2: u8) -> u32 {
    (funct7 * 0x200_0000 + (rs2 % 32) * 0x10_0000 + (rs1 % 32) * 0x8000 + funct3 * 0x1000 + (rd
        % 32) * 0x80 + opcode) as u32
}

/// Word of a register-immediate instruction: the low twelve bits of the
/// immediate, `rs1`, `funct3`, `rd`, `opcode`, from bit 31 down.
pub open spec fn i_word(funct3: u32, opcode: u32, rd: u8, rs1: u8, imm: u16) -> u32 {
    ((imm % 0x1000) * 0x10_0000 + (rs1 % 32) * 0x8000 + funct3 * 0x1000 + (rd % 32) * 0x80
        + opcode) as u32
}

/// Word of a store: bits 11 to 5 of the immediate, `rs2`, `rs1`, `funct3`,
/// bits 4 to 0 of the immediate, `opcode`, from bit 31 down.
pub open spec fn s_word(funct3: u32, opcode: u32, rs1: u8, rs2: u8, imm: u16) -> u32 {
    ((imm / 0x20 % 0x80) * 0x200_0000 + (rs2 % 32) * 0x10_0000 + (rs1 % 32) * 0x8000 + funct3
        * 0x1000 + (imm % 0x20) * 0x80 + opcode) as u32
}

/// Word of a branch: bit 12 of the immediate, its bits 10 to 5, `rs2`,
/// `rs1`, `funct3`, its bits 4 to 1, its bit 11, `opcode`, from bit 31
/// down. Bit 0 of the immediate has no place.
pub open spec fn b_word(funct3: u32, opcode: u32, rs1: u8, rs2: u8, imm: u16) -> u32 {
    ((imm / 0x1000 % 2) * 0x8000_0000 + (imm / 0x20 % 0x40) * 0x200_0000 + (rs2 % 32) * 0x10_0000
        + (rs1 % 32) * 0x8000 + funct3 * 0x1000 + (imm / 2 % 0x10) * 0x100 + (imm / 0x800 % 2)
        * 0x80 + opcode) as u32
}

/// Word of an upper-immediate instruction: bits 31 to 12 of the immediate
/// where they stand, `rd`, `opcode`.
pub open spec fn u_word(opcode: u32, rd: u8, imm: u32) -> u32 {
    (imm / 0x1000 * 0x1000 + (rd % 32) * 0x80 + opcode) as u32
}

/// Word of a jump: bit 20 of the immediate, its bits 10 to 1, its bit 11,
/// its bits 19 to 12, `rd`, `opcode`, from bit 31 down. Bit 0 of the
/// immediate has no place.
pub open spec fn j_word(opcode: u32, rd: u8, imm: u32) -> u32 {
    ((imm / 0x10_0000 % 2) * 0x8000_0000 + (imm / 2 % 0x400) * 0x20_0000 + (imm / 0x800 % 2)
        * 0x10_0000 + (imm / 0x1000 % 0x100) * 0x1000 + (rd % 32) * 0x80 + opcode) as u32
}

/// Word of `lui`: the low twenty bits of the immediate in bits 31 to 12,
/// `rd`, the opcode.
pub open spec fn lui_word(rd: u8, imm: u32) -> u32 {
    ((imm % 0x10_0000) * 0x1000 + (rd % 32) * 0x80 + 0b0110111) as u32
}

/// A register number in each of the three places a word has for one.
proof fn lemma_register_places(r: u8)
    by (bit_vector)
    ensures
        (((r & 0b11111) as u32) << 20) == (r % 32) * 0x10_0000,
        (((r & 0b11111) as u32) << 15) == (r % 32) * 0x8000,
        (((r & 0b11111) as u32) << 7) == (r % 32) * 0x80,
{
}

/// The constants of an instruction in their places.
proof fn lemma_constant_places(funct7: u32, funct3: u32)
    by (bit_vector)
    requires
        funct7 < 128,
        funct3 < 8,
    ensures
        (funct7 << 25) == funct7 * 0x200_0000,
        (funct3 << 12) == funct3 * 0x1000,
{
}

/// The parts of a 16-bit immediate in the places of the three formats that
/// take one.
proof fn lemma_short_immediate_places(imm: u16)
    by (bit_vector)
    ensures
        (((imm & 0xFFF) as u32) << 20) == (imm % 0x1000) * 0x10_0000,
        ((((imm >> 5) & 0b1111111) as u32) << 25) == (imm / 0x20 % 0x80) * 0x200_0000,
        (((imm & 0b11111) as u32) << 7) == (imm % 0x20) * 0x80,
        ((((imm >> 12) & 0b1) as u32) << 31) == (imm / 0x1000 % 2) * 0x8000_0000,
        ((((imm >> 5) & 0b111111) as u32) << 25) == (imm / 0x20 % 0x40) * 0x200_0000,
        ((((imm >> 1) & 0b1111) as u32) << 8) == (imm / 2 % 0x10) * 0x100,
        ((((imm >> 11) & 0b1) as u32) << 7) == (imm / 0x800 % 2) * 0x80,
{
}

/// The parts of a 32-bit immediate in the places of the formats that take
/// one.
proof fn lemma_long_immediate_places(imm: u32)
    by (bit_vector)
    ensures
        (imm & 0xFFFFF000) == imm / 0x1000 * 0x1000,
        ((imm & 0xFFFFF) << 12) == (imm % 0x10_0000) * 0x1000,
        (((imm >> 20) & 0b1) << 31) == (imm / 0x10_0000 % 2) * 0x8000_0000,
        (((imm >> 1) & 0b1111111111) << 21) == (imm / 2 % 0x400) * 0x20_0000,
        (((imm >> 11) & 0b1) << 20) == (imm / 0x800 % 2) * 0x10_0000,
        (((imm >> 12) & 0b11111111) << 12) == (imm / 0x1000 % 0x100) * 0x1000,
{
}

/// Encodes a register-register instruction. The three constants must fit
/// their fields.
pub fn r_format(funct7: u32, funct3: u32, opcode: u32, rd: u8, rs1: u8, rs2: u8) -> (word: u32)
    requires
        funct7 < 128,
        funct3 < 8,
        opcode < 128,
    ensures
        word == r_word(funct7, funct3, opcode, rd, rs1, rs2),
{
    proof {
        lemma_constant_places(funct7, funct3);
        lemma_register_places(rd);
        lemma_register_places(rs1);
        lemma_register_places(rs2);
    }
    (funct7 << 25) + (((rs2 & 0b11111) as u32) << 20) + (((rs1 & 0b11111) as u32) << 15) + (funct3
        << 12) + (((rd & 0b11111) as u32) << 7) + opcode
}

/// Encodes a register-immediate instruction. The two constants must fit
/// their fields.
pub fn i_format(funct3: u32, opcode: u32, rd: u8, rs1: u8, imm: u16) -> (word: u32)
    requires
        funct3 < 8,
        opcode < 128,
    ensures
        word == i_word(funct3, opcode, rd, rs1, imm),
{
    proof {
        lemma_constant_places(0, funct3);
        lemma_register_places(rd);
        lemma_register_places(rs1);
        lemma_short_immediate_places(imm);
    }
    (((imm & 0xFFF) as u32) << 20) + (((rs1 & 0b11111) as u32) << 15) + (funct3 << 12) + (((rd
        & 0b11111) as u32) << 7) + opcode
}

/// Encodes a store. The two constants must fit their fields.
pub fn s_format(funct3: u32, opcode: u32, rs1: u8, rs2: u8, imm: u16) -> (word: u32)
    requires
        funct3 < 8,
        opcode < 128,
    ensures
        word == s_word(funct3, opcode, rs1, rs2, imm),
{
    proof {
        lemma_constant_places(0, funct3);
        lemma_register_places(rs1);
        lemma_register_places(rs2);
        lemma_short_immediate_places(imm);
    }
    ((((imm >> 5) & 0b1111111) as u32) << 25) + (((rs2 & 0b11111) as u32) << 20) + (((rs1
        & 0b11111) as u32) << 15) + (funct3 << 12) + (((imm & 0b11111) as u32) << 7) + opcode
}

/// Encodes a branch. The two constants must fit their fields.
pub fn b_format(funct3: u32, opcode: u32, rs1: u8, rs2: u8, imm: u16) -> (word: u32)
    requires
        funct3 < 8,
        opcode < 128,
    ensures
        word == b_word(funct3, opcode, rs1, rs2, imm),
{
    proof {
        lemma_constant_places(0, funct3);
        lemma_register_places(rs1);
        lemma_register_places(rs2);
        lemma_short_immediate_places(imm);
    }
    ((((imm >> 12) & 0b1) as u32) << 31) + ((((imm >> 5) & 0b111111) as u32) << 25) + (((rs2
        & 0b11111) as u32) << 20) + (((rs1 & 0b11111) as u32) << 15) + (funct3 << 12) + ((((imm
        >> 1) & 0b1111) as u32) << 8) + ((((imm >> 11) & 0b1) as u32) << 7) + opcode
}

/// Encodes an upper-immediate instruction. The opcode must fit its field.
pub fn u_format(opcode: u32, rd: u8, imm: u32) -> (word: u32)
    requires
        opcode < 128,
    ensures
        word == u_word(opcode, rd, imm),
{
    proof {
        lemma_register_places(rd);
        lemma_long_immediate_places(imm);
    }
    (imm & 0xFFFFF000) + (((rd & 0b11111) as u32) << 7) + opcode
}

/// Encodes a jump. The opcode must fit its field.
pub fn j_format(opcode: u32, rd: u8, imm: u32) -> (word: u32)
    requires
        opcode < 128,
    ensures
        word == j_word(opcode, rd, imm),
{
    proof {
        lemma_register_places(rd);
        lemma_long_immediate_places(imm);
    }
    (((imm >> 20) & 0b1) << 31) + (((imm >> 1) & 0b1111111111) << 21) + (((imm >> 11) & 0b1) << 20)
        + (((imm >> 12) & 0b11111111) << 12) + (((rd & 0b11111) as u32) << 7) + opcode
}

/// Adds `rs2` to `rs1`.
pub fn add(rd: u8, rs1: u8, rs2: u8) -> (word: u32)
    ensures
        word == r_word(0b0000000, 0b000, 0b0110011, rd, rs1, rs2),
{
    r_format(0b0000000, 0b000, 0b0110011, rd, rs1, rs2)
}

/// Subtracts `rs2` from `rs1`.
pub fn sub(rd: u8, rs1: u8, rs2: u8) -> (word: u32)
    ensures
        word == r_word(0b0100000, 0b000, 0b0110011, rd, rs1, rs2),
{
    r_format(0b0100000, 0b000, 0b0110011, rd, rs1, rs2)
}

/// Shifts `rs1` left by `rs2`.
pub fn sll(rd: u8, rs1: u8, rs2: u8) -> (word: u32)
    ensures
        word == r_word(0b0000000, 0b001, 0b0110011, rd, rs1, rs2),
{
    r_format(0b0000000, 0b001, 0b0110011, rd, rs1, rs2)
}

/// Sets `rd` where `rs1` is below `rs2`, signed.
pub fn slt(rd: u8, rs1: u8, rs2: u8) -> (word: u32)
    ensures
        word == r_word(0b0000000, 0b010, 0b0110011, rd, rs1, rs2),
{
    r_format(0b0000000, 0b010, 0b0110011, rd, rs1, rs2)
}

/// Sets `rd` where `rs1` is below `rs2`, unsigned.
pub fn sltu(rd: u8, rs1: u8, rs2: u8) -> (word: u32)
    ensures
        word == r_word(0b0000000, 0b011, 0b0110011, rd, rs1, rs2),
{
    r_format(0b0000000, 0b011, 0b0110011, rd, rs1, rs2)
}

/// Exclusive or of `rs1` and `rs2`.
pub fn xor(rd: u8, rs1: u8, rs2: u8) -> (word: u32)
    ensures
        word == r_word(0b0000000, 0b100, 0b0110011, rd, rs1, rs2),
{
    r_format(0b0000000, 0b100, 0b0110011, rd, rs1, rs2)
}

/// Shifts `rs1` right by `rs2`, filling with zeros.
pub fn srl(rd: u8, rs1: u8, rs2: u8) -> (word: u32)
    ensures
        word == r_word(0b0000000, 0b101, 0b0110011, rd, rs1, rs2),
{
    r_format(0b0000000, 0b101, 0b0110011, rd, rs1, rs2)
}

/// Shifts `rs1` right by `rs2`, keeping the sign.
pub fn sra(rd: u8, rs1: u8, rs2: u8) -> (word: u32)
    ensures
        word == r_word(0b0100000, 0b101, 0b0110011, rd, rs1, rs2),
{
    r_format(0b0100000, 0b101, 0b0110011, rd, rs1, rs2)
}

/// Inclusive or of `rs1` and `rs2`.
pub fn or(rd: u8, rs1: u8, rs2: u8) -> (word: u32)
    ensures
        word == r_word(0b0000000, 0b110, 0b0110011, rd, rs1, rs2),
{
    r_format(0b0000000, 0b110, 0b0110011, rd, rs1, rs2)
}

/// Bitwise and of `rs1` and `rs2`.
pub fn and(rd: u8, rs1: u8, rs2: u8) -> (word: u32)
    ensures
        word == r_word(0b0000000, 0b111, 0b0110011, rd, rs1, rs2),
{
    r_format(0b0000000, 0b111, 0b0110011, rd, rs1, rs2)
}

/// Loads a byte from `rs1 + imm`, sign-extended.
pub fn lb(rd: u8, rs1: u8, imm: u16) -> (word: u32)
    ensures
        word == i_word(0b000, 0b0000011, rd, rs1, imm),
{
    i_format(0b000, 0b0000011, rd, rs1, imm)
}

/// Loads a half word from `rs1 + imm`, sign-extended.
pub fn lh(rd: u8, rs1: u8, imm: u16) -> (word: u32)
    ensures
        word == i_word(0b001, 0b0000011, rd, rs1, imm),
{
    i_format(0b001, 0b0000011, rd, rs1, imm)
}

/// Loads a word from `rs1 + imm`.
pub fn lw(rd: u8, rs1: u8, imm: u16) -> (word: u32)
    ensures
        word == i_word(0b010, 0b0000011, rd, rs1, imm),
{
    i_format(0b010, 0b0000011, rd, rs1, imm)
}

/// Loads a byte from `rs1 + imm`, zero-extended.
pub fn lbu(rd: u8, rs1: u8, imm: u16) -> (word: u32)
    ensures
        word == i_word(0b100, 0b0000011, rd, rs1, imm),
{
    i_format(0b100, 0b0000011, rd, rs1, imm)
}

/// Loads a half word from `rs1 + imm`, zero-extended.
pub fn lhu(rd: u8, rs1: u8, imm: u16) -> (word: u32)
    ensures
        word == i_word(0b101, 0b0000011, rd, rs1, imm),
{
    i_format(0b101, 0b0000011, rd, rs1, imm)
}

/// Adds the immediate to `rs1`.
pub fn addi(rd: u8, rs1: u8, imm: u16) -> (word: u32)
    ensures
        word == i_word(0b000, 0b0010011, rd, rs1, imm),
{
    i_format(0b000, 0b0010011, rd, rs1, imm)
}

/// Sets `rd` where `rs1` is below the immediate, signed.
pub fn slti(rd: u8, rs1: u8, imm: u16) -> (word: u32)
    ensures
        word == i_word(0b010, 0b0010011, rd, rs1, imm),
{
    i_format(0b010, 0b0010011, rd, rs1, imm)
}

/// Sets `rd` where `rs1` is below the immediate, unsigned.
pub fn sltiu(rd: u8, rs1: u8, imm: u16) -> (word: u32)
    ensures
        word == i_word(0b011, 0b0010011, rd, rs1, imm),
{
    i_format(0b011, 0b0010011, rd, rs1, imm)
}

/// Exclusive or of `rs1` and the immediate.
pub fn xori(rd: u8, rs1: u8, imm: u16) -> (word: u32)
    ensures
        word == i_word(0b100, 0b0010011, rd, rs1, imm),
{
    i_format(0b100, 0b0010011, rd, rs1, imm)
}

/// Inclusive or of `rs1` and the immediate.
pub fn ori(rd: u8, rs1: u8, imm: u16) -> (word: u32)
    ensures
        word == i_word(0b110, 0b0010011, rd, rs1, imm),
{
    i_format(0b110, 0b0010011, rd, rs1, imm)
}

/// Bitwise and of `rs1` and the immediate.
pub fn andi(rd: u8, rs1: u8, imm: u16) -> (word: u32)
    ensures
        word == i_word(0b111, 0b0010011, rd, rs1, imm),
{
    i_format(0b111, 0b0010011, rd, rs1, imm)
}

/// Shifts `rs1` left by the immediate.
pub fn slli(rd: u8, rs1: u8, imm: u16) -> (word: u32)
    ensures
        word == i_word(0b001, 0b0010011, rd, rs1, imm),
{
    i_format(0b001, 0b0010011, rd, rs1, imm)
}

/// Shifts `rs1` right by the immediate, filling with zeros.
pub fn srli(rd: u8, rs1: u8, imm: u16) -> (word: u32)
    ensures
        word == i_word(0b101, 0b0010011, rd, rs1, imm),
{
    i_format(0b101, 0b0010011, rd, rs1, imm)
}

/// Shifts `rs1` right by the low five bits of the immediate, keeping the
/// sign.
pub fn srai(rd: u8, rs1: u8, imm: u16) -> (word: u32)
    ensures
        word == r_word(0b0100000, 0b101, 0b0010011, rd, rs1, (imm % 32) as u8),
{
    assert((imm & 0b11111) == imm % 32 && (imm & 0b11111) < 32) by (bit_vector);
    r_format(0b0100000, 0b101, 0b0010011, rd, rs1, (imm & 0b11111) as u8)
}

/// Jumps to `rs1 + imm` and links in `rd`.
pub fn jalr(rd: u8, rs1: u8, imm: u16) -> (word: u32)
    ensures
        word == i_word(0b000, 0b1100111, rd, rs1, imm),
{
    i_format(0b000, 0b1100111, rd, rs1, imm)
}

/// Stores the low byte of `rs2` at `rs1 + imm`.
pub fn sb(rs1: u8, rs2: u8, imm: u16) -> (word: u32)
    ensures
        word == s_word(0b000, 0b0100011, rs1, rs2, imm),
{
    s_format(0b000, 0b0100011, rs1, rs2, imm)
}

/// Stores the low half word of `rs2` at `rs1 + imm`.
pub fn sh(rs1: u8, rs2: u8, imm: u16) -> (word: u32)
    ensures
        word == s_word(0b001, 0b0100011, rs1, rs2, imm),
{
    s_format(0b001, 0b0100011, rs1, rs2, imm)
}

/// Stores `rs2` at `rs1 + imm`.
pub fn sw(rs1: u8, rs2: u8, imm: u16) -> (word: u32)
    ensures
        word == s_word(0b010, 0b0100011, rs1, rs2, imm),
{
    s_format(0b010, 0b0100011, rs1, rs2, imm)
}

/// Branches by `imm` where `rs1` equals `rs2`.
pub fn beq(rs1: u8, rs2: u8, imm: u16) -> (word: u32)
    ensures
        word == b_word(0b000, 0b1100011, rs1, rs2, imm),
{
    b_format(0b000, 0b1100011, rs1, rs2, imm)
}

/// Branches by `imm` where `rs1` differs from `rs2`.
pub fn bne(rs1: u8, rs2: u8, imm: u16) -> (word: u32)
    ensures
        word == b_word(0b001, 0b1100011, rs1, rs2, imm),
{
    b_format(0b001, 0b1100011, rs1, rs2, imm)
}

/// Branches by `imm` where `rs1` is below `rs2`, signed.
pub fn blt(rs1: u8, rs2: u8, imm: u16) -> (word: u32)
    ensures
        word == b_word(0b100, 0b1100011, rs1, rs2, imm),
{
    b_format(0b100, 0b1100011, rs1, rs2, imm)
}

/// Branches by `imm` where `rs1` is not below `rs2`, signed.
pub fn bge(rs1: u8, rs2: u8, imm: u16) -> (word: u32)
    ensures
        word == b_word(0b101, 0b1100011, rs1, rs2, imm),
{
    b_format(0b101, 0b1100011, rs1, rs2, imm)
}

/// Branches by `imm` where `rs1` is below `rs2`, unsigned.
pub fn bltu(rs1: u8, rs2: u8, imm: u16) -> (word: u32)
    ensures
        word == b_word(0b110, 0b1100011, rs1, rs2, imm),
{
    b_format(0b110, 0b1100011, rs1, rs2, imm)
}

/// Branches by `imm` where `rs1` is not below `rs2`, unsigned.
pub fn bgeu(rs1: u8, rs2: u8, imm: u16) -> (word: u32)
    ensures
        word == b_word(0b111, 0b1100011, rs1, rs2, imm),
{
    b_format(0b111, 0b1100011, rs1, rs2, imm)
}

/// Loads the low twenty bits of `imm` into bits 31 to 12 of `rd` and clears
/// the rest.
pub fn lui(rd: u8, imm: u32) -> (word: u32)
    ensures
        word == lui_word(rd, imm),
{
    proof {
        lemma_register_places(rd);
        lemma_long_immediate_places(imm);
    }
    ((imm & 0xFFFFF) << 12) + (((rd & 0b11111) as u32) << 7) + 0b0110111
}

/// Adds bits 31 to 12 of `imm` to the address of the instruction.
pub fn auipc(rd: u8, imm: u32) -> (word: u32)
    ensures
        word == u_word(0b0010111, rd, imm),
{
    u_format(0b0010111, rd, imm)
}

/// Jumps by `imm` and links in `rd`.
pub fn jal(rd: u8, imm: u32) -> (word: u32)
    ensures
        word == j_word(0b1101111, rd, imm),
{
    j_format(0b1101111, rd, imm)
}

/// No operation: `addi x0, x0, 0`.
pub fn nop() -> (word: u32)
    ensures
        word == i_word(0b000, 0b0010011, 0, 0, 0),
{
    addi(0, 0, 0)
}

/// Loads a 12-bit immediate: `addi rd, x0, imm`.
pub fn li(rd: u8, imm: u16) -> (word: u32)
    ensures
        word == i_word(0b000, 0b0010011, rd, 0, imm),
{
    addi(rd, 0, imm)
}

/// The upper part of a 32-bit constant that `lui` loads before `addi` adds
/// the low twelve bits. `addi` takes its immediate as signed, so where bit
/// 11 of the constant is set the upper part is one more.
pub open spec fn upper_part(imm: u32) -> u32 {
    ((imm + 0x800) % 0x1_0000_0000 / 0x1000) as u32
}

/// The low twelve bits of a 32-bit constant.
pub open spec fn lower_part(imm: u32) -> u16 {
    (imm % 0x1000) as u16
}

/// The two words of [`li_32`].
pub open spec fn li_32_words(rd: u8, imm: u32) -> Seq<u32> {
    seq![
        lui_word(rd, upper_part(imm)),
        i_word(0b000, 0b0010011, rd, rd, lower_part(imm)),
    ]
}

/// Loads a 32-bit constant: `lui` with its upper part, then `addi` with its
/// low twelve bits.
pub fn li_32(rd: u8, imm: u32) -> (words: [u32; 2])
    ensures
        words@ == li_32_words(rd, imm),
{
    let rounded = imm.wrapping_add(0x800);
    assert((rounded >> 12) == rounded / 0x1000 && (imm & 0xFFF) == imm % 0x1000 && (imm & 0xFFF)
        < 0x1000) by (bit_vector);
    [lui(rd, rounded >> 12), addi(rd, rd, (imm & 0xFFF) as u16)]
}

/// What is left of a number above its low twelve bits once `addi` has
/// added those as a signed number: one more where bit 11 is set.
pub open spec fn carried(rest: u64) -> u64 {
    ((rest + 0x800) / 0x1000) as u64
}

/// The low twelve bits of a number.
pub open spec fn low_twelve(rest: u64) -> u16 {
    (rest % 0x1000) as u16
}

/// The eight words of [`li_64`].
pub open spec fn li_64_words(rd: u8, imm: u64) -> Seq<u32> {
    let third = imm / 0x100;
    let second = carried(third);
    let first = carried(second);
    seq![
        lui_word(rd, carried(first) as u32),
        i_word(0b000, 0b0010011, rd, rd, low_twelve(first)),
        i_word(0b001, 0b0010011, rd, rd, 12),
        i_word(0b000, 0b0010011, rd, rd, low_twelve(second)),
        i_word(0b001, 0b0010011, rd, rd, 12),
        i_word(0b000, 0b0010011, rd, rd, low_twelve(third)),
        i_word(0b001, 0b0010011, rd, rd, 8),
        i_word(0b000, 0b0010011, rd, rd, (imm % 0x100) as u16),
    ]
}

proof fn lemma_twelve_bits(rest: u64)
    by (bit_vector)
    ensures
        rest >> 12 == rest / 0x1000,
        rest & 0xFFF == rest % 0x1000,
        rest & 0xFFF < 0x1000,
        rest >> 8 == rest / 0x100,
        rest >> 8 < 0x100_0000_0000_0000,
        rest & 0xFF == rest % 0x100,
{
}

/// Loads a 64-bit constant into a 64-bit register: `lui` and `addi` with
/// its upper 32 bits, then twelve, twelve and eight bits more, each after
/// a shift to the left that makes room for them. `addi` takes its
/// immediate as signed, so each part is one more where bit 11 of the part
/// below it is set.
pub fn li_64(rd: u8, imm: u64) -> (words: [u32; 8])
    ensures
        words@ == li_64_words(rd, imm),
{
    proof {
        lemma_twelve_bits(imm);
    }
    let third = imm >> 8;
    proof {
        lemma_twelve_bits(third);
        lemma_twelve_bits((third + 0x800) as u64);
    }
    let second = (third + 0x800) >> 12;
    proof {
        lemma_twelve_bits(second);
        lemma_twelve_bits((second + 0x800) as u64);
    }
    let first = (second + 0x800) >> 12;
    proof {
        lemma_twelve_bits(first);
        lemma_twelve_bits((first + 0x800) as u64);
    }
    let top = (first + 0x800) >> 12;
    [
        lui(rd, top as u32),
        addi(rd, rd, (first & 0xFFF) as u16),
        slli(rd, rd, 12),
        addi(rd, rd, (second & 0xFFF) as u16),
        slli(rd, rd, 12),
        addi(rd, rd, (third & 0xFFF) as u16),
        slli(rd, rd, 8),
        addi(rd, rd, (imm & 0xFF) as u16),
    ]
}

/// Copies `rs` to `rd`: `addi rd, rs, 0`.
pub fn mv(rd: u8, rs: u8) -> (word: u32)
    ensures
        word == i_word(0b000, 0b0010011, rd, rs, 0),
{
    addi(rd, rs, 0)
}

/// Complements `rs` into `rd`: `xori rd, rs, -1`.
pub fn not(rd: u8, rs: u8) -> (word: u32)
    ensures
        word == i_word(0b100, 0b0010011, rd, rs, 0xFFF),
{
    xori(rd, rs, 0xFFF)
}

/// Negates `rs` into `rd`: `sub rd, x0, rs`.
pub fn neg(rd: u8, rs: u8) -> (word: u32)
    ensures
        word == r_word(0b0100000, 0b000, 0b0110011, rd, 0, rs),
{
    self::sub(rd, 0, rs)
}

/// Sets `rd` where `rs` is zero: `sltiu rd, rs, 1`.
pub fn seqz(rd: u8, rs: u8) -> (word: u32)
    ensures
        word == i_word(0b011, 0b0010011, rd, rs, 1),
{
    sltiu(rd, rs, 1)
}

/// Sets `rd` where `rs` is not zero: `sltu rd, x0, rs`.
pub fn snez(rd: u8, rs: u8) -> (word: u32)
    ensures
        word == r_word(0b0000000, 0b011, 0b0110011, rd, 0, rs),
{
    sltu(rd, 0, rs)
}

/// Sets `rd` where `rs` is below zero: `slt rd, rs, x0`.
pub fn sltz(rd: u8, rs: u8) -> (word: u32)
    ensures
        word == r_word(0b0000000, 0b010, 0b0110011, rd, rs, 0),
{
    slt(rd, rs, 0)
}

/// Sets `rd` where `rs` is above zero: `slt rd, x0, rs`.
pub fn sgtz(rd: u8, rs: u8) -> (word: u32)
    ensures
        word == r_word(0b0000000, 0b010, 0b0110011, rd, 0, rs),
{
    slt(rd, 0, rs)
}

/// Branches by `offset` where `rs` is zero: `beq rs, x0, offset`.
pub fn beqz(rs: u8, offset: u16) -> (word: u32)
    ensures
        word == b_word(0b000, 0b1100011, rs, 0, offset),
{
    beq(rs, 0, offset)
}

/// Branches by `offset` where `rs` is not zero: `bne rs, x0, offset`.
pub fn bnez(rs: u8, offset: u16) -> (word: u32)
    ensures
        word == b_word(0b001, 0b1100011, rs, 0, offset),
{
    bne(rs, 0, offset)
}

/// Jumps by `offset` without linking: `jal x0, offset`.
pub fn j(offset: u32) -> (word: u32)
    ensures
        word == j_word(0b1101111, 0, offset),
{
    jal(0, offset)
}

/// Jumps to the address in `rs` without linking: `jalr x0, rs, 0`.
pub fn jr(rs: u8) -> (word: u32)
    ensures
        word == i_word(0b000, 0b1100111, 0, rs, 0),
{
    jalr(0, rs, 0)
}

/// Returns to the caller: a jump to the address in the link register,
/// `jalr x0, x1, 0`.
pub fn ret() -> (word: u32)
    ensures
        word == i_word(0b000, 0b1100111, 0, 1, 0),
{
    jr(1)
}

/// The two words of [`la`].
pub open spec fn la_words(rd: u8, label: u32) -> Seq<u32> {
    seq![
        u_word(0b0010111, rd, (upper_part(label) * 0x1000) as u32),
        i_word(0b000, 0b0010011, rd, rd, lower_part(label)),
    ]
}

/// Loads the address that lies `label` bytes after the first of the two
/// instructions: `auipc` with the upper part of the distance, then `addi`
/// with its low twelve bits.
pub fn la(rd: u8, label: u32) -> (words: [u32; 2])
    ensures
        words@ == la_words(rd, label),
{
    let rounded = label.wrapping_add(0x800);
    assert((rounded & 0xFFFFF000) == rounded / 0x1000 * 0x1000 && (label & 0xFFF) == label % 0x1000
        && (label & 0xFFF) < 0x1000) by (bit_vector);
    [auipc(rd, rounded & 0xFFFFF000), addi(rd, rd, (label & 0xFFF) as u16)]
}

/// Calls the execution environment.
pub fn ecall() -> (word: u32)
    ensures
        word == 0x0000_0073,
        word == i_word(0b000, 0b1110011, 0, 0, 0),
{
    0b000000000000_00000_000_00000_1110011
}

/// Hands control to a debugger.
pub fn ebreak() -> (word: u32)
    ensures
        word == 0x0010_0073,
        word == i_word(0b000, 0b1110011, 0, 0, 1),
{
    0b000000000001_00000_000_00000_1110011
}

} // verus!
