use vstd::prelude::*;
use crate::tier::raw::rv32::{
    carried, i_word, li_64_words, low_twelve, lower_part, lui_word, u_word, upper_part,
};
use crate::tier::raw::rv32_fields::{
    funct3_of, i_immediate_of, lemma_i_word_fields, lemma_lui_word_fields, lemma_u_word_fields,
    opcode_of, rd_of, rs1_of, u_immediate_of,
};

verus! {

/// A 12-bit immediate taken as a signed number, in 32 bits.
pub open spec fn sign_extended(immediate: u32) -> u32 {
    if immediate & 0x800 == 0 {
        immediate
    } else {
        immediate | 0xFFFF_F000
    }
}

/// What a `lui` word leaves in its destination: its immediate in bits 31 to
/// 12, zeros below.
pub open spec fn lui_result(word: u32) -> u32 {
    u_immediate_of(word)
}

/// What an `auipc` word at address `pc` leaves in its destination: the
/// address plus its immediate, in 32 bits.
pub open spec fn auipc_result(word: u32, pc: u32) -> u32 {
    ((pc + u_immediate_of(word)) % 0x1_0000_0000) as u32
}

/// What an `addi` word leaves in its destination where its source register
/// holds `source`: the source plus its signed immediate, in 32 bits.
pub open spec fn addi_result(word: u32, source: u32) -> u32 {
    ((source + sign_extended(i_immediate_of(word))) % 0x1_0000_0000) as u32
}

proof fn lemma_li_32_value(rd: u8, imm: u32)
    by (bit_vector)
    ensures
        addi_result(
            i_word(0b000, 0b0010011, rd, rd, lower_part(imm)),
            lui_result(lui_word(rd, upper_part(imm))),
        ) == imm,
{
}

proof fn lemma_la_value(rd: u8, label: u32, pc: u32)
    by (bit_vector)
    ensures
        addi_result(
            i_word(0b000, 0b0010011, rd, rd, lower_part(label)),
            auipc_result(u_word(0b0010111, rd, (upper_part(label) * 0x1000) as u32), pc),
        ) == ((pc + label) % 0x1_0000_0000) as u32,
{
}

/// The words of `li_32` load the constant: the first is a `lui` into `rd`,
/// the second an `addi` from `rd` into `rd`, and run one after the other
/// they leave `imm` in `rd`. `rd` is a register other than `x0`, which
/// stays zero.
pub proof fn lemma_li_32_loads(rd: u8, imm: u32)
    requires
        0 < rd < 32,
    ensures
        opcode_of(lui_word(rd, upper_part(imm))) == 0b0110111,
        rd_of(lui_word(rd, upper_part(imm))) == rd,
        opcode_of(i_word(0b000, 0b0010011, rd, rd, lower_part(imm))) == 0b0010011,
        funct3_of(i_word(0b000, 0b0010011, rd, rd, lower_part(imm))) == 0b000,
        rd_of(i_word(0b000, 0b0010011, rd, rd, lower_part(imm))) == rd,
        rs1_of(i_word(0b000, 0b0010011, rd, rd, lower_part(imm))) == rd,
        addi_result(
            i_word(0b000, 0b0010011, rd, rd, lower_part(imm)),
            lui_result(lui_word(rd, upper_part(imm))),
        ) == imm,
{
    lemma_lui_word_fields(rd, upper_part(imm));
    lemma_i_word_fields(0b000, 0b0010011, rd, rd, lower_part(imm));
    lemma_li_32_value(rd, imm);
}

/// The words of `la` load the address: the first is an `auipc` into `rd`,
/// the second an `addi` from `rd` into `rd`, and with the first at address
/// `pc` they leave `pc + label`, in 32 bits, in `rd`. `rd` is a register
/// other than `x0`, which stays zero.
pub proof fn lemma_la_loads(rd: u8, label: u32, pc: u32)
    requires
        0 < rd < 32,
    ensures
        opcode_of(u_word(0b0010111, rd, (upper_part(label) * 0x1000) as u32)) == 0b0010111,
        rd_of(u_word(0b0010111, rd, (upper_part(label) * 0x1000) as u32)) == rd,
        opcode_of(i_word(0b000, 0b0010011, rd, rd, lower_part(label))) == 0b0010011,
        funct3_of(i_word(0b000, 0b0010011, rd, rd, lower_part(label))) == 0b000,
        rd_of(i_word(0b000, 0b0010011, rd, rd, lower_part(label))) == rd,
        rs1_of(i_word(0b000, 0b0010011, rd, rd, lower_part(label))) == rd,
        addi_result(
            i_word(0b000, 0b0010011, rd, rd, lower_part(label)),
            auipc_result(u_word(0b0010111, rd, (upper_part(label) * 0x1000) as u32), pc),
        ) == ((pc + label) % 0x1_0000_0000) as u32,
{
    let upper = (upper_part(label) * 0x1000) as u32;
    assert(upper & 0xFFF == 0) by (bit_vector)
        requires
            upper % 0x1000 == 0,
    ;
    lemma_u_word_fields(0b0010111, rd, upper);
    lemma_i_word_fields(0b000, 0b0010011, rd, rd, lower_part(label));
    lemma_la_value(rd, label, pc);
}

/// What a `lui` word leaves in a 64-bit destination: its immediate in bits
/// 31 to 12, zeros below, and bit 31 repeated above.
pub open spec fn lui_result_64(word: u32) -> u64 {
    if word & 0x8000_0000 == 0 {
        (word & 0xFFFF_F000) as u64
    } else {
        (word & 0xFFFF_F000) as u64 | 0xFFFF_FFFF_0000_0000
    }
}

/// A 12-bit immediate taken as a signed number, in 64 bits.
pub open spec fn sign_extended_64(immediate: u32) -> u64 {
    if immediate & 0x800 == 0 {
        immediate as u64
    } else {
        immediate as u64 | 0xFFFF_FFFF_FFFF_F000
    }
}

/// What an `addi` word leaves in a 64-bit destination where its source
/// register holds `source`: the source plus its signed immediate, in 64
/// bits.
pub open spec fn addi_result_64(word: u32, source: u64) -> u64 {
    ((source + sign_extended_64(i_immediate_of(word))) % 0x1_0000_0000_0000_0000) as u64
}

/// What an `slli` word leaves in a 64-bit destination where its source
/// register holds `source`: the source shifted left by the low six bits of
/// the immediate.
pub open spec fn slli_result_64(word: u32, source: u64) -> u64 {
    source << (i_immediate_of(word) & 0x3F)
}

/// What the eight words of `li_64` leave in a 64-bit destination, run one
/// after the other.
pub open spec fn li_64_result(words: Seq<u32>) -> u64 {
    addi_result_64(
        words[7],
        slli_result_64(
            words[6],
            addi_result_64(
                words[5],
                slli_result_64(
                    words[4],
                    addi_result_64(
                        words[3],
                        slli_result_64(words[2], addi_result_64(words[1], lui_result_64(words[0]))),
                    ),
                ),
            ),
        ),
    )
}

proof fn lemma_li_64_value(rd: u8, imm: u64)
    by (bit_vector)
    ensures
        addi_result_64(
            i_word(0b000, 0b0010011, rd, rd, (imm % 0x100) as u16),
            slli_result_64(
                i_word(0b001, 0b0010011, rd, rd, 8),
                addi_result_64(
                    i_word(0b000, 0b0010011, rd, rd, low_twelve(imm / 0x100)),
                    slli_result_64(
                        i_word(0b001, 0b0010011, rd, rd, 12),
                        addi_result_64(
                            i_word(0b000, 0b0010011, rd, rd, low_twelve(carried(imm / 0x100))),
                            slli_result_64(
                                i_word(0b001, 0b0010011, rd, rd, 12),
                                addi_result_64(
                                    i_word(
                                        0b000,
                                        0b0010011,
                                        rd,
                                        rd,
                                        low_twelve(carried(carried(imm / 0x100))),
                                    ),
                                    lui_result_64(
                                        lui_word(
                                            rd,
                                            carried(carried(carried(imm / 0x100))) as u32,
                                        ),
                                    ),
                                ),
                            ),
                        ),
                    ),
                ),
            ),
        ) == imm,
{
}

/// The words of `li_64` load the constant: the first is a `lui` into `rd`,
/// each of the others an `addi` or an `slli` from `rd` into `rd`, and run
/// one after the other on 64-bit registers they leave `imm` in `rd`. `rd`
/// is a register other than `x0`, which stays zero.
pub proof fn lemma_li_64_loads(rd: u8, imm: u64)
    requires
        0 < rd < 32,
    ensures
        li_64_words(rd, imm).len() == 8,
        opcode_of(li_64_words(rd, imm)[0]) == 0b0110111,
        forall|k: int| 0 <= k < 8 ==> rd_of(#[trigger] li_64_words(rd, imm)[k]) == rd,
        forall|k: int|
            1 <= k < 8 ==> opcode_of(#[trigger] li_64_words(rd, imm)[k]) == 0b0010011 && rs1_of(
                li_64_words(rd, imm)[k],
            ) == rd,
        forall|k: int|
            1 <= k < 8 && k % 2 == 1 ==> funct3_of(#[trigger] li_64_words(rd, imm)[k]) == 0b000,
        forall|k: int|
            1 <= k < 8 && k % 2 == 0 ==> funct3_of(#[trigger] li_64_words(rd, imm)[k]) == 0b001,
        li_64_result(li_64_words(rd, imm)) == imm,
{
    let third = (imm / 0x100) as u64;
    let second = carried(third);
    let first = carried(second);
    let top = carried(first) as u32;
    lemma_lui_word_fields(rd, top % 0x10_0000);
    assert(lui_word(rd, top) == lui_word(rd, top % 0x10_0000));
    lemma_i_word_fields(0b000, 0b0010011, rd, rd, low_twelve(first));
    lemma_i_word_fields(0b000, 0b0010011, rd, rd, low_twelve(second));
    lemma_i_word_fields(0b000, 0b0010011, rd, rd, low_twelve(third));
    lemma_i_word_fields(0b000, 0b0010011, rd, rd, (imm % 0x100) as u16);
    lemma_i_word_fields(0b001, 0b0010011, rd, rd, 12);
    lemma_i_word_fields(0b001, 0b0010011, rd, rd, 8);
    lemma_li_64_value(rd, imm);
}

} // verus!
