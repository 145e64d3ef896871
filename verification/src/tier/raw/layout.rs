use vstd::prelude::*;
use crate::catalog::util::{layout_len, Descriptor, Prefix, Shape, Size};

verus! {

/// The ModRM byte: the addressing mode in the two high bits, then a
/// register or sub-operation code, then a register, three bits each.
/// Larger arguments count by their low bits only.
pub open spec fn mod_rm_byte(mode: u8, reg: u8, rm: u8) -> u8 {
    ((mode % 4) * 64 + (reg % 8) * 8 + rm % 8) as u8
}

/// The bytes of an immediate of the given width, lowest first.
pub open spec fn immediate(value: int, size: Size) -> Seq<u8> {
    match size {
        Size::U8 => seq![(value % 256) as u8],
        Size::U16 => seq![(value % 256) as u8, (value / 0x100 % 256) as u8],
        Size::U32 => seq![
            (value % 256) as u8,
            (value / 0x100 % 256) as u8,
            (value / 0x1_0000 % 256) as u8,
            (value / 0x100_0000 % 256) as u8,
        ],
        Size::U64 => seq![
            (value % 256) as u8,
            (value / 0x100 % 256) as u8,
            (value / 0x1_0000 % 256) as u8,
            (value / 0x100_0000 % 256) as u8,
            (value / 0x1_0000_0000 % 256) as u8,
            (value / 0x100_0000_0000 % 256) as u8,
            (value / 0x1_0000_0000_0000 % 256) as u8,
            (value / 0x100_0000_0000_0000 % 256) as u8,
        ],
    }
}

/// The number that an 8-bit immediate stands for.
pub open spec fn number_u8(value: u8) -> int {
    value as int
}

/// The number that a 16-bit immediate stands for.
pub open spec fn number_u16(value: u16) -> int {
    value as int
}

/// The number that a 32-bit immediate stands for.
pub open spec fn number_u32(value: u32) -> int {
    value as int
}

/// The number that a 64-bit immediate stands for.
pub open spec fn number_u64(value: u64) -> int {
    value as int
}

/// The prefix bytes, in order.
pub open spec fn prefix_bytes(prefixes: Seq<Prefix>) -> Seq<u8> {
    prefixes.map_values(|prefix: Prefix| prefix.byte())
}

/// The bytes of the instruction that a row of the catalog describes, for
/// the given operands. An operand that the row's shape has no place for is
/// not looked at.
pub open spec fn encoding(row: Descriptor, dst: u8, src: u8, imm: int) -> Seq<u8> {
    let prefixes = prefix_bytes(row.prefixes);
    match row.shape {
        Shape::ZeroOperand => zo_bytes(prefixes, row.ops),
        Shape::OpcodeImmediate => oi_bytes(
            prefixes,
            row.ops[0],
            dst,
            immediate(imm, row.src.unwrap()),
        ),
        Shape::ModRmImmediate => mi_bytes(
            prefixes,
            row.ops[0],
            row.code.unwrap(),
            dst,
            immediate(imm, row.src.unwrap()),
        ),
        Shape::RegisterRegister => rm_bytes(prefixes, row.ops[0], dst, src),
        Shape::SingleRegister => m_bytes(prefixes, row.ops[0], row.code.unwrap(), dst),
        Shape::Immediate => i_bytes(prefixes, row.ops, immediate(imm, row.src.unwrap())),
        Shape::RegisterInOpcode => o_bytes(prefixes, row.ops, dst),
    }
}

/// Bytes of a zero-operand instruction.
pub open spec fn zo_bytes(prefixes: Seq<u8>, ops: Seq<u8>) -> Seq<u8> {
    prefixes + ops
}

/// Bytes of an opcode-plus-immediate instruction: the register is added to
/// the opcode byte.
pub open spec fn oi_bytes(prefixes: Seq<u8>, op: u8, dst: u8, imm: Seq<u8>) -> Seq<u8> {
    prefixes + seq![(op + dst) as u8] + imm
}

/// Bytes of a ModRM-plus-immediate instruction: the ModRM byte addresses
/// the register directly and holds the sub-operation code.
pub open spec fn mi_bytes(prefixes: Seq<u8>, op: u8, code: u8, dst: u8, imm: Seq<u8>) -> Seq<u8> {
    prefixes + seq![op, mod_rm_byte(MODRM_DIRECT, code, dst)] + imm
}

/// Bytes of a register-register instruction.
pub open spec fn rm_bytes(prefixes: Seq<u8>, op: u8, dst: u8, src: u8) -> Seq<u8> {
    prefixes + seq![op, mod_rm_byte(MODRM_DIRECT, dst, src)]
}

/// Bytes of a single-register ModRM instruction.
pub open spec fn m_bytes(prefixes: Seq<u8>, op: u8, code: u8, dst: u8) -> Seq<u8> {
    prefixes + seq![op, mod_rm_byte(MODRM_DIRECT, code, dst)]
}

/// Bytes of an immediate-only instruction.
pub open spec fn i_bytes(prefixes: Seq<u8>, ops: Seq<u8>, imm: Seq<u8>) -> Seq<u8> {
    prefixes + ops + imm
}

/// Bytes of a register-in-opcode instruction: the register is added to the
/// last opcode byte.
pub open spec fn o_bytes(prefixes: Seq<u8>, ops: Seq<u8>, dst: u8) -> Seq<u8> {
    prefixes + ops.drop_last() + seq![(ops.last() + dst) as u8]
}

/// ModRM mode: the operand is in memory, at the address in the register.
pub const MODRM_INDIRECT: u8 = 0b00;

/// ModRM mode: the operand is the register itself.
pub const MODRM_DIRECT: u8 = 0b11;

/// Packs a ModRM byte. Only the low two bits of `mode` and the low three
/// bits of each register count.
pub fn mod_rm(mode: u8, src: u8, dst: u8) -> (byte: u8)
    ensures
        byte == mod_rm_byte(mode, src, dst),
{
    assert(((mode << 6) | ((src & 0b111) << 3) | (dst & 0b111)) == ((mode % 4) * 64 + (src % 8) * 8
        + dst % 8) as u8) by (bit_vector);
    (mode << 6) | ((src & 0b111) << 3) | (dst & 0b111)
}

/// The byte of an 8-bit immediate.
pub fn bytes_u8(value: u8) -> (b: [u8; 1])
    ensures
        b@ == immediate(number_u8(value), Size::U8),
{
    [value]
}

/// The bytes of a 16-bit immediate, lowest first.
pub fn bytes_u16(value: u16) -> (b: [u8; 2])
    ensures
        b@ == immediate(number_u16(value), Size::U16),
{
    assert((value & 0xff) == value % 256 && (value >> 8) == value / 256 && (value >> 8) < 256)
        by (bit_vector);
    [(value & 0xff) as u8, (value >> 8) as u8]
}

/// The bytes of a 32-bit immediate, lowest first.
pub fn bytes_u32(value: u32) -> (b: [u8; 4])
    ensures
        b@ == immediate(number_u32(value), Size::U32),
{
    assert((value & 0xff) == value % 256 && ((value >> 8) & 0xff) == value / 0x100 % 256 && ((value
        >> 16) & 0xff) == value / 0x1_0000 % 256 && (value >> 24) == value / 0x100_0000 && (value
        >> 24) < 256) by (bit_vector);
    [
        (value & 0xff) as u8,
        ((value >> 8) & 0xff) as u8,
        ((value >> 16) & 0xff) as u8,
        (value >> 24) as u8,
    ]
}

/// The bytes of a 64-bit immediate, lowest first.
pub fn bytes_u64(value: u64) -> (b: [u8; 8])
    ensures
        b@ == immediate(number_u64(value), Size::U64),
{
    assert((value & 0xff) == value % 256 && ((value >> 8) & 0xff) == value / 0x100 % 256 && ((value
        >> 16) & 0xff) == value / 0x1_0000 % 256 && ((value >> 24) & 0xff) == value / 0x100_0000
        % 256) by (bit_vector);
    assert(((value >> 32) & 0xff) == value / 0x1_0000_0000 % 256 && ((value >> 40) & 0xff) == value
        / 0x100_0000_0000 % 256 && ((value >> 48) & 0xff) == value / 0x1_0000_0000_0000 % 256 && (
    value >> 56) == value / 0x100_0000_0000_0000 && (value >> 56) < 256) by (bit_vector);
    [
        (value & 0xff) as u8,
        ((value >> 8) & 0xff) as u8,
        ((value >> 16) & 0xff) as u8,
        ((value >> 24) & 0xff) as u8,
        ((value >> 32) & 0xff) as u8,
        ((value >> 40) & 0xff) as u8,
        ((value >> 48) & 0xff) as u8,
        (value >> 56) as u8,
    ]
}

/// The length invariant: whatever the operands, an instruction has as many
/// bytes as it has prefixes and opcode bytes, one more where it has a
/// ModRM byte, and the bytes of its immediate.
pub proof fn lemma_layout_length(
    prefixes: Seq<u8>,
    ops: Seq<u8>,
    op: u8,
    code: u8,
    dst: u8,
    src: u8,
    imm: Seq<u8>,
)
    requires
        ops.len() >= 1,
    ensures
        zo_bytes(prefixes, ops).len() == layout_len(prefixes.len(), ops.len(), false, 0),
        oi_bytes(prefixes, op, dst, imm).len() == layout_len(prefixes.len(), 1, false, imm.len()),
        mi_bytes(prefixes, op, code, dst, imm).len() == layout_len(
            prefixes.len(),
            1,
            true,
            imm.len(),
        ),
        rm_bytes(prefixes, op, dst, src).len() == layout_len(prefixes.len(), 1, true, 0),
        m_bytes(prefixes, op, code, dst).len() == layout_len(prefixes.len(), 1, true, 0),
        i_bytes(prefixes, ops, imm).len() == layout_len(prefixes.len(), ops.len(), false, imm.len()),
        o_bytes(prefixes, ops, dst).len() == layout_len(prefixes.len(), ops.len(), false, 0),
{
}

/// An immediate has as many bytes as its width says.
pub proof fn lemma_immediate_length(value: int, size: Size)
    ensures
        immediate(value, size).len() == size.width(),
{
}

/// The length invariant, row by row: the instruction that a row describes
/// has as many bytes as the row has prefixes and opcode bytes, one more
/// where its shape has a ModRM byte, and the bytes of its immediate; and
/// the encoder's source lists, and so declares, as many.
pub proof fn lemma_row_length(row: Descriptor, dst: u8, src: u8, imm: int)
    requires
        row.wf(),
    ensures
        encoding(row, dst, src, imm).len() == layout_len(
            row.prefixes.len(),
            row.ops.len(),
            row.has_modrm(),
            row.immediate_width(),
        ),
        row.elements().len() == encoding(row, dst, src, imm).len(),
{
}

} // verus!
