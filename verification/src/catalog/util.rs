use vstd::prelude::*;
use crate::catalog::text::{
    decimal, decimal_digit, format_decimal, format_hex_byte, hex_byte, join, joined, texts,
};

verus! {

/// Width of a register or immediate operand.
#[derive(Clone, Copy, Debug, PartialEq, Eq, Structural)]
pub enum Size {
    U64,
    U32,
    U16,
    U8,
}

impl Size {
    /// Number of bytes an operand of this width occupies.
    pub open spec fn width(self) -> nat {
        match self {
            Size::U64 => 8,
            Size::U32 => 4,
            Size::U16 => 2,
            Size::U8 => 1,
        }
    }

    /// The width in bits, in decimal: the suffix that names the operand in
    /// an encoder's name (`r64`, `i8`) and the integer type of an immediate.
    pub open spec fn suffix(self) -> Seq<char> {
        decimal(self.width() * 8)
    }

    /// Number of bytes an operand of this width occupies.
    pub fn bytes(&self) -> (n: u8)
        ensures
            n == self.width(),
    {
        match *self {
            Size::U64 => 8,
            Size::U32 => 4,
            Size::U16 => 2,
            Size::U8 => 1,
        }
    }

    /// The width in bits, written in decimal.
    pub fn to_string(&self) -> (s: String)
        ensures
            s@ == self.suffix(),
    {
        let bits: usize = match *self {
            Size::U64 => 64,
            Size::U32 => 32,
            Size::U16 => 16,
            Size::U8 => 8,
        };
        format_decimal(bits)
    }
}

/// Name of the constant that holds the prefix which narrows a 32-bit
/// operation to 16 bits in 64-bit mode.
pub const COMPAT_16: &'static str = "COMPAT_16";

/// Name of the constant that holds the prefix which widens an operation to
/// 64 bits.
pub const REX_W: &'static str = "REX_W";

/// A prefix byte that an instruction cannot do without.
#[derive(Clone, Copy, Debug, PartialEq, Eq, Structural)]
pub enum Prefix {
    /// The operand-size prefix.
    Compat16,
    /// The REX prefix with the W bit set.
    RexW,
}

impl Prefix {
    /// The name of the constant that holds the prefix.
    pub open spec fn name(self) -> Seq<char> {
        match self {
            Prefix::Compat16 => COMPAT_16@,
            Prefix::RexW => REX_W@,
        }
    }

    /// The prefix byte.
    pub open spec fn byte(self) -> u8 {
        match self {
            Prefix::Compat16 => 0x66,
            Prefix::RexW => 0x48,
        }
    }
}

/// The names of the prefixes, in order.
pub open spec fn prefix_names(prefixes: Seq<Prefix>) -> Seq<Seq<char>> {
    prefixes.map_values(|prefix: Prefix| prefix.name())
}

/// The order in which an instruction's bytes stand.
#[derive(Clone, Copy, Debug, PartialEq, Eq, Structural)]
pub enum Shape {
    /// Opcode bytes only.
    ZeroOperand,
    /// The register added to the opcode byte, then an immediate.
    OpcodeImmediate,
    /// Opcode, a ModRM byte of a sub-operation code and a register, then an
    /// immediate.
    ModRmImmediate,
    /// Opcode, then a ModRM byte of two registers.
    RegisterRegister,
    /// Opcode, then a ModRM byte of a sub-operation code and a register.
    SingleRegister,
    /// Opcode bytes, then an immediate.
    Immediate,
    /// The register added to the last opcode byte.
    RegisterInOpcode,
}

/// One row of the catalog: what an encoder is called after, the order of
/// its bytes, and the bytes and widths that are fixed for it.
pub struct Descriptor {
    pub inst: Seq<char>,
    pub shape: Shape,
    pub prefixes: Seq<Prefix>,
    pub ops: Seq<u8>,
    pub code: Option<u8>,
    pub rdst: Option<Size>,
    pub src: Option<Size>,
}

impl Descriptor {
    /// Whether the row holds what its shape needs: one opcode byte where
    /// the shape has room for one, at least one otherwise, and the
    /// sub-operation code and the widths that the shape uses.
    pub open spec fn wf(self) -> bool {
        match self.shape {
            Shape::ZeroOperand => self.ops.len() >= 1,
            Shape::OpcodeImmediate => self.ops.len() == 1 && self.rdst is Some && self.src is Some,
            Shape::ModRmImmediate => self.ops.len() == 1 && self.code is Some && self.rdst is Some
                && self.src is Some,
            Shape::RegisterRegister => self.ops.len() == 1 && self.rdst is Some && self.src is Some,
            Shape::SingleRegister => self.ops.len() == 1 && self.code is Some && self.rdst is Some,
            Shape::Immediate => self.ops.len() >= 1 && self.src is Some,
            Shape::RegisterInOpcode => self.ops.len() >= 1 && self.rdst is Some,
        }
    }

    /// Whether the instruction has a ModRM byte.
    pub open spec fn has_modrm(self) -> bool {
        self.shape == Shape::ModRmImmediate || self.shape == Shape::RegisterRegister || self.shape
            == Shape::SingleRegister
    }

    /// How many bytes the instruction's immediate has.
    pub open spec fn immediate_width(self) -> nat {
        match self.shape {
            Shape::OpcodeImmediate | Shape::ModRmImmediate | Shape::Immediate => self.src.unwrap().width(),
            _ => 0,
        }
    }

    /// What the encoder lists, one expression for each byte.
    pub open spec fn elements(self) -> Seq<Seq<char>> {
        let names = prefix_names(self.prefixes);
        match self.shape {
            Shape::ZeroOperand => zo_elements(names, self.ops),
            Shape::OpcodeImmediate => oi_elements(names, self.ops[0], self.src.unwrap()),
            Shape::ModRmImmediate => mi_elements(
                names,
                self.ops[0],
                self.code.unwrap(),
                self.src.unwrap(),
            ),
            Shape::RegisterRegister => rm_elements(names, self.ops[0]),
            Shape::SingleRegister => m_elements(names, self.ops[0], self.code.unwrap()),
            Shape::Immediate => i_elements(names, self.ops, self.src.unwrap()),
            Shape::RegisterInOpcode => o_elements(names, self.ops),
        }
    }

    /// The source text of the encoder.
    pub open spec fn source(self) -> Seq<char> {
        let names = prefix_names(self.prefixes);
        match self.shape {
            Shape::ZeroOperand => zo_source(self.inst, names, self.ops),
            Shape::OpcodeImmediate => oi_source(
                self.inst,
                names,
                self.ops[0],
                self.rdst.unwrap(),
                self.src.unwrap(),
            ),
            Shape::ModRmImmediate => mi_source(
                self.inst,
                names,
                self.ops[0],
                self.code.unwrap(),
                self.rdst.unwrap(),
                self.src.unwrap(),
            ),
            Shape::RegisterRegister => rm_source(
                self.inst,
                names,
                self.ops[0],
                self.rdst.unwrap(),
                self.src.unwrap(),
            ),
            Shape::SingleRegister => m_source(
                self.inst,
                names,
                self.ops[0],
                self.code.unwrap(),
                self.rdst.unwrap(),
            ),
            Shape::Immediate => i_source(self.inst, names, self.ops, self.src.unwrap()),
            Shape::RegisterInOpcode => o_source(self.inst, names, self.ops, self.rdst.unwrap()),
        }
    }
}

/// The row of an opcode-plus-immediate encoder.
pub open spec fn oi_row(inst: Seq<char>, prefixes: Seq<Prefix>, op: u8, rdst: Size, isrc: Size) -> Descriptor {
    Descriptor {
        inst,
        shape: Shape::OpcodeImmediate,
        prefixes,
        ops: seq![op],
        code: None,
        rdst: Some(rdst),
        src: Some(isrc),
    }
}

/// The row of a ModRM-plus-immediate encoder.
pub open spec fn mi_row(
    inst: Seq<char>,
    prefixes: Seq<Prefix>,
    op: u8,
    code: u8,
    rdst: Size,
    isrc: Size,
) -> Descriptor {
    Descriptor {
        inst,
        shape: Shape::ModRmImmediate,
        prefixes,
        ops: seq![op],
        code: Some(code),
        rdst: Some(rdst),
        src: Some(isrc),
    }
}

/// The row of a register-register encoder.
pub open spec fn rm_row(inst: Seq<char>, prefixes: Seq<Prefix>, op: u8, rdst: Size, rsrc: Size) -> Descriptor {
    Descriptor {
        inst,
        shape: Shape::RegisterRegister,
        prefixes,
        ops: seq![op],
        code: None,
        rdst: Some(rdst),
        src: Some(rsrc),
    }
}

/// The row of a single-register ModRM encoder.
pub open spec fn m_row(inst: Seq<char>, prefixes: Seq<Prefix>, op: u8, code: u8, rdst: Size) -> Descriptor {
    Descriptor {
        inst,
        shape: Shape::SingleRegister,
        prefixes,
        ops: seq![op],
        code: Some(code),
        rdst: Some(rdst),
        src: None,
    }
}

/// The row of a zero-operand encoder.
pub open spec fn zo_row(inst: Seq<char>, prefixes: Seq<Prefix>, ops: Seq<u8>) -> Descriptor {
    Descriptor {
        inst,
        shape: Shape::ZeroOperand,
        prefixes,
        ops,
        code: None,
        rdst: None,
        src: None,
    }
}

/// The row of an immediate-only encoder.
pub open spec fn i_row(inst: Seq<char>, prefixes: Seq<Prefix>, ops: Seq<u8>, src: Size) -> Descriptor {
    Descriptor {
        inst,
        shape: Shape::Immediate,
        prefixes,
        ops,
        code: None,
        rdst: None,
        src: Some(src),
    }
}

/// The row of a register-in-opcode encoder.
pub open spec fn o_row(inst: Seq<char>, prefixes: Seq<Prefix>, ops: Seq<u8>, rdst: Size) -> Descriptor {
    Descriptor {
        inst,
        shape: Shape::RegisterInOpcode,
        prefixes,
        ops,
        code: None,
        rdst: Some(rdst),
        src: None,
    }
}

/// The prefix names that the tables use, as lists.
pub proof fn lemma_prefix_names()
    ensures
        prefix_names(Seq::empty()) == Seq::<Seq<char>>::empty(),
        prefix_names(seq![Prefix::Compat16]) == seq![COMPAT_16@],
        prefix_names(seq![Prefix::RexW]) == seq![REX_W@],
{
    assert(prefix_names(Seq::empty()) =~= Seq::<Seq<char>>::empty());
    assert(prefix_names(seq![Prefix::Compat16]) =~= seq![COMPAT_16@]);
    assert(prefix_names(seq![Prefix::RexW]) =~= seq![REX_W@]);
}

/// How many bytes an encoder returns: its prefixes, its opcode bytes, one
/// more where it has a ModRM byte, and its immediate.
pub open spec fn layout_len(prefixes: nat, opcodes: nat, modrm: bool, immediate: nat) -> nat {
    prefixes + opcodes + (if modrm { 1nat } else { 0nat }) + immediate
}

/// The contents of each string slice, in order.
pub open spec fn strs(items: Seq<&str>) -> Seq<Seq<char>> {
    items.map_values(|s: &str| s@)
}

/// The expressions `b[0]`, `b[1]`, ... that name the first `amt` bytes of an
/// immediate.
pub open spec fn unpack_items(amt: nat) -> Seq<Seq<char>> {
    Seq::new(amt, |i: int| "b["@ + decimal(i as nat) + "]"@)
}

/// Each opcode byte as a hexadecimal literal.
pub open spec fn hex_items(ops: Seq<u8>) -> Seq<Seq<char>> {
    Seq::new(ops.len(), |k: int| "0x"@ + hex_byte(ops[k]))
}

/// The ModRM expression of an encoder whose register field is a fixed
/// sub-operation code.
pub open spec fn mod_rm_code_item(code: u8) -> Seq<char> {
    "mod_rm(MODRM_DIRECT, "@ + decimal(code as nat) + ", dst)"@
}

/// The source text of one encoder: its name, its parameters, the number of
/// bytes it returns and the expressions that compute them. The number
/// declared is the number of expressions listed.
pub open spec fn encoder_source(
    name: Seq<char>,
    params: Seq<char>,
    unpacks: bool,
    elements: Seq<Seq<char>>,
) -> Seq<char> {
    "#[inline]\npub const fn "@ + name + "("@ + params + ") -> [u8; "@ + decimal(elements.len())
        + "] {\n"@ + (if unpacks {
        "\tlet b = src.to_le_bytes();\n"@
    } else {
        Seq::empty()
    }) + "\t["@ + joined(elements, ", "@) + "]\n}\n"@
}

/// Name of an encoder with a register and an immediate operand.
pub open spec fn name_r_i(inst: Seq<char>, rdst: Size, isrc: Size) -> Seq<char> {
    inst + "_r"@ + rdst.suffix() + "_i"@ + isrc.suffix()
}

/// Name of an encoder with two register operands.
pub open spec fn name_r_r(inst: Seq<char>, rdst: Size, rsrc: Size) -> Seq<char> {
    inst + "_r"@ + rdst.suffix() + "_r"@ + rsrc.suffix()
}

/// Name of an encoder with one register operand.
pub open spec fn name_r(inst: Seq<char>, rdst: Size) -> Seq<char> {
    inst + "_r"@ + rdst.suffix()
}

/// Name of an encoder with one immediate operand.
pub open spec fn name_i(inst: Seq<char>, src: Size) -> Seq<char> {
    inst + "_i"@ + src.suffix()
}

/// Parameters of an encoder with a register and an immediate operand.
pub open spec fn params_r_i(isrc: Size) -> Seq<char> {
    "dst: u8, src: u"@ + isrc.suffix()
}

/// Parameters of an encoder with one immediate operand.
pub open spec fn params_i(src: Size) -> Seq<char> {
    "src: u"@ + src.suffix()
}

/// What an opcode-plus-immediate encoder lists: the prefixes, the opcode
/// with the register added to it, the immediate's bytes.
pub open spec fn oi_elements(prefixes: Seq<Seq<char>>, op: u8, isrc: Size) -> Seq<Seq<char>> {
    prefixes + seq!["0x"@ + hex_byte(op) + " + dst"@] + unpack_items(isrc.width())
}

/// What a ModRM-plus-immediate encoder lists: the prefixes, the opcode, the
/// ModRM byte, the immediate's bytes.
pub open spec fn mi_elements(prefixes: Seq<Seq<char>>, op: u8, code: u8, isrc: Size) -> Seq<
    Seq<char>,
> {
    prefixes + seq!["0x"@ + hex_byte(op), mod_rm_code_item(code)] + unpack_items(isrc.width())
}

/// What a register-register encoder lists: the prefixes, the opcode, the
/// ModRM byte of the two registers.
pub open spec fn rm_elements(prefixes: Seq<Seq<char>>, op: u8) -> Seq<Seq<char>> {
    prefixes + seq!["0x"@ + hex_byte(op), "mod_rm(MODRM_DIRECT, dst, src)"@]
}

/// What a single-register ModRM encoder lists: the prefixes, the opcode,
/// the ModRM byte.
pub open spec fn m_elements(prefixes: Seq<Seq<char>>, op: u8, code: u8) -> Seq<Seq<char>> {
    prefixes + seq!["0x"@ + hex_byte(op), mod_rm_code_item(code)]
}

/// What a zero-operand encoder lists: the prefixes, the opcode bytes.
pub open spec fn zo_elements(prefixes: Seq<Seq<char>>, ops: Seq<u8>) -> Seq<Seq<char>> {
    prefixes + hex_items(ops)
}

/// What an immediate-only encoder lists: the prefixes, the opcode bytes,
/// the immediate's bytes.
pub open spec fn i_elements(prefixes: Seq<Seq<char>>, ops: Seq<u8>, src: Size) -> Seq<Seq<char>> {
    prefixes + hex_items(ops) + unpack_items(src.width())
}

/// What a register-in-opcode encoder lists: the prefixes, the opcode bytes,
/// the register added to the last of them.
pub open spec fn o_elements(prefixes: Seq<Seq<char>>, ops: Seq<u8>) -> Seq<Seq<char>> {
    prefixes + hex_items(ops.drop_last()) + seq!["0x"@ + hex_byte(ops.last()) + " + dst"@]
}

/// The source text of an opcode-plus-immediate encoder.
pub open spec fn oi_source(
    inst: Seq<char>,
    prefixes: Seq<Seq<char>>,
    op: u8,
    rdst: Size,
    isrc: Size,
) -> Seq<char> {
    encoder_source(name_r_i(inst, rdst, isrc), params_r_i(isrc), true, oi_elements(prefixes, op, isrc))
}

/// The source text of a ModRM-plus-immediate encoder.
pub open spec fn mi_source(
    inst: Seq<char>,
    prefixes: Seq<Seq<char>>,
    op: u8,
    code: u8,
    rdst: Size,
    isrc: Size,
) -> Seq<char> {
    encoder_source(
        name_r_i(inst, rdst, isrc),
        params_r_i(isrc),
        true,
        mi_elements(prefixes, op, code, isrc),
    )
}

/// The source text of a register-register encoder.
pub open spec fn rm_source(
    inst: Seq<char>,
    prefixes: Seq<Seq<char>>,
    op: u8,
    rdst: Size,
    rsrc: Size,
) -> Seq<char> {
    encoder_source(name_r_r(inst, rdst, rsrc), "dst: u8, src: u8"@, false, rm_elements(prefixes, op))
}

/// The source text of a single-register ModRM encoder.
pub open spec fn m_source(
    inst: Seq<char>,
    prefixes: Seq<Seq<char>>,
    op: u8,
    code: u8,
    rdst: Size,
) -> Seq<char> {
    encoder_source(name_r(inst, rdst), "dst: u8"@, false, m_elements(prefixes, op, code))
}

/// The source text of a zero-operand encoder.
pub open spec fn zo_source(inst: Seq<char>, prefixes: Seq<Seq<char>>, ops: Seq<u8>) -> Seq<char> {
    encoder_source(inst, Seq::empty(), false, zo_elements(prefixes, ops))
}

/// The source text of an immediate-only encoder.
pub open spec fn i_source(
    inst: Seq<char>,
    prefixes: Seq<Seq<char>>,
    ops: Seq<u8>,
    src: Size,
) -> Seq<char> {
    encoder_source(name_i(inst, src), params_i(src), true, i_elements(prefixes, ops, src))
}

/// The source text of a register-in-opcode encoder.
pub open spec fn o_source(
    inst: Seq<char>,
    prefixes: Seq<Seq<char>>,
    ops: Seq<u8>,
    rdst: Size,
) -> Seq<char> {
    encoder_source(name_r(inst, rdst), "dst: u8"@, false, o_elements(prefixes, ops))
}

/// `b[0], b[1], ...`: the expressions that name the first `amt` bytes of an
/// immediate.
pub fn unpack(amt: u8) -> (out: String)
    ensures
        out@ == joined(unpack_items(amt as nat), ", "@),
{
    let items = unpack_elements(amt);
    join(&items, ", ")
}

fn unpack_elements(amt: u8) -> (items: Vec<String>)
    ensures
        texts(items@) == unpack_items(amt as nat),
{
    let mut items: Vec<String> = Vec::new();
    let mut i: u8 = 0;
    while i < amt
        invariant
            i <= amt,
            texts(items@) == unpack_items(i as nat),
        decreases amt - i,
    {
        let mut item = String::from_str("b[");
        let index = format_decimal(i as usize);
        item.append(index.as_str());
        item.append("]");
        push_element(&mut items, item);
        assert(unpack_items(i as nat) + seq![item@] =~= unpack_items((i + 1) as nat));
        i += 1;
    }
    items
}

fn prefix_elements(prefixes: &[&str]) -> (items: Vec<String>)
    ensures
        texts(items@) == strs(prefixes@),
{
    let mut items: Vec<String> = Vec::new();
    let mut k: usize = 0;
    while k < prefixes.len()
        invariant
            k <= prefixes.len(),
            texts(items@) == strs(prefixes@).take(k as int),
        decreases prefixes.len() - k,
    {
        push_element(&mut items, String::from_str(prefixes[k]));
        assert(strs(prefixes@).take(k as int) + seq![prefixes@[k as int]@] =~= strs(prefixes@).take(
            k as int + 1,
        ));
        k += 1;
    }
    assert(strs(prefixes@).take(prefixes.len() as int) =~= strs(prefixes@));
    items
}

fn hex_literal(op: u8) -> (item: String)
    ensures
        item@ == "0x"@ + hex_byte(op),
{
    let mut item = String::from_str("0x");
    let digits = format_hex_byte(op);
    item.append(digits.as_str());
    item
}

fn push_hex_elements(items: &mut Vec<String>, ops: &[u8], count: usize)
    requires
        count <= ops.len(),
    ensures
        texts(final(items)@) == texts(old(items)@) + hex_items(ops@.take(count as int)),
{
    let ghost before = texts(items@);
    let mut k: usize = 0;
    while k < count
        invariant
            k <= count <= ops.len(),
            texts(items@) == before + hex_items(ops@.take(k as int)),
        decreases count - k,
    {
        let item = hex_literal(ops[k]);
        push_element(items, item);
        assert(hex_items(ops@.take(k as int)) + seq![item@] =~= hex_items(ops@.take(k as int + 1)));
        k += 1;
    }
}

fn push_unpack_elements(items: &mut Vec<String>, amt: u8)
    ensures
        texts(final(items)@) == texts(old(items)@) + unpack_items(amt as nat),
{
    let ghost before = texts(items@);
    let mut tail = unpack_elements(amt);
    items.append(&mut tail);
    assert(texts(items@) =~= before + unpack_items(amt as nat));
}

fn push_element(items: &mut Vec<String>, item: String)
    ensures
        texts(final(items)@) == texts(old(items)@) + seq![item@],
{
    let ghost before = texts(items@);
    items.push(item);
    assert(texts(items@) =~= before + seq![item@]);
}

fn mod_rm_code_element(code: u8) -> (item: String)
    ensures
        item@ == mod_rm_code_item(code),
{
    let mut item = String::from_str("mod_rm(MODRM_DIRECT, ");
    let digits = format_decimal(code as usize);
    item.append(digits.as_str());
    item.append(", dst)");
    item
}

fn render(name: String, params: String, unpacks: bool, total_bytes: usize, elements: &Vec<String>) -> (out:
    String)
    requires
        total_bytes == elements@.len(),
    ensures
        out@ == encoder_source(name@, params@, unpacks, texts(elements@)),
{
    let mut out = String::from_str("#[inline]\npub const fn ");
    out.append(name.as_str());
    out.append("(");
    out.append(params.as_str());
    out.append(") -> [u8; ");
    let declared = format_decimal(total_bytes);
    out.append(declared.as_str());
    out.append("] {\n");
    if unpacks {
        out.append("\tlet b = src.to_le_bytes();\n");
    }
    assert(out@ =~= "#[inline]\npub const fn "@ + name@ + "("@ + params@ + ") -> [u8; "@ + decimal(
        texts(elements@).len(),
    ) + "] {\n"@ + (if unpacks {
        "\tlet b = src.to_le_bytes();\n"@
    } else {
        Seq::empty()
    }));
    out.append("\t[");
    let listed = join(elements, ", ");
    out.append(listed.as_str());
    out.append("]\n}\n");
    out
}

/// Source text of an opcode-plus-immediate encoder: the register is added
/// to the opcode byte, the immediate follows in little-endian order.
pub fn oi(inst: &str, prefixes: &[&str], op: u8, rdst: Size, isrc: Size) -> (out: String)
    requires
        prefixes.len() + 9 <= usize::MAX,
    ensures
        out@ == oi_source(inst@, strs(prefixes@), op, rdst, isrc),
{
    let total_bytes = prefixes.len() + 1 + isrc.bytes() as usize;
    let mut opcode = hex_literal(op);
    opcode.append(" + dst");
    let mut elements = prefix_elements(prefixes);
    push_element(&mut elements, opcode);
    push_unpack_elements(&mut elements, isrc.bytes());
    assert(texts(elements@) =~= oi_elements(strs(prefixes@), op, isrc));
    render(name_of_r_i(inst, rdst, isrc), params_of_r_i(isrc), true, total_bytes, &elements)
}

/// Source text of a ModRM-plus-immediate encoder: the ModRM byte holds the
/// sub-operation code and the register, the immediate follows in
/// little-endian order.
pub fn mi(inst: &str, prefixes: &[&str], op: u8, code: u8, rdst: Size, isrc: Size) -> (out: String)
    requires
        prefixes.len() + 10 <= usize::MAX,
    ensures
        out@ == mi_source(inst@, strs(prefixes@), op, code, rdst, isrc),
{
    let total_bytes = prefixes.len() + 2 + isrc.bytes() as usize;
    let mut elements = prefix_elements(prefixes);
    push_element(&mut elements, hex_literal(op));
    push_element(&mut elements, mod_rm_code_element(code));
    push_unpack_elements(&mut elements, isrc.bytes());
    assert(texts(elements@) =~= mi_elements(strs(prefixes@), op, code, isrc));
    render(name_of_r_i(inst, rdst, isrc), params_of_r_i(isrc), true, total_bytes, &elements)
}

/// Source text of a register-register encoder: the ModRM byte holds both
/// registers.
pub fn rm(inst: &str, prefixes: &[&str], op: u8, rdst: Size, rsrc: Size) -> (out: String)
    requires
        prefixes.len() + 2 <= usize::MAX,
    ensures
        out@ == rm_source(inst@, strs(prefixes@), op, rdst, rsrc),
{
    let total_bytes = prefixes.len() + 2;
    let mut elements = prefix_elements(prefixes);
    push_element(&mut elements, hex_literal(op));
    push_element(&mut elements, String::from_str("mod_rm(MODRM_DIRECT, dst, src)"));
    assert(texts(elements@) =~= rm_elements(strs(prefixes@), op));
    let mut name = name_of_r(inst, rdst);
    name.append("_r");
    name.append(rsrc.to_string().as_str());
    render(name, String::from_str("dst: u8, src: u8"), false, total_bytes, &elements)
}

/// Source text of a single-register ModRM encoder: the ModRM byte holds the
/// sub-operation code and the register.
pub fn m(inst: &str, prefixes: &[&str], op: u8, code: u8, rdst: Size) -> (out: String)
    requires
        prefixes.len() + 2 <= usize::MAX,
    ensures
        out@ == m_source(inst@, strs(prefixes@), op, code, rdst),
{
    let total_bytes = prefixes.len() + 2;
    let mut elements = prefix_elements(prefixes);
    push_element(&mut elements, hex_literal(op));
    push_element(&mut elements, mod_rm_code_element(code));
    assert(texts(elements@) =~= m_elements(strs(prefixes@), op, code));
    render(name_of_r(inst, rdst), String::from_str("dst: u8"), false, total_bytes, &elements)
}

/// Source text of a zero-operand encoder: prefixes and opcode bytes only.
pub fn zo(inst: &str, prefixes: &[&str], ops: &[u8]) -> (out: String)
    requires
        ops.len() >= 1,
        prefixes.len() + ops.len() <= usize::MAX,
    ensures
        out@ == zo_source(inst@, strs(prefixes@), ops@),
{
    let total_bytes = prefixes.len() + ops.len();
    let mut elements = prefix_elements(prefixes);
    push_hex_elements(&mut elements, ops, ops.len());
    assert(ops@.take(ops.len() as int) =~= ops@);
    assert(texts(elements@) =~= zo_elements(strs(prefixes@), ops@));
    render(String::from_str(inst), String::new(), false, total_bytes, &elements)
}

/// Source text of an immediate-only encoder: the immediate follows the
/// opcode bytes in little-endian order.
pub fn i(inst: &str, prefixes: &[&str], ops: &[u8], src: Size) -> (out: String)
    requires
        ops.len() >= 1,
        prefixes.len() + ops.len() + 8 <= usize::MAX,
    ensures
        out@ == i_source(inst@, strs(prefixes@), ops@, src),
{
    let total_bytes = prefixes.len() + ops.len() + src.bytes() as usize;
    let mut elements = prefix_elements(prefixes);
    push_hex_elements(&mut elements, ops, ops.len());
    assert(ops@.take(ops.len() as int) =~= ops@);
    push_unpack_elements(&mut elements, src.bytes());
    assert(texts(elements@) =~= i_elements(strs(prefixes@), ops@, src));
    let mut name = String::from_str(inst);
    name.append("_i");
    name.append(src.to_string().as_str());
    let mut params = String::from_str("src: u");
    params.append(src.to_string().as_str());
    render(name, params, true, total_bytes, &elements)
}

/// Source text of an encoder whose operand is a displacement. A
/// displacement is laid out as an immediate is.
pub fn d(inst: &str, prefixes: &[&str], ops: &[u8], src: Size) -> (out: String)
    requires
        ops.len() >= 1,
        prefixes.len() + ops.len() + 8 <= usize::MAX,
    ensures
        out@ == i_source(inst@, strs(prefixes@), ops@, src),
{
    i(inst, prefixes, ops, src)
}

/// Source text of a register-in-opcode encoder: the register is added to
/// the last opcode byte.
pub fn o(inst: &str, prefixes: &[&str], ops: &[u8], rdst: Size) -> (out: String)
    requires
        ops.len() >= 1,
        prefixes.len() + ops.len() <= usize::MAX,
    ensures
        out@ == o_source(inst@, strs(prefixes@), ops@, rdst),
{
    let total_bytes = prefixes.len() + ops.len();
    let mut elements = prefix_elements(prefixes);
    push_hex_elements(&mut elements, ops, ops.len() - 1);
    assert(ops@.take(ops.len() - 1) =~= ops@.drop_last());
    let mut last = hex_literal(ops[ops.len() - 1]);
    last.append(" + dst");
    push_element(&mut elements, last);
    assert(texts(elements@) =~= o_elements(strs(prefixes@), ops@));
    render(name_of_r(inst, rdst), String::from_str("dst: u8"), false, total_bytes, &elements)
}

fn name_of_r(inst: &str, rdst: Size) -> (name: String)
    ensures
        name@ == name_r(inst@, rdst),
{
    let mut name = String::from_str(inst);
    name.append("_r");
    name.append(rdst.to_string().as_str());
    name
}

fn name_of_r_i(inst: &str, rdst: Size, isrc: Size) -> (name: String)
    ensures
        name@ == name_r_i(inst@, rdst, isrc),
{
    let mut name = name_of_r(inst, rdst);
    name.append("_i");
    name.append(isrc.to_string().as_str());
    name
}

fn params_of_r_i(isrc: Size) -> (params: String)
    ensures
        params@ == params_r_i(isrc),
{
    let mut params = String::from_str("dst: u8, src: u");
    params.append(isrc.to_string().as_str());
    params
}

/// The length invariant: whatever the descriptor, an encoder's source
/// lists, and so declares, as many bytes as it has prefixes and opcode
/// bytes, one more where it has a ModRM byte, and the bytes of its
/// immediate.
pub proof fn lemma_declared_length(
    prefixes: Seq<Seq<char>>,
    ops: Seq<u8>,
    op: u8,
    code: u8,
    size: Size,
)
    requires
        ops.len() >= 1,
    ensures
        oi_elements(prefixes, op, size).len() == layout_len(prefixes.len(), 1, false, size.width()),
        mi_elements(prefixes, op, code, size).len() == layout_len(
            prefixes.len(),
            1,
            true,
            size.width(),
        ),
        rm_elements(prefixes, op).len() == layout_len(prefixes.len(), 1, true, 0),
        m_elements(prefixes, op, code).len() == layout_len(prefixes.len(), 1, true, 0),
        zo_elements(prefixes, ops).len() == layout_len(prefixes.len(), ops.len(), false, 0),
        i_elements(prefixes, ops, size).len() == layout_len(
            prefixes.len(),
            ops.len(),
            false,
            size.width(),
        ),
        o_elements(prefixes, ops).len() == layout_len(prefixes.len(), ops.len(), false, 0),
{
}

/// The prefix list of an encoder without prefixes.
pub fn no_prefix() -> (prefixes: [&'static str; 0])
    ensures
        strs(prefixes@) == Seq::<Seq<char>>::empty(),
{
    let prefixes: [&'static str; 0] = [];
    assert(strs(prefixes@) =~= Seq::<Seq<char>>::empty());
    prefixes
}

/// The prefix list of an encoder with one prefix, given by the name of its
/// constant.
pub fn prefix(name: &'static str) -> (prefixes: [&'static str; 1])
    ensures
        strs(prefixes@) == seq![name@],
{
    let prefixes = [name];
    assert(strs(prefixes@) =~= seq![name@]);
    prefixes
}

/// The opcode list of an encoder with one opcode byte.
pub fn opcode(op: u8) -> (ops: [u8; 1])
    ensures
        ops@ == seq![op],
{
    [op]
}

/// The opcode list of an encoder with two opcode bytes.
pub fn opcodes(first: u8, second: u8) -> (ops: [u8; 2])
    ensures
        ops@ == seq![first, second],
{
    [first, second]
}

/// The suffix of a width begins with a digit that no other width begins
/// with.
proof fn lemma_suffix_begins(size: Size)
    ensures
        size.suffix().len() >= 1,
        size.suffix()[0] == decimal_digit(
            match size {
                Size::U64 => 6,
                Size::U32 => 3,
                Size::U16 => 1,
                Size::U8 => 8,
            },
        ),
{
    reveal_with_fuel(decimal, 2);
}

/// Names keep widths apart: two encoders of one operation whose operands
/// differ in width differ in name.
pub proof fn lemma_names_keep_widths_apart(
    inst: Seq<char>,
    first: Size,
    second: Size,
    other_first: Size,
    other_second: Size,
)
    ensures
        first != other_first ==> name_r(inst, first) != name_r(inst, other_first),
        first != other_first ==> name_i(inst, first) != name_i(inst, other_first),
        first != other_first || second != other_second ==> name_r_r(inst, first, second)
            != name_r_r(inst, other_first, other_second),
        first != other_first || second != other_second ==> name_r_i(inst, first, second)
            != name_r_i(inst, other_first, other_second),
{
    lemma_suffix_begins(first);
    lemma_suffix_begins(second);
    lemma_suffix_begins(other_first);
    lemma_suffix_begins(other_second);
    let at_first = inst.len() + "_r"@.len();
    if first != other_first {
        assert(name_r(inst, first)[at_first as int] == first.suffix()[0]);
        assert(name_r(inst, other_first)[at_first as int] == other_first.suffix()[0]);
        assert(name_i(inst, first)[(inst.len() + "_i"@.len()) as int] == first.suffix()[0]);
        assert(name_i(inst, other_first)[(inst.len() + "_i"@.len()) as int]
            == other_first.suffix()[0]);
        assert(name_r_r(inst, first, second)[at_first as int] == first.suffix()[0]);
        assert(name_r_r(inst, other_first, other_second)[at_first as int]
            == other_first.suffix()[0]);
        assert(name_r_i(inst, first, second)[at_first as int] == first.suffix()[0]);
        assert(name_r_i(inst, other_first, other_second)[at_first as int]
            == other_first.suffix()[0]);
    } else if second != other_second {
        let at_second_r = at_first + first.suffix().len() + "_r"@.len();
        let at_second_i = at_first + first.suffix().len() + "_i"@.len();
        assert(name_r_r(inst, first, second)[at_second_r as int] == second.suffix()[0]);
        assert(name_r_r(inst, other_first, other_second)[at_second_r as int]
            == other_second.suffix()[0]);
        assert(name_r_i(inst, first, second)[at_second_i as int] == second.suffix()[0]);
        assert(name_r_i(inst, other_first, other_second)[at_second_i as int]
            == other_second.suffix()[0]);
    }
}

} // verus!
