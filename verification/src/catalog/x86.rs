use vstd::prelude::*;
use crate::catalog::text::{join, joined, push_row, texts};
use crate::catalog::util::{
    d, i, i_row, lemma_prefix_names, m, m_row, mi, mi_row, no_prefix, o, o_row, oi, oi_row, opcode,
    rm, rm_row, zo, zo_row, Descriptor, Size,
};

verus! {

/// The row of `not_r8`.
pub open spec fn not_r8_row() -> Descriptor {
    m_row("not"@, Seq::empty(), 0xF6, 2, Size::U8)
}

/// The row of `not_r16`.
pub open spec fn not_r16_row() -> Descriptor {
    m_row("not"@, Seq::empty(), 0xF7, 2, Size::U16)
}

/// The row of `not_r32`.
pub open spec fn not_r32_row() -> Descriptor {
    m_row("not"@, Seq::empty(), 0xF7, 2, Size::U32)
}

/// The row of `xor_r8_r8`.
pub open spec fn xor_r8_r8_row() -> Descriptor {
    rm_row("xor"@, Seq::empty(), 0x32, Size::U8, Size::U8)
}

/// The row of `xor_r16_r16`.
pub open spec fn xor_r16_r16_row() -> Descriptor {
    rm_row("xor"@, Seq::empty(), 0x33, Size::U16, Size::U16)
}

/// The row of `xor_r32_r32`.
pub open spec fn xor_r32_r32_row() -> Descriptor {
    rm_row("xor"@, Seq::empty(), 0x33, Size::U32, Size::U32)
}

/// The row of `xor_r32_i32`.
pub open spec fn xor_r32_i32_row() -> Descriptor {
    mi_row("xor"@, Seq::empty(), 0x81, 6, Size::U32, Size::U32)
}

/// The row of `nop`.
pub open spec fn nop_row() -> Descriptor {
    zo_row("nop"@, Seq::empty(), seq![0x90u8])
}

/// The row of `ret`.
pub open spec fn ret_row() -> Descriptor {
    zo_row("ret"@, Seq::empty(), seq![0xC3u8])
}

/// The row of `leave`.
pub open spec fn leave_row() -> Descriptor {
    zo_row("leave"@, Seq::empty(), seq![0xC9u8])
}

/// The row of `push_i8`.
pub open spec fn push_i8_row() -> Descriptor {
    i_row("push"@, Seq::empty(), seq![0x6Au8], Size::U8)
}

/// The row of `push_i16`.
pub open spec fn push_i16_row() -> Descriptor {
    i_row("push"@, Seq::empty(), seq![0x68u8], Size::U16)
}

/// The row of `push_i32`.
pub open spec fn push_i32_row() -> Descriptor {
    i_row("push"@, Seq::empty(), seq![0x68u8], Size::U32)
}

/// The row of `push_r16`.
pub open spec fn push_r16_row() -> Descriptor {
    o_row("push"@, Seq::empty(), seq![0x50u8], Size::U16)
}

/// The row of `pop_r16`.
pub open spec fn pop_r16_row() -> Descriptor {
    o_row("pop"@, Seq::empty(), seq![0x58u8], Size::U16)
}

/// The row of `int_i8`.
pub open spec fn int_i8_row() -> Descriptor {
    i_row("int"@, Seq::empty(), seq![0xCDu8], Size::U8)
}

/// The row of `int1`.
pub open spec fn int1_row() -> Descriptor {
    zo_row("int1"@, Seq::empty(), seq![0xF1u8])
}

/// The row of `int3`.
pub open spec fn int3_row() -> Descriptor {
    zo_row("int3"@, Seq::empty(), seq![0xCCu8])
}

/// The row of `neg_r16`.
pub open spec fn neg_r16_row() -> Descriptor {
    m_row("neg"@, Seq::empty(), 0xF7, 3, Size::U16)
}

/// The row of `neg_r32`.
pub open spec fn neg_r32_row() -> Descriptor {
    m_row("neg"@, Seq::empty(), 0xF7, 3, Size::U32)
}

/// The row of `add_r16_r16`.
pub open spec fn add_r16_r16_row() -> Descriptor {
    rm_row("add"@, Seq::empty(), 0x03, Size::U16, Size::U16)
}

/// The row of `add_r32_r32`.
pub open spec fn add_r32_r32_row() -> Descriptor {
    rm_row("add"@, Seq::empty(), 0x03, Size::U32, Size::U32)
}

/// The row of `add_r16_i16`.
pub open spec fn add_r16_i16_row() -> Descriptor {
    mi_row("add"@, Seq::empty(), 0x81, 0, Size::U16, Size::U16)
}

/// The row of `add_r32_i32`.
pub open spec fn add_r32_i32_row() -> Descriptor {
    mi_row("add"@, Seq::empty(), 0x81, 0, Size::U32, Size::U32)
}

/// The row of `sub_r16_r16`.
pub open spec fn sub_r16_r16_row() -> Descriptor {
    rm_row("sub"@, Seq::empty(), 0x2B, Size::U16, Size::U16)
}

/// The row of `sub_r32_r32`.
pub open spec fn sub_r32_r32_row() -> Descriptor {
    rm_row("sub"@, Seq::empty(), 0x2B, Size::U32, Size::U32)
}

/// The row of `sub_r16_i16`.
pub open spec fn sub_r16_i16_row() -> Descriptor {
    mi_row("sub"@, Seq::empty(), 0x81, 5, Size::U16, Size::U16)
}

/// The row of `sub_r32_i32`.
pub open spec fn sub_r32_i32_row() -> Descriptor {
    mi_row("sub"@, Seq::empty(), 0x81, 5, Size::U32, Size::U32)
}

/// The row of `mul_r8`.
pub open spec fn mul_r8_row() -> Descriptor {
    m_row("mul"@, Seq::empty(), 0xF6, 4, Size::U8)
}

/// The row of `mul_r16`.
pub open spec fn mul_r16_row() -> Descriptor {
    m_row("mul"@, Seq::empty(), 0xF7, 4, Size::U16)
}

/// The row of `mul_r32`.
pub open spec fn mul_r32_row() -> Descriptor {
    m_row("mul"@, Seq::empty(), 0xF7, 4, Size::U32)
}

/// The row of `div_r8`.
pub open spec fn div_r8_row() -> Descriptor {
    m_row("div"@, Seq::empty(), 0xF6, 6, Size::U8)
}

/// The row of `div_r16`.
pub open spec fn div_r16_row() -> Descriptor {
    m_row("div"@, Seq::empty(), 0xF7, 6, Size::U16)
}

/// The row of `div_r32`.
pub open spec fn div_r32_row() -> Descriptor {
    m_row("div"@, Seq::empty(), 0xF7, 6, Size::U32)
}

/// The row of `cmp_r16_r16`.
pub open spec fn cmp_r16_r16_row() -> Descriptor {
    rm_row("cmp"@, Seq::empty(), 0x3B, Size::U16, Size::U16)
}

/// The row of `cmp_r32_r32`.
pub open spec fn cmp_r32_r32_row() -> Descriptor {
    rm_row("cmp"@, Seq::empty(), 0x3B, Size::U32, Size::U32)
}

/// The row of `cmp_r8_i8`.
pub open spec fn cmp_r8_i8_row() -> Descriptor {
    mi_row("cmp"@, Seq::empty(), 0x80, 7, Size::U8, Size::U8)
}

/// The row of `cmp_r16_i16`.
pub open spec fn cmp_r16_i16_row() -> Descriptor {
    mi_row("cmp"@, Seq::empty(), 0x81, 7, Size::U16, Size::U16)
}

/// The row of `cmp_r32_i32`.
pub open spec fn cmp_r32_i32_row() -> Descriptor {
    mi_row("cmp"@, Seq::empty(), 0x81, 7, Size::U32, Size::U32)
}

/// The row of `callnrd_i16`.
pub open spec fn callnrd_i16_row() -> Descriptor {
    i_row("callnrd"@, Seq::empty(), seq![0xE8u8], Size::U16)
}

/// The row of `callnrd_i32`.
pub open spec fn callnrd_i32_row() -> Descriptor {
    i_row("callnrd"@, Seq::empty(), seq![0xE8u8], Size::U32)
}

/// The row of `callnai_r16`.
pub open spec fn callnai_r16_row() -> Descriptor {
    m_row("callnai"@, Seq::empty(), 0xFF, 2, Size::U16)
}

/// The row of `callnai_r32`.
pub open spec fn callnai_r32_row() -> Descriptor {
    m_row("callnai"@, Seq::empty(), 0xFF, 2, Size::U32)
}

/// The row of `mov_r8_r8`.
pub open spec fn mov_r8_r8_row() -> Descriptor {
    rm_row("mov"@, Seq::empty(), 0x8A, Size::U8, Size::U8)
}

/// The row of `mov_r16_r16`.
pub open spec fn mov_r16_r16_row() -> Descriptor {
    rm_row("mov"@, Seq::empty(), 0x8B, Size::U16, Size::U16)
}

/// The row of `mov_r32_r32`.
pub open spec fn mov_r32_r32_row() -> Descriptor {
    rm_row("mov"@, Seq::empty(), 0x8B, Size::U32, Size::U32)
}

/// The row of `mov_r8_i8`.
pub open spec fn mov_r8_i8_row() -> Descriptor {
    oi_row("mov"@, Seq::empty(), 0xB0, Size::U8, Size::U8)
}

/// The row of `mov_r16_i16`.
pub open spec fn mov_r16_i16_row() -> Descriptor {
    oi_row("mov"@, Seq::empty(), 0xB8, Size::U16, Size::U16)
}

/// The row of `mov_r32_i32`.
pub open spec fn mov_r32_i32_row() -> Descriptor {
    oi_row("mov"@, Seq::empty(), 0xB8, Size::U32, Size::U32)
}

/// The row of `into`.
pub open spec fn into_row() -> Descriptor {
    zo_row("into"@, Seq::empty(), seq![0xCEu8])
}

/// The row of `push_r32`.
pub open spec fn push_r32_row() -> Descriptor {
    o_row("push"@, Seq::empty(), seq![0x50u8], Size::U32)
}

/// The row of `pop_r32`.
pub open spec fn pop_r32_row() -> Descriptor {
    o_row("pop"@, Seq::empty(), seq![0x58u8], Size::U32)
}

/// Every row of the x86 tables holds what its shape needs, so the length
/// invariant holds of each.
pub proof fn lemma_rows_well_formed()
    ensures
        not_r8_row().wf(),
        not_r16_row().wf(),
        not_r32_row().wf(),
        xor_r8_r8_row().wf(),
        xor_r16_r16_row().wf(),
        xor_r32_r32_row().wf(),
        xor_r32_i32_row().wf(),
        nop_row().wf(),
        ret_row().wf(),
        leave_row().wf(),
        push_i8_row().wf(),
        push_i16_row().wf(),
        push_i32_row().wf(),
        push_r16_row().wf(),
        pop_r16_row().wf(),
        int_i8_row().wf(),
        int1_row().wf(),
        int3_row().wf(),
        neg_r16_row().wf(),
        neg_r32_row().wf(),
        add_r16_r16_row().wf(),
        add_r32_r32_row().wf(),
        add_r16_i16_row().wf(),
        add_r32_i32_row().wf(),
        sub_r16_r16_row().wf(),
        sub_r32_r32_row().wf(),
        sub_r16_i16_row().wf(),
        sub_r32_i32_row().wf(),
        mul_r8_row().wf(),
        mul_r16_row().wf(),
        mul_r32_row().wf(),
        div_r8_row().wf(),
        div_r16_row().wf(),
        div_r32_row().wf(),
        cmp_r16_r16_row().wf(),
        cmp_r32_r32_row().wf(),
        cmp_r8_i8_row().wf(),
        cmp_r16_i16_row().wf(),
        cmp_r32_i32_row().wf(),
        callnrd_i16_row().wf(),
        callnrd_i32_row().wf(),
        callnai_r16_row().wf(),
        callnai_r32_row().wf(),
        mov_r8_r8_row().wf(),
        mov_r16_r16_row().wf(),
        mov_r32_r32_row().wf(),
        mov_r8_i8_row().wf(),
        mov_r16_i16_row().wf(),
        mov_r32_i32_row().wf(),
        into_row().wf(),
        push_r32_row().wf(),
        pop_r32_row().wf(),
{
}

/// The encoders that are the same in 32-bit and in 64-bit mode, one source
/// text each.
pub open spec fn compatible_rows() -> Seq<Seq<char>> {
    Seq::empty()
        .push(not_r8_row().source())
        .push(not_r16_row().source())
        .push(not_r32_row().source())
        .push(xor_r8_r8_row().source())
        .push(xor_r16_r16_row().source())
        .push(xor_r32_r32_row().source())
        .push(xor_r32_i32_row().source())
        .push(nop_row().source())
        .push(ret_row().source())
        .push(leave_row().source())
        .push(push_i8_row().source())
        .push(push_i16_row().source())
        .push(push_i32_row().source())
        .push(push_r16_row().source())
        .push(pop_r16_row().source())
        .push(int_i8_row().source())
        .push(int1_row().source())
        .push(int3_row().source())
        .push(neg_r16_row().source())
        .push(neg_r32_row().source())
        .push(add_r16_r16_row().source())
        .push(add_r32_r32_row().source())
        .push(add_r16_i16_row().source())
        .push(add_r32_i32_row().source())
        .push(sub_r16_r16_row().source())
        .push(sub_r32_r32_row().source())
        .push(sub_r16_i16_row().source())
        .push(sub_r32_i32_row().source())
        .push(mul_r8_row().source())
        .push(mul_r16_row().source())
        .push(mul_r32_row().source())
        .push(div_r8_row().source())
        .push(div_r16_row().source())
        .push(div_r32_row().source())
        .push(cmp_r16_r16_row().source())
        .push(cmp_r32_r32_row().source())
        .push(cmp_r8_i8_row().source())
        .push(cmp_r16_i16_row().source())
        .push(cmp_r32_i32_row().source())
        .push(callnrd_i16_row().source())
        .push(callnrd_i32_row().source())
        .push(callnai_r16_row().source())
        .push(callnai_r32_row().source())
        .push(mov_r8_r8_row().source())
        .push(mov_r16_r16_row().source())
        .push(mov_r32_r32_row().source())
        .push(mov_r8_i8_row().source())
        .push(mov_r16_i16_row().source())
        .push(mov_r32_i32_row().source())
}

/// The encoders that exist in 32-bit mode only, one source text each.
pub open spec fn x86_only_rows() -> Seq<Seq<char>> {
    Seq::empty()
        .push(into_row().source())
        .push(push_r32_row().source())
        .push(pop_r32_row().source())
}

/// The source text of the x86 module: the shared encoders in a module of
/// their own, re-exported, then the encoders of 32-bit mode only.
pub open spec fn x86_source() -> Seq<char> {
    "pub(crate) mod compatible {\n\tpub(crate) use super::prelude::*;\n\t"@ + joined(
        compatible_rows(),
        "\n"@,
    ) + "\n}\n\npub use compatible::*;\n\n"@ + joined(x86_only_rows(), "\n"@) + "\n"@
}

/// Source text of the encoders that are the same in 32-bit and in 64-bit
/// mode, separated by line breaks.
#[verifier::rlimit(60)]
pub fn src_amd64_compatible() -> (out: String)
    ensures
        out@ == joined(compatible_rows(), "\n"@),
{
    let mut rows: Vec<String> = Vec::new();
    proof {
        lemma_prefix_names();
        assert(texts(rows@) =~= Seq::<Seq<char>>::empty());
    }
    push_row(&mut rows, m("not", &no_prefix(), 0xF6, 2, Size::U8));
    push_row(&mut rows, m("not", &no_prefix(), 0xF7, 2, Size::U16));
    push_row(&mut rows, m("not", &no_prefix(), 0xF7, 2, Size::U32));
    push_row(&mut rows, rm("xor", &no_prefix(), 0x32, Size::U8, Size::U8));
    push_row(&mut rows, rm("xor", &no_prefix(), 0x33, Size::U16, Size::U16));
    push_row(&mut rows, rm("xor", &no_prefix(), 0x33, Size::U32, Size::U32));
    push_row(&mut rows, mi("xor", &no_prefix(), 0x81, 6, Size::U32, Size::U32));
    push_row(&mut rows, zo("nop", &no_prefix(), &opcode(0x90)));
    push_row(&mut rows, zo("ret", &no_prefix(), &opcode(0xC3)));
    push_row(&mut rows, zo("leave", &no_prefix(), &opcode(0xC9)));
    push_row(&mut rows, i("push", &no_prefix(), &opcode(0x6A), Size::U8));
    push_row(&mut rows, i("push", &no_prefix(), &opcode(0x68), Size::U16));
    push_row(&mut rows, i("push", &no_prefix(), &opcode(0x68), Size::U32));
    push_row(&mut rows, o("push", &no_prefix(), &opcode(0x50), Size::U16));
    push_row(&mut rows, o("pop", &no_prefix(), &opcode(0x58), Size::U16));
    push_row(&mut rows, i("int", &no_prefix(), &opcode(0xCD), Size::U8));
    push_row(&mut rows, zo("int1", &no_prefix(), &opcode(0xF1)));
    push_row(&mut rows, zo("int3", &no_prefix(), &opcode(0xCC)));
    push_row(&mut rows, m("neg", &no_prefix(), 0xF7, 3, Size::U16));
    push_row(&mut rows, m("neg", &no_prefix(), 0xF7, 3, Size::U32));
    push_row(&mut rows, rm("add", &no_prefix(), 0x03, Size::U16, Size::U16));
    push_row(&mut rows, rm("add", &no_prefix(), 0x03, Size::U32, Size::U32));
    push_row(&mut rows, mi("add", &no_prefix(), 0x81, 0, Size::U16, Size::U16));
    push_row(&mut rows, mi("add", &no_prefix(), 0x81, 0, Size::U32, Size::U32));
    push_row(&mut rows, rm("sub", &no_prefix(), 0x2B, Size::U16, Size::U16));
    push_row(&mut rows, rm("sub", &no_prefix(), 0x2B, Size::U32, Size::U32));
    push_row(&mut rows, mi("sub", &no_prefix(), 0x81, 5, Size::U16, Size::U16));
    push_row(&mut rows, mi("sub", &no_prefix(), 0x81, 5, Size::U32, Size::U32));
    push_row(&mut rows, m("mul", &no_prefix(), 0xF6, 4, Size::U8));
    push_row(&mut rows, m("mul", &no_prefix(), 0xF7, 4, Size::U16));
    push_row(&mut rows, m("mul", &no_prefix(), 0xF7, 4, Size::U32));
    push_row(&mut rows, m("div", &no_prefix(), 0xF6, 6, Size::U8));
    push_row(&mut rows, m("div", &no_prefix(), 0xF7, 6, Size::U16));
    push_row(&mut rows, m("div", &no_prefix(), 0xF7, 6, Size::U32));
    push_row(&mut rows, rm("cmp", &no_prefix(), 0x3B, Size::U16, Size::U16));
    push_row(&mut rows, rm("cmp", &no_prefix(), 0x3B, Size::U32, Size::U32));
    push_row(&mut rows, mi("cmp", &no_prefix(), 0x80, 7, Size::U8, Size::U8));
    push_row(&mut rows, mi("cmp", &no_prefix(), 0x81, 7, Size::U16, Size::U16));
    push_row(&mut rows, mi("cmp", &no_prefix(), 0x81, 7, Size::U32, Size::U32));
    push_row(&mut rows, d("callnrd", &no_prefix(), &opcode(0xE8), Size::U16));
    push_row(&mut rows, d("callnrd", &no_prefix(), &opcode(0xE8), Size::U32));
    push_row(&mut rows, m("callnai", &no_prefix(), 0xFF, 2, Size::U16));
    push_row(&mut rows, m("callnai", &no_prefix(), 0xFF, 2, Size::U32));
    push_row(&mut rows, rm("mov", &no_prefix(), 0x8A, Size::U8, Size::U8));
    push_row(&mut rows, rm("mov", &no_prefix(), 0x8B, Size::U16, Size::U16));
    push_row(&mut rows, rm("mov", &no_prefix(), 0x8B, Size::U32, Size::U32));
    push_row(&mut rows, oi("mov", &no_prefix(), 0xB0, Size::U8, Size::U8));
    push_row(&mut rows, oi("mov", &no_prefix(), 0xB8, Size::U16, Size::U16));
    push_row(&mut rows, oi("mov", &no_prefix(), 0xB8, Size::U32, Size::U32));
    join(&rows, "\n")
}

/// Source text of the encoders that exist in 32-bit mode only, separated by
/// line breaks.
pub fn src_x86_only() -> (out: String)
    ensures
        out@ == joined(x86_only_rows(), "\n"@),
{
    let mut rows: Vec<String> = Vec::new();
    proof {
        lemma_prefix_names();
        assert(texts(rows@) =~= Seq::<Seq<char>>::empty());
    }
    push_row(&mut rows, zo("into", &no_prefix(), &opcode(0xCE)));
    push_row(&mut rows, o("push", &no_prefix(), &opcode(0x50), Size::U32));
    push_row(&mut rows, o("pop", &no_prefix(), &opcode(0x58), Size::U32));
    join(&rows, "\n")
}

/// Source text of the x86 module.
pub fn src() -> (out: String)
    ensures
        out@ == x86_source(),
{
    let amd64_compatible = src_amd64_compatible();
    let x86_only = src_x86_only();
    let mut out = String::from_str("pub(crate) mod compatible {\n\tpub(crate) use super::prelude::*;\n\t");
    out.append(amd64_compatible.as_str());
    out.append("\n}\n\npub use compatible::*;\n\n");
    out.append(x86_only.as_str());
    out.append("\n");
    out
}

} // verus!
