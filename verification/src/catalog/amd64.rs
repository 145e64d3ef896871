use vstd::prelude::*;
use crate::catalog::text::{join, joined, push_row, texts};
use crate::catalog::util::{
    i, i_row, lemma_prefix_names, m, m_row, mi, mi_row, no_prefix, o, o_row, oi, oi_row, opcode,
    opcodes, prefix, rm, rm_row, zo, zo_row, Descriptor, Prefix, Size,
};
pub use crate::catalog::util::{COMPAT_16, REX_W};

verus! {

/// The row of `add_r16_r16`.
pub open spec fn add_r16_r16_row() -> Descriptor {
    rm_row("add"@, seq![Prefix::Compat16], 0x03, Size::U16, Size::U16)
}

/// The row of `add_r64_r64`.
pub open spec fn add_r64_r64_row() -> Descriptor {
    rm_row("add"@, seq![Prefix::RexW], 0x03, Size::U64, Size::U64)
}

/// The row of `add_r16_i16`.
pub open spec fn add_r16_i16_row() -> Descriptor {
    mi_row("add"@, seq![Prefix::Compat16], 0x81, 0, Size::U16, Size::U16)
}

/// The row of `add_r64_i32`.
pub open spec fn add_r64_i32_row() -> Descriptor {
    mi_row("add"@, seq![Prefix::RexW], 0x81, 0, Size::U64, Size::U32)
}

/// The row of `sub_r16_r16`.
pub open spec fn sub_r16_r16_row() -> Descriptor {
    rm_row("sub"@, seq![Prefix::Compat16], 0x2B, Size::U16, Size::U16)
}

/// The row of `sub_r64_r64`.
pub open spec fn sub_r64_r64_row() -> Descriptor {
    rm_row("sub"@, seq![Prefix::RexW], 0x2B, Size::U64, Size::U64)
}

/// The row of `sub_r16_i16`.
pub open spec fn sub_r16_i16_row() -> Descriptor {
    mi_row("sub"@, seq![Prefix::Compat16], 0x81, 5, Size::U16, Size::U16)
}

/// The row of `sub_r64_i32`.
pub open spec fn sub_r64_i32_row() -> Descriptor {
    mi_row("sub"@, seq![Prefix::RexW], 0x81, 5, Size::U64, Size::U32)
}

/// The row of `mul_r64`.
pub open spec fn mul_r64_row() -> Descriptor {
    m_row("mul"@, seq![Prefix::RexW], 0xF7, 4, Size::U64)
}

/// The row of `div_r64`.
pub open spec fn div_r64_row() -> Descriptor {
    m_row("div"@, seq![Prefix::RexW], 0xF7, 6, Size::U64)
}

/// The row of `mov_r64_r64`.
pub open spec fn mov_r64_r64_row() -> Descriptor {
    rm_row("mov"@, seq![Prefix::RexW], 0x8B, Size::U64, Size::U64)
}

/// The row of `mov_r64_i64`.
pub open spec fn mov_r64_i64_row() -> Descriptor {
    oi_row("mov"@, seq![Prefix::RexW], 0xB8, Size::U64, Size::U64)
}

/// The row of `push_i16`.
pub open spec fn push_i16_row() -> Descriptor {
    i_row("push"@, seq![Prefix::Compat16], seq![0x68u8], Size::U16)
}

/// The row of `pop_r16`.
pub open spec fn pop_r16_row() -> Descriptor {
    o_row("pop"@, seq![Prefix::Compat16], seq![0x58u8], Size::U16)
}

/// The row of `or_r64_r64`.
pub open spec fn or_r64_r64_row() -> Descriptor {
    rm_row("or"@, seq![Prefix::RexW], 0x0B, Size::U64, Size::U64)
}

/// The row of `or_r64_i32`.
pub open spec fn or_r64_i32_row() -> Descriptor {
    mi_row("or"@, seq![Prefix::RexW], 0x81, 1, Size::U64, Size::U32)
}

/// The row of `xor_r64_r64`.
pub open spec fn xor_r64_r64_row() -> Descriptor {
    rm_row("xor"@, seq![Prefix::RexW], 0x33, Size::U64, Size::U64)
}

/// The row of `xor_r64_i32`.
pub open spec fn xor_r64_i32_row() -> Descriptor {
    mi_row("xor"@, seq![Prefix::RexW], 0x81, 6, Size::U64, Size::U32)
}

/// The row of `not_r64`.
pub open spec fn not_r64_row() -> Descriptor {
    m_row("not"@, seq![Prefix::RexW], 0xF7, 2, Size::U64)
}

/// The row of `neg_r64`.
pub open spec fn neg_r64_row() -> Descriptor {
    m_row("neg"@, seq![Prefix::RexW], 0xF7, 3, Size::U64)
}

/// The row of `cmp_r64_r64`.
pub open spec fn cmp_r64_r64_row() -> Descriptor {
    rm_row("cmp"@, seq![Prefix::RexW], 0x3B, Size::U64, Size::U64)
}

/// The row of `cmp_r64_i32`.
pub open spec fn cmp_r64_i32_row() -> Descriptor {
    mi_row("cmp"@, seq![Prefix::RexW], 0x81, 7, Size::U64, Size::U32)
}

/// The row of `callnai_r64`.
pub open spec fn callnai_r64_row() -> Descriptor {
    m_row("callnai"@, seq![Prefix::RexW], 0xFF, 2, Size::U64)
}

/// The row of `push_r64`.
pub open spec fn push_r64_row() -> Descriptor {
    o_row("push"@, Seq::empty(), seq![0x50u8], Size::U64)
}

/// The row of `pop_r64`.
pub open spec fn pop_r64_row() -> Descriptor {
    o_row("pop"@, Seq::empty(), seq![0x58u8], Size::U64)
}

/// The row of `syscall`.
pub open spec fn syscall_row() -> Descriptor {
    zo_row("syscall"@, Seq::empty(), seq![0x0Fu8, 0x05u8])
}

/// Every row of the amd64 table holds what its shape needs, so the length
/// invariant holds of each.
pub proof fn lemma_rows_well_formed()
    ensures
        add_r16_r16_row().wf(),
        add_r64_r64_row().wf(),
        add_r16_i16_row().wf(),
        add_r64_i32_row().wf(),
        sub_r16_r16_row().wf(),
        sub_r64_r64_row().wf(),
        sub_r16_i16_row().wf(),
        sub_r64_i32_row().wf(),
        mul_r64_row().wf(),
        div_r64_row().wf(),
        mov_r64_r64_row().wf(),
        mov_r64_i64_row().wf(),
        push_i16_row().wf(),
        pop_r16_row().wf(),
        or_r64_r64_row().wf(),
        or_r64_i32_row().wf(),
        xor_r64_r64_row().wf(),
        xor_r64_i32_row().wf(),
        not_r64_row().wf(),
        neg_r64_row().wf(),
        cmp_r64_r64_row().wf(),
        cmp_r64_i32_row().wf(),
        callnai_r64_row().wf(),
        push_r64_row().wf(),
        pop_r64_row().wf(),
        syscall_row().wf(),
{
}

/// The encoders that 64-bit mode adds or replaces, one source text each.
pub open spec fn amd64_rows() -> Seq<Seq<char>> {
    Seq::empty()
        .push(add_r16_r16_row().source())
        .push(add_r64_r64_row().source())
        .push(add_r16_i16_row().source())
        .push(add_r64_i32_row().source())
        .push(sub_r16_r16_row().source())
        .push(sub_r64_r64_row().source())
        .push(sub_r16_i16_row().source())
        .push(sub_r64_i32_row().source())
        .push(mul_r64_row().source())
        .push(div_r64_row().source())
        .push(mov_r64_r64_row().source())
        .push(mov_r64_i64_row().source())
        .push(push_i16_row().source())
        .push(pop_r16_row().source())
        .push(or_r64_r64_row().source())
        .push(or_r64_i32_row().source())
        .push(xor_r64_r64_row().source())
        .push(xor_r64_i32_row().source())
        .push(not_r64_row().source())
        .push(neg_r64_row().source())
        .push(cmp_r64_r64_row().source())
        .push(cmp_r64_i32_row().source())
        .push(callnai_r64_row().source())
        .push(push_r64_row().source())
        .push(pop_r64_row().source())
        .push(syscall_row().source())
}

/// Source text of the encoders that 64-bit mode adds or replaces,
/// separated by line breaks.
pub fn src() -> (out: String)
    ensures
        out@ == joined(amd64_rows(), "\n"@),
{
    let mut rows: Vec<String> = Vec::new();
    proof {
        lemma_prefix_names();
        assert(texts(rows@) =~= Seq::<Seq<char>>::empty());
    }
    push_row(&mut rows, rm("add", &prefix(COMPAT_16), 0x03, Size::U16, Size::U16));
    push_row(&mut rows, rm("add", &prefix(REX_W), 0x03, Size::U64, Size::U64));
    push_row(&mut rows, mi("add", &prefix(COMPAT_16), 0x81, 0, Size::U16, Size::U16));
    push_row(&mut rows, mi("add", &prefix(REX_W), 0x81, 0, Size::U64, Size::U32));
    push_row(&mut rows, rm("sub", &prefix(COMPAT_16), 0x2B, Size::U16, Size::U16));
    push_row(&mut rows, rm("sub", &prefix(REX_W), 0x2B, Size::U64, Size::U64));
    push_row(&mut rows, mi("sub", &prefix(COMPAT_16), 0x81, 5, Size::U16, Size::U16));
    push_row(&mut rows, mi("sub", &prefix(REX_W), 0x81, 5, Size::U64, Size::U32));
    push_row(&mut rows, m("mul", &prefix(REX_W), 0xF7, 4, Size::U64));
    push_row(&mut rows, m("div", &prefix(REX_W), 0xF7, 6, Size::U64));
    push_row(&mut rows, rm("mov", &prefix(REX_W), 0x8B, Size::U64, Size::U64));
    push_row(&mut rows, oi("mov", &prefix(REX_W), 0xB8, Size::U64, Size::U64));
    push_row(&mut rows, i("push", &prefix(COMPAT_16), &opcode(0x68), Size::U16));
    push_row(&mut rows, o("pop", &prefix(COMPAT_16), &opcode(0x58), Size::U16));
    push_row(&mut rows, rm("or", &prefix(REX_W), 0x0B, Size::U64, Size::U64));
    push_row(&mut rows, mi("or", &prefix(REX_W), 0x81, 1, Size::U64, Size::U32));
    push_row(&mut rows, rm("xor", &prefix(REX_W), 0x33, Size::U64, Size::U64));
    push_row(&mut rows, mi("xor", &prefix(REX_W), 0x81, 6, Size::U64, Size::U32));
    push_row(&mut rows, m("not", &prefix(REX_W), 0xF7, 2, Size::U64));
    push_row(&mut rows, m("neg", &prefix(REX_W), 0xF7, 3, Size::U64));
    push_row(&mut rows, rm("cmp", &prefix(REX_W), 0x3B, Size::U64, Size::U64));
    push_row(&mut rows, mi("cmp", &prefix(REX_W), 0x81, 7, Size::U64, Size::U32));
    push_row(&mut rows, m("callnai", &prefix(REX_W), 0xFF, 2, Size::U64));
    push_row(&mut rows, o("push", &no_prefix(), &opcode(0x50), Size::U64));
    push_row(&mut rows, o("pop", &no_prefix(), &opcode(0x58), Size::U64));
    push_row(&mut rows, zo("syscall", &no_prefix(), &opcodes(0x0F, 0x05)));
    join(&rows, "\n")
}

} // verus!
