use dasm::catalog::amd64;
use dasm::catalog::text::{format_decimal, format_hex_byte, join};
use dasm::catalog::util::{d, i, m, mi, no_prefix, o, oi, opcode, opcodes, prefix, rm, unpack, zo, Size};
use dasm::catalog::x86;

#[test]
fn size_bytes_and_suffix() {
    assert_eq!(Size::U64.bytes(), 8);
    assert_eq!(Size::U32.bytes(), 4);
    assert_eq!(Size::U16.bytes(), 2);
    assert_eq!(Size::U8.bytes(), 1);
    assert_eq!(Size::U64.to_string(), "64");
    assert_eq!(Size::U32.to_string(), "32");
    assert_eq!(Size::U16.to_string(), "16");
    assert_eq!(Size::U8.to_string(), "8");
}

#[test]
fn numbers_in_text() {
    assert_eq!(format_decimal(0), "0");
    assert_eq!(format_decimal(9), "9");
    assert_eq!(format_decimal(10), "10");
    assert_eq!(format_decimal(255), "255");
    assert_eq!(format_decimal(1_234_567_890), "1234567890");
    assert_eq!(format_hex_byte(0x00), "00");
    assert_eq!(format_hex_byte(0x0A), "0A");
    assert_eq!(format_hex_byte(0x9F), "9F");
    assert_eq!(format_hex_byte(0xFF), "FF");
}

#[test]
fn joined_texts() {
    let none: Vec<String> = Vec::new();
    assert_eq!(join(&none, ", "), "");
    assert_eq!(join(&vec!["a".to_string()], ", "), "a");
    assert_eq!(
        join(&vec!["a".to_string(), "b".to_string(), "c".to_string()], ", "),
        "a, b, c"
    );
    assert_eq!(join(&vec!["".to_string(), "".to_string()], "\n"), "\n");
}

#[test]
fn unpack_names_the_bytes() {
    assert_eq!(unpack(0), "");
    assert_eq!(unpack(1), "b[0]");
    assert_eq!(unpack(2), "b[0], b[1]");
    assert_eq!(unpack(4), "b[0], b[1], b[2], b[3]");
    assert_eq!(
        unpack(8),
        "b[0], b[1], b[2], b[3], b[4], b[5], b[6], b[7]"
    );
    assert!(unpack(11).ends_with("b[9], b[10]"));
}

#[test]
fn opcode_plus_immediate_source() {
    assert_eq!(
        oi("mov", &[], 0xB0, Size::U8, Size::U8),
        "#[inline]\npub const fn mov_r8_i8(dst: u8, src: u8) -> [u8; 2] {\n\tlet b = src.to_le_bytes();\n\t[0xB0 + dst, b[0]]\n}\n"
    );
    assert_eq!(
        oi("mov", &["REX_W"], 0xB8, Size::U64, Size::U64),
        "#[inline]\npub const fn mov_r64_i64(dst: u8, src: u64) -> [u8; 10] {\n\tlet b = src.to_le_bytes();\n\t[REX_W, 0xB8 + dst, b[0], b[1], b[2], b[3], b[4], b[5], b[6], b[7]]\n}\n"
    );
}

#[test]
fn modrm_plus_immediate_source() {
    assert_eq!(
        mi("add", &[], 0x81, 0, Size::U32, Size::U32),
        "#[inline]\npub const fn add_r32_i32(dst: u8, src: u32) -> [u8; 6] {\n\tlet b = src.to_le_bytes();\n\t[0x81, mod_rm(MODRM_DIRECT, 0, dst), b[0], b[1], b[2], b[3]]\n}\n"
    );
    assert_eq!(
        mi("cmp", &["REX_W"], 0x81, 7, Size::U64, Size::U32),
        "#[inline]\npub const fn cmp_r64_i32(dst: u8, src: u32) -> [u8; 7] {\n\tlet b = src.to_le_bytes();\n\t[REX_W, 0x81, mod_rm(MODRM_DIRECT, 7, dst), b[0], b[1], b[2], b[3]]\n}\n"
    );
}

#[test]
fn register_register_source() {
    assert_eq!(
        rm("xor", &[], 0x32, Size::U8, Size::U8),
        "#[inline]\npub const fn xor_r8_r8(dst: u8, src: u8) -> [u8; 2] {\n\t[0x32, mod_rm(MODRM_DIRECT, dst, src)]\n}\n"
    );
    assert_eq!(
        rm("add", &["COMPAT_16"], 0x03, Size::U16, Size::U16),
        "#[inline]\npub const fn add_r16_r16(dst: u8, src: u8) -> [u8; 3] {\n\t[COMPAT_16, 0x03, mod_rm(MODRM_DIRECT, dst, src)]\n}\n"
    );
}

#[test]
fn single_register_source() {
    assert_eq!(
        m("not", &[], 0xF6, 2, Size::U8),
        "#[inline]\npub const fn not_r8(dst: u8) -> [u8; 2] {\n\t[0xF6, mod_rm(MODRM_DIRECT, 2, dst)]\n}\n"
    );
    assert_eq!(
        m("neg", &["REX_W"], 0xF7, 3, Size::U64),
        "#[inline]\npub const fn neg_r64(dst: u8) -> [u8; 3] {\n\t[REX_W, 0xF7, mod_rm(MODRM_DIRECT, 3, dst)]\n}\n"
    );
}

#[test]
fn zero_operand_source() {
    assert_eq!(
        zo("nop", &[], &[0x90]),
        "#[inline]\npub const fn nop() -> [u8; 1] {\n\t[0x90]\n}\n"
    );
    assert_eq!(
        zo("syscall", &[], &[0x0F, 0x05]),
        "#[inline]\npub const fn syscall() -> [u8; 2] {\n\t[0x0F, 0x05]\n}\n"
    );
}

#[test]
fn immediate_only_source() {
    assert_eq!(
        i("push", &[], &[0x68], Size::U32),
        "#[inline]\npub const fn push_i32(src: u32) -> [u8; 5] {\n\tlet b = src.to_le_bytes();\n\t[0x68, b[0], b[1], b[2], b[3]]\n}\n"
    );
    assert_eq!(
        i("push", &["COMPAT_16"], &[0x68], Size::U16),
        "#[inline]\npub const fn push_i16(src: u16) -> [u8; 4] {\n\tlet b = src.to_le_bytes();\n\t[COMPAT_16, 0x68, b[0], b[1]]\n}\n"
    );
    assert_eq!(
        d("callnrd", &[], &[0xE8], Size::U16),
        i("callnrd", &[], &[0xE8], Size::U16)
    );
    assert_eq!(
        d("callnrd", &[], &[0xE8], Size::U32),
        "#[inline]\npub const fn callnrd_i32(src: u32) -> [u8; 5] {\n\tlet b = src.to_le_bytes();\n\t[0xE8, b[0], b[1], b[2], b[3]]\n}\n"
    );
}

#[test]
fn register_in_opcode_source() {
    assert_eq!(
        o("push", &[], &[0x50], Size::U64),
        "#[inline]\npub const fn push_r64(dst: u8) -> [u8; 1] {\n\t[0x50 + dst]\n}\n"
    );
    assert_eq!(
        o("pop", &["COMPAT_16"], &[0x58], Size::U16),
        "#[inline]\npub const fn pop_r16(dst: u8) -> [u8; 2] {\n\t[COMPAT_16, 0x58 + dst]\n}\n"
    );
    assert_eq!(
        o("bswap", &[], &[0x0F, 0xC8], Size::U32),
        "#[inline]\npub const fn bswap_r32(dst: u8) -> [u8; 2] {\n\t[0x0F, 0xC8 + dst]\n}\n"
    );
}

#[test]
fn lists_of_prefixes_and_opcodes() {
    assert_eq!(no_prefix().len(), 0);
    assert_eq!(prefix("REX_W"), ["REX_W"]);
    assert_eq!(opcode(0x90), [0x90]);
    assert_eq!(opcodes(0x0F, 0x05), [0x0F, 0x05]);
    assert_eq!(
        zo("syscall", &no_prefix(), &opcodes(0x0F, 0x05)),
        zo("syscall", &[], &[0x0F, 0x05])
    );
    assert_eq!(
        m("neg", &prefix("REX_W"), 0xF7, 3, Size::U64),
        m("neg", &["REX_W"], 0xF7, 3, Size::U64)
    );
}

fn declared_and_listed(source: &str) -> (usize, usize) {
    let after = source.split("-> [u8; ").nth(1).unwrap();
    let declared: usize = after.split(']').next().unwrap().parse().unwrap();
    let body = source.lines().rev().nth(1).unwrap();
    let inner = body.trim().trim_start_matches('[').trim_end_matches(']');
    let mut listed = 0;
    let mut depth = 0;
    for c in inner.chars() {
        match c {
            '(' => depth += 1,
            ')' => depth -= 1,
            ',' if depth == 0 => listed += 1,
            _ => {}
        }
    }
    (declared, listed + 1)
}

#[test]
fn declared_length_is_the_number_of_bytes_listed() {
    let prefixes: [&[&str]; 3] = [&[], &["REX_W"], &["COMPAT_16", "REX_W"]];
    let sizes = [Size::U8, Size::U16, Size::U32, Size::U64];
    for p in prefixes {
        for size in sizes {
            let width = size.bytes() as usize;
            let source = oi("mov", p, 0xB8, size, size);
            assert_eq!(declared_and_listed(&source), (p.len() + 1 + width, p.len() + 1 + width));
            let source = mi("add", p, 0x81, 0, size, size);
            assert_eq!(declared_and_listed(&source), (p.len() + 2 + width, p.len() + 2 + width));
            let source = rm("add", p, 0x03, size, size);
            assert_eq!(declared_and_listed(&source), (p.len() + 2, p.len() + 2));
            let source = m("not", p, 0xF7, 2, size);
            assert_eq!(declared_and_listed(&source), (p.len() + 2, p.len() + 2));
            let source = zo("syscall", p, &[0x0F, 0x05]);
            assert_eq!(declared_and_listed(&source), (p.len() + 2, p.len() + 2));
            let source = i("push", p, &[0x68], size);
            assert_eq!(declared_and_listed(&source), (p.len() + 1 + width, p.len() + 1 + width));
            let source = o("pop", p, &[0x58], size);
            assert_eq!(declared_and_listed(&source), (p.len() + 1, p.len() + 1));
        }
    }
}

#[test]
fn every_row_declares_what_it_lists() {
    let all = [
        x86::src_amd64_compatible(),
        x86::src_x86_only(),
        amd64::src(),
    ];
    let mut rows = 0;
    for table in &all {
        for row in table.split("#[inline]\n").skip(1) {
            let source = format!("#[inline]\n{}", row.trim_end_matches('\n'));
            let source = format!("{}\n", source);
            let (declared, listed) = declared_and_listed(&source);
            assert_eq!(declared, listed);
            rows += 1;
        }
    }
    assert_eq!(rows, 49 + 3 + 26);
}

#[test]
fn shared_table() {
    let text = x86::src_amd64_compatible();
    assert_eq!(text.matches("pub const fn ").count(), 49);
    assert!(text.starts_with(
        "#[inline]\npub const fn not_r8(dst: u8) -> [u8; 2] {\n\t[0xF6, mod_rm(MODRM_DIRECT, 2, dst)]\n}\n\n#[inline]\npub const fn not_r16(dst: u8)"
    ));
    assert!(text.ends_with(
        "#[inline]\npub const fn mov_r32_i32(dst: u8, src: u32) -> [u8; 5] {\n\tlet b = src.to_le_bytes();\n\t[0xB8 + dst, b[0], b[1], b[2], b[3]]\n}\n"
    ));
    assert!(text.contains("pub const fn cmp_r8_i8(dst: u8, src: u8) -> [u8; 3]"));
    assert!(text.contains("pub const fn callnrd_i16(src: u16) -> [u8; 3]"));
    assert!(text.contains(
        "pub const fn push_i8(src: u8) -> [u8; 2] {\n\tlet b = src.to_le_bytes();\n\t[0x6A, b[0]]\n}\n"
    ));
    assert!(text.contains(
        "pub const fn xor_r8_r8(dst: u8, src: u8) -> [u8; 2] {\n\t[0x32, mod_rm(MODRM_DIRECT, dst, src)]\n}\n"
    ));
    assert!(text.contains(
        "pub const fn xor_r32_r32(dst: u8, src: u8) -> [u8; 2] {\n\t[0x33, mod_rm(MODRM_DIRECT, dst, src)]\n}\n"
    ));
    assert!(!text.contains("into"));
}

#[test]
fn x86_only_table() {
    assert_eq!(
        x86::src_x86_only(),
        "#[inline]\npub const fn into() -> [u8; 1] {\n\t[0xCE]\n}\n\n#[inline]\npub const fn push_r32(dst: u8) -> [u8; 1] {\n\t[0x50 + dst]\n}\n\n#[inline]\npub const fn pop_r32(dst: u8) -> [u8; 1] {\n\t[0x58 + dst]\n}\n"
    );
}

#[test]
fn x86_module_source() {
    let text = x86::src();
    let expected = format!(
        "pub(crate) mod compatible {{\n\tpub(crate) use super::prelude::*;\n\t{}\n}}\n\npub use compatible::*;\n\n{}\n",
        x86::src_amd64_compatible(),
        x86::src_x86_only()
    );
    assert_eq!(text, expected);
    assert_eq!(text.matches("pub const fn ").count(), 52);
}

#[test]
fn amd64_table() {
    let text = amd64::src();
    assert_eq!(amd64::COMPAT_16, "COMPAT_16");
    assert_eq!(amd64::REX_W, "REX_W");
    assert_eq!(text.matches("pub const fn ").count(), 26);
    assert!(text.starts_with(
        "#[inline]\npub const fn add_r16_r16(dst: u8, src: u8) -> [u8; 3] {\n\t[COMPAT_16, 0x03, mod_rm(MODRM_DIRECT, dst, src)]\n}\n\n#[inline]\npub const fn add_r64_r64(dst: u8, src: u8) -> [u8; 3] {\n\t[REX_W, 0x03, mod_rm(MODRM_DIRECT, dst, src)]\n}\n"
    ));
    assert!(text.ends_with(
        "#[inline]\npub const fn syscall() -> [u8; 2] {\n\t[0x0F, 0x05]\n}\n"
    ));
    assert!(text.contains("[REX_W, 0x0B, mod_rm(MODRM_DIRECT, dst, src)]"));
    assert!(text.contains("[REX_W, 0x33, mod_rm(MODRM_DIRECT, dst, src)]"));
    assert!(text.contains(
        "pub const fn mov_r64_i64(dst: u8, src: u64) -> [u8; 10] {\n\tlet b = src.to_le_bytes();\n\t[REX_W, 0xB8 + dst, b[0], b[1], b[2], b[3], b[4], b[5], b[6], b[7]]\n}\n"
    ));
}

#[test]
fn names_keep_widths_apart() {
    let text = format!("{}\n{}\n{}", x86::src_amd64_compatible(), x86::src_x86_only(), amd64::src());
    let mut names: Vec<&str> = text
        .split("pub const fn ")
        .skip(1)
        .map(|rest| rest.split('(').next().unwrap())
        .collect();
    assert_eq!(names.len(), 78);
    let shared: Vec<&str> = names[..52].to_vec();
    let mut sorted = shared.clone();
    sorted.sort();
    sorted.dedup();
    assert_eq!(sorted.len(), 52);
    let mut wide: Vec<&str> = names.split_off(52);
    wide.sort();
    wide.dedup();
    assert_eq!(wide.len(), 26);
}
