use dasm::tier::raw::rv32;

const X0: u8 = 0;
const RA: u8 = 1;
const SP: u8 = 2;
const T0: u8 = 5;
const T1: u8 = 6;
const A0: u8 = 10;

#[test]
fn rv32_load_add_return() {
    let code = [rv32::li(A0, 0), rv32::addi(A0, A0, 55), rv32::ret()];
    assert_eq!(code, [0x0000_0513, 0x0375_0513, 0x0000_8067]);
}

#[test]
fn rv32_register_register_words() {
    assert_eq!(rv32::add(1, 2, 3), 0x0031_00B3);
    assert_eq!(rv32::sub(1, 2, 3), 0x4031_00B3);
    assert_eq!(rv32::sll(1, 2, 3), 0x0031_10B3);
    assert_eq!(rv32::slt(1, 2, 3), 0x0031_20B3);
    assert_eq!(rv32::sltu(1, 2, 3), 0x0031_30B3);
    assert_eq!(rv32::xor(1, 2, 3), 0x0031_40B3);
    assert_eq!(rv32::srl(1, 2, 3), 0x0031_50B3);
    assert_eq!(rv32::sra(1, 2, 3), 0x4031_50B3);
    assert_eq!(rv32::or(1, 2, 3), 0x0031_60B3);
    assert_eq!(rv32::and(1, 2, 3), 0x0031_70B3);
    assert_eq!(rv32::add(31, 31, 31), 0x01FF_8FB3);
}

#[test]
fn rv32_register_immediate_words() {
    assert_eq!(rv32::lb(T0, SP, 4), 0x0041_0283);
    assert_eq!(rv32::lh(T0, SP, 4), 0x0041_1283);
    assert_eq!(rv32::lw(T0, SP, 4), 0x0041_2283);
    assert_eq!(rv32::lbu(T0, SP, 4), 0x0041_4283);
    assert_eq!(rv32::lhu(T0, SP, 4), 0x0041_5283);
    assert_eq!(rv32::addi(A0, A0, 55), 0x0375_0513);
    assert_eq!(rv32::addi(SP, SP, 0xFF0), 0xFF01_0113);
    assert_eq!(rv32::slti(T0, T1, 1), 0x0013_2293);
    assert_eq!(rv32::sltiu(T0, T1, 1), 0x0013_3293);
    assert_eq!(rv32::xori(T0, T1, 1), 0x0013_4293);
    assert_eq!(rv32::ori(T0, T1, 1), 0x0013_6293);
    assert_eq!(rv32::andi(T0, T1, 1), 0x0013_7293);
    assert_eq!(rv32::slli(T0, T1, 12), 0x00C3_1293);
    assert_eq!(rv32::srli(T0, T1, 12), 0x00C3_5293);
    assert_eq!(rv32::srai(T0, T1, 12), 0x40C3_5293);
    assert_eq!(rv32::srai(T0, T1, 3), 0x4033_5293);
    assert_eq!(rv32::srai(T0, T1, 0x400 | 12), 0x40C3_5293);
    assert_eq!(rv32::srai(T0, T1, 32 + 3), rv32::srai(T0, T1, 3));
    assert_eq!(rv32::jalr(RA, T0, 0), 0x0002_80E7);
}

#[test]
fn rv32_store_words() {
    assert_eq!(rv32::sw(SP, T0, 8), 0x0051_2423);
    assert_eq!(rv32::sh(SP, T0, 8), 0x0051_1423);
    assert_eq!(rv32::sb(SP, T0, 8), 0x0051_0423);
    assert_eq!(rv32::sw(SP, RA, 0x7FC), 0x7E11_2E23);
    assert_eq!(rv32::sw(SP, RA, 0xFFC), 0xFE11_2E23);
}

#[test]
fn rv32_branch_words() {
    assert_eq!(rv32::beq(RA, SP, 16), 0x0020_8863);
    assert_eq!(rv32::bne(RA, SP, 16), 0x0020_9863);
    assert_eq!(rv32::blt(RA, SP, 16), 0x0020_C863);
    assert_eq!(rv32::bge(RA, SP, 16), 0x0020_D863);
    assert_eq!(rv32::bltu(RA, SP, 16), 0x0020_E863);
    assert_eq!(rv32::bgeu(RA, SP, 16), 0x0020_F863);
    assert_eq!(rv32::beq(X0, X0, 0x1FFC), 0xFE00_0EE3);
    assert_eq!(rv32::beq(X0, X0, 0x0800), 0x0000_00E3);
    assert_eq!(rv32::beq(X0, X0, 17), rv32::beq(X0, X0, 16));
}

#[test]
fn rv32_upper_immediate_and_jump_words() {
    assert_eq!(rv32::lui(T0, 0x12345), 0x1234_52B7);
    assert_eq!(rv32::lui(T0, 0xFFF1_2345), 0x1234_52B7);
    assert_eq!(rv32::auipc(T0, 0x1234_5000), 0x1234_5297);
    assert_eq!(rv32::auipc(T0, 0x1234_5FFF), 0x1234_5297);
    assert_eq!(rv32::jal(RA, 2048), 0x0010_00EF);
    assert_eq!(rv32::jal(RA, 8), 0x0080_00EF);
    assert_eq!(rv32::jal(X0, 0xFFFF_FFFC), 0xFFDF_F06F);
    assert_eq!(rv32::jal(X0, 0x000F_F000), 0x000F_F06F);
}

#[test]
fn rv32_registers_count_by_their_low_five_bits() {
    assert_eq!(rv32::add(33, 34, 35), rv32::add(1, 2, 3));
    assert_eq!(rv32::addi(32 + 10, 64 + 10, 55), rv32::addi(10, 10, 55));
    assert_eq!(rv32::sw(34, 37, 8), rv32::sw(2, 5, 8));
    assert_eq!(rv32::lui(32 + 5, 0x12345), rv32::lui(5, 0x12345));
    assert_eq!(rv32::addi(1, 1, 0xF001), rv32::addi(1, 1, 1));
}

#[test]
fn rv32_formats_take_their_constants() {
    assert_eq!(rv32::r_format(0b0100000, 0b101, 0b0110011, 1, 2, 3), rv32::sra(1, 2, 3));
    assert_eq!(rv32::i_format(0b000, 0b0010011, 10, 10, 55), 0x0375_0513);
    assert_eq!(rv32::s_format(0b010, 0b0100011, 2, 5, 8), 0x0051_2423);
    assert_eq!(rv32::b_format(0b000, 0b1100011, 1, 2, 16), 0x0020_8863);
    assert_eq!(rv32::u_format(0b0010111, 5, 0x1234_5000), 0x1234_5297);
    assert_eq!(rv32::j_format(0b1101111, 1, 2048), 0x0010_00EF);
    assert_eq!(rv32::r_format(127, 7, 127, 31, 31, 31), 0xFFFF_FFFF);
}

#[test]
fn rv32_pseudo_instructions() {
    assert_eq!(rv32::nop(), 0x0000_0013);
    assert_eq!(rv32::li(A0, 0), 0x0000_0513);
    assert_eq!(rv32::li(A0, 0x7FF), 0x7FF0_0513);
    assert_eq!(rv32::mv(T0, T1), 0x0003_0293);
    assert_eq!(rv32::not(T0, T1), 0xFFF3_4293);
    assert_eq!(rv32::neg(T0, T1), 0x4060_02B3);
    assert_eq!(rv32::seqz(T0, T1), 0x0013_3293);
    assert_eq!(rv32::snez(T0, T1), 0x0060_32B3);
    assert_eq!(rv32::sltz(T0, T1), 0x0003_22B3);
    assert_eq!(rv32::sgtz(T0, T1), 0x0060_22B3);
    assert_eq!(rv32::beqz(T0, 8), 0x0002_8463);
    assert_eq!(rv32::bnez(T0, 8), 0x0002_9463);
    assert_eq!(rv32::j(8), 0x0080_006F);
    assert_eq!(rv32::j(0xFFFF_FFFC), 0xFFDF_F06F);
    assert_eq!(rv32::jr(T0), 0x0002_8067);
    assert_eq!(rv32::ret(), 0x0000_8067);
    assert_eq!(rv32::ecall(), 0x0000_0073);
    assert_eq!(rv32::ebreak(), 0x0010_0073);
}

#[test]
fn rv32_li_32_words() {
    assert_eq!(rv32::li_32(A0, 0), [0x0000_0537, 0x0005_0513]);
    assert_eq!(rv32::li_32(A0, 0x1234_5678), [0x1234_5537, 0x6785_0513]);
    assert_eq!(rv32::li_32(A0, 0x1234_5FFF), [0x1234_6537, 0xFFF5_0513]);
    assert_eq!(rv32::li_32(A0, 0x0000_0800), [0x0000_1537, 0x8005_0513]);
    assert_eq!(rv32::li_32(A0, 0xFFFF_FFFF), [0x0000_0537, 0xFFF5_0513]);
    assert_eq!(rv32::li_32(A0, 0x7FFF_F800), [0x8000_0537, 0x8005_0513]);
}

fn run_upper_then_addi(first: u32, second: u32, start: u32) -> u32 {
    let upper = start.wrapping_add(first & 0xFFFF_F000);
    let immediate = ((second as i32) >> 20) as u32;
    upper.wrapping_add(immediate)
}

#[test]
fn rv32_li_32_loads_the_constant() {
    for imm in [
        0u32,
        1,
        0x7FF,
        0x800,
        0xFFF,
        0x1000,
        0x1234_5678,
        0x1234_5FFF,
        0x7FFF_F800,
        0x8000_0000,
        0xFFFF_F7FF,
        0xFFFF_F800,
        0xFFFF_FFFF,
    ] {
        let [first, second] = rv32::li_32(A0, imm);
        assert_eq!(first & 0x7F, 0b0110111);
        assert_eq!(second & 0x707F, 0b0010011);
        assert_eq!((first >> 7) & 31, 10);
        assert_eq!((second >> 7) & 31, 10);
        assert_eq!((second >> 15) & 31, 10);
        assert_eq!(run_upper_then_addi(first, second, 0), imm);
    }
}

#[test]
fn rv32_la_loads_the_address() {
    assert_eq!(rv32::la(A0, 0x1234_5678), [0x1234_5517, 0x6785_0513]);
    assert_eq!(rv32::la(A0, 0x0000_0FFC), [0x0000_1517, 0xFFC5_0513]);
    for (pc, label) in [
        (0u32, 0u32),
        (0x8000_0000, 0x10),
        (0x8000_0000, 0x800),
        (0x8000_1000, 0xFFFF_FFFC),
        (0x0040_0000, 0x1234_5FFF),
        (0xFFFF_F000, 0x0000_2000),
    ] {
        let [first, second] = rv32::la(A0, label);
        assert_eq!(first & 0x7F, 0b0010111);
        assert_eq!(second & 0x707F, 0b0010011);
        assert_eq!(run_upper_then_addi(first, second, pc), pc.wrapping_add(label));
    }
}

#[test]
fn rv32_li_64_words() {
    assert_eq!(
        rv32::li_64(A0, 0x1234_5678_9ABC_DEF0),
        [
            0x1234_5537,
            0x6795_0513,
            0x00C5_1513,
            0x9AC5_0513,
            0x00C5_1513,
            0xCDE5_0513,
            0x0085_1513,
            0x0F05_0513,
        ]
    );
    assert_eq!(
        rv32::li_64(A0, 0x100),
        [
            rv32::lui(A0, 0),
            rv32::addi(A0, A0, 0),
            rv32::slli(A0, A0, 12),
            rv32::addi(A0, A0, 0),
            rv32::slli(A0, A0, 12),
            rv32::addi(A0, A0, 1),
            rv32::slli(A0, A0, 8),
            rv32::addi(A0, A0, 0),
        ]
    );
    assert_eq!(
        rv32::li_64(T0, u64::MAX),
        [
            0x0000_02B7,
            0x0002_8293,
            0x00C2_9293,
            0x0002_8293,
            0x00C2_9293,
            0xFFF2_8293,
            0x0082_9293,
            0x0FF2_8293,
        ]
    );
}

fn run_on_wide_registers(words: [u32; 8]) -> u64 {
    let mut register = 0u64;
    for word in words {
        let immediate = ((word as i32) >> 20) as i64 as u64;
        if word & 0x7F == 0b0110111 {
            register = (word & 0xFFFF_F000) as i32 as i64 as u64;
        } else if (word >> 12) & 7 == 0 {
            register = register.wrapping_add(immediate);
        } else {
            register <<= (word >> 20) & 0x3F;
        }
    }
    register
}

#[test]
fn rv32_li_64_loads_the_constant() {
    let mut constants = vec![
        0u64,
        1,
        0xFF,
        0x100,
        0x7FF,
        0x800,
        0xFFF,
        0x8_0000,
        0x7FFF_F800,
        0x8000_0000,
        0xFFFF_FFFF,
        0x0000_0000_FFFF_F800,
        0x1234_5678_9ABC_DEF0,
        0x7FFF_FFFF_FFFF_FFFF,
        0x8000_0000_0000_0000,
        0xFFFF_FFFF_FFFF_F7FF,
        u64::MAX,
    ];
    let mut next = 0x9E37_79B9_7F4A_7C15u64;
    for _ in 0..1000 {
        next = next.wrapping_mul(6364136223846793005).wrapping_add(1442695040888963407);
        constants.push(next);
    }
    for imm in constants {
        let words = rv32::li_64(A0, imm);
        assert_eq!(words[0] & 0x7F, 0b0110111);
        for (k, word) in words.iter().enumerate() {
            assert_eq!((word >> 7) & 31, 10);
            if k > 0 {
                assert_eq!(word & 0x7F, 0b0010011);
                assert_eq!((word >> 15) & 31, 10);
                assert_eq!((word >> 12) & 7, if k % 2 == 1 { 0 } else { 1 });
            }
        }
        assert_eq!(run_on_wide_registers(words), imm);
    }
}

#[test]
fn rv32_fields_read_back() {
    for rd in 0u8..32 {
        for (rs1, rs2) in [(0u8, 31u8), (31, 0), (rd, 31 - rd), (17, 9)] {
            let word = rv32::sub(rd, rs1, rs2);
            assert_eq!(word & 0x7F, 0b0110011);
            assert_eq!((word >> 7) & 31, rd as u32);
            assert_eq!((word >> 12) & 7, 0);
            assert_eq!((word >> 15) & 31, rs1 as u32);
            assert_eq!((word >> 20) & 31, rs2 as u32);
            assert_eq!(word >> 25, 0b0100000);
        }
    }
    for imm in [0u16, 1, 0x7FF, 0x800, 0xABC, 0xFFF] {
        let word = rv32::addi(3, 4, imm);
        assert_eq!(word >> 20, imm as u32);
        assert_eq!((word >> 7) & 31, 3);
        assert_eq!((word >> 15) & 31, 4);

        let word = rv32::sw(3, 4, imm);
        assert_eq!(((word >> 25) << 5) | ((word >> 7) & 31), imm as u32);
        assert_eq!((word >> 15) & 31, 3);
        assert_eq!((word >> 20) & 31, 4);
    }
    for imm in [0u16, 2, 0x7FE, 0x800, 0x0FFE, 0x1000, 0x1FFE] {
        let word = rv32::bne(3, 4, imm);
        let read = ((word >> 31) << 12)
            | (((word >> 7) & 1) << 11)
            | (((word >> 25) & 0x3F) << 5)
            | (((word >> 8) & 0xF) << 1);
        assert_eq!(read, imm as u32);
    }
    for imm in [0u32, 2, 0x7FE, 0x800, 0xF_F000, 0x10_0000, 0x1F_FFFE] {
        let word = rv32::jal(3, imm);
        let read = ((word >> 31) << 20)
            | (((word >> 12) & 0xFF) << 12)
            | (((word >> 20) & 1) << 11)
            | (((word >> 21) & 0x3FF) << 1);
        assert_eq!(read, imm);
        assert_eq!((word >> 7) & 31, 3);
    }
    for imm in [0u32, 0x1000, 0xFFFF_F000, 0x8000_0000] {
        assert_eq!(rv32::auipc(3, imm) & 0xFFFF_F000, imm);
    }
    for imm in [0u32, 1, 0xF_FFFF, 0x8_0000] {
        assert_eq!(rv32::lui(3, imm) >> 12, imm);
    }
}
