use dasm::mmap::Mmap;
use dasm::tier::raw::x86;

const EAX: u8 = 0;
const ECX: u8 = 1;
const ESI: u8 = 6;
const EDI: u8 = 7;

#[test]
fn x86_test_adder() {
    let code = [
        &x86::mov_r32_r32(EAX, EDI) as &[u8],
        &x86::mov_r32_r32(ECX, ESI),
        &x86::add_r32_r32(EAX, ECX),
        &x86::ret(),
    ]
    .concat();
    assert_eq!(code, vec![0x8B, 0xC7, 0x8B, 0xCE, 0x03, 0xC1, 0xC3]);

    let adder = Mmap::exec(&code).unwrap();
    assert_eq!(adder.as_ref(), &code[..]);
    assert_ne!(adder.as_ptr(), 0);
}

#[test]
fn x86_zero_operand_encoders() {
    assert_eq!(x86::nop(), [0x90]);
    assert_eq!(x86::ret(), [0xC3]);
    assert_eq!(x86::leave(), [0xC9]);
    assert_eq!(x86::int1(), [0xF1]);
    assert_eq!(x86::int3(), [0xCC]);
    assert_eq!(x86::into(), [0xCE]);
}

#[test]
fn x86_single_register_encoders() {
    assert_eq!(x86::not_r8(3), [0xF6, 0xD3]);
    assert_eq!(x86::not_r16(3), [0xF7, 0xD3]);
    assert_eq!(x86::not_r32(0), [0xF7, 0xD0]);
    assert_eq!(x86::neg_r16(1), [0xF7, 0xD9]);
    assert_eq!(x86::neg_r32(7), [0xF7, 0xDF]);
    assert_eq!(x86::mul_r8(1), [0xF6, 0xE1]);
    assert_eq!(x86::mul_r16(1), [0xF7, 0xE1]);
    assert_eq!(x86::mul_r32(1), [0xF7, 0xE1]);
    assert_eq!(x86::div_r8(1), [0xF6, 0xF1]);
    assert_eq!(x86::div_r16(2), [0xF7, 0xF2]);
    assert_eq!(x86::div_r32(3), [0xF7, 0xF3]);
    assert_eq!(x86::callnai_r16(0), [0xFF, 0xD0]);
    assert_eq!(x86::callnai_r32(2), [0xFF, 0xD2]);
}

#[test]
fn x86_register_register_encoders() {
    assert_eq!(x86::xor_r8_r8(0, 1), [0x32, 0xC1]);
    assert_eq!(x86::xor_r16_r16(1, 0), [0x33, 0xC8]);
    assert_eq!(x86::xor_r32_r32(0, 0), [0x33, 0xC0]);
    assert_eq!(x86::xor_r32_r32(0, 1), [0x33, 0xC1]);
    assert_eq!(x86::add_r16_r16(0, 1), [0x03, 0xC1]);
    assert_eq!(x86::add_r32_r32(3, 2), [0x03, 0xDA]);
    assert_eq!(x86::sub_r16_r16(0, 1), [0x2B, 0xC1]);
    assert_eq!(x86::sub_r32_r32(7, 7), [0x2B, 0xFF]);
    assert_eq!(x86::cmp_r16_r16(0, 1), [0x3B, 0xC1]);
    assert_eq!(x86::cmp_r32_r32(1, 2), [0x3B, 0xCA]);
    assert_eq!(x86::mov_r8_r8(0, 1), [0x8A, 0xC1]);
    assert_eq!(x86::mov_r16_r16(0, 1), [0x8B, 0xC1]);
    assert_eq!(x86::mov_r32_r32(0, 7), [0x8B, 0xC7]);
}

#[test]
fn x86_registers_count_by_their_low_three_bits() {
    assert_eq!(x86::mov_r32_r32(8, 15), x86::mov_r32_r32(0, 7));
    assert_eq!(x86::not_r32(0xFB), x86::not_r32(3));
    assert_eq!(x86::mod_rm(x86::MODRM_DIRECT, 0xFF, 0xFF), 0xFF);
    assert_eq!(x86::mod_rm(x86::MODRM_DIRECT, 0, 0), 0xC0);
    assert_eq!(x86::mod_rm(x86::MODRM_INDIRECT, 2, 5), 0x15);
    assert_eq!(x86::mod_rm(7, 0, 0), 0xC0);
}

#[test]
fn x86_immediate_encoders() {
    assert_eq!(x86::xor_r32_i32(0, 52), [0x81, 0xF0, 52, 0, 0, 0]);
    assert_eq!(x86::add_r16_i16(0, 0x1234), [0x81, 0xC0, 0x34, 0x12]);
    assert_eq!(x86::add_r32_i32(1, 0x12345678), [0x81, 0xC1, 0x78, 0x56, 0x34, 0x12]);
    assert_eq!(x86::sub_r16_i16(2, 1), [0x81, 0xEA, 1, 0]);
    assert_eq!(x86::sub_r32_i32(2, 0xFFFFFFFF), [0x81, 0xEA, 0xFF, 0xFF, 0xFF, 0xFF]);
    assert_eq!(x86::cmp_r8_i8(1, 0x7F), [0x80, 0xF9, 0x7F]);
    assert_eq!(x86::cmp_r16_i16(1, 0xABCD), [0x81, 0xF9, 0xCD, 0xAB]);
    assert_eq!(x86::cmp_r32_i32(0, 1), [0x81, 0xF8, 1, 0, 0, 0]);
    assert_eq!(x86::push_i8(0x7F), [0x6A, 0x7F]);
    assert_eq!(x86::push_i8(5), [0x6A, 0x05]);
    assert_eq!(x86::push_i16(0x1234), [0x68, 0x34, 0x12]);
    assert_eq!(x86::push_i32(222), [0x68, 222, 0, 0, 0]);
    assert_eq!(x86::int_i8(0x80), [0xCD, 0x80]);
    assert_eq!(x86::callnrd_i16(0x0102), [0xE8, 0x02, 0x01]);
    assert_eq!(x86::callnrd_i32(0x01020304), [0xE8, 0x04, 0x03, 0x02, 0x01]);
}

#[test]
fn x86_register_in_opcode_encoders() {
    assert_eq!(x86::mov_r8_i8(0, 0x11), [0xB0, 0x11]);
    assert_eq!(x86::mov_r8_i8(7, 0x11), [0xB7, 0x11]);
    assert_eq!(x86::mov_r16_i16(1, 0x2211), [0xB9, 0x11, 0x22]);
    assert_eq!(x86::mov_r32_i32(0, 11), [0xB8, 11, 0, 0, 0]);
    assert_eq!(x86::mov_r32_i32(7, 0xDEADBEEF), [0xBF, 0xEF, 0xBE, 0xAD, 0xDE]);
    assert_eq!(x86::push_r16(0), [0x50]);
    assert_eq!(x86::push_r32(5), [0x55]);
    assert_eq!(x86::pop_r16(7), [0x5F]);
    assert_eq!(x86::pop_r32(0), [0x58]);
}

#[test]
fn x86_move_move_add_return() {
    let code = [
        &x86::mov_r32_i32(0, 11) as &[u8],
        &x86::mov_r32_i32(1, 22),
        &x86::add_r32_r32(0, 1),
        &x86::ret(),
    ]
    .concat();
    assert_eq!(
        code,
        vec![0xB8, 11, 0, 0, 0, 0xB9, 22, 0, 0, 0, 0x03, 0xC1, 0xC3]
    );
}
