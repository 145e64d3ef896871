use dasm::mmap::Mmap;
use dasm::tier::raw::amd64;
use dasm::tier::raw::x86;

const RAX: u8 = 0;
const RCX: u8 = 1;
const RDX: u8 = 2;
const RSI: u8 = 6; // Arg #2
const RDI: u8 = 7; // Arg #1

#[test]
fn test_print() {
    let message = b"Hello, world!\n";
    let address = message.as_ptr() as u64;

    let code = [
        &amd64::mov_r64_i64(RDI, 1) as &[u8],
        &amd64::mov_r64_i64(RAX, 1),
        &amd64::mov_r64_i64(RSI, address),
        &amd64::mov_r64_i64(RDX, message.len() as u64),
        &amd64::syscall(),
        &amd64::ret(),
    ]
    .concat();
    let map = Mmap::exec(&code).expect("Failed to mmap");

    assert_eq!(code.len(), 43);
    assert_eq!(&code[..10], &[0x48, 0xBF, 1, 0, 0, 0, 0, 0, 0, 0]);
    assert_eq!(&code[10..20], &[0x48, 0xB8, 1, 0, 0, 0, 0, 0, 0, 0]);
    assert_eq!(&code[20..22], &[0x48, 0xBE]);
    assert_eq!(&code[22..30], &address.to_le_bytes());
    assert_eq!(&code[30..40], &[0x48, 0xBA, 14, 0, 0, 0, 0, 0, 0, 0]);
    assert_eq!(&code[40..], &[0x0F, 0x05, 0xC3]);
    assert_eq!(map.as_ref(), &code[..]);
}

#[test]
fn amd64_test_adder() {
    let code = [
        &amd64::mov_r64_r64(RAX, RDI) as &[u8],
        &amd64::mov_r64_r64(RCX, RSI),
        &amd64::add_r64_r64(RAX, RCX),
        &amd64::ret(),
    ]
    .concat();
    assert_eq!(
        code,
        vec![0x48, 0x8B, 0xC7, 0x48, 0x8B, 0xCE, 0x48, 0x03, 0xC1, 0xC3]
    );

    let adder = Mmap::exec(&code).unwrap();
    assert_eq!(adder.as_ref(), &code[..]);
    assert_ne!(adder.as_ptr(), 0);
}

#[test]
fn mod_test_adder() {
    const RSP: u8 = 6;
    const RBP: u8 = 7;

    let wide = [
        &amd64::mov_r64_r64(RAX, RBP) as &[u8],
        &amd64::mov_r64_r64(RCX, RSP),
        &amd64::add_r64_r64(RAX, RCX),
        &amd64::ret(),
    ]
    .concat();
    assert_eq!(
        wide,
        vec![0x48, 0x8B, 0xC7, 0x48, 0x8B, 0xCE, 0x48, 0x03, 0xC1, 0xC3]
    );
    let adder = Mmap::exec(&wide).unwrap();
    assert_eq!(adder.as_ref(), &wide[..]);

    let narrow = [
        &x86::mov_r32_r32(RAX, RBP) as &[u8],
        &x86::mov_r32_r32(RCX, RSP),
        &x86::add_r32_r32(RAX, RCX),
        &x86::ret(),
    ]
    .concat();
    assert_eq!(narrow, vec![0x8B, 0xC7, 0x8B, 0xCE, 0x03, 0xC1, 0xC3]);
    let adder = Mmap::exec(&narrow).unwrap();
    assert_eq!(adder.as_ref(), &narrow[..]);
}

#[test]
fn amd64_wide_move_of_register_zero_to_itself() {
    assert_eq!(amd64::mov_r64_r64(0, 0), [0x48, 0x8B, 0xC0]);
}

#[test]
fn amd64_prefixes() {
    assert_eq!(amd64::REX, 0x40);
    assert_eq!(amd64::REX_W, 0x48);
    assert_eq!(amd64::COMPAT_16, 0x66);
}

#[test]
fn amd64_register_register_encoders() {
    assert_eq!(amd64::add_r16_r16(0, 1), [0x66, 0x03, 0xC1]);
    assert_eq!(amd64::add_r64_r64(0, 1), [0x48, 0x03, 0xC1]);
    assert_eq!(amd64::sub_r16_r16(1, 0), [0x66, 0x2B, 0xC8]);
    assert_eq!(amd64::sub_r64_r64(1, 0), [0x48, 0x2B, 0xC8]);
    assert_eq!(amd64::mov_r64_r64(1, 6), [0x48, 0x8B, 0xCE]);
    assert_eq!(amd64::or_r64_r64(0, 1), [0x48, 0x0B, 0xC1]);
    assert_eq!(amd64::xor_r64_r64(0, 1), [0x48, 0x33, 0xC1]);
    assert_eq!(amd64::cmp_r64_r64(2, 3), [0x48, 0x3B, 0xD3]);
}

#[test]
fn amd64_immediate_encoders() {
    assert_eq!(amd64::add_r16_i16(0, 22), [0x66, 0x81, 0xC0, 22, 0]);
    assert_eq!(amd64::add_r64_i32(0, 55), [0x48, 0x81, 0xC0, 55, 0, 0, 0]);
    assert_eq!(amd64::sub_r16_i16(0, 0x0102), [0x66, 0x81, 0xE8, 0x02, 0x01]);
    assert_eq!(amd64::sub_r64_i32(1, 1), [0x48, 0x81, 0xE9, 1, 0, 0, 0]);
    assert_eq!(amd64::or_r64_i32(0, 5), [0x48, 0x81, 0xC8, 5, 0, 0, 0]);
    assert_eq!(amd64::xor_r64_i32(0, 52), [0x48, 0x81, 0xF0, 52, 0, 0, 0]);
    assert_eq!(
        amd64::cmp_r64_i32(0, 0x80000000),
        [0x48, 0x81, 0xF8, 0, 0, 0, 0x80]
    );
    assert_eq!(amd64::push_i16(0x1234), [0x66, 0x68, 0x34, 0x12]);
    assert_eq!(
        amd64::mov_r64_i64(1, 0x0102030405060708),
        [0x48, 0xB9, 8, 7, 6, 5, 4, 3, 2, 1]
    );
}

#[test]
fn amd64_single_register_encoders() {
    assert_eq!(amd64::mul_r64(1), [0x48, 0xF7, 0xE1]);
    assert_eq!(amd64::div_r64(1), [0x48, 0xF7, 0xF1]);
    assert_eq!(amd64::not_r64(0), [0x48, 0xF7, 0xD0]);
    assert_eq!(amd64::neg_r64(0), [0x48, 0xF7, 0xD8]);
    assert_eq!(amd64::callnai_r64(0), [0x48, 0xFF, 0xD0]);
    assert_eq!(amd64::pop_r16(0), [0x66, 0x58]);
    assert_eq!(amd64::push_r64(5), [0x55]);
    assert_eq!(amd64::pop_r64(0), [0x58]);
    assert_eq!(amd64::syscall(), [0x0F, 0x05]);
}

#[test]
fn amd64_shares_the_encoders_of_both_modes() {
    assert_eq!(amd64::nop(), x86::nop());
    assert_eq!(amd64::ret(), [0xC3]);
    assert_eq!(amd64::mov_r32_r32(0, 7), x86::mov_r32_r32(0, 7));
    assert_eq!(amd64::push_i32(222), [0x68, 222, 0, 0, 0]);
    assert_eq!(amd64::xor_r32_i32(0, 52), x86::xor_r32_i32(0, 52));
    assert_eq!(amd64::cmp_r8_i8(1, 2), x86::cmp_r8_i8(1, 2));
}

#[test]
fn amd64_move_move_add_return() {
    let code = [
        &amd64::mov_r64_i64(0, 1) as &[u8],
        &amd64::mov_r64_i64(1, 1),
        &amd64::add_r64_r64(0, 1),
        &amd64::ret(),
    ]
    .concat();
    assert_eq!(
        code,
        vec![
            0x48, 0xB8, 1, 0, 0, 0, 0, 0, 0, 0, 0x48, 0xB9, 1, 0, 0, 0, 0, 0, 0, 0, 0x48, 0x03,
            0xC1, 0xC3
        ]
    );
}
