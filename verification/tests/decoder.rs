use mov_decoder::decoder::decode_instruction;
use mov_decoder::decoder::get_bit;
use mov_decoder::decoder::is_basic_mov;
use mov_decoder::decoder::is_register_mode;
use mov_decoder::register::Register;

#[test]
fn get_bit_examples() {
    assert_eq!(get_bit(&0b10000010, 1), 1);
    assert_eq!(get_bit(&0b10000010, 0), 0);
    assert_eq!(get_bit(&0b10000010, 7), 1);
    assert_eq!(get_bit(&0b10000010, 6), 0);
}

#[test]
fn classify_opcode() {
    assert!(is_basic_mov(&0b10001001));
    assert!(is_basic_mov(&0b10001000));
    assert!(is_basic_mov(&0b10001011));
    assert!(!is_basic_mov(&0b00000000));
    assert!(!is_basic_mov(&0b10010001));
    assert!(!is_basic_mov(&0b01111001));
}

#[test]
fn addressing_mode_check() {
    assert!(is_register_mode(&0b11011000));
    assert!(is_register_mode(&0b11000000));
    assert!(!is_register_mode(&0b10000000));
    assert!(!is_register_mode(&0b01011000));
    assert!(!is_register_mode(&0b00011000));
}

#[test]
fn decode_reg_and_rm_fields() {
    // 0xD8 = 0b11011000: reg = 011, rm = 000.
    assert_eq!(Register::decode_reg(&0xD8, &1), Register::BX);
    assert_eq!(Register::decode_rm(&0xD8, &1), Register::AX);
    assert_eq!(Register::decode_reg(&0xD8, &0), Register::BL);
    assert_eq!(Register::decode_rm(&0xD8, &0), Register::AL);
    // 0xC1 = 0b11000001: reg = 000, rm = 001.
    assert_eq!(Register::decode_reg(&0xC1, &0), Register::AL);
    assert_eq!(Register::decode_rm(&0xC1, &0), Register::CL);
}

fn rendered(first_byte: u8, second_byte: u8) -> String {
    assert!(is_basic_mov(&first_byte));
    assert!(is_register_mode(&second_byte));
    let (dst, src) = decode_instruction(&first_byte, &second_byte);
    format!("mov {}, {}", dst.display_name(), src.display_name())
}

#[test]
fn scenario_word_mov_reg_as_source() {
    // 0x89: d = 0, w = 1; 0xD8: reg = BX, rm = AX; d = 0 orders (rm, reg).
    let (dst, src) = decode_instruction(&0x89, &0xD8);
    assert_eq!(dst, Register::AX);
    assert_eq!(src, Register::BX);
    assert_eq!(rendered(0x89, 0xD8), "mov ax, bx");
}

#[test]
fn scenario_word_mov_reg_as_destination() {
    // 0x8B: d = 1, w = 1; 0xD8: reg = BX, rm = AX; d = 1 orders (reg, rm).
    let (dst, src) = decode_instruction(&0x8B, &0xD8);
    assert_eq!(dst, Register::BX);
    assert_eq!(src, Register::AX);
    assert_eq!(rendered(0x8B, 0xD8), "mov bx, ax");
}

#[test]
fn scenario_byte_width_mov() {
    // 0x88: d = 0, w = 0; 0xC1: reg = AL, rm = CL; d = 0 orders (rm, reg).
    let (dst, src) = decode_instruction(&0x88, &0xC1);
    assert_eq!(dst, Register::CL);
    assert_eq!(src, Register::AL);
    assert_eq!(rendered(0x88, 0xC1), "mov cl, al");
}

#[test]
fn unsupported_encodings_are_rejected_by_the_predicates() {
    // A first byte whose top five bits are not the MOV pattern, and a
    // second byte whose top two bits do not select register mode, fail
    // the validation that guards every decode.
    for first in [0x00u8, 0x01, 0x7F, 0x90, 0xC3, 0xFF] {
        assert!(!is_basic_mov(&first));
    }
    for second in [0x00u8, 0x3F, 0x40, 0x80, 0xBF] {
        assert!(!is_register_mode(&second));
    }
}
