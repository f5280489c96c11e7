//! The instruction decoder: opcode classification, control-bit and
//! bitfield extraction, and resolution of the two register operands of
//! a register-to-register MOV.

use vstd::prelude::*;

use crate::register::Register;
use crate::register::spec_decode_value;

verus! {

/// The bit of `byte` at `position`, counted from the low end.
pub open spec fn spec_get_bit(byte: u8, position: u8) -> u8 {
    (byte >> position) & 1
}

/// Whether the top five bits of an opcode byte are the fixed pattern
/// of the register/memory to/from register MOV.
pub open spec fn spec_is_basic_mov(byte: u8) -> bool {
    byte >> 3 == 0b10001
}

/// Whether the top two bits of a ModRM byte select register-to-register
/// addressing (no memory operand).
pub open spec fn spec_is_register_mode(byte: u8) -> bool {
    byte >> 6 == 0b11
}

/// The 3-bit `reg` field of a ModRM byte (bits 5-3).
pub open spec fn spec_reg_field(byte: u8) -> u8 {
    (byte >> 3) & 0b111
}

/// The 3-bit `rm` field of a ModRM byte (bits 2-0).
pub open spec fn spec_rm_field(byte: u8) -> u8 {
    byte & 0b111
}

/// Extracts the bit of `byte` at `position`, counted from the low end.
pub fn get_bit(byte: &u8, position: u8) -> (r: u8)
    requires
        position < 8,
    ensures
        r == spec_get_bit(*byte, position),
        r == 0 || r == 1,
{
    proof {
        assert((*byte >> position) & 1 == 0 || (*byte >> position) & 1 == 1) by (bit_vector);
    }
    (*byte >> position) & 1
}

/// Classifies an opcode byte: true exactly when its top five bits are
/// the register/memory to/from register MOV pattern.
pub fn is_basic_mov(byte: &u8) -> (r: bool)
    ensures
        r == spec_is_basic_mov(*byte),
{
    proof {
        assert(((*byte >> 3) ^ 0b10001) == 0 <==> *byte >> 3 == 0b10001) by (bit_vector);
    }
    ((*byte >> 3) ^ 0b10001) == 0
}

/// Checks a ModRM byte's addressing mode: true exactly when its top
/// two bits select register-to-register addressing.
pub fn is_register_mode(byte: &u8) -> (r: bool)
    ensures
        r == spec_is_register_mode(*byte),
{
    proof {
        assert(((*byte >> 6) ^ 0b11) == 0 <==> *byte >> 6 == 0b11) by (bit_vector);
    }
    ((*byte >> 6) ^ 0b11) == 0
}

impl Register {
    /// Resolves the `reg` field (bits 5-3) of a ModRM byte at the given
    /// width.
    pub fn decode_reg(byte: &u8, w: &u8) -> (r: Self)
        requires
            *w == 0 || *w == 1,
        ensures
            r == spec_decode_value(spec_reg_field(*byte), *w),
    {
        let reg_value: u8 = (*byte >> 3) & 0b111;
        proof {
            assert((*byte >> 3) & 0b111 < 8) by (bit_vector);
        }
        Self::decode_value(&reg_value, w)
    }

    /// Resolves the `rm` field (bits 2-0) of a ModRM byte at the given
    /// width.
    pub fn decode_rm(byte: &u8, w: &u8) -> (r: Self)
        requires
            *w == 0 || *w == 1,
        ensures
            r == spec_decode_value(spec_rm_field(*byte), *w),
    {
        let reg_value: u8 = *byte & 0b111;
        proof {
            assert(*byte & 0b111 < 8) by (bit_vector);
        }
        Self::decode_value(&reg_value, w)
    }
}

/// The operand pair of a register-to-register MOV, destination first:
/// the `reg` and `rm` fields resolved at the width the opcode byte
/// selects, ordered by its direction bit (direction 1 means the `reg`
/// field names the destination).
pub open spec fn spec_decode_instruction(first_byte: u8, second_byte: u8) -> (Register, Register) {
    let d = spec_get_bit(first_byte, 1);
    let w = spec_get_bit(first_byte, 0);
    let reg = spec_decode_value(spec_reg_field(second_byte), w);
    let rm = spec_decode_value(spec_rm_field(second_byte), w);
    if d == 1 {
        (reg, rm)
    } else {
        (rm, reg)
    }
}

/// Decodes a register-to-register MOV from its two encoding bytes,
/// returning the operand pair destination first. The caller must
/// already have validated the opcode class and the addressing mode;
/// handing in any other encoding is a contract violation, not a
/// runtime error.
pub fn decode_instruction(first_byte: &u8, second_byte: &u8) -> (r: (Register, Register))
    requires
        spec_is_basic_mov(*first_byte),
        spec_is_register_mode(*second_byte),
    ensures
        r == spec_decode_instruction(*first_byte, *second_byte),
{
    let d: u8 = get_bit(first_byte, 1);
    let w: u8 = get_bit(first_byte, 0);
    let reg: Register = Register::decode_reg(second_byte, &w);
    let rm: Register = Register::decode_rm(second_byte, &w);
    if d == 1 {
        (reg, rm)
    } else {
        (rm, reg)
    }
}

} // verus!
