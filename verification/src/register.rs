//! The register model: the sixteen named 8086 registers and the two
//! ModRM lookup tables that resolve a 3-bit field to one of them.

use vstd::prelude::*;

verus! {

/// The sixteen addressable 8086 registers: eight byte-width
/// (AL, CL, DL, BL, AH, CH, DH, BH) and eight word-width
/// (AX, CX, DX, BX, SP, BP, SI, DI).
#[derive(Clone, Copy, Debug, PartialEq, Eq, Structural)]
pub enum Register {
    AL,
    AX,
    CL,
    CX,
    DL,
    DX,
    BL,
    BX,
    AH,
    SP,
    CH,
    BP,
    DH,
    SI,
    BH,
    DI,
}

/// The 8086 ModRM register table: which register a 3-bit field value
/// denotes, for byte width (`w == 0`) and word width (`w == 1`).
/// The ordering (0 -> AL/AX, 1 -> CL/CX, 2 -> DL/DX, 3 -> BL/BX,
/// 4 -> AH/SP, 5 -> CH/BP, 6 -> DH/SI, 7 -> BH/DI) is fixed by the
/// instruction-set encoding and must not be changed.
pub open spec fn spec_decode_value(value: u8, w: u8) -> Register {
    if w == 0 {
        if value == 0 {
            Register::AL
        } else if value == 1 {
            Register::CL
        } else if value == 2 {
            Register::DL
        } else if value == 3 {
            Register::BL
        } else if value == 4 {
            Register::AH
        } else if value == 5 {
            Register::CH
        } else if value == 6 {
            Register::DH
        } else {
            Register::BH
        }
    } else {
        if value == 0 {
            Register::AX
        } else if value == 1 {
            Register::CX
        } else if value == 2 {
            Register::DX
        } else if value == 3 {
            Register::BX
        } else if value == 4 {
            Register::SP
        } else if value == 5 {
            Register::BP
        } else if value == 6 {
            Register::SI
        } else {
            Register::DI
        }
    }
}

/// The canonical lowercase mnemonic of each register, as it appears in
/// assembly listings.
pub open spec fn spec_name(r: Register) -> Seq<char> {
    match r {
        Register::AL => "al"@,
        Register::AX => "ax"@,
        Register::CL => "cl"@,
        Register::CX => "cx"@,
        Register::DL => "dl"@,
        Register::DX => "dx"@,
        Register::BL => "bl"@,
        Register::BX => "bx"@,
        Register::AH => "ah"@,
        Register::SP => "sp"@,
        Register::CH => "ch"@,
        Register::BP => "bp"@,
        Register::DH => "dh"@,
        Register::SI => "si"@,
        Register::BH => "bh"@,
        Register::DI => "di"@,
    }
}

impl Register {
    /// The canonical lowercase mnemonic of this register.
    pub fn display_name(&self) -> (r: String)
        ensures
            r@ == spec_name(*self),
    {
        match *self {
            Register::AL => String::from_str("al"),
            Register::AX => String::from_str("ax"),
            Register::CL => String::from_str("cl"),
            Register::CX => String::from_str("cx"),
            Register::DL => String::from_str("dl"),
            Register::DX => String::from_str("dx"),
            Register::BL => String::from_str("bl"),
            Register::BX => String::from_str("bx"),
            Register::AH => String::from_str("ah"),
            Register::SP => String::from_str("sp"),
            Register::CH => String::from_str("ch"),
            Register::BP => String::from_str("bp"),
            Register::DH => String::from_str("dh"),
            Register::SI => String::from_str("si"),
            Register::BH => String::from_str("bh"),
            Register::DI => String::from_str("di"),
        }
    }

    /// Resolves a 3-bit register field to a register. The width bit
    /// selects the byte-width table (`w == 0`) or the word-width table
    /// (`w == 1`); the caller must already have masked `value` down to
    /// its low three bits.
    pub fn decode_value(value: &u8, w: &u8) -> (r: Register)
        requires
            *value < 8,
            *w == 0 || *w == 1,
        ensures
            r == spec_decode_value(*value, *w),
    {
        match *w {
            0 => match *value {
                0 => Register::AL,
                1 => Register::CL,
                2 => Register::DL,
                3 => Register::BL,
                4 => Register::AH,
                5 => Register::CH,
                6 => Register::DH,
                _ => Register::BH,
            },
            _ => match *value {
                0 => Register::AX,
                1 => Register::CX,
                2 => Register::DX,
                3 => Register::BX,
                4 => Register::SP,
                5 => Register::BP,
                6 => Register::SI,
                _ => Register::DI,
            },
        }
    }
}

/// Within each width class, and across the two classes, the register
/// table is injective: distinct (value, width) pairs resolve to
/// distinct registers.
pub proof fn lemma_decode_value_injective(v1: u8, w1: u8, v2: u8, w2: u8)
    requires
        v1 < 8,
        v2 < 8,
        w1 == 0 || w1 == 1,
        w2 == 0 || w2 == 1,
        v1 != v2 || w1 != w2,
    ensures
        spec_decode_value(v1, w1) != spec_decode_value(v2, w2),
{
}

/// Distinct registers never share a display name: the mnemonic alone
/// identifies the register.
pub proof fn lemma_names_distinct(r1: Register, r2: Register)
    requires
        r1 != r2,
    ensures
        spec_name(r1) != spec_name(r2),
{
    reveal_all_names();
}

/// Every display name is a nonempty all-lowercase ASCII string.
pub proof fn lemma_names_lowercase(r: Register)
    ensures
        spec_name(r).len() > 0,
        forall|i: int|
            0 <= i < spec_name(r).len() ==> 'a' <= #[trigger] spec_name(r)[i] <= 'z',
{
    reveal_all_names();
}

proof fn reveal_all_names()
    ensures
        spec_name(Register::AL) == seq!['a', 'l'],
        spec_name(Register::AX) == seq!['a', 'x'],
        spec_name(Register::CL) == seq!['c', 'l'],
        spec_name(Register::CX) == seq!['c', 'x'],
        spec_name(Register::DL) == seq!['d', 'l'],
        spec_name(Register::DX) == seq!['d', 'x'],
        spec_name(Register::BL) == seq!['b', 'l'],
        spec_name(Register::BX) == seq!['b', 'x'],
        spec_name(Register::AH) == seq!['a', 'h'],
        spec_name(Register::SP) == seq!['s', 'p'],
        spec_name(Register::CH) == seq!['c', 'h'],
        spec_name(Register::BP) == seq!['b', 'p'],
        spec_name(Register::DH) == seq!['d', 'h'],
        spec_name(Register::SI) == seq!['s', 'i'],
        spec_name(Register::BH) == seq!['b', 'h'],
        spec_name(Register::DI) == seq!['d', 'i'],
{
    reveal_strlit("al");
    reveal_strlit("ax");
    reveal_strlit("cl");
    reveal_strlit("cx");
    reveal_strlit("dl");
    reveal_strlit("dx");
    reveal_strlit("bl");
    reveal_strlit("bx");
    reveal_strlit("ah");
    reveal_strlit("sp");
    reveal_strlit("ch");
    reveal_strlit("bp");
    reveal_strlit("dh");
    reveal_strlit("si");
    reveal_strlit("bh");
    reveal_strlit("di");
    assert(spec_name(Register::AL) =~= seq!['a', 'l']);
    assert(spec_name(Register::AX) =~= seq!['a', 'x']);
    assert(spec_name(Register::CL) =~= seq!['c', 'l']);
    assert(spec_name(Register::CX) =~= seq!['c', 'x']);
    assert(spec_name(Register::DL) =~= seq!['d', 'l']);
    assert(spec_name(Register::DX) =~= seq!['d', 'x']);
    assert(spec_name(Register::BL) =~= seq!['b', 'l']);
    assert(spec_name(Register::BX) =~= seq!['b', 'x']);
    assert(spec_name(Register::AH) =~= seq!['a', 'h']);
    assert(spec_name(Register::SP) =~= seq!['s', 'p']);
    assert(spec_name(Register::CH) =~= seq!['c', 'h']);
    assert(spec_name(Register::BP) =~= seq!['b', 'p']);
    assert(spec_name(Register::DH) =~= seq!['d', 'h']);
    assert(spec_name(Register::SI) =~= seq!['s', 'i']);
    assert(spec_name(Register::BH) =~= seq!['b', 'h']);
    assert(spec_name(Register::DI) =~= seq!['d', 'i']);
}

} // verus!
