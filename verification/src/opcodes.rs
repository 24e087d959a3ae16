//! Instruction words and their decoding.
//!
//! An instruction is a 16-bit word. Its top nibble selects a family; within
//! a family the low nibble or the low byte may select a sub-operation. The
//! remaining nibbles are operands: a register index `x` (bits 8-11), a
//! register index `y` (bits 4-7), an immediate byte (bits 0-7), a 12-bit
//! address (bits 0-11) or a 4-bit count (bits 0-3).
use crate::chip_eight::ChipEight;
use vstd::prelude::*;

verus! {

const SUB_OPCODE_MASK: u16 = 0x000F;

const SUB_OPCODE_MASK2: u16 = 0x00FF;

const OPCODE_MASK: u16 = 0xF000;

const ADDR_MASK: u16 = 0x0FFF;

const BYTE_MASK: u16 = 0x00FF;

const NIBBLE_MASK: u16 = 0x000F;

const VX_MASK: u16 = 0x0F00;

const VY_MASK: u16 = 0x00F0;

/// A decoded instruction: the operation shape together with its operands.
///
/// Register operands are register indices (0 to 15); nothing is read from
/// the machine while decoding.
#[derive(Clone, Copy, Debug, PartialEq, Eq, Structural)]
pub enum Opcodes {
    /// Family 0: clear the display (sub-code 0x0) or return (sub-code 0xE).
    ClearOrReturn(u16),
    /// Family 1: jump to an address.
    Jump(u16),
    /// Family 2: call the subroutine at an address.
    Call(u16),
    /// Family 3: skip the next instruction if `Vx` equals the byte.
    SkipEqual(usize, u8),
    /// Family 4: skip the next instruction if `Vx` differs from the byte.
    SkipNotEqual(usize, u8),
    /// Family 5: skip the next instruction if `Vx` equals `Vy`.
    SkipEqualVy(usize, usize),
    /// Family 6: load the byte into `Vx`.
    LoadVxK(usize, u8),
    /// Family 7: add the byte to `Vx`, wrapping, without touching the flag.
    AddByte(usize, u8),
    /// Family 8: arithmetic and logic on `Vx` and `Vy`, by sub-code.
    Arithmetic(u16, usize, usize),
    /// Family 9: skip the next instruction if `Vx` differs from `Vy`.
    SkipNotEqualVy(usize, usize),
    /// Family A: load an address into the index register.
    LoadI(u16),
    /// Family B: jump to an address plus `V0`.
    JumpOffset(u16),
    /// Family C: load a random byte, masked by the byte, into `Vx`.
    RandomVxByte(usize, u8),
    /// Family D: draw a sprite of the given height at (`Vx`, `Vy`).
    Draw(usize, usize, u16),
    /// Family E: skip on the state of the key named by `Vx`, by sub-code.
    SkipPressed(usize, u16),
    /// Family F: timers, key wait, index arithmetic, glyph lookup, decimal
    /// digits and block transfers, selected by the low byte.
    Misc(usize, u16),
    /// Any word that matches no known pattern.
    BadOpcode,
}

/// The family of an instruction word: its top nibble.
pub open spec fn family_of(opcode: u16) -> int {
    opcode as int / 4096
}

/// The register index `x` of an instruction word: bits 8 to 11.
pub open spec fn x_of(opcode: u16) -> int {
    (opcode as int / 256) % 16
}

/// The register index `y` of an instruction word: bits 4 to 7.
pub open spec fn y_of(opcode: u16) -> int {
    (opcode as int / 16) % 16
}

/// The low nibble of an instruction word.
pub open spec fn nibble_of(opcode: u16) -> int {
    opcode as int % 16
}

/// The low byte of an instruction word.
pub open spec fn byte_of(opcode: u16) -> int {
    opcode as int % 256
}

/// The 12-bit address of an instruction word.
pub open spec fn address_of(opcode: u16) -> int {
    opcode as int % 4096
}

/// The instruction word made of two consecutive bytes, the first one high.
pub open spec fn word_of(high: u8, low: u8) -> u16 {
    (high as int * 256 + low as int) as u16
}

/// Whether a low nibble selects an operation of the arithmetic family.
pub open spec fn is_arithmetic_sub(sub: int) -> bool {
    0 <= sub <= 7 || sub == 0xE
}

/// Whether a low byte selects an operation of the miscellaneous family.
pub open spec fn is_misc_sub(sub: int) -> bool {
    sub == 0x07 || sub == 0x0A || sub == 0x15 || sub == 0x18 || sub == 0x1E || sub == 0x29
        || sub == 0x33 || sub == 0x55 || sub == 0x65
}

/// Whether an instruction word matches a known pattern.
pub open spec fn is_recognized(opcode: u16) -> bool {
    let family = family_of(opcode);
    let sub = nibble_of(opcode);
    if family == 0x0 {
        sub == 0x0 || sub == 0xE
    } else if family == 0x8 {
        is_arithmetic_sub(sub)
    } else if family == 0xE {
        sub == 0x1 || sub == 0xE
    } else if family == 0xF {
        is_misc_sub(byte_of(opcode))
    } else {
        true
    }
}

/// The decoded form of an instruction word.
pub open spec fn decode_spec(opcode: u16) -> Opcodes {
    let family = family_of(opcode);
    let x = x_of(opcode) as usize;
    let y = y_of(opcode) as usize;
    let sub = nibble_of(opcode) as u16;
    let byte = byte_of(opcode) as u8;
    let address = address_of(opcode) as u16;
    if !is_recognized(opcode) {
        Opcodes::BadOpcode
    } else if family == 0x0 {
        Opcodes::ClearOrReturn(sub)
    } else if family == 0x1 {
        Opcodes::Jump(address)
    } else if family == 0x2 {
        Opcodes::Call(address)
    } else if family == 0x3 {
        Opcodes::SkipEqual(x, byte)
    } else if family == 0x4 {
        Opcodes::SkipNotEqual(x, byte)
    } else if family == 0x5 {
        Opcodes::SkipEqualVy(x, y)
    } else if family == 0x6 {
        Opcodes::LoadVxK(x, byte)
    } else if family == 0x7 {
        Opcodes::AddByte(x, byte)
    } else if family == 0x8 {
        Opcodes::Arithmetic(sub, x, y)
    } else if family == 0x9 {
        Opcodes::SkipNotEqualVy(x, y)
    } else if family == 0xA {
        Opcodes::LoadI(address)
    } else if family == 0xB {
        Opcodes::JumpOffset(address)
    } else if family == 0xC {
        Opcodes::RandomVxByte(x, byte)
    } else if family == 0xD {
        Opcodes::Draw(x, y, sub)
    } else if family == 0xE {
        Opcodes::SkipPressed(x, sub)
    } else {
        Opcodes::Misc(x, byte_of(opcode) as u16)
    }
}

impl Opcodes {
    /// Whether every operand lies in the range that its field of the
    /// instruction word can express, and the sub-code, if any, is known.
    pub open spec fn wf(self) -> bool {
        match self {
            Opcodes::ClearOrReturn(sub) => sub == 0x0 || sub == 0xE,
            Opcodes::Jump(address) => address < 4096,
            Opcodes::Call(address) => address < 4096,
            Opcodes::SkipEqual(x, _) => x < 16,
            Opcodes::SkipNotEqual(x, _) => x < 16,
            Opcodes::SkipEqualVy(x, y) => x < 16 && y < 16,
            Opcodes::LoadVxK(x, _) => x < 16,
            Opcodes::AddByte(x, _) => x < 16,
            Opcodes::Arithmetic(sub, x, y) => is_arithmetic_sub(sub as int) && x < 16 && y < 16,
            Opcodes::SkipNotEqualVy(x, y) => x < 16 && y < 16,
            Opcodes::LoadI(address) => address < 4096,
            Opcodes::JumpOffset(address) => address < 4096,
            Opcodes::RandomVxByte(x, _) => x < 16,
            Opcodes::Draw(x, y, height) => x < 16 && y < 16 && height < 16,
            Opcodes::SkipPressed(x, sub) => x < 16 && (sub == 0x1 || sub == 0xE),
            Opcodes::Misc(x, sub) => x < 16 && is_misc_sub(sub as int),
            Opcodes::BadOpcode => true,
        }
    }
}

/// How the masks and shifts of the decoder read the fields of a word.
proof fn lemma_fields(opcode: u16)
    by (bit_vector)
    ensures
        opcode & 0xF000 == (opcode / 4096) * 4096,
        (opcode & 0x0F00) >> 8 == (opcode / 256) % 16,
        (opcode & 0x00F0) >> 4 == (opcode / 16) % 16,
        opcode & 0x000F == opcode % 16,
        opcode & 0x00FF == opcode % 256,
        opcode & 0x0FFF == opcode % 4096,
{
}

/// Joining two bytes by shift and or gives `word_of`.
proof fn lemma_word(high: u8, low: u8)
    ensures
        ((high as u16) << 8) | (low as u16) == word_of(high, low),
        word_of(high, low) as int == high as int * 256 + low as int,
{
    assert(((high as u16) << 8) | (low as u16) == (high as u16) * 256 + (low as u16))
        by (bit_vector);
}

impl ChipEight {
    /// Returns the register index `x` of an instruction word.
    pub fn vx_mask(opcode: u16) -> (x: usize)
        ensures
            x == x_of(opcode),
            x < 16,
    {
        proof {
            lemma_fields(opcode);
        }
        ((opcode & VX_MASK) >> 8) as usize
    }

    /// Returns the register index `y` of an instruction word.
    pub fn vy_mask(opcode: u16) -> (y: usize)
        ensures
            y == y_of(opcode),
            y < 16,
    {
        proof {
            lemma_fields(opcode);
        }
        ((opcode & VY_MASK) >> 4) as usize
    }
}

/// Joins the two bytes of an instruction, the first one high.
pub fn opcode_word(high: u8, low: u8) -> (opcode: u16)
    ensures
        opcode == word_of(high, low),
        opcode as int == high as int * 256 + low as int,
{
    proof {
        lemma_word(high, low);
    }
    ((high as u16) << 8) | (low as u16)
}

/// Decodes an instruction word into its operation and operands.
///
/// The result depends on the word alone. A word whose family or sub-code is
/// unknown decodes to `BadOpcode`; every other result is well formed.
pub fn decode(opcode: u16) -> (op: Opcodes)
    ensures
        op == decode_spec(opcode),
        op.wf(),
        (op is BadOpcode) == !is_recognized(opcode),
{
    proof {
        lemma_fields(opcode);
    }
    let x: usize = ChipEight::vx_mask(opcode);
    let y: usize = ChipEight::vy_mask(opcode);
    let sub: u16 = opcode & SUB_OPCODE_MASK;
    let byte: u8 = (opcode & BYTE_MASK) as u8;
    let address: u16 = opcode & ADDR_MASK;
    match opcode & OPCODE_MASK {
        0x0000 => {
            if sub == 0x0 || sub == 0xE {
                Opcodes::ClearOrReturn(sub)
            } else {
                Opcodes::BadOpcode
            }
        },
        0x1000 => Opcodes::Jump(address),
        0x2000 => Opcodes::Call(address),
        0x3000 => Opcodes::SkipEqual(x, byte),
        0x4000 => Opcodes::SkipNotEqual(x, byte),
        0x5000 => Opcodes::SkipEqualVy(x, y),
        0x6000 => Opcodes::LoadVxK(x, byte),
        0x7000 => Opcodes::AddByte(x, byte),
        0x8000 => {
            if sub <= 0x7 || sub == 0xE {
                Opcodes::Arithmetic(sub, x, y)
            } else {
                Opcodes::BadOpcode
            }
        },
        0x9000 => Opcodes::SkipNotEqualVy(x, y),
        0xA000 => Opcodes::LoadI(address),
        0xB000 => Opcodes::JumpOffset(address),
        0xC000 => Opcodes::RandomVxByte(x, byte),
        0xD000 => Opcodes::Draw(x, y, opcode & NIBBLE_MASK),
        0xE000 => {
            if sub == 0x1 || sub == 0xE {
                Opcodes::SkipPressed(x, sub)
            } else {
                Opcodes::BadOpcode
            }
        },
        0xF000 => {
            let low: u16 = opcode & SUB_OPCODE_MASK2;
            if low == 0x07 || low == 0x0A || low == 0x15 || low == 0x18 || low == 0x1E
                || low == 0x29 || low == 0x33 || low == 0x55 || low == 0x65 {
                Opcodes::Misc(x, low)
            } else {
                Opcodes::BadOpcode
            }
        },
        _ => Opcodes::BadOpcode,
    }
}

} // verus!
