//! Decoding of raw 16-bit instruction words.
//!
//! A word is split into fixed bit-fields: the instruction family in bits
//! 15-12, the register operands `x` (bits 11-8) and `y` (bits 7-4), the
//! low nibble `n` (bits 3-0, the sub-operation selector within the
//! arithmetic/logic family), the immediate byte `kk` (bits 7-0), and the
//! 12-bit address `addr` (bits 11-0).

use vstd::prelude::*;

verus! {

/// A decoded instruction word: one variant per operation the engine
/// implements, plus [`Instruction::Unknown`] for every word outside the
/// dispatch table.
#[derive(Clone, Copy, Debug, PartialEq, Eq, Structural)]
pub enum Instruction {
    /// Word `0x0000`: terminate the run loop.
    Halt,
    /// Word `0x00E0`: clear the display; accepted as a no-op since this
    /// engine has no display.
    Clear,
    /// Word `0x00EE`: pop the top of the call stack into the program counter.
    Return,
    /// `0x1nnn`: set the program counter to the 12-bit address.
    Jump(u16),
    /// `0x2nnn`: push the program counter onto the call stack, then jump to
    /// the 12-bit address.
    Call(u16),
    /// `0x3xkk`: skip the next instruction if register `x` equals `kk`.
    SkipEqImm(u8, u8),
    /// `0x4xkk`: skip the next instruction if register `x` differs from `kk`.
    SkipNeqImm(u8, u8),
    /// `0x5xyn`: skip the next instruction if register `x` equals register
    /// `y`. The family is selected by the top nibble alone; the low nibble is
    /// not inspected.
    SkipEqReg(u8, u8),
    /// `0x6xkk`: load `kk` into register `x`.
    LoadImm(u8, u8),
    /// `0x7xkk`: add `kk` into register `x`, wrapping on overflow, without
    /// touching the carry flag register.
    AddImm(u8, u8),
    /// `0x8xy0`: copy register `y` into register `x`.
    LoadReg(u8, u8),
    /// `0x8xy1`: bitwise or of register `y` into register `x`.
    Or(u8, u8),
    /// `0x8xy2`: bitwise and of register `y` into register `x`.
    And(u8, u8),
    /// `0x8xy3`: bitwise xor of register `y` into register `x`.
    Xor(u8, u8),
    /// `0x8xy4`: add register `y` into register `x`, wrapping on 8-bit
    /// overflow; register `0xF` records whether the addition overflowed.
    AddReg(u8, u8),
    /// Any word outside the dispatch table; carries the offending word.
    Unknown(u16),
}

/// The first register operand: bits 11-8 of the word.
pub open spec fn spec_x(word: u16) -> u8 {
    ((word >> 8) & 0xF) as u8
}

/// The second register operand: bits 7-4 of the word.
pub open spec fn spec_y(word: u16) -> u8 {
    ((word >> 4) & 0xF) as u8
}

/// The low nibble, the sub-operation selector: bits 3-0 of the word.
pub open spec fn spec_n(word: u16) -> u16 {
    word & 0xF
}

/// The immediate byte operand: bits 7-0 of the word.
pub open spec fn spec_kk(word: u16) -> u8 {
    (word & 0xFF) as u8
}

/// The immediate 12-bit address operand: bits 11-0 of the word.
pub open spec fn spec_addr(word: u16) -> u16 {
    word & 0xFFF
}

/// The unique instruction a word encodes: the two fixed-literal words first,
/// then the family nibble, then the low nibble within the arithmetic/logic
/// family. Total: every unmatched word decodes to `Unknown`.
pub open spec fn spec_decode(word: u16) -> Instruction {
    if word == 0x0000 {
        Instruction::Halt
    } else if word == 0x00E0 {
        Instruction::Clear
    } else if word == 0x00EE {
        Instruction::Return
    } else {
        let op = word >> 12;
        if op == 0x1 {
            Instruction::Jump(spec_addr(word))
        } else if op == 0x2 {
            Instruction::Call(spec_addr(word))
        } else if op == 0x3 {
            Instruction::SkipEqImm(spec_x(word), spec_kk(word))
        } else if op == 0x4 {
            Instruction::SkipNeqImm(spec_x(word), spec_kk(word))
        } else if op == 0x5 {
            Instruction::SkipEqReg(spec_x(word), spec_y(word))
        } else if op == 0x6 {
            Instruction::LoadImm(spec_x(word), spec_kk(word))
        } else if op == 0x7 {
            Instruction::AddImm(spec_x(word), spec_kk(word))
        } else if op == 0x8 {
            let n = spec_n(word);
            if n == 0 {
                Instruction::LoadReg(spec_x(word), spec_y(word))
            } else if n == 1 {
                Instruction::Or(spec_x(word), spec_y(word))
            } else if n == 2 {
                Instruction::And(spec_x(word), spec_y(word))
            } else if n == 3 {
                Instruction::Xor(spec_x(word), spec_y(word))
            } else if n == 4 {
                Instruction::AddReg(spec_x(word), spec_y(word))
            } else {
                Instruction::Unknown(word)
            }
        } else {
            Instruction::Unknown(word)
        }
    }
}

/// Every register index carried by a decoded instruction is below 16 and
/// every address is at most `0xFFF`: the 4-bit and 12-bit field widths
/// guarantee it by construction.
pub open spec fn decoded_wf(i: Instruction) -> bool {
    match i {
        Instruction::Halt => true,
        Instruction::Clear => true,
        Instruction::Return => true,
        Instruction::Jump(a) => a <= 0xFFF,
        Instruction::Call(a) => a <= 0xFFF,
        Instruction::SkipEqImm(x, _) => x < 16,
        Instruction::SkipNeqImm(x, _) => x < 16,
        Instruction::SkipEqReg(x, y) => x < 16 && y < 16,
        Instruction::LoadImm(x, _) => x < 16,
        Instruction::AddImm(x, _) => x < 16,
        Instruction::LoadReg(x, y) => x < 16 && y < 16,
        Instruction::Or(x, y) => x < 16 && y < 16,
        Instruction::And(x, y) => x < 16 && y < 16,
        Instruction::Xor(x, y) => x < 16 && y < 16,
        Instruction::AddReg(x, y) => x < 16 && y < 16,
        Instruction::Unknown(_) => true,
    }
}

/// Split a raw instruction word into its bit-fields and select the one
/// operation it encodes.
pub fn decode(word: u16) -> (r: Instruction)
    ensures
        r == spec_decode(word),
        decoded_wf(r),
{
    proof {
        assert((word >> 8) & 0xF < 16) by (bit_vector);
        assert((word >> 4) & 0xF < 16) by (bit_vector);
        assert(word & 0xFF < 256) by (bit_vector);
        assert(word & 0xFFF <= 0xFFF) by (bit_vector);
    }
    let x: u8 = ((word >> 8) & 0xF) as u8;
    let y: u8 = ((word >> 4) & 0xF) as u8;
    let n: u16 = word & 0xF;
    let kk: u8 = (word & 0xFF) as u8;
    let addr: u16 = word & 0xFFF;
    if word == 0x0000 {
        Instruction::Halt
    } else if word == 0x00E0 {
        Instruction::Clear
    } else if word == 0x00EE {
        Instruction::Return
    } else {
        let op: u16 = word >> 12;
        if op == 0x1 {
            Instruction::Jump(addr)
        } else if op == 0x2 {
            Instruction::Call(addr)
        } else if op == 0x3 {
            Instruction::SkipEqImm(x, kk)
        } else if op == 0x4 {
            Instruction::SkipNeqImm(x, kk)
        } else if op == 0x5 {
            Instruction::SkipEqReg(x, y)
        } else if op == 0x6 {
            Instruction::LoadImm(x, kk)
        } else if op == 0x7 {
            Instruction::AddImm(x, kk)
        } else if op == 0x8 {
            if n == 0 {
                Instruction::LoadReg(x, y)
            } else if n == 1 {
                Instruction::Or(x, y)
            } else if n == 2 {
                Instruction::And(x, y)
            } else if n == 3 {
                Instruction::Xor(x, y)
            } else if n == 4 {
                Instruction::AddReg(x, y)
            } else {
                Instruction::Unknown(word)
            }
        } else {
            Instruction::Unknown(word)
        }
    }
}

} // verus!
