use vstd::prelude::*;

verus! {

/// One decoded instruction. `x` and `y` are register indices, `addr` is a
/// 12-bit address, `value` an 8-bit immediate.
#[derive(Clone, Copy, Debug, PartialEq, Eq, Structural)]
pub enum Instruction {
    /// `00E0`: blank the display.
    ClearDisplay,
    /// `00EE`: return from a subroutine.
    Return,
    /// `1NNN`: jump to `addr`.
    Jump { addr: u16 },
    /// `2NNN`: call the subroutine at `addr`.
    Call { addr: u16 },
    /// `3XNN`: skip the next instruction where register `x` equals `value`.
    SkipIfEqualImmediate { x: usize, value: u8 },
    /// `4XNN`: skip the next instruction where register `x` differs from `value`.
    SkipIfNotEqualImmediate { x: usize, value: u8 },
    /// `5XY0`: skip the next instruction where registers `x` and `y` are equal.
    SkipIfEqual { x: usize, y: usize },
    /// `6XNN`: set register `x` to `value`.
    LoadImmediate { x: usize, value: u8 },
    /// `7XNN`: add `value` to register `x`, wrapping, without touching the flag.
    AddImmediate { x: usize, value: u8 },
    /// `8XY0`: copy register `y` into register `x`.
    Copy { x: usize, y: usize },
    /// `8XY1`: bitwise or of register `y` into register `x`.
    Or { x: usize, y: usize },
    /// `8XY2`: bitwise and of register `y` into register `x`.
    And { x: usize, y: usize },
    /// `8XY3`: bitwise exclusive or of register `y` into register `x`.
    Xor { x: usize, y: usize },
    /// `8XY4`: add register `y` to register `x`; the flag is the carry.
    AddWithCarry { x: usize, y: usize },
    /// `8XY5`: register `x` minus register `y` into `x`; the flag is 1 without borrow.
    Subtract { x: usize, y: usize },
    /// `8XY6`: shift register `x` right by one; the flag is the dropped bit.
    ShiftRight { x: usize },
    /// `8XY7`: register `y` minus register `x` into `x`; the flag is 1 without borrow.
    SubtractReversed { x: usize, y: usize },
    /// `8XYE`: shift register `x` left by one; the flag is the dropped bit.
    ShiftLeft { x: usize },
    /// `9XY0`: skip the next instruction where registers `x` and `y` differ.
    SkipIfNotEqual { x: usize, y: usize },
    /// `ANNN`: set the index register to `addr`.
    SetIndex { addr: u16 },
    /// `BNNN`: jump to `addr` plus register 0.
    JumpWithOffset { addr: u16 },
    /// `CXNN`: set register `x` to a random byte masked with `value`.
    Random { x: usize, value: u8 },
    /// `DXYN`: draw a sprite of `rows` rows at the position held in registers `x` and `y`.
    Draw { x: usize, y: usize, rows: u8 },
    /// `EX9E`: skip the next instruction where the key named by register `x` is down.
    SkipIfKeyPressed { x: usize },
    /// `EXA1`: skip the next instruction where the key named by register `x` is up.
    SkipIfKeyNotPressed { x: usize },
    /// `FX07`: copy the delay timer into register `x`.
    ReadDelayTimer { x: usize },
    /// `FX0A`: wait until a key is down and store its index in register `x`.
    WaitForKey { x: usize },
    /// `FX15`: copy register `x` into the delay timer.
    SetDelayTimer { x: usize },
    /// `FX18`: copy register `x` into the sound timer.
    SetSoundTimer { x: usize },
    /// `FX1E`: add register `x` to the index register, wrapping.
    AddToIndex { x: usize },
    /// `FX29`: point the index register at the glyph for register `x`.
    SetIndexToGlyph { x: usize },
    /// `FX33`: store the three decimal digits of register `x` at the index register.
    StoreDecimal { x: usize },
    /// `FX55`: store registers 0 to `x` at the index register.
    StoreRegisters { x: usize },
    /// `FX65`: load registers 0 to `x` from the index register.
    LoadRegisters { x: usize },
}

impl Instruction {
    /// Every register index is below 16, every address below 4096 and a
    /// sprite has at most 15 rows.
    pub open spec fn wf(self) -> bool {
        match self {
            Instruction::ClearDisplay | Instruction::Return => true,
            Instruction::Jump { addr }
            | Instruction::Call { addr }
            | Instruction::SetIndex { addr }
            | Instruction::JumpWithOffset { addr } => addr < 4096,
            Instruction::SkipIfEqualImmediate { x, .. }
            | Instruction::SkipIfNotEqualImmediate { x, .. }
            | Instruction::LoadImmediate { x, .. }
            | Instruction::AddImmediate { x, .. }
            | Instruction::Random { x, .. }
            | Instruction::ShiftRight { x }
            | Instruction::ShiftLeft { x }
            | Instruction::SkipIfKeyPressed { x }
            | Instruction::SkipIfKeyNotPressed { x }
            | Instruction::ReadDelayTimer { x }
            | Instruction::WaitForKey { x }
            | Instruction::SetDelayTimer { x }
            | Instruction::SetSoundTimer { x }
            | Instruction::AddToIndex { x }
            | Instruction::SetIndexToGlyph { x }
            | Instruction::StoreDecimal { x }
            | Instruction::StoreRegisters { x }
            | Instruction::LoadRegisters { x } => x < 16,
            Instruction::SkipIfEqual { x, y }
            | Instruction::Copy { x, y }
            | Instruction::Or { x, y }
            | Instruction::And { x, y }
            | Instruction::Xor { x, y }
            | Instruction::AddWithCarry { x, y }
            | Instruction::Subtract { x, y }
            | Instruction::SubtractReversed { x, y }
            | Instruction::SkipIfNotEqual { x, y } => x < 16 && y < 16,
            Instruction::Draw { x, y, rows } => x < 16 && y < 16 && rows < 16,
        }
    }
}

/// The four nibbles of an instruction word, the most significant first.
pub open spec fn nibbles(word: u16) -> (u16, u16, u16, u16) {
    (word / 4096, (word / 256) % 16, (word / 16) % 16, word % 16)
}

/// The instruction that a word encodes, or `None` where the word matches no
/// entry of the instruction table.
pub open spec fn decode_spec(word: u16) -> Option<Instruction> {
    let (group, x, y, n) = nibbles(word);
    let x = x as usize;
    let y = y as usize;
    let value = (word % 256) as u8;
    let addr = (word % 4096) as u16;
    if group == 0 {
        if word == 0x00E0 {
            Some(Instruction::ClearDisplay)
        } else if word == 0x00EE {
            Some(Instruction::Return)
        } else {
            None
        }
    } else if group == 1 {
        Some(Instruction::Jump { addr })
    } else if group == 2 {
        Some(Instruction::Call { addr })
    } else if group == 3 {
        Some(Instruction::SkipIfEqualImmediate { x, value })
    } else if group == 4 {
        Some(Instruction::SkipIfNotEqualImmediate { x, value })
    } else if group == 5 {
        if n == 0 {
            Some(Instruction::SkipIfEqual { x, y })
        } else {
            None
        }
    } else if group == 6 {
        Some(Instruction::LoadImmediate { x, value })
    } else if group == 7 {
        Some(Instruction::AddImmediate { x, value })
    } else if group == 8 {
        if n == 0 {
            Some(Instruction::Copy { x, y })
        } else if n == 1 {
            Some(Instruction::Or { x, y })
        } else if n == 2 {
            Some(Instruction::And { x, y })
        } else if n == 3 {
            Some(Instruction::Xor { x, y })
        } else if n == 4 {
            Some(Instruction::AddWithCarry { x, y })
        } else if n == 5 {
            Some(Instruction::Subtract { x, y })
        } else if n == 6 {
            Some(Instruction::ShiftRight { x })
        } else if n == 7 {
            Some(Instruction::SubtractReversed { x, y })
        } else if n == 0xE {
            Some(Instruction::ShiftLeft { x })
        } else {
            None
        }
    } else if group == 9 {
        if n == 0 {
            Some(Instruction::SkipIfNotEqual { x, y })
        } else {
            None
        }
    } else if group == 0xA {
        Some(Instruction::SetIndex { addr })
    } else if group == 0xB {
        Some(Instruction::JumpWithOffset { addr })
    } else if group == 0xC {
        Some(Instruction::Random { x, value })
    } else if group == 0xD {
        Some(Instruction::Draw { x, y, rows: n as u8 })
    } else if group == 0xE {
        if value == 0x9E {
            Some(Instruction::SkipIfKeyPressed { x })
        } else if value == 0xA1 {
            Some(Instruction::SkipIfKeyNotPressed { x })
        } else {
            None
        }
    } else {
        if value == 0x07 {
            Some(Instruction::ReadDelayTimer { x })
        } else if value == 0x0A {
            Some(Instruction::WaitForKey { x })
        } else if value == 0x15 {
            Some(Instruction::SetDelayTimer { x })
        } else if value == 0x18 {
            Some(Instruction::SetSoundTimer { x })
        } else if value == 0x1E {
            Some(Instruction::AddToIndex { x })
        } else if value == 0x29 {
            Some(Instruction::SetIndexToGlyph { x })
        } else if value == 0x33 {
            Some(Instruction::StoreDecimal { x })
        } else if value == 0x55 {
            Some(Instruction::StoreRegisters { x })
        } else if value == 0x65 {
            Some(Instruction::LoadRegisters { x })
        } else {
            None
        }
    }
}

/// Splits an instruction word into its nibbles and immediates and finds its
/// entry in the instruction table. The nibbles are taken with shifts and
/// masks; the contract states them by division.
pub fn decode(word: u16) -> (r: Option<Instruction>)
    ensures
        r == decode_spec(word),
        r matches Some(ins) ==> ins.wf(),
{
    let group: u16 = (word & 0xF000) >> 12;
    let x: usize = ((word & 0x0F00) >> 8) as usize;
    let y: usize = ((word & 0x00F0) >> 4) as usize;
    let n: u16 = word & 0x000F;
    let value: u8 = (word & 0x00FF) as u8;
    let addr: u16 = word & 0x0FFF;
    assert((word & 0xF000) >> 12 == word / 4096) by (bit_vector);
    assert((word & 0x0F00) >> 8 == (word / 256) % 16) by (bit_vector);
    assert((word & 0x00F0) >> 4 == (word / 16) % 16) by (bit_vector);
    assert(word & 0x000F == word % 16) by (bit_vector);
    assert(word & 0x00FF == word % 256) by (bit_vector);
    assert(word & 0x0FFF == word % 4096) by (bit_vector);
    match (group, n) {
        (0, _) => {
            if word == 0x00E0 {
                Some(Instruction::ClearDisplay)
            } else if word == 0x00EE {
                Some(Instruction::Return)
            } else {
                None
            }
        },
        (1, _) => Some(Instruction::Jump { addr }),
        (2, _) => Some(Instruction::Call { addr }),
        (3, _) => Some(Instruction::SkipIfEqualImmediate { x, value }),
        (4, _) => Some(Instruction::SkipIfNotEqualImmediate { x, value }),
        (5, 0) => Some(Instruction::SkipIfEqual { x, y }),
        (6, _) => Some(Instruction::LoadImmediate { x, value }),
        (7, _) => Some(Instruction::AddImmediate { x, value }),
        (8, 0) => Some(Instruction::Copy { x, y }),
        (8, 1) => Some(Instruction::Or { x, y }),
        (8, 2) => Some(Instruction::And { x, y }),
        (8, 3) => Some(Instruction::Xor { x, y }),
        (8, 4) => Some(Instruction::AddWithCarry { x, y }),
        (8, 5) => Some(Instruction::Subtract { x, y }),
        (8, 6) => Some(Instruction::ShiftRight { x }),
        (8, 7) => Some(Instruction::SubtractReversed { x, y }),
        (8, 0xE) => Some(Instruction::ShiftLeft { x }),
        (9, 0) => Some(Instruction::SkipIfNotEqual { x, y }),
        (0xA, _) => Some(Instruction::SetIndex { addr }),
        (0xB, _) => Some(Instruction::JumpWithOffset { addr }),
        (0xC, _) => Some(Instruction::Random { x, value }),
        (0xD, _) => Some(Instruction::Draw { x, y, rows: n as u8 }),
        (0xE, _) => {
            if value == 0x9E {
                Some(Instruction::SkipIfKeyPressed { x })
            } else if value == 0xA1 {
                Some(Instruction::SkipIfKeyNotPressed { x })
            } else {
                None
            }
        },
        (0xF, _) => {
            if value == 0x07 {
                Some(Instruction::ReadDelayTimer { x })
            } else if value == 0x0A {
                Some(Instruction::WaitForKey { x })
            } else if value == 0x15 {
                Some(Instruction::SetDelayTimer { x })
            } else if value == 0x18 {
                Some(Instruction::SetSoundTimer { x })
            } else if value == 0x1E {
                Some(Instruction::AddToIndex { x })
            } else if value == 0x29 {
                Some(Instruction::SetIndexToGlyph { x })
            } else if value == 0x33 {
                Some(Instruction::StoreDecimal { x })
            } else if value == 0x55 {
                Some(Instruction::StoreRegisters { x })
            } else if value == 0x65 {
                Some(Instruction::LoadRegisters { x })
            } else {
                None
            }
        },
        _ => None,
    }
}

} // verus!
