use crate::alu::{
    add_with_carry_spec, flag_of, shift_left_spec, shift_right_spec, subtract_with_borrow_spec,
};
use crate::display::{draw_collides, draw_display};
use crate::font::{glyph_offset_spec, FONTSET};
use crate::instruction::{decode_spec, Instruction};
use vstd::prelude::*;

verus! {

/// Bytes of memory.
pub const RAM_SIZE: usize = 4096;

/// Address at which a program is loaded and at which execution starts.
pub const START_ADDR: u16 = 0x200;

/// Number of general registers.
pub const NUM_REGISTERS: usize = 16;

/// Number of return addresses that the call stack holds.
pub const STACK_SIZE: usize = 16;

/// Number of keys on the pad.
pub const NUM_KEYS: usize = 16;

/// Index of the register that receives carry, borrow and collision flags.
pub const FLAG_REGISTER: usize = 15;

/// Largest number of bytes that a program image may hold.
pub const MAX_PROGRAM_SIZE: usize = 3584;

/// A condition that ends emulation. The machine is left as it was before the
/// call that reported it.
#[derive(Clone, Copy, Debug, PartialEq, Eq, Structural)]
pub enum Fault {
    /// The word matches no entry of the instruction table.
    UnknownInstruction(u16),
    /// A return was executed while the call stack was empty.
    StackUnderflow,
    /// A call was executed while the call stack was full.
    StackOverflow,
    /// An instruction would read or write memory past its last byte.
    MemoryOutOfRange,
}

/// The whole state of the machine as mathematical values.
pub struct MachineState {
    /// Address of the next instruction.
    pub pc: u16,
    /// The 4096 bytes of memory.
    pub memory: Seq<u8>,
    /// The 2048 pixels of the display, row by row.
    pub display: Seq<bool>,
    /// The sixteen general registers.
    pub registers: Seq<u8>,
    /// The index register.
    pub index: u16,
    /// The return addresses on the call stack, the oldest first.
    pub stack: Seq<u16>,
    /// The delay timer.
    pub delay_timer: u8,
    /// The sound timer.
    pub sound_timer: u8,
    /// The sixteen keys, `true` while held down.
    pub keys: Seq<bool>,
}

impl MachineState {
    /// Every part of the machine has its fixed size and the call stack holds
    /// no more than its capacity.
    pub open spec fn wf(self) -> bool {
        &&& self.memory.len() == 4096
        &&& self.display.len() == 2048
        &&& self.registers.len() == 16
        &&& self.stack.len() <= 16
        &&& self.keys.len() == 16
    }

    /// Whether two states agree in every part, element by element.
    pub open spec fn same_as(self, other: MachineState) -> bool {
        &&& self.pc == other.pc
        &&& self.memory =~= other.memory
        &&& self.display =~= other.display
        &&& self.registers =~= other.registers
        &&& self.index == other.index
        &&& self.stack =~= other.stack
        &&& self.delay_timer == other.delay_timer
        &&& self.sound_timer == other.sound_timer
        &&& self.keys =~= other.keys
    }

    /// The state with register `x` set to `value`.
    pub open spec fn with_register(self, x: int, value: u8) -> MachineState {
        MachineState { registers: self.registers.update(x, value), ..self }
    }

    /// The state after an operation wrote `result.0` to register `x` and
    /// then `result.1` to the flag register.
    pub open spec fn with_result_and_flag(self, x: int, result: (u8, u8)) -> MachineState {
        MachineState { registers: self.registers.update(x, result.0).update(15, result.1), ..self }
    }

    /// The state with the program counter moved past one more instruction
    /// where `condition` holds, and the state itself where it does not.
    pub open spec fn skip_if(self, condition: bool) -> MachineState {
        if condition {
            MachineState { pc: (self.pc + 2) as u16, ..self }
        } else {
            self
        }
    }
}

/// Memory as it is when the machine is built: the glyph table at address 0
/// and zero everywhere else.
pub open spec fn initial_memory() -> Seq<u8> {
    Seq::new(
        4096,
        |a: int|
            if a < 80 {
                FONTSET@[a]
            } else {
                0u8
            },
    )
}

/// A display with every pixel off.
pub open spec fn blank_display() -> Seq<bool> {
    Seq::new(2048, |p: int| false)
}

/// The state of a machine that was just built or reset.
pub open spec fn initial_state() -> MachineState {
    MachineState {
        pc: 0x200,
        memory: initial_memory(),
        display: blank_display(),
        registers: Seq::new(16, |i: int| 0u8),
        index: 0,
        stack: Seq::empty(),
        delay_timer: 0,
        sound_timer: 0,
        keys: Seq::new(16, |k: int| false),
    }
}

/// The state after a program image was copied to the start address.
pub open spec fn load_spec(s: MachineState, data: Seq<u8>) -> MachineState {
    MachineState {
        memory: Seq::new(
            4096,
            |a: int|
                if 0x200 <= a < 0x200 + data.len() {
                    data[a - 0x200]
                } else {
                    s.memory[a]
                },
        ),
        ..s
    }
}

/// The state after key `index` was reported as down (`pressed`) or up.
pub open spec fn keypress_spec(s: MachineState, index: int, pressed: bool) -> MachineState {
    MachineState { keys: s.keys.update(index, pressed), ..s }
}

/// The state after one tick of the 60 Hz clock: each timer that is not zero
/// goes down by one.
pub open spec fn tick_timers_spec(s: MachineState) -> MachineState {
    MachineState {
        delay_timer: if s.delay_timer > 0 {
            (s.delay_timer - 1) as u8
        } else {
            0
        },
        sound_timer: if s.sound_timer > 0 {
            (s.sound_timer - 1) as u8
        } else {
            0
        },
        ..s
    }
}

/// The lowest key at or above `from` that is held down.
pub open spec fn first_pressed_key(keys: Seq<bool>, from: int) -> Option<int>
    decreases keys.len() - from,
{
    if from >= keys.len() {
        None
    } else if keys[from] {
        Some(from)
    } else {
        first_pressed_key(keys, from + 1)
    }
}

/// The instruction word at the program counter, the high byte first.
pub open spec fn fetch_spec(s: MachineState) -> u16 {
    (s.memory[s.pc as int] * 256 + s.memory[s.pc + 1]) as u16
}

/// Memory after the three decimal digits of `value` were written at `index`.
pub open spec fn store_decimal_spec(memory: Seq<u8>, index: int, value: u8) -> Seq<u8> {
    memory.update(index, (value / 100) as u8).update(index + 1, ((value / 10) % 10) as u8).update(
        index + 2,
        (value % 10) as u8,
    )
}

/// Memory after registers 0 to `x` were written at `index`.
pub open spec fn store_registers_spec(
    memory: Seq<u8>,
    registers: Seq<u8>,
    index: int,
    x: int,
) -> Seq<u8> {
    Seq::new(
        memory.len(),
        |a: int|
            if index <= a <= index + x {
                registers[a - index]
            } else {
                memory[a]
            },
    )
}

/// The registers after registers 0 to `x` were read from memory at `index`.
pub open spec fn load_registers_spec(
    memory: Seq<u8>,
    registers: Seq<u8>,
    index: int,
    x: int,
) -> Seq<u8> {
    Seq::new(
        registers.len(),
        |i: int|
            if i <= x {
                memory[index + i]
            } else {
                registers[i]
            },
    )
}

/// What executing `ins` does to a state whose program counter already points
/// past the instruction: the next state, or the fault that stops it.
/// `random` is the byte that the random instruction draws.
pub open spec fn execute_spec(s: MachineState, ins: Instruction, random: u8) -> Result<
    MachineState,
    Fault,
> {
    match ins {
        Instruction::ClearDisplay => Ok(MachineState { display: blank_display(), ..s }),
        Instruction::Return => if s.stack.len() == 0 {
            Err(Fault::StackUnderflow)
        } else {
            Ok(MachineState { pc: s.stack.last(), stack: s.stack.drop_last(), ..s })
        },
        Instruction::Jump { addr } => Ok(MachineState { pc: addr, ..s }),
        Instruction::Call { addr } => if s.stack.len() >= 16 {
            Err(Fault::StackOverflow)
        } else {
            Ok(MachineState { pc: addr, stack: s.stack.push(s.pc), ..s })
        },
        Instruction::SkipIfEqualImmediate { x, value } => Ok(
            s.skip_if(s.registers[x as int] == value),
        ),
        Instruction::SkipIfNotEqualImmediate { x, value } => Ok(
            s.skip_if(s.registers[x as int] != value),
        ),
        Instruction::SkipIfEqual { x, y } => Ok(
            s.skip_if(s.registers[x as int] == s.registers[y as int]),
        ),
        Instruction::SkipIfNotEqual { x, y } => Ok(
            s.skip_if(s.registers[x as int] != s.registers[y as int]),
        ),
        Instruction::LoadImmediate { x, value } => Ok(s.with_register(x as int, value)),
        Instruction::AddImmediate { x, value } => Ok(
            s.with_register(x as int, ((s.registers[x as int] + value) % 256) as u8),
        ),
        Instruction::Copy { x, y } => Ok(s.with_register(x as int, s.registers[y as int])),
        Instruction::Or { x, y } => Ok(
            s.with_register(x as int, s.registers[x as int] | s.registers[y as int]),
        ),
        Instruction::And { x, y } => Ok(
            s.with_register(x as int, s.registers[x as int] & s.registers[y as int]),
        ),
        Instruction::Xor { x, y } => Ok(
            s.with_register(x as int, s.registers[x as int] ^ s.registers[y as int]),
        ),
        Instruction::AddWithCarry { x, y } => Ok(
            s.with_result_and_flag(
                x as int,
                add_with_carry_spec(s.registers[x as int], s.registers[y as int]),
            ),
        ),
        Instruction::Subtract { x, y } => Ok(
            s.with_result_and_flag(
                x as int,
                subtract_with_borrow_spec(s.registers[x as int], s.registers[y as int]),
            ),
        ),
        Instruction::SubtractReversed { x, y } => Ok(
            s.with_result_and_flag(
                x as int,
                subtract_with_borrow_spec(s.registers[y as int], s.registers[x as int]),
            ),
        ),
        Instruction::ShiftRight { x } => Ok(
            s.with_result_and_flag(x as int, shift_right_spec(s.registers[x as int])),
        ),
        Instruction::ShiftLeft { x } => Ok(
            s.with_result_and_flag(x as int, shift_left_spec(s.registers[x as int])),
        ),
        Instruction::SetIndex { addr } => Ok(MachineState { index: addr, ..s }),
        Instruction::JumpWithOffset { addr } => Ok(
            MachineState { pc: (s.registers[0] + addr) as u16, ..s },
        ),
        Instruction::Random { x, value } => Ok(s.with_register(x as int, random & value)),
        Instruction::Draw { x, y, rows } => if s.index + rows > 4096 {
            Err(Fault::MemoryOutOfRange)
        } else {
            let vx = s.registers[x as int];
            let vy = s.registers[y as int];
            Ok(
                MachineState {
                    display: draw_display(s.display, s.memory, s.index as int, vx, vy, rows as int),
                    registers: s.registers.update(
                        15,
                        flag_of(
                            draw_collides(s.display, s.memory, s.index as int, vx, vy, rows as int),
                        ),
                    ),
                    ..s
                },
            )
        },
        Instruction::SkipIfKeyPressed { x } => Ok(s.skip_if(s.keys[(s.registers[x as int] % 16) as int])),
        Instruction::SkipIfKeyNotPressed { x } => Ok(
            s.skip_if(!s.keys[(s.registers[x as int] % 16) as int]),
        ),
        Instruction::ReadDelayTimer { x } => Ok(s.with_register(x as int, s.delay_timer)),
        Instruction::WaitForKey { x } => match first_pressed_key(s.keys, 0) {
            Some(key) => Ok(s.with_register(x as int, key as u8)),
            None => Ok(MachineState { pc: (s.pc - 2) as u16, ..s }),
        },
        Instruction::SetDelayTimer { x } => Ok(
            MachineState { delay_timer: s.registers[x as int], ..s },
        ),
        Instruction::SetSoundTimer { x } => Ok(
            MachineState { sound_timer: s.registers[x as int], ..s },
        ),
        Instruction::AddToIndex { x } => Ok(
            MachineState { index: ((s.index + s.registers[x as int]) % 65536) as u16, ..s },
        ),
        Instruction::SetIndexToGlyph { x } => Ok(
            MachineState { index: glyph_offset_spec(s.registers[x as int]), ..s },
        ),
        Instruction::StoreDecimal { x } => if s.index + 2 >= 4096 {
            Err(Fault::MemoryOutOfRange)
        } else {
            Ok(
                MachineState {
                    memory: store_decimal_spec(s.memory, s.index as int, s.registers[x as int]),
                    ..s
                },
            )
        },
        Instruction::StoreRegisters { x } => if s.index + x >= 4096 {
            Err(Fault::MemoryOutOfRange)
        } else {
            Ok(
                MachineState {
                    memory: store_registers_spec(s.memory, s.registers, s.index as int, x as int),
                    ..s
                },
            )
        },
        Instruction::LoadRegisters { x } => if s.index + x >= 4096 {
            Err(Fault::MemoryOutOfRange)
        } else {
            Ok(
                MachineState {
                    registers: load_registers_spec(s.memory, s.registers, s.index as int, x as int),
                    ..s
                },
            )
        },
    }
}

/// What executing the instruction word `word` does to a state whose program
/// counter already points past it.
pub open spec fn execute_word_spec(s: MachineState, word: u16, random: u8) -> Result<
    MachineState,
    Fault,
> {
    match decode_spec(word) {
        Some(ins) => execute_spec(s, ins, random),
        None => Err(Fault::UnknownInstruction(word)),
    }
}

/// One step of the machine: fetch the word at the program counter, move the
/// program counter past it, then execute it.
pub open spec fn tick_spec(s: MachineState, random: u8) -> Result<MachineState, Fault> {
    if s.pc + 1 >= 4096 {
        Err(Fault::MemoryOutOfRange)
    } else {
        execute_word_spec(MachineState { pc: (s.pc + 2) as u16, ..s }, fetch_spec(s), random)
    }
}

/// Whether the next step of the machine executes the random instruction.
pub open spec fn reads_random(s: MachineState) -> bool {
    s.pc + 1 < 4096 && decode_spec(fetch_spec(s)) matches Some(Instruction::Random { .. })
}

/// The machine after one step for each byte of `randoms`, the steps taking
/// their random bytes in order, or the first fault on the way.
pub open spec fn run_spec(s: MachineState, randoms: Seq<u8>) -> Result<MachineState, Fault>
    decreases randoms.len(),
{
    if randoms.len() == 0 {
        Ok(s)
    } else {
        match tick_spec(s, randoms[0]) {
            Ok(next) => run_spec(next, randoms.skip(1)),
            Err(fault) => Err(fault),
        }
    }
}

/// Whether a call that was to make the transition `expected` from `before`
/// ended as it should: in the next state with `Ok`, or, on a fault, with
/// that fault and the machine as it was.
pub open spec fn ends_as(
    before: MachineState,
    expected: Result<MachineState, Fault>,
    after: MachineState,
    result: Result<(), Fault>,
) -> bool {
    match expected {
        Ok(next) => result is Ok && after == next,
        Err(fault) => result == Err::<(), Fault>(fault) && after == before,
    }
}

} // verus!
