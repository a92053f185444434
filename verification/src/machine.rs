use crate::alu::{add_with_carry, shift_left, shift_right, subtract_with_borrow};
use crate::display::{draw_sprite, SCREEN_SIZE, SCREEN_WIDTH};
use crate::font::{glyph_offset, FONTSET, FONTSET_SIZE};
use crate::instruction::{decode, Instruction};
use crate::model::{
    ends_as, execute_spec, execute_word_spec, fetch_spec, first_pressed_key, initial_memory,
    initial_state, keypress_spec, load_registers_spec, load_spec, reads_random,
    store_registers_spec, tick_spec,
    tick_timers_spec, Fault, MachineState, FLAG_REGISTER, MAX_PROGRAM_SIZE, NUM_KEYS,
    NUM_REGISTERS, RAM_SIZE, STACK_SIZE, START_ADDR,
};
use crate::rng::random_byte;
use vstd::prelude::*;

verus! {

/// The machine: memory, display, registers, call stack, timers and keys.
pub struct Emulator {
    program_counter: u16,
    ram: [u8; RAM_SIZE],
    screen: [bool; SCREEN_SIZE],
    v_register: [u8; NUM_REGISTERS],
    i_register: u16,
    stack: [u16; STACK_SIZE],
    stack_pointer: u16,
    delay_timer: u8,
    sound_timer: u8,
    keys: [bool; NUM_KEYS],
}

impl View for Emulator {
    type V = MachineState;

    /// The machine as mathematical values. Of the stack only the return
    /// addresses below the stack pointer are part of the state.
    closed spec fn view(&self) -> MachineState {
        MachineState {
            pc: self.program_counter,
            memory: self.ram@,
            display: self.screen@,
            registers: self.v_register@,
            index: self.i_register,
            stack: self.stack@.subrange(0, self.stack_pointer as int),
            delay_timer: self.delay_timer,
            sound_timer: self.sound_timer,
            keys: self.keys@,
        }
    }
}

/// Copies the glyph table to the start of memory.
fn install_font(ram: &mut [u8; 4096])
    requires
        forall|a: int| 0 <= a < 4096 ==> old(ram)@[a] == 0,
    ensures
        final(ram)@ == initial_memory(),
{
    let mut i: usize = 0;
    while i < FONTSET_SIZE
        invariant
            i <= 80,
            forall|a: int| 0 <= a < i ==> ram@[a] == FONTSET@[a],
            forall|a: int| i <= a < 4096 ==> ram@[a] == 0,
        decreases 80 - i,
    {
        ram[i] = FONTSET[i];
        i = i + 1;
    }
    assert(ram@ =~= initial_memory());
}

/// Finds the lowest key that is held down.
fn lowest_pressed_key(keys: &[bool; 16]) -> (found: Option<u8>)
    ensures
        match found {
            Some(key) => first_pressed_key(keys@, 0) == Some(key as int),
            None => first_pressed_key(keys@, 0) is None,
        },
{
    let mut key: u8 = 0;
    while key < 16
        invariant
            key <= 16,
            first_pressed_key(keys@, 0) == first_pressed_key(keys@, key as int),
        decreases 16 - key,
    {
        if keys[key as usize] {
            return Some(key);
        }
        key = key + 1;
    }
    None
}

/// Writes registers 0 to `x` to memory, the first at `base`.
fn store_block(ram: &mut [u8; 4096], registers: &[u8; 16], base: usize, x: usize)
    requires
        x < 16,
        base + x < 4096,
    ensures
        final(ram)@ == store_registers_spec(old(ram)@, registers@, base as int, x as int),
{
    let mut i: usize = 0;
    while i <= x
        invariant
            i <= x + 1,
            x < 16,
            base + x < 4096,
            forall|a: int|
                0 <= a < 4096 ==> ram@[a] == if base <= a < base + i {
                    registers@[a - base]
                } else {
                    old(ram)@[a]
                },
        decreases x + 1 - i,
    {
        ram[base + i] = registers[i];
        i = i + 1;
    }
    assert(ram@ =~= store_registers_spec(old(ram)@, registers@, base as int, x as int));
}

/// Reads registers 0 to `x` from memory, the first from `base`.
fn load_block(registers: &mut [u8; 16], ram: &[u8; 4096], base: usize, x: usize)
    requires
        x < 16,
        base + x < 4096,
    ensures
        final(registers)@ == load_registers_spec(ram@, old(registers)@, base as int, x as int),
{
    let mut i: usize = 0;
    while i <= x
        invariant
            i <= x + 1,
            x < 16,
            base + x < 4096,
            forall|r: int|
                0 <= r < 16 ==> registers@[r] == if r < i {
                    ram@[base + r]
                } else {
                    old(registers)@[r]
                },
        decreases x + 1 - i,
    {
        registers[i] = ram[base + i];
        i = i + 1;
    }
    assert(registers@ =~= load_registers_spec(ram@, old(registers)@, base as int, x as int));
}

impl Emulator {
    /// The call stack holds no more return addresses than it has room for,
    /// and every part of the machine has its fixed size.
    pub closed spec fn wf(&self) -> bool {
        self.stack_pointer <= 16 && self@.wf()
    }

    /// A well-formed machine has a well-formed state.
    pub proof fn lemma_wf_state(&self)
        requires
            self.wf(),
        ensures
            self@.wf(),
    {
    }

    /// Builds a machine in its initial state: the glyph table at the start of
    /// memory, everything else zero, the program counter at the start
    /// address.
    pub fn new() -> (emulator: Self)
        ensures
            emulator.wf(),
            emulator@ == initial_state(),
    {
        let mut emulator = Self {
            program_counter: START_ADDR,
            ram: [0; RAM_SIZE],
            screen: [false; SCREEN_SIZE],
            v_register: [0; NUM_REGISTERS],
            i_register: 0,
            stack_pointer: 0,
            stack: [0; STACK_SIZE],
            delay_timer: 0,
            sound_timer: 0,
            keys: [false; NUM_KEYS],
        };
        install_font(&mut emulator.ram);
        assert(emulator@.same_as(initial_state()));
        emulator
    }

    /// Puts the machine back into its initial state.
    pub fn reset(&mut self)
        ensures
            final(self).wf(),
            final(self)@ == initial_state(),
    {
        self.program_counter = START_ADDR;
        self.ram = [0; RAM_SIZE];
        self.screen = [false; SCREEN_SIZE];
        self.v_register = [0; NUM_REGISTERS];
        self.i_register = 0;
        self.stack_pointer = 0;
        self.stack = [0; STACK_SIZE];
        self.delay_timer = 0;
        self.sound_timer = 0;
        self.keys = [false; NUM_KEYS];
        install_font(&mut self.ram);
        assert(self@.same_as(initial_state()));
    }

    /// Pushes a return address on the call stack.
    fn push(&mut self, value: u16)
        requires
            old(self).wf(),
            old(self)@.stack.len() < 16,
        ensures
            final(self).wf(),
            final(self)@ == (MachineState { stack: old(self)@.stack.push(value), ..old(self)@ }),
    {
        self.stack[self.stack_pointer as usize] = value;
        self.stack_pointer += 1;
        assert(self@.stack =~= old(self)@.stack.push(value));
    }

    /// Pops the newest return address off the call stack.
    fn pop(&mut self) -> (value: u16)
        requires
            old(self).wf(),
            old(self)@.stack.len() > 0,
        ensures
            final(self).wf(),
            value == old(self)@.stack.last(),
            final(self)@ == (MachineState { stack: old(self)@.stack.drop_last(), ..old(self)@ }),
    {
        self.stack_pointer -= 1;
        assert(self@.stack =~= old(self)@.stack.drop_last());
        self.stack[self.stack_pointer as usize]
    }

    /// Reads the instruction word at the program counter, the high byte
    /// first, and moves the program counter past it.
    fn fetch(&mut self) -> (word: u16)
        requires
            old(self).wf(),
            old(self)@.pc + 1 < 4096,
        ensures
            final(self).wf(),
            word == fetch_spec(old(self)@),
            final(self)@ == (MachineState { pc: (old(self)@.pc + 2) as u16, ..old(self)@ }),
    {
        let upper_byte: u16 = self.ram[self.program_counter as usize] as u16;
        let lower_byte: u16 = self.ram[(self.program_counter + 1) as usize] as u16;
        let word: u16 = (upper_byte << 8) | lower_byte;
        assert((upper_byte << 8) | lower_byte == upper_byte * 256 + lower_byte) by (bit_vector)
            requires
                upper_byte < 256,
                lower_byte < 256,
        ;
        self.program_counter += 2;
        word
    }

    /// Executes the instruction word `operation` on a machine whose program
    /// counter already points past it. `random` is the byte that the random
    /// instruction masks. On a fault the machine is left as it was.
    pub fn execute(&mut self, operation: u16, random: u8) -> (result: Result<(), Fault>)
        requires
            old(self).wf(),
            2 <= old(self)@.pc,
            old(self)@.pc + 2 <= u16::MAX,
        ensures
            final(self).wf(),
            ends_as(
                old(self)@,
                execute_word_spec(old(self)@, operation, random),
                final(self)@,
                result,
            ),
    {
        let ins = match decode(operation) {
            Some(ins) => ins,
            None => {
                return Err(Fault::UnknownInstruction(operation));
            },
        };
        match ins {
            Instruction::ClearDisplay => {
                self.screen = [false; SCREEN_SIZE];
            },
            Instruction::Return => {
                if self.stack_pointer == 0 {
                    return Err(Fault::StackUnderflow);
                }
                let return_address: u16 = self.pop();
                self.program_counter = return_address;
            },
            Instruction::Jump { addr } => {
                self.program_counter = addr;
            },
            Instruction::Call { addr } => {
                if self.stack_pointer as usize >= STACK_SIZE {
                    return Err(Fault::StackOverflow);
                }
                self.push(self.program_counter);
                self.program_counter = addr;
            },
            Instruction::SkipIfEqualImmediate { x, value } => {
                if self.v_register[x] == value {
                    self.program_counter += 2;
                }
            },
            Instruction::SkipIfNotEqualImmediate { x, value } => {
                if self.v_register[x] != value {
                    self.program_counter += 2;
                }
            },
            Instruction::SkipIfEqual { x, y } => {
                if self.v_register[x] == self.v_register[y] {
                    self.program_counter += 2;
                }
            },
            Instruction::SkipIfNotEqual { x, y } => {
                if self.v_register[x] != self.v_register[y] {
                    self.program_counter += 2;
                }
            },
            Instruction::LoadImmediate { x, value } => {
                self.v_register[x] = value;
            },
            Instruction::AddImmediate { x, value } => {
                self.v_register[x] = self.v_register[x].wrapping_add(value);
            },
            Instruction::Copy { x, y } => {
                self.v_register[x] = self.v_register[y];
            },
            Instruction::Or { x, y } => {
                self.v_register[x] = self.v_register[x] | self.v_register[y];
            },
            Instruction::And { x, y } => {
                self.v_register[x] = self.v_register[x] & self.v_register[y];
            },
            Instruction::Xor { x, y } => {
                self.v_register[x] = self.v_register[x] ^ self.v_register[y];
            },
            Instruction::AddWithCarry { x, y } => {
                let (new_vx, carry) = add_with_carry(self.v_register[x], self.v_register[y]);
                self.v_register[x] = new_vx;
                self.v_register[FLAG_REGISTER] = carry;
            },
            Instruction::Subtract { x, y } => {
                let (new_vx, no_borrow) = subtract_with_borrow(
                    self.v_register[x],
                    self.v_register[y],
                );
                self.v_register[x] = new_vx;
                self.v_register[FLAG_REGISTER] = no_borrow;
            },
            Instruction::SubtractReversed { x, y } => {
                let (new_vx, no_borrow) = subtract_with_borrow(
                    self.v_register[y],
                    self.v_register[x],
                );
                self.v_register[x] = new_vx;
                self.v_register[FLAG_REGISTER] = no_borrow;
            },
            Instruction::ShiftRight { x } => {
                let (new_vx, dropped) = shift_right(self.v_register[x]);
                self.v_register[x] = new_vx;
                self.v_register[FLAG_REGISTER] = dropped;
            },
            Instruction::ShiftLeft { x } => {
                let (new_vx, dropped) = shift_left(self.v_register[x]);
                self.v_register[x] = new_vx;
                self.v_register[FLAG_REGISTER] = dropped;
            },
            Instruction::SetIndex { addr } => {
                self.i_register = addr;
            },
            Instruction::JumpWithOffset { addr } => {
                self.program_counter = self.v_register[0] as u16 + addr;
            },
            Instruction::Random { x, value } => {
                self.v_register[x] = random & value;
            },
            Instruction::Draw { x, y, rows } => {
                let base: usize = self.i_register as usize;
                if base + rows as usize > RAM_SIZE {
                    return Err(Fault::MemoryOutOfRange);
                }
                let vx: u8 = self.v_register[x];
                let vy: u8 = self.v_register[y];
                let flipped = draw_sprite(&mut self.screen, &self.ram, base, vx, vy, rows);
                if flipped {
                    self.v_register[FLAG_REGISTER] = 1;
                } else {
                    self.v_register[FLAG_REGISTER] = 0;
                }
            },
            Instruction::SkipIfKeyPressed { x } => {
                let key: usize = (self.v_register[x] % 16) as usize;
                if self.keys[key] {
                    self.program_counter += 2;
                }
            },
            Instruction::SkipIfKeyNotPressed { x } => {
                let key: usize = (self.v_register[x] % 16) as usize;
                if !self.keys[key] {
                    self.program_counter += 2;
                }
            },
            Instruction::ReadDelayTimer { x } => {
                self.v_register[x] = self.delay_timer;
            },
            Instruction::WaitForKey { x } => {
                match lowest_pressed_key(&self.keys) {
                    Some(key) => {
                        self.v_register[x] = key;
                    },
                    None => {
                        self.program_counter -= 2;
                    },
                }
            },
            Instruction::SetDelayTimer { x } => {
                self.delay_timer = self.v_register[x];
            },
            Instruction::SetSoundTimer { x } => {
                self.sound_timer = self.v_register[x];
            },
            Instruction::AddToIndex { x } => {
                self.i_register = self.i_register.wrapping_add(self.v_register[x] as u16);
            },
            Instruction::SetIndexToGlyph { x } => {
                self.i_register = glyph_offset(self.v_register[x]);
            },
            Instruction::StoreDecimal { x } => {
                let base: usize = self.i_register as usize;
                if base + 2 >= RAM_SIZE {
                    return Err(Fault::MemoryOutOfRange);
                }
                let vx: u8 = self.v_register[x];
                self.ram[base] = vx / 100;
                self.ram[base + 1] = (vx / 10) % 10;
                self.ram[base + 2] = vx % 10;
            },
            Instruction::StoreRegisters { x } => {
                let base: usize = self.i_register as usize;
                if base + x >= RAM_SIZE {
                    return Err(Fault::MemoryOutOfRange);
                }
                store_block(&mut self.ram, &self.v_register, base, x);
            },
            Instruction::LoadRegisters { x } => {
                let base: usize = self.i_register as usize;
                if base + x >= RAM_SIZE {
                    return Err(Fault::MemoryOutOfRange);
                }
                load_block(&mut self.v_register, &self.ram, base, x);
            },
        }
        proof {
            assert(execute_spec(old(self)@, ins, random) matches Ok(next) && self@.same_as(next));
        }
        Ok(())
    }

    /// Advances the machine by one instruction: fetches the word at the
    /// program counter, moves the program counter past it and executes the
    /// word. `random` is the byte that the random instruction masks. On a
    /// fault the machine is left as it was.
    pub fn tick_with(&mut self, random: u8) -> (result: Result<(), Fault>)
        requires
            old(self).wf(),
        ensures
            final(self).wf(),
            ends_as(old(self)@, tick_spec(old(self)@, random), final(self)@, result),
    {
        let start: u16 = self.program_counter;
        if start as usize + 1 >= RAM_SIZE {
            return Err(Fault::MemoryOutOfRange);
        }
        let word: u16 = self.fetch();
        let result = self.execute(word, random);
        if result.is_err() {
            self.program_counter = start;
            proof {
                assert(self@.same_as(old(self)@));
            }
        }
        result
    }

    /// Advances the machine by one instruction, as `tick_with` does with a
    /// byte that the random generator draws for this call. Where the
    /// instruction at the program counter is not the random instruction, the
    /// step ends as it does for every byte.
    pub fn tick(&mut self) -> (result: Result<(), Fault>)
        requires
            old(self).wf(),
        ensures
            final(self).wf(),
            exists|random: u8|
                #[trigger] ends_as(
                    old(self)@,
                    tick_spec(old(self)@, random),
                    final(self)@,
                    result,
                ),
            !reads_random(old(self)@) ==> forall|random: u8|
                #[trigger] ends_as(
                    old(self)@,
                    tick_spec(old(self)@, random),
                    final(self)@,
                    result,
                ),
    {
        let random: u8 = random_byte();
        self.tick_with(random)
    }

    /// Counts each timer that is not zero down by one. Returns whether the
    /// sound timer was at its last tick before zero, at which the tone ends.
    pub fn tick_timers(&mut self) -> (tone_ends: bool)
        requires
            old(self).wf(),
        ensures
            final(self).wf(),
            final(self)@ == tick_timers_spec(old(self)@),
            tone_ends == (old(self)@.sound_timer == 1),
    {
        let mut tone_ends = false;
        if self.delay_timer > 0 {
            self.delay_timer -= 1;
        }
        if self.sound_timer > 0 {
            if self.sound_timer == 1 {
                tone_ends = true;
            }
            self.sound_timer -= 1;
        }
        proof {
            assert(self@.same_as(tick_timers_spec(old(self)@)));
        }
        tone_ends
    }

    /// The display, row by row: the pixel at column `x` of row `y` is at
    /// index `x + 64 * y`.
    pub fn get_display(&self) -> (display: &[bool])
        ensures
            display@ == self@.display,
    {
        self.screen.as_slice()
    }

    /// Records that the key `index` went down (`pressed`) or up. The last
    /// call for a key decides its state.
    pub fn keypress(&mut self, index: usize, pressed: bool)
        requires
            old(self).wf(),
            index < 16,
        ensures
            final(self).wf(),
            final(self)@ == keypress_spec(old(self)@, index as int, pressed),
    {
        self.keys[index] = pressed;
        proof {
            assert(self@.same_as(keypress_spec(old(self)@, index as int, pressed)));
        }
    }

    /// Copies a program image into memory at the start address. Nothing else
    /// of the machine changes.
    pub fn load(&mut self, data: &[u8])
        requires
            old(self).wf(),
            data@.len() <= MAX_PROGRAM_SIZE,
        ensures
            final(self).wf(),
            final(self)@ == load_spec(old(self)@, data@),
    {
        let start: usize = START_ADDR as usize;
        let mut i: usize = 0;
        while i < data.len()
            invariant
                i <= data@.len() <= 3584,
                start == 0x200,
                self.wf(),
                self@.same_as(MachineState { memory: self@.memory, ..old(self)@ }),
                forall|a: int|
                    0 <= a < 4096 ==> self@.memory[a] == if 0x200 <= a < 0x200 + i {
                        data@[a - 0x200]
                    } else {
                        old(self)@.memory[a]
                    },
            decreases data@.len() - i,
        {
            self.ram[start + i] = data[i];
            i = i + 1;
        }
        proof {
            assert(self@.same_as(load_spec(old(self)@, data@)));
        }
    }
    /// The address of the next instruction.
    pub fn program_counter(&self) -> (pc: u16)
        ensures
            pc == self@.pc,
    {
        self.program_counter
    }

    /// The value of general register `index`.
    pub fn register(&self, index: usize) -> (value: u8)
        requires
            index < 16,
        ensures
            value == self@.registers[index as int],
    {
        self.v_register[index]
    }

    /// The value of the index register.
    pub fn index_register(&self) -> (value: u16)
        ensures
            value == self@.index,
    {
        self.i_register
    }

    /// The byte of memory at `address`.
    pub fn memory(&self, address: usize) -> (value: u8)
        requires
            address < 4096,
        ensures
            value == self@.memory[address as int],
    {
        self.ram[address]
    }

    /// Whether the pixel at column `x` of row `y` is lit.
    pub fn pixel(&self, x: usize, y: usize) -> (lit: bool)
        requires
            x < 64,
            y < 32,
        ensures
            lit == self@.display[x + 64 * y],
    {
        self.screen[x + SCREEN_WIDTH * y]
    }

    /// The number of return addresses on the call stack.
    pub fn stack_depth(&self) -> (depth: usize)
        requires
            self.wf(),
        ensures
            depth == self@.stack.len(),
    {
        self.stack_pointer as usize
    }

    /// The value of the delay timer.
    pub fn delay_timer(&self) -> (value: u8)
        ensures
            value == self@.delay_timer,
    {
        self.delay_timer
    }

    /// The value of the sound timer.
    pub fn sound_timer(&self) -> (value: u8)
        ensures
            value == self@.sound_timer,
    {
        self.sound_timer
    }

    /// Whether the tone is to sound: the sound timer is not zero.
    pub fn sound_active(&self) -> (active: bool)
        ensures
            active == (self@.sound_timer > 0),
    {
        self.sound_timer > 0
    }

    /// Whether key `index` is held down.
    pub fn key(&self, index: usize) -> (pressed: bool)
        requires
            index < 16,
        ensures
            pressed == self@.keys[index as int],
    {
        self.keys[index]
    }
}

} // verus!