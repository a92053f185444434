use crate::alu::{flag_of, shift_left_spec, shift_right_spec};
use crate::display::{
    draw_collides, draw_display, lemma_sprite_source, lemma_sprite_target, sprite_bit,
    sprite_column, sprite_covers, sprite_row, sprite_target,
};
use crate::instruction::{decode_spec, Instruction};
use crate::model::{
    execute_spec, fetch_spec, first_pressed_key, keypress_spec, load_spec, reads_random,
    run_spec, store_decimal_spec, tick_spec, Fault, MachineState,
};
use vstd::prelude::*;

verus! {

/// Add with carry leaves 1 in the flag register exactly where the sum of the
/// two registers does not fit in a byte, and 0 otherwise. Unless the
/// destination is the flag register itself, it then holds the sum modulo 256.
pub proof fn lemma_add_with_carry(s: MachineState, x: usize, y: usize, random: u8)
    requires
        s.wf(),
        x < 16,
        y < 16,
    ensures
        execute_spec(s, Instruction::AddWithCarry { x, y }, random) matches Ok(next) && {
            let a = s.registers[x as int];
            let b = s.registers[y as int];
            &&& next.registers[15] == flag_of(a + b >= 256)
            &&& x != 15 ==> next.registers[x as int] == (a + b) % 256
            &&& forall|i: int| 0 <= i < 15 && i != x ==> next.registers[i] == s.registers[i]
        },
{
}

/// Subtracting register `y` from register `x` leaves 1 in the flag register
/// exactly where register `x` is at least register `y`, so that nothing is
/// borrowed, and 0 otherwise. Unless the destination is the flag register
/// itself, it then holds the difference modulo 256.
pub proof fn lemma_subtract(s: MachineState, x: usize, y: usize, random: u8)
    requires
        s.wf(),
        x < 16,
        y < 16,
    ensures
        execute_spec(s, Instruction::Subtract { x, y }, random) matches Ok(next) && {
            let a = s.registers[x as int];
            let b = s.registers[y as int];
            &&& next.registers[15] == flag_of(a >= b)
            &&& x != 15 ==> next.registers[x as int] == (a - b) % 256
            &&& forall|i: int| 0 <= i < 15 && i != x ==> next.registers[i] == s.registers[i]
        },
{
}

/// The reversed subtraction takes register `x` from register `y`: the flag
/// is 1 exactly where register `y` is at least register `x`.
pub proof fn lemma_subtract_reversed(s: MachineState, x: usize, y: usize, random: u8)
    requires
        s.wf(),
        x < 16,
        y < 16,
    ensures
        execute_spec(s, Instruction::SubtractReversed { x, y }, random) matches Ok(next) && {
            let a = s.registers[x as int];
            let b = s.registers[y as int];
            &&& next.registers[15] == flag_of(b >= a)
            &&& x != 15 ==> next.registers[x as int] == (b - a) % 256
        },
{
}

/// A right shift splits a byte into its half and its lowest bit: the flag is
/// 0 or 1, and twice the result plus the flag is the byte.
pub proof fn lemma_shift_right_drops_low_bit(a: u8)
    ensures
        shift_right_spec(a).1 <= 1,
        shift_right_spec(a).0 < 128,
        a == 2 * shift_right_spec(a).0 + shift_right_spec(a).1,
        shift_right_spec(a).1 == a % 2,
{
    assert(a >> 1 == a / 2) by (bit_vector);
    assert(a & 1 == a % 2) by (bit_vector);
}

/// A left shift splits the double of a byte into its highest bit and the
/// rest: the flag is 0 or 1, the result is even, and 256 times the flag plus
/// the result is twice the byte.
pub proof fn lemma_shift_left_drops_high_bit(a: u8)
    ensures
        shift_left_spec(a).1 <= 1,
        shift_left_spec(a).0 % 2 == 0,
        2 * a == 256 * shift_left_spec(a).1 + shift_left_spec(a).0,
        shift_left_spec(a).1 == a / 128,
{
    assert((a >> 7) & 1 == a / 128) by (bit_vector);
    assert(a << 1 == (a % 128) * 2) by (bit_vector);
}

/// The shift instructions leave the dropped bit in the flag register.
pub proof fn lemma_shift_flags(s: MachineState, x: usize, random: u8)
    requires
        s.wf(),
        x < 16,
    ensures
        execute_spec(s, Instruction::ShiftRight { x }, random) matches Ok(next)
            && next.registers[15] == s.registers[x as int] % 2 && (x != 15
            ==> next.registers[x as int] == s.registers[x as int] / 2),
        execute_spec(s, Instruction::ShiftLeft { x }, random) matches Ok(next)
            && next.registers[15] == s.registers[x as int] / 128 && (x != 15
            ==> next.registers[x as int] == (2 * s.registers[x as int]) % 256),
{
    lemma_shift_right_drops_low_bit(s.registers[x as int]);
    lemma_shift_left_drops_high_bit(s.registers[x as int]);
}

/// Drawing toggles the pixel under each set bit of the sprite and keeps the
/// pixel under each clear bit: the bit in column `col` of row `row` falls on
/// the pixel at column `vx + col` modulo 64 of row `vy + row` modulo 32.
pub proof fn lemma_draw_toggles_under_set_bits(
    display: Seq<bool>,
    memory: Seq<u8>,
    index: int,
    vx: u8,
    vy: u8,
    rows: int,
    row: int,
    col: int,
)
    requires
        display.len() == 2048,
        0 <= row < rows <= 15,
        0 <= col < 8,
    ensures
        ({
            let pixel = sprite_target(vx, vy, row, col);
            &&& 0 <= pixel < 2048
            &&& pixel % 64 == (vx + col) % 64
            &&& pixel / 64 == (vy + row) % 32
            &&& draw_display(display, memory, index, vx, vy, rows)[pixel] == (display[pixel]
                != sprite_bit(memory[index + row], col))
        }),
{
    lemma_sprite_target(vx, vy, row, col);
}

/// Drawing keeps every pixel on which no bit of the sprite falls.
pub proof fn lemma_draw_keeps_other_pixels(
    display: Seq<bool>,
    memory: Seq<u8>,
    index: int,
    vx: u8,
    vy: u8,
    rows: int,
    pixel: int,
)
    requires
        display.len() == 2048,
        0 <= rows <= 15,
        0 <= pixel < 2048,
        forall|row: int, col: int|
            0 <= row < rows && 0 <= col < 8 ==> #[trigger] sprite_target(vx, vy, row, col)
                != pixel,
    ensures
        draw_display(display, memory, index, vx, vy, rows)[pixel] == display[pixel],
{
    lemma_sprite_source(vx, vy, pixel);
    if sprite_covers(memory, index, vx, vy, rows, pixel) {
        assert(sprite_target(vx, vy, sprite_row(pixel, vy), sprite_column(pixel, vx)) == pixel);
    }
}

/// Drawing the same sprite twice at the same place gives back the display
/// as it was. The second draw reports a collision exactly where the sprite
/// has a set bit on a pixel that was off before the first draw.
pub proof fn lemma_draw_twice_restores(
    display: Seq<bool>,
    memory: Seq<u8>,
    index: int,
    vx: u8,
    vy: u8,
    rows: int,
)
    ensures
        draw_display(draw_display(display, memory, index, vx, vy, rows), memory, index, vx, vy, rows)
            == display,
        draw_collides(draw_display(display, memory, index, vx, vy, rows), memory, index, vx, vy, rows)
            <==> exists|pixel: int|
            #![trigger display[pixel]]
            0 <= pixel < display.len() && !display[pixel] && sprite_covers(
                memory,
                index,
                vx,
                vy,
                rows,
                pixel,
            ),
{
    let once = draw_display(display, memory, index, vx, vy, rows);
    let twice = draw_display(once, memory, index, vx, vy, rows);
    assert(twice =~= display);
    if draw_collides(once, memory, index, vx, vy, rows) {
        let pixel = choose|pixel: int|
            #![trigger once[pixel]]
            0 <= pixel < once.len() && once[pixel] && sprite_covers(
                memory,
                index,
                vx,
                vy,
                rows,
                pixel,
            );
        assert(!display[pixel]);
    }
    if exists|pixel: int|
        #![trigger display[pixel]]
        0 <= pixel < display.len() && !display[pixel] && sprite_covers(
            memory,
            index,
            vx,
            vy,
            rows,
            pixel,
        ) {
        let pixel = choose|pixel: int|
            #![trigger display[pixel]]
            0 <= pixel < display.len() && !display[pixel] && sprite_covers(
                memory,
                index,
                vx,
                vy,
                rows,
                pixel,
            );
        assert(once[pixel]);
    }
}

/// Executing the same draw instruction twice, with the position registers
/// holding the same values both times, gives back the display as it was
/// before the first.
pub proof fn lemma_draw_instruction_twice(
    s: MachineState,
    x: usize,
    y: usize,
    rows: u8,
    random: u8,
)
    requires
        s.wf(),
        x < 16,
        y < 16,
        rows < 16,
        s.index + rows <= 4096,
        execute_spec(s, Instruction::Draw { x, y, rows }, random) matches Ok(first)
            && first.registers[x as int] == s.registers[x as int] && first.registers[y as int]
            == s.registers[y as int],
    ensures
        execute_spec(s, Instruction::Draw { x, y, rows }, random) matches Ok(first)
            && execute_spec(first, Instruction::Draw { x, y, rows }, random) matches Ok(second)
            && second.display == s.display && second.memory == s.memory && second.index
            == s.index && second.registers[15] == flag_of(
            exists|pixel: int|
                #![trigger s.display[pixel]]
                0 <= pixel < s.display.len() && !s.display[pixel] && sprite_covers(
                    s.memory,
                    s.index as int,
                    s.registers[x as int],
                    s.registers[y as int],
                    rows as int,
                    pixel,
                ),
        ),
{
    lemma_draw_twice_restores(
        s.display,
        s.memory,
        s.index as int,
        s.registers[x as int],
        s.registers[y as int],
        rows as int,
    );
}

/// The three bytes that the decimal store writes are the decimal digits of
/// the value, the hundreds first.
pub proof fn lemma_store_decimal_digits(memory: Seq<u8>, index: int, value: u8)
    requires
        0 <= index,
        index + 2 < memory.len(),
    ensures
        ({
            let stored = store_decimal_spec(memory, index, value);
            &&& stored[index] < 10 && stored[index + 1] < 10 && stored[index + 2] < 10
            &&& 100 * stored[index] + 10 * stored[index + 1] + stored[index + 2] == value
            &&& stored.len() == memory.len()
            &&& forall|a: int|
                0 <= a < memory.len() && !(index <= a <= index + 2) ==> stored[a] == memory[a]
        }),
{
}

/// Storing registers 0 to `x` and loading them back from the same place
/// restores them, whatever the registers were changed to in between, and
/// leaves the registers above `x` as they were changed.
pub proof fn lemma_store_then_load(s: MachineState, changed: Seq<u8>, x: usize, random: u8)
    requires
        s.wf(),
        x < 16,
        s.index + x < 4096,
        changed.len() == 16,
    ensures
        execute_spec(s, Instruction::StoreRegisters { x }, random) matches Ok(stored)
            && execute_spec(
            MachineState { registers: changed, ..stored },
            Instruction::LoadRegisters { x },
            random,
        ) matches Ok(loaded) && {
            &&& forall|i: int| 0 <= i <= x ==> loaded.registers[i] == s.registers[i]
            &&& forall|i: int| x < i < 16 ==> loaded.registers[i] == changed[i]
            &&& loaded.memory == stored.memory
            &&& loaded.index == s.index
            &&& stored.index == s.index
            &&& stored.registers == s.registers
        },
{
}

/// What `first_pressed_key` finds from `from` on is the lowest key at or
/// above `from` that is held down, and it finds none only where none is.
pub proof fn lemma_first_pressed_key(keys: Seq<bool>, from: int)
    requires
        0 <= from <= keys.len(),
    ensures
        match first_pressed_key(keys, from) {
            Some(key) => from <= key < keys.len() && keys[key] && forall|j: int|
                from <= j < key ==> !keys[j],
            None => forall|j: int| from <= j < keys.len() ==> !keys[j],
        },
    decreases keys.len() - from,
{
    if from < keys.len() && !keys[from] {
        lemma_first_pressed_key(keys, from + 1);
    }
}

/// While no key is held down, a step at a key-wait instruction changes
/// nothing: the program counter comes back to the instruction and every
/// register, the memory and the display stay as they are.
pub proof fn lemma_key_wait_stalls(s: MachineState, x: usize, random: u8)
    requires
        s.wf(),
        s.pc + 1 < 4096,
        decode_spec(fetch_spec(s)) == Some(Instruction::WaitForKey { x }),
        forall|k: int| 0 <= k < 16 ==> !s.keys[k],
    ensures
        tick_spec(s, random) == Ok::<MachineState, Fault>(s),
{
    lemma_first_pressed_key(s.keys, 0);
    let fetched = MachineState { pc: (s.pc + 2) as u16, ..s };
    let next = execute_spec(fetched, Instruction::WaitForKey { x }, random);
    assert(next is Ok);
    assert(next->Ok_0.same_as(s));
}

/// While no key is held down, any number of steps at a key-wait instruction
/// changes nothing.
pub proof fn lemma_key_wait_stalls_for_any_steps(s: MachineState, x: usize, randoms: Seq<u8>)
    requires
        s.wf(),
        s.pc + 1 < 4096,
        decode_spec(fetch_spec(s)) == Some(Instruction::WaitForKey { x }),
        forall|k: int| 0 <= k < 16 ==> !s.keys[k],
    ensures
        run_spec(s, randoms) == Ok::<MachineState, Fault>(s),
    decreases randoms.len(),
{
    if randoms.len() > 0 {
        lemma_key_wait_stalls(s, x, randoms[0]);
        lemma_key_wait_stalls_for_any_steps(s, x, randoms.skip(1));
    }
}

/// Once a key is held down, the next step at a key-wait instruction moves
/// past it and leaves the index of the lowest such key in the register.
pub proof fn lemma_key_wait_resumes(s: MachineState, x: usize, key: int, random: u8)
    requires
        s.wf(),
        s.pc + 1 < 4096,
        decode_spec(fetch_spec(s)) == Some(Instruction::WaitForKey { x }),
        0 <= key < 16,
        s.keys[key],
        forall|j: int| 0 <= j < key ==> !s.keys[j],
    ensures
        tick_spec(s, random) == Ok::<MachineState, Fault>(
            MachineState {
                pc: (s.pc + 2) as u16,
                registers: s.registers.update(x as int, key as u8),
                ..s
            },
        ),
{
    lemma_first_pressed_key(s.keys, 0);
}

/// A call followed at once by a return comes back to the instruction after
/// the call and leaves the call stack as it was.
pub proof fn lemma_call_then_return(s: MachineState, addr: u16, random: u8)
    requires
        s.wf(),
        s.stack.len() < 16,
    ensures
        execute_spec(s, Instruction::Call { addr }, random) matches Ok(called) && called.pc == addr
            && called.stack.len() == s.stack.len() + 1 && execute_spec(
            called,
            Instruction::Return,
            random,
        ) == Ok::<MachineState, Fault>(s),
{
    let called = execute_spec(s, Instruction::Call { addr }, random)->Ok_0;
    let returned = execute_spec(called, Instruction::Return, random)->Ok_0;
    assert(returned.same_as(s));
}

/// Of the calls that report a key, the last one decides: reporting the same
/// transition twice is the same as reporting it once, and a later report
/// for a key replaces an earlier one.
pub proof fn lemma_keypress_last_write_wins(
    s: MachineState,
    index: int,
    earlier: bool,
    later: bool,
)
    requires
        s.wf(),
        0 <= index < 16,
    ensures
        keypress_spec(keypress_spec(s, index, earlier), index, later) == keypress_spec(
            s,
            index,
            later,
        ),
        keypress_spec(s, index, later).keys[index] == later,
        forall|k: int| 0 <= k < 16 && k != index ==> keypress_spec(s, index, later).keys[k] == s.keys[k],
{
    assert(keypress_spec(keypress_spec(s, index, earlier), index, later).same_as(
        keypress_spec(s, index, later),
    ));
}

/// Only the random instruction depends on the random byte: a step at any
/// other instruction ends the same way for every byte.
pub proof fn lemma_tick_ignores_random(s: MachineState, first: u8, second: u8)
    requires
        !reads_random(s),
    ensures
        tick_spec(s, first) == tick_spec(s, second),
{
}

/// Loading a program changes memory from the start address on only, and
/// there only as far as the program reaches: the glyph table stays.
pub proof fn lemma_load_keeps_the_rest(s: MachineState, data: Seq<u8>)
    requires
        s.wf(),
        data.len() <= 3584,
    ensures
        load_spec(s, data).wf(),
        forall|a: int| 0 <= a < 0x200 ==> load_spec(s, data).memory[a] == s.memory[a],
        forall|a: int| 0x200 + data.len() <= a < 4096 ==> load_spec(s, data).memory[a] == s.memory[a],
        forall|i: int| 0 <= i < data.len() ==> load_spec(s, data).memory[0x200 + i] == data[i],
{
}

/// A step from a well-formed state ends in a well-formed state.
pub proof fn lemma_tick_keeps_wf(s: MachineState, random: u8)
    requires
        s.wf(),
    ensures
        tick_spec(s, random) matches Ok(next) ==> next.wf(),
{
}

} // verus!
