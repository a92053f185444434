use chip_eight_emu::{Emulator, Fault, FONTSET, SCREEN_HEIGHT, SCREEN_WIDTH};

fn machine_with(program: &[u8]) -> Emulator {
    let mut machine = Emulator::new();
    machine.load(program);
    machine
}

fn run(machine: &mut Emulator, steps: usize) {
    for _ in 0..steps {
        machine.tick_with(0).unwrap();
    }
}

fn lit_count(machine: &Emulator) -> usize {
    machine.get_display().iter().filter(|p| **p).count()
}

#[test]
fn new_machine_is_in_its_initial_state() {
    let machine = Emulator::new();
    assert_eq!(machine.program_counter(), 0x200);
    assert_eq!(machine.index_register(), 0);
    assert_eq!(machine.stack_depth(), 0);
    assert_eq!(machine.delay_timer(), 0);
    assert_eq!(machine.sound_timer(), 0);
    assert!(!machine.sound_active());
    for i in 0..16 {
        assert_eq!(machine.register(i), 0);
        assert!(!machine.key(i));
    }
    for a in 0..80 {
        assert_eq!(machine.memory(a), FONTSET[a]);
    }
    for a in 80..4096 {
        assert_eq!(machine.memory(a), 0);
    }
    assert_eq!(machine.get_display().len(), SCREEN_WIDTH * SCREEN_HEIGHT);
    assert_eq!(lit_count(&machine), 0);
}

#[test]
fn font_table_starts_with_the_glyph_for_zero() {
    assert_eq!(FONTSET.len(), 80);
    assert_eq!(&FONTSET[0..5], &[0xF0, 0x90, 0x90, 0x90, 0xF0]);
    assert_eq!(&FONTSET[75..80], &[0xF0, 0x80, 0xF0, 0x80, 0x80]);
}

#[test]
fn load_copies_the_program_to_the_start_address_only() {
    let mut machine = Emulator::new();
    machine.load(&[0x12, 0x34, 0x56]);
    assert_eq!(machine.memory(0x200), 0x12);
    assert_eq!(machine.memory(0x201), 0x34);
    assert_eq!(machine.memory(0x202), 0x56);
    assert_eq!(machine.memory(0x203), 0);
    assert_eq!(machine.memory(0x1FF), 0);
    for a in 0..80 {
        assert_eq!(machine.memory(a), FONTSET[a]);
    }
    assert_eq!(machine.program_counter(), 0x200);
}

#[test]
fn load_takes_a_program_that_fills_memory() {
    let program = vec![0xAB_u8; 3584];
    let machine = machine_with(&program);
    assert_eq!(machine.memory(0x200), 0xAB);
    assert_eq!(machine.memory(4095), 0xAB);
    assert_eq!(machine.memory(0x1FF), 0);
}

#[test]
fn load_of_nothing_changes_nothing() {
    let machine = machine_with(&[]);
    assert_eq!(machine.memory(0x200), 0);
}

#[test]
fn reset_restores_the_initial_state() {
    let mut machine = machine_with(&[0x6A, 0x02, 0xA1, 0x23, 0x22, 0x08, 0x00, 0x00, 0xD0, 0x05]);
    machine.keypress(3, true);
    run(&mut machine, 3);
    assert_eq!(machine.stack_depth(), 1);
    machine.reset();
    assert_eq!(machine.program_counter(), 0x200);
    assert_eq!(machine.index_register(), 0);
    assert_eq!(machine.stack_depth(), 0);
    for i in 0..16 {
        assert_eq!(machine.register(i), 0);
        assert!(!machine.key(i));
    }
    for a in 0..80 {
        assert_eq!(machine.memory(a), FONTSET[a]);
    }
    for a in 80..4096 {
        assert_eq!(machine.memory(a), 0);
    }
    assert_eq!(lit_count(&machine), 0);
}

#[test]
fn keypress_is_last_write_wins() {
    let mut machine = Emulator::new();
    machine.keypress(5, true);
    machine.keypress(5, true);
    assert!(machine.key(5));
    assert!(!machine.key(4));
    machine.keypress(5, false);
    assert!(!machine.key(5));
    machine.keypress(15, true);
    assert!(machine.key(15));
}

#[test]
fn tick_advances_the_program_counter_by_two() {
    let mut machine = machine_with(&[0x6A, 0x02]);
    machine.tick().unwrap();
    assert_eq!(machine.program_counter(), 0x202);
    assert_eq!(machine.register(0xA), 2);
}

#[test]
fn load_immediate_then_add_to_index() {
    let mut machine = machine_with(&[0x6A, 0x02, 0xFA, 0x1E]);
    run(&mut machine, 2);
    assert_eq!(machine.register(0xA), 2);
    assert_eq!(machine.index_register(), 2);
    assert_eq!(machine.program_counter(), 0x204);
}

#[test]
fn add_immediate_wraps_and_leaves_the_flag() {
    let mut machine = machine_with(&[0x61, 0xFF, 0x71, 0x02]);
    run(&mut machine, 2);
    assert_eq!(machine.register(1), 1);
    assert_eq!(machine.register(0xF), 0);
}

#[test]
fn copy_or_and_xor() {
    let mut machine = machine_with(&[
        0x61, 0x5A, 0x62, 0x0F, 0x83, 0x10, 0x83, 0x21, 0x84, 0x10, 0x84, 0x22, 0x85, 0x10, 0x85,
        0x23,
    ]);
    run(&mut machine, 8);
    assert_eq!(machine.register(3), 0x5F);
    assert_eq!(machine.register(4), 0x0A);
    assert_eq!(machine.register(5), 0x55);
}

#[test]
fn add_with_carry_on_the_machine() {
    let mut machine = machine_with(&[0x61, 0xF0, 0x62, 0x20, 0x81, 0x24, 0x81, 0x24]);
    run(&mut machine, 3);
    assert_eq!(machine.register(1), 0x10);
    assert_eq!(machine.register(0xF), 1);
    run(&mut machine, 1);
    assert_eq!(machine.register(1), 0x30);
    assert_eq!(machine.register(0xF), 0);
}

#[test]
fn add_with_carry_into_the_flag_register_keeps_the_flag() {
    let mut machine = machine_with(&[0x6F, 0xF0, 0x62, 0x20, 0x8F, 0x24]);
    run(&mut machine, 3);
    assert_eq!(machine.register(0xF), 1);
}

#[test]
fn subtract_on_the_machine() {
    let mut machine = machine_with(&[0x61, 0x05, 0x62, 0x07, 0x81, 0x25, 0x63, 0x07, 0x83, 0x25]);
    run(&mut machine, 3);
    assert_eq!(machine.register(1), 0xFE);
    assert_eq!(machine.register(0xF), 0);
    run(&mut machine, 2);
    assert_eq!(machine.register(3), 0);
    assert_eq!(machine.register(0xF), 1);
}

#[test]
fn subtract_reversed_on_the_machine() {
    let mut machine = machine_with(&[0x61, 0x05, 0x62, 0x07, 0x81, 0x27, 0x82, 0x17]);
    run(&mut machine, 3);
    assert_eq!(machine.register(1), 2);
    assert_eq!(machine.register(0xF), 1);
    run(&mut machine, 1);
    assert_eq!(machine.register(2), 0xFB);
    assert_eq!(machine.register(0xF), 0);
}

#[test]
fn shifts_on_the_machine() {
    let mut machine = machine_with(&[0x61, 0x81, 0x81, 0x06, 0x62, 0x81, 0x82, 0x0E]);
    run(&mut machine, 2);
    assert_eq!(machine.register(1), 0x40);
    assert_eq!(machine.register(0xF), 1);
    run(&mut machine, 2);
    assert_eq!(machine.register(2), 0x02);
    assert_eq!(machine.register(0xF), 1);
}

#[test]
fn jump_sets_the_program_counter() {
    let mut machine = machine_with(&[0x1A, 0xBC]);
    run(&mut machine, 1);
    assert_eq!(machine.program_counter(), 0xABC);
}

#[test]
fn jump_with_offset_adds_register_zero() {
    let mut machine = machine_with(&[0x60, 0xFF, 0x6A, 0x01, 0xBF, 0xFF]);
    run(&mut machine, 3);
    assert_eq!(machine.program_counter(), 0xFFF + 0xFF);
}

#[test]
fn call_pushes_the_advanced_program_counter_and_return_pops_it() {
    let mut machine = machine_with(&[0x22, 0x06, 0x61, 0x01, 0x00, 0x00, 0x00, 0xEE]);
    run(&mut machine, 1);
    assert_eq!(machine.program_counter(), 0x206);
    assert_eq!(machine.stack_depth(), 1);
    run(&mut machine, 1);
    assert_eq!(machine.program_counter(), 0x202);
    assert_eq!(machine.stack_depth(), 0);
    run(&mut machine, 1);
    assert_eq!(machine.register(1), 1);
}

#[test]
fn skips_move_by_one_instruction() {
    let mut machine = machine_with(&[0x61, 0x07, 0x31, 0x07, 0x00, 0x00, 0x41, 0x07, 0x51, 0x20]);
    run(&mut machine, 2);
    assert_eq!(machine.program_counter(), 0x206);
    run(&mut machine, 1);
    assert_eq!(machine.program_counter(), 0x208);
    run(&mut machine, 1);
    assert_eq!(machine.program_counter(), 0x20A);
    let mut machine = machine_with(&[0x61, 0x07, 0x62, 0x07, 0x51, 0x20, 0x00, 0x00, 0x91, 0x20, 0x41, 0x08]);
    run(&mut machine, 3);
    assert_eq!(machine.program_counter(), 0x208);
    run(&mut machine, 1);
    assert_eq!(machine.program_counter(), 0x20A);
    run(&mut machine, 1);
    assert_eq!(machine.program_counter(), 0x20E);
    let mut machine = machine_with(&[0x61, 0x07, 0x91, 0x20]);
    run(&mut machine, 2);
    assert_eq!(machine.program_counter(), 0x206);
}

#[test]
fn key_skips_test_the_low_nibble_of_the_register() {
    let mut machine = machine_with(&[0x61, 0x35, 0xE1, 0x9E, 0x00, 0x00, 0xE1, 0xA1, 0xE1, 0x9E]);
    machine.keypress(5, true);
    run(&mut machine, 2);
    assert_eq!(machine.program_counter(), 0x206);
    run(&mut machine, 1);
    assert_eq!(machine.program_counter(), 0x208);
    machine.keypress(5, false);
    run(&mut machine, 1);
    assert_eq!(machine.program_counter(), 0x20A);
    let mut machine = machine_with(&[0xE1, 0xA1]);
    run(&mut machine, 1);
    assert_eq!(machine.program_counter(), 0x204);
}

#[test]
fn set_index_takes_the_twelve_bit_operand() {
    let mut machine = machine_with(&[0xAF, 0xED]);
    run(&mut machine, 1);
    assert_eq!(machine.index_register(), 0xFED);
}

#[test]
fn add_to_index_wraps_at_sixteen_bits() {
    let mut machine = machine_with(&[0x61, 0xFF]);
    run(&mut machine, 1);
    for _ in 0..258 {
        machine.execute(0xF11E, 0).unwrap();
    }
    assert_eq!(machine.index_register(), 254);
    assert_eq!(machine.program_counter(), 0x202);
}

#[test]
fn glyph_address_is_five_times_the_low_nibble() {
    let mut machine = machine_with(&[0x61, 0x0A, 0xF1, 0x29, 0x62, 0x3F, 0xF2, 0x29]);
    run(&mut machine, 2);
    assert_eq!(machine.index_register(), 50);
    run(&mut machine, 2);
    assert_eq!(machine.index_register(), 75);
}

#[test]
fn bcd_of_255_is_2_5_5() {
    let mut machine = machine_with(&[0x61, 0xFF, 0xA3, 0x00, 0xF1, 0x33]);
    run(&mut machine, 3);
    assert_eq!(machine.memory(0x300), 2);
    assert_eq!(machine.memory(0x301), 5);
    assert_eq!(machine.memory(0x302), 5);
    assert_eq!(machine.memory(0x303), 0);
    assert_eq!(machine.index_register(), 0x300);
}

#[test]
fn bcd_of_every_byte() {
    for v in 0..=255u8 {
        let mut machine = machine_with(&[0x61, v, 0xA3, 0x00, 0xF1, 0x33]);
        run(&mut machine, 3);
        assert_eq!(machine.memory(0x300), v / 100);
        assert_eq!(machine.memory(0x301), (v / 10) % 10);
        assert_eq!(machine.memory(0x302), v % 10);
    }
}

#[test]
fn bcd_of_small_values() {
    let mut machine = machine_with(&[0x61, 0x07, 0xA3, 0x00, 0xF1, 0x33]);
    run(&mut machine, 3);
    assert_eq!(machine.memory(0x300), 0);
    assert_eq!(machine.memory(0x301), 0);
    assert_eq!(machine.memory(0x302), 7);
}

#[test]
fn register_block_round_trip() {
    let mut machine = machine_with(&[
        0x60, 0x11, 0x61, 0x22, 0x62, 0x33, 0x63, 0x44, 0xA3, 0x00, 0xF2, 0x55, 0x60, 0xAA, 0x61,
        0xBB, 0x62, 0xCC, 0x63, 0xDD, 0xF2, 0x65,
    ]);
    run(&mut machine, 6);
    assert_eq!(machine.memory(0x300), 0x11);
    assert_eq!(machine.memory(0x301), 0x22);
    assert_eq!(machine.memory(0x302), 0x33);
    assert_eq!(machine.memory(0x303), 0);
    assert_eq!(machine.index_register(), 0x300);
    run(&mut machine, 5);
    assert_eq!(machine.register(0), 0x11);
    assert_eq!(machine.register(1), 0x22);
    assert_eq!(machine.register(2), 0x33);
    assert_eq!(machine.register(3), 0xDD);
    assert_eq!(machine.index_register(), 0x300);
}

#[test]
fn register_block_store_of_all_registers_at_the_end_of_memory() {
    let mut machine = machine_with(&[0x6F, 0x09, 0xAF, 0xF0, 0xFF, 0x55, 0xAF, 0xF1, 0xFF, 0x55]);
    run(&mut machine, 3);
    assert_eq!(machine.memory(0xFFF), 9);
    run(&mut machine, 1);
    assert_eq!(machine.tick_with(0), Err(Fault::MemoryOutOfRange));
    assert_eq!(machine.memory(0xFFF), 9);
    assert_eq!(machine.program_counter(), 0x208);
}

#[test]
fn read_and_set_timers() {
    let mut machine = machine_with(&[0x61, 0x03, 0xF1, 0x15, 0xF1, 0x18, 0xF2, 0x07]);
    run(&mut machine, 3);
    assert_eq!(machine.delay_timer(), 3);
    assert_eq!(machine.sound_timer(), 3);
    assert!(machine.sound_active());
    assert!(!machine.tick_timers());
    run(&mut machine, 1);
    assert_eq!(machine.register(2), 2);
    assert_eq!(machine.delay_timer(), 2);
}

#[test]
fn timers_count_down_to_zero_and_no_further() {
    let mut machine = machine_with(&[0x61, 0x02, 0xF1, 0x15, 0xF1, 0x18]);
    run(&mut machine, 3);
    assert!(!machine.tick_timers());
    assert_eq!(machine.delay_timer(), 1);
    assert_eq!(machine.sound_timer(), 1);
    assert!(machine.sound_active());
    assert!(machine.tick_timers());
    assert_eq!(machine.delay_timer(), 0);
    assert_eq!(machine.sound_timer(), 0);
    assert!(!machine.sound_active());
    assert!(!machine.tick_timers());
    assert_eq!(machine.delay_timer(), 0);
    assert_eq!(machine.sound_timer(), 0);
    assert_eq!(machine.program_counter(), 0x206);
}

#[test]
fn random_is_masked_with_the_immediate() {
    let mut machine = Emulator::new();
    machine.execute(0xC1F0, 0xAB).unwrap();
    assert_eq!(machine.register(1), 0xA0);
    machine.execute(0xC2FF, 0xAB).unwrap();
    assert_eq!(machine.register(2), 0xAB);
    machine.execute(0xC200, 0xAB).unwrap();
    assert_eq!(machine.register(2), 0);
}

#[test]
fn tick_draws_its_own_random_byte() {
    for _ in 0..64 {
        let mut machine = machine_with(&[0x61, 0xFF, 0xC1, 0x0F, 0x62, 0xFF, 0xC2, 0x00]);
        for _ in 0..4 {
            machine.tick().unwrap();
        }
        assert!(machine.register(1) <= 0x0F);
        assert_eq!(machine.register(2), 0);
        assert_eq!(machine.program_counter(), 0x208);
    }
}

#[test]
fn key_wait_blocks_until_a_key_is_down() {
    let mut machine = machine_with(&[0xF3, 0x0A, 0x61, 0x01]);
    for _ in 0..1000 {
        machine.tick().unwrap();
        assert_eq!(machine.program_counter(), 0x200);
        for i in 0..16 {
            assert_eq!(machine.register(i), 0);
        }
    }
    machine.keypress(9, true);
    machine.keypress(12, true);
    machine.tick().unwrap();
    assert_eq!(machine.program_counter(), 0x202);
    assert_eq!(machine.register(3), 9);
}

#[test]
fn key_wait_takes_key_zero() {
    let mut machine = machine_with(&[0x63, 0x55, 0xF3, 0x0A]);
    machine.keypress(0, true);
    run(&mut machine, 2);
    assert_eq!(machine.register(3), 0);
    assert_eq!(machine.program_counter(), 0x204);
}

#[test]
fn unknown_words_are_faults_that_carry_the_word() {
    for word in [0x0000u16, 0x0123, 0x00E1, 0x5121, 0x8128, 0x812F, 0x9121, 0xE19F, 0xE1A2, 0xF1FF, 0xF100] {
        let mut machine = machine_with(&[(word >> 8) as u8, (word & 0xFF) as u8]);
        assert_eq!(machine.tick_with(0), Err(Fault::UnknownInstruction(word)));
        assert_eq!(machine.program_counter(), 0x200);
        assert_eq!(machine.tick(), Err(Fault::UnknownInstruction(word)));
        let mut machine = Emulator::new();
        assert_eq!(machine.execute(word, 0), Err(Fault::UnknownInstruction(word)));
    }
}

#[test]
fn return_with_an_empty_stack_is_a_fault() {
    let mut machine = machine_with(&[0x00, 0xEE]);
    assert_eq!(machine.tick_with(0), Err(Fault::StackUnderflow));
    assert_eq!(machine.program_counter(), 0x200);
    assert_eq!(machine.stack_depth(), 0);
}

#[test]
fn the_seventeenth_nested_call_is_a_fault() {
    let mut machine = machine_with(&[0x22, 0x00]);
    for depth in 1..=16 {
        machine.tick_with(0).unwrap();
        assert_eq!(machine.stack_depth(), depth);
    }
    assert_eq!(machine.tick_with(0), Err(Fault::StackOverflow));
    assert_eq!(machine.stack_depth(), 16);
    assert_eq!(machine.program_counter(), 0x200);
}

#[test]
fn fetching_past_the_end_of_memory_is_a_fault() {
    let mut machine = machine_with(&[0x1F, 0xFF]);
    run(&mut machine, 1);
    assert_eq!(machine.program_counter(), 0xFFF);
    assert_eq!(machine.tick_with(0), Err(Fault::MemoryOutOfRange));
    assert_eq!(machine.program_counter(), 0xFFF);
}

#[test]
fn the_last_instruction_of_memory_can_be_fetched() {
    let mut program = vec![0u8; 3584];
    program[0] = 0x1F;
    program[1] = 0xFE;
    program[3582] = 0x61;
    program[3583] = 0x09;
    let mut machine = machine_with(&program);
    run(&mut machine, 2);
    assert_eq!(machine.register(1), 9);
    assert_eq!(machine.program_counter(), 0x1000);
    assert_eq!(machine.tick_with(0), Err(Fault::MemoryOutOfRange));
}

#[test]
fn bcd_past_the_end_of_memory_is_a_fault() {
    let mut machine = machine_with(&[0x61, 0xFF, 0xAF, 0xFE, 0xF1, 0x33, 0xAF, 0xFD, 0xF1, 0x33]);
    run(&mut machine, 2);
    assert_eq!(machine.tick_with(0), Err(Fault::MemoryOutOfRange));
    assert_eq!(machine.memory(0xFFE), 0);
    assert_eq!(machine.memory(0xFFF), 0);
    machine.execute(0xAFFD, 0).unwrap();
    machine.execute(0xF133, 0).unwrap();
    assert_eq!(machine.memory(0xFFD), 2);
    assert_eq!(machine.memory(0xFFE), 5);
    assert_eq!(machine.memory(0xFFF), 5);
}

#[test]
fn register_load_past_the_end_of_memory_is_a_fault() {
    let mut machine = machine_with(&[0x61, 0x07, 0xAF, 0xFF, 0xF1, 0x65]);
    run(&mut machine, 2);
    assert_eq!(machine.tick_with(0), Err(Fault::MemoryOutOfRange));
    assert_eq!(machine.register(1), 7);
    machine.execute(0xF065, 0).unwrap();
    assert_eq!(machine.register(0), 0);
}

#[test]
fn draw_past_the_end_of_memory_is_a_fault() {
    let mut machine = machine_with(&[0xAF, 0xFF, 0xD0, 0x02]);
    run(&mut machine, 1);
    assert_eq!(machine.tick_with(0), Err(Fault::MemoryOutOfRange));
    assert_eq!(lit_count(&machine), 0);
    machine.execute(0xD001, 0).unwrap();
    machine.execute(0xD000, 0).unwrap();
}
