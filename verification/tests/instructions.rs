use chip8::chip_eight::ChipEight;
use chip8::machine::{CycleReport, Fault};

/// A machine with `program` loaded, after `cycles` cycles, none of which may
/// meet a fault.
fn run(program: &[u8], cycles: usize) -> ChipEight {
    let mut chip8 = ChipEight::new();
    assert_eq!(chip8.load_rom(program), Ok(()));
    for _ in 0..cycles {
        let report: CycleReport = chip8.emulation_cycle();
        assert_eq!(report.fault, None);
    }
    chip8
}

/// The registers `Vx` and the flag after `Vx := a`, `Vy := b` and the
/// arithmetic operation `sub` on `V1` and `V2`.
fn arithmetic(sub: u8, a: u8, b: u8) -> (u8, u8) {
    let chip8 = run(&[0x61, a, 0x62, b, 0x81, 0x20 | sub], 3);
    assert_eq!(chip8.v_register()[2], b);
    (chip8.v_register()[1], chip8.v_register()[0xF])
}

#[test]
fn jump_sets_the_program_counter() {
    let chip8 = run(&[0x1A, 0xBC], 1);
    assert_eq!(chip8.pc(), 0xABC);
    assert_eq!(chip8.opcode(), 0x1ABC);
}

#[test]
fn plain_instruction_advances_by_two() {
    let chip8 = run(&[0x60, 0x01, 0x61, 0x02], 2);
    assert_eq!(chip8.pc(), 0x204);
}

#[test]
fn call_pushes_and_return_pops() {
    // 0x200: call 0x204; 0x202: V0 := 1; 0x204: return.
    let mut chip8 = run(&[0x22, 0x04, 0x60, 0x01, 0x00, 0xEE], 1);
    assert_eq!(chip8.pc(), 0x204);
    assert_eq!(chip8.sp(), 1);
    assert_eq!(chip8.stack()[0], 0x202);
    let report: CycleReport = chip8.emulation_cycle();
    assert_eq!(report.fault, None);
    assert_eq!(chip8.pc(), 0x202);
    assert_eq!(chip8.sp(), 0);
    chip8.emulation_cycle();
    assert_eq!(chip8.v_register()[0], 1);
}

#[test]
fn return_on_empty_stack_is_a_fault_and_changes_nothing() {
    let mut chip8 = ChipEight::new();
    assert_eq!(chip8.load_rom(&[0x00, 0xEE]), Ok(()));
    let report: CycleReport = chip8.emulation_cycle();
    assert_eq!(report.fault, Some(Fault::StackUnderflow));
    assert_eq!(chip8.sp(), 0);
    assert_eq!(chip8.pc(), 0x202);
}

#[test]
fn seventeenth_nested_call_is_a_fault_and_changes_nothing() {
    // A call to itself: every cycle pushes 0x202 and jumps back to 0x200.
    let mut chip8 = ChipEight::new();
    assert_eq!(chip8.load_rom(&[0x22, 0x00]), Ok(()));
    for depth in 1..=16usize {
        let report: CycleReport = chip8.emulation_cycle();
        assert_eq!(report.fault, None);
        assert_eq!(chip8.sp(), depth);
        assert_eq!(chip8.pc(), 0x200);
    }
    assert_eq!(chip8.stack(), &[0x202u16; 16]);
    let report: CycleReport = chip8.emulation_cycle();
    assert_eq!(report.fault, Some(Fault::StackOverflow));
    assert_eq!(chip8.sp(), 16);
    assert_eq!(chip8.pc(), 0x202);
    assert_eq!(chip8.stack(), &[0x202u16; 16]);
}

#[test]
fn skip_equal_immediate() {
    assert_eq!(run(&[0x63, 0x42, 0x33, 0x42], 2).pc(), 0x206);
    assert_eq!(run(&[0x63, 0x42, 0x33, 0x43], 2).pc(), 0x204);
}

#[test]
fn skip_not_equal_immediate() {
    assert_eq!(run(&[0x63, 0x42, 0x43, 0x42], 2).pc(), 0x204);
    assert_eq!(run(&[0x63, 0x42, 0x43, 0x43], 2).pc(), 0x206);
}

#[test]
fn skip_equal_register() {
    assert_eq!(run(&[0x63, 0x42, 0x64, 0x42, 0x53, 0x40], 3).pc(), 0x208);
    assert_eq!(run(&[0x63, 0x42, 0x64, 0x41, 0x53, 0x40], 3).pc(), 0x206);
}

#[test]
fn skip_not_equal_register() {
    assert_eq!(run(&[0x63, 0x42, 0x64, 0x42, 0x93, 0x40], 3).pc(), 0x206);
    assert_eq!(run(&[0x63, 0x42, 0x64, 0x41, 0x93, 0x40], 3).pc(), 0x208);
}

#[test]
fn load_immediate() {
    let chip8 = run(&[0x6A, 0xC7], 1);
    assert_eq!(chip8.v_register()[0xA], 0xC7);
    assert_eq!(chip8.v_register()[0xF], 0);
}

#[test]
fn add_immediate_wraps_without_flag() {
    let chip8 = run(&[0x6A, 0xF0, 0x7A, 0x20], 2);
    assert_eq!(chip8.v_register()[0xA], 0x10);
    assert_eq!(chip8.v_register()[0xF], 0);
    let chip8 = run(&[0x6A, 0x0F, 0x7A, 0x01], 2);
    assert_eq!(chip8.v_register()[0xA], 0x10);
}

#[test]
fn arithmetic_assign_or_and_xor() {
    assert_eq!(arithmetic(0x0, 0x12, 0x34), (0x34, 0));
    assert_eq!(arithmetic(0x1, 0b1100, 0b1010), (0b1110, 0));
    assert_eq!(arithmetic(0x2, 0b1100, 0b1010), (0b1000, 0));
    assert_eq!(arithmetic(0x3, 0b1100, 0b1010), (0b0110, 0));
}

#[test]
fn add_with_carry_sets_flag_and_wraps() {
    assert_eq!(arithmetic(0x4, 0xFF, 0x01), (0x00, 1));
}

#[test]
fn add_with_carry_flag_follows_the_sum() {
    assert_eq!(arithmetic(0x4, 0x01, 0x02), (0x03, 0));
    assert_eq!(arithmetic(0x4, 0x80, 0x7F), (0xFF, 0));
    assert_eq!(arithmetic(0x4, 0x80, 0x80), (0x00, 1));
    assert_eq!(arithmetic(0x4, 0xF0, 0x01), (0xF1, 0));
    assert_eq!(arithmetic(0x4, 0x01, 0xFF), (0x00, 1));
    assert_eq!(arithmetic(0x4, 0xFF, 0xFF), (0xFE, 1));
    assert_eq!(arithmetic(0x4, 0x00, 0x00), (0x00, 0));
}

#[test]
fn subtract_with_borrow_clears_flag_and_wraps() {
    assert_eq!(arithmetic(0x5, 0x01, 0x02), (0xFF, 0));
}

#[test]
fn subtract_flag_is_set_only_if_minuend_is_greater() {
    assert_eq!(arithmetic(0x5, 0x05, 0x03), (0x02, 1));
    assert_eq!(arithmetic(0x5, 0x05, 0x05), (0x00, 0));
    assert_eq!(arithmetic(0x5, 0x00, 0xFF), (0x01, 0));
}

#[test]
fn shift_right_flags_the_low_bit() {
    assert_eq!(arithmetic(0x6, 0b0000_0101, 0xAA), (0b0000_0010, 1));
    assert_eq!(arithmetic(0x6, 0b1000_0100, 0xAA), (0b0100_0010, 0));
    assert_eq!(arithmetic(0x6, 0xFF, 0x00), (0x7F, 1));
}

#[test]
fn subtract_reversed() {
    assert_eq!(arithmetic(0x7, 0x03, 0x05), (0x02, 1));
    assert_eq!(arithmetic(0x7, 0x05, 0x05), (0x00, 0));
}

#[test]
fn subtract_reversed_wraps_below_zero() {
    assert_eq!(arithmetic(0x7, 0x05, 0x03), (0xFE, 0));
    assert_eq!(arithmetic(0x7, 0xFF, 0x00), (0x01, 0));
}

#[test]
fn shift_left_flags_bit_four_in_place() {
    assert_eq!(arithmetic(0xE, 0x10, 0xAA), (0x20, 0x10));
    assert_eq!(arithmetic(0xE, 0x80, 0xAA), (0x00, 0x00));
    assert_eq!(arithmetic(0xE, 0xFF, 0xAA), (0xFE, 0x10));
    assert_eq!(arithmetic(0xE, 0x0F, 0xAA), (0x1E, 0x00));
    assert_eq!(arithmetic(0xE, 0x91, 0xAA), (0x22, 0x10));
}

#[test]
fn flag_register_as_first_operand_is_computed_from_the_flag() {
    // VF := 0xFF, V1 := 1, VF += V1: the carry 1 is written first, then
    // VF := VF + V1 = 2.
    let chip8 = run(&[0x6F, 0xFF, 0x61, 0x01, 0x8F, 0x14], 3);
    assert_eq!(chip8.v_register()[0xF], 2);
    // VF := 5, V1 := 3, VF -= V1: the flag 1 is written first, then
    // VF := 1 - 3 = 0xFE.
    let chip8 = run(&[0x6F, 0x05, 0x61, 0x03, 0x8F, 0x15], 3);
    assert_eq!(chip8.v_register()[0xF], 0xFE);
    // VF := 3, shift right: the flag 1 is written first, then VF := 1 >> 1.
    let chip8 = run(&[0x6F, 0x03, 0x8F, 0x06], 2);
    assert_eq!(chip8.v_register()[0xF], 0);
    // VF := 0x10, shift left: the flag 0x10 is written first, then doubled.
    let chip8 = run(&[0x6F, 0x10, 0x8F, 0x0E], 2);
    assert_eq!(chip8.v_register()[0xF], 0x20);
}

#[test]
fn flag_register_as_second_operand_is_read_after_the_flag_is_written() {
    // V1 := 0xFF, VF := 1, V1 += VF: carry 1, then V1 := 0xFF + 1 = 0.
    let chip8 = run(&[0x61, 0xFF, 0x6F, 0x01, 0x81, 0xF4], 3);
    assert_eq!(chip8.v_register()[1], 0x00);
    assert_eq!(chip8.v_register()[0xF], 1);
    // V1 := 0x10, VF := 0x20, V1 += VF: no carry, so VF := 0 and V1 stays.
    let chip8 = run(&[0x61, 0x10, 0x6F, 0x20, 0x81, 0xF4], 3);
    assert_eq!(chip8.v_register()[1], 0x10);
    assert_eq!(chip8.v_register()[0xF], 0);
}

#[test]
fn arithmetic_with_unknown_sub_code_is_a_fault_and_changes_nothing() {
    let mut chip8 = run(&[0x61, 0x07, 0x62, 0x09, 0x81, 0x28], 2);
    let registers: [u8; 16] = *chip8.v_register();
    let report: CycleReport = chip8.emulation_cycle();
    assert_eq!(report.fault, Some(Fault::UnknownOpcode));
    assert_eq!(chip8.v_register(), &registers);
    assert_eq!(chip8.pc(), 0x206);
    assert_eq!(chip8.opcode(), 0x8128);
}

#[test]
fn unknown_words_are_faults_and_change_nothing() {
    let words: [[u8; 2]; 5] = [[0x00, 0x01], [0xE1, 0x00], [0xF1, 0x00], [0xF1, 0xFF], [0x81, 0x2F]];
    for word in words {
        let mut chip8 = ChipEight::new();
        assert_eq!(chip8.load_rom(&word), Ok(()));
        let memory: [u8; 4096] = *chip8.memory();
        let report: CycleReport = chip8.emulation_cycle();
        assert_eq!(report, CycleReport { beep: false, fault: Some(Fault::UnknownOpcode) });
        assert_eq!(chip8.pc(), 0x202);
        assert_eq!(chip8.v_register(), &[0u8; 16]);
        assert_eq!(chip8.memory(), &memory);
        assert_eq!(chip8.i_register(), 0);
        assert_eq!(chip8.sp(), 0);
        assert!(chip8.display().iter().all(|cell| *cell == 0));
    }
}

#[test]
fn load_index() {
    assert_eq!(run(&[0xAF, 0xFF], 1).i_register(), 0xFFF);
    assert_eq!(run(&[0xA1, 0x23], 1).i_register(), 0x123);
}

#[test]
fn jump_with_offset_adds_register_zero() {
    assert_eq!(run(&[0x60, 0x10, 0xB3, 0x00], 2).pc(), 0x310);
    assert_eq!(run(&[0x60, 0xFF, 0xBF, 0xFF], 2).pc(), 0x10FE);
    assert_eq!(run(&[0xB3, 0x00], 1).pc(), 0x300);
}

#[test]
fn randomize_masks_the_byte_given() {
    let mut chip8 = ChipEight::new();
    assert_eq!(chip8.load_rom(&[0xC3, 0x0F, 0xC4, 0xFF, 0xC5, 0x00, 0xC6, 0xA5]), Ok(()));
    assert_eq!(chip8.cycle_with(0xAB).fault, None);
    assert_eq!(chip8.v_register()[3], 0x0B);
    assert_eq!(chip8.cycle_with(0xAB).fault, None);
    assert_eq!(chip8.v_register()[4], 0xAB);
    assert_eq!(chip8.cycle_with(0xAB).fault, None);
    assert_eq!(chip8.v_register()[5], 0x00);
    assert_eq!(chip8.cycle_with(0xFF).fault, None);
    assert_eq!(chip8.v_register()[6], 0xA5);
    assert_eq!(chip8.pc(), 0x208);
    assert_eq!(chip8.v_register()[0xF], 0);
}

#[test]
fn randomize_draws_a_byte_within_the_mask() {
    for _ in 0..200 {
        let chip8 = run(&[0x63, 0xFF, 0xC3, 0x3C, 0xC4, 0x00], 3);
        assert_eq!(chip8.v_register()[3] & !0x3C, 0);
        assert_eq!(chip8.v_register()[4], 0);
        assert_eq!(chip8.pc(), 0x206);
    }
}

#[test]
fn cycle_with_ignores_the_byte_for_other_instructions() {
    let program: [u8; 8] = [0x61, 0x0A, 0x71, 0x05, 0xA2, 0x22, 0xF1, 0x1E];
    let mut first = ChipEight::new();
    let mut second = ChipEight::new();
    assert_eq!(first.load_rom(&program), Ok(()));
    assert_eq!(second.load_rom(&program), Ok(()));
    for _ in 0..4 {
        assert_eq!(first.cycle_with(0x00), second.cycle_with(0xFF));
    }
    assert_eq!(first.v_register(), second.v_register());
    assert_eq!(first.i_register(), 0x231);
    assert_eq!(second.i_register(), 0x231);
    assert_eq!(first.pc(), second.pc());
}

#[test]
fn key_query_skips_if_pressed() {
    let mut chip8 = run(&[0x63, 0x0B, 0xE3, 0x9E], 1);
    assert!(chip8.set_key(0xB, true));
    assert_eq!(chip8.emulation_cycle().fault, None);
    assert_eq!(chip8.pc(), 0x206);
    let chip8 = run(&[0x63, 0x0B, 0xE3, 0x9E], 2);
    assert_eq!(chip8.pc(), 0x204);
}

#[test]
fn key_query_skips_if_not_pressed() {
    let mut chip8 = run(&[0x63, 0x0B, 0xE3, 0xA1], 1);
    assert!(chip8.set_key(0xB, true));
    assert_eq!(chip8.emulation_cycle().fault, None);
    assert_eq!(chip8.pc(), 0x204);
    let mut chip8 = run(&[0x63, 0x0B, 0xE3, 0xA1], 1);
    assert!(chip8.set_key(0xA, true));
    assert_eq!(chip8.emulation_cycle().fault, None);
    assert_eq!(chip8.pc(), 0x206);
}

#[test]
fn key_query_beyond_the_keypad_is_a_fault_and_does_not_skip() {
    for low in [0x9Eu8, 0xA1u8] {
        let mut chip8 = run(&[0x63, 0x10, 0xE3, low], 1);
        let report: CycleReport = chip8.emulation_cycle();
        assert_eq!(report.fault, Some(Fault::KeyOutOfRange));
        assert_eq!(chip8.pc(), 0x204);
    }
    let mut chip8 = run(&[0x63, 0xFF, 0xE3, 0xA1], 1);
    assert_eq!(chip8.emulation_cycle().fault, Some(Fault::KeyOutOfRange));
}

#[test]
fn key_wait_without_a_key_repeats_the_instruction() {
    let mut chip8 = run(&[0x65, 0x77, 0xF5, 0x0A], 1);
    for _ in 0..5 {
        let before: u16 = chip8.pc();
        let report: CycleReport = chip8.emulation_cycle();
        assert_eq!(report, CycleReport { beep: false, fault: None });
        assert_eq!(chip8.pc(), before);
        assert_eq!(chip8.pc(), 0x202);
        assert_eq!(chip8.v_register()[5], 0x77);
    }
}

#[test]
fn key_wait_loads_the_lowest_key_held_down() {
    let mut chip8 = run(&[0x65, 0x77, 0xF5, 0x0A], 1);
    chip8.emulation_cycle();
    assert_eq!(chip8.pc(), 0x202);
    assert!(chip8.set_key(0xC, true));
    assert!(chip8.set_key(0x3, true));
    assert!(chip8.set_key(0x9, true));
    let report: CycleReport = chip8.emulation_cycle();
    assert_eq!(report.fault, None);
    assert_eq!(chip8.v_register()[5], 0x3);
    assert_eq!(chip8.pc(), 0x204);
}

#[test]
fn key_wait_finds_each_single_key() {
    for key in 0..16usize {
        let mut chip8 = run(&[0xF0, 0x0A], 0);
        assert!(chip8.set_key(key, true));
        assert_eq!(chip8.emulation_cycle().fault, None);
        assert_eq!(chip8.v_register()[0], key as u8);
        assert_eq!(chip8.pc(), 0x202);
    }
}

#[test]
fn sound_timer_of_one_beeps_once() {
    // V0 := 2, sound := V0: the cycle that sets the timer leaves it at 1.
    let mut chip8 = run(&[0x60, 0x02, 0xF0, 0x18, 0x61, 0x00, 0x61, 0x00, 0x61, 0x00], 1);
    assert!(!chip8.emulation_cycle().beep);
    assert_eq!(chip8.sound_timer(), 1);
    let report: CycleReport = chip8.emulation_cycle();
    assert_eq!(report, CycleReport { beep: true, fault: None });
    assert_eq!(chip8.sound_timer(), 0);
    let report: CycleReport = chip8.emulation_cycle();
    assert_eq!(report, CycleReport { beep: false, fault: None });
    assert_eq!(chip8.sound_timer(), 0);
}

#[test]
fn setting_the_sound_timer_to_one_beeps_in_the_same_cycle() {
    let mut chip8 = run(&[0x60, 0x01, 0xF0, 0x18, 0x61, 0x00, 0x61, 0x00], 1);
    let report: CycleReport = chip8.emulation_cycle();
    assert!(report.beep);
    assert_eq!(chip8.sound_timer(), 0);
    let report: CycleReport = chip8.emulation_cycle();
    assert!(!report.beep);
    assert_eq!(chip8.sound_timer(), 0);
}

#[test]
fn sound_timer_of_zero_is_silent() {
    let mut chip8 = run(&[0x60, 0x00, 0xF0, 0x18, 0x61, 0x00], 1);
    assert!(!chip8.emulation_cycle().beep);
    assert_eq!(chip8.sound_timer(), 0);
    assert!(!chip8.emulation_cycle().beep);
    assert_eq!(chip8.sound_timer(), 0);
}

#[test]
fn sound_timer_counts_down_and_beeps_at_one() {
    let mut chip8 = run(&[0x60, 0x03, 0xF0, 0x18, 0x12, 0x04], 1);
    assert!(!chip8.emulation_cycle().beep);
    assert_eq!(chip8.sound_timer(), 2);
    assert!(!chip8.emulation_cycle().beep);
    assert_eq!(chip8.sound_timer(), 1);
    assert!(chip8.emulation_cycle().beep);
    assert_eq!(chip8.sound_timer(), 0);
    assert!(!chip8.emulation_cycle().beep);
    assert_eq!(chip8.sound_timer(), 0);
}

#[test]
fn delay_timer_counts_down_and_is_read_back() {
    // V0 := 5, delay := V0, V1 := delay, V2 := delay, jump to self.
    let mut chip8 = run(&[0x60, 0x05, 0xF0, 0x15, 0xF1, 0x07, 0xF2, 0x07, 0x12, 0x08], 2);
    assert_eq!(chip8.delay_timer(), 4);
    chip8.emulation_cycle();
    assert_eq!(chip8.v_register()[1], 4);
    assert_eq!(chip8.delay_timer(), 3);
    chip8.emulation_cycle();
    assert_eq!(chip8.v_register()[2], 3);
    for expected in [1u8, 0, 0, 0] {
        chip8.emulation_cycle();
        assert_eq!(chip8.delay_timer(), expected);
    }
    assert_eq!(chip8.sound_timer(), 0);
}

#[test]
fn add_to_index() {
    assert_eq!(run(&[0xA1, 0x00, 0x63, 0xFF, 0xF3, 0x1E], 3).i_register(), 0x1FF);
    let chip8 = run(&[0xAF, 0xFF, 0x63, 0x01, 0xF3, 0x1E], 3);
    assert_eq!(chip8.i_register(), 0x1000);
    assert_eq!(chip8.v_register()[0xF], 0);
}

#[test]
fn add_to_index_wraps_at_sixteen_bits() {
    // I := 0xFFF, V3 := 0xFF, then I += V3 in a loop: 0xFFF + 240 * 255 is
    // 0xFF0F; the next addition passes 0xFFFF and leaves 0x000E.
    let mut chip8 = run(&[0xAF, 0xFF, 0x63, 0xFF, 0xF3, 0x1E, 0x12, 0x04], 2);
    for _ in 0..240 {
        chip8.emulation_cycle();
        chip8.emulation_cycle();
    }
    assert_eq!(chip8.i_register(), 0xFF0F);
    assert_eq!(chip8.emulation_cycle().fault, None);
    assert_eq!(chip8.i_register(), 0x000E);
    assert_eq!(chip8.v_register()[0xF], 0);
}

#[test]
fn glyph_address_is_base_plus_five_times_digit() {
    assert_eq!(run(&[0x63, 0x00, 0xF3, 0x29], 2).i_register(), 0x50);
    assert_eq!(run(&[0x63, 0x01, 0xF3, 0x29], 2).i_register(), 0x55);
    assert_eq!(run(&[0x63, 0x0F, 0xF3, 0x29], 2).i_register(), 0x50 + 75);
    assert_eq!(run(&[0x63, 0x34, 0xF3, 0x29], 2).i_register(), 0x50 + 260);
    assert_eq!(run(&[0x63, 0xFF, 0xF3, 0x29], 2).i_register(), 0x50 + 1275);
}

#[test]
fn bcd_stores_three_digits() {
    let chip8 = run(&[0x63, 234, 0xA3, 0x00, 0xF3, 0x33], 3);
    assert_eq!(&chip8.memory()[0x300..0x303], &[2, 3, 4]);
    assert_eq!(chip8.i_register(), 0x300);
}

#[test]
fn bcd_of_small_and_large_values() {
    let chip8 = run(&[0x63, 0, 0xA3, 0x00, 0xF3, 0x33], 3);
    assert_eq!(&chip8.memory()[0x300..0x303], &[0, 0, 0]);
    let chip8 = run(&[0x63, 7, 0xA3, 0x00, 0xF3, 0x33], 3);
    assert_eq!(&chip8.memory()[0x300..0x303], &[0, 0, 7]);
    let chip8 = run(&[0x63, 99, 0xA3, 0x00, 0xF3, 0x33], 3);
    assert_eq!(&chip8.memory()[0x300..0x303], &[0, 9, 9]);
    let chip8 = run(&[0x63, 255, 0xA3, 0x00, 0xF3, 0x33], 3);
    assert_eq!(&chip8.memory()[0x300..0x303], &[2, 5, 5]);
    assert_eq!(chip8.memory()[0x2FF], 0);
    assert_eq!(chip8.memory()[0x303], 0);
}

#[test]
fn bcd_at_the_end_of_memory_stores_what_fits() {
    let mut chip8 = run(&[0x63, 234, 0xAF, 0xFE, 0xF3, 0x33], 2);
    let report: CycleReport = chip8.emulation_cycle();
    assert_eq!(report.fault, Some(Fault::MemoryOutOfRange));
    assert_eq!(&chip8.memory()[0xFFE..], &[2, 3]);
    let chip8 = run(&[0x63, 234, 0xAF, 0xFD, 0xF3, 0x33], 3);
    assert_eq!(&chip8.memory()[0xFFD..], &[2, 3, 4]);
}

#[test]
fn store_registers_copies_v0_to_vx() {
    let chip8 = run(&[0x60, 0x11, 0x61, 0x22, 0x62, 0x33, 0x63, 0x44, 0xA3, 0x00, 0xF2, 0x55], 6);
    assert_eq!(&chip8.memory()[0x300..0x304], &[0x11, 0x22, 0x33, 0x00]);
    assert_eq!(chip8.i_register(), 0x300);
    assert_eq!(chip8.v_register()[3], 0x44);
}

#[test]
fn store_registers_with_x_zero_and_fifteen() {
    let chip8 = run(&[0x60, 0x11, 0x61, 0x22, 0xA3, 0x00, 0xF0, 0x55], 4);
    assert_eq!(&chip8.memory()[0x300..0x302], &[0x11, 0x00]);
    let chip8 = run(&[0x60, 0x11, 0x6E, 0xEE, 0x6F, 0xFF, 0xA3, 0x00, 0xFF, 0x55], 5);
    assert_eq!(chip8.memory()[0x300], 0x11);
    assert_eq!(chip8.memory()[0x30E], 0xEE);
    assert_eq!(chip8.memory()[0x30F], 0xFF);
    assert_eq!(chip8.memory()[0x310], 0x00);
}

#[test]
fn store_registers_at_the_end_of_memory_stores_what_fits() {
    let mut chip8 = run(&[0x60, 0x11, 0x61, 0x22, 0x62, 0x33, 0xAF, 0xFE, 0xF2, 0x55], 4);
    let report: CycleReport = chip8.emulation_cycle();
    assert_eq!(report.fault, Some(Fault::MemoryOutOfRange));
    assert_eq!(&chip8.memory()[0xFFD..], &[0x00, 0x11, 0x22]);
    assert_eq!(chip8.i_register(), 0xFFE);
}

#[test]
fn load_registers_copies_memory_to_v0_to_vx() {
    // I := 0x208, load V0 to V2, then data.
    let chip8 = run(&[0x63, 0x99, 0xA2, 0x08, 0xF2, 0x65, 0x00, 0x00, 0xAA, 0xBB, 0xCC, 0xDD], 3);
    assert_eq!(&chip8.v_register()[..4], &[0xAA, 0xBB, 0xCC, 0x99]);
    assert_eq!(chip8.i_register(), 0x208);
}

#[test]
fn load_registers_at_the_end_of_memory_loads_what_is_there() {
    let mut rom: Vec<u8> = vec![0; 3584];
    rom[..8].copy_from_slice(&[0x61, 0x55, 0x62, 0x66, 0xAF, 0xFF, 0xF2, 0x65]);
    rom[3583] = 0x77;
    let mut chip8 = ChipEight::new();
    assert_eq!(chip8.load_rom(&rom), Ok(()));
    chip8.emulation_cycle();
    chip8.emulation_cycle();
    chip8.emulation_cycle();
    let report: CycleReport = chip8.emulation_cycle();
    assert_eq!(report.fault, Some(Fault::MemoryOutOfRange));
    assert_eq!(&chip8.v_register()[..3], &[0x77, 0x55, 0x66]);
}

#[test]
fn store_then_load_round_trip() {
    let mut program: Vec<u8> = Vec::new();
    for x in 0..16u8 {
        program.extend_from_slice(&[0x60 | x, 0xA0 + x]);
    }
    program.extend_from_slice(&[0xA4, 0x00, 0xFF, 0x55]);
    for x in 0..16u8 {
        program.extend_from_slice(&[0x60 | x, 0x00]);
    }
    program.extend_from_slice(&[0xFF, 0x65]);
    let chip8 = run(&program, 16 + 2 + 16 + 1);
    for x in 0..16usize {
        assert_eq!(chip8.v_register()[x], 0xA0 + x as u8);
        assert_eq!(chip8.memory()[0x400 + x], 0xA0 + x as u8);
    }
}
