use chip8::chip_eight::{ChipEight, LoadError};
use chip8::machine::{CycleReport, Fault};
use chip8::opcodes::Opcodes;

const FONT: [u8; 80] = [
    0xF0, 0x90, 0x90, 0x90, 0xF0, 0x20, 0x60, 0x20, 0x20, 0x70, 0xF0, 0x10, 0xF0, 0x80, 0xF0, 0xF0,
    0x10, 0xF0, 0x10, 0xF0, 0x90, 0x90, 0xF0, 0x10, 0x10, 0xF0, 0x80, 0xF0, 0x10, 0xF0, 0xF0, 0x80,
    0xF0, 0x90, 0xF0, 0xF0, 0x10, 0x20, 0x40, 0x40, 0xF0, 0x90, 0xF0, 0x90, 0xF0, 0xF0, 0x90, 0xF0,
    0x10, 0xF0, 0xF0, 0x90, 0xF0, 0x90, 0x90, 0xE0, 0x90, 0xE0, 0x90, 0xE0, 0xF0, 0x80, 0x80, 0x80,
    0xF0, 0xE0, 0x90, 0x90, 0x90, 0xE0, 0xF0, 0x80, 0xF0, 0x80, 0xF0, 0xF0, 0x80, 0xF0, 0x80, 0x80,
];

#[test]
fn new_machine_starts_at_program_start() {
    let chip8 = ChipEight::new();
    assert_eq!(chip8.pc(), 0x200);
}

#[test]
fn new_machine_holds_the_glyph_table() {
    let chip8 = ChipEight::new();
    assert_eq!(&chip8.memory()[0x50..0x50 + 80], &FONT[..]);
}

#[test]
fn new_machine_is_zero_outside_the_glyph_table() {
    let chip8 = ChipEight::new();
    assert!(chip8.memory()[..0x50].iter().all(|byte| *byte == 0));
    assert!(chip8.memory()[0xA0..].iter().all(|byte| *byte == 0));
    assert_eq!(chip8.opcode(), 0);
    assert_eq!(chip8.i_register(), 0);
    assert_eq!(chip8.sp(), 0);
    assert_eq!(chip8.delay_timer(), 0);
    assert_eq!(chip8.sound_timer(), 0);
    assert_eq!(chip8.v_register(), &[0u8; 16]);
    assert_eq!(chip8.stack(), &[0u16; 16]);
    assert_eq!(chip8.key(), &[false; 16]);
    assert!(chip8.display().iter().all(|cell| *cell == 0));
    assert_eq!(chip8.display().len(), 2048);
    assert_eq!(chip8.memory().len(), 4096);
}

#[test]
fn load_rom_places_bytes_from_0x200() {
    let mut chip8 = ChipEight::new();
    let before: [u8; 4096] = *chip8.memory();
    let rom: Vec<u8> = vec![0x12, 0x34, 0x56, 0x78, 0x9A];
    assert_eq!(chip8.load_rom(&rom), Ok(()));
    assert_eq!(&chip8.memory()[512..517], &rom[..]);
    assert_eq!(&chip8.memory()[..512], &before[..512]);
    assert_eq!(&chip8.memory()[517..], &before[517..]);
    assert_eq!(chip8.pc(), 0x200);
}

#[test]
fn load_rom_of_full_size_fills_memory_to_the_end() {
    let mut chip8 = ChipEight::new();
    let rom: Vec<u8> = (0..3584u32).map(|i| (i % 251) as u8 + 1).collect();
    assert_eq!(chip8.load_rom(&rom), Ok(()));
    for i in 0..3584usize {
        assert_eq!(chip8.memory()[512 + i], rom[i]);
    }
    assert_eq!(&chip8.memory()[0x50..0xA0], &FONT[..]);
    assert!(chip8.memory()[..0x50].iter().all(|byte| *byte == 0));
    assert!(chip8.memory()[0xA0..512].iter().all(|byte| *byte == 0));
}

#[test]
fn load_rom_of_no_bytes_changes_nothing() {
    let mut chip8 = ChipEight::new();
    let before: [u8; 4096] = *chip8.memory();
    assert_eq!(chip8.load_rom(&[]), Ok(()));
    assert_eq!(chip8.memory(), &before);
}

#[test]
fn load_rom_refuses_a_program_that_is_too_large() {
    let mut chip8 = ChipEight::new();
    assert_eq!(chip8.load_rom(&[0xAA, 0xBB]), Ok(()));
    let before: [u8; 4096] = *chip8.memory();
    let rom: Vec<u8> = vec![0xFF; 3585];
    assert_eq!(chip8.load_rom(&rom), Err(LoadError::ProgramTooLarge));
    assert_eq!(chip8.memory(), &before);
    let huge: Vec<u8> = vec![0x11; 10000];
    assert_eq!(chip8.load_rom(&huge), Err(LoadError::ProgramTooLarge));
    assert_eq!(chip8.memory(), &before);
}

#[test]
fn load_rom_overwrites_an_earlier_program_only_where_they_overlap() {
    let mut chip8 = ChipEight::new();
    assert_eq!(chip8.load_rom(&[1, 2, 3, 4]), Ok(()));
    assert_eq!(chip8.load_rom(&[9, 8]), Ok(()));
    assert_eq!(&chip8.memory()[512..516], &[9, 8, 3, 4]);
}

#[test]
fn fetch_decodes_the_word_at_the_program_counter() {
    let mut chip8 = ChipEight::new();
    assert_eq!(chip8.load_rom(&[0xD1, 0x25, 0x00, 0xE0]), Ok(()));
    assert_eq!(chip8.fetch(), Some(Opcodes::Draw(1, 2, 5)));
    assert_eq!(chip8.opcode(), 0xD125);
    assert_eq!(chip8.pc(), 0x200);
    assert_eq!(chip8.fetch(), Some(Opcodes::Draw(1, 2, 5)));
}

#[test]
fn fetch_beyond_memory_returns_none() {
    let mut chip8 = ChipEight::new();
    // Jump to 0xFFF: only one byte is left there.
    assert_eq!(chip8.load_rom(&[0x1F, 0xFF]), Ok(()));
    let report: CycleReport = chip8.emulation_cycle();
    assert_eq!(report.fault, None);
    assert_eq!(chip8.pc(), 0xFFF);
    assert_eq!(chip8.fetch(), None);
    assert_eq!(chip8.opcode(), 0x1FFF);
}

#[test]
fn cycle_with_program_counter_out_of_range_reports_and_stays() {
    let mut chip8 = ChipEight::new();
    // V0 := 2, delay := V0, jump to 0xFFF.
    assert_eq!(chip8.load_rom(&[0x60, 0x02, 0xF0, 0x15, 0x1F, 0xFF]), Ok(()));
    chip8.emulation_cycle();
    chip8.emulation_cycle();
    assert_eq!(chip8.delay_timer(), 1);
    chip8.emulation_cycle();
    assert_eq!(chip8.pc(), 0xFFF);
    assert_eq!(chip8.delay_timer(), 0);
    let registers: [u8; 16] = *chip8.v_register();
    let memory: [u8; 4096] = *chip8.memory();
    let report: CycleReport = chip8.emulation_cycle();
    assert_eq!(report, CycleReport { beep: false, fault: Some(Fault::ProgramCounterOutOfRange) });
    assert_eq!(chip8.pc(), 0xFFF);
    assert_eq!(chip8.v_register(), &registers);
    assert_eq!(chip8.memory(), &memory);
    assert_eq!(chip8.opcode(), 0x1FFF);
}

#[test]
fn last_instruction_slot_of_memory_is_fetched() {
    let mut chip8 = ChipEight::new();
    let mut rom: Vec<u8> = vec![0; 3584];
    // Jump to 0xFFE, where a load of 0x42 into V7 stands.
    rom[0] = 0x1F;
    rom[1] = 0xFE;
    rom[3582] = 0x67;
    rom[3583] = 0x42;
    assert_eq!(chip8.load_rom(&rom), Ok(()));
    chip8.emulation_cycle();
    assert_eq!(chip8.pc(), 0xFFE);
    let report: CycleReport = chip8.emulation_cycle();
    assert_eq!(report.fault, None);
    assert_eq!(chip8.v_register()[7], 0x42);
    assert_eq!(chip8.pc(), 0x1000);
    let report: CycleReport = chip8.emulation_cycle();
    assert_eq!(report.fault, Some(Fault::ProgramCounterOutOfRange));
    assert_eq!(chip8.pc(), 0x1000);
}

#[test]
fn set_key_records_key_state() {
    let mut chip8 = ChipEight::new();
    assert!(chip8.set_key(0, true));
    assert!(chip8.set_key(15, true));
    assert!(chip8.key()[0]);
    assert!(chip8.key()[15]);
    assert!(!chip8.key()[7]);
    assert!(chip8.set_key(0, false));
    assert!(!chip8.key()[0]);
    assert!(chip8.key()[15]);
}

#[test]
fn set_key_ignores_an_index_beyond_the_keypad() {
    let mut chip8 = ChipEight::new();
    assert!(!chip8.set_key(16, true));
    assert!(!chip8.set_key(usize::MAX, true));
    assert_eq!(chip8.key(), &[false; 16]);
}
