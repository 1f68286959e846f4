use nes_core::cpu::CPU;
use nes_core::rom::Mirroring;
use nes_core::rom::Rom;
use nes_core::rom::RomError;

fn rom_image(prg_banks: u8, chr_banks: u8, ctrl6: u8, ctrl7: u8) -> Vec<u8> {
    let mut raw: Vec<u8> = vec![
        0x4E, 0x45, 0x53, 0x1A, prg_banks, chr_banks, ctrl6, ctrl7, 0, 0, 0, 0, 0, 0, 0, 0,
    ];
    raw.extend_from_slice(&vec![0u8; prg_banks as usize * 16384]);
    raw.extend_from_slice(&vec![0u8; chr_banks as usize * 8192]);
    raw
}

#[test]
fn test_rom_parse_ok() {
    let raw = rom_image(1, 1, 0x01, 0x00);
    let rom = Rom::new(&raw).unwrap();
    assert_eq!(rom.prg_rom.len(), 16384);
    assert_eq!(rom.chr_rom.len(), 8192);
    assert_eq!(rom.mapper, 0);
    assert_eq!(rom.screen_mirroring, Mirroring::VERTICAL);
}

#[test]
fn test_rom_parse_horizontal_and_trainer() {
    let mut raw: Vec<u8> = vec![
        0x4E, 0x45, 0x53, 0x1A, 1, 1, 0x04, 0x00, 0, 0, 0, 0, 0, 0, 0, 0,
    ];
    raw.extend_from_slice(&vec![0xAAu8; 512]); // trainer, skipped
    let mut prg = vec![0u8; 16384];
    prg[0] = 0x42;
    raw.extend_from_slice(&prg);
    raw.extend_from_slice(&vec![0u8; 8192]);
    let rom = Rom::new(&raw).unwrap();
    assert_eq!(rom.screen_mirroring, Mirroring::HORIZONTAL);
    assert_eq!(rom.prg_rom[0], 0x42);
}

#[test]
fn test_rom_parse_bad_magic() {
    let mut raw = rom_image(1, 1, 0, 0);
    raw[0] = 0x4D;
    assert!(matches!(Rom::new(&raw), Err(RomError::NotInes)));
}

#[test]
fn test_rom_parse_bad_mapper() {
    let raw = rom_image(1, 1, 0x10, 0x00);
    assert!(matches!(Rom::new(&raw), Err(RomError::UnsupportedMapper)));
}

#[test]
fn test_rom_parse_truncated() {
    let mut raw = rom_image(1, 1, 0, 0);
    raw.truncate(raw.len() - 1);
    assert!(matches!(Rom::new(&raw), Err(RomError::Truncated)));
}

#[test]
fn test_rom_parse_no_banks() {
    assert!(matches!(Rom::new(&rom_image(0, 1, 0, 0)), Err(RomError::NoPrgRom)));
    assert!(matches!(Rom::new(&rom_image(1, 0, 0, 0)), Err(RomError::NoChrRom)));
}

fn test_rom() -> Rom {
    let mut raw = rom_image(2, 1, 0, 0);
    raw[16 + 0x7FFC] = 0x00;
    raw[16 + 0x7FFD] = 0x06;
    Rom::new(&raw).unwrap()
}

// RAM mirror: a write through one mirror image is read through another.
#[test]
fn test_ram_mirrors() {
    let mut cpu = CPU::new(test_rom());
    cpu.mem_write(0x0042, 0x99);
    assert_eq!(cpu.mem_read(0x0842), 0x99);
    assert_eq!(cpu.mem_read(0x1042), 0x99);
    assert_eq!(cpu.mem_read(0x1842), 0x99);
}

// Reset state: registers cleared, stack pointer at 0xFD, status 0x24, and
// the program counter fetched from the reset vector.
#[test]
fn test_reset_state() {
    let mut cpu = CPU::new(test_rom());
    cpu.reset();
    assert_eq!(cpu.register_a, 0);
    assert_eq!(cpu.register_x, 0);
    assert_eq!(cpu.register_y, 0);
    assert_eq!(cpu.stack_pointer, 0xFD);
    assert_eq!(cpu.status, 0x24);
    assert_eq!(cpu.program_counter, 0x0600);
}

// Indirect JMP page-wrap quirk: JMP ($02FF) takes its high byte from $0200.
#[test]
fn test_jmp_indirect_page_wrap() {
    let mut cpu = CPU::new(test_rom());
    cpu.mem_write(0x02FF, 0x00); // target low
    cpu.mem_write(0x0300, 0x50); // would be the high byte without the quirk
    cpu.mem_write(0x0200, 0x07); // actual high byte source: $0200 -> 0x0700
    cpu.mem_write(0x0700, 0x00); // BRK at the target
    cpu.load_and_run(vec![0x6c, 0xff, 0x02]);
    // after the jump the fetch at 0x0700 read the break instruction
    assert_eq!(cpu.program_counter, 0x0701);
}

// The instruction clock: LDA immediate costs 2 cycles, the terminating
// fetch adds nothing.
#[test]
fn test_cycle_count_lda_immediate() {
    let mut cpu = CPU::new(test_rom());
    cpu.load(vec![0xa9, 0x05, 0x00]);
    cpu.reset();
    let before = cpu.bus.cycles;
    cpu.step();
    assert_eq!(cpu.bus.cycles, before + 2);
}

// Page-cross surcharge: LDA $12F0,X with X=0x20 crosses into the next page
// and costs 5 cycles instead of 4.
#[test]
fn test_cycle_count_page_cross() {
    let mut cpu = CPU::new(test_rom());
    cpu.load(vec![0xbd, 0xf0, 0x12, 0x00]);
    cpu.reset();
    cpu.register_x = 0x20;
    let before = cpu.bus.cycles;
    cpu.step();
    assert_eq!(cpu.bus.cycles, before + 5);
}

// Branch surcharge: a taken branch costs one extra cycle.
#[test]
fn test_cycle_count_branch_taken() {
    let mut cpu = CPU::new(test_rom());
    cpu.load(vec![0xd0, 0x01, 0x00, 0x00]); // BNE +1 (Z clear after reset? P=0x24 -> Z clear)
    cpu.reset();
    let before = cpu.bus.cycles;
    cpu.step();
    assert_eq!(cpu.bus.cycles, before + 3);
}

// SBC(M) behaves as ADC(!M): same result and carry on a spot check.
#[test]
fn test_sbc_matches_adc_of_complement() {
    let mut a = CPU::new(test_rom());
    a.load_and_run(vec![0xa9, 0x50, 0x38, 0xe9, 0x30, 0x00]);
    let mut b = CPU::new(test_rom());
    b.load_and_run(vec![0xa9, 0x50, 0x38, 0x69, !0x30u8, 0x00]);
    assert_eq!(a.register_a, b.register_a);
    assert_eq!(a.status, b.status);
}

// Stack discipline: the pointer wraps within page one.
#[test]
fn test_stack_pointer_wraps() {
    let mut cpu = CPU::new(test_rom());
    // TXS with X=0, then PHA pushes at 0x0100 and wraps the pointer to 0xFF
    cpu.load_and_run(vec![0xa2, 0x00, 0x9a, 0xa9, 0x77, 0x48, 0x00]);
    assert_eq!(cpu.stack_pointer, 0xFF);
    assert_eq!(cpu.mem_read(0x0100), 0x77);
}
