use nes_core::cpu::CPU;
use nes_core::rom::Rom;

const F_CARRY: u8 = 0x01;
const F_ZERO: u8 = 0x02;
const F_NEG: u8 = 0x80;
const F_OVRFLW: u8 = 0x40;
const F_BREAK: u8 = 0x30;

fn test_rom() -> Rom {
    let mut raw: Vec<u8> = vec![0x4E, 0x45, 0x53, 0x1A, 2, 1, 0, 0, 0, 0, 0, 0, 0, 0, 0, 0];
    let mut prg = vec![0u8; 2 * 16384];
    // reset vector points at 0x0600, where the tests load their programs
    prg[0x7FFC] = 0x00;
    prg[0x7FFD] = 0x06;
    raw.extend_from_slice(&prg);
    raw.extend_from_slice(&vec![0u8; 8192]);
    Rom::new(&raw).unwrap()
}

#[test]
fn test_0xa9_lda_immediate_load_data() {
    let mut cpu = CPU::new(test_rom());
    cpu.load_and_run(vec![0xa9, 0x05, 0x00]);
    assert_eq!(cpu.register_a, 0x05);
    assert!(cpu.status & F_ZERO == 0);
    assert!(cpu.status & F_NEG == 0);
}

#[test]
fn test_0xa9_lda_zero_flag() {
    let mut cpu = CPU::new(test_rom());
    cpu.load_and_run(vec![0xa9, 0x00, 0x00]);
    assert!(cpu.status & F_ZERO != 0);
}

#[test]
fn test_0xa9_lda_negative_flag() {
    let mut cpu = CPU::new(test_rom());
    cpu.load_and_run(vec![0xa9, 0xff, 0x00]);
    assert!(cpu.status & F_NEG != 0);
}

#[test]
fn test_0xaa_tax() {
    let mut cpu = CPU::new(test_rom());
    cpu.load_and_run(vec![0xa9, 0x0a, 0xaa, 0x00]);
    assert_eq!(cpu.register_x, 10);
    assert!(cpu.status & F_ZERO == 0);
    assert!(cpu.status & F_NEG == 0);
}

#[test]
fn test_0xaa_tax_zero_flag() {
    let mut cpu = CPU::new(test_rom());
    cpu.load_and_run(vec![0xa9, 0x00, 0x00]);
    assert!(cpu.status & F_ZERO != 0);
}

#[test]
fn test_0xaa_tax_negative_flag() {
    let mut cpu = CPU::new(test_rom());
    cpu.load_and_run(vec![0xa9, 0xff, 0x00]);
    assert_ne!(cpu.status & F_NEG, 0);
}

#[test]
fn test_5_ops_working_together() {
    let mut cpu = CPU::new(test_rom());
    cpu.load_and_run(vec![0xa9, 0xc0, 0xaa, 0xe8, 0x00]);
    assert_eq!(cpu.register_x, 0xc1);
}

#[test]
fn test_inx_overflow() {
    let mut cpu = CPU::new(test_rom());
    cpu.load_and_run(vec![0xa9, 0xff, 0xaa, 0xe8, 0x00]);
    assert_eq!(cpu.register_x, 0);
    assert_ne!(cpu.status & F_ZERO, 0);
}

#[test]
fn test_lda_from_memory() {
    let mut cpu = CPU::new(test_rom());
    cpu.mem_write(0x10, 0x55);
    cpu.load_and_run(vec![0xa5, 0x10, 0x00]);
    assert_eq!(cpu.register_a, 0x55);
}

#[test]
fn test_sta() {
    let mut cpu = CPU::new(test_rom());
    cpu.mem_write(0x10, 0x55);
    cpu.load_and_run(vec![0xa5, 0x10, 0x85, 0x20, 0x00]);
    let value = cpu.mem_read(0x20 as u16);
    assert_eq!(value, 0x55);
}

#[test]
fn test_adc() {
    let mut cpu = CPU::new(test_rom());
    cpu.load_and_run(vec![0xa9, 0x05, 0x69, 0x01, 0x00]);
    assert_eq!(cpu.register_a, 0x6);
}

#[test]
fn test_adc_with_carry() {
    let mut cpu = CPU::new(test_rom());
    cpu.load_and_run(vec![0xa9, 0x05, 0x38, 0x69, 0x01, 0x00]);
    assert_eq!(cpu.register_a, 0x7);
}

#[test]
fn test_adc_1() {
    let mut cpu = CPU::new(test_rom());
    cpu.load_and_run(vec![0xa9, 0x50, 0x69, 0x10, 0x00]);
    assert_eq!(cpu.register_a, 0x60);
    assert_eq!(cpu.status & F_CARRY, 0);
    assert_eq!(cpu.status & F_OVRFLW, 0);
}

#[test]
fn test_adc_2() {
    let mut cpu = CPU::new(test_rom());
    cpu.load_and_run(vec![0xa9, 0x50, 0x69, 0x50, 0x00]);
    assert_eq!(cpu.register_a, 0xa0);
    assert_eq!(cpu.status & F_CARRY, 0);
    assert_ne!(cpu.status & F_OVRFLW, 0);
}

#[test]
fn test_adc_3() {
    let mut cpu = CPU::new(test_rom());
    cpu.load_and_run(vec![0xa9, 0x50, 0x69, 0x90, 0x00]);
    assert_eq!(cpu.register_a, 0xe0);
    assert_eq!(cpu.status & F_CARRY, 0);
    assert_eq!(cpu.status & F_OVRFLW, 0);
}

#[test]
fn test_adc_4() {
    let mut cpu = CPU::new(test_rom());
    cpu.load_and_run(vec![0xa9, 0x50, 0x69, 0xd0, 0x00]);
    assert_eq!(cpu.register_a, 0x20);
    assert_ne!(cpu.status & F_CARRY, 0);
    assert_eq!(cpu.status & F_OVRFLW, 0);
}

#[test]
fn test_adc_5() {
    let mut cpu = CPU::new(test_rom());
    cpu.load_and_run(vec![0xa9, 0xd0, 0x69, 0x10, 0x00]);
    assert_eq!(cpu.register_a, 0xe0);
    assert_eq!(cpu.status & F_CARRY, 0);
    assert_eq!(cpu.status & F_OVRFLW, 0);
}

#[test]
fn test_adc_6() {
    let mut cpu = CPU::new(test_rom());
    cpu.load_and_run(vec![0xa9, 0xd0, 0x69, 0x50, 0x00]);
    assert_eq!(cpu.register_a, 0x20);
    assert_ne!(cpu.status & F_CARRY, 0);
    assert_eq!(cpu.status & F_OVRFLW, 0);
}

#[test]
fn test_adc_7() {
    let mut cpu = CPU::new(test_rom());
    cpu.load_and_run(vec![0xa9, 0xd0, 0x69, 0x90, 0x00]);
    assert_eq!(cpu.register_a, 0x60);
    assert_ne!(cpu.status & F_CARRY, 0);
    assert_ne!(cpu.status & F_OVRFLW, 0);
}

#[test]
fn test_adc_8() {
    let mut cpu = CPU::new(test_rom());
    cpu.load_and_run(vec![0xa9, 0xd0, 0x69, 0xd0, 0x00]);
    assert_eq!(cpu.register_a, 0xa0);
    assert_ne!(cpu.status & F_CARRY, 0);
    assert_eq!(cpu.status & F_OVRFLW, 0);
}

#[test]
fn test_sbc() {
    let mut cpu = CPU::new(test_rom());
    cpu.load_and_run(vec![0xa9, 0x05, 0xe9, 0x01, 0x00]);
    assert_eq!(cpu.register_a, 0x3);
}

#[test]
fn test_sbc_with_carry() {
    let mut cpu = CPU::new(test_rom());
    cpu.load_and_run(vec![0xa9, 0x05, 0x38, 0xe9, 0x01, 0x00]);
    assert_eq!(cpu.register_a, 0x4);
}

#[test]
fn test_sbc_1() {
    let mut cpu = CPU::new(test_rom());
    cpu.load_and_run(vec![0xa9, 0x50, 0xe9, 0xf0, 0x00]);
    assert_eq!(cpu.register_a, 0x5f);
    assert_eq!(cpu.status & F_CARRY, 0);
    assert_eq!(cpu.status & F_OVRFLW, 0);
}

#[test]
fn test_sbc_2() {
    let mut cpu = CPU::new(test_rom());
    cpu.load_and_run(vec![0xa9, 0x50, 0xe9, 0xb0, 0x00]);
    assert_eq!(cpu.register_a, 0x9f);
    assert_eq!(cpu.status & F_CARRY, 0);
    assert_ne!(cpu.status & F_OVRFLW, 0);
}

#[test]
fn test_sbc_3() {
    let mut cpu = CPU::new(test_rom());
    cpu.load_and_run(vec![0xa9, 0x50, 0xe9, 0x70, 0x00]);
    assert_eq!(cpu.register_a, 0xdf);
    assert_eq!(cpu.status & F_CARRY, 0);
    assert_eq!(cpu.status & F_OVRFLW, 0);
}

#[test]
fn test_sbc_4() {
    let mut cpu = CPU::new(test_rom());
    cpu.load_and_run(vec![0xa9, 0x50, 0xe9, 0x30, 0x00]);
    assert_eq!(cpu.register_a, 0x1f);
    assert_ne!(cpu.status & F_CARRY, 0);
    assert_eq!(cpu.status & F_OVRFLW, 0);
}

#[test]
fn test_sbc_5() {
    let mut cpu = CPU::new(test_rom());
    cpu.load_and_run(vec![0xa9, 0xd0, 0x38, 0xe9, 0xf0, 0x00]);
    assert_eq!(cpu.register_a, 0xe0);
    assert_eq!(cpu.status & F_CARRY, 0);
    assert_eq!(cpu.status & F_OVRFLW, 0);
}

#[test]
fn test_sbc_6() {
    let mut cpu = CPU::new(test_rom());
    cpu.load_and_run(vec![0xa9, 0xd0, 0x38, 0xe9, 0xb0, 0x00]);
    assert_eq!(cpu.register_a, 0x20);
    assert_ne!(cpu.status & F_CARRY, 0);
    assert_eq!(cpu.status & F_OVRFLW, 0);
}

#[test]
fn test_sbc_7() {
    let mut cpu = CPU::new(test_rom());
    cpu.load_and_run(vec![0xa9, 0xd0, 0x38, 0xe9, 0x70, 0x00]);
    assert_eq!(cpu.register_a, 0x60);
    assert_ne!(cpu.status & F_CARRY, 0);
    assert_ne!(cpu.status & F_OVRFLW, 0);
}

#[test]
fn test_sbc_8() {
    let mut cpu = CPU::new(test_rom());
    cpu.load_and_run(vec![0xa9, 0xd0, 0x38, 0xe9, 0x30, 0x00]);
    assert_eq!(cpu.register_a, 0xa0);
    assert_ne!(cpu.status & F_CARRY, 0);
    assert_eq!(cpu.status & F_OVRFLW, 0);
}

#[test]
fn test_asl_acc_1() {
    let mut cpu = CPU::new(test_rom());
    cpu.load_and_run(vec![0xa9, 0x01, 0x0a, 0x00]);
    assert_eq!(cpu.register_a, 0x02);
    assert_eq!(cpu.status & F_CARRY, 0);
    assert_eq!(cpu.status & F_NEG, 0);
    assert_eq!(cpu.status & F_ZERO, 0);
}

#[test]
fn test_asl_acc_2() {
    let mut cpu = CPU::new(test_rom());
    cpu.load_and_run(vec![0xa9, 0xf1, 0x0a, 0x00]);
    assert_eq!(cpu.register_a, 0xe2);
    assert_ne!(cpu.status & F_CARRY, 0);
    assert_ne!(cpu.status & F_NEG, 0);
}

#[test]
fn test_asl_acc_3() {
    let mut cpu = CPU::new(test_rom());
    cpu.load_and_run(vec![0xa9, 0x7f, 0x0a, 0x00]);
    assert_eq!(cpu.register_a, 0xfe);
    assert_eq!(cpu.status & F_CARRY, 0);
    assert_ne!(cpu.status & F_NEG, 0);
}

#[test]
fn test_asl_acc_4() {
    let mut cpu = CPU::new(test_rom());
    cpu.load_and_run(vec![0xa9, 0x80, 0x0a, 0x00]);
    assert_eq!(cpu.register_a, 0);
    assert_ne!(cpu.status & F_CARRY, 0);
    assert_eq!(cpu.status & F_NEG, 0);
    assert_ne!(cpu.status & F_ZERO, 0);
}

#[test]
fn test_lsr_acc_1() {
    let mut cpu = CPU::new(test_rom());
    cpu.load_and_run(vec![0xa9, 0x01, 0x4a, 0x00]);
    assert_eq!(cpu.register_a, 0);
    assert_eq!(cpu.status & F_NEG, 0);
    assert_ne!(cpu.status & F_CARRY, 0);
    assert_ne!(cpu.status & F_ZERO, 0);
}

#[test]
fn test_lsr_acc_2() {
    let mut cpu = CPU::new(test_rom());
    cpu.load_and_run(vec![0xa9, 0x81, 0x4a, 0x00]);
    assert_eq!(cpu.register_a, 0x40);
    assert_eq!(cpu.status & F_NEG, 0);
    assert_ne!(cpu.status & F_CARRY, 0);
    assert_eq!(cpu.status & F_ZERO, 0);
}

#[test]
fn test_lsr_acc_3() {
    let mut cpu = CPU::new(test_rom());
    cpu.load_and_run(vec![0xa9, 0x82, 0x4a, 0x00]);
    assert_eq!(cpu.register_a, 0x41);
    assert_eq!(cpu.status & F_CARRY, 0);
}

#[test]
fn test_pha_pla() {
    let mut cpu = CPU::new(test_rom());
    cpu.load_and_run(vec![0xa9, 0x11, 0x48, 0xa9, 0x22, 0x68, 0x00]);
    assert_eq!(cpu.register_a, 0x11);
}

#[test]
fn test_pha_plp() {
    let mut cpu = CPU::new(test_rom());
    cpu.load_and_run(vec![0xa9, 0xff, 0x48, 0x28, 0x00]);
    assert_eq!(cpu.status & !F_BREAK, !F_BREAK);
}

#[test]
fn test_jsr_rts() {
    let mut cpu = CPU::new(test_rom());
    cpu.load_and_run(vec![0x20, 0x09, 0x06, 0x20, 0x0c, 0x06, 0x20, 0x12, 0x06, 0xa2, 0x00, 0x60, 0xe8, 0xe0, 0x05, 0xd0, 0xfb, 0x60, 0x00]);
    assert_eq!(cpu.register_x, 5);
    assert_eq!(cpu.status & F_NEG, 0);
    assert_ne!(cpu.status & F_ZERO, 0);
    assert_ne!(cpu.status & F_CARRY, 0);
}
