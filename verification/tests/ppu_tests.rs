use nes_core::ppu::PPU;
use nes_core::rom::Mirroring;

#[test]
fn test_ppu_writes() {
    let mut ppu = PPU::new_empty_rom();
    ppu.write_to_ppu_addr(0x23);
    ppu.write_to_ppu_addr(0x05);
    ppu.write_to_data(0x66);

    assert_eq!(ppu.vram[0x0305], 0x66);
}

#[test]
fn test_ppu_vram_reads() {
    let mut ppu = PPU::new_empty_rom();
    ppu.vram[0x0305] = 0x66;

    ppu.write_to_ppu_addr(0x23);
    ppu.write_to_ppu_addr(0x05);

    ppu.read_data(); // load buffer
    assert_eq!(ppu.address.get(), 0x2306);
    assert_eq!(ppu.read_data(), 0x66);
}

#[test]
fn test_ppu_reads_cross_page() {
    let mut ppu = PPU::new_empty_rom();
    ppu.vram[0x01ff] = 0x66;
    ppu.vram[0x0200] = 0x77;

    ppu.write_to_ppu_addr(0x21);
    ppu.write_to_ppu_addr(0xff);

    ppu.read_data(); // load buffer
    assert_eq!(ppu.read_data(), 0x66);
    assert_eq!(ppu.read_data(), 0x77);
}

#[test]
fn test_ppu_vram_reads_step_32() {
    let mut ppu = PPU::new_empty_rom();
    ppu.write_to_control(0b100);

    ppu.vram[0x01ff] = 0x66;
    ppu.vram[0x01ff + 32] = 0x77;
    ppu.vram[0x01ff + 64] = 0x88;
    ppu.vram[0x01ff + 65] = 0x99;

    ppu.write_to_ppu_addr(0x21);
    ppu.write_to_ppu_addr(0xff);

    ppu.read_data(); // load buffer
    assert_eq!(ppu.read_data(), 0x66);

    ppu.write_to_control(0);
    assert_eq!(ppu.read_data(), 0x77);
    assert_eq!(ppu.read_data(), 0x88);
    assert_eq!(ppu.read_data(), 0x99);
}

// Horizontal mirroring:
//   [0x2000 A ] [0x2400 a ]
//   [0x2800 B ] [0x2C00 b ]
#[test]
fn test_vram_horizontal_mirror() {
    let mut ppu = PPU::new_empty_rom();
    ppu.write_to_ppu_addr(0x24);
    ppu.write_to_ppu_addr(0x05);

    ppu.write_to_data(0x66); // write to a

    ppu.write_to_ppu_addr(0x28);
    ppu.write_to_ppu_addr(0x05);

    ppu.write_to_data(0x77); // write to B

    ppu.write_to_ppu_addr(0x20);
    ppu.write_to_ppu_addr(0x05);

    ppu.read_data(); // load buffer
    assert_eq!(ppu.read_data(), 0x66); // read from A

    ppu.write_to_ppu_addr(0x2c);
    ppu.write_to_ppu_addr(0x05);

    ppu.read_data(); // load buffer
    assert_eq!(ppu.read_data(), 0x77); // read from b
}

// Vertical mirroring:
//   [0x2000 A ] [0x2400 B ]
//   [0x2800 a ] [0x2C00 b ]
#[test]
fn test_vram_vertical_mirror() {
    let mut ppu = PPU::new(vec![0; 0x2000], Mirroring::VERTICAL);
    ppu.write_to_ppu_addr(0x20);
    ppu.write_to_ppu_addr(0x05);

    ppu.write_to_data(0x66); // write to A

    ppu.write_to_ppu_addr(0x2c);
    ppu.write_to_ppu_addr(0x05);

    ppu.write_to_data(0x77); // write to b

    ppu.write_to_ppu_addr(0x24);
    ppu.write_to_ppu_addr(0x05);

    ppu.read_data(); // load buffer
    assert_eq!(ppu.read_data(), 0x77); // read from B

    ppu.write_to_ppu_addr(0x28);
    ppu.write_to_ppu_addr(0x05);

    ppu.read_data(); // load buffer
    assert_eq!(ppu.read_data(), 0x66); // read from a
}

#[test]
fn test_read_status_resets_latch() {
    let mut ppu = PPU::new_empty_rom();
    ppu.vram[0x0305] = 0x66;

    ppu.write_to_ppu_addr(0x21);
    ppu.write_to_ppu_addr(0x23);
    ppu.write_to_ppu_addr(0x05);

    ppu.read_data(); // load buffer
    assert_ne!(ppu.read_data(), 0x66);

    ppu.read_status();

    ppu.write_to_ppu_addr(0x23);
    ppu.write_to_ppu_addr(0x05);

    ppu.read_data(); // load buffer
    assert_eq!(ppu.read_data(), 0x66);
}

#[test]
fn test_ppu_vram_mirroring() {
    let mut ppu = PPU::new_empty_rom();
    ppu.write_to_ppu_addr(0x63);
    ppu.write_to_ppu_addr(0x05);

    assert_eq!(ppu.address.get(), 0x2305);
}

#[test]
fn test_read_status_resets_vblank() {
    let mut ppu = PPU::new_empty_rom();
    ppu.status.set_vblank(true);

    let status = ppu.read_status();

    assert_eq!(status >> 7, 1);
    assert_eq!(ppu.status.bits() >> 7, 0);
}

#[test]
fn test_oam_read_write() {
    let mut ppu = PPU::new_empty_rom();
    ppu.write_to_oam_addr(0x10);
    ppu.write_to_oam_data(0x66);
    ppu.write_to_oam_data(0x77);

    ppu.write_to_oam_addr(0x10);
    assert_eq!(ppu.read_oam_data(), 0x66);

    ppu.write_to_oam_addr(0x11);
    assert_eq!(ppu.read_oam_data(), 0x77);
}

#[test]
fn test_oam_dma() {
    let mut ppu = PPU::new_empty_rom();

    let mut data = vec![0x66u8; 256];
    data[0] = 0x77;
    data[255] = 0x88;

    ppu.write_to_oam_addr(0x10);
    ppu.write_oam_dma(&data);

    ppu.write_to_oam_addr(0x0f); // wrap around, 255 + 16
    assert_eq!(ppu.read_oam_data(), 0x88);

    ppu.write_to_oam_addr(0x10);
    assert_eq!(ppu.read_oam_data(), 0x77);

    ppu.write_to_oam_addr(0x11);
    assert_eq!(ppu.read_oam_data(), 0x66);
}
