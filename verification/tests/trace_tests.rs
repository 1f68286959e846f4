use nes_core::cpu::CPU;
use nes_core::rom::Rom;
use nes_core::trace::trace_line;

fn test_rom() -> Rom {
    let mut raw: Vec<u8> = vec![0x4E, 0x45, 0x53, 0x1A, 2, 1, 0, 0, 0, 0, 0, 0, 0, 0, 0, 0];
    let mut prg = vec![0u8; 2 * 16384];
    prg[0x7FFC] = 0x00;
    prg[0x7FFD] = 0x06;
    raw.extend_from_slice(&prg);
    raw.extend_from_slice(&vec![0u8; 8192]);
    Rom::new(&raw).unwrap()
}

fn trace(cpu: &CPU) -> String {
    String::from_utf8(trace_line(cpu)).unwrap()
}

#[test]
fn test_format_trace() {
    let mut cpu = CPU::new(test_rom());
    cpu.mem_write(100, 0xa2);
    cpu.mem_write(101, 0x01);
    cpu.mem_write(102, 0xca);
    cpu.mem_write(103, 0x88);
    cpu.mem_write(104, 0x00);

    cpu.reset();
    cpu.program_counter = 100;
    cpu.register_a = 1;
    cpu.register_x = 2;
    cpu.register_y = 3;

    let mut result: Vec<String> = vec![];
    loop {
        result.push(trace(&cpu));
        if !cpu.step() {
            break;
        }
    }

    println!("{}", result[0]);

    assert_eq!(
        "0064  A2 01     LDX #$01                        A:01 X:02 Y:03 P:24 SP:FD",
        result[0]
    );
    assert_eq!(
        "0066  CA        DEX                             A:01 X:01 Y:03 P:24 SP:FD",
        result[1]
    );
    assert_eq!(
        "0067  88        DEY                             A:01 X:00 Y:03 P:26 SP:FD",
        result[2]
    );
}

#[test]
fn test_format_mem_access() {
    let mut cpu = CPU::new(test_rom());
    // ORA ($33), Y
    cpu.mem_write(100, 0x11);
    cpu.mem_write(101, 0x33);

    // data
    cpu.mem_write(0x33, 0x00);
    cpu.mem_write(0x34, 0x04);

    // target cell
    cpu.mem_write(0x400, 0xAA);

    cpu.reset();
    cpu.program_counter = 100;
    cpu.register_y = 0;

    let mut result: Vec<String> = vec![];
    loop {
        result.push(trace(&cpu));
        if !cpu.step() {
            break;
        }
    }

    assert_eq!(
        "0064  11 33     ORA ($33),Y = 0400 @ 0400 = AA  A:00 X:00 Y:00 P:24 SP:FD",
        result[0]
    );
}
