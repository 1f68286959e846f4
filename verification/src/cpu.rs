//! The CPU core: registers, flags, stack, addressing modes and the
//! fetch–decode–execute loop.
//!
//! Every operation is specified as a pure transition on [`CpuView`], the
//! mathematical image of the whole machine (registers plus the bus and
//! everything behind it).  The interpreter's single-step function is proved
//! equal to the specification interpreter [`spec_step`].

use vstd::prelude::*;
use crate::bus::Bus;
use crate::bus::BusView;
use crate::bus::spec_mem_read;
use crate::bus::spec_mem_read_val;
use crate::bus::spec_mem_write;
use crate::bus::spec_bus_tick;
use crate::ppu::PpuView;
use crate::rom::Mirroring;
use crate::rom::Rom;
use crate::ops::Mnemonic;
use crate::ops::Op;
use crate::ops::spec_op;
use crate::ops::opcode_entry;
use crate::ops::lemma_op_table_shape;
use crate::ops::lemma_op_operand_mode;
use crate::bitops::lemma_u16_and_le;

verus! {

/// How an instruction's operand bytes name its operand.  `NoneAddressing`
/// covers implied, accumulator and relative operands, whose handling is
/// baked into the instruction itself.
#[derive(Clone, Copy, Debug, PartialEq, Eq, Structural)]
pub enum AddressingMode {
    Immediate,
    ZeroPage,
    ZeroPage_X,
    ZeroPage_Y,
    Absolute,
    Absolute_X,
    Absolute_Y,
    Indirect_X,
    Indirect_Y,
    NoneAddressing,
}

/// Carry flag: bit 0 of the status register.
pub const F_CARRY: u8 = 0x01;

/// Zero flag: bit 1.
pub const F_ZERO: u8 = 0x02;

/// Interrupt-disable flag: bit 2.
pub const F_INT: u8 = 0x04;

/// Decimal flag: bit 3 (settable but ignored by the arithmetic).
pub const F_DEC: u8 = 0x08;

/// Break region, bits 4 and 5: never meaningful in the stored register,
/// only injected into pushed status copies.
pub const F_BREAK: u8 = 0x30;

/// Bit 4 of the break region: set on deliberate pushes, clear on interrupts.
pub const F_BREAK_BIT_4: u8 = 0x10;

/// Bit 5 of the break region: always set in pushed status copies.
pub const F_BREAK_BIT_5: u8 = 0x20;

/// Overflow flag: bit 6.
pub const F_OVRFLW: u8 = 0x40;

/// Negative flag: bit 7.
pub const F_NEG: u8 = 0x80;

/// The stack lives in page one.
pub const STACK_OFFSET: u16 = 0x100;

/// Power-on stack pointer.
pub const STACK_RESET: u8 = 0xFD;

/// Mathematical image of the whole machine: the six programmer-visible
/// registers and the bus.
#[verifier::ext_equal]
pub ghost struct CpuView {
    pub a: u8,
    pub x: u8,
    pub y: u8,
    pub p: u8,
    pub sp: u8,
    pub pc: u16,
    pub bus: BusView,
}

impl CpuView {
    pub open spec fn wf(self) -> bool {
        self.bus.wf()
    }

    /// The same machine with a different bus.
    pub open spec fn with_bus(self, bus: BusView) -> CpuView {
        CpuView { bus, ..self }
    }
}

// ---------------------------------------------------------------------------
// Pure helper specifications: flags and arithmetic.
// ---------------------------------------------------------------------------

/// `p` with `flag` forced to `on`.
pub open spec fn spec_set_flag(p: u8, flag: u8, on: bool) -> u8 {
    if on {
        p | flag
    } else {
        p & !flag
    }
}

/// `p` with the zero and negative flags taken from the result byte `r`.
pub open spec fn spec_zn(p: u8, r: u8) -> u8 {
    spec_set_flag(spec_set_flag(p, F_ZERO, r == 0), F_NEG, r & F_NEG != 0)
}

/// Accumulator and status after adding `value` and the carry flag into
/// accumulator `a` under status `p`: the binary add with carry-out, the
/// signed-overflow rule, and zero/negative from the result.
pub open spec fn spec_adc_alu(a: u8, p: u8, value: u8) -> (u8, u8) {
    let carry_in: u8 = if p & F_CARRY != 0 {
        1
    } else {
        0
    };
    let sum = a.wrapping_add(value);
    let overflow = sum < a;
    let result = sum.wrapping_add(carry_in);
    let overflow_with_carry = result < sum;
    let p1 = spec_set_flag(p, F_CARRY, overflow || overflow_with_carry);
    let p2 = spec_set_flag(p1, F_OVRFLW, (value ^ result) & (a ^ result) & 0x80 != 0);
    (result, spec_zn(p2, result))
}

/// The subtract-with-borrow is the add-with-carry of the complemented
/// operand.
pub open spec fn spec_sbc_alu(a: u8, p: u8, value: u8) -> (u8, u8) {
    spec_adc_alu(a, p, !value)
}

// ---------------------------------------------------------------------------
// Machine-level transition specifications: memory and stack.
// ---------------------------------------------------------------------------

/// Little-endian 16-bit value of two successive reads at `pos` (the second
/// read sees the first one's side effects).
pub open spec fn spec_read16_val(b: BusView, pos: u16) -> u16 {
    let lo = spec_mem_read_val(b, pos);
    let hi = spec_mem_read_val(spec_mem_read(b, pos), pos.wrapping_add(1));
    (hi as u16) << 8 | lo as u16
}

/// Bus state after the two reads of a 16-bit fetch.
pub open spec fn spec_read16_bus(b: BusView, pos: u16) -> BusView {
    spec_mem_read(spec_mem_read(b, pos), pos.wrapping_add(1))
}

/// Bus state after a little-endian 16-bit write (low byte first).
pub open spec fn spec_write16_bus(b: BusView, pos: u16, data: u16) -> BusView {
    spec_mem_write(
        spec_mem_write(b, pos, (data & 0xFF) as u8),
        pos.wrapping_add(1),
        (data >> 8) as u8,
    )
}

/// Machine state after pushing `data`: the byte lands at the stack pointer's
/// slot in page one and the pointer steps down (wrapping within the page).
pub open spec fn spec_push(m: CpuView, data: u8) -> CpuView {
    CpuView {
        sp: m.sp.wrapping_sub(1),
        bus: spec_mem_write(m.bus, (STACK_OFFSET + m.sp) as u16, data),
        ..m
    }
}

/// The byte a pop hands out: the slot above the stack pointer.
pub open spec fn spec_pop_val(m: CpuView) -> u8 {
    spec_mem_read_val(m.bus, (STACK_OFFSET + m.sp.wrapping_add(1)) as u16)
}

/// Machine state after a pop: the pointer steps up (wrapping within the
/// page).
pub open spec fn spec_pop(m: CpuView) -> CpuView {
    CpuView {
        sp: m.sp.wrapping_add(1),
        bus: spec_mem_read(m.bus, (STACK_OFFSET + m.sp.wrapping_add(1)) as u16),
        ..m
    }
}

/// Machine state after pushing a 16-bit value, high byte first.
pub open spec fn spec_push16(m: CpuView, data: u16) -> CpuView {
    spec_push(spec_push(m, (data >> 8) as u8), (data & 0xFF) as u8)
}

/// The 16-bit value two pops hand out, low byte first.
pub open spec fn spec_pop16_val(m: CpuView) -> u16 {
    let lo = spec_pop_val(m);
    let hi = spec_pop_val(spec_pop(m));
    (hi as u16) << 8 | lo as u16
}

/// Machine state after two pops.
pub open spec fn spec_pop16(m: CpuView) -> CpuView {
    spec_pop(spec_pop(m))
}

// ---------------------------------------------------------------------------
// Addressing.
// ---------------------------------------------------------------------------

/// The operand address an addressing mode resolves to, with operand bytes
/// taken from `addr` on: each read sees the preceding reads' side effects.
pub open spec fn spec_abs_addr_val(m: CpuView, mode: AddressingMode, addr: u16) -> u16 {
    match mode {
        AddressingMode::Immediate => addr,
        AddressingMode::ZeroPage => spec_mem_read_val(m.bus, addr) as u16,
        AddressingMode::Absolute => spec_read16_val(m.bus, addr),
        AddressingMode::ZeroPage_X => spec_mem_read_val(m.bus, addr).wrapping_add(m.x) as u16,
        AddressingMode::ZeroPage_Y => spec_mem_read_val(m.bus, addr).wrapping_add(m.y) as u16,
        AddressingMode::Absolute_X => spec_read16_val(m.bus, addr).wrapping_add(m.x as u16),
        AddressingMode::Absolute_Y => spec_read16_val(m.bus, addr).wrapping_add(m.y as u16),
        AddressingMode::Indirect_X => {
            let base = spec_mem_read_val(m.bus, addr);
            let b1 = spec_mem_read(m.bus, addr);
            let ptr = base.wrapping_add(m.x);
            let lo = spec_mem_read_val(b1, ptr as u16);
            let b2 = spec_mem_read(b1, ptr as u16);
            let hi = spec_mem_read_val(b2, ptr.wrapping_add(1) as u16);
            (hi as u16) << 8 | lo as u16
        },
        AddressingMode::Indirect_Y => {
            let base = spec_mem_read_val(m.bus, addr);
            let b1 = spec_mem_read(m.bus, addr);
            let lo = spec_mem_read_val(b1, base as u16);
            let b2 = spec_mem_read(b1, base as u16);
            let hi = spec_mem_read_val(b2, base.wrapping_add(1) as u16);
            let deref_base = (hi as u16) << 8 | lo as u16;
            deref_base.wrapping_add(m.y as u16)
        },
        AddressingMode::NoneAddressing => 0,
    }
}

/// The bus after the reads an addressing-mode resolution performs.
pub open spec fn spec_abs_addr_bus(m: CpuView, mode: AddressingMode, addr: u16) -> BusView {
    match mode {
        AddressingMode::Immediate => m.bus,
        AddressingMode::ZeroPage => spec_mem_read(m.bus, addr),
        AddressingMode::Absolute => spec_read16_bus(m.bus, addr),
        AddressingMode::ZeroPage_X => spec_mem_read(m.bus, addr),
        AddressingMode::ZeroPage_Y => spec_mem_read(m.bus, addr),
        AddressingMode::Absolute_X => spec_read16_bus(m.bus, addr),
        AddressingMode::Absolute_Y => spec_read16_bus(m.bus, addr),
        AddressingMode::Indirect_X => {
            let base = spec_mem_read_val(m.bus, addr);
            let b1 = spec_mem_read(m.bus, addr);
            let ptr = base.wrapping_add(m.x);
            let b2 = spec_mem_read(b1, ptr as u16);
            spec_mem_read(b2, ptr.wrapping_add(1) as u16)
        },
        AddressingMode::Indirect_Y => {
            let base = spec_mem_read_val(m.bus, addr);
            let b1 = spec_mem_read(m.bus, addr);
            let b2 = spec_mem_read(b1, base as u16);
            spec_mem_read(b2, base.wrapping_add(1) as u16)
        },
        AddressingMode::NoneAddressing => m.bus,
    }
}

/// The operand address as the trace formatter sees it: every operand byte is
/// peeked from the same machine state, with no side effects.
pub open spec fn spec_peek_addr(m: CpuView, mode: AddressingMode, addr: u16) -> u16 {
    match mode {
        AddressingMode::Immediate => addr,
        AddressingMode::ZeroPage => spec_mem_read_val(m.bus, addr) as u16,
        AddressingMode::Absolute => spec_peek16(m.bus, addr),
        AddressingMode::ZeroPage_X => spec_mem_read_val(m.bus, addr).wrapping_add(m.x) as u16,
        AddressingMode::ZeroPage_Y => spec_mem_read_val(m.bus, addr).wrapping_add(m.y) as u16,
        AddressingMode::Absolute_X => spec_peek16(m.bus, addr).wrapping_add(m.x as u16),
        AddressingMode::Absolute_Y => spec_peek16(m.bus, addr).wrapping_add(m.y as u16),
        AddressingMode::Indirect_X => {
            let base = spec_mem_read_val(m.bus, addr);
            let ptr = base.wrapping_add(m.x);
            let lo = spec_mem_read_val(m.bus, ptr as u16);
            let hi = spec_mem_read_val(m.bus, ptr.wrapping_add(1) as u16);
            (hi as u16) << 8 | lo as u16
        },
        AddressingMode::Indirect_Y => {
            let base = spec_mem_read_val(m.bus, addr);
            let lo = spec_mem_read_val(m.bus, base as u16);
            let hi = spec_mem_read_val(m.bus, base.wrapping_add(1) as u16);
            let deref_base = (hi as u16) << 8 | lo as u16;
            deref_base.wrapping_add(m.y as u16)
        },
        AddressingMode::NoneAddressing => 0,
    }
}

/// Little-endian 16-bit value of two side-effect-free reads at `pos`.
pub open spec fn spec_peek16(b: BusView, pos: u16) -> u16 {
    let lo = spec_mem_read_val(b, pos);
    let hi = spec_mem_read_val(b, pos.wrapping_add(1));
    (hi as u16) << 8 | lo as u16
}

/// The address the next instruction's operand resolves to, with the extra
/// clock cycle an indexed resolution costs when it crosses a page.
pub open spec fn spec_operand_val(m: CpuView, mode: AddressingMode) -> u16 {
    match mode {
        AddressingMode::Immediate => m.pc,
        AddressingMode::Absolute_X | AddressingMode::Absolute_Y => spec_abs_addr_val(
            m.with_bus(spec_read16_bus(m.bus, m.pc)),
            mode,
            m.pc,
        ),
        AddressingMode::Indirect_Y => {
            let base = spec_mem_read_val(m.bus, m.pc);
            let b1 = spec_mem_read(m.bus, m.pc);
            let b2 = spec_mem_read(b1, base as u16);
            let b3 = spec_mem_read(b2, base.wrapping_add(1) as u16);
            spec_abs_addr_val(m.with_bus(b3), mode, m.pc)
        },
        _ => spec_abs_addr_val(m, mode, m.pc),
    }
}

/// The bus after an operand resolution, page-cross cycle included.
pub open spec fn spec_operand_bus(m: CpuView, mode: AddressingMode) -> BusView {
    match mode {
        AddressingMode::Immediate => m.bus,
        AddressingMode::Absolute_X | AddressingMode::Absolute_Y => {
            let base = spec_read16_val(m.bus, m.pc);
            let m1 = m.with_bus(spec_read16_bus(m.bus, m.pc));
            let addr = spec_abs_addr_val(m1, mode, m.pc);
            let b2 = spec_abs_addr_bus(m1, mode, m.pc);
            if spec_page_crossed(base, addr) {
                spec_bus_tick(b2, 1)
            } else {
                b2
            }
        },
        AddressingMode::Indirect_Y => {
            let base = spec_mem_read_val(m.bus, m.pc);
            let b1 = spec_mem_read(m.bus, m.pc);
            let lo = spec_mem_read_val(b1, base as u16);
            let b2 = spec_mem_read(b1, base as u16);
            let hi = spec_mem_read_val(b2, base.wrapping_add(1) as u16);
            let b3 = spec_mem_read(b2, base.wrapping_add(1) as u16);
            let deref_base = (hi as u16) << 8 | lo as u16;
            let m1 = m.with_bus(b3);
            let addr = spec_abs_addr_val(m1, mode, m.pc);
            let b4 = spec_abs_addr_bus(m1, mode, m.pc);
            if spec_page_crossed(deref_base, addr) {
                spec_bus_tick(b4, 1)
            } else {
                b4
            }
        },
        _ => spec_abs_addr_bus(m, mode, m.pc),
    }
}

impl CPU {
    /// Resolve an addressing mode against operand bytes at `addr`, with the
    /// reads' side effects.
    pub fn get_absolute_address(&mut self, mode: AddressingMode, addr: u16) -> (r: u16)
        requires
            old(self).wf(),
            mode != AddressingMode::NoneAddressing,
        ensures
            final(self).wf(),
            r == spec_abs_addr_val(old(self)@, mode, addr),
            final(self)@ == old(self)@.with_bus(spec_abs_addr_bus(old(self)@, mode, addr)),
    {
        match mode {
            AddressingMode::Immediate => addr,

            AddressingMode::ZeroPage => self.mem_read(addr) as u16,

            AddressingMode::Absolute => self.mem_read_u16(addr),

            AddressingMode::ZeroPage_X => {
                let pos = self.mem_read(addr);
                pos.wrapping_add(self.register_x) as u16
            },

            AddressingMode::ZeroPage_Y => {
                let pos = self.mem_read(addr);
                pos.wrapping_add(self.register_y) as u16
            },

            AddressingMode::Absolute_X => {
                let base = self.mem_read_u16(addr);
                base.wrapping_add(self.register_x as u16)
            },

            AddressingMode::Absolute_Y => {
                let base = self.mem_read_u16(addr);
                base.wrapping_add(self.register_y as u16)
            },

            AddressingMode::Indirect_X => {
                let base = self.mem_read(addr);
                let ptr: u8 = base.wrapping_add(self.register_x);
                let lo = self.mem_read(ptr as u16);
                let hi = self.mem_read(ptr.wrapping_add(1) as u16);
                (hi as u16) << 8 | lo as u16
            },

            AddressingMode::Indirect_Y => {
                let base = self.mem_read(addr);
                let lo = self.mem_read(base as u16);
                let hi = self.mem_read(base.wrapping_add(1) as u16);
                let deref_base = (hi as u16) << 8 | lo as u16;
                deref_base.wrapping_add(self.register_y as u16)
            },

            AddressingMode::NoneAddressing => 0,
        }
    }

    /// Resolve an addressing mode against operand bytes at `addr` without
    /// touching the machine: the trace formatter's resolution.
    pub fn peek_absolute_address(&self, mode: AddressingMode, addr: u16) -> (r: u16)
        requires
            self.wf(),
            mode != AddressingMode::NoneAddressing,
        ensures
            r == spec_peek_addr(self@, mode, addr),
    {
        match mode {
            AddressingMode::Immediate => addr,

            AddressingMode::ZeroPage => self.mem_peek(addr) as u16,

            AddressingMode::Absolute => self.mem_peek_u16(addr),

            AddressingMode::ZeroPage_X => {
                let pos = self.mem_peek(addr);
                pos.wrapping_add(self.register_x) as u16
            },

            AddressingMode::ZeroPage_Y => {
                let pos = self.mem_peek(addr);
                pos.wrapping_add(self.register_y) as u16
            },

            AddressingMode::Absolute_X => {
                let base = self.mem_peek_u16(addr);
                base.wrapping_add(self.register_x as u16)
            },

            AddressingMode::Absolute_Y => {
                let base = self.mem_peek_u16(addr);
                base.wrapping_add(self.register_y as u16)
            },

            AddressingMode::Indirect_X => {
                let base = self.mem_peek(addr);
                let ptr: u8 = base.wrapping_add(self.register_x);
                let lo = self.mem_peek(ptr as u16);
                let hi = self.mem_peek(ptr.wrapping_add(1) as u16);
                (hi as u16) << 8 | lo as u16
            },

            AddressingMode::Indirect_Y => {
                let base = self.mem_peek(addr);
                let lo = self.mem_peek(base as u16);
                let hi = self.mem_peek(base.wrapping_add(1) as u16);
                let deref_base = (hi as u16) << 8 | lo as u16;
                deref_base.wrapping_add(self.register_y as u16)
            },

            AddressingMode::NoneAddressing => 0,
        }
    }

    /// Resolve the next instruction's operand, ticking the bus one extra
    /// cycle when an indexed resolution crosses a page.
    fn get_operand_address(&mut self, mode: AddressingMode) -> (r: u16)
        requires
            old(self).wf(),
            mode != AddressingMode::NoneAddressing,
        ensures
            final(self).wf(),
            r == spec_operand_val(old(self)@, mode),
            final(self)@ == old(self)@.with_bus(spec_operand_bus(old(self)@, mode)),
    {
        match mode {
            AddressingMode::Immediate => self.program_counter,
            AddressingMode::Absolute_X | AddressingMode::Absolute_Y => {
                let base = self.mem_read_u16(self.program_counter);
                let addr = self.get_absolute_address(mode, self.program_counter);

                if page_crossed(base, addr) {
                    self.bus.tick(1);
                }

                addr
            },
            AddressingMode::Indirect_Y => {
                let base = self.mem_read(self.program_counter);

                let lo = self.mem_read(base as u16);
                let hi = self.mem_read(base.wrapping_add(1) as u16);
                let deref_base = (hi as u16) << 8 | lo as u16;

                let addr = self.get_absolute_address(mode, self.program_counter);

                if page_crossed(deref_base, addr) {
                    self.bus.tick(1);
                }

                addr
            },
            _ => self.get_absolute_address(mode, self.program_counter),
        }
    }
    /// Load a program image at 0x0600, reset, and run it to its break
    /// instruction.
    pub fn load_and_run(&mut self, program: Vec<u8>)
        requires
            old(self).wf(),
            program@.len() <= 0x200,
            exists|k: nat| !spec_step_cont(spec_run_n(spec_boot(old(self)@, program@), k)),
        ensures
            final(self).wf(),
            exists|n: nat|
                {
                    &&& n > 0
                    &&& final(self)@ == #[trigger] spec_run_n(spec_boot(old(self)@, program@), n)
                    &&& !spec_step_cont(spec_run_n(spec_boot(old(self)@, program@), (n - 1) as nat))
                },
    {
        self.load(program);
        self.reset();
        self.run()
    }
}

/// Whether two addresses sit on different 256-byte pages.
pub open spec fn spec_page_crossed(addr1: u16, addr2: u16) -> bool {
    addr1 & 0xFF00 != addr2 & 0xFF00
}

/// The CPU: the six programmer-visible registers and the bus it owns.
pub struct CPU {
    pub register_a: u8,
    pub register_x: u8,
    pub register_y: u8,
    pub status: u8,
    pub program_counter: u16,
    pub stack_pointer: u8,
    pub bus: Bus,
}

impl View for CPU {
    type V = CpuView;

    open spec fn view(&self) -> CpuView {
        CpuView {
            a: self.register_a,
            x: self.register_x,
            y: self.register_y,
            p: self.status,
            sp: self.stack_pointer,
            pc: self.program_counter,
            bus: self.bus@,
        }
    }
}

impl CPU {
    pub open spec fn wf(&self) -> bool {
        self@.wf()
    }

    /// A machine over a parsed cartridge, in the pre-reset power-on state.
    pub fn new(rom: Rom) -> (cpu: CPU)
        requires
            rom.wf(),
            rom.screen_mirroring != Mirroring::FOUR_SCREEN,
        ensures
            cpu.wf(),
            cpu@ == (CpuView {
                a: 0,
                x: 0,
                y: 0,
                p: 0,
                sp: STACK_RESET,
                pc: 0,
                bus: BusView {
                    ram: Seq::new(0x800, |i: int| 0u8),
                    prg: rom.prg_rom@,
                    ppu: crate::ppu::spec_ppu_initial(rom.chr_rom@, rom.screen_mirroring),
                    apu: crate::apu::spec_apu_initial(),
                    joypad: crate::joypad::Joypad { strobe: false, button_index: 0, button_status: 0 },
                    joypad2: crate::joypad::Joypad { strobe: false, button_index: 0, button_status: 0 },
                    cycles: 0,
                    frame_pending: false,
                    fault: None,
                },
            }),
    {
        CPU {
            register_a: 0,
            register_x: 0,
            register_y: 0,
            status: 0,
            program_counter: 0,
            stack_pointer: STACK_RESET,
            bus: Bus::new(rom),
        }
    }

    // -----------------------------------------------------------------------
    // Memory access.
    // -----------------------------------------------------------------------

    /// Read one byte through the bus, with the mapped device's side effects.
    pub fn mem_read(&mut self, addr: u16) -> (data: u8)
        requires
            old(self).wf(),
        ensures
            final(self).wf(),
            data == spec_mem_read_val(old(self)@.bus, addr),
            final(self)@ == old(self)@.with_bus(spec_mem_read(old(self)@.bus, addr)),
    {
        self.bus.mem_read(addr)
    }

    /// Write one byte through the bus, with the mapped device's side effects.
    pub fn mem_write(&mut self, addr: u16, data: u8)
        requires
            old(self).wf(),
        ensures
            final(self).wf(),
            final(self)@ == old(self)@.with_bus(spec_mem_write(old(self)@.bus, addr, data)),
    {
        self.bus.mem_write(addr, data)
    }

    /// Read a little-endian 16-bit value (two bus reads).
    pub fn mem_read_u16(&mut self, pos: u16) -> (data: u16)
        requires
            old(self).wf(),
        ensures
            final(self).wf(),
            data == spec_read16_val(old(self)@.bus, pos),
            final(self)@ == old(self)@.with_bus(spec_read16_bus(old(self)@.bus, pos)),
    {
        let lo = self.mem_read(pos);
        let hi = self.mem_read(pos.wrapping_add(1));
        (hi as u16) << 8 | lo as u16
    }

    /// Write a little-endian 16-bit value (two bus writes, low byte first).
    pub fn mem_write_u16(&mut self, pos: u16, data: u16)
        requires
            old(self).wf(),
        ensures
            final(self).wf(),
            final(self)@ == old(self)@.with_bus(spec_write16_bus(old(self)@.bus, pos, data)),
    {
        self.mem_write(pos, (data & 0xFF) as u8);
        self.mem_write(pos.wrapping_add(1), (data >> 8) as u8);
    }

    /// Read one byte without any side effect: hands out exactly the value
    /// `mem_read` would, leaving the machine untouched.  This is what the
    /// trace formatter resolves operands with.
    pub fn mem_peek(&self, addr: u16) -> (data: u8)
        requires
            self.wf(),
        ensures
            data == spec_mem_read_val(self@.bus, addr),
    {
        proof {
            reveal(crate::bus::spec_mem_read_val);
        }
        if addr <= 0x1FFF {
            proof {
                lemma_u16_and_le(addr, 0x7FF);
            }
            self.bus.cpu_vram[(addr & 0x7FF) as usize]
        } else if addr <= 0x3FFF {
            let reg = addr & 0x2007;
            if reg == 0x2002 {
                self.bus.ppu.status.bits()
            } else if reg == 0x2004 {
                self.bus.ppu.read_oam_data()
            } else if reg == 0x2007 {
                proof {
                    crate::ppu_regs::lemma_addr_get_range(self@.bus.ppu.address);
                    lemma_u16_and_le(crate::ppu_regs::spec_addr_get(self@.bus.ppu.address), 0x1F);
                }
                let vaddr = self.bus.ppu.address.get();
                if vaddr <= 0x3EFF {
                    self.bus.ppu.internal_data_buf
                } else {
                    self.bus.ppu.palette_table[(vaddr & 0x1F) as usize]
                }
            } else {
                0
            }
        } else if addr == 0x4015 {
            self.bus.apu.read_status()
        } else if addr == 0x4016 {
            if self.bus.joypad.button_index > 7 {
                1
            } else {
                (self.bus.joypad.button_status >> self.bus.joypad.button_index) & 1
            }
        } else if addr == 0x4017 {
            if self.bus.joypad2.button_index > 7 {
                1
            } else {
                (self.bus.joypad2.button_status >> self.bus.joypad2.button_index) & 1
            }
        } else if addr >= 0x8000 {
            let mut offset = addr - 0x8000;
            if self.bus.prg_rom.len() == 0x4000 && offset >= 0x4000 {
                offset = offset % 0x4000;
            }
            self.bus.prg_rom[offset as usize]
        } else {
            0
        }
    }

    /// Read a little-endian 16-bit value without side effects.
    pub fn mem_peek_u16(&self, pos: u16) -> (data: u16)
        requires
            self.wf(),
        ensures
            data == ({
                let lo = spec_mem_read_val(self@.bus, pos);
                let hi = spec_mem_read_val(self@.bus, pos.wrapping_add(1));
                (hi as u16) << 8 | lo as u16
            }),
    {
        let lo = self.mem_peek(pos);
        let hi = self.mem_peek(pos.wrapping_add(1));
        (hi as u16) << 8 | lo as u16
    }

    // -----------------------------------------------------------------------
    // Stack.
    // -----------------------------------------------------------------------

    fn stack_push(&mut self, data: u8)
        requires
            old(self).wf(),
        ensures
            final(self).wf(),
            final(self)@ == spec_push(old(self)@, data),
    {
        self.mem_write(STACK_OFFSET + self.stack_pointer as u16, data);
        self.stack_pointer = self.stack_pointer.wrapping_sub(1);
    }

    fn stack_pop(&mut self) -> (data: u8)
        requires
            old(self).wf(),
        ensures
            final(self).wf(),
            data == spec_pop_val(old(self)@),
            final(self)@ == spec_pop(old(self)@),
    {
        self.stack_pointer = self.stack_pointer.wrapping_add(1);
        self.mem_read(STACK_OFFSET + self.stack_pointer as u16)
    }

    fn stack_push_u16(&mut self, data: u16)
        requires
            old(self).wf(),
        ensures
            final(self).wf(),
            final(self)@ == spec_push16(old(self)@, data),
    {
        self.stack_push((data >> 8) as u8);
        self.stack_push((data & 0xFF) as u8);
    }

    fn stack_pop_u16(&mut self) -> (data: u16)
        requires
            old(self).wf(),
        ensures
            final(self).wf(),
            data == spec_pop16_val(old(self)@),
            final(self)@ == spec_pop16(old(self)@),
    {
        let lo = self.stack_pop();
        let hi = self.stack_pop();
        (hi as u16) << 8 | lo as u16
    }

    // -----------------------------------------------------------------------
    // Flag updates.
    // -----------------------------------------------------------------------

    fn update_flag(&mut self, flag: u8, set_flag: bool)
        ensures
            final(self)@ == (CpuView {
                p: spec_set_flag(old(self)@.p, flag, set_flag),
                ..old(self)@
            }),
            old(self).wf() ==> final(self).wf(),
    {
        if set_flag {
            self.status = self.status | flag;
        } else {
            self.status = self.status & !flag;
        }
    }

    fn update_zero_and_negative_flags(&mut self, result: u8)
        ensures
            final(self)@ == (CpuView { p: spec_zn(old(self)@.p, result), ..old(self)@ }),
            old(self).wf() ==> final(self).wf(),
    {
        self.update_flag(F_ZERO, result == 0);
        self.update_flag(F_NEG, result & F_NEG != 0);
    }

    fn set_register_a(&mut self, value: u8)
        ensures
            final(self)@ == (CpuView {
                a: value,
                p: spec_zn(old(self)@.p, value),
                ..old(self)@
            }),
            old(self).wf() ==> final(self).wf(),
    {
        self.register_a = value;
        self.update_zero_and_negative_flags(value);
    }

    fn add_to_register_a(&mut self, value: u8)
        ensures
            final(self)@ == (CpuView {
                a: spec_adc_alu(old(self)@.a, old(self)@.p, value).0,
                p: spec_adc_alu(old(self)@.a, old(self)@.p, value).1,
                ..old(self)@
            }),
            old(self).wf() ==> final(self).wf(),
    {
        let carry_in: u8 = if self.status & F_CARRY != 0 {
            1
        } else {
            0
        };
        let sum = self.register_a.wrapping_add(value);
        let overflow = sum < self.register_a;
        let result = sum.wrapping_add(carry_in);
        let overflow_with_carry = result < sum;

        self.update_flag(F_CARRY, overflow || overflow_with_carry);
        self.update_flag(F_OVRFLW, (value ^ result) & (self.register_a ^ result) & 0x80 != 0);
        self.set_register_a(result);
    }
}

// ---------------------------------------------------------------------------
// Instruction semantics.
// ---------------------------------------------------------------------------

/// The operand byte an instruction fetches: the byte at the resolved
/// operand address, read after the resolution's own reads.
pub open spec fn spec_operand_fetch_val(m: CpuView, mode: AddressingMode) -> u8 {
    spec_mem_read_val(spec_operand_bus(m, mode), spec_operand_val(m, mode))
}

/// The bus after an operand resolution and the fetch of the operand byte.
pub open spec fn spec_operand_fetch_bus(m: CpuView, mode: AddressingMode) -> BusView {
    spec_mem_read(spec_operand_bus(m, mode), spec_operand_val(m, mode))
}

#[verifier::opaque]
pub open spec fn spec_lda(m: CpuView, mode: AddressingMode) -> CpuView {
    let v = spec_operand_fetch_val(m, mode);
    CpuView { a: v, p: spec_zn(m.p, v), bus: spec_operand_fetch_bus(m, mode), ..m }
}

#[verifier::opaque]
pub open spec fn spec_ldx(m: CpuView, mode: AddressingMode) -> CpuView {
    let v = spec_operand_fetch_val(m, mode);
    CpuView { x: v, p: spec_zn(m.p, v), bus: spec_operand_fetch_bus(m, mode), ..m }
}

#[verifier::opaque]
pub open spec fn spec_ldy(m: CpuView, mode: AddressingMode) -> CpuView {
    let v = spec_operand_fetch_val(m, mode);
    CpuView { y: v, p: spec_zn(m.p, v), bus: spec_operand_fetch_bus(m, mode), ..m }
}

#[verifier::opaque]
pub open spec fn spec_sta(m: CpuView, mode: AddressingMode) -> CpuView {
    m.with_bus(spec_mem_write(spec_operand_bus(m, mode), spec_operand_val(m, mode), m.a))
}

#[verifier::opaque]
pub open spec fn spec_stx(m: CpuView, mode: AddressingMode) -> CpuView {
    m.with_bus(spec_mem_write(spec_operand_bus(m, mode), spec_operand_val(m, mode), m.x))
}

#[verifier::opaque]
pub open spec fn spec_sty(m: CpuView, mode: AddressingMode) -> CpuView {
    m.with_bus(spec_mem_write(spec_operand_bus(m, mode), spec_operand_val(m, mode), m.y))
}

#[verifier::opaque]
pub open spec fn spec_tax(m: CpuView) -> CpuView {
    CpuView { x: m.a, p: spec_zn(m.p, m.a), ..m }
}

#[verifier::opaque]
pub open spec fn spec_tay(m: CpuView) -> CpuView {
    CpuView { y: m.a, p: spec_zn(m.p, m.a), ..m }
}

#[verifier::opaque]
pub open spec fn spec_tsx(m: CpuView) -> CpuView {
    CpuView { x: m.sp, p: spec_zn(m.p, m.sp), ..m }
}

#[verifier::opaque]
pub open spec fn spec_txa(m: CpuView) -> CpuView {
    CpuView { a: m.x, p: spec_zn(m.p, m.x), ..m }
}

#[verifier::opaque]
pub open spec fn spec_txs(m: CpuView) -> CpuView {
    CpuView { sp: m.x, ..m }
}

#[verifier::opaque]
pub open spec fn spec_tya(m: CpuView) -> CpuView {
    CpuView { a: m.y, p: spec_zn(m.p, m.y), ..m }
}

#[verifier::opaque]
pub open spec fn spec_inx(m: CpuView) -> CpuView {
    let r = m.x.wrapping_add(1);
    CpuView { x: r, p: spec_zn(m.p, r), ..m }
}

#[verifier::opaque]
pub open spec fn spec_iny(m: CpuView) -> CpuView {
    let r = m.y.wrapping_add(1);
    CpuView { y: r, p: spec_zn(m.p, r), ..m }
}

#[verifier::opaque]
pub open spec fn spec_dex(m: CpuView) -> CpuView {
    let r = m.x.wrapping_sub(1);
    CpuView { x: r, p: spec_zn(m.p, r), ..m }
}

#[verifier::opaque]
pub open spec fn spec_dey(m: CpuView) -> CpuView {
    let r = m.y.wrapping_sub(1);
    CpuView { y: r, p: spec_zn(m.p, r), ..m }
}

#[verifier::opaque]
pub open spec fn spec_adc_op(m: CpuView, mode: AddressingMode) -> CpuView {
    let v = spec_operand_fetch_val(m, mode);
    let alu = spec_adc_alu(m.a, m.p, v);
    CpuView { a: alu.0, p: alu.1, bus: spec_operand_fetch_bus(m, mode), ..m }
}

#[verifier::opaque]
pub open spec fn spec_sbc_op(m: CpuView, mode: AddressingMode) -> CpuView {
    let v = spec_operand_fetch_val(m, mode);
    let alu = spec_sbc_alu(m.a, m.p, v);
    CpuView { a: alu.0, p: alu.1, bus: spec_operand_fetch_bus(m, mode), ..m }
}

#[verifier::opaque]
pub open spec fn spec_and(m: CpuView, mode: AddressingMode) -> CpuView {
    let v = spec_operand_fetch_val(m, mode);
    let r = m.a & v;
    CpuView { a: r, p: spec_zn(m.p, r), bus: spec_operand_fetch_bus(m, mode), ..m }
}

#[verifier::opaque]
pub open spec fn spec_ora(m: CpuView, mode: AddressingMode) -> CpuView {
    let v = spec_operand_fetch_val(m, mode);
    let r = m.a | v;
    CpuView { a: r, p: spec_zn(m.p, r), bus: spec_operand_fetch_bus(m, mode), ..m }
}

#[verifier::opaque]
pub open spec fn spec_eor(m: CpuView, mode: AddressingMode) -> CpuView {
    let v = spec_operand_fetch_val(m, mode);
    let r = m.a ^ v;
    CpuView { a: r, p: spec_zn(m.p, r), bus: spec_operand_fetch_bus(m, mode), ..m }
}

pub open spec fn spec_asl_acc(m: CpuView) -> CpuView {
    let v = m.a;
    let r = v << 1;
    CpuView { a: r, p: spec_set_flag(spec_zn(m.p, r), F_CARRY, v >> 7 == 1), ..m }
}

pub open spec fn spec_asl_mem(m: CpuView, mode: AddressingMode) -> CpuView {
    let addr = spec_operand_val(m, mode);
    let v = spec_operand_fetch_val(m, mode);
    let b2 = spec_operand_fetch_bus(m, mode);
    let r = v << 1;
    let b3 = spec_mem_write(b2, addr, r);
    CpuView { p: spec_set_flag(spec_zn(m.p, r), F_CARRY, v >> 7 == 1), bus: b3, ..m }
}

#[verifier::opaque]
pub open spec fn spec_asl(m: CpuView, mode: AddressingMode) -> CpuView {
    if mode == AddressingMode::NoneAddressing {
        spec_asl_acc(m)
    } else {
        spec_asl_mem(m, mode)
    }
}

pub open spec fn spec_lsr_acc(m: CpuView) -> CpuView {
    let v = m.a;
    let r = v >> 1;
    CpuView { a: r, p: spec_set_flag(spec_zn(m.p, r), F_CARRY, v & 1 == 1), ..m }
}

pub open spec fn spec_lsr_mem(m: CpuView, mode: AddressingMode) -> CpuView {
    let addr = spec_operand_val(m, mode);
    let v = spec_operand_fetch_val(m, mode);
    let b2 = spec_operand_fetch_bus(m, mode);
    let r = v >> 1;
    let b3 = spec_mem_write(b2, addr, r);
    CpuView { p: spec_set_flag(spec_zn(m.p, r), F_CARRY, v & 1 == 1), bus: b3, ..m }
}

#[verifier::opaque]
pub open spec fn spec_lsr(m: CpuView, mode: AddressingMode) -> CpuView {
    if mode == AddressingMode::NoneAddressing {
        spec_lsr_acc(m)
    } else {
        spec_lsr_mem(m, mode)
    }
}

pub open spec fn spec_rol_acc(m: CpuView) -> CpuView {
    let carry = m.a >> 7;
    let old_bit: u8 = if m.p & F_CARRY != 0 { 1 } else { 0 };
    let r = (m.a << 1) | old_bit;
    CpuView { a: r, p: spec_set_flag(spec_zn(m.p, r), F_CARRY, carry == 1), ..m }
}

pub open spec fn spec_rol_mem(m: CpuView, mode: AddressingMode) -> CpuView {
    let addr = spec_operand_val(m, mode);
    let v = spec_operand_fetch_val(m, mode);
    let b2 = spec_operand_fetch_bus(m, mode);
    let carry = v >> 7;
    let old_bit: u8 = if m.p & F_CARRY != 0 { 1 } else { 0 };
    let r = (v << 1) | old_bit;
    let b3 = spec_mem_write(b2, addr, r);
    CpuView { p: spec_set_flag(spec_zn(m.p, r), F_CARRY, carry == 1), bus: b3, ..m }
}

#[verifier::opaque]
pub open spec fn spec_rol(m: CpuView, mode: AddressingMode) -> CpuView {
    if mode == AddressingMode::NoneAddressing {
        spec_rol_acc(m)
    } else {
        spec_rol_mem(m, mode)
    }
}

pub open spec fn spec_ror_acc(m: CpuView) -> CpuView {
    let carry = m.a & 1;
    let old_bit: u8 = if m.p & F_CARRY != 0 { 1 } else { 0 };
    let r = (m.a >> 1) | (old_bit << 7);
    CpuView { a: r, p: spec_set_flag(spec_zn(m.p, r), F_CARRY, carry == 1), ..m }
}

pub open spec fn spec_ror_mem(m: CpuView, mode: AddressingMode) -> CpuView {
    let addr = spec_operand_val(m, mode);
    let v = spec_operand_fetch_val(m, mode);
    let b2 = spec_operand_fetch_bus(m, mode);
    let carry = v & 1;
    let old_bit: u8 = if m.p & F_CARRY != 0 { 1 } else { 0 };
    let r = (v >> 1) | (old_bit << 7);
    let b3 = spec_mem_write(b2, addr, r);
    CpuView { p: spec_set_flag(spec_zn(m.p, r), F_CARRY, carry == 1), bus: b3, ..m }
}

#[verifier::opaque]
pub open spec fn spec_ror(m: CpuView, mode: AddressingMode) -> CpuView {
    if mode == AddressingMode::NoneAddressing {
        spec_ror_acc(m)
    } else {
        spec_ror_mem(m, mode)
    }
}

#[verifier::opaque]
pub open spec fn spec_compare(m: CpuView, mode: AddressingMode, reg: u8) -> CpuView {
    let v = spec_operand_fetch_val(m, mode);
    let p1 = spec_zn(m.p, reg.wrapping_sub(v));
    CpuView {
        p: spec_set_flag(p1, F_CARRY, reg >= v),
        bus: spec_operand_fetch_bus(m, mode),
        ..m
    }
}

#[verifier::opaque]
pub open spec fn spec_inc(m: CpuView, mode: AddressingMode) -> CpuView {
    let addr = spec_operand_val(m, mode);
    let v = spec_operand_fetch_val(m, mode);
    let r = v.wrapping_add(1);
    let b = spec_mem_write(spec_operand_fetch_bus(m, mode), addr, r);
    CpuView { p: spec_zn(m.p, r), bus: b, ..m }
}

#[verifier::opaque]
pub open spec fn spec_dec(m: CpuView, mode: AddressingMode) -> CpuView {
    let addr = spec_operand_val(m, mode);
    let v = spec_operand_fetch_val(m, mode);
    let r = v.wrapping_sub(1);
    let b = spec_mem_write(spec_operand_fetch_bus(m, mode), addr, r);
    CpuView { p: spec_zn(m.p, r), bus: b, ..m }
}

#[verifier::opaque]
pub open spec fn spec_bit(m: CpuView, mode: AddressingMode) -> CpuView {
    let v = spec_operand_fetch_val(m, mode);
    let p1 = spec_set_flag(m.p, F_NEG, v & 0x80 != 0);
    let p2 = spec_set_flag(p1, F_OVRFLW, v & 0x40 != 0);
    let p3 = spec_set_flag(p2, F_ZERO, m.a & v == 0);
    CpuView { p: p3, bus: spec_operand_fetch_bus(m, mode), ..m }
}

#[verifier::opaque]
pub open spec fn spec_branch(m: CpuView, flag: u8, branch_on_set: bool) -> CpuView {
    let flag_set = m.p & flag != 0;
    if flag_set == branch_on_set {
        let b1 = spec_bus_tick(m.bus, 1);
        let offset = spec_mem_read_val(b1, m.pc) as i8;
        let b2 = spec_mem_read(b1, m.pc);
        let jump_addr = m.pc.wrapping_add(1).wrapping_add(offset as u16);
        let b3 = if spec_page_crossed(m.pc.wrapping_add(1), jump_addr) {
            spec_bus_tick(b2, 1)
        } else {
            b2
        };
        CpuView { pc: jump_addr, bus: b3, ..m }
    } else {
        m
    }
}

#[verifier::opaque]
pub open spec fn spec_jsr(m: CpuView) -> CpuView {
    let m1 = spec_push16(m, m.pc.wrapping_add(1));
    CpuView {
        pc: spec_read16_val(m1.bus, m.pc),
        bus: spec_read16_bus(m1.bus, m.pc),
        ..m1
    }
}

#[verifier::opaque]
pub open spec fn spec_rts(m: CpuView) -> CpuView {
    let target = spec_pop16_val(m);
    let m1 = spec_pop16(m);
    CpuView { pc: target.wrapping_add(1), ..m1 }
}

#[verifier::opaque]
pub open spec fn spec_pha(m: CpuView) -> CpuView {
    spec_push(m, m.a)
}

#[verifier::opaque]
pub open spec fn spec_php(m: CpuView) -> CpuView {
    spec_push(m, m.p | F_BREAK)
}

#[verifier::opaque]
pub open spec fn spec_pla(m: CpuView) -> CpuView {
    let v = spec_pop_val(m);
    let m1 = spec_pop(m);
    CpuView { a: v, p: spec_zn(m1.p, v), ..m1 }
}

#[verifier::opaque]
pub open spec fn spec_plp(m: CpuView) -> CpuView {
    let v = spec_pop_val(m);
    let m1 = spec_pop(m);
    CpuView { p: (v & !F_BREAK) | (m1.p & F_BREAK), ..m1 }
}

#[verifier::opaque]
pub open spec fn spec_rti(m: CpuView) -> CpuView {
    let m1 = spec_plp(m);
    let target = spec_pop16_val(m1);
    let m2 = spec_pop16(m1);
    CpuView { pc: target, ..m2 }
}

#[verifier::opaque]
pub open spec fn spec_nop_op(m: CpuView, mode: AddressingMode) -> CpuView {
    match mode {
        AddressingMode::NoneAddressing => m,
        AddressingMode::Immediate => m,
        _ => m.with_bus(spec_operand_fetch_bus(m, mode)),
    }
}

#[verifier::opaque]
pub open spec fn spec_lax(m: CpuView, mode: AddressingMode) -> CpuView {
    spec_tax(spec_lda(m, mode))
}

#[verifier::opaque]
pub open spec fn spec_sax(m: CpuView, mode: AddressingMode) -> CpuView {
    m.with_bus(spec_mem_write(spec_operand_bus(m, mode), spec_operand_val(m, mode), m.a & m.x))
}

#[verifier::opaque]
pub open spec fn spec_dcp(m: CpuView, mode: AddressingMode) -> CpuView {
    let m1 = spec_dec(m, mode);
    spec_compare(m1, mode, m1.a)
}

#[verifier::opaque]
pub open spec fn spec_isb(m: CpuView, mode: AddressingMode) -> CpuView {
    spec_sbc_op(spec_inc(m, mode), mode)
}

#[verifier::opaque]
pub open spec fn spec_slo(m: CpuView, mode: AddressingMode) -> CpuView {
    spec_ora(spec_asl(m, mode), mode)
}

#[verifier::opaque]
pub open spec fn spec_rla(m: CpuView, mode: AddressingMode) -> CpuView {
    spec_and(spec_rol(m, mode), mode)
}

#[verifier::opaque]
pub open spec fn spec_sre(m: CpuView, mode: AddressingMode) -> CpuView {
    spec_eor(spec_lsr(m, mode), mode)
}

#[verifier::opaque]
pub open spec fn spec_rra(m: CpuView, mode: AddressingMode) -> CpuView {
    spec_adc_op(spec_ror(m, mode), mode)
}

/// The non-maskable interrupt entry: return address and status (break bit 4
/// clear, bit 5 set) are pushed, interrupts are masked, seven cycles pass,
/// and control moves to the vector at 0xFFFA.
#[verifier::opaque]
pub open spec fn spec_interrupt_nmi(m: CpuView) -> CpuView {
    let m1 = spec_push16(m, m.pc);
    let m2 = spec_push(m1, (m.p | F_BREAK_BIT_5) & !F_BREAK_BIT_4);
    let m3 = CpuView { p: m2.p | F_INT, ..m2 };
    let b1 = spec_bus_tick(m3.bus, 7);
    CpuView {
        pc: spec_read16_val(b1, 0xFFFA),
        bus: spec_read16_bus(b1, 0xFFFA),
        ..m3
    }
}

impl CPU {
    fn lda(&mut self, mode: AddressingMode)
        requires
            old(self).wf(),
            mode != AddressingMode::NoneAddressing,
        ensures
            final(self).wf(),
            final(self)@ == spec_lda(old(self)@, mode),
    {
        proof {
            reveal(spec_lda);
        }
        let addr = self.get_operand_address(mode);
        let value = self.mem_read(addr);
        self.register_a = value;
        self.update_zero_and_negative_flags(value);
    }

    fn ldx(&mut self, mode: AddressingMode)
        requires
            old(self).wf(),
            mode != AddressingMode::NoneAddressing,
        ensures
            final(self).wf(),
            final(self)@ == spec_ldx(old(self)@, mode),
    {
        proof {
            reveal(spec_ldx);
        }
        let addr = self.get_operand_address(mode);
        let value = self.mem_read(addr);
        self.register_x = value;
        self.update_zero_and_negative_flags(value);
    }

    fn ldy(&mut self, mode: AddressingMode)
        requires
            old(self).wf(),
            mode != AddressingMode::NoneAddressing,
        ensures
            final(self).wf(),
            final(self)@ == spec_ldy(old(self)@, mode),
    {
        proof {
            reveal(spec_ldy);
        }
        let addr = self.get_operand_address(mode);
        let value = self.mem_read(addr);
        self.register_y = value;
        self.update_zero_and_negative_flags(value);
    }

    fn sta(&mut self, mode: AddressingMode)
        requires
            old(self).wf(),
            mode != AddressingMode::NoneAddressing,
        ensures
            final(self).wf(),
            final(self)@ == spec_sta(old(self)@, mode),
    {
        proof {
            reveal(spec_sta);
        }
        let addr = self.get_operand_address(mode);
        let value = self.register_a;
        self.mem_write(addr, value);
    }

    fn stx(&mut self, mode: AddressingMode)
        requires
            old(self).wf(),
            mode != AddressingMode::NoneAddressing,
        ensures
            final(self).wf(),
            final(self)@ == spec_stx(old(self)@, mode),
    {
        proof {
            reveal(spec_stx);
        }
        let addr = self.get_operand_address(mode);
        let value = self.register_x;
        self.mem_write(addr, value);
    }

    fn sty(&mut self, mode: AddressingMode)
        requires
            old(self).wf(),
            mode != AddressingMode::NoneAddressing,
        ensures
            final(self).wf(),
            final(self)@ == spec_sty(old(self)@, mode),
    {
        proof {
            reveal(spec_sty);
        }
        let addr = self.get_operand_address(mode);
        let value = self.register_y;
        self.mem_write(addr, value);
    }

    fn adc(&mut self, mode: AddressingMode)
        requires
            old(self).wf(),
            mode != AddressingMode::NoneAddressing,
        ensures
            final(self).wf(),
            final(self)@ == spec_adc_op(old(self)@, mode),
    {
        proof {
            reveal(spec_adc_op);
        }
        let addr = self.get_operand_address(mode);
        let value = self.mem_read(addr);
        self.add_to_register_a(value);
    }

    fn sbc(&mut self, mode: AddressingMode)
        requires
            old(self).wf(),
            mode != AddressingMode::NoneAddressing,
        ensures
            final(self).wf(),
            final(self)@ == spec_sbc_op(old(self)@, mode),
    {
        proof {
            reveal(spec_sbc_op);
        }
        let addr = self.get_operand_address(mode);
        let value = self.mem_read(addr);
        self.add_to_register_a(!value);
    }

    fn and(&mut self, mode: AddressingMode)
        requires
            old(self).wf(),
            mode != AddressingMode::NoneAddressing,
        ensures
            final(self).wf(),
            final(self)@ == spec_and(old(self)@, mode),
    {
        proof {
            reveal(spec_and);
        }
        let addr = self.get_operand_address(mode);
        let value = self.mem_read(addr);
        let r = self.register_a & value;
        self.set_register_a(r);
    }

    fn or(&mut self, mode: AddressingMode)
        requires
            old(self).wf(),
            mode != AddressingMode::NoneAddressing,
        ensures
            final(self).wf(),
            final(self)@ == spec_ora(old(self)@, mode),
    {
        proof {
            reveal(spec_ora);
        }
        let addr = self.get_operand_address(mode);
        let value = self.mem_read(addr);
        let r = self.register_a | value;
        self.set_register_a(r);
    }

    fn eor(&mut self, mode: AddressingMode)
        requires
            old(self).wf(),
            mode != AddressingMode::NoneAddressing,
        ensures
            final(self).wf(),
            final(self)@ == spec_eor(old(self)@, mode),
    {
        proof {
            reveal(spec_eor);
        }
        let addr = self.get_operand_address(mode);
        let value = self.mem_read(addr);
        let r = self.register_a ^ value;
        self.set_register_a(r);
    }

    fn asl_accumulator(&mut self)
        ensures
            final(self)@ == spec_asl_acc(old(self)@),
            old(self).wf() ==> final(self).wf(),
    {
        let value = self.register_a;
        self.set_register_a(value << 1);
        self.update_flag(F_CARRY, value >> 7 == 1);
    }

    fn asl_helper(&mut self, mode: AddressingMode)
        requires
            old(self).wf(),
            mode != AddressingMode::NoneAddressing,
        ensures
            final(self).wf(),
            final(self)@ == spec_asl_mem(old(self)@, mode),
    {
        let addr = self.get_operand_address(mode);
        let value = self.mem_read(addr);
        let result = value << 1;
        self.mem_write(addr, result);
        self.update_zero_and_negative_flags(result);
        self.update_flag(F_CARRY, value >> 7 == 1);
    }

    fn asl(&mut self, mode: AddressingMode)
        requires
            old(self).wf(),
        ensures
            final(self).wf(),
            final(self)@ == spec_asl(old(self)@, mode),
    {
        proof {
            reveal(spec_asl);
        }
        match mode {
            AddressingMode::NoneAddressing => self.asl_accumulator(),
            _ => self.asl_helper(mode),
        }
    }

    fn lsr_accumulator(&mut self)
        ensures
            final(self)@ == spec_lsr_acc(old(self)@),
            old(self).wf() ==> final(self).wf(),
    {
        let value = self.register_a;
        self.set_register_a(value >> 1);
        self.update_flag(F_CARRY, value & 1 == 1);
    }

    fn lsr_helper(&mut self, mode: AddressingMode)
        requires
            old(self).wf(),
            mode != AddressingMode::NoneAddressing,
        ensures
            final(self).wf(),
            final(self)@ == spec_lsr_mem(old(self)@, mode),
    {
        let addr = self.get_operand_address(mode);
        let value = self.mem_read(addr);
        let result = value >> 1;
        self.mem_write(addr, result);
        self.update_zero_and_negative_flags(result);
        self.update_flag(F_CARRY, value & 1 == 1);
    }

    fn lsr(&mut self, mode: AddressingMode)
        requires
            old(self).wf(),
        ensures
            final(self).wf(),
            final(self)@ == spec_lsr(old(self)@, mode),
    {
        proof {
            reveal(spec_lsr);
        }
        match mode {
            AddressingMode::NoneAddressing => self.lsr_accumulator(),
            _ => self.lsr_helper(mode),
        }
    }

    fn rol_accumulator(&mut self)
        ensures
            final(self)@ == spec_rol_acc(old(self)@),
            old(self).wf() ==> final(self).wf(),
    {
        let carry = self.register_a >> 7;
        let old_carry = self.status & F_CARRY != 0;
        let old_bit: u8 = if old_carry { 1 } else { 0 };
        let r = (self.register_a << 1) | old_bit;
        self.set_register_a(r);
        self.update_flag(F_CARRY, carry == 1);
    }

    fn rol_helper(&mut self, mode: AddressingMode)
        requires
            old(self).wf(),
            mode != AddressingMode::NoneAddressing,
        ensures
            final(self).wf(),
            final(self)@ == spec_rol_mem(old(self)@, mode),
    {
        let addr = self.get_operand_address(mode);
        let value = self.mem_read(addr);
        let carry = value >> 7;
        let old_carry = self.status & F_CARRY != 0;
        let old_bit: u8 = if old_carry { 1 } else { 0 };
        let result = (value << 1) | old_bit;
        self.mem_write(addr, result);
        self.update_zero_and_negative_flags(result);
        self.update_flag(F_CARRY, carry == 1);
    }

    fn rol(&mut self, mode: AddressingMode)
        requires
            old(self).wf(),
        ensures
            final(self).wf(),
            final(self)@ == spec_rol(old(self)@, mode),
    {
        proof {
            reveal(spec_rol);
        }
        match mode {
            AddressingMode::NoneAddressing => self.rol_accumulator(),
            _ => self.rol_helper(mode),
        }
    }

    fn ror_accumulator(&mut self)
        ensures
            final(self)@ == spec_ror_acc(old(self)@),
            old(self).wf() ==> final(self).wf(),
    {
        let carry = self.register_a & 1;
        let old_carry = self.status & F_CARRY != 0;
        let old_bit: u8 = if old_carry { 1 } else { 0 };
        let r = (self.register_a >> 1) | (old_bit << 7);
        self.set_register_a(r);
        self.update_flag(F_CARRY, carry == 1);
    }

    fn ror_helper(&mut self, mode: AddressingMode)
        requires
            old(self).wf(),
            mode != AddressingMode::NoneAddressing,
        ensures
            final(self).wf(),
            final(self)@ == spec_ror_mem(old(self)@, mode),
    {
        let addr = self.get_operand_address(mode);
        let value = self.mem_read(addr);
        let carry = value & 1;
        let old_carry = self.status & F_CARRY != 0;
        let old_bit: u8 = if old_carry { 1 } else { 0 };
        let result = (value >> 1) | (old_bit << 7);
        self.mem_write(addr, result);
        self.update_zero_and_negative_flags(result);
        self.update_flag(F_CARRY, carry == 1);
    }

    fn ror(&mut self, mode: AddressingMode)
        requires
            old(self).wf(),
        ensures
            final(self).wf(),
            final(self)@ == spec_ror(old(self)@, mode),
    {
        proof {
            reveal(spec_ror);
        }
        match mode {
            AddressingMode::NoneAddressing => self.ror_accumulator(),
            _ => self.ror_helper(mode),
        }
    }

    fn compare(&mut self, mode: AddressingMode, reg: u8)
        requires
            old(self).wf(),
            mode != AddressingMode::NoneAddressing,
        ensures
            final(self).wf(),
            final(self)@ == spec_compare(old(self)@, mode, reg),
    {
        proof {
            reveal(spec_compare);
        }
        let addr = self.get_operand_address(mode);
        let value = self.mem_read(addr);
        self.update_zero_and_negative_flags(reg.wrapping_sub(value));
        self.update_flag(F_CARRY, reg >= value);
    }

    fn inc(&mut self, mode: AddressingMode)
        requires
            old(self).wf(),
            mode != AddressingMode::NoneAddressing,
        ensures
            final(self).wf(),
            final(self)@ == spec_inc(old(self)@, mode),
    {
        proof {
            reveal(spec_inc);
        }
        let addr = self.get_operand_address(mode);
        let value = self.mem_read(addr);
        let result = value.wrapping_add(1);
        self.mem_write(addr, result);
        self.update_zero_and_negative_flags(result);
    }

    fn dec(&mut self, mode: AddressingMode)
        requires
            old(self).wf(),
            mode != AddressingMode::NoneAddressing,
        ensures
            final(self).wf(),
            final(self)@ == spec_dec(old(self)@, mode),
    {
        proof {
            reveal(spec_dec);
        }
        let addr = self.get_operand_address(mode);
        let value = self.mem_read(addr);
        let result = value.wrapping_sub(1);
        self.mem_write(addr, result);
        self.update_zero_and_negative_flags(result);
    }

    fn bit(&mut self, mode: AddressingMode)
        requires
            old(self).wf(),
            mode != AddressingMode::NoneAddressing,
        ensures
            final(self).wf(),
            final(self)@ == spec_bit(old(self)@, mode),
    {
        proof {
            reveal(spec_bit);
        }
        let addr = self.get_operand_address(mode);
        let value = self.mem_read(addr);
        self.update_flag(F_NEG, value & 0x80 != 0);
        self.update_flag(F_OVRFLW, value & 0x40 != 0);
        self.update_flag(F_ZERO, self.register_a & value == 0);
    }

    fn tax(&mut self)
        ensures
            final(self)@ == spec_tax(old(self)@),
            old(self).wf() ==> final(self).wf(),
    {
        proof {
            reveal(spec_tax);
        }
        self.register_x = self.register_a;
        self.update_zero_and_negative_flags(self.register_x);
    }

    fn lax(&mut self, mode: AddressingMode)
        requires
            old(self).wf(),
            mode != AddressingMode::NoneAddressing,
        ensures
            final(self).wf(),
            final(self)@ == spec_lax(old(self)@, mode),
    {
        proof {
            reveal(spec_lax);
        }
        self.lda(mode);
        self.tax();
    }

    fn sax(&mut self, mode: AddressingMode)
        requires
            old(self).wf(),
            mode != AddressingMode::NoneAddressing,
        ensures
            final(self).wf(),
            final(self)@ == spec_sax(old(self)@, mode),
    {
        proof {
            reveal(spec_sax);
        }
        let addr = self.get_operand_address(mode);
        let value = self.register_a & self.register_x;
        self.mem_write(addr, value);
    }

    fn dcp(&mut self, mode: AddressingMode)
        requires
            old(self).wf(),
            mode != AddressingMode::NoneAddressing,
        ensures
            final(self).wf(),
            final(self)@ == spec_dcp(old(self)@, mode),
    {
        proof {
            reveal(spec_dcp);
        }
        self.dec(mode);
        let reg = self.register_a;
        self.compare(mode, reg);
    }

    fn isb(&mut self, mode: AddressingMode)
        requires
            old(self).wf(),
            mode != AddressingMode::NoneAddressing,
        ensures
            final(self).wf(),
            final(self)@ == spec_isb(old(self)@, mode),
    {
        proof {
            reveal(spec_isb);
        }
        self.inc(mode);
        self.sbc(mode);
    }

    fn slo(&mut self, mode: AddressingMode)
        requires
            old(self).wf(),
            mode != AddressingMode::NoneAddressing,
        ensures
            final(self).wf(),
            final(self)@ == spec_slo(old(self)@, mode),
    {
        proof {
            reveal(spec_slo);
        }
        self.asl(mode);
        self.or(mode);
    }

    fn rla(&mut self, mode: AddressingMode)
        requires
            old(self).wf(),
            mode != AddressingMode::NoneAddressing,
        ensures
            final(self).wf(),
            final(self)@ == spec_rla(old(self)@, mode),
    {
        proof {
            reveal(spec_rla);
        }
        self.rol(mode);
        self.and(mode);
    }

    fn sre(&mut self, mode: AddressingMode)
        requires
            old(self).wf(),
            mode != AddressingMode::NoneAddressing,
        ensures
            final(self).wf(),
            final(self)@ == spec_sre(old(self)@, mode),
    {
        proof {
            reveal(spec_sre);
        }
        self.lsr(mode);
        self.eor(mode);
    }

    fn rra(&mut self, mode: AddressingMode)
        requires
            old(self).wf(),
            mode != AddressingMode::NoneAddressing,
        ensures
            final(self).wf(),
            final(self)@ == spec_rra(old(self)@, mode),
    {
        proof {
            reveal(spec_rra);
        }
        self.ror(mode);
        self.adc(mode);
    }

    fn branch(&mut self, flag: u8, branch_on_set: bool)
        requires
            old(self).wf(),
        ensures
            final(self).wf(),
            final(self)@ == spec_branch(old(self)@, flag, branch_on_set),
    {
        proof {
            reveal(spec_branch);
        }
        let flag_set = self.status & flag != 0;
        if flag_set == branch_on_set {
            self.bus.tick(1);

            let offset = self.mem_read(self.program_counter) as i8;
            let jump_addr = self.program_counter.wrapping_add(1).wrapping_add(offset as u16);

            if page_crossed(self.program_counter.wrapping_add(1), jump_addr) {
                self.bus.tick(1);
            }

            self.program_counter = jump_addr;
        }
    }

    fn jsr(&mut self)
        requires
            old(self).wf(),
        ensures
            final(self).wf(),
            final(self)@ == spec_jsr(old(self)@),
    {
        proof {
            reveal(spec_jsr);
        }
        let ret = self.program_counter.wrapping_add(1);
        self.stack_push_u16(ret);
        self.program_counter = self.mem_read_u16(self.program_counter);
    }

    fn rts(&mut self)
        requires
            old(self).wf(),
        ensures
            final(self).wf(),
            final(self)@ == spec_rts(old(self)@),
    {
        proof {
            reveal(spec_rts);
        }
        let target = self.stack_pop_u16();
        self.program_counter = target.wrapping_add(1);
    }

    fn rti(&mut self)
        requires
            old(self).wf(),
        ensures
            final(self).wf(),
            final(self)@ == spec_rti(old(self)@),
    {
        proof {
            reveal(spec_rti);
        }
        self.plp();
        self.program_counter = self.stack_pop_u16();
    }

    fn pha(&mut self)
        requires
            old(self).wf(),
        ensures
            final(self).wf(),
            final(self)@ == spec_pha(old(self)@),
    {
        proof {
            reveal(spec_pha);
        }
        let value = self.register_a;
        self.stack_push(value);
    }

    fn php(&mut self)
        requires
            old(self).wf(),
        ensures
            final(self).wf(),
            final(self)@ == spec_php(old(self)@),
    {
        proof {
            reveal(spec_php);
        }
        let value = self.status | F_BREAK;
        self.stack_push(value);
    }

    fn pla(&mut self)
        requires
            old(self).wf(),
        ensures
            final(self).wf(),
            final(self)@ == spec_pla(old(self)@),
    {
        proof {
            reveal(spec_pla);
        }
        let data = self.stack_pop();
        self.set_register_a(data);
    }

    fn plp(&mut self)
        requires
            old(self).wf(),
        ensures
            final(self).wf(),
            final(self)@ == spec_plp(old(self)@),
    {
        proof {
            reveal(spec_plp);
        }
        let popped = self.stack_pop();
        self.status = (popped & !F_BREAK) | (self.status & F_BREAK);
    }

    fn nop(&mut self, mode: AddressingMode)
        requires
            old(self).wf(),
        ensures
            final(self).wf(),
            final(self)@ == spec_nop_op(old(self)@, mode),
    {
        proof {
            reveal(spec_nop_op);
        }
        match mode {
            AddressingMode::NoneAddressing => {},
            AddressingMode::Immediate => {},
            _ => {
                let addr = self.get_operand_address(mode);
                self.mem_read(addr);
            },
        }
    }

    fn interrupt_nmi(&mut self)
        requires
            old(self).wf(),
        ensures
            final(self).wf(),
            final(self)@ == spec_interrupt_nmi(old(self)@),
    {
        proof {
            reveal(spec_interrupt_nmi);
        }
        let pc = self.program_counter;
        self.stack_push_u16(pc);
        let pushed = (self.status | F_BREAK_BIT_5) & !F_BREAK_BIT_4;
        self.stack_push(pushed);
        self.status = self.status | F_INT;

        self.bus.tick(7);
        self.program_counter = self.mem_read_u16(0xFFFA);
    }
}

// ---------------------------------------------------------------------------
// Fetch–decode–execute.
// ---------------------------------------------------------------------------

/// The absolute jump: control moves to the 16-bit operand.
#[verifier::opaque]
pub open spec fn spec_jmp_absolute(m: CpuView) -> CpuView {
    CpuView { pc: spec_read16_val(m.bus, m.pc), bus: spec_read16_bus(m.bus, m.pc), ..m }
}

/// The indirect jump, with the hardware's page-wrap quirk: when the pointer
/// sits at the end of a page (low byte 0xFF), the target's high byte is
/// fetched from the start of the same page rather than the next one.
#[verifier::opaque]
pub open spec fn spec_jmp_indirect(m: CpuView) -> CpuView {
    let addr = spec_read16_val(m.bus, m.pc);
    let b1 = spec_read16_bus(m.bus, m.pc);
    if addr & 0x00FF == 0x00FF {
        let lo = spec_mem_read_val(b1, addr);
        let b2 = spec_mem_read(b1, addr);
        let hi = spec_mem_read_val(b2, addr & 0xFF00);
        let b3 = spec_mem_read(b2, addr & 0xFF00);
        CpuView { pc: (hi as u16) << 8 | lo as u16, bus: b3, ..m }
    } else {
        CpuView { pc: spec_read16_val(b1, addr), bus: spec_read16_bus(b1, addr), ..m }
    }
}

/// The machine after the body of one instruction, dispatched from the
/// decoded table row: the state `m` has the opcode already fetched and the
/// program counter past it.
#[verifier::opaque]
pub open spec fn spec_dispatch(m: CpuView, opcode: u8) -> CpuView {
    let mode = spec_op(opcode).mode;
    match spec_op(opcode).ins {
        Mnemonic::ADC => spec_adc_op(m, mode),
        Mnemonic::AND => spec_and(m, mode),
        Mnemonic::ASL => spec_asl(m, mode),
        Mnemonic::BCC => spec_branch(m, F_CARRY, false),
        Mnemonic::BCS => spec_branch(m, F_CARRY, true),
        Mnemonic::BEQ => spec_branch(m, F_ZERO, true),
        Mnemonic::BIT => spec_bit(m, mode),
        Mnemonic::BMI => spec_branch(m, F_NEG, true),
        Mnemonic::BNE => spec_branch(m, F_ZERO, false),
        Mnemonic::BPL => spec_branch(m, F_NEG, false),
        Mnemonic::BRK => m,
        Mnemonic::BVC => spec_branch(m, F_OVRFLW, false),
        Mnemonic::BVS => spec_branch(m, F_OVRFLW, true),
        Mnemonic::CLC => CpuView { p: m.p & !F_CARRY, ..m },
        Mnemonic::CLD => CpuView { p: m.p & !F_DEC, ..m },
        Mnemonic::CLI => CpuView { p: m.p & !F_INT, ..m },
        Mnemonic::CLV => CpuView { p: m.p & !F_OVRFLW, ..m },
        Mnemonic::CMP => spec_compare(m, mode, m.a),
        Mnemonic::CPX => spec_compare(m, mode, m.x),
        Mnemonic::CPY => spec_compare(m, mode, m.y),
        Mnemonic::DCP => spec_dcp(m, mode),
        Mnemonic::DEC => spec_dec(m, mode),
        Mnemonic::DEX => spec_dex(m),
        Mnemonic::DEY => spec_dey(m),
        Mnemonic::EOR => spec_eor(m, mode),
        Mnemonic::INC => spec_inc(m, mode),
        Mnemonic::INX => spec_inx(m),
        Mnemonic::INY => spec_iny(m),
        Mnemonic::ISB => spec_isb(m, mode),
        Mnemonic::JMP => if opcode == 0x4C {
            spec_jmp_absolute(m)
        } else if opcode == 0x6C {
            spec_jmp_indirect(m)
        } else {
            m
        },
        Mnemonic::JSR => spec_jsr(m),
        Mnemonic::LAX => spec_lax(m, mode),
        Mnemonic::LDA => spec_lda(m, mode),
        Mnemonic::LDX => spec_ldx(m, mode),
        Mnemonic::LDY => spec_ldy(m, mode),
        Mnemonic::LSR => spec_lsr(m, mode),
        Mnemonic::NOP => if spec_op(opcode).undoc {
            spec_nop_op(m, mode)
        } else {
            m
        },
        Mnemonic::ORA => spec_ora(m, mode),
        Mnemonic::PHA => spec_pha(m),
        Mnemonic::PHP => spec_php(m),
        Mnemonic::PLA => spec_pla(m),
        Mnemonic::PLP => spec_plp(m),
        Mnemonic::RLA => spec_rla(m, mode),
        Mnemonic::ROL => spec_rol(m, mode),
        Mnemonic::ROR => spec_ror(m, mode),
        Mnemonic::RRA => spec_rra(m, mode),
        Mnemonic::RTI => spec_rti(m),
        Mnemonic::RTS => spec_rts(m),
        Mnemonic::SAX => spec_sax(m, mode),
        Mnemonic::SBC => spec_sbc_op(m, mode),
        Mnemonic::SEC => CpuView { p: m.p | F_CARRY, ..m },
        Mnemonic::SED => CpuView { p: m.p | F_DEC, ..m },
        Mnemonic::SEI => CpuView { p: m.p | F_INT, ..m },
        Mnemonic::SLO => spec_slo(m, mode),
        Mnemonic::SRE => spec_sre(m, mode),
        Mnemonic::STA => spec_sta(m, mode),
        Mnemonic::STX => spec_stx(m, mode),
        Mnemonic::STY => spec_sty(m, mode),
        Mnemonic::TAX => spec_tax(m),
        Mnemonic::TAY => spec_tay(m),
        Mnemonic::TSX => spec_tsx(m),
        Mnemonic::TXA => spec_txa(m),
        Mnemonic::TXS => spec_txs(m),
        Mnemonic::TYA => spec_tya(m),
    }
}

/// The machine with the interrupt latch consumed, and the interrupt entry
/// taken when one was pending.
#[verifier::opaque]
pub open spec fn spec_after_nmi(m: CpuView) -> CpuView {
    let pending = m.bus.ppu.nmi_interrupt is Some;
    let polled = m.with_bus(BusView {
        ppu: PpuView { nmi_interrupt: None, ..m.bus.ppu },
        ..m.bus
    });
    if pending {
        spec_interrupt_nmi(polled)
    } else {
        polled
    }
}

/// One full interpreter step: service a pending interrupt, fetch and decode
/// the opcode, run the instruction, spend its base cycles, and step the
/// program counter over the operand when the instruction left it alone.
///
/// A break instruction stops the interpreter after its fetch instead of
/// pushing state and vectoring through 0xFFFE as the silicon does: within
/// this machine's scope a break is the test harness's termination signal,
/// and a host that needs the hardware entry can install it at the 0xFFFE
/// vector's expense outside the interpreter.
#[verifier::opaque]
pub open spec fn spec_step(m: CpuView) -> CpuView {
    let ma = spec_after_nmi(m);
    let opcode = spec_mem_read_val(ma.bus, ma.pc);
    let mb = CpuView {
        pc: ma.pc.wrapping_add(1),
        bus: spec_mem_read(ma.bus, ma.pc),
        ..ma
    };
    let op = spec_op(opcode);
    if op.ins == Mnemonic::BRK {
        mb
    } else {
        let m2 = spec_dispatch(mb, opcode);
        let m3 = m2.with_bus(spec_bus_tick(m2.bus, op.cycles));
        // "the instruction left the counter alone" is judged by value: a
        // jump whose target happens to be the address right after its own
        // opcode byte is indistinguishable from no jump and also steps over
        // its operand bytes
        if m2.pc == mb.pc {
            CpuView { pc: mb.pc.wrapping_add((op.len - 1) as u16), ..m3 }
        } else {
            m3
        }
    }
}

/// Whether a step runs a real instruction: false exactly when the fetched
/// opcode is the break instruction, on which the interpreter stops.
#[verifier::opaque]
pub open spec fn spec_step_cont(m: CpuView) -> bool {
    let ma = spec_after_nmi(m);
    spec_op(spec_mem_read_val(ma.bus, ma.pc)).ins != Mnemonic::BRK
}

/// The machine after `n` interpreter steps.
#[verifier::opaque]
pub open spec fn spec_run_n(m: CpuView, n: nat) -> CpuView
    decreases n,
{
    if n == 0 {
        m
    } else {
        spec_step(spec_run_n(m, (n - 1) as nat))
    }
}

/// Zero steps leave the machine alone.
pub proof fn lemma_run_n_zero(m: CpuView)
    ensures
        spec_run_n(m, 0) == m,
{
    reveal(spec_run_n);
}

/// One more step is one application of the step function.
pub proof fn lemma_run_n_unfold(m: CpuView, n: nat)
    ensures
        spec_run_n(m, n + 1) == spec_step(spec_run_n(m, n)),
{
    reveal(spec_run_n);
}

/// The machine after a reset: registers cleared, stack pointer at its
/// power-on slot, only the interrupt-disable and the always-set bit in the
/// status, and control at the reset vector.
pub open spec fn spec_reset(m: CpuView) -> CpuView {
    CpuView {
        a: 0,
        x: 0,
        y: 0,
        sp: STACK_RESET,
        p: 0x24,
        pc: spec_read16_val(m.bus, 0xFFFC),
        bus: spec_read16_bus(m.bus, 0xFFFC),
    }
}

/// The machine ready to run a freshly loaded program: the image written at
/// 0x0600 and the machine reset.
pub open spec fn spec_boot(m: CpuView, program: Seq<u8>) -> CpuView {
    spec_reset(spec_load(m, program, program.len()))
}

/// The machine after the first `n` bytes of a program image have been
/// written to 0x0600 onward.
pub open spec fn spec_load(m: CpuView, program: Seq<u8>, n: nat) -> CpuView
    decreases n,
{
    if n == 0 {
        m
    } else {
        let m1 = spec_load(m, program, (n - 1) as nat);
        m1.with_bus(spec_mem_write(m1.bus, (0x600 + n - 1) as u16, program[n - 1]))
    }
}

// How the dispatcher unfolds, one instruction at a time: small steps a
// caller can take without opening the whole dispatch table.
pub proof fn lemma_dispatch_adc(m: CpuView, opcode: u8)
    requires
        spec_op(opcode).ins == Mnemonic::ADC,
    ensures
        ({
            let mode = spec_op(opcode).mode;
            spec_dispatch(m, opcode) == spec_adc_op(m, mode)
        }),
{
    reveal(spec_dispatch);
}

pub proof fn lemma_dispatch_and(m: CpuView, opcode: u8)
    requires
        spec_op(opcode).ins == Mnemonic::AND,
    ensures
        ({
            let mode = spec_op(opcode).mode;
            spec_dispatch(m, opcode) == spec_and(m, mode)
        }),
{
    reveal(spec_dispatch);
}

proof fn lemma_dispatch_asl(m: CpuView, opcode: u8)
    requires
        spec_op(opcode).ins == Mnemonic::ASL,
    ensures
        ({
            let mode = spec_op(opcode).mode;
            spec_dispatch(m, opcode) == spec_asl(m, mode)
        }),
{
    reveal(spec_dispatch);
}

pub proof fn lemma_dispatch_bcc(m: CpuView, opcode: u8)
    requires
        spec_op(opcode).ins == Mnemonic::BCC,
    ensures
        ({
            let mode = spec_op(opcode).mode;
            spec_dispatch(m, opcode) == spec_branch(m, F_CARRY, false)
        }),
{
    reveal(spec_dispatch);
}

pub proof fn lemma_dispatch_bcs(m: CpuView, opcode: u8)
    requires
        spec_op(opcode).ins == Mnemonic::BCS,
    ensures
        ({
            let mode = spec_op(opcode).mode;
            spec_dispatch(m, opcode) == spec_branch(m, F_CARRY, true)
        }),
{
    reveal(spec_dispatch);
}

pub proof fn lemma_dispatch_beq(m: CpuView, opcode: u8)
    requires
        spec_op(opcode).ins == Mnemonic::BEQ,
    ensures
        ({
            let mode = spec_op(opcode).mode;
            spec_dispatch(m, opcode) == spec_branch(m, F_ZERO, true)
        }),
{
    reveal(spec_dispatch);
}

pub proof fn lemma_dispatch_bit(m: CpuView, opcode: u8)
    requires
        spec_op(opcode).ins == Mnemonic::BIT,
    ensures
        ({
            let mode = spec_op(opcode).mode;
            spec_dispatch(m, opcode) == spec_bit(m, mode)
        }),
{
    reveal(spec_dispatch);
}

pub proof fn lemma_dispatch_bmi(m: CpuView, opcode: u8)
    requires
        spec_op(opcode).ins == Mnemonic::BMI,
    ensures
        ({
            let mode = spec_op(opcode).mode;
            spec_dispatch(m, opcode) == spec_branch(m, F_NEG, true)
        }),
{
    reveal(spec_dispatch);
}

pub proof fn lemma_dispatch_bne(m: CpuView, opcode: u8)
    requires
        spec_op(opcode).ins == Mnemonic::BNE,
    ensures
        ({
            let mode = spec_op(opcode).mode;
            spec_dispatch(m, opcode) == spec_branch(m, F_ZERO, false)
        }),
{
    reveal(spec_dispatch);
}

pub proof fn lemma_dispatch_bpl(m: CpuView, opcode: u8)
    requires
        spec_op(opcode).ins == Mnemonic::BPL,
    ensures
        ({
            let mode = spec_op(opcode).mode;
            spec_dispatch(m, opcode) == spec_branch(m, F_NEG, false)
        }),
{
    reveal(spec_dispatch);
}

pub proof fn lemma_dispatch_bvc(m: CpuView, opcode: u8)
    requires
        spec_op(opcode).ins == Mnemonic::BVC,
    ensures
        ({
            let mode = spec_op(opcode).mode;
            spec_dispatch(m, opcode) == spec_branch(m, F_OVRFLW, false)
        }),
{
    reveal(spec_dispatch);
}

pub proof fn lemma_dispatch_bvs(m: CpuView, opcode: u8)
    requires
        spec_op(opcode).ins == Mnemonic::BVS,
    ensures
        ({
            let mode = spec_op(opcode).mode;
            spec_dispatch(m, opcode) == spec_branch(m, F_OVRFLW, true)
        }),
{
    reveal(spec_dispatch);
}

proof fn lemma_dispatch_clc(m: CpuView, opcode: u8)
    requires
        spec_op(opcode).ins == Mnemonic::CLC,
    ensures
        ({
            let mode = spec_op(opcode).mode;
            spec_dispatch(m, opcode) == (CpuView { p: m.p & !F_CARRY, ..m })
        }),
{
    reveal(spec_dispatch);
}

proof fn lemma_dispatch_cld(m: CpuView, opcode: u8)
    requires
        spec_op(opcode).ins == Mnemonic::CLD,
    ensures
        ({
            let mode = spec_op(opcode).mode;
            spec_dispatch(m, opcode) == (CpuView { p: m.p & !F_DEC, ..m })
        }),
{
    reveal(spec_dispatch);
}

proof fn lemma_dispatch_cli(m: CpuView, opcode: u8)
    requires
        spec_op(opcode).ins == Mnemonic::CLI,
    ensures
        ({
            let mode = spec_op(opcode).mode;
            spec_dispatch(m, opcode) == (CpuView { p: m.p & !F_INT, ..m })
        }),
{
    reveal(spec_dispatch);
}

proof fn lemma_dispatch_clv(m: CpuView, opcode: u8)
    requires
        spec_op(opcode).ins == Mnemonic::CLV,
    ensures
        ({
            let mode = spec_op(opcode).mode;
            spec_dispatch(m, opcode) == (CpuView { p: m.p & !F_OVRFLW, ..m })
        }),
{
    reveal(spec_dispatch);
}

pub proof fn lemma_dispatch_cmp(m: CpuView, opcode: u8)
    requires
        spec_op(opcode).ins == Mnemonic::CMP,
    ensures
        ({
            let mode = spec_op(opcode).mode;
            spec_dispatch(m, opcode) == spec_compare(m, mode, m.a)
        }),
{
    reveal(spec_dispatch);
}

pub proof fn lemma_dispatch_cpx(m: CpuView, opcode: u8)
    requires
        spec_op(opcode).ins == Mnemonic::CPX,
    ensures
        ({
            let mode = spec_op(opcode).mode;
            spec_dispatch(m, opcode) == spec_compare(m, mode, m.x)
        }),
{
    reveal(spec_dispatch);
}

pub proof fn lemma_dispatch_cpy(m: CpuView, opcode: u8)
    requires
        spec_op(opcode).ins == Mnemonic::CPY,
    ensures
        ({
            let mode = spec_op(opcode).mode;
            spec_dispatch(m, opcode) == spec_compare(m, mode, m.y)
        }),
{
    reveal(spec_dispatch);
}

proof fn lemma_dispatch_dcp(m: CpuView, opcode: u8)
    requires
        spec_op(opcode).ins == Mnemonic::DCP,
    ensures
        ({
            let mode = spec_op(opcode).mode;
            spec_dispatch(m, opcode) == spec_dcp(m, mode)
        }),
{
    reveal(spec_dispatch);
}

proof fn lemma_dispatch_dec(m: CpuView, opcode: u8)
    requires
        spec_op(opcode).ins == Mnemonic::DEC,
    ensures
        ({
            let mode = spec_op(opcode).mode;
            spec_dispatch(m, opcode) == spec_dec(m, mode)
        }),
{
    reveal(spec_dispatch);
}

proof fn lemma_dispatch_dex(m: CpuView, opcode: u8)
    requires
        spec_op(opcode).ins == Mnemonic::DEX,
    ensures
        ({
            let mode = spec_op(opcode).mode;
            spec_dispatch(m, opcode) == spec_dex(m)
        }),
{
    reveal(spec_dispatch);
}

proof fn lemma_dispatch_dey(m: CpuView, opcode: u8)
    requires
        spec_op(opcode).ins == Mnemonic::DEY,
    ensures
        ({
            let mode = spec_op(opcode).mode;
            spec_dispatch(m, opcode) == spec_dey(m)
        }),
{
    reveal(spec_dispatch);
}

pub proof fn lemma_dispatch_eor(m: CpuView, opcode: u8)
    requires
        spec_op(opcode).ins == Mnemonic::EOR,
    ensures
        ({
            let mode = spec_op(opcode).mode;
            spec_dispatch(m, opcode) == spec_eor(m, mode)
        }),
{
    reveal(spec_dispatch);
}

proof fn lemma_dispatch_inc(m: CpuView, opcode: u8)
    requires
        spec_op(opcode).ins == Mnemonic::INC,
    ensures
        ({
            let mode = spec_op(opcode).mode;
            spec_dispatch(m, opcode) == spec_inc(m, mode)
        }),
{
    reveal(spec_dispatch);
}

proof fn lemma_dispatch_inx(m: CpuView, opcode: u8)
    requires
        spec_op(opcode).ins == Mnemonic::INX,
    ensures
        ({
            let mode = spec_op(opcode).mode;
            spec_dispatch(m, opcode) == spec_inx(m)
        }),
{
    reveal(spec_dispatch);
}

proof fn lemma_dispatch_iny(m: CpuView, opcode: u8)
    requires
        spec_op(opcode).ins == Mnemonic::INY,
    ensures
        ({
            let mode = spec_op(opcode).mode;
            spec_dispatch(m, opcode) == spec_iny(m)
        }),
{
    reveal(spec_dispatch);
}

proof fn lemma_dispatch_isb(m: CpuView, opcode: u8)
    requires
        spec_op(opcode).ins == Mnemonic::ISB,
    ensures
        ({
            let mode = spec_op(opcode).mode;
            spec_dispatch(m, opcode) == spec_isb(m, mode)
        }),
{
    reveal(spec_dispatch);
}

proof fn lemma_dispatch_jmp(m: CpuView, opcode: u8)
    requires
        spec_op(opcode).ins == Mnemonic::JMP,
    ensures
        ({
            let mode = spec_op(opcode).mode;
            spec_dispatch(m, opcode) == (if opcode == 0x4C {
                spec_jmp_absolute(m)
            } else if opcode == 0x6C {
                spec_jmp_indirect(m)
            } else {
                m
            })
        }),
{
    reveal(spec_dispatch);
}

proof fn lemma_dispatch_jsr(m: CpuView, opcode: u8)
    requires
        spec_op(opcode).ins == Mnemonic::JSR,
    ensures
        ({
            let mode = spec_op(opcode).mode;
            spec_dispatch(m, opcode) == spec_jsr(m)
        }),
{
    reveal(spec_dispatch);
}

proof fn lemma_dispatch_lax(m: CpuView, opcode: u8)
    requires
        spec_op(opcode).ins == Mnemonic::LAX,
    ensures
        ({
            let mode = spec_op(opcode).mode;
            spec_dispatch(m, opcode) == spec_lax(m, mode)
        }),
{
    reveal(spec_dispatch);
}

pub proof fn lemma_dispatch_lda(m: CpuView, opcode: u8)
    requires
        spec_op(opcode).ins == Mnemonic::LDA,
    ensures
        ({
            let mode = spec_op(opcode).mode;
            spec_dispatch(m, opcode) == spec_lda(m, mode)
        }),
{
    reveal(spec_dispatch);
}

pub proof fn lemma_dispatch_ldx(m: CpuView, opcode: u8)
    requires
        spec_op(opcode).ins == Mnemonic::LDX,
    ensures
        ({
            let mode = spec_op(opcode).mode;
            spec_dispatch(m, opcode) == spec_ldx(m, mode)
        }),
{
    reveal(spec_dispatch);
}

pub proof fn lemma_dispatch_ldy(m: CpuView, opcode: u8)
    requires
        spec_op(opcode).ins == Mnemonic::LDY,
    ensures
        ({
            let mode = spec_op(opcode).mode;
            spec_dispatch(m, opcode) == spec_ldy(m, mode)
        }),
{
    reveal(spec_dispatch);
}

proof fn lemma_dispatch_lsr(m: CpuView, opcode: u8)
    requires
        spec_op(opcode).ins == Mnemonic::LSR,
    ensures
        ({
            let mode = spec_op(opcode).mode;
            spec_dispatch(m, opcode) == spec_lsr(m, mode)
        }),
{
    reveal(spec_dispatch);
}

proof fn lemma_dispatch_nop(m: CpuView, opcode: u8)
    requires
        spec_op(opcode).ins == Mnemonic::NOP,
    ensures
        ({
            let mode = spec_op(opcode).mode;
            spec_dispatch(m, opcode) == (if spec_op(opcode).undoc {
                spec_nop_op(m, mode)
            } else {
                m
            })
        }),
{
    reveal(spec_dispatch);
}

pub proof fn lemma_dispatch_ora(m: CpuView, opcode: u8)
    requires
        spec_op(opcode).ins == Mnemonic::ORA,
    ensures
        ({
            let mode = spec_op(opcode).mode;
            spec_dispatch(m, opcode) == spec_ora(m, mode)
        }),
{
    reveal(spec_dispatch);
}

proof fn lemma_dispatch_pha(m: CpuView, opcode: u8)
    requires
        spec_op(opcode).ins == Mnemonic::PHA,
    ensures
        ({
            let mode = spec_op(opcode).mode;
            spec_dispatch(m, opcode) == spec_pha(m)
        }),
{
    reveal(spec_dispatch);
}

proof fn lemma_dispatch_php(m: CpuView, opcode: u8)
    requires
        spec_op(opcode).ins == Mnemonic::PHP,
    ensures
        ({
            let mode = spec_op(opcode).mode;
            spec_dispatch(m, opcode) == spec_php(m)
        }),
{
    reveal(spec_dispatch);
}

proof fn lemma_dispatch_pla(m: CpuView, opcode: u8)
    requires
        spec_op(opcode).ins == Mnemonic::PLA,
    ensures
        ({
            let mode = spec_op(opcode).mode;
            spec_dispatch(m, opcode) == spec_pla(m)
        }),
{
    reveal(spec_dispatch);
}

proof fn lemma_dispatch_plp(m: CpuView, opcode: u8)
    requires
        spec_op(opcode).ins == Mnemonic::PLP,
    ensures
        ({
            let mode = spec_op(opcode).mode;
            spec_dispatch(m, opcode) == spec_plp(m)
        }),
{
    reveal(spec_dispatch);
}

proof fn lemma_dispatch_rla(m: CpuView, opcode: u8)
    requires
        spec_op(opcode).ins == Mnemonic::RLA,
    ensures
        ({
            let mode = spec_op(opcode).mode;
            spec_dispatch(m, opcode) == spec_rla(m, mode)
        }),
{
    reveal(spec_dispatch);
}

proof fn lemma_dispatch_rol(m: CpuView, opcode: u8)
    requires
        spec_op(opcode).ins == Mnemonic::ROL,
    ensures
        ({
            let mode = spec_op(opcode).mode;
            spec_dispatch(m, opcode) == spec_rol(m, mode)
        }),
{
    reveal(spec_dispatch);
}

proof fn lemma_dispatch_ror(m: CpuView, opcode: u8)
    requires
        spec_op(opcode).ins == Mnemonic::ROR,
    ensures
        ({
            let mode = spec_op(opcode).mode;
            spec_dispatch(m, opcode) == spec_ror(m, mode)
        }),
{
    reveal(spec_dispatch);
}

proof fn lemma_dispatch_rra(m: CpuView, opcode: u8)
    requires
        spec_op(opcode).ins == Mnemonic::RRA,
    ensures
        ({
            let mode = spec_op(opcode).mode;
            spec_dispatch(m, opcode) == spec_rra(m, mode)
        }),
{
    reveal(spec_dispatch);
}

proof fn lemma_dispatch_rti(m: CpuView, opcode: u8)
    requires
        spec_op(opcode).ins == Mnemonic::RTI,
    ensures
        ({
            let mode = spec_op(opcode).mode;
            spec_dispatch(m, opcode) == spec_rti(m)
        }),
{
    reveal(spec_dispatch);
}

proof fn lemma_dispatch_rts(m: CpuView, opcode: u8)
    requires
        spec_op(opcode).ins == Mnemonic::RTS,
    ensures
        ({
            let mode = spec_op(opcode).mode;
            spec_dispatch(m, opcode) == spec_rts(m)
        }),
{
    reveal(spec_dispatch);
}

proof fn lemma_dispatch_sax(m: CpuView, opcode: u8)
    requires
        spec_op(opcode).ins == Mnemonic::SAX,
    ensures
        ({
            let mode = spec_op(opcode).mode;
            spec_dispatch(m, opcode) == spec_sax(m, mode)
        }),
{
    reveal(spec_dispatch);
}

pub proof fn lemma_dispatch_sbc(m: CpuView, opcode: u8)
    requires
        spec_op(opcode).ins == Mnemonic::SBC,
    ensures
        ({
            let mode = spec_op(opcode).mode;
            spec_dispatch(m, opcode) == spec_sbc_op(m, mode)
        }),
{
    reveal(spec_dispatch);
}

proof fn lemma_dispatch_sec(m: CpuView, opcode: u8)
    requires
        spec_op(opcode).ins == Mnemonic::SEC,
    ensures
        ({
            let mode = spec_op(opcode).mode;
            spec_dispatch(m, opcode) == (CpuView { p: m.p | F_CARRY, ..m })
        }),
{
    reveal(spec_dispatch);
}

proof fn lemma_dispatch_sed(m: CpuView, opcode: u8)
    requires
        spec_op(opcode).ins == Mnemonic::SED,
    ensures
        ({
            let mode = spec_op(opcode).mode;
            spec_dispatch(m, opcode) == (CpuView { p: m.p | F_DEC, ..m })
        }),
{
    reveal(spec_dispatch);
}

proof fn lemma_dispatch_sei(m: CpuView, opcode: u8)
    requires
        spec_op(opcode).ins == Mnemonic::SEI,
    ensures
        ({
            let mode = spec_op(opcode).mode;
            spec_dispatch(m, opcode) == (CpuView { p: m.p | F_INT, ..m })
        }),
{
    reveal(spec_dispatch);
}

proof fn lemma_dispatch_slo(m: CpuView, opcode: u8)
    requires
        spec_op(opcode).ins == Mnemonic::SLO,
    ensures
        ({
            let mode = spec_op(opcode).mode;
            spec_dispatch(m, opcode) == spec_slo(m, mode)
        }),
{
    reveal(spec_dispatch);
}

proof fn lemma_dispatch_sre(m: CpuView, opcode: u8)
    requires
        spec_op(opcode).ins == Mnemonic::SRE,
    ensures
        ({
            let mode = spec_op(opcode).mode;
            spec_dispatch(m, opcode) == spec_sre(m, mode)
        }),
{
    reveal(spec_dispatch);
}

proof fn lemma_dispatch_sta(m: CpuView, opcode: u8)
    requires
        spec_op(opcode).ins == Mnemonic::STA,
    ensures
        ({
            let mode = spec_op(opcode).mode;
            spec_dispatch(m, opcode) == spec_sta(m, mode)
        }),
{
    reveal(spec_dispatch);
}

proof fn lemma_dispatch_stx(m: CpuView, opcode: u8)
    requires
        spec_op(opcode).ins == Mnemonic::STX,
    ensures
        ({
            let mode = spec_op(opcode).mode;
            spec_dispatch(m, opcode) == spec_stx(m, mode)
        }),
{
    reveal(spec_dispatch);
}

proof fn lemma_dispatch_sty(m: CpuView, opcode: u8)
    requires
        spec_op(opcode).ins == Mnemonic::STY,
    ensures
        ({
            let mode = spec_op(opcode).mode;
            spec_dispatch(m, opcode) == spec_sty(m, mode)
        }),
{
    reveal(spec_dispatch);
}

proof fn lemma_dispatch_tax(m: CpuView, opcode: u8)
    requires
        spec_op(opcode).ins == Mnemonic::TAX,
    ensures
        ({
            let mode = spec_op(opcode).mode;
            spec_dispatch(m, opcode) == spec_tax(m)
        }),
{
    reveal(spec_dispatch);
}

proof fn lemma_dispatch_tay(m: CpuView, opcode: u8)
    requires
        spec_op(opcode).ins == Mnemonic::TAY,
    ensures
        ({
            let mode = spec_op(opcode).mode;
            spec_dispatch(m, opcode) == spec_tay(m)
        }),
{
    reveal(spec_dispatch);
}

proof fn lemma_dispatch_tsx(m: CpuView, opcode: u8)
    requires
        spec_op(opcode).ins == Mnemonic::TSX,
    ensures
        ({
            let mode = spec_op(opcode).mode;
            spec_dispatch(m, opcode) == spec_tsx(m)
        }),
{
    reveal(spec_dispatch);
}

proof fn lemma_dispatch_txa(m: CpuView, opcode: u8)
    requires
        spec_op(opcode).ins == Mnemonic::TXA,
    ensures
        ({
            let mode = spec_op(opcode).mode;
            spec_dispatch(m, opcode) == spec_txa(m)
        }),
{
    reveal(spec_dispatch);
}

proof fn lemma_dispatch_txs(m: CpuView, opcode: u8)
    requires
        spec_op(opcode).ins == Mnemonic::TXS,
    ensures
        ({
            let mode = spec_op(opcode).mode;
            spec_dispatch(m, opcode) == spec_txs(m)
        }),
{
    reveal(spec_dispatch);
}

proof fn lemma_dispatch_tya(m: CpuView, opcode: u8)
    requires
        spec_op(opcode).ins == Mnemonic::TYA,
    ensures
        ({
            let mode = spec_op(opcode).mode;
            spec_dispatch(m, opcode) == spec_tya(m)
        }),
{
    reveal(spec_dispatch);
}


impl CPU {
    fn clc(&mut self)
        ensures
            final(self)@ == (CpuView { p: old(self)@.p & !F_CARRY, ..old(self)@ }),
            old(self).wf() ==> final(self).wf(),
    {
        self.status = self.status & !F_CARRY;
    }

    fn cld(&mut self)
        ensures
            final(self)@ == (CpuView { p: old(self)@.p & !F_DEC, ..old(self)@ }),
            old(self).wf() ==> final(self).wf(),
    {
        self.status = self.status & !F_DEC;
    }

    fn cli(&mut self)
        ensures
            final(self)@ == (CpuView { p: old(self)@.p & !F_INT, ..old(self)@ }),
            old(self).wf() ==> final(self).wf(),
    {
        self.status = self.status & !F_INT;
    }

    fn clv(&mut self)
        ensures
            final(self)@ == (CpuView { p: old(self)@.p & !F_OVRFLW, ..old(self)@ }),
            old(self).wf() ==> final(self).wf(),
    {
        self.status = self.status & !F_OVRFLW;
    }

    fn sec(&mut self)
        ensures
            final(self)@ == (CpuView { p: old(self)@.p | F_CARRY, ..old(self)@ }),
            old(self).wf() ==> final(self).wf(),
    {
        self.status = self.status | F_CARRY;
    }

    fn sed(&mut self)
        ensures
            final(self)@ == (CpuView { p: old(self)@.p | F_DEC, ..old(self)@ }),
            old(self).wf() ==> final(self).wf(),
    {
        self.status = self.status | F_DEC;
    }

    fn sei(&mut self)
        ensures
            final(self)@ == (CpuView { p: old(self)@.p | F_INT, ..old(self)@ }),
            old(self).wf() ==> final(self).wf(),
    {
        self.status = self.status | F_INT;
    }

    fn tay(&mut self)
        ensures
            final(self)@ == spec_tay(old(self)@),
            old(self).wf() ==> final(self).wf(),
    {
        proof {
            reveal(spec_tay);
        }
        self.register_y = self.register_a;
        self.update_zero_and_negative_flags(self.register_y);
    }

    fn tsx(&mut self)
        ensures
            final(self)@ == spec_tsx(old(self)@),
            old(self).wf() ==> final(self).wf(),
    {
        proof {
            reveal(spec_tsx);
        }
        self.register_x = self.stack_pointer;
        self.update_zero_and_negative_flags(self.register_x);
    }

    fn txa(&mut self)
        ensures
            final(self)@ == spec_txa(old(self)@),
            old(self).wf() ==> final(self).wf(),
    {
        proof {
            reveal(spec_txa);
        }
        let value = self.register_x;
        self.set_register_a(value);
    }

    fn txs(&mut self)
        ensures
            final(self)@ == spec_txs(old(self)@),
            old(self).wf() ==> final(self).wf(),
    {
        proof {
            reveal(spec_txs);
        }
        self.stack_pointer = self.register_x;
    }

    fn tya(&mut self)
        ensures
            final(self)@ == spec_tya(old(self)@),
            old(self).wf() ==> final(self).wf(),
    {
        proof {
            reveal(spec_tya);
        }
        let value = self.register_y;
        self.set_register_a(value);
    }

    fn inx(&mut self)
        ensures
            final(self)@ == spec_inx(old(self)@),
            old(self).wf() ==> final(self).wf(),
    {
        proof {
            reveal(spec_inx);
        }
        self.register_x = self.register_x.wrapping_add(1);
        self.update_zero_and_negative_flags(self.register_x);
    }

    fn iny(&mut self)
        ensures
            final(self)@ == spec_iny(old(self)@),
            old(self).wf() ==> final(self).wf(),
    {
        proof {
            reveal(spec_iny);
        }
        self.register_y = self.register_y.wrapping_add(1);
        self.update_zero_and_negative_flags(self.register_y);
    }

    fn dex(&mut self)
        ensures
            final(self)@ == spec_dex(old(self)@),
            old(self).wf() ==> final(self).wf(),
    {
        proof {
            reveal(spec_dex);
        }
        self.register_x = self.register_x.wrapping_sub(1);
        self.update_zero_and_negative_flags(self.register_x);
    }

    fn dey(&mut self)
        ensures
            final(self)@ == spec_dey(old(self)@),
            old(self).wf() ==> final(self).wf(),
    {
        proof {
            reveal(spec_dey);
        }
        self.register_y = self.register_y.wrapping_sub(1);
        self.update_zero_and_negative_flags(self.register_y);
    }

    fn jmp_absolute(&mut self)
        requires
            old(self).wf(),
        ensures
            final(self).wf(),
            final(self)@ == spec_jmp_absolute(old(self)@),
    {
        proof {
            reveal(spec_jmp_absolute);
        }
        self.program_counter = self.mem_read_u16(self.program_counter);
    }

    fn jmp_indirect(&mut self)
        requires
            old(self).wf(),
        ensures
            final(self).wf(),
            final(self)@ == spec_jmp_indirect(old(self)@),
    {
        proof {
            reveal(spec_jmp_indirect);
        }
        let addr = self.mem_read_u16(self.program_counter);
        let indirect_addr = if addr & 0x00FF == 0x00FF {
            let lo = self.mem_read(addr);
            let hi = self.mem_read(addr & 0xFF00);
            (hi as u16) << 8 | lo as u16
        } else {
            self.mem_read_u16(addr)
        };
        self.program_counter = indirect_addr;
    }

    /// Run the body of one decoded (non-break) instruction.
    fn run_instruction(&mut self, opcode: u8, op: Op)
        requires
            old(self).wf(),
            op == spec_op(opcode),
            op.ins != Mnemonic::BRK,
        ensures
            final(self).wf(),
            final(self)@ == spec_dispatch(old(self)@, opcode),
    {
        if op.ins == Mnemonic::ADC || op.ins == Mnemonic::AND || op.ins == Mnemonic::ASL || op.ins == Mnemonic::BCC || op.ins == Mnemonic::BCS || op.ins == Mnemonic::BEQ || op.ins == Mnemonic::BIT || op.ins == Mnemonic::BMI || op.ins == Mnemonic::BNE || op.ins == Mnemonic::BPL || op.ins == Mnemonic::BVC || op.ins == Mnemonic::BVS || op.ins == Mnemonic::CLC || op.ins == Mnemonic::CLD || op.ins == Mnemonic::CLI || op.ins == Mnemonic::CLV {
            self.run_instruction_0(opcode, op);
        } else if op.ins == Mnemonic::CMP || op.ins == Mnemonic::CPX || op.ins == Mnemonic::CPY || op.ins == Mnemonic::DCP || op.ins == Mnemonic::DEC || op.ins == Mnemonic::DEX || op.ins == Mnemonic::DEY || op.ins == Mnemonic::EOR || op.ins == Mnemonic::INC || op.ins == Mnemonic::INX || op.ins == Mnemonic::INY || op.ins == Mnemonic::ISB || op.ins == Mnemonic::JMP || op.ins == Mnemonic::JSR || op.ins == Mnemonic::LAX || op.ins == Mnemonic::LDA {
            self.run_instruction_1(opcode, op);
        } else if op.ins == Mnemonic::LDX || op.ins == Mnemonic::LDY || op.ins == Mnemonic::LSR || op.ins == Mnemonic::NOP || op.ins == Mnemonic::ORA || op.ins == Mnemonic::PHA || op.ins == Mnemonic::PHP || op.ins == Mnemonic::PLA || op.ins == Mnemonic::PLP || op.ins == Mnemonic::RLA || op.ins == Mnemonic::ROL || op.ins == Mnemonic::ROR || op.ins == Mnemonic::RRA || op.ins == Mnemonic::RTI || op.ins == Mnemonic::RTS || op.ins == Mnemonic::SAX {
            self.run_instruction_2(opcode, op);
        } else if op.ins == Mnemonic::SBC || op.ins == Mnemonic::SEC || op.ins == Mnemonic::SED || op.ins == Mnemonic::SEI || op.ins == Mnemonic::SLO || op.ins == Mnemonic::SRE || op.ins == Mnemonic::STA || op.ins == Mnemonic::STX || op.ins == Mnemonic::STY || op.ins == Mnemonic::TAX || op.ins == Mnemonic::TAY || op.ins == Mnemonic::TSX || op.ins == Mnemonic::TXA || op.ins == Mnemonic::TXS || op.ins == Mnemonic::TYA {
            self.run_instruction_3(opcode, op);
        } else {
            proof {
                assert(false);
            }
        }
    }

    /// One quarter of the instruction dispatcher.
    #[verifier::spinoff_prover]
    #[verifier::rlimit(100)]
    fn run_instruction_0(&mut self, opcode: u8, op: Op)
        requires
            old(self).wf(),
            op == spec_op(opcode),
            op.ins == Mnemonic::ADC
            || op.ins == Mnemonic::AND
            || op.ins == Mnemonic::ASL
            || op.ins == Mnemonic::BCC
            || op.ins == Mnemonic::BCS
            || op.ins == Mnemonic::BEQ
            || op.ins == Mnemonic::BIT
            || op.ins == Mnemonic::BMI
            || op.ins == Mnemonic::BNE
            || op.ins == Mnemonic::BPL
            || op.ins == Mnemonic::BVC
            || op.ins == Mnemonic::BVS
            || op.ins == Mnemonic::CLC
            || op.ins == Mnemonic::CLD
            || op.ins == Mnemonic::CLI
            || op.ins == Mnemonic::CLV,
        ensures
            final(self).wf(),
            final(self)@ == spec_dispatch(old(self)@, opcode),
    {
        proof {
            lemma_op_operand_mode(opcode);
        }
        match op.ins {
            Mnemonic::ADC => {
                proof {
                    lemma_dispatch_adc(old(self)@, opcode);
                }
                self.adc(op.mode);
            },
            Mnemonic::AND => {
                proof {
                    lemma_dispatch_and(old(self)@, opcode);
                }
                self.and(op.mode);
            },
            Mnemonic::ASL => {
                proof {
                    lemma_dispatch_asl(old(self)@, opcode);
                }
                self.asl(op.mode);
            },
            Mnemonic::BCC => {
                proof {
                    lemma_dispatch_bcc(old(self)@, opcode);
                }
                self.branch(F_CARRY, false);
            },
            Mnemonic::BCS => {
                proof {
                    lemma_dispatch_bcs(old(self)@, opcode);
                }
                self.branch(F_CARRY, true);
            },
            Mnemonic::BEQ => {
                proof {
                    lemma_dispatch_beq(old(self)@, opcode);
                }
                self.branch(F_ZERO, true);
            },
            Mnemonic::BIT => {
                proof {
                    lemma_dispatch_bit(old(self)@, opcode);
                }
                self.bit(op.mode);
            },
            Mnemonic::BMI => {
                proof {
                    lemma_dispatch_bmi(old(self)@, opcode);
                }
                self.branch(F_NEG, true);
            },
            Mnemonic::BNE => {
                proof {
                    lemma_dispatch_bne(old(self)@, opcode);
                }
                self.branch(F_ZERO, false);
            },
            Mnemonic::BPL => {
                proof {
                    lemma_dispatch_bpl(old(self)@, opcode);
                }
                self.branch(F_NEG, false);
            },
            Mnemonic::BVC => {
                proof {
                    lemma_dispatch_bvc(old(self)@, opcode);
                }
                self.branch(F_OVRFLW, false);
            },
            Mnemonic::BVS => {
                proof {
                    lemma_dispatch_bvs(old(self)@, opcode);
                }
                self.branch(F_OVRFLW, true);
            },
            Mnemonic::CLC => {
                proof {
                    lemma_dispatch_clc(old(self)@, opcode);
                }
                self.clc();
            },
            Mnemonic::CLD => {
                proof {
                    lemma_dispatch_cld(old(self)@, opcode);
                }
                self.cld();
            },
            Mnemonic::CLI => {
                proof {
                    lemma_dispatch_cli(old(self)@, opcode);
                }
                self.cli();
            },
            Mnemonic::CLV => {
                proof {
                    lemma_dispatch_clv(old(self)@, opcode);
                }
                self.clv();
            },
            _ => {
            },
        }
    }

    /// One quarter of the instruction dispatcher.
    #[verifier::spinoff_prover]
    #[verifier::rlimit(100)]
    fn run_instruction_1(&mut self, opcode: u8, op: Op)
        requires
            old(self).wf(),
            op == spec_op(opcode),
            op.ins == Mnemonic::CMP
            || op.ins == Mnemonic::CPX
            || op.ins == Mnemonic::CPY
            || op.ins == Mnemonic::DCP
            || op.ins == Mnemonic::DEC
            || op.ins == Mnemonic::DEX
            || op.ins == Mnemonic::DEY
            || op.ins == Mnemonic::EOR
            || op.ins == Mnemonic::INC
            || op.ins == Mnemonic::INX
            || op.ins == Mnemonic::INY
            || op.ins == Mnemonic::ISB
            || op.ins == Mnemonic::JMP
            || op.ins == Mnemonic::JSR
            || op.ins == Mnemonic::LAX
            || op.ins == Mnemonic::LDA,
        ensures
            final(self).wf(),
            final(self)@ == spec_dispatch(old(self)@, opcode),
    {
        proof {
            lemma_op_operand_mode(opcode);
        }
        match op.ins {
            Mnemonic::CMP => {
                proof {
                    lemma_dispatch_cmp(old(self)@, opcode);
                }
 let reg = self.register_a; self.compare(op.mode, reg) 
            },
            Mnemonic::CPX => {
                proof {
                    lemma_dispatch_cpx(old(self)@, opcode);
                }
 let reg = self.register_x; self.compare(op.mode, reg) 
            },
            Mnemonic::CPY => {
                proof {
                    lemma_dispatch_cpy(old(self)@, opcode);
                }
 let reg = self.register_y; self.compare(op.mode, reg) 
            },
            Mnemonic::DCP => {
                proof {
                    lemma_dispatch_dcp(old(self)@, opcode);
                }
                self.dcp(op.mode);
            },
            Mnemonic::DEC => {
                proof {
                    lemma_dispatch_dec(old(self)@, opcode);
                }
                self.dec(op.mode);
            },
            Mnemonic::DEX => {
                proof {
                    lemma_dispatch_dex(old(self)@, opcode);
                }
                self.dex();
            },
            Mnemonic::DEY => {
                proof {
                    lemma_dispatch_dey(old(self)@, opcode);
                }
                self.dey();
            },
            Mnemonic::EOR => {
                proof {
                    lemma_dispatch_eor(old(self)@, opcode);
                }
                self.eor(op.mode);
            },
            Mnemonic::INC => {
                proof {
                    lemma_dispatch_inc(old(self)@, opcode);
                }
                self.inc(op.mode);
            },
            Mnemonic::INX => {
                proof {
                    lemma_dispatch_inx(old(self)@, opcode);
                }
                self.inx();
            },
            Mnemonic::INY => {
                proof {
                    lemma_dispatch_iny(old(self)@, opcode);
                }
                self.iny();
            },
            Mnemonic::ISB => {
                proof {
                    lemma_dispatch_isb(old(self)@, opcode);
                }
                self.isb(op.mode);
            },
            Mnemonic::JMP => {
                proof {
                    lemma_dispatch_jmp(old(self)@, opcode);
                }

                if opcode == 0x4C {
                    self.jmp_absolute();
                } else if opcode == 0x6C {
                    self.jmp_indirect();
                } else {
                }
            
            },
            Mnemonic::JSR => {
                proof {
                    lemma_dispatch_jsr(old(self)@, opcode);
                }
                self.jsr();
            },
            Mnemonic::LAX => {
                proof {
                    lemma_dispatch_lax(old(self)@, opcode);
                }
                self.lax(op.mode);
            },
            Mnemonic::LDA => {
                proof {
                    lemma_dispatch_lda(old(self)@, opcode);
                }
                self.lda(op.mode);
            },
            _ => {
            },
        }
    }

    /// One quarter of the instruction dispatcher.
    #[verifier::spinoff_prover]
    #[verifier::rlimit(100)]
    fn run_instruction_2(&mut self, opcode: u8, op: Op)
        requires
            old(self).wf(),
            op == spec_op(opcode),
            op.ins == Mnemonic::LDX
            || op.ins == Mnemonic::LDY
            || op.ins == Mnemonic::LSR
            || op.ins == Mnemonic::NOP
            || op.ins == Mnemonic::ORA
            || op.ins == Mnemonic::PHA
            || op.ins == Mnemonic::PHP
            || op.ins == Mnemonic::PLA
            || op.ins == Mnemonic::PLP
            || op.ins == Mnemonic::RLA
            || op.ins == Mnemonic::ROL
            || op.ins == Mnemonic::ROR
            || op.ins == Mnemonic::RRA
            || op.ins == Mnemonic::RTI
            || op.ins == Mnemonic::RTS
            || op.ins == Mnemonic::SAX,
        ensures
            final(self).wf(),
            final(self)@ == spec_dispatch(old(self)@, opcode),
    {
        proof {
            lemma_op_operand_mode(opcode);
        }
        match op.ins {
            Mnemonic::LDX => {
                proof {
                    lemma_dispatch_ldx(old(self)@, opcode);
                }
                self.ldx(op.mode);
            },
            Mnemonic::LDY => {
                proof {
                    lemma_dispatch_ldy(old(self)@, opcode);
                }
                self.ldy(op.mode);
            },
            Mnemonic::LSR => {
                proof {
                    lemma_dispatch_lsr(old(self)@, opcode);
                }
                self.lsr(op.mode);
            },
            Mnemonic::NOP => {
                proof {
                    lemma_dispatch_nop(old(self)@, opcode);
                }

                if op.undoc {
                    self.nop(op.mode);
                } else {
                }
            
            },
            Mnemonic::ORA => {
                proof {
                    lemma_dispatch_ora(old(self)@, opcode);
                }
                self.or(op.mode);
            },
            Mnemonic::PHA => {
                proof {
                    lemma_dispatch_pha(old(self)@, opcode);
                }
                self.pha();
            },
            Mnemonic::PHP => {
                proof {
                    lemma_dispatch_php(old(self)@, opcode);
                }
                self.php();
            },
            Mnemonic::PLA => {
                proof {
                    lemma_dispatch_pla(old(self)@, opcode);
                }
                self.pla();
            },
            Mnemonic::PLP => {
                proof {
                    lemma_dispatch_plp(old(self)@, opcode);
                }
                self.plp();
            },
            Mnemonic::RLA => {
                proof {
                    lemma_dispatch_rla(old(self)@, opcode);
                }
                self.rla(op.mode);
            },
            Mnemonic::ROL => {
                proof {
                    lemma_dispatch_rol(old(self)@, opcode);
                }
                self.rol(op.mode);
            },
            Mnemonic::ROR => {
                proof {
                    lemma_dispatch_ror(old(self)@, opcode);
                }
                self.ror(op.mode);
            },
            Mnemonic::RRA => {
                proof {
                    lemma_dispatch_rra(old(self)@, opcode);
                }
                self.rra(op.mode);
            },
            Mnemonic::RTI => {
                proof {
                    lemma_dispatch_rti(old(self)@, opcode);
                }
                self.rti();
            },
            Mnemonic::RTS => {
                proof {
                    lemma_dispatch_rts(old(self)@, opcode);
                }
                self.rts();
            },
            Mnemonic::SAX => {
                proof {
                    lemma_dispatch_sax(old(self)@, opcode);
                }
                self.sax(op.mode);
            },
            _ => {
            },
        }
    }

    /// One quarter of the instruction dispatcher.
    #[verifier::spinoff_prover]
    #[verifier::rlimit(100)]
    fn run_instruction_3(&mut self, opcode: u8, op: Op)
        requires
            old(self).wf(),
            op == spec_op(opcode),
            op.ins == Mnemonic::SBC
            || op.ins == Mnemonic::SEC
            || op.ins == Mnemonic::SED
            || op.ins == Mnemonic::SEI
            || op.ins == Mnemonic::SLO
            || op.ins == Mnemonic::SRE
            || op.ins == Mnemonic::STA
            || op.ins == Mnemonic::STX
            || op.ins == Mnemonic::STY
            || op.ins == Mnemonic::TAX
            || op.ins == Mnemonic::TAY
            || op.ins == Mnemonic::TSX
            || op.ins == Mnemonic::TXA
            || op.ins == Mnemonic::TXS
            || op.ins == Mnemonic::TYA,
        ensures
            final(self).wf(),
            final(self)@ == spec_dispatch(old(self)@, opcode),
    {
        proof {
            lemma_op_operand_mode(opcode);
        }
        match op.ins {
            Mnemonic::SBC => {
                proof {
                    lemma_dispatch_sbc(old(self)@, opcode);
                }
                self.sbc(op.mode);
            },
            Mnemonic::SEC => {
                proof {
                    lemma_dispatch_sec(old(self)@, opcode);
                }
                self.sec();
            },
            Mnemonic::SED => {
                proof {
                    lemma_dispatch_sed(old(self)@, opcode);
                }
                self.sed();
            },
            Mnemonic::SEI => {
                proof {
                    lemma_dispatch_sei(old(self)@, opcode);
                }
                self.sei();
            },
            Mnemonic::SLO => {
                proof {
                    lemma_dispatch_slo(old(self)@, opcode);
                }
                self.slo(op.mode);
            },
            Mnemonic::SRE => {
                proof {
                    lemma_dispatch_sre(old(self)@, opcode);
                }
                self.sre(op.mode);
            },
            Mnemonic::STA => {
                proof {
                    lemma_dispatch_sta(old(self)@, opcode);
                }
                self.sta(op.mode);
            },
            Mnemonic::STX => {
                proof {
                    lemma_dispatch_stx(old(self)@, opcode);
                }
                self.stx(op.mode);
            },
            Mnemonic::STY => {
                proof {
                    lemma_dispatch_sty(old(self)@, opcode);
                }
                self.sty(op.mode);
            },
            Mnemonic::TAX => {
                proof {
                    lemma_dispatch_tax(old(self)@, opcode);
                }
                self.tax();
            },
            Mnemonic::TAY => {
                proof {
                    lemma_dispatch_tay(old(self)@, opcode);
                }
                self.tay();
            },
            Mnemonic::TSX => {
                proof {
                    lemma_dispatch_tsx(old(self)@, opcode);
                }
                self.tsx();
            },
            Mnemonic::TXA => {
                proof {
                    lemma_dispatch_txa(old(self)@, opcode);
                }
                self.txa();
            },
            Mnemonic::TXS => {
                proof {
                    lemma_dispatch_txs(old(self)@, opcode);
                }
                self.txs();
            },
            Mnemonic::TYA => {
                proof {
                    lemma_dispatch_tya(old(self)@, opcode);
                }
                self.tya();
            },
            _ => {
            },
        }
    }

    /// Run one instruction (servicing a pending interrupt first) and say
    /// whether execution continues: false once a break instruction is
    /// fetched.
    #[verifier::spinoff_prover]
    pub fn step(&mut self) -> (cont: bool)
        requires
            old(self).wf(),
        ensures
            final(self).wf(),
            final(self)@ == spec_step(old(self)@),
            cont == spec_step_cont(old(self)@),
    {
        proof {
            reveal(spec_step);
            reveal(spec_step_cont);
            reveal(spec_after_nmi);
        }
        if let Some(_) = self.bus.poll_nmi_interrupt() {
            self.interrupt_nmi();
        }

        let opcode = self.mem_read(self.program_counter);
        self.program_counter = self.program_counter.wrapping_add(1);
        let program_counter_state = self.program_counter;

        let op = opcode_entry(opcode);
        proof {
            lemma_op_table_shape(opcode);
        }

        if op.ins == Mnemonic::BRK {
            return false;
        }
        self.run_instruction(opcode, op);

        self.bus.tick(op.cycles);

        if program_counter_state == self.program_counter {
            self.program_counter = program_counter_state.wrapping_add((op.len - 1) as u16);
        }
        true
    }

    /// Run instructions until a break instruction is fetched.  The program
    /// must reach one: the interpreter's loop is bounded by that promise.
    pub fn run(&mut self)
        requires
            old(self).wf(),
            exists|k: nat| !spec_step_cont(spec_run_n(old(self)@, k)),
        ensures
            final(self).wf(),
            exists|n: nat|
                {
                    &&& n > 0
                    &&& final(self)@ == #[trigger] spec_run_n(old(self)@, n)
                    &&& !spec_step_cont(spec_run_n(old(self)@, (n - 1) as nat))
                },
    {
        let ghost m0 = self@;
        let ghost h: nat = choose|k: nat| !spec_step_cont(spec_run_n(m0, k));
        let ghost mut n: nat = 0nat;
        proof {
            lemma_run_n_zero(m0);
        }
        let mut cont = true;
        while cont
            invariant
                self.wf(),
                self@ == spec_run_n(m0, n),
                !spec_step_cont(spec_run_n(m0, h)),
                cont ==> n <= h,
                cont ==> forall|k: nat| k < n ==> spec_step_cont(#[trigger] spec_run_n(m0, k)),
                !cont ==> n > 0 && !spec_step_cont(spec_run_n(m0, (n - 1) as nat)),
            decreases h + 1 - n,
        {
            cont = self.step();
            proof {
                lemma_run_n_unfold(m0, n);
                n = n + 1nat;
            }
        }
    }

    /// Bring the machine to its post-reset state: cleared registers, the
    /// power-on stack pointer, status 0x24, and control at the reset vector.
    pub fn reset(&mut self)
        requires
            old(self).wf(),
        ensures
            final(self).wf(),
            final(self)@ == spec_reset(old(self)@),
    {
        self.register_a = 0;
        self.register_x = 0;
        self.register_y = 0;
        self.stack_pointer = STACK_RESET;
        self.status = 0x24;
        self.program_counter = self.mem_read_u16(0xFFFC);
    }

    /// Write a program image to 0x0600 onward.
    pub fn load(&mut self, program: Vec<u8>)
        requires
            old(self).wf(),
            program@.len() <= 0x200,
        ensures
            final(self).wf(),
            final(self)@ == spec_load(old(self)@, program@, program@.len()),
    {
        let ghost m0 = self@;
        let mut i: usize = 0;
        while i < program.len()
            invariant
                i <= program@.len(),
                program@.len() <= 0x200,
                self.wf(),
                self@ == spec_load(m0, program@, i as nat),
            decreases program@.len() - i,
        {
            self.mem_write(0x600 + i as u16, program[i]);
            i = i + 1;
        }
    }

}

/// Whether two addresses sit on different 256-byte pages.
pub fn page_crossed(addr1: u16, addr2: u16) -> (b: bool)
    ensures
        b == spec_page_crossed(addr1, addr2),
{
    addr1 & 0xFF00 != addr2 & 0xFF00
}

} // verus!
