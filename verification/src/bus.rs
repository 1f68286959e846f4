//! The memory bus: address-range dispatch between internal RAM, the picture
//! unit's registers, the audio unit, the controller latch and cartridge ROM,
//! plus the clock fan-out that ties the picture and audio units to the CPU
//! cycle counter.

use vstd::prelude::*;
use crate::apu::APU;
use crate::apu::FrameCounterByte;
use crate::apu::FrameCounter;
use crate::apu::spec_apu_read_status;
use crate::apu::spec_apu_tick;
use crate::apu::spec_apu_write_status;
use crate::joypad::Joypad;
use crate::joypad::spec_joypad_read;
use crate::joypad::spec_joypad_read_val;
use crate::joypad::spec_joypad_write;
use crate::ppu::PPU;
use crate::ppu::PpuView;
use crate::ppu::spec_oam_dma;
use crate::ppu::spec_ppu_tick;
use crate::ppu::spec_read_data;
use crate::ppu::spec_read_data_val;
use crate::ppu::spec_read_status;
use crate::ppu::spec_write_control;
use crate::ppu::spec_write_data;
use crate::ppu_regs::MaskRegister;
use crate::ppu_regs::spec_addr_update;
use crate::ppu_regs::spec_scroll_update;
use crate::ppu::spec_write_oam_data;
use crate::rom::Mirroring;
use crate::rom::Rom;
use crate::bitops::lemma_u16_and_le;

verus! {

/// A write the memory map calls fatal.  The bus cannot panic, so the first
/// such write is latched here for the host to surface; the write itself has
/// no other effect.
#[derive(Clone, Copy, Debug, PartialEq, Eq, Structural)]
pub enum BusFault {
    /// A store aimed at the read-only cartridge window 0x8000..=0xFFFF.
    PrgRomWrite,
    /// A store aimed at the read-only picture status register (0x2002).
    PpuStatusWrite,
}

/// The first fault wins: a latched fault is never overwritten.
pub open spec fn spec_latch_fault(cur: Option<BusFault>, f: BusFault) -> Option<BusFault> {
    if cur is Some {
        cur
    } else {
        Some(f)
    }
}

/// Mathematical image of the bus and everything it owns.
#[verifier::ext_equal]
pub ghost struct BusView {
    pub ram: Seq<u8>,
    pub prg: Seq<u8>,
    pub ppu: PpuView,
    pub apu: APU,
    pub joypad: Joypad,
    pub joypad2: Joypad,
    pub cycles: u64,
    pub frame_pending: bool,
    pub fault: Option<BusFault>,
}

impl BusView {
    /// Structural invariant: 2 KiB of RAM, a well-formed picture and audio
    /// unit, and a PRG bank that is either one mirrored 16 KiB bank or at
    /// least the full 32 KiB window.
    pub open spec fn wf(self) -> bool {
        &&& self.ram.len() == 0x800
        &&& self.ppu.wf()
        &&& self.apu.wf()
        &&& (self.prg.len() == 0x4000 || self.prg.len() >= 0x8000)
    }
}

/// The PRG ROM byte visible at a cartridge-window address: a single 16 KiB
/// bank is mirrored across the 32 KiB window.
pub open spec fn spec_prg_read(b: BusView, addr: u16) -> u8 {
    let offset = (addr - 0x8000) as u16;
    if b.prg.len() == 0x4000 && offset >= 0x4000 {
        b.prg[(offset % 0x4000) as int]
    } else {
        b.prg[offset as int]
    }
}

/// The byte a read of `addr` hands out.  RAM is mirrored every 0x800 bytes,
/// the picture registers every 8; write-only registers and unmapped space
/// read as open bus (0).
#[verifier::opaque]
pub open spec fn spec_mem_read_val(b: BusView, addr: u16) -> u8 {
    if addr <= 0x1FFF {
        b.ram[(addr & 0x7FF) as int]
    } else if addr <= 0x3FFF {
        let reg = addr & 0x2007;
        if reg == 0x2002 {
            b.ppu.status.bits
        } else if reg == 0x2004 {
            b.ppu.oam[b.ppu.oam_addr as int]
        } else if reg == 0x2007 {
            spec_read_data_val(b.ppu)
        } else {
            0
        }
    } else if addr == 0x4015 {
        spec_apu_read_status(b.apu)
    } else if addr == 0x4016 {
        spec_joypad_read_val(b.joypad)
    } else if addr == 0x4017 {
        spec_joypad_read_val(b.joypad2)
    } else if addr >= 0x8000 {
        spec_prg_read(b, addr)
    } else {
        0
    }
}

/// Bus state after a read of `addr`: reads of the picture status, picture
/// data and controller ports have side effects; everything else is
/// unchanged.
#[verifier::opaque]
pub open spec fn spec_mem_read(b: BusView, addr: u16) -> BusView {
    if addr <= 0x1FFF {
        b
    } else if addr <= 0x3FFF {
        let reg = addr & 0x2007;
        if reg == 0x2002 {
            BusView { ppu: spec_read_status(b.ppu), ..b }
        } else if reg == 0x2007 {
            BusView { ppu: spec_read_data(b.ppu), ..b }
        } else {
            b
        }
    } else if addr == 0x4016 {
        BusView { joypad: spec_joypad_read(b.joypad), ..b }
    } else if addr == 0x4017 {
        BusView { joypad2: spec_joypad_read(b.joypad2), ..b }
    } else {
        b
    }
}

/// Bus state after the first `n` reads of the 256-byte direct-memory page
/// starting at `hi`.
pub open spec fn spec_dma_bus(b: BusView, hi: u16, n: nat) -> BusView
    decreases n,
{
    if n == 0 {
        b
    } else {
        spec_mem_read(spec_dma_bus(b, hi, (n - 1) as nat), (hi + n - 1) as u16)
    }
}

/// The first `n` bytes a direct-memory transfer reads from the page at `hi`.
pub open spec fn spec_dma_bytes(b: BusView, hi: u16, n: nat) -> Seq<u8>
    decreases n,
{
    if n == 0 {
        Seq::empty()
    } else {
        spec_dma_bytes(b, hi, (n - 1) as nat).push(
            spec_mem_read_val(spec_dma_bus(b, hi, (n - 1) as nat), (hi + n - 1) as u16),
        )
    }
}

/// Bus state after one clock step of `c` CPU cycles: the cycle counter
/// grows, the picture unit advances three dots per cycle, the audio unit one
/// step per cycle, and a fresh picture interrupt latches the frame flag.
#[verifier::opaque]
pub open spec fn spec_bus_tick(b: BusView, c: u8) -> BusView {
    let ppu2 = spec_ppu_tick(b.ppu, (c * 3) as u8);
    let fresh = b.ppu.nmi_interrupt is None && ppu2.nmi_interrupt is Some;
    BusView {
        cycles: b.cycles.saturating_add(c as u64),
        ppu: ppu2,
        apu: spec_apu_tick(b.apu, c as nat),
        frame_pending: b.frame_pending || fresh,
        ..b
    }
}

/// Bus state after `n` single-cycle clock steps.
pub open spec fn spec_bus_stall(b: BusView, n: nat) -> BusView
    decreases n,
{
    if n == 0 {
        b
    } else {
        spec_bus_tick(spec_bus_stall(b, (n - 1) as nat), 1)
    }
}

/// Bus state after a write of `data` to `addr`.  RAM and the picture, audio
/// and controller registers take the byte; a write to 0x4014 performs the
/// 256-byte object attribute transfer and stalls the clock 513 cycles (514
/// when the counter is odd); writes to read-only or unmapped space are
/// dropped.
#[verifier::opaque]
pub open spec fn spec_mem_write(b: BusView, addr: u16, data: u8) -> BusView {
    if addr <= 0x1FFF {
        BusView { ram: b.ram.update((addr & 0x7FF) as int, data), ..b }
    } else if addr <= 0x3FFF {
        let reg = addr & 0x2007;
        if reg == 0x2000 {
            BusView { ppu: spec_write_control(b.ppu, data), ..b }
        } else if reg == 0x2001 {
            BusView { ppu: PpuView { mask: MaskRegister { bits: data }, ..b.ppu }, ..b }
        } else if reg == 0x2003 {
            BusView { ppu: PpuView { oam_addr: data, ..b.ppu }, ..b }
        } else if reg == 0x2004 {
            BusView { ppu: spec_write_oam_data(b.ppu, data), ..b }
        } else if reg == 0x2005 {
            BusView {
                ppu: PpuView { scroll: spec_scroll_update(b.ppu.scroll, data), ..b.ppu },
                ..b
            }
        } else if reg == 0x2006 {
            BusView {
                ppu: PpuView { address: spec_addr_update(b.ppu.address, data), ..b.ppu },
                ..b
            }
        } else if reg == 0x2007 {
            BusView { ppu: spec_write_data(b.ppu, data), ..b }
        } else {
            // the remaining register, 0x2002, is read-only: a store there is
            // a programmer error, latched as a fault
            BusView { fault: spec_latch_fault(b.fault, BusFault::PpuStatusWrite), ..b }
        }
    } else if addr == 0x4000 {
        BusView { apu: crate::apu::APU {
            pulse: crate::pulse::PulseRegister {
                envelope: crate::pulse::PulseEnvelope { bits: data },
                ..b.apu.pulse
            },
            ..b.apu
        }, ..b }
    } else if addr == 0x4001 {
        BusView { apu: crate::apu::APU {
            pulse: crate::pulse::PulseRegister {
                sweep: crate::pulse::PulseSweep {
                    register: crate::pulse::PulseSweepRegister { bits: data },
                    ..b.apu.pulse.sweep
                },
                ..b.apu.pulse
            },
            ..b.apu
        }, ..b }
    } else if addr == 0x4002 {
        BusView { apu: crate::apu::APU {
            pulse: crate::pulse::PulseRegister {
                timer: crate::pulse::PulseTimer { timer_low: data },
                ..b.apu.pulse
            },
            ..b.apu
        }, ..b }
    } else if addr == 0x4003 {
        BusView { apu: crate::apu::APU {
            pulse: crate::pulse::PulseRegister {
                length: crate::pulse::PulseLength { bits: data },
                ..b.apu.pulse
            },
            ..b.apu
        }, ..b }
    } else if addr == 0x4004 {
        BusView { apu: crate::apu::APU {
            pulse_2: crate::pulse::PulseRegister {
                envelope: crate::pulse::PulseEnvelope { bits: data },
                ..b.apu.pulse_2
            },
            ..b.apu
        }, ..b }
    } else if addr == 0x4005 {
        BusView { apu: crate::apu::APU {
            pulse_2: crate::pulse::PulseRegister {
                sweep: crate::pulse::PulseSweep {
                    register: crate::pulse::PulseSweepRegister { bits: data },
                    ..b.apu.pulse_2.sweep
                },
                ..b.apu.pulse_2
            },
            ..b.apu
        }, ..b }
    } else if addr == 0x4006 {
        BusView { apu: crate::apu::APU {
            pulse_2: crate::pulse::PulseRegister {
                timer: crate::pulse::PulseTimer { timer_low: data },
                ..b.apu.pulse_2
            },
            ..b.apu
        }, ..b }
    } else if addr == 0x4007 {
        BusView { apu: crate::apu::APU {
            pulse_2: crate::pulse::PulseRegister {
                length: crate::pulse::PulseLength { bits: data },
                ..b.apu.pulse_2
            },
            ..b.apu
        }, ..b }
    } else if addr == 0x4014 {
        let hi = (data as u16) << 8;
        let after_reads = spec_dma_bus(b, hi, 256);
        let bytes = spec_dma_bytes(b, hi, 256);
        let after_oam = BusView {
            ppu: spec_oam_dma(after_reads.ppu, bytes, 256),
            ..after_reads
        };
        let stall: nat = if after_oam.cycles % 2 == 1 {
            514
        } else {
            513
        };
        spec_bus_stall(after_oam, stall)
    } else if addr == 0x4015 {
        BusView { apu: spec_apu_write_status(b.apu, data), ..b }
    } else if addr == 0x4016 {
        // the strobe line is shared: one write latches both controllers
        BusView {
            joypad: spec_joypad_write(b.joypad, data),
            joypad2: spec_joypad_write(b.joypad2, data),
            ..b
        }
    } else if addr == 0x4017 {
        BusView { apu: crate::apu::APU {
            frame_counter: FrameCounter {
                data: FrameCounterByte { bits: data },
                ..b.apu.frame_counter
            },
            ..b.apu
        }, ..b }
    } else if addr >= 0x8000 {
        // the cartridge window is read-only: a store there is a programmer
        // error, latched as a fault
        BusView { fault: spec_latch_fault(b.fault, BusFault::PrgRomWrite), ..b }
    } else {
        b
    }
}

/// The bus and everything it owns: RAM, cartridge PRG, the picture unit, the
/// audio unit and the two controller latches.
pub struct Bus {
    pub cpu_vram: Vec<u8>,
    pub prg_rom: Vec<u8>,
    pub ppu: PPU,
    pub apu: APU,
    pub joypad: Joypad,
    pub joypad2: Joypad,
    pub cycles: u64,
    pub frame_pending: bool,
    pub fault: Option<BusFault>,
}

impl View for Bus {
    type V = BusView;

    open spec fn view(&self) -> BusView {
        BusView {
            ram: self.cpu_vram@,
            prg: self.prg_rom@,
            ppu: self.ppu@,
            apu: self.apu,
            joypad: self.joypad,
            joypad2: self.joypad2,
            cycles: self.cycles,
            frame_pending: self.frame_pending,
            fault: self.fault,
        }
    }
}

impl Bus {
    pub open spec fn wf(&self) -> bool {
        self@.wf()
    }

    /// A bus over a parsed cartridge: zeroed RAM, power-on units, counter at
    /// zero.
    pub fn new(rom: Rom) -> (bus: Bus)
        requires
            rom.wf(),
            rom.screen_mirroring != Mirroring::FOUR_SCREEN,
        ensures
            bus.wf(),
            bus@ == (BusView {
                ram: Seq::new(0x800, |i: int| 0u8),
                prg: rom.prg_rom@,
                ppu: crate::ppu::spec_ppu_initial(rom.chr_rom@, rom.screen_mirroring),
                apu: crate::apu::spec_apu_initial(),
                joypad: Joypad { strobe: false, button_index: 0, button_status: 0 },
                joypad2: Joypad { strobe: false, button_index: 0, button_status: 0 },
                cycles: 0,
                frame_pending: false,
                fault: None,
            }),
    {
        let ppu = PPU::new(rom.chr_rom, rom.screen_mirroring);
        let ram = vec![0u8; 0x800];
        proof {
            assert(ram@ =~= Seq::new(0x800, |i: int| 0u8));
        }
        Bus {
            cpu_vram: ram,
            prg_rom: rom.prg_rom,
            ppu,
            apu: APU::new(),
            joypad: Joypad::new(),
            joypad2: Joypad::new(),
            cycles: 0,
            frame_pending: false,
            fault: None,
        }
    }

    fn read_prg_rom(&self, addr: u16) -> (data: u8)
        requires
            self.wf(),
            addr >= 0x8000,
        ensures
            data == spec_prg_read(self@, addr),
    {
        let mut offset = addr - 0x8000;
        if self.prg_rom.len() == 0x4000 && offset >= 0x4000 {
            offset = offset % 0x4000;
        }
        self.prg_rom[offset as usize]
    }

    /// Read one byte at `addr`, with the side effects the mapped device
    /// defines.
    pub fn mem_read(&mut self, addr: u16) -> (data: u8)
        requires
            old(self).wf(),
        ensures
            final(self).wf(),
            data == spec_mem_read_val(old(self)@, addr),
            final(self)@ == spec_mem_read(old(self)@, addr),
    {
        proof {
            reveal(spec_mem_read_val);
            reveal(spec_mem_read);
        }
        if addr <= 0x1FFF {
            proof {
                lemma_u16_and_le(addr, 0x7FF);
            }
            self.cpu_vram[(addr & 0x7FF) as usize]
        } else if addr <= 0x3FFF {
            let reg = addr & 0x2007;
            if reg == 0x2002 {
                self.ppu.read_status()
            } else if reg == 0x2004 {
                self.ppu.read_oam_data()
            } else if reg == 0x2007 {
                self.ppu.read_data()
            } else {
                0
            }
        } else if addr == 0x4015 {
            self.apu.read_status()
        } else if addr == 0x4016 {
            self.joypad.read()
        } else if addr == 0x4017 {
            self.joypad2.read()
        } else if addr >= 0x8000 {
            self.read_prg_rom(addr)
        } else {
            0
        }
    }

    /// Write one byte at `addr`, with the side effects the mapped device
    /// defines; a write to 0x4014 runs the object attribute transfer and the
    /// 513/514-cycle stall.  A store into the read-only cartridge window or
    /// the picture status register is a programmer error: it has no other
    /// effect, but the fault is latched for the host to surface.
    pub fn mem_write(&mut self, addr: u16, data: u8)
        requires
            old(self).wf(),
        ensures
            final(self).wf(),
            final(self)@ == spec_mem_write(old(self)@, addr, data),
    {
        proof {
            reveal(spec_mem_write);
        }
        if addr <= 0x1FFF {
            proof {
                lemma_u16_and_le(addr, 0x7FF);
            }
            self.cpu_vram.set((addr & 0x7FF) as usize, data);
        } else if addr <= 0x3FFF {
            let reg = addr & 0x2007;
            if reg == 0x2000 {
                self.ppu.write_to_control(data);
            } else if reg == 0x2001 {
                self.ppu.write_to_mask(data);
            } else if reg == 0x2003 {
                self.ppu.write_to_oam_addr(data);
            } else if reg == 0x2004 {
                self.ppu.write_to_oam_data(data);
            } else if reg == 0x2005 {
                self.ppu.write_to_scroll(data);
            } else if reg == 0x2006 {
                self.ppu.write_to_ppu_addr(data);
            } else if reg == 0x2007 {
                self.ppu.write_to_data(data);
            } else {
                // 0x2002 is the read-only status register: latch the fault
                if self.fault.is_none() {
                    self.fault = Some(BusFault::PpuStatusWrite);
                }
            }
        } else if addr == 0x4000 {
            self.apu.write_to_pulse_envelope(data);
        } else if addr == 0x4001 {
            self.apu.write_to_pulse_sweep(data);
        } else if addr == 0x4002 {
            self.apu.write_to_pulse_timer(data);
        } else if addr == 0x4003 {
            self.apu.write_to_pulse_length(data);
        } else if addr == 0x4004 {
            self.apu.write_to_pulse_2_envelope(data);
        } else if addr == 0x4005 {
            self.apu.write_to_pulse_2_sweep(data);
        } else if addr == 0x4006 {
            self.apu.write_to_pulse_2_timer(data);
        } else if addr == 0x4007 {
            self.apu.write_to_pulse_2_length(data);
        } else if addr == 0x4014 {
            self.oam_dma(data);
        } else if addr == 0x4015 {
            self.apu.write_to_status(data);
        } else if addr == 0x4016 {
            self.joypad.write(data);
            self.joypad2.write(data);
        } else if addr == 0x4017 {
            self.apu.frame_counter.data.update(data);
        } else if addr >= 0x8000 {
            // the cartridge window is read-only: latch the fault
            if self.fault.is_none() {
                self.fault = Some(BusFault::PrgRomWrite);
            }
        } else {
            // unmapped space takes no writes
        }
    }

    /// The object attribute transfer a write to 0x4014 triggers: 256 bus
    /// reads from the named page, handed to the picture unit, then the
    /// 513/514-cycle stall.
    fn oam_dma(&mut self, data: u8)
        requires
            old(self).wf(),
        ensures
            final(self).wf(),
            final(self)@ == ({
                let hi = (data as u16) << 8;
                let after_reads = spec_dma_bus(old(self)@, hi, 256);
                let bytes = spec_dma_bytes(old(self)@, hi, 256);
                let after_oam = BusView {
                    ppu: spec_oam_dma(after_reads.ppu, bytes, 256),
                    ..after_reads
                };
                let stall: nat = if after_oam.cycles % 2 == 1 {
                    514
                } else {
                    513
                };
                spec_bus_stall(after_oam, stall)
            }),
    {
        let hi = (data as u16) << 8;
        proof {
            assert((data as u16) << 8 <= 0xFF00) by (bit_vector);
        }
        let ghost b0 = old(self)@;
        let mut buf: Vec<u8> = Vec::new();
        let mut i: usize = 0;
        while i < 256
            invariant
                i <= 256,
                hi <= 0xFF00,
                self.wf(),
                self@ == spec_dma_bus(b0, hi, i as nat),
                buf@ == spec_dma_bytes(b0, hi, i as nat),
                buf@.len() == i,
            decreases 256 - i,
        {
            let byte = self.mem_read(hi + i as u16);
            buf.push(byte);
            i = i + 1;
        }
        self.ppu.write_oam_dma(&buf);
        let stall: u16 = if self.cycles % 2 == 1 {
            514
        } else {
            513
        };
        let ghost b1 = self@;
        let mut t: u16 = 0;
        while t < stall
            invariant
                t <= stall,
                self.wf(),
                self@ == spec_bus_stall(b1, t as nat),
            decreases stall - t,
        {
            self.tick(1);
            t = t + 1;
        }
    }

    /// Advance the whole machine by `cycles` CPU cycles: the counter grows,
    /// the picture unit gets three dots per cycle, the audio unit one step
    /// per cycle, and a fresh picture interrupt latches the frame flag for
    /// the host to collect.
    pub fn tick(&mut self, cycles: u8)
        requires
            old(self).wf(),
            cycles <= 85,
        ensures
            final(self).wf(),
            final(self)@ == spec_bus_tick(old(self)@, cycles),
    {
        proof {
            reveal(spec_bus_tick);
        }
        self.cycles = self.cycles.saturating_add(cycles as u64);
        let before = self.ppu.nmi_interrupt_ready();
        self.ppu.tick(cycles * 3);
        self.apu.tick(cycles);
        let after = self.ppu.nmi_interrupt_ready();
        if !before && after {
            self.frame_pending = true;
        }
    }

    /// Take the pending picture interrupt, clearing it.
    pub fn poll_nmi_interrupt(&mut self) -> (r: Option<bool>)
        ensures
            r == old(self)@.ppu.nmi_interrupt,
            final(self)@ == (BusView {
                ppu: PpuView { nmi_interrupt: None, ..old(self)@.ppu },
                ..old(self)@
            }),
            old(self).wf() ==> final(self).wf(),
    {
        self.ppu.poll_nmi_interrupt()
    }

    /// The first fatal write latched so far, if any.
    pub fn fault(&self) -> (f: Option<BusFault>)
        ensures
            f == self@.fault,
    {
        self.fault
    }

    /// Take the frame flag, clearing it: true once per picture interrupt
    /// edge, for the host's render/input pass.
    pub fn poll_frame_event(&mut self) -> (r: bool)
        ensures
            r == old(self)@.frame_pending,
            final(self)@ == (BusView { frame_pending: false, ..old(self)@ }),
            old(self).wf() ==> final(self).wf(),
    {
        let r = self.frame_pending;
        self.frame_pending = false;
        r
    }
}

} // verus!
