//! The picture processing unit, as seen from the CPU bus.
//!
//! Only the register file, video memory, object attribute memory and the
//! vblank/interrupt timing live here; rasterisation is a separate concern.
//! Every operation is specified as a pure transition on [`PpuView`], the
//! mathematical image of the unit's state.

use vstd::prelude::*;
use crate::rom::Mirroring;
use crate::ppu_regs::AddrRegister;
use crate::ppu_regs::ControlRegister;
use crate::ppu_regs::MaskRegister;
use crate::ppu_regs::ScrollRegister;
use crate::ppu_regs::StatusRegister;
use crate::ppu_regs::spec_addr_get;
use crate::ppu_regs::spec_addr_increment;
use crate::ppu_regs::spec_addr_update;
use crate::ppu_regs::spec_generate_nmi;
use crate::ppu_regs::spec_scroll_update;
use crate::ppu_regs::spec_set_vblank;
use crate::ppu_regs::spec_vram_increment;
use crate::ppu_regs::lemma_addr_get_range;
use crate::bitops::lemma_u16_and_le;

verus! {

/// Mathematical image of the picture unit's state.
#[verifier::ext_equal]
pub ghost struct PpuView {
    pub chr: Seq<u8>,
    pub palette: Seq<u8>,
    pub vram: Seq<u8>,
    pub oam_addr: u8,
    pub oam: Seq<u8>,
    pub mirroring: Mirroring,
    pub address: AddrRegister,
    pub control: ControlRegister,
    pub mask: MaskRegister,
    pub scroll: ScrollRegister,
    pub status: StatusRegister,
    pub buf: u8,
    pub cycles: usize,
    pub scanline: u16,
    pub nmi_interrupt: Option<bool>,
}

impl PpuView {
    /// Structural invariant: banks have their architectural sizes, the
    /// address register stays mirrored down, and the dot clock sits inside
    /// the current scanline.  Four-screen nametables would need cartridge
    /// memory this unit does not have, so they are excluded.
    pub open spec fn wf(self) -> bool {
        &&& self.chr.len() >= 0x2000
        &&& self.palette.len() == 32
        &&& self.vram.len() == 0x800
        &&& self.oam.len() == 256
        &&& self.address.wf()
        &&& self.cycles <= 340
        &&& self.scanline <= 261
        &&& self.mirroring != Mirroring::FOUR_SCREEN
    }
}

/// The power-on state of the unit over the tile bank `chr`.
pub open spec fn spec_ppu_initial(chr: Seq<u8>, mirroring: Mirroring) -> PpuView {
    PpuView {
        chr,
        palette: Seq::new(32, |i: int| 0u8),
        vram: Seq::new(0x800, |i: int| 0u8),
        oam_addr: 0,
        oam: Seq::new(256, |i: int| 0u8),
        mirroring,
        address: AddrRegister { hi: 0, lo: 0, hi_ptr: true },
        control: ControlRegister { bits: 0 },
        mask: MaskRegister { bits: 0 },
        scroll: ScrollRegister { horizontal_offset: 0, vertical_offset: 0, horizontal_ptr: true },
        status: StatusRegister { bits: 0 },
        buf: 0,
        cycles: 0,
        scanline: 0,
        nmi_interrupt: None,
    }
}

/// Index into the 2 KiB video memory for a nametable address, folding the
/// four logical nametables down to two according to the mirroring mode.
pub open spec fn spec_mirror_vram(mirroring: Mirroring, addr: u16) -> int {
    let index = (addr & 0x2FFF) - 0x2000;
    let nametable = index / 0x400;
    if (mirroring == Mirroring::VERTICAL && (nametable == 2 || nametable == 3))
        || (mirroring == Mirroring::HORIZONTAL && nametable == 3) {
        index - 0x800
    } else if mirroring == Mirroring::HORIZONTAL && (nametable == 1 || nametable == 2) {
        index - 0x400
    } else {
        index
    }
}

/// A nametable address always folds into the 2 KiB of video memory.
pub proof fn lemma_mirror_vram_bounds(mirroring: Mirroring, addr: u16)
    requires
        0x2000 <= addr <= 0x3EFF,
        mirroring != Mirroring::FOUR_SCREEN,
    ensures
        0 <= spec_mirror_vram(mirroring, addr) < 0x800,
{
    assert(0x2000 <= (addr & 0x2FFF) <= 0x2FFF) by (bit_vector)
        requires
            0x2000 <= addr <= 0x3EFF,
    ;
}

/// The byte handed out by a read of the data port: a buffered byte for
/// pattern and nametable space, the palette entry itself for palette space.
pub open spec fn spec_read_data_val(p: PpuView) -> u8 {
    let addr = spec_addr_get(p.address);
    if addr <= 0x1FFF {
        p.buf
    } else if addr <= 0x3EFF {
        p.buf
    } else {
        p.palette[(addr & 0x1F) as int]
    }
}

/// State after a read of the data port: the address register steps by the
/// configured increment and the internal buffer is refilled from the
/// location the (pre-step) address named.
pub open spec fn spec_read_data(p: PpuView) -> PpuView {
    let addr = spec_addr_get(p.address);
    let stepped = PpuView {
        address: spec_addr_increment(p.address, spec_vram_increment(p.control.bits)),
        ..p
    };
    if addr <= 0x1FFF {
        PpuView { buf: p.chr[addr as int], ..stepped }
    } else if addr <= 0x3EFF {
        PpuView { buf: p.vram[spec_mirror_vram(p.mirroring, addr)], ..stepped }
    } else {
        stepped
    }
}

/// State after a write to the data port: pattern space is read-only and the
/// write is dropped; nametable and palette space take the byte; the address
/// register steps afterwards.
pub open spec fn spec_write_data(p: PpuView, data: u8) -> PpuView {
    let addr = spec_addr_get(p.address);
    let stepped = PpuView {
        address: spec_addr_increment(p.address, spec_vram_increment(p.control.bits)),
        ..p
    };
    if addr <= 0x1FFF {
        stepped
    } else if addr <= 0x3EFF {
        PpuView {
            vram: p.vram.update(spec_mirror_vram(p.mirroring, addr), data),
            ..stepped
        }
    } else {
        PpuView { palette: p.palette.update((addr & 0x1F) as int, data), ..stepped }
    }
}

/// State after a read of the status port: vblank is cleared and both
/// two-write latches reset.
pub open spec fn spec_read_status(p: PpuView) -> PpuView {
    PpuView {
        status: StatusRegister { bits: spec_set_vblank(p.status.bits, false) },
        address: AddrRegister { hi_ptr: true, ..p.address },
        scroll: ScrollRegister { horizontal_ptr: true, ..p.scroll },
        ..p
    }
}

/// State after a write to the control port: when the write enables the
/// vblank interrupt while vblank is already in progress, an interrupt is
/// raised at once.
pub open spec fn spec_write_control(p: PpuView, data: u8) -> PpuView {
    let fresh_nmi = !spec_generate_nmi(p.control.bits) && spec_generate_nmi(data)
        && p.status.bits & 0x80 != 0;
    PpuView {
        control: ControlRegister { bits: data },
        nmi_interrupt: if fresh_nmi { Some(true) } else { p.nmi_interrupt },
        ..p
    }
}

/// State after a write to the object attribute data port: the byte lands at
/// the current object address, which then steps (wrapping).
pub open spec fn spec_write_oam_data(p: PpuView, data: u8) -> PpuView {
    PpuView {
        oam: p.oam.update(p.oam_addr as int, data),
        oam_addr: p.oam_addr.wrapping_add(1),
        ..p
    }
}

/// State after the first `n` bytes of a 256-byte object attribute upload.
pub open spec fn spec_oam_dma(p: PpuView, data: Seq<u8>, n: nat) -> PpuView
    decreases n,
{
    if n == 0 {
        p
    } else {
        spec_write_oam_data(spec_oam_dma(p, data, (n - 1) as nat), data[n - 1])
    }
}

/// State after `cycles` dots: when the scanline's 341 dots are spent the
/// scanline advances; scanline 241 opens vblank (raising an interrupt when
/// enabled) and the 262nd scanline wraps back to the top, closing vblank.
pub open spec fn spec_ppu_tick(p: PpuView, cycles: u8) -> PpuView {
    if p.cycles + cycles >= 341 {
        let ticked = PpuView {
            cycles: (p.cycles + cycles - 341) as usize,
            scanline: (p.scanline + 1) as u16,
            ..p
        };
        let after241 = if ticked.scanline == 241 {
            PpuView {
                status: StatusRegister { bits: spec_set_vblank(p.status.bits, true) },
                nmi_interrupt: if spec_generate_nmi(p.control.bits) {
                    Some(true)
                } else {
                    p.nmi_interrupt
                },
                ..ticked
            }
        } else {
            ticked
        };
        if after241.scanline >= 262 {
            PpuView {
                scanline: 0,
                status: StatusRegister { bits: spec_set_vblank(after241.status.bits, false) },
                ..after241
            }
        } else {
            after241
        }
    } else {
        PpuView { cycles: (p.cycles + cycles) as usize, ..p }
    }
}

/// Registers, counters and memories of the picture unit.
pub struct PPU {
    pub chr_rom: Vec<u8>,
    pub palette_table: Vec<u8>,
    pub vram: Vec<u8>,
    pub oam_addr: u8,
    pub oam_data: Vec<u8>,
    pub mirroring: Mirroring,
    pub address: AddrRegister,
    pub control: ControlRegister,
    pub mask: MaskRegister,
    pub scroll: ScrollRegister,
    pub status: StatusRegister,
    pub internal_data_buf: u8,
    pub cycles: usize,
    pub scanline: u16,
    pub nmi_interrupt: Option<bool>,
}

impl View for PPU {
    type V = PpuView;

    open spec fn view(&self) -> PpuView {
        PpuView {
            chr: self.chr_rom@,
            palette: self.palette_table@,
            vram: self.vram@,
            oam_addr: self.oam_addr,
            oam: self.oam_data@,
            mirroring: self.mirroring,
            address: self.address,
            control: self.control,
            mask: self.mask,
            scroll: self.scroll,
            status: self.status,
            buf: self.internal_data_buf,
            cycles: self.cycles,
            scanline: self.scanline,
            nmi_interrupt: self.nmi_interrupt,
        }
    }
}

impl PPU {
    pub open spec fn wf(&self) -> bool {
        self@.wf()
    }

    /// A fresh unit over the given tile bank; memories are zeroed and the
    /// latches point at their first halves.
    pub fn new(chr_rom: Vec<u8>, mirroring: Mirroring) -> (ppu: PPU)
        requires
            chr_rom@.len() >= 0x2000,
            mirroring != Mirroring::FOUR_SCREEN,
        ensures
            ppu.wf(),
            ppu@ == spec_ppu_initial(chr_rom@, mirroring),
    {
        let ppu = PPU {
            chr_rom,
            mirroring,
            vram: vec![0u8; 0x800],
            oam_addr: 0,
            oam_data: vec![0u8; 256],
            palette_table: vec![0u8; 32],
            internal_data_buf: 0,
            cycles: 0,
            scanline: 0,
            nmi_interrupt: None,
            address: AddrRegister::new(),
            control: ControlRegister::new(),
            mask: MaskRegister::new(),
            scroll: ScrollRegister::new(),
            status: StatusRegister::new(),
        };
        proof {
            assert(ppu@.palette =~= Seq::new(32, |i: int| 0u8));
            assert(ppu@.vram =~= Seq::new(0x800, |i: int| 0u8));
            assert(ppu@.oam =~= Seq::new(256, |i: int| 0u8));
            assert(ppu@ =~= spec_ppu_initial(ppu@.chr, ppu@.mirroring));
        }
        ppu
    }

    /// A unit over an empty 8 KiB tile bank, for tests and power-on states.
    pub fn new_empty_rom() -> (ppu: PPU)
        ensures
            ppu.wf(),
            ppu@ == spec_ppu_initial(Seq::new(0x2000, |i: int| 0u8), Mirroring::HORIZONTAL),
    {
        let chr = vec![0u8; 0x2000];
        proof {
            assert(chr@ =~= Seq::new(0x2000, |i: int| 0u8));
        }
        PPU::new(chr, Mirroring::HORIZONTAL)
    }

    fn increment_vram_addr(&mut self)
        requires
            old(self).wf(),
        ensures
            final(self).wf(),
            final(self)@ == (PpuView {
                address: spec_addr_increment(old(self)@.address,
                    spec_vram_increment(old(self)@.control.bits)),
                ..old(self)@
            }),
    {
        let inc = self.control.vram_addr_increment();
        self.address.increment(inc);
    }

    fn mirror_vram_addr(&self, addr: u16) -> (index: u16)
        requires
            self.wf(),
            0x2000 <= addr <= 0x3EFF,
        ensures
            index == spec_mirror_vram(self@.mirroring, addr),
            index < 0x800,
    {
        proof {
            lemma_mirror_vram_bounds(self@.mirroring, addr);
            assert(0x2000 <= (addr & 0x2FFF) <= 0x2FFF) by (bit_vector)
                requires
                    0x2000 <= addr <= 0x3EFF,
            ;
        }
        let mirrored_addr = addr & 0x2FFF;
        let index = mirrored_addr - 0x2000;
        let nametable = index / 0x400;
        match (self.mirroring, nametable) {
            (Mirroring::VERTICAL, 2) | (Mirroring::VERTICAL, 3) | (Mirroring::HORIZONTAL, 3) => {
                index - 0x800
            },
            (Mirroring::HORIZONTAL, 1) | (Mirroring::HORIZONTAL, 2) => index - 0x400,
            _ => index,
        }
    }

    /// Read the data port (register 0x2007).
    pub fn read_data(&mut self) -> (data: u8)
        requires
            old(self).wf(),
        ensures
            final(self).wf(),
            data == spec_read_data_val(old(self)@),
            final(self)@ == spec_read_data(old(self)@),
    {
        proof {
            lemma_addr_get_range(self@.address);
        }
        let addr = self.address.get();
        self.increment_vram_addr();

        if addr <= 0x1FFF {
            let result = self.internal_data_buf;
            self.internal_data_buf = self.chr_rom[addr as usize];
            result
        } else if addr <= 0x3EFF {
            let result = self.internal_data_buf;
            let index = self.mirror_vram_addr(addr);
            self.internal_data_buf = self.vram[index as usize];
            result
        } else {
            proof {
                lemma_u16_and_le(addr, 0x1F);
            }
            self.palette_table[(addr & 0x1F) as usize]
        }
    }

    /// Write the data port (register 0x2007).
    pub fn write_to_data(&mut self, data: u8)
        requires
            old(self).wf(),
        ensures
            final(self).wf(),
            final(self)@ == spec_write_data(old(self)@, data),
    {
        proof {
            lemma_addr_get_range(self@.address);
        }
        let addr = self.address.get();

        if addr <= 0x1FFF {
            // pattern space is read-only: the write is dropped
        } else if addr <= 0x3EFF {
            let index = self.mirror_vram_addr(addr);
            self.vram.set(index as usize, data);
        } else {
            proof {
                lemma_u16_and_le(addr, 0x1F);
            }
            self.palette_table.set((addr & 0x1F) as usize, data);
        }
        self.increment_vram_addr();
    }

    /// Write the address port (register 0x2006).
    pub fn write_to_ppu_addr(&mut self, value: u8)
        ensures
            final(self)@ == (PpuView {
                address: spec_addr_update(old(self)@.address, value),
                ..old(self)@
            }),
            old(self).wf() ==> final(self).wf(),
    {
        self.address.update(value);
    }

    /// Write the control port (register 0x2000).
    pub fn write_to_control(&mut self, value: u8)
        ensures
            final(self)@ == spec_write_control(old(self)@, value),
            old(self).wf() ==> final(self).wf(),
    {
        let old_nmi_status = self.control.should_generate_vblank_nmi();
        self.control.update(value);
        if !old_nmi_status && self.control.should_generate_vblank_nmi() && self.status.in_vblank() {
            self.nmi_interrupt = Some(true);
        }
    }

    /// Write the mask port (register 0x2001).
    pub fn write_to_mask(&mut self, value: u8)
        ensures
            final(self)@ == (PpuView { mask: MaskRegister { bits: value }, ..old(self)@ }),
            old(self).wf() ==> final(self).wf(),
    {
        self.mask.update(value);
    }

    /// Write the scroll port (register 0x2005).
    pub fn write_to_scroll(&mut self, value: u8)
        ensures
            final(self)@ == (PpuView {
                scroll: spec_scroll_update(old(self)@.scroll, value),
                ..old(self)@
            }),
            old(self).wf() ==> final(self).wf(),
    {
        self.scroll.update(value);
    }

    /// Read the status port (register 0x2002): hands out the status byte,
    /// closes vblank and resets the two-write latches.
    pub fn read_status(&mut self) -> (data: u8)
        ensures
            data == old(self)@.status.bits,
            final(self)@ == spec_read_status(old(self)@),
            old(self).wf() ==> final(self).wf(),
    {
        let data = self.status.bits();
        self.status.set_vblank(false);
        self.address.reset_latch();
        self.scroll.reset_latch();
        data
    }

    /// Write the object attribute address port (register 0x2003).
    pub fn write_to_oam_addr(&mut self, data: u8)
        ensures
            final(self)@ == (PpuView { oam_addr: data, ..old(self)@ }),
            old(self).wf() ==> final(self).wf(),
    {
        self.oam_addr = data;
    }

    /// Write the object attribute data port (register 0x2004).
    pub fn write_to_oam_data(&mut self, data: u8)
        requires
            old(self).wf(),
        ensures
            final(self).wf(),
            final(self)@ == spec_write_oam_data(old(self)@, data),
    {
        self.oam_data.set(self.oam_addr as usize, data);
        self.oam_addr = self.oam_addr.wrapping_add(1);
    }

    /// Read the object attribute data port (register 0x2004); no step.
    pub fn read_oam_data(&self) -> (data: u8)
        requires
            self.wf(),
        ensures
            data == self@.oam[self@.oam_addr as int],
    {
        self.oam_data[self.oam_addr as usize]
    }

    /// Upload a full 256-byte object attribute block, starting at the
    /// current object address and wrapping around it.
    pub fn write_oam_dma(&mut self, data: &Vec<u8>)
        requires
            old(self).wf(),
            data@.len() == 256,
        ensures
            final(self).wf(),
            final(self)@ == spec_oam_dma(old(self)@, data@, 256),
    {
        let mut i: usize = 0;
        while i < 256
            invariant
                i <= 256,
                data@.len() == 256,
                self.wf(),
                self@ == spec_oam_dma(old(self)@, data@, i as nat),
            decreases 256 - i,
        {
            self.write_to_oam_data(data[i]);
            i = i + 1;
        }
    }

    /// Advance the dot clock by `cycles` dots.
    pub fn tick(&mut self, cycles: u8)
        requires
            old(self).wf(),
        ensures
            final(self).wf(),
            final(self)@ == spec_ppu_tick(old(self)@, cycles),
    {
        self.cycles = self.cycles + cycles as usize;
        if self.cycles >= 341 {
            self.cycles = self.cycles - 341;
            self.scanline = self.scanline + 1;

            if self.scanline == 241 {
                self.status.set_vblank(true);
                if self.control.should_generate_vblank_nmi() {
                    self.nmi_interrupt = Some(true);
                }
            }

            if self.scanline >= 262 {
                self.scanline = 0;
                self.status.set_vblank(false);
            }
        }
    }

    /// Take the pending interrupt, clearing it.
    pub fn poll_nmi_interrupt(&mut self) -> (r: Option<bool>)
        ensures
            r == old(self)@.nmi_interrupt,
            final(self)@ == (PpuView { nmi_interrupt: None, ..old(self)@ }),
            old(self).wf() ==> final(self).wf(),
    {
        let r = self.nmi_interrupt;
        self.nmi_interrupt = None;
        r
    }

    /// Whether an interrupt is pending, without consuming it.
    pub fn nmi_interrupt_ready(&self) -> (b: bool)
        ensures
            b == (self@.nmi_interrupt is Some),
    {
        self.nmi_interrupt.is_some()
    }

    /// Base address of the background pattern bank selected by the control
    /// register.
    pub fn background_pattern_table_addr(&self) -> (addr: u16)
        ensures
            addr == crate::ppu_regs::spec_background_bank(self@.control.bits),
    {
        self.control.background_pattern_table_addr()
    }
}

} // verus!
