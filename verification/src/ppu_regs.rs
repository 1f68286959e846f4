//! The picture unit's memory-mapped register latches.
//!
//! Each register is plain data with an exact transition function, so the
//! picture unit's own contracts can speak of register states directly.

use vstd::prelude::*;
use crate::bitops::lemma_u8_and_le;

verus! {

// ---------------------------------------------------------------------------
// Address register (0x2006): two writes load high then low byte of the video
// memory address; the address is kept mirrored down below 0x4000.
// ---------------------------------------------------------------------------

#[derive(Clone, Copy, Debug, PartialEq, Eq, Structural)]
pub struct AddrRegister {
    pub hi: u8,
    pub lo: u8,
    pub hi_ptr: bool,
}

/// The address held, assembled from the two byte halves.
pub open spec fn spec_addr_get(r: AddrRegister) -> u16 {
    (r.hi as u16) << 8 | r.lo as u16
}

/// State after one write to the register: the write lands in the half the
/// latch points at (the high half is mirrored down below 0x40) and the latch
/// flips.
pub open spec fn spec_addr_update(r: AddrRegister, data: u8) -> AddrRegister {
    if r.hi_ptr {
        AddrRegister { hi: data & 0x3F, lo: r.lo, hi_ptr: false }
    } else {
        AddrRegister { hi: r.hi, lo: data, hi_ptr: true }
    }
}

/// State after adding `inc` to the address: the low byte wraps, carrying into
/// the high byte, which is mirrored down below 0x40.
pub open spec fn spec_addr_increment(r: AddrRegister, inc: u8) -> AddrRegister {
    let lo2 = r.lo.wrapping_add(inc);
    let hi2 = if r.lo > lo2 {
        (r.hi + 1) as u8 & 0x3F
    } else {
        r.hi
    };
    AddrRegister { hi: hi2, lo: lo2, hi_ptr: r.hi_ptr }
}

impl AddrRegister {
    /// The stored address never reaches 0x4000.
    pub open spec fn wf(self) -> bool {
        self.hi <= 0x3F
    }

    pub fn new() -> (r: AddrRegister)
        ensures
            r == (AddrRegister { hi: 0, lo: 0, hi_ptr: true }),
            r.wf(),
    {
        AddrRegister { hi: 0, lo: 0, hi_ptr: true }
    }

    pub fn update(&mut self, data: u8)
        ensures
            *final(self) == spec_addr_update(*old(self), data),
            old(self).wf() ==> final(self).wf(),
    {
        if self.hi_ptr {
            self.hi = data & 0x3F;
            proof {
                lemma_u8_and_le(data, 0x3F);
            }
        } else {
            self.lo = data;
        }
        self.hi_ptr = !self.hi_ptr;
    }

    pub fn increment(&mut self, inc: u8)
        requires
            old(self).wf(),
        ensures
            *final(self) == spec_addr_increment(*old(self), inc),
            final(self).wf(),
    {
        let lo = self.lo;
        self.lo = self.lo.wrapping_add(inc);
        if lo > self.lo {
            self.hi = (self.hi + 1) & 0x3F;
            proof {
                lemma_u8_and_le((old(self).hi + 1) as u8, 0x3F);
            }
        }
    }

    pub fn reset_latch(&mut self)
        ensures
            *final(self) == (AddrRegister { hi_ptr: true, ..*old(self) }),
            old(self).wf() ==> final(self).wf(),
    {
        self.hi_ptr = true;
    }

    pub fn get(&self) -> (addr: u16)
        ensures
            addr == spec_addr_get(*self),
    {
        (self.hi as u16) << 8 | self.lo as u16
    }
}

/// A well-formed address register always holds an address below 0x4000.
pub proof fn lemma_addr_get_range(r: AddrRegister)
    requires
        r.wf(),
    ensures
        spec_addr_get(r) <= 0x3FFF,
{
    crate::bitops::lemma_u16_from_bytes_le(r.hi, r.lo);
}

// ---------------------------------------------------------------------------
// Control register (0x2000).
// ---------------------------------------------------------------------------

#[derive(Clone, Copy, Debug, PartialEq, Eq, Structural)]
pub struct ControlRegister {
    pub bits: u8,
}

/// Video address step selected by control bit 2: 32 when set, else 1.
pub open spec fn spec_vram_increment(bits: u8) -> u8 {
    if bits & 0x04 != 0 {
        32
    } else {
        1
    }
}

/// Whether control bit 7 enables the vblank interrupt.
pub open spec fn spec_generate_nmi(bits: u8) -> bool {
    bits & 0x80 != 0
}

/// Background pattern bank selected by control bit 4.
pub open spec fn spec_background_bank(bits: u8) -> u16 {
    if bits & 0x10 != 0 {
        0x1000
    } else {
        0
    }
}

/// Sprite pattern bank selected by control bit 3.
pub open spec fn spec_sprite_bank(bits: u8) -> u16 {
    if bits & 0x08 != 0 {
        0x1000
    } else {
        0
    }
}

impl ControlRegister {
    pub fn new() -> (r: ControlRegister)
        ensures
            r.bits == 0,
    {
        ControlRegister { bits: 0 }
    }

    pub fn update(&mut self, data: u8)
        ensures
            final(self).bits == data,
    {
        self.bits = data;
    }

    pub fn vram_addr_increment(&self) -> (inc: u8)
        ensures
            inc == spec_vram_increment(self.bits),
    {
        if self.bits & 0x04 != 0 {
            32
        } else {
            1
        }
    }

    pub fn should_generate_vblank_nmi(&self) -> (b: bool)
        ensures
            b == spec_generate_nmi(self.bits),
    {
        self.bits & 0x80 != 0
    }

    pub fn background_pattern_table_addr(&self) -> (addr: u16)
        ensures
            addr == spec_background_bank(self.bits),
    {
        if self.bits & 0x10 != 0 {
            0x1000
        } else {
            0
        }
    }

    pub fn sprite_pattern_table_addr(&self) -> (addr: u16)
        ensures
            addr == spec_sprite_bank(self.bits),
    {
        if self.bits & 0x08 != 0 {
            0x1000
        } else {
            0
        }
    }
}

// ---------------------------------------------------------------------------
// Mask register (0x2001).
// ---------------------------------------------------------------------------

#[derive(Clone, Copy, Debug, PartialEq, Eq, Structural)]
pub struct MaskRegister {
    pub bits: u8,
}

impl MaskRegister {
    pub fn new() -> (r: MaskRegister)
        ensures
            r.bits == 0,
    {
        MaskRegister { bits: 0 }
    }

    pub fn update(&mut self, data: u8)
        ensures
            final(self).bits == data,
    {
        self.bits = data;
    }
}

// ---------------------------------------------------------------------------
// Status register (0x2002).
// ---------------------------------------------------------------------------

#[derive(Clone, Copy, Debug, PartialEq, Eq, Structural)]
pub struct StatusRegister {
    pub bits: u8,
}

/// Status byte with the vblank bit (bit 7) forced to `on`.
pub open spec fn spec_set_vblank(bits: u8, on: bool) -> u8 {
    if on {
        bits | 0x80
    } else {
        bits & 0x7F
    }
}

impl StatusRegister {
    pub fn new() -> (r: StatusRegister)
        ensures
            r.bits == 0,
    {
        StatusRegister { bits: 0 }
    }

    pub fn set_vblank(&mut self, on: bool)
        ensures
            final(self).bits == spec_set_vblank(old(self).bits, on),
    {
        if on {
            self.bits = self.bits | 0x80;
        } else {
            self.bits = self.bits & 0x7F;
        }
    }

    pub fn in_vblank(&self) -> (b: bool)
        ensures
            b == (self.bits & 0x80 != 0),
    {
        self.bits & 0x80 != 0
    }

    pub fn bits(&self) -> (b: u8)
        ensures
            b == self.bits,
    {
        self.bits
    }
}

// ---------------------------------------------------------------------------
// Scroll register (0x2005): two writes load the horizontal then the vertical
// offset.
// ---------------------------------------------------------------------------

#[derive(Clone, Copy, Debug, PartialEq, Eq, Structural)]
pub struct ScrollRegister {
    pub horizontal_offset: u8,
    pub vertical_offset: u8,
    pub horizontal_ptr: bool,
}

/// State after one write: the byte lands in the half the latch points at and
/// the latch flips.
pub open spec fn spec_scroll_update(r: ScrollRegister, data: u8) -> ScrollRegister {
    if r.horizontal_ptr {
        ScrollRegister { horizontal_offset: data, horizontal_ptr: false, ..r }
    } else {
        ScrollRegister { vertical_offset: data, horizontal_ptr: true, ..r }
    }
}

impl ScrollRegister {
    pub fn new() -> (r: ScrollRegister)
        ensures
            r == (ScrollRegister {
                horizontal_offset: 0,
                vertical_offset: 0,
                horizontal_ptr: true,
            }),
    {
        ScrollRegister { horizontal_offset: 0, vertical_offset: 0, horizontal_ptr: true }
    }

    pub fn update(&mut self, data: u8)
        ensures
            *final(self) == spec_scroll_update(*old(self), data),
    {
        if self.horizontal_ptr {
            self.horizontal_offset = data;
        } else {
            self.vertical_offset = data;
        }
        self.horizontal_ptr = !self.horizontal_ptr;
    }

    pub fn reset_latch(&mut self)
        ensures
            *final(self) == (ScrollRegister { horizontal_ptr: true, ..*old(self) }),
    {
        self.horizontal_ptr = true;
    }
}

} // verus!
