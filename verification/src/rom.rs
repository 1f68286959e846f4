//! Cartridge images in the iNES container format.
//!
//! A cartridge contributes two byte banks to the machine: PRG ROM (program
//! code, mapped at `0x8000..=0xFFFF` on the CPU bus) and CHR ROM (tile data,
//! owned by the picture unit), plus a nametable mirroring mode.  Only the
//! bank-switch-free mapper 0 is supported; parsing rejects everything else.

use vstd::prelude::*;

verus! {

/// Nametable mirroring arrangement requested by the cartridge header.
#[derive(Clone, Copy, Debug, PartialEq, Eq, Structural)]
pub enum Mirroring {
    VERTICAL,
    HORIZONTAL,
    FOUR_SCREEN,
}

/// Why a byte image was rejected as a cartridge.
#[derive(Clone, Copy, Debug, PartialEq, Eq, Structural)]
pub enum RomError {
    /// The image does not start with the 4 iNES magic bytes.
    NotInes,
    /// The header asks for a mapper other than 0.
    UnsupportedMapper,
    /// The header declares no PRG ROM bank.
    NoPrgRom,
    /// The header declares no CHR ROM bank.
    NoChrRom,
    /// The image is shorter than the header and banks it declares.
    Truncated,
}

/// One 16 KiB PRG bank.
pub const PRG_BANK_SIZE: usize = 16384;

/// One 8 KiB CHR bank.
pub const CHR_BANK_SIZE: usize = 8192;

/// Size of the iNES header.
pub const HEADER_SIZE: usize = 16;

/// Size of the optional trainer block between header and PRG.
pub const TRAINER_SIZE: usize = 512;

/// Mirroring mode encoded by control byte 6 of the header.
pub open spec fn mirroring_of(ctrl: u8) -> Mirroring {
    if ctrl & 0x08 != 0 {
        Mirroring::FOUR_SCREEN
    } else if ctrl & 0x01 != 0 {
        Mirroring::VERTICAL
    } else {
        Mirroring::HORIZONTAL
    }
}

/// Mapper id encoded by the high nibbles of control bytes 6 and 7.
pub open spec fn mapper_of(ctrl6: u8, ctrl7: u8) -> u8 {
    (ctrl6 >> 4) | (ctrl7 & 0xF0)
}

/// True when the image begins with the iNES magic `'N' 'E' 'S' 0x1A`.
pub open spec fn has_ines_magic(raw: Seq<u8>) -> bool {
    &&& raw.len() >= 4
    &&& raw[0] == 0x4E
    &&& raw[1] == 0x45
    &&& raw[2] == 0x53
    &&& raw[3] == 0x1A
}

/// Offset of the first PRG byte: the header, plus the trainer when control
/// byte 6 announces one.
pub open spec fn spec_prg_start(ctrl6: u8) -> int {
    if ctrl6 & 0x04 != 0 {
        HEADER_SIZE + TRAINER_SIZE
    } else {
        HEADER_SIZE as int
    }
}

/// The conditions under which an image parses as a cartridge.
pub open spec fn parses(raw: Seq<u8>) -> bool {
    &&& raw.len() >= HEADER_SIZE
    &&& has_ines_magic(raw)
    &&& mapper_of(raw[6], raw[7]) == 0
    &&& raw[4] != 0
    &&& raw[5] != 0
    &&& raw.len() >= spec_prg_start(raw[6]) + raw[4] * PRG_BANK_SIZE + raw[5] * CHR_BANK_SIZE
}

/// A parsed mapper-0 cartridge.
pub struct Rom {
    pub prg_rom: Vec<u8>,
    pub chr_rom: Vec<u8>,
    pub mapper: u8,
    pub screen_mirroring: Mirroring,
}

impl Rom {
    /// A cartridge is well formed when its banks have the sizes the format
    /// prescribes: whole non-empty 16 KiB PRG and 8 KiB CHR banks.
    pub open spec fn wf(self) -> bool {
        &&& self.prg_rom@.len() >= PRG_BANK_SIZE
        &&& self.prg_rom@.len() % PRG_BANK_SIZE as nat == 0
        &&& self.chr_rom@.len() >= CHR_BANK_SIZE
        &&& self.chr_rom@.len() % CHR_BANK_SIZE as nat == 0
        &&& self.mapper == 0
    }

    /// Parse an iNES image.
    ///
    /// Succeeds exactly on images with the iNES magic, mapper 0, at least one
    /// PRG and one CHR bank, and enough bytes for everything the header
    /// declares; the banks are copied out verbatim, skipping the 512-byte
    /// trainer when control byte 6 announces one.
    pub fn new(raw: &Vec<u8>) -> (result: Result<Rom, RomError>)
        ensures
            result is Ok <==> parses(raw@),
            result matches Ok(rom) ==> {
                let start = spec_prg_start(raw@[6]);
                let prg_len = raw@[4] * PRG_BANK_SIZE;
                let chr_len = raw@[5] * CHR_BANK_SIZE;
                &&& rom.wf()
                &&& rom.prg_rom@ == raw@.subrange(start, start + prg_len)
                &&& rom.chr_rom@ == raw@.subrange(start + prg_len, start + prg_len + chr_len)
                &&& rom.mapper == 0
                &&& rom.screen_mirroring == mirroring_of(raw@[6])
                &&& rom.prg_rom@.len() == prg_len
                &&& rom.chr_rom@.len() == chr_len
            },
            result matches Err(e) ==> {
                ||| (e == RomError::NotInes
                    && (raw@.len() < HEADER_SIZE || !has_ines_magic(raw@)))
                ||| (e == RomError::UnsupportedMapper && raw@.len() >= HEADER_SIZE
                    && mapper_of(raw@[6], raw@[7]) != 0)
                ||| (e == RomError::NoPrgRom && raw@.len() >= HEADER_SIZE && raw@[4] == 0)
                ||| (e == RomError::NoChrRom && raw@.len() >= HEADER_SIZE && raw@[5] == 0)
                ||| (e == RomError::Truncated && raw@.len() >= HEADER_SIZE
                    && raw@.len() < spec_prg_start(raw@[6]) + raw@[4] * PRG_BANK_SIZE
                        + raw@[5] * CHR_BANK_SIZE)
            },
    {
        if raw.len() < HEADER_SIZE {
            return Err(RomError::NotInes);
        }
        if !(raw[0] == 0x4E && raw[1] == 0x45 && raw[2] == 0x53 && raw[3] == 0x1A) {
            return Err(RomError::NotInes);
        }
        let ctrl6 = raw[6];
        let ctrl7 = raw[7];
        let mapper = (ctrl6 >> 4) | (ctrl7 & 0xF0);
        if mapper != 0 {
            return Err(RomError::UnsupportedMapper);
        }
        let prg_banks = raw[4];
        let chr_banks = raw[5];
        if prg_banks == 0 {
            return Err(RomError::NoPrgRom);
        }
        if chr_banks == 0 {
            return Err(RomError::NoChrRom);
        }
        let prg_start: usize = if ctrl6 & 0x04 != 0 {
            HEADER_SIZE + TRAINER_SIZE
        } else {
            HEADER_SIZE
        };
        let prg_len: usize = (prg_banks as usize) * PRG_BANK_SIZE;
        let chr_len: usize = (chr_banks as usize) * CHR_BANK_SIZE;
        assert(prg_start + prg_len + chr_len < 0x1000000);
        if raw.len() < prg_start + prg_len + chr_len {
            return Err(RomError::Truncated);
        }
        let prg_rom = copy_range(raw, prg_start, prg_len);
        let chr_rom = copy_range(raw, prg_start + prg_len, chr_len);
        let screen_mirroring = if ctrl6 & 0x08 != 0 {
            Mirroring::FOUR_SCREEN
        } else if ctrl6 & 0x01 != 0 {
            Mirroring::VERTICAL
        } else {
            Mirroring::HORIZONTAL
        };
        proof {
            assert(prg_rom@.len() % PRG_BANK_SIZE as nat == 0) by {
                assert(prg_rom@.len() == prg_banks * PRG_BANK_SIZE);
            };
            assert(chr_rom@.len() % CHR_BANK_SIZE as nat == 0) by {
                assert(chr_rom@.len() == chr_banks * CHR_BANK_SIZE);
            };
        }
        Ok(Rom { prg_rom, chr_rom, mapper, screen_mirroring })
    }
}

/// Copy `len` bytes of `raw` starting at `start` into a fresh vector.
fn copy_range(raw: &Vec<u8>, start: usize, len: usize) -> (out: Vec<u8>)
    requires
        start + len <= raw@.len(),
    ensures
        out@ == raw@.subrange(start as int, start + len),
{
    let mut out: Vec<u8> = Vec::new();
    let mut i: usize = 0;
    let n = raw.len();
    while i < len
        invariant
            i <= len,
            start + len <= n,
            n == raw@.len(),
            out@ == raw@.subrange(start as int, start + i),
        decreases len - i,
    {
        out.push(raw[start + i]);
        assert(out@ =~= raw@.subrange(start as int, start + i + 1));
        i = i + 1;
    }
    out
}

} // verus!
