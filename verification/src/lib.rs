//! An instruction-accurate interpreter for the 6502-family CPU at the heart of
//! the classic home console, together with the memory bus that arbitrates
//! between internal RAM, the picture-processing unit, the audio unit, the
//! controller latch and the cartridge ROM.
//!
//! Every component is specified against a mathematical view of the machine
//! state, and the executable code is verified to match that view step by step.

pub mod apu;
pub mod bitops;
pub mod bus;
pub mod cpu;
pub mod ops;
pub mod divider;
pub mod joypad;
pub mod laws;
pub mod pulse;
pub mod ppu;
pub mod ppu_regs;
pub mod rom;
pub mod trace;

pub use rom::Mirroring;
pub use rom::Rom;
pub use rom::RomError;
