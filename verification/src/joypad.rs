//! The standard controller latch at bus addresses 0x4016/0x4017: a strobed
//! shift register that hands one button bit out per read.

use vstd::prelude::*;

verus! {

/// One of the eight buttons, in shift-out order.
#[derive(Clone, Copy, Debug, PartialEq, Eq, Structural)]
pub enum JoypadButton {
    BUTTON_A,
    BUTTON_B,
    SELECT,
    START,
    UP,
    DOWN,
    LEFT,
    RIGHT,
}

/// The bit each button occupies in the latched byte.
pub open spec fn spec_button_mask(b: JoypadButton) -> u8 {
    match b {
        JoypadButton::BUTTON_A => 0x01,
        JoypadButton::BUTTON_B => 0x02,
        JoypadButton::SELECT => 0x04,
        JoypadButton::START => 0x08,
        JoypadButton::UP => 0x10,
        JoypadButton::DOWN => 0x20,
        JoypadButton::LEFT => 0x40,
        JoypadButton::RIGHT => 0x80,
    }
}

#[derive(Clone, Copy, Debug, PartialEq, Eq, Structural)]
pub struct Joypad {
    pub strobe: bool,
    pub button_index: u8,
    pub button_status: u8,
}

/// The bit a read hands out: past the eighth button always 1, otherwise the
/// button bit the index points at.
pub open spec fn spec_joypad_read_val(j: Joypad) -> u8 {
    if j.button_index > 7 {
        1
    } else {
        (j.button_status >> j.button_index) & 1
    }
}

/// State after a read: while strobed (or past the end) the index holds,
/// otherwise it advances to the next button.
pub open spec fn spec_joypad_read(j: Joypad) -> Joypad {
    if j.button_index > 7 {
        j
    } else if j.strobe {
        j
    } else {
        Joypad { button_index: (j.button_index + 1) as u8, ..j }
    }
}

/// State after a strobe write: bit 0 sets the strobe, and raising it rewinds
/// the shift-out position.
pub open spec fn spec_joypad_write(j: Joypad, data: u8) -> Joypad {
    let strobe = data & 1 == 1;
    Joypad {
        strobe,
        button_index: if strobe {
            0
        } else {
            j.button_index
        },
        ..j
    }
}

impl Joypad {
    pub fn new() -> (j: Joypad)
        ensures
            j == (Joypad { strobe: false, button_index: 0, button_status: 0 }),
    {
        Joypad { strobe: false, button_index: 0, button_status: 0 }
    }

    /// Write the strobe latch (bus address 0x4016).
    pub fn write(&mut self, data: u8)
        ensures
            *final(self) == spec_joypad_write(*old(self), data),
    {
        self.strobe = data & 1 == 1;
        if self.strobe {
            self.button_index = 0;
        }
    }

    /// Read one button bit (bus address 0x4016), shifting to the next one
    /// unless strobed.
    pub fn read(&mut self) -> (bit: u8)
        ensures
            bit == spec_joypad_read_val(*old(self)),
            *final(self) == spec_joypad_read(*old(self)),
    {
        if self.button_index > 7 {
            return 1;
        }
        let response = (self.button_status >> self.button_index) & 1;
        if !self.strobe {
            self.button_index = self.button_index + 1;
        }
        response
    }

    /// Press or release a button in the latched byte.
    pub fn set_button_pressed(&mut self, button: JoypadButton, pressed: bool)
        ensures
            *final(self) == (Joypad {
                button_status: if pressed {
                    old(self).button_status | spec_button_mask(button)
                } else {
                    old(self).button_status & !spec_button_mask(button)
                },
                ..*old(self)
            }),
    {
        let mask: u8 = match button {
            JoypadButton::BUTTON_A => 0x01,
            JoypadButton::BUTTON_B => 0x02,
            JoypadButton::SELECT => 0x04,
            JoypadButton::START => 0x08,
            JoypadButton::UP => 0x10,
            JoypadButton::DOWN => 0x20,
            JoypadButton::LEFT => 0x40,
            JoypadButton::RIGHT => 0x80,
        };
        if pressed {
            self.button_status = self.button_status | mask;
        } else {
            self.button_status = self.button_status & !mask;
        }
    }
}

} // verus!
