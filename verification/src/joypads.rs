//! The controller port: an eight-button latch read out one bit at a time.

use vstd::prelude::*;

verus! {

/// Button bit masks, most significant first.
pub const BUTTON_RIGHT: u8 = 0b1000_0000;
pub const BUTTON_LEFT: u8 = 0b0100_0000;
pub const BUTTON_DOWN: u8 = 0b0010_0000;
pub const BUTTON_UP: u8 = 0b0001_0000;
pub const BUTTON_START: u8 = 0b0000_1000;
pub const BUTTON_SELECT: u8 = 0b0000_0100;
pub const BUTTON_B: u8 = 0b0000_0010;
pub const BUTTON_A: u8 = 0b0000_0001;

/// One of the eight controller buttons.
#[derive(Debug, Clone, Copy, PartialEq, Eq, Structural)]
pub enum JoypadButton {
    Right,
    Left,
    Down,
    Up,
    Start,
    Select,
    ButtonB,
    ButtonA,
}

impl JoypadButton {
    /// The bit this button occupies in the latched byte.
    pub open spec fn spec_mask(self) -> u8 {
        match self {
            JoypadButton::Right => BUTTON_RIGHT,
            JoypadButton::Left => BUTTON_LEFT,
            JoypadButton::Down => BUTTON_DOWN,
            JoypadButton::Up => BUTTON_UP,
            JoypadButton::Start => BUTTON_START,
            JoypadButton::Select => BUTTON_SELECT,
            JoypadButton::ButtonB => BUTTON_B,
            JoypadButton::ButtonA => BUTTON_A,
        }
    }

    pub fn mask(self) -> (r: u8)
        ensures
            r == self.spec_mask(),
    {
        match self {
            JoypadButton::Right => BUTTON_RIGHT,
            JoypadButton::Left => BUTTON_LEFT,
            JoypadButton::Down => BUTTON_DOWN,
            JoypadButton::Up => BUTTON_UP,
            JoypadButton::Start => BUTTON_START,
            JoypadButton::Select => BUTTON_SELECT,
            JoypadButton::ButtonB => BUTTON_B,
            JoypadButton::ButtonA => BUTTON_A,
        }
    }
}

/// The controller latch: while the strobe is held, reads return button A;
/// once released, successive reads step through the eight buttons and then
/// return 1 until the strobe is pulsed again.
#[derive(Clone, Copy, PartialEq, Eq, Structural)]
pub struct Joypad {
    pub strobe_mode: bool,
    pub button_index: u8,
    pub button_status: u8,
}

/// Effect of a strobe write: bit 0 set holds the read index at button A.
pub open spec fn joypad_write(j: Joypad, value: u8) -> Joypad {
    let strobe = value & 1 == 1;
    Joypad {
        strobe_mode: strobe,
        button_index: if strobe {
            0u8
        } else {
            j.button_index
        },
        ..j
    }
}

/// Value handed back by a read: one button's state bit, or 1 past the
/// eighth button.
pub open spec fn joypad_read_value(j: Joypad) -> u8 {
    if j.button_index > 7 {
        1
    } else {
        (j.button_status & (1u8 << j.button_index)) >> j.button_index
    }
}

/// State after a read: the index steps only when the strobe is released.
pub open spec fn joypad_read_step(j: Joypad) -> Joypad {
    if j.button_index > 7 {
        j
    } else if !j.strobe_mode {
        Joypad { button_index: (j.button_index + 1) as u8, ..j }
    } else {
        j
    }
}

impl Joypad {
    pub fn new() -> (r: Joypad)
        ensures
            r == (Joypad { strobe_mode: false, button_index: 0, button_status: 0 }),
    {
        Joypad { strobe_mode: false, button_index: 0, button_status: 0 }
    }

    pub fn write(&mut self, value: u8)
        ensures
            *final(self) == joypad_write(*old(self), value),
    {
        self.strobe_mode = value & 1 == 1;
        if self.strobe_mode {
            self.button_index = 0;
        }
    }

    pub fn read(&mut self) -> (r: u8)
        ensures
            r == joypad_read_value(*old(self)),
            *final(self) == joypad_read_step(*old(self)),
            r <= 1,
    {
        if self.button_index > 7 {
            return 1;
        }

        let value = (self.button_status & (1u8 << self.button_index)) >> self.button_index;

        if !self.strobe_mode {
            self.button_index = self.button_index + 1;
        }

        proof {
            let s = old(self).button_status;
            let i = old(self).button_index;
            assert((s & (1u8 << i)) >> i <= 1) by (bit_vector)
                requires i <= 7;
        }
        value
    }

    /// Marks one button pressed or released in the latched byte.
    pub fn set_button_pressed_status(&mut self, button: JoypadButton, pressed: bool)
        ensures
            final(self).button_status == if pressed {
                old(self).button_status | button.spec_mask()
            } else {
                old(self).button_status & !button.spec_mask()
            },
            final(self).strobe_mode == old(self).strobe_mode,
            final(self).button_index == old(self).button_index,
    {
        if pressed {
            self.button_status = self.button_status | button.mask();
        } else {
            self.button_status = self.button_status & !button.mask();
        }
    }
}

} // verus!
