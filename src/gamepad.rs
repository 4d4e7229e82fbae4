//! The input latch: a shift register over the eight buttons of a pad.

use vstd::prelude::*;

verus! {

/// One button of the pad, named by its bit in the button byte.
#[derive(Clone, Copy, Debug, PartialEq, Eq, Structural)]
pub enum JoypadButton {
    ButtonA,
    ButtonB,
    Select,
    Start,
    Up,
    Down,
    Left,
    Right,
}

impl JoypadButton {
    pub open spec fn spec_mask(self) -> u8 {
        match self {
            JoypadButton::ButtonA => 0x01,
            JoypadButton::ButtonB => 0x02,
            JoypadButton::Select => 0x04,
            JoypadButton::Start => 0x08,
            JoypadButton::Up => 0x10,
            JoypadButton::Down => 0x20,
            JoypadButton::Left => 0x40,
            JoypadButton::Right => 0x80,
        }
    }

    pub fn mask(self) -> (r: u8)
        ensures
            r == self.spec_mask(),
    {
        match self {
            JoypadButton::ButtonA => 0x01,
            JoypadButton::ButtonB => 0x02,
            JoypadButton::Select => 0x04,
            JoypadButton::Start => 0x08,
            JoypadButton::Up => 0x10,
            JoypadButton::Down => 0x20,
            JoypadButton::Left => 0x40,
            JoypadButton::Right => 0x80,
        }
    }
}

#[derive(Clone, Copy, Debug, PartialEq, Eq, Structural)]
pub struct Gamepad {
    pub strobe: bool,
    pub button_index: u8,
    pub button_status: u8,
}

impl Gamepad {
    /// The value a read returns and the latch after it: one button per read,
    /// in bit order, then 1 once all eight were read.
    pub open spec fn spec_read(self) -> (u8, Gamepad) {
        if self.button_index > 7 {
            (1, self)
        } else {
            let bit = ((self.button_status >> self.button_index) & 1) as u8;
            if self.strobe {
                (bit, self)
            } else {
                (bit, Gamepad { button_index: (self.button_index + 1) as u8, ..self })
            }
        }
    }

    /// Bit 0 of a write sets strobe mode, which also rewinds to the first button.
    pub open spec fn spec_write(self, data: u8) -> Gamepad {
        let strobe = data & 1 == 1;
        Gamepad { strobe, button_index: if strobe { 0 } else { self.button_index }, ..self }
    }

    pub open spec fn new_spec() -> Gamepad {
        Gamepad { strobe: false, button_index: 0, button_status: 0 }
    }

    pub fn new() -> (r: Gamepad)
        ensures
            r == Gamepad::new_spec(),
    {
        Gamepad { strobe: false, button_index: 0, button_status: 0 }
    }

    pub fn write(&mut self, data: u8)
        ensures
            *final(self) == old(self).spec_write(data),
    {
        self.strobe = data & 1 == 1;
        if self.strobe {
            self.button_index = 0;
        }
    }

    pub fn read(&mut self) -> (r: u8)
        ensures
            (r, *final(self)) == old(self).spec_read(),
    {
        if self.button_index > 7 {
            return 1;
        }
        let response = (self.button_status >> self.button_index) & 1;
        if !self.strobe {
            self.button_index = self.button_index + 1;
        }
        response
    }

    pub fn set_button_pressed_status(&mut self, button: JoypadButton, pressed: bool)
        ensures
            final(self).button_status == (if pressed {
                old(self).button_status | button.spec_mask()
            } else {
                old(self).button_status & !button.spec_mask()
            }),
            final(self).strobe == old(self).strobe,
            final(self).button_index == old(self).button_index,
    {
        if pressed {
            self.button_status = self.button_status | button.mask();
        } else {
            self.button_status = self.button_status & !button.mask();
        }
    }
}

} // verus!
