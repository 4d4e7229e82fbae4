//! The video unit's small registers.

use vstd::prelude::*;

verus! {

/// The two-write latch through which the processor sets the video address.
#[derive(Clone, Copy, Debug)]
pub struct AddressRegister {
    /// High byte, low byte.
    pub value: (u8, u8),
    /// Whether the next write goes to the high byte.
    pub hi_ptr: bool,
}

impl AddressRegister {
    pub open spec fn spec_get(self) -> u16 {
        ((self.value.0 as u16) * 256 + self.value.1 as u16) as u16
    }

    /// The address folded into the 14-bit video address space.
    pub open spec fn mirrored(self) -> AddressRegister {
        if self.spec_get() > 0x3FFF {
            AddressRegister { value: ((self.value.0 % 64) as u8, self.value.1), ..self }
        } else {
            self
        }
    }

    pub open spec fn spec_update(self, data: u8) -> AddressRegister {
        let written = if self.hi_ptr {
            AddressRegister { value: (data, self.value.1), ..self }
        } else {
            AddressRegister { value: (self.value.0, data), ..self }
        };
        AddressRegister { hi_ptr: !self.hi_ptr, ..written.mirrored() }
    }

    pub open spec fn spec_increment(self, step: u8) -> AddressRegister {
        let lo = ((self.value.1 as int + step as int) % 256) as u8;
        let hi = if (self.value.1 as int + step as int) >= 256 {
            ((self.value.0 as int + 1) % 256) as u8
        } else {
            self.value.0
        };
        AddressRegister { value: (hi, lo), ..self }.mirrored()
    }

    pub fn new() -> (r: AddressRegister)
        ensures
            r.value == (0u8, 0u8),
            r.hi_ptr,
    {
        AddressRegister { value: (0, 0), hi_ptr: true }
    }

    pub fn set(&mut self, data: u16)
        ensures
            final(self).spec_get() == data,
            final(self).hi_ptr == old(self).hi_ptr,
    {
        self.value.0 = (data / 256) as u8;
        self.value.1 = (data % 256) as u8;
    }

    pub fn get(&self) -> (r: u16)
        ensures
            r == self.spec_get(),
    {
        (self.value.0 as u16) * 256 + self.value.1 as u16
    }

    fn mirror_down(&mut self)
        ensures
            *final(self) == old(self).mirrored(),
    {
        if self.get() > 0x3FFF {
            self.value.0 = self.value.0 % 64;
        }
    }

    /// Writes the next half of the address, high byte first.
    pub fn update(&mut self, data: u8)
        ensures
            *final(self) == old(self).spec_update(data),
    {
        if self.hi_ptr {
            self.value.0 = data;
        } else {
            self.value.1 = data;
        }
        self.mirror_down();
        self.hi_ptr = !self.hi_ptr;
    }

    /// Advances the address by `step`, carrying into the high byte.
    pub fn increment(&mut self, step: u8)
        ensures
            *final(self) == old(self).spec_increment(step),
    {
        let lo = self.value.1;
        self.value.1 = self.value.1.wrapping_add(step);
        if lo > self.value.1 {
            self.value.0 = self.value.0.wrapping_add(1);
        }
        self.mirror_down();
    }

    /// The next write goes to the high byte again.
    pub fn reset_latch(&mut self)
        ensures
            *final(self) == (AddressRegister { hi_ptr: true, ..*old(self) }),
    {
        self.hi_ptr = true;
    }
}

impl Default for AddressRegister {
    fn default() -> (r: AddressRegister)
        ensures
            r.value == (0u8, 0u8),
            !r.hi_ptr,
    {
        AddressRegister { value: (0, 0), hi_ptr: false }
    }
}

/// The video unit's control register.
#[derive(Clone, Copy, Debug, PartialEq, Eq, Structural)]
pub struct ControlRegister {
    pub bits: u8,
}

pub const CTRL_VRAM_ADD_INCREMENT: u8 = 0b0000_0100;
pub const CTRL_BG_PATTERN_ADDR: u8 = 0b0001_0000;
pub const CTRL_GENERATE_NMI: u8 = 0b1000_0000;

impl ControlRegister {
    pub open spec fn nmi_enabled(self) -> bool {
        self.bits & CTRL_GENERATE_NMI != 0
    }

    pub open spec fn vram_step(self) -> u8 {
        if self.bits & CTRL_VRAM_ADD_INCREMENT != 0 { 32 } else { 1 }
    }

    pub fn new() -> (r: ControlRegister)
        ensures
            r.bits == 0,
    {
        ControlRegister { bits: 0 }
    }

    /// Whether every bit of `mask` is set.
    pub fn is_flag_set(&self, mask: u8) -> (r: bool)
        ensures
            r == (self.bits & mask == mask),
    {
        self.bits & mask == mask
    }

    pub fn update(&mut self, data: u8)
        ensures
            final(self).bits == data,
    {
        self.bits = data;
    }

    /// How far the video address moves after each data access: across (1) or down (32).
    pub fn get_vram_addr_increment(&self) -> (r: u8)
        ensures
            r == self.vram_step(),
    {
        if self.bits & CTRL_VRAM_ADD_INCREMENT != 0 { 32 } else { 1 }
    }

    pub fn should_generate_vblank_nmi(&self) -> (r: bool)
        ensures
            r == self.nmi_enabled(),
    {
        self.bits & CTRL_GENERATE_NMI != 0
    }

    pub fn background_pattern_address(&self) -> (r: u16)
        ensures
            r == (if self.bits & CTRL_BG_PATTERN_ADDR != 0 { 0x1000u16 } else { 0u16 }),
    {
        if self.bits & CTRL_BG_PATTERN_ADDR != 0 { 0x1000 } else { 0 }
    }
}

/// The video unit's mask register.
#[derive(Clone, Copy, Debug, PartialEq, Eq, Structural)]
pub struct MaskRegister {
    pub bits: u8,
}

impl MaskRegister {
    pub fn new() -> (r: MaskRegister)
        ensures
            r.bits == 0,
    {
        MaskRegister { bits: 0 }
    }

    pub fn update(&mut self, data: u8)
        ensures
            final(self).bits == data,
    {
        self.bits = data;
    }

    pub fn grayscale(&self) -> (r: bool)
        ensures
            r == (self.bits & 1 != 0),
    {
        self.bits & 1 != 0
    }
}

/// The video unit's status register; bit 7 is the vblank flag.
#[derive(Clone, Copy, Debug, PartialEq, Eq, Structural)]
pub struct StatusRegister {
    pub bits: u8,
}

pub const STATUS_VBLANK_STARTED: u8 = 0b1000_0000;

impl StatusRegister {
    pub open spec fn in_vblank(self) -> bool {
        self.bits & STATUS_VBLANK_STARTED != 0
    }

    pub open spec fn with_vblank(self, on: bool) -> StatusRegister {
        StatusRegister { bits: if on { self.bits | STATUS_VBLANK_STARTED } else { self.bits & 0x7F } }
    }

    pub fn new() -> (r: StatusRegister)
        ensures
            r.bits == 0,
    {
        StatusRegister { bits: 0 }
    }

    pub fn set_vblank_status(&mut self, value: bool)
        ensures
            *final(self) == old(self).with_vblank(value),
    {
        if value {
            self.bits = self.bits | STATUS_VBLANK_STARTED;
        } else {
            self.bits = self.bits & 0x7F;
        }
    }

    pub fn reset_vblank_status(&mut self)
        ensures
            *final(self) == old(self).with_vblank(false),
    {
        self.bits = self.bits & 0x7F;
    }

    pub fn is_in_vblank(&self) -> (r: bool)
        ensures
            r == self.in_vblank(),
    {
        self.bits & STATUS_VBLANK_STARTED != 0
    }
}

} // verus!
