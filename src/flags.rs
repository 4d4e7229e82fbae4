//! The processor's status register as a small bitset.

use vstd::prelude::*;

verus! {

/// One named bit of the processor status register.
#[derive(Clone, Copy, Debug, PartialEq, Eq, Structural)]
pub enum Flag {
    Carry,
    Zero,
    InterruptDisable,
    DecimalMode,
    Break4,
    Break5,
    Overflow,
    Negative,
}

impl Flag {
    pub open spec fn spec_mask(self) -> u8 {
        match self {
            Flag::Carry => 0x01,
            Flag::Zero => 0x02,
            Flag::InterruptDisable => 0x04,
            Flag::DecimalMode => 0x08,
            Flag::Break4 => 0x10,
            Flag::Break5 => 0x20,
            Flag::Overflow => 0x40,
            Flag::Negative => 0x80,
        }
    }

    /// The single bit that this flag occupies.
    #[verifier::when_used_as_spec(spec_mask)]
    pub fn mask(self) -> (r: u8)
        ensures
            r == self.spec_mask(),
    {
        match self {
            Flag::Carry => 0x01,
            Flag::Zero => 0x02,
            Flag::InterruptDisable => 0x04,
            Flag::DecimalMode => 0x08,
            Flag::Break4 => 0x10,
            Flag::Break5 => 0x20,
            Flag::Overflow => 0x40,
            Flag::Negative => 0x80,
        }
    }
}

/// The status register: eight flag bits held as one byte.
#[derive(Clone, Copy, Debug, PartialEq, Eq, Structural)]
pub struct CPUFlags {
    pub bits: u8,
}

/// `bits` with `mask` set when `on` holds, cleared otherwise.
pub open spec fn with_bit(bits: u8, mask: u8, on: bool) -> u8 {
    if on {
        bits | mask
    } else {
        bits & !mask
    }
}

impl CPUFlags {
    pub const CARRY: Flag = Flag::Carry;
    pub const ZERO: Flag = Flag::Zero;
    pub const INTERRUPT_DISABLE: Flag = Flag::InterruptDisable;
    pub const DECIMAL_MODE: Flag = Flag::DecimalMode;
    pub const BREAK_COMMAND_4: Flag = Flag::Break4;
    pub const BREAK_COMMAND_5: Flag = Flag::Break5;
    pub const OVERFLOW: Flag = Flag::Overflow;
    pub const NEGATIVE: Flag = Flag::Negative;

    /// Every byte is a valid flag set: all eight bits are named.
    pub fn from_bits_truncate(bits: u8) -> (r: CPUFlags)
        ensures
            r.bits == bits,
    {
        CPUFlags { bits }
    }

    pub fn bits(&self) -> (r: u8)
        ensures
            r == self.bits,
    {
        self.bits
    }

    pub open spec fn spec_contains(&self, flag: Flag) -> bool {
        self.bits & flag.spec_mask() != 0
    }

    #[verifier::when_used_as_spec(spec_contains)]
    pub fn contains(&self, flag: Flag) -> (r: bool)
        ensures
            r == self.spec_contains(flag),
    {
        self.bits & flag.mask() != 0
    }

    pub fn insert(&mut self, flag: Flag)
        ensures
            final(self).bits == old(self).bits | flag.spec_mask(),
    {
        self.bits = self.bits | flag.mask();
    }

    pub fn remove(&mut self, flag: Flag)
        ensures
            final(self).bits == old(self).bits & !flag.spec_mask(),
    {
        self.bits = self.bits & !flag.mask();
    }

    pub fn set(&mut self, flag: Flag, on: bool)
        ensures
            final(self).bits == with_bit(old(self).bits, flag.spec_mask(), on),
    {
        if on {
            self.insert(flag);
        } else {
            self.remove(flag);
        }
    }
}

} // verus!
