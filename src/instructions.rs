//! The instruction table: for each opcode byte, its mnemonic, length in
//! bytes, base cycle cost and addressing mode.

use vstd::prelude::*;

verus! {

/// How an instruction finds its operand.
#[derive(Clone, Copy, Debug, PartialEq, Eq, Structural)]
pub enum AddressingMode {
    ZeroPage,
    ZeroPageX,
    ZeroPageY,
    Absolute,
    AbsoluteX,
    AbsoluteY,
    Indirect,
    IndirectX,
    IndirectY,
    Immediate,
    Implied,
    Relative,
    Accumulator,
}

/// One row of the instruction table.
pub struct Instruction {
    pub opcode: u8,
    pub ins: &'static str,
    pub bytes: u8,
    pub cycles: u8,
    pub addressing_mode: AddressingMode,
}

/// What the table says of an opcode, apart from its mnemonic.
#[derive(Clone, Copy, Debug, PartialEq, Eq, Structural)]
pub struct OpcodeInfo {
    pub bytes: u8,
    pub cycles: u8,
    pub mode: AddressingMode,
}

impl Instruction {
    pub fn new(opcode: u8, ins: &'static str, bytes: u8, cycles: u8, addressing_mode: AddressingMode) -> (r: Instruction)
        ensures
            r.opcode == opcode,
            r.ins == ins,
            r.bytes == bytes,
            r.cycles == cycles,
            r.addressing_mode == addressing_mode,
    {
        Instruction { opcode, ins, bytes, cycles, addressing_mode }
    }

    /// The table's entry for this row, without the mnemonic.
    pub open spec fn info(&self) -> OpcodeInfo {
        OpcodeInfo { bytes: self.bytes, cycles: self.cycles, mode: self.addressing_mode }
    }
}


/// The instruction table: `None` for an opcode that the processor does not implement.
#[verifier::opaque]
pub open spec fn opcode_info(opcode: u8) -> Option<OpcodeInfo> {
    match opcode >> 4u8 {
        0 => opcode_info_row_0(opcode),
        1 => opcode_info_row_1(opcode),
        2 => opcode_info_row_2(opcode),
        3 => opcode_info_row_3(opcode),
        4 => opcode_info_row_4(opcode),
        5 => opcode_info_row_5(opcode),
        6 => opcode_info_row_6(opcode),
        7 => opcode_info_row_7(opcode),
        8 => opcode_info_row_8(opcode),
        9 => opcode_info_row_9(opcode),
        10 => opcode_info_row_a(opcode),
        11 => opcode_info_row_b(opcode),
        12 => opcode_info_row_c(opcode),
        13 => opcode_info_row_d(opcode),
        14 => opcode_info_row_e(opcode),
        15 => opcode_info_row_f(opcode),
        _ => None,
    }
}

pub open spec fn opcode_info_row_0(opcode: u8) -> Option<OpcodeInfo> {
    match opcode {
        0x00 => Some(OpcodeInfo { bytes: 1, cycles: 7, mode: AddressingMode::Implied }),
        0x01 => Some(OpcodeInfo { bytes: 2, cycles: 6, mode: AddressingMode::IndirectX }),
        0x03 => Some(OpcodeInfo { bytes: 2, cycles: 8, mode: AddressingMode::IndirectX }),
        0x04 => Some(OpcodeInfo { bytes: 2, cycles: 3, mode: AddressingMode::ZeroPage }),
        0x05 => Some(OpcodeInfo { bytes: 2, cycles: 3, mode: AddressingMode::ZeroPage }),
        0x06 => Some(OpcodeInfo { bytes: 2, cycles: 5, mode: AddressingMode::ZeroPage }),
        0x07 => Some(OpcodeInfo { bytes: 2, cycles: 5, mode: AddressingMode::ZeroPage }),
        0x08 => Some(OpcodeInfo { bytes: 1, cycles: 3, mode: AddressingMode::Implied }),
        0x09 => Some(OpcodeInfo { bytes: 2, cycles: 2, mode: AddressingMode::Immediate }),
        0x0A => Some(OpcodeInfo { bytes: 1, cycles: 2, mode: AddressingMode::Accumulator }),
        0x0C => Some(OpcodeInfo { bytes: 3, cycles: 4, mode: AddressingMode::Absolute }),
        0x0D => Some(OpcodeInfo { bytes: 3, cycles: 4, mode: AddressingMode::Absolute }),
        0x0E => Some(OpcodeInfo { bytes: 3, cycles: 6, mode: AddressingMode::Absolute }),
        0x0F => Some(OpcodeInfo { bytes: 3, cycles: 6, mode: AddressingMode::Absolute }),
        _ => None,
    }
}

pub open spec fn opcode_info_row_1(opcode: u8) -> Option<OpcodeInfo> {
    match opcode {
        0x10 => Some(OpcodeInfo { bytes: 2, cycles: 2, mode: AddressingMode::Relative }),
        0x11 => Some(OpcodeInfo { bytes: 2, cycles: 5, mode: AddressingMode::IndirectY }),
        0x13 => Some(OpcodeInfo { bytes: 2, cycles: 8, mode: AddressingMode::IndirectY }),
        0x14 => Some(OpcodeInfo { bytes: 2, cycles: 4, mode: AddressingMode::ZeroPageX }),
        0x15 => Some(OpcodeInfo { bytes: 2, cycles: 4, mode: AddressingMode::ZeroPageX }),
        0x16 => Some(OpcodeInfo { bytes: 2, cycles: 6, mode: AddressingMode::ZeroPageX }),
        0x17 => Some(OpcodeInfo { bytes: 2, cycles: 6, mode: AddressingMode::ZeroPageX }),
        0x18 => Some(OpcodeInfo { bytes: 1, cycles: 2, mode: AddressingMode::Implied }),
        0x19 => Some(OpcodeInfo { bytes: 3, cycles: 4, mode: AddressingMode::AbsoluteY }),
        0x1A => Some(OpcodeInfo { bytes: 1, cycles: 2, mode: AddressingMode::Implied }),
        0x1B => Some(OpcodeInfo { bytes: 3, cycles: 7, mode: AddressingMode::AbsoluteY }),
        0x1C => Some(OpcodeInfo { bytes: 3, cycles: 4, mode: AddressingMode::AbsoluteX }),
        0x1D => Some(OpcodeInfo { bytes: 3, cycles: 4, mode: AddressingMode::AbsoluteX }),
        0x1E => Some(OpcodeInfo { bytes: 3, cycles: 7, mode: AddressingMode::AbsoluteX }),
        0x1F => Some(OpcodeInfo { bytes: 3, cycles: 7, mode: AddressingMode::AbsoluteX }),
        _ => None,
    }
}

pub open spec fn opcode_info_row_2(opcode: u8) -> Option<OpcodeInfo> {
    match opcode {
        0x20 => Some(OpcodeInfo { bytes: 3, cycles: 6, mode: AddressingMode::Absolute }),
        0x21 => Some(OpcodeInfo { bytes: 2, cycles: 6, mode: AddressingMode::IndirectX }),
        0x23 => Some(OpcodeInfo { bytes: 2, cycles: 8, mode: AddressingMode::IndirectX }),
        0x24 => Some(OpcodeInfo { bytes: 2, cycles: 3, mode: AddressingMode::ZeroPage }),
        0x25 => Some(OpcodeInfo { bytes: 2, cycles: 3, mode: AddressingMode::ZeroPage }),
        0x26 => Some(OpcodeInfo { bytes: 2, cycles: 5, mode: AddressingMode::ZeroPage }),
        0x27 => Some(OpcodeInfo { bytes: 2, cycles: 5, mode: AddressingMode::ZeroPage }),
        0x28 => Some(OpcodeInfo { bytes: 1, cycles: 4, mode: AddressingMode::Implied }),
        0x29 => Some(OpcodeInfo { bytes: 2, cycles: 2, mode: AddressingMode::Immediate }),
        0x2A => Some(OpcodeInfo { bytes: 1, cycles: 2, mode: AddressingMode::Accumulator }),
        0x2C => Some(OpcodeInfo { bytes: 3, cycles: 4, mode: AddressingMode::Absolute }),
        0x2D => Some(OpcodeInfo { bytes: 3, cycles: 4, mode: AddressingMode::Absolute }),
        0x2E => Some(OpcodeInfo { bytes: 3, cycles: 6, mode: AddressingMode::Absolute }),
        0x2F => Some(OpcodeInfo { bytes: 3, cycles: 6, mode: AddressingMode::Absolute }),
        _ => None,
    }
}

pub open spec fn opcode_info_row_3(opcode: u8) -> Option<OpcodeInfo> {
    match opcode {
        0x30 => Some(OpcodeInfo { bytes: 2, cycles: 2, mode: AddressingMode::Relative }),
        0x31 => Some(OpcodeInfo { bytes: 2, cycles: 5, mode: AddressingMode::IndirectY }),
        0x33 => Some(OpcodeInfo { bytes: 2, cycles: 8, mode: AddressingMode::IndirectY }),
        0x34 => Some(OpcodeInfo { bytes: 2, cycles: 4, mode: AddressingMode::ZeroPageX }),
        0x35 => Some(OpcodeInfo { bytes: 2, cycles: 4, mode: AddressingMode::ZeroPageX }),
        0x36 => Some(OpcodeInfo { bytes: 2, cycles: 6, mode: AddressingMode::ZeroPageX }),
        0x37 => Some(OpcodeInfo { bytes: 2, cycles: 6, mode: AddressingMode::ZeroPageX }),
        0x38 => Some(OpcodeInfo { bytes: 1, cycles: 2, mode: AddressingMode::Implied }),
        0x39 => Some(OpcodeInfo { bytes: 3, cycles: 4, mode: AddressingMode::AbsoluteY }),
        0x3A => Some(OpcodeInfo { bytes: 1, cycles: 2, mode: AddressingMode::Implied }),
        0x3B => Some(OpcodeInfo { bytes: 3, cycles: 7, mode: AddressingMode::AbsoluteY }),
        0x3C => Some(OpcodeInfo { bytes: 3, cycles: 4, mode: AddressingMode::AbsoluteX }),
        0x3D => Some(OpcodeInfo { bytes: 3, cycles: 4, mode: AddressingMode::AbsoluteX }),
        0x3E => Some(OpcodeInfo { bytes: 3, cycles: 7, mode: AddressingMode::AbsoluteX }),
        0x3F => Some(OpcodeInfo { bytes: 3, cycles: 7, mode: AddressingMode::AbsoluteX }),
        _ => None,
    }
}

pub open spec fn opcode_info_row_4(opcode: u8) -> Option<OpcodeInfo> {
    match opcode {
        0x40 => Some(OpcodeInfo { bytes: 1, cycles: 6, mode: AddressingMode::Implied }),
        0x41 => Some(OpcodeInfo { bytes: 2, cycles: 6, mode: AddressingMode::IndirectX }),
        0x43 => Some(OpcodeInfo { bytes: 2, cycles: 8, mode: AddressingMode::IndirectX }),
        0x44 => Some(OpcodeInfo { bytes: 2, cycles: 3, mode: AddressingMode::ZeroPage }),
        0x45 => Some(OpcodeInfo { bytes: 2, cycles: 3, mode: AddressingMode::ZeroPage }),
        0x46 => Some(OpcodeInfo { bytes: 2, cycles: 5, mode: AddressingMode::ZeroPage }),
        0x47 => Some(OpcodeInfo { bytes: 2, cycles: 5, mode: AddressingMode::ZeroPage }),
        0x48 => Some(OpcodeInfo { bytes: 1, cycles: 3, mode: AddressingMode::Implied }),
        0x49 => Some(OpcodeInfo { bytes: 2, cycles: 2, mode: AddressingMode::Immediate }),
        0x4A => Some(OpcodeInfo { bytes: 1, cycles: 2, mode: AddressingMode::Accumulator }),
        0x4C => Some(OpcodeInfo { bytes: 3, cycles: 3, mode: AddressingMode::Absolute }),
        0x4D => Some(OpcodeInfo { bytes: 3, cycles: 4, mode: AddressingMode::Absolute }),
        0x4E => Some(OpcodeInfo { bytes: 3, cycles: 6, mode: AddressingMode::Absolute }),
        0x4F => Some(OpcodeInfo { bytes: 3, cycles: 6, mode: AddressingMode::Absolute }),
        _ => None,
    }
}

pub open spec fn opcode_info_row_5(opcode: u8) -> Option<OpcodeInfo> {
    match opcode {
        0x50 => Some(OpcodeInfo { bytes: 2, cycles: 2, mode: AddressingMode::Relative }),
        0x51 => Some(OpcodeInfo { bytes: 2, cycles: 5, mode: AddressingMode::IndirectY }),
        0x53 => Some(OpcodeInfo { bytes: 2, cycles: 8, mode: AddressingMode::IndirectY }),
        0x54 => Some(OpcodeInfo { bytes: 2, cycles: 4, mode: AddressingMode::ZeroPageX }),
        0x55 => Some(OpcodeInfo { bytes: 2, cycles: 4, mode: AddressingMode::ZeroPageX }),
        0x56 => Some(OpcodeInfo { bytes: 2, cycles: 6, mode: AddressingMode::ZeroPageX }),
        0x57 => Some(OpcodeInfo { bytes: 2, cycles: 6, mode: AddressingMode::ZeroPageX }),
        0x58 => Some(OpcodeInfo { bytes: 1, cycles: 2, mode: AddressingMode::Implied }),
        0x59 => Some(OpcodeInfo { bytes: 3, cycles: 4, mode: AddressingMode::AbsoluteY }),
        0x5A => Some(OpcodeInfo { bytes: 1, cycles: 2, mode: AddressingMode::Implied }),
        0x5B => Some(OpcodeInfo { bytes: 3, cycles: 7, mode: AddressingMode::AbsoluteY }),
        0x5C => Some(OpcodeInfo { bytes: 3, cycles: 4, mode: AddressingMode::AbsoluteX }),
        0x5D => Some(OpcodeInfo { bytes: 3, cycles: 4, mode: AddressingMode::AbsoluteX }),
        0x5E => Some(OpcodeInfo { bytes: 3, cycles: 7, mode: AddressingMode::AbsoluteX }),
        0x5F => Some(OpcodeInfo { bytes: 3, cycles: 7, mode: AddressingMode::AbsoluteX }),
        _ => None,
    }
}

pub open spec fn opcode_info_row_6(opcode: u8) -> Option<OpcodeInfo> {
    match opcode {
        0x60 => Some(OpcodeInfo { bytes: 1, cycles: 6, mode: AddressingMode::Implied }),
        0x61 => Some(OpcodeInfo { bytes: 2, cycles: 6, mode: AddressingMode::IndirectX }),
        0x63 => Some(OpcodeInfo { bytes: 2, cycles: 8, mode: AddressingMode::IndirectX }),
        0x64 => Some(OpcodeInfo { bytes: 2, cycles: 3, mode: AddressingMode::ZeroPage }),
        0x65 => Some(OpcodeInfo { bytes: 2, cycles: 3, mode: AddressingMode::ZeroPage }),
        0x66 => Some(OpcodeInfo { bytes: 2, cycles: 5, mode: AddressingMode::ZeroPage }),
        0x67 => Some(OpcodeInfo { bytes: 2, cycles: 5, mode: AddressingMode::ZeroPage }),
        0x68 => Some(OpcodeInfo { bytes: 1, cycles: 4, mode: AddressingMode::Implied }),
        0x69 => Some(OpcodeInfo { bytes: 2, cycles: 2, mode: AddressingMode::Immediate }),
        0x6A => Some(OpcodeInfo { bytes: 1, cycles: 2, mode: AddressingMode::Accumulator }),
        0x6C => Some(OpcodeInfo { bytes: 3, cycles: 5, mode: AddressingMode::Indirect }),
        0x6D => Some(OpcodeInfo { bytes: 3, cycles: 4, mode: AddressingMode::Absolute }),
        0x6E => Some(OpcodeInfo { bytes: 3, cycles: 6, mode: AddressingMode::Absolute }),
        0x6F => Some(OpcodeInfo { bytes: 3, cycles: 6, mode: AddressingMode::Absolute }),
        _ => None,
    }
}

pub open spec fn opcode_info_row_7(opcode: u8) -> Option<OpcodeInfo> {
    match opcode {
        0x70 => Some(OpcodeInfo { bytes: 2, cycles: 2, mode: AddressingMode::Relative }),
        0x71 => Some(OpcodeInfo { bytes: 2, cycles: 5, mode: AddressingMode::IndirectY }),
        0x73 => Some(OpcodeInfo { bytes: 2, cycles: 8, mode: AddressingMode::IndirectY }),
        0x74 => Some(OpcodeInfo { bytes: 2, cycles: 4, mode: AddressingMode::ZeroPageX }),
        0x75 => Some(OpcodeInfo { bytes: 2, cycles: 4, mode: AddressingMode::ZeroPageX }),
        0x76 => Some(OpcodeInfo { bytes: 2, cycles: 6, mode: AddressingMode::ZeroPageX }),
        0x77 => Some(OpcodeInfo { bytes: 2, cycles: 6, mode: AddressingMode::ZeroPageX }),
        0x78 => Some(OpcodeInfo { bytes: 1, cycles: 2, mode: AddressingMode::Implied }),
        0x79 => Some(OpcodeInfo { bytes: 3, cycles: 4, mode: AddressingMode::AbsoluteY }),
        0x7A => Some(OpcodeInfo { bytes: 1, cycles: 2, mode: AddressingMode::Implied }),
        0x7B => Some(OpcodeInfo { bytes: 3, cycles: 7, mode: AddressingMode::AbsoluteY }),
        0x7C => Some(OpcodeInfo { bytes: 3, cycles: 4, mode: AddressingMode::AbsoluteX }),
        0x7D => Some(OpcodeInfo { bytes: 3, cycles: 4, mode: AddressingMode::AbsoluteX }),
        0x7E => Some(OpcodeInfo { bytes: 3, cycles: 7, mode: AddressingMode::AbsoluteX }),
        0x7F => Some(OpcodeInfo { bytes: 3, cycles: 7, mode: AddressingMode::AbsoluteX }),
        _ => None,
    }
}

pub open spec fn opcode_info_row_8(opcode: u8) -> Option<OpcodeInfo> {
    match opcode {
        0x80 => Some(OpcodeInfo { bytes: 2, cycles: 2, mode: AddressingMode::Immediate }),
        0x81 => Some(OpcodeInfo { bytes: 2, cycles: 6, mode: AddressingMode::IndirectX }),
        0x83 => Some(OpcodeInfo { bytes: 2, cycles: 6, mode: AddressingMode::IndirectX }),
        0x84 => Some(OpcodeInfo { bytes: 2, cycles: 3, mode: AddressingMode::ZeroPage }),
        0x85 => Some(OpcodeInfo { bytes: 2, cycles: 3, mode: AddressingMode::ZeroPage }),
        0x86 => Some(OpcodeInfo { bytes: 2, cycles: 3, mode: AddressingMode::ZeroPage }),
        0x87 => Some(OpcodeInfo { bytes: 2, cycles: 3, mode: AddressingMode::ZeroPage }),
        0x88 => Some(OpcodeInfo { bytes: 1, cycles: 2, mode: AddressingMode::Implied }),
        0x8A => Some(OpcodeInfo { bytes: 1, cycles: 2, mode: AddressingMode::Implied }),
        0x8C => Some(OpcodeInfo { bytes: 3, cycles: 4, mode: AddressingMode::Absolute }),
        0x8D => Some(OpcodeInfo { bytes: 3, cycles: 4, mode: AddressingMode::Absolute }),
        0x8E => Some(OpcodeInfo { bytes: 3, cycles: 4, mode: AddressingMode::Absolute }),
        0x8F => Some(OpcodeInfo { bytes: 3, cycles: 4, mode: AddressingMode::Absolute }),
        _ => None,
    }
}

pub open spec fn opcode_info_row_9(opcode: u8) -> Option<OpcodeInfo> {
    match opcode {
        0x90 => Some(OpcodeInfo { bytes: 2, cycles: 2, mode: AddressingMode::Relative }),
        0x91 => Some(OpcodeInfo { bytes: 2, cycles: 6, mode: AddressingMode::IndirectY }),
        0x94 => Some(OpcodeInfo { bytes: 2, cycles: 4, mode: AddressingMode::ZeroPageX }),
        0x95 => Some(OpcodeInfo { bytes: 2, cycles: 4, mode: AddressingMode::ZeroPageX }),
        0x96 => Some(OpcodeInfo { bytes: 2, cycles: 4, mode: AddressingMode::ZeroPageY }),
        0x97 => Some(OpcodeInfo { bytes: 2, cycles: 4, mode: AddressingMode::ZeroPageY }),
        0x98 => Some(OpcodeInfo { bytes: 1, cycles: 2, mode: AddressingMode::Implied }),
        0x99 => Some(OpcodeInfo { bytes: 3, cycles: 5, mode: AddressingMode::AbsoluteY }),
        0x9A => Some(OpcodeInfo { bytes: 1, cycles: 2, mode: AddressingMode::Implied }),
        0x9D => Some(OpcodeInfo { bytes: 3, cycles: 5, mode: AddressingMode::AbsoluteX }),
        _ => None,
    }
}

pub open spec fn opcode_info_row_a(opcode: u8) -> Option<OpcodeInfo> {
    match opcode {
        0xA0 => Some(OpcodeInfo { bytes: 2, cycles: 2, mode: AddressingMode::Immediate }),
        0xA1 => Some(OpcodeInfo { bytes: 2, cycles: 6, mode: AddressingMode::IndirectX }),
        0xA2 => Some(OpcodeInfo { bytes: 2, cycles: 2, mode: AddressingMode::Immediate }),
        0xA3 => Some(OpcodeInfo { bytes: 2, cycles: 6, mode: AddressingMode::IndirectX }),
        0xA4 => Some(OpcodeInfo { bytes: 2, cycles: 3, mode: AddressingMode::ZeroPage }),
        0xA5 => Some(OpcodeInfo { bytes: 2, cycles: 3, mode: AddressingMode::ZeroPage }),
        0xA6 => Some(OpcodeInfo { bytes: 2, cycles: 3, mode: AddressingMode::ZeroPage }),
        0xA7 => Some(OpcodeInfo { bytes: 2, cycles: 3, mode: AddressingMode::ZeroPage }),
        0xA8 => Some(OpcodeInfo { bytes: 1, cycles: 2, mode: AddressingMode::Implied }),
        0xA9 => Some(OpcodeInfo { bytes: 2, cycles: 2, mode: AddressingMode::Immediate }),
        0xAA => Some(OpcodeInfo { bytes: 1, cycles: 2, mode: AddressingMode::Implied }),
        0xAC => Some(OpcodeInfo { bytes: 3, cycles: 4, mode: AddressingMode::Absolute }),
        0xAD => Some(OpcodeInfo { bytes: 3, cycles: 4, mode: AddressingMode::Absolute }),
        0xAE => Some(OpcodeInfo { bytes: 3, cycles: 4, mode: AddressingMode::Absolute }),
        0xAF => Some(OpcodeInfo { bytes: 3, cycles: 4, mode: AddressingMode::Absolute }),
        _ => None,
    }
}

pub open spec fn opcode_info_row_b(opcode: u8) -> Option<OpcodeInfo> {
    match opcode {
        0xB0 => Some(OpcodeInfo { bytes: 2, cycles: 2, mode: AddressingMode::Relative }),
        0xB1 => Some(OpcodeInfo { bytes: 2, cycles: 5, mode: AddressingMode::IndirectY }),
        0xB3 => Some(OpcodeInfo { bytes: 2, cycles: 5, mode: AddressingMode::IndirectY }),
        0xB4 => Some(OpcodeInfo { bytes: 2, cycles: 4, mode: AddressingMode::ZeroPageX }),
        0xB5 => Some(OpcodeInfo { bytes: 2, cycles: 4, mode: AddressingMode::ZeroPageX }),
        0xB6 => Some(OpcodeInfo { bytes: 2, cycles: 4, mode: AddressingMode::ZeroPageY }),
        0xB7 => Some(OpcodeInfo { bytes: 2, cycles: 4, mode: AddressingMode::ZeroPageY }),
        0xB8 => Some(OpcodeInfo { bytes: 1, cycles: 2, mode: AddressingMode::Implied }),
        0xB9 => Some(OpcodeInfo { bytes: 3, cycles: 4, mode: AddressingMode::AbsoluteY }),
        0xBA => Some(OpcodeInfo { bytes: 1, cycles: 2, mode: AddressingMode::Implied }),
        0xBC => Some(OpcodeInfo { bytes: 3, cycles: 4, mode: AddressingMode::AbsoluteX }),
        0xBD => Some(OpcodeInfo { bytes: 3, cycles: 4, mode: AddressingMode::AbsoluteX }),
        0xBE => Some(OpcodeInfo { bytes: 3, cycles: 4, mode: AddressingMode::AbsoluteY }),
        0xBF => Some(OpcodeInfo { bytes: 3, cycles: 5, mode: AddressingMode::AbsoluteY }),
        _ => None,
    }
}

pub open spec fn opcode_info_row_c(opcode: u8) -> Option<OpcodeInfo> {
    match opcode {
        0xC0 => Some(OpcodeInfo { bytes: 2, cycles: 2, mode: AddressingMode::Immediate }),
        0xC1 => Some(OpcodeInfo { bytes: 2, cycles: 6, mode: AddressingMode::IndirectX }),
        0xC3 => Some(OpcodeInfo { bytes: 2, cycles: 6, mode: AddressingMode::IndirectX }),
        0xC4 => Some(OpcodeInfo { bytes: 2, cycles: 3, mode: AddressingMode::ZeroPage }),
        0xC5 => Some(OpcodeInfo { bytes: 2, cycles: 3, mode: AddressingMode::ZeroPage }),
        0xC6 => Some(OpcodeInfo { bytes: 2, cycles: 5, mode: AddressingMode::ZeroPage }),
        0xC7 => Some(OpcodeInfo { bytes: 2, cycles: 3, mode: AddressingMode::ZeroPage }),
        0xC8 => Some(OpcodeInfo { bytes: 1, cycles: 2, mode: AddressingMode::Implied }),
        0xC9 => Some(OpcodeInfo { bytes: 2, cycles: 2, mode: AddressingMode::Immediate }),
        0xCA => Some(OpcodeInfo { bytes: 1, cycles: 2, mode: AddressingMode::Implied }),
        0xCC => Some(OpcodeInfo { bytes: 3, cycles: 4, mode: AddressingMode::Absolute }),
        0xCD => Some(OpcodeInfo { bytes: 3, cycles: 4, mode: AddressingMode::Absolute }),
        0xCE => Some(OpcodeInfo { bytes: 3, cycles: 6, mode: AddressingMode::Absolute }),
        0xCF => Some(OpcodeInfo { bytes: 3, cycles: 4, mode: AddressingMode::Absolute }),
        _ => None,
    }
}

pub open spec fn opcode_info_row_d(opcode: u8) -> Option<OpcodeInfo> {
    match opcode {
        0xD0 => Some(OpcodeInfo { bytes: 2, cycles: 2, mode: AddressingMode::Relative }),
        0xD1 => Some(OpcodeInfo { bytes: 2, cycles: 5, mode: AddressingMode::IndirectY }),
        0xD3 => Some(OpcodeInfo { bytes: 2, cycles: 5, mode: AddressingMode::IndirectY }),
        0xD4 => Some(OpcodeInfo { bytes: 2, cycles: 4, mode: AddressingMode::ZeroPageX }),
        0xD5 => Some(OpcodeInfo { bytes: 2, cycles: 4, mode: AddressingMode::ZeroPageX }),
        0xD6 => Some(OpcodeInfo { bytes: 2, cycles: 6, mode: AddressingMode::ZeroPageX }),
        0xD7 => Some(OpcodeInfo { bytes: 2, cycles: 4, mode: AddressingMode::ZeroPageX }),
        0xD8 => Some(OpcodeInfo { bytes: 1, cycles: 2, mode: AddressingMode::Implied }),
        0xD9 => Some(OpcodeInfo { bytes: 3, cycles: 4, mode: AddressingMode::AbsoluteY }),
        0xDA => Some(OpcodeInfo { bytes: 1, cycles: 2, mode: AddressingMode::Implied }),
        0xDB => Some(OpcodeInfo { bytes: 3, cycles: 4, mode: AddressingMode::AbsoluteY }),
        0xDC => Some(OpcodeInfo { bytes: 3, cycles: 4, mode: AddressingMode::AbsoluteX }),
        0xDD => Some(OpcodeInfo { bytes: 3, cycles: 4, mode: AddressingMode::AbsoluteX }),
        0xDE => Some(OpcodeInfo { bytes: 3, cycles: 7, mode: AddressingMode::AbsoluteX }),
        0xDF => Some(OpcodeInfo { bytes: 3, cycles: 4, mode: AddressingMode::AbsoluteX }),
        _ => None,
    }
}

pub open spec fn opcode_info_row_e(opcode: u8) -> Option<OpcodeInfo> {
    match opcode {
        0xE0 => Some(OpcodeInfo { bytes: 2, cycles: 2, mode: AddressingMode::Immediate }),
        0xE1 => Some(OpcodeInfo { bytes: 2, cycles: 6, mode: AddressingMode::IndirectX }),
        0xE3 => Some(OpcodeInfo { bytes: 2, cycles: 8, mode: AddressingMode::IndirectX }),
        0xE4 => Some(OpcodeInfo { bytes: 2, cycles: 3, mode: AddressingMode::ZeroPage }),
        0xE5 => Some(OpcodeInfo { bytes: 2, cycles: 3, mode: AddressingMode::ZeroPage }),
        0xE6 => Some(OpcodeInfo { bytes: 2, cycles: 5, mode: AddressingMode::ZeroPage }),
        0xE7 => Some(OpcodeInfo { bytes: 2, cycles: 5, mode: AddressingMode::ZeroPage }),
        0xE8 => Some(OpcodeInfo { bytes: 1, cycles: 2, mode: AddressingMode::Implied }),
        0xE9 => Some(OpcodeInfo { bytes: 2, cycles: 2, mode: AddressingMode::Immediate }),
        0xEA => Some(OpcodeInfo { bytes: 1, cycles: 2, mode: AddressingMode::Implied }),
        0xEB => Some(OpcodeInfo { bytes: 2, cycles: 2, mode: AddressingMode::Immediate }),
        0xEC => Some(OpcodeInfo { bytes: 3, cycles: 4, mode: AddressingMode::Absolute }),
        0xED => Some(OpcodeInfo { bytes: 3, cycles: 4, mode: AddressingMode::Absolute }),
        0xEE => Some(OpcodeInfo { bytes: 3, cycles: 6, mode: AddressingMode::Absolute }),
        0xEF => Some(OpcodeInfo { bytes: 3, cycles: 6, mode: AddressingMode::Absolute }),
        _ => None,
    }
}

pub open spec fn opcode_info_row_f(opcode: u8) -> Option<OpcodeInfo> {
    match opcode {
        0xF0 => Some(OpcodeInfo { bytes: 2, cycles: 2, mode: AddressingMode::Relative }),
        0xF1 => Some(OpcodeInfo { bytes: 2, cycles: 5, mode: AddressingMode::IndirectY }),
        0xF3 => Some(OpcodeInfo { bytes: 2, cycles: 8, mode: AddressingMode::IndirectY }),
        0xF4 => Some(OpcodeInfo { bytes: 2, cycles: 4, mode: AddressingMode::ZeroPageX }),
        0xF5 => Some(OpcodeInfo { bytes: 2, cycles: 4, mode: AddressingMode::ZeroPageX }),
        0xF6 => Some(OpcodeInfo { bytes: 2, cycles: 6, mode: AddressingMode::ZeroPageX }),
        0xF7 => Some(OpcodeInfo { bytes: 2, cycles: 6, mode: AddressingMode::ZeroPageX }),
        0xF8 => Some(OpcodeInfo { bytes: 1, cycles: 2, mode: AddressingMode::Implied }),
        0xF9 => Some(OpcodeInfo { bytes: 3, cycles: 4, mode: AddressingMode::AbsoluteY }),
        0xFA => Some(OpcodeInfo { bytes: 1, cycles: 2, mode: AddressingMode::Implied }),
        0xFB => Some(OpcodeInfo { bytes: 3, cycles: 7, mode: AddressingMode::AbsoluteY }),
        0xFC => Some(OpcodeInfo { bytes: 3, cycles: 4, mode: AddressingMode::AbsoluteX }),
        0xFD => Some(OpcodeInfo { bytes: 3, cycles: 4, mode: AddressingMode::AbsoluteX }),
        0xFE => Some(OpcodeInfo { bytes: 3, cycles: 7, mode: AddressingMode::AbsoluteX }),
        0xFF => Some(OpcodeInfo { bytes: 3, cycles: 7, mode: AddressingMode::AbsoluteX }),
        _ => None,
    }
}

/// The mnemonic that the table gives an opcode (empty for one it lacks).
#[verifier::opaque]
pub open spec fn mnemonic_of(opcode: u8) -> Seq<char> {
    match opcode >> 4u8 {
        0 => mnemonic_row_0(opcode),
        1 => mnemonic_row_1(opcode),
        2 => mnemonic_row_2(opcode),
        3 => mnemonic_row_3(opcode),
        4 => mnemonic_row_4(opcode),
        5 => mnemonic_row_5(opcode),
        6 => mnemonic_row_6(opcode),
        7 => mnemonic_row_7(opcode),
        8 => mnemonic_row_8(opcode),
        9 => mnemonic_row_9(opcode),
        10 => mnemonic_row_a(opcode),
        11 => mnemonic_row_b(opcode),
        12 => mnemonic_row_c(opcode),
        13 => mnemonic_row_d(opcode),
        14 => mnemonic_row_e(opcode),
        15 => mnemonic_row_f(opcode),
        _ => Seq::empty(),
    }
}

pub open spec fn mnemonic_row_0(opcode: u8) -> Seq<char> {
    match opcode {
        0x00 => "BRK"@,
        0x01 => "ORA"@,
        0x03 => "*SLO"@,
        0x04 => "*NOP"@,
        0x05 => "ORA"@,
        0x06 => "ASL"@,
        0x07 => "*SLO"@,
        0x08 => "PHP"@,
        0x09 => "ORA"@,
        0x0A => "ASL"@,
        0x0C => "*NOP"@,
        0x0D => "ORA"@,
        0x0E => "ASL"@,
        0x0F => "*SLO"@,
        _ => Seq::empty(),
    }
}

pub open spec fn mnemonic_row_1(opcode: u8) -> Seq<char> {
    match opcode {
        0x10 => "BPL"@,
        0x11 => "ORA"@,
        0x13 => "*SLO"@,
        0x14 => "*NOP"@,
        0x15 => "ORA"@,
        0x16 => "ASL"@,
        0x17 => "*SLO"@,
        0x18 => "CLC"@,
        0x19 => "ORA"@,
        0x1A => "*NOP"@,
        0x1B => "*SLO"@,
        0x1C => "*NOP"@,
        0x1D => "ORA"@,
        0x1E => "ASL"@,
        0x1F => "*SLO"@,
        _ => Seq::empty(),
    }
}

pub open spec fn mnemonic_row_2(opcode: u8) -> Seq<char> {
    match opcode {
        0x20 => "JSR"@,
        0x21 => "AND"@,
        0x23 => "*RLA"@,
        0x24 => "BIT"@,
        0x25 => "AND"@,
        0x26 => "ROL"@,
        0x27 => "*RLA"@,
        0x28 => "PLP"@,
        0x29 => "AND"@,
        0x2A => "ROL"@,
        0x2C => "BIT"@,
        0x2D => "AND"@,
        0x2E => "ROL"@,
        0x2F => "*RLA"@,
        _ => Seq::empty(),
    }
}

pub open spec fn mnemonic_row_3(opcode: u8) -> Seq<char> {
    match opcode {
        0x30 => "BMI"@,
        0x31 => "AND"@,
        0x33 => "*RLA"@,
        0x34 => "*NOP"@,
        0x35 => "AND"@,
        0x36 => "ROL"@,
        0x37 => "*RLA"@,
        0x38 => "SEC"@,
        0x39 => "AND"@,
        0x3A => "*NOP"@,
        0x3B => "*RLA"@,
        0x3C => "*NOP"@,
        0x3D => "AND"@,
        0x3E => "ROL"@,
        0x3F => "*RLA"@,
        _ => Seq::empty(),
    }
}

pub open spec fn mnemonic_row_4(opcode: u8) -> Seq<char> {
    match opcode {
        0x40 => "RTI"@,
        0x41 => "EOR"@,
        0x43 => "*SRE"@,
        0x44 => "*NOP"@,
        0x45 => "EOR"@,
        0x46 => "LSR"@,
        0x47 => "*SRE"@,
        0x48 => "PHA"@,
        0x49 => "EOR"@,
        0x4A => "LSR"@,
        0x4C => "JMP"@,
        0x4D => "EOR"@,
        0x4E => "LSR"@,
        0x4F => "*SRE"@,
        _ => Seq::empty(),
    }
}

pub open spec fn mnemonic_row_5(opcode: u8) -> Seq<char> {
    match opcode {
        0x50 => "BVC"@,
        0x51 => "EOR"@,
        0x53 => "*SRE"@,
        0x54 => "*NOP"@,
        0x55 => "EOR"@,
        0x56 => "LSR"@,
        0x57 => "*SRE"@,
        0x58 => "CLI"@,
        0x59 => "EOR"@,
        0x5A => "*NOP"@,
        0x5B => "*SRE"@,
        0x5C => "*NOP"@,
        0x5D => "EOR"@,
        0x5E => "LSR"@,
        0x5F => "*SRE"@,
        _ => Seq::empty(),
    }
}

pub open spec fn mnemonic_row_6(opcode: u8) -> Seq<char> {
    match opcode {
        0x60 => "RTS"@,
        0x61 => "ADC"@,
        0x63 => "*RRA"@,
        0x64 => "*NOP"@,
        0x65 => "ADC"@,
        0x66 => "ROR"@,
        0x67 => "*RRA"@,
        0x68 => "PLA"@,
        0x69 => "ADC"@,
        0x6A => "ROR"@,
        0x6C => "JMP"@,
        0x6D => "ADC"@,
        0x6E => "ROR"@,
        0x6F => "*RRA"@,
        _ => Seq::empty(),
    }
}

pub open spec fn mnemonic_row_7(opcode: u8) -> Seq<char> {
    match opcode {
        0x70 => "BVS"@,
        0x71 => "ADC"@,
        0x73 => "*RRA"@,
        0x74 => "*NOP"@,
        0x75 => "ADC"@,
        0x76 => "ROR"@,
        0x77 => "*RRA"@,
        0x78 => "SEI"@,
        0x79 => "ADC"@,
        0x7A => "*NOP"@,
        0x7B => "*RRA"@,
        0x7C => "*NOP"@,
        0x7D => "ADC"@,
        0x7E => "ROR"@,
        0x7F => "*RRA"@,
        _ => Seq::empty(),
    }
}

pub open spec fn mnemonic_row_8(opcode: u8) -> Seq<char> {
    match opcode {
        0x80 => "*NOP"@,
        0x81 => "STA"@,
        0x83 => "*SAX"@,
        0x84 => "STY"@,
        0x85 => "STA"@,
        0x86 => "STX"@,
        0x87 => "*SAX"@,
        0x88 => "DEY"@,
        0x8A => "TXA"@,
        0x8C => "STY"@,
        0x8D => "STA"@,
        0x8E => "STX"@,
        0x8F => "*SAX"@,
        _ => Seq::empty(),
    }
}

pub open spec fn mnemonic_row_9(opcode: u8) -> Seq<char> {
    match opcode {
        0x90 => "BCC"@,
        0x91 => "STA"@,
        0x94 => "STY"@,
        0x95 => "STA"@,
        0x96 => "STX"@,
        0x97 => "*SAX"@,
        0x98 => "TYA"@,
        0x99 => "STA"@,
        0x9A => "TXS"@,
        0x9D => "STA"@,
        _ => Seq::empty(),
    }
}

pub open spec fn mnemonic_row_a(opcode: u8) -> Seq<char> {
    match opcode {
        0xA0 => "LDY"@,
        0xA1 => "LDA"@,
        0xA2 => "LDX"@,
        0xA3 => "*LAX"@,
        0xA4 => "LDY"@,
        0xA5 => "LDA"@,
        0xA6 => "LDX"@,
        0xA7 => "*LAX"@,
        0xA8 => "TAY"@,
        0xA9 => "LDA"@,
        0xAA => "TAX"@,
        0xAC => "LDY"@,
        0xAD => "LDA"@,
        0xAE => "LDX"@,
        0xAF => "*LAX"@,
        _ => Seq::empty(),
    }
}

pub open spec fn mnemonic_row_b(opcode: u8) -> Seq<char> {
    match opcode {
        0xB0 => "BCS"@,
        0xB1 => "LDA"@,
        0xB3 => "*LAX"@,
        0xB4 => "LDY"@,
        0xB5 => "LDA"@,
        0xB6 => "LDX"@,
        0xB7 => "*LAX"@,
        0xB8 => "CLV"@,
        0xB9 => "LDA"@,
        0xBA => "TSX"@,
        0xBC => "LDY"@,
        0xBD => "LDA"@,
        0xBE => "LDX"@,
        0xBF => "*LAX"@,
        _ => Seq::empty(),
    }
}

pub open spec fn mnemonic_row_c(opcode: u8) -> Seq<char> {
    match opcode {
        0xC0 => "CPY"@,
        0xC1 => "CMP"@,
        0xC3 => "*DCP"@,
        0xC4 => "CPY"@,
        0xC5 => "CMP"@,
        0xC6 => "DEC"@,
        0xC7 => "*DCP"@,
        0xC8 => "INY"@,
        0xC9 => "CMP"@,
        0xCA => "DEX"@,
        0xCC => "CPY"@,
        0xCD => "CMP"@,
        0xCE => "DEC"@,
        0xCF => "*DCP"@,
        _ => Seq::empty(),
    }
}

pub open spec fn mnemonic_row_d(opcode: u8) -> Seq<char> {
    match opcode {
        0xD0 => "BNE"@,
        0xD1 => "CMP"@,
        0xD3 => "*DCP"@,
        0xD4 => "*NOP"@,
        0xD5 => "CMP"@,
        0xD6 => "DEC"@,
        0xD7 => "*DCP"@,
        0xD8 => "CLD"@,
        0xD9 => "CMP"@,
        0xDA => "*NOP"@,
        0xDB => "*DCP"@,
        0xDC => "*NOP"@,
        0xDD => "CMP"@,
        0xDE => "DEC"@,
        0xDF => "*DCP"@,
        _ => Seq::empty(),
    }
}

pub open spec fn mnemonic_row_e(opcode: u8) -> Seq<char> {
    match opcode {
        0xE0 => "CPX"@,
        0xE1 => "SBC"@,
        0xE3 => "*ISB"@,
        0xE4 => "CPX"@,
        0xE5 => "SBC"@,
        0xE6 => "INC"@,
        0xE7 => "*ISB"@,
        0xE8 => "INX"@,
        0xE9 => "SBC"@,
        0xEA => "NOP"@,
        0xEB => "*SBC"@,
        0xEC => "CPX"@,
        0xED => "SBC"@,
        0xEE => "INC"@,
        0xEF => "*ISB"@,
        _ => Seq::empty(),
    }
}

pub open spec fn mnemonic_row_f(opcode: u8) -> Seq<char> {
    match opcode {
        0xF0 => "BEQ"@,
        0xF1 => "SBC"@,
        0xF3 => "*ISB"@,
        0xF4 => "*NOP"@,
        0xF5 => "SBC"@,
        0xF6 => "INC"@,
        0xF7 => "*ISB"@,
        0xF8 => "SED"@,
        0xF9 => "SBC"@,
        0xFA => "*NOP"@,
        0xFB => "*ISB"@,
        0xFC => "*NOP"@,
        0xFD => "SBC"@,
        0xFE => "INC"@,
        0xFF => "*ISB"@,
        _ => Seq::empty(),
    }
}

/// Looks an opcode up in the instruction table.
pub fn lookup(opcode: u8) -> (r: Option<Instruction>)
    ensures
        match opcode_info(opcode) {
            None => r is None,
            Some(info) => r is Some && r->0.opcode == opcode && r->0.info() == info,
        },
        r matches Some(i) ==> i.ins@ == mnemonic_of(opcode),
{
    proof {
        reveal(opcode_info);
        reveal(mnemonic_of);
    }
    let row: u8 = opcode >> 4u8;
    assert(row < 16) by (bit_vector)
        requires
            row == opcode >> 4u8,
    ;
    match row {
        0 => lookup_row_0(opcode),
        1 => lookup_row_1(opcode),
        2 => lookup_row_2(opcode),
        3 => lookup_row_3(opcode),
        4 => lookup_row_4(opcode),
        5 => lookup_row_5(opcode),
        6 => lookup_row_6(opcode),
        7 => lookup_row_7(opcode),
        8 => lookup_row_8(opcode),
        9 => lookup_row_9(opcode),
        10 => lookup_row_a(opcode),
        11 => lookup_row_b(opcode),
        12 => lookup_row_c(opcode),
        13 => lookup_row_d(opcode),
        14 => lookup_row_e(opcode),
        15 => lookup_row_f(opcode),
        _ => None,
    }
}

fn lookup_row_0(opcode: u8) -> (r: Option<Instruction>)
    ensures
        match opcode_info_row_0(opcode) {
            None => r is None,
            Some(info) => r is Some && r->0.opcode == opcode && r->0.info() == info,
        },
        r matches Some(i) ==> i.ins@ == mnemonic_row_0(opcode),
{
    match opcode {
        0x00 => Some(Instruction::new(0x00, "BRK", 1, 7, AddressingMode::Implied)),
        0x01 => Some(Instruction::new(0x01, "ORA", 2, 6, AddressingMode::IndirectX)),
        0x03 => Some(Instruction::new(0x03, "*SLO", 2, 8, AddressingMode::IndirectX)),
        0x04 => Some(Instruction::new(0x04, "*NOP", 2, 3, AddressingMode::ZeroPage)),
        0x05 => Some(Instruction::new(0x05, "ORA", 2, 3, AddressingMode::ZeroPage)),
        0x06 => Some(Instruction::new(0x06, "ASL", 2, 5, AddressingMode::ZeroPage)),
        0x07 => Some(Instruction::new(0x07, "*SLO", 2, 5, AddressingMode::ZeroPage)),
        0x08 => Some(Instruction::new(0x08, "PHP", 1, 3, AddressingMode::Implied)),
        0x09 => Some(Instruction::new(0x09, "ORA", 2, 2, AddressingMode::Immediate)),
        0x0A => Some(Instruction::new(0x0A, "ASL", 1, 2, AddressingMode::Accumulator)),
        0x0C => Some(Instruction::new(0x0C, "*NOP", 3, 4, AddressingMode::Absolute)),
        0x0D => Some(Instruction::new(0x0D, "ORA", 3, 4, AddressingMode::Absolute)),
        0x0E => Some(Instruction::new(0x0E, "ASL", 3, 6, AddressingMode::Absolute)),
        0x0F => Some(Instruction::new(0x0F, "*SLO", 3, 6, AddressingMode::Absolute)),
        _ => None,
    }
}

fn lookup_row_1(opcode: u8) -> (r: Option<Instruction>)
    ensures
        match opcode_info_row_1(opcode) {
            None => r is None,
            Some(info) => r is Some && r->0.opcode == opcode && r->0.info() == info,
        },
        r matches Some(i) ==> i.ins@ == mnemonic_row_1(opcode),
{
    match opcode {
        0x10 => Some(Instruction::new(0x10, "BPL", 2, 2, AddressingMode::Relative)),
        0x11 => Some(Instruction::new(0x11, "ORA", 2, 5, AddressingMode::IndirectY)),
        0x13 => Some(Instruction::new(0x13, "*SLO", 2, 8, AddressingMode::IndirectY)),
        0x14 => Some(Instruction::new(0x14, "*NOP", 2, 4, AddressingMode::ZeroPageX)),
        0x15 => Some(Instruction::new(0x15, "ORA", 2, 4, AddressingMode::ZeroPageX)),
        0x16 => Some(Instruction::new(0x16, "ASL", 2, 6, AddressingMode::ZeroPageX)),
        0x17 => Some(Instruction::new(0x17, "*SLO", 2, 6, AddressingMode::ZeroPageX)),
        0x18 => Some(Instruction::new(0x18, "CLC", 1, 2, AddressingMode::Implied)),
        0x19 => Some(Instruction::new(0x19, "ORA", 3, 4, AddressingMode::AbsoluteY)),
        0x1A => Some(Instruction::new(0x1A, "*NOP", 1, 2, AddressingMode::Implied)),
        0x1B => Some(Instruction::new(0x1B, "*SLO", 3, 7, AddressingMode::AbsoluteY)),
        0x1C => Some(Instruction::new(0x1C, "*NOP", 3, 4, AddressingMode::AbsoluteX)),
        0x1D => Some(Instruction::new(0x1D, "ORA", 3, 4, AddressingMode::AbsoluteX)),
        0x1E => Some(Instruction::new(0x1E, "ASL", 3, 7, AddressingMode::AbsoluteX)),
        0x1F => Some(Instruction::new(0x1F, "*SLO", 3, 7, AddressingMode::AbsoluteX)),
        _ => None,
    }
}

fn lookup_row_2(opcode: u8) -> (r: Option<Instruction>)
    ensures
        match opcode_info_row_2(opcode) {
            None => r is None,
            Some(info) => r is Some && r->0.opcode == opcode && r->0.info() == info,
        },
        r matches Some(i) ==> i.ins@ == mnemonic_row_2(opcode),
{
    match opcode {
        0x20 => Some(Instruction::new(0x20, "JSR", 3, 6, AddressingMode::Absolute)),
        0x21 => Some(Instruction::new(0x21, "AND", 2, 6, AddressingMode::IndirectX)),
        0x23 => Some(Instruction::new(0x23, "*RLA", 2, 8, AddressingMode::IndirectX)),
        0x24 => Some(Instruction::new(0x24, "BIT", 2, 3, AddressingMode::ZeroPage)),
        0x25 => Some(Instruction::new(0x25, "AND", 2, 3, AddressingMode::ZeroPage)),
        0x26 => Some(Instruction::new(0x26, "ROL", 2, 5, AddressingMode::ZeroPage)),
        0x27 => Some(Instruction::new(0x27, "*RLA", 2, 5, AddressingMode::ZeroPage)),
        0x28 => Some(Instruction::new(0x28, "PLP", 1, 4, AddressingMode::Implied)),
        0x29 => Some(Instruction::new(0x29, "AND", 2, 2, AddressingMode::Immediate)),
        0x2A => Some(Instruction::new(0x2A, "ROL", 1, 2, AddressingMode::Accumulator)),
        0x2C => Some(Instruction::new(0x2C, "BIT", 3, 4, AddressingMode::Absolute)),
        0x2D => Some(Instruction::new(0x2D, "AND", 3, 4, AddressingMode::Absolute)),
        0x2E => Some(Instruction::new(0x2E, "ROL", 3, 6, AddressingMode::Absolute)),
        0x2F => Some(Instruction::new(0x2F, "*RLA", 3, 6, AddressingMode::Absolute)),
        _ => None,
    }
}

fn lookup_row_3(opcode: u8) -> (r: Option<Instruction>)
    ensures
        match opcode_info_row_3(opcode) {
            None => r is None,
            Some(info) => r is Some && r->0.opcode == opcode && r->0.info() == info,
        },
        r matches Some(i) ==> i.ins@ == mnemonic_row_3(opcode),
{
    match opcode {
        0x30 => Some(Instruction::new(0x30, "BMI", 2, 2, AddressingMode::Relative)),
        0x31 => Some(Instruction::new(0x31, "AND", 2, 5, AddressingMode::IndirectY)),
        0x33 => Some(Instruction::new(0x33, "*RLA", 2, 8, AddressingMode::IndirectY)),
        0x34 => Some(Instruction::new(0x34, "*NOP", 2, 4, AddressingMode::ZeroPageX)),
        0x35 => Some(Instruction::new(0x35, "AND", 2, 4, AddressingMode::ZeroPageX)),
        0x36 => Some(Instruction::new(0x36, "ROL", 2, 6, AddressingMode::ZeroPageX)),
        0x37 => Some(Instruction::new(0x37, "*RLA", 2, 6, AddressingMode::ZeroPageX)),
        0x38 => Some(Instruction::new(0x38, "SEC", 1, 2, AddressingMode::Implied)),
        0x39 => Some(Instruction::new(0x39, "AND", 3, 4, AddressingMode::AbsoluteY)),
        0x3A => Some(Instruction::new(0x3A, "*NOP", 1, 2, AddressingMode::Implied)),
        0x3B => Some(Instruction::new(0x3B, "*RLA", 3, 7, AddressingMode::AbsoluteY)),
        0x3C => Some(Instruction::new(0x3C, "*NOP", 3, 4, AddressingMode::AbsoluteX)),
        0x3D => Some(Instruction::new(0x3D, "AND", 3, 4, AddressingMode::AbsoluteX)),
        0x3E => Some(Instruction::new(0x3E, "ROL", 3, 7, AddressingMode::AbsoluteX)),
        0x3F => Some(Instruction::new(0x3F, "*RLA", 3, 7, AddressingMode::AbsoluteX)),
        _ => None,
    }
}

fn lookup_row_4(opcode: u8) -> (r: Option<Instruction>)
    ensures
        match opcode_info_row_4(opcode) {
            None => r is None,
            Some(info) => r is Some && r->0.opcode == opcode && r->0.info() == info,
        },
        r matches Some(i) ==> i.ins@ == mnemonic_row_4(opcode),
{
    match opcode {
        0x40 => Some(Instruction::new(0x40, "RTI", 1, 6, AddressingMode::Implied)),
        0x41 => Some(Instruction::new(0x41, "EOR", 2, 6, AddressingMode::IndirectX)),
        0x43 => Some(Instruction::new(0x43, "*SRE", 2, 8, AddressingMode::IndirectX)),
        0x44 => Some(Instruction::new(0x44, "*NOP", 2, 3, AddressingMode::ZeroPage)),
        0x45 => Some(Instruction::new(0x45, "EOR", 2, 3, AddressingMode::ZeroPage)),
        0x46 => Some(Instruction::new(0x46, "LSR", 2, 5, AddressingMode::ZeroPage)),
        0x47 => Some(Instruction::new(0x47, "*SRE", 2, 5, AddressingMode::ZeroPage)),
        0x48 => Some(Instruction::new(0x48, "PHA", 1, 3, AddressingMode::Implied)),
        0x49 => Some(Instruction::new(0x49, "EOR", 2, 2, AddressingMode::Immediate)),
        0x4A => Some(Instruction::new(0x4A, "LSR", 1, 2, AddressingMode::Accumulator)),
        0x4C => Some(Instruction::new(0x4C, "JMP", 3, 3, AddressingMode::Absolute)),
        0x4D => Some(Instruction::new(0x4D, "EOR", 3, 4, AddressingMode::Absolute)),
        0x4E => Some(Instruction::new(0x4E, "LSR", 3, 6, AddressingMode::Absolute)),
        0x4F => Some(Instruction::new(0x4F, "*SRE", 3, 6, AddressingMode::Absolute)),
        _ => None,
    }
}

fn lookup_row_5(opcode: u8) -> (r: Option<Instruction>)
    ensures
        match opcode_info_row_5(opcode) {
            None => r is None,
            Some(info) => r is Some && r->0.opcode == opcode && r->0.info() == info,
        },
        r matches Some(i) ==> i.ins@ == mnemonic_row_5(opcode),
{
    match opcode {
        0x50 => Some(Instruction::new(0x50, "BVC", 2, 2, AddressingMode::Relative)),
        0x51 => Some(Instruction::new(0x51, "EOR", 2, 5, AddressingMode::IndirectY)),
        0x53 => Some(Instruction::new(0x53, "*SRE", 2, 8, AddressingMode::IndirectY)),
        0x54 => Some(Instruction::new(0x54, "*NOP", 2, 4, AddressingMode::ZeroPageX)),
        0x55 => Some(Instruction::new(0x55, "EOR", 2, 4, AddressingMode::ZeroPageX)),
        0x56 => Some(Instruction::new(0x56, "LSR", 2, 6, AddressingMode::ZeroPageX)),
        0x57 => Some(Instruction::new(0x57, "*SRE", 2, 6, AddressingMode::ZeroPageX)),
        0x58 => Some(Instruction::new(0x58, "CLI", 1, 2, AddressingMode::Implied)),
        0x59 => Some(Instruction::new(0x59, "EOR", 3, 4, AddressingMode::AbsoluteY)),
        0x5A => Some(Instruction::new(0x5A, "*NOP", 1, 2, AddressingMode::Implied)),
        0x5B => Some(Instruction::new(0x5B, "*SRE", 3, 7, AddressingMode::AbsoluteY)),
        0x5C => Some(Instruction::new(0x5C, "*NOP", 3, 4, AddressingMode::AbsoluteX)),
        0x5D => Some(Instruction::new(0x5D, "EOR", 3, 4, AddressingMode::AbsoluteX)),
        0x5E => Some(Instruction::new(0x5E, "LSR", 3, 7, AddressingMode::AbsoluteX)),
        0x5F => Some(Instruction::new(0x5F, "*SRE", 3, 7, AddressingMode::AbsoluteX)),
        _ => None,
    }
}

fn lookup_row_6(opcode: u8) -> (r: Option<Instruction>)
    ensures
        match opcode_info_row_6(opcode) {
            None => r is None,
            Some(info) => r is Some && r->0.opcode == opcode && r->0.info() == info,
        },
        r matches Some(i) ==> i.ins@ == mnemonic_row_6(opcode),
{
    match opcode {
        0x60 => Some(Instruction::new(0x60, "RTS", 1, 6, AddressingMode::Implied)),
        0x61 => Some(Instruction::new(0x61, "ADC", 2, 6, AddressingMode::IndirectX)),
        0x63 => Some(Instruction::new(0x63, "*RRA", 2, 8, AddressingMode::IndirectX)),
        0x64 => Some(Instruction::new(0x64, "*NOP", 2, 3, AddressingMode::ZeroPage)),
        0x65 => Some(Instruction::new(0x65, "ADC", 2, 3, AddressingMode::ZeroPage)),
        0x66 => Some(Instruction::new(0x66, "ROR", 2, 5, AddressingMode::ZeroPage)),
        0x67 => Some(Instruction::new(0x67, "*RRA", 2, 5, AddressingMode::ZeroPage)),
        0x68 => Some(Instruction::new(0x68, "PLA", 1, 4, AddressingMode::Implied)),
        0x69 => Some(Instruction::new(0x69, "ADC", 2, 2, AddressingMode::Immediate)),
        0x6A => Some(Instruction::new(0x6A, "ROR", 1, 2, AddressingMode::Accumulator)),
        0x6C => Some(Instruction::new(0x6C, "JMP", 3, 5, AddressingMode::Indirect)),
        0x6D => Some(Instruction::new(0x6D, "ADC", 3, 4, AddressingMode::Absolute)),
        0x6E => Some(Instruction::new(0x6E, "ROR", 3, 6, AddressingMode::Absolute)),
        0x6F => Some(Instruction::new(0x6F, "*RRA", 3, 6, AddressingMode::Absolute)),
        _ => None,
    }
}

fn lookup_row_7(opcode: u8) -> (r: Option<Instruction>)
    ensures
        match opcode_info_row_7(opcode) {
            None => r is None,
            Some(info) => r is Some && r->0.opcode == opcode && r->0.info() == info,
        },
        r matches Some(i) ==> i.ins@ == mnemonic_row_7(opcode),
{
    match opcode {
        0x70 => Some(Instruction::new(0x70, "BVS", 2, 2, AddressingMode::Relative)),
        0x71 => Some(Instruction::new(0x71, "ADC", 2, 5, AddressingMode::IndirectY)),
        0x73 => Some(Instruction::new(0x73, "*RRA", 2, 8, AddressingMode::IndirectY)),
        0x74 => Some(Instruction::new(0x74, "*NOP", 2, 4, AddressingMode::ZeroPageX)),
        0x75 => Some(Instruction::new(0x75, "ADC", 2, 4, AddressingMode::ZeroPageX)),
        0x76 => Some(Instruction::new(0x76, "ROR", 2, 6, AddressingMode::ZeroPageX)),
        0x77 => Some(Instruction::new(0x77, "*RRA", 2, 6, AddressingMode::ZeroPageX)),
        0x78 => Some(Instruction::new(0x78, "SEI", 1, 2, AddressingMode::Implied)),
        0x79 => Some(Instruction::new(0x79, "ADC", 3, 4, AddressingMode::AbsoluteY)),
        0x7A => Some(Instruction::new(0x7A, "*NOP", 1, 2, AddressingMode::Implied)),
        0x7B => Some(Instruction::new(0x7B, "*RRA", 3, 7, AddressingMode::AbsoluteY)),
        0x7C => Some(Instruction::new(0x7C, "*NOP", 3, 4, AddressingMode::AbsoluteX)),
        0x7D => Some(Instruction::new(0x7D, "ADC", 3, 4, AddressingMode::AbsoluteX)),
        0x7E => Some(Instruction::new(0x7E, "ROR", 3, 7, AddressingMode::AbsoluteX)),
        0x7F => Some(Instruction::new(0x7F, "*RRA", 3, 7, AddressingMode::AbsoluteX)),
        _ => None,
    }
}

fn lookup_row_8(opcode: u8) -> (r: Option<Instruction>)
    ensures
        match opcode_info_row_8(opcode) {
            None => r is None,
            Some(info) => r is Some && r->0.opcode == opcode && r->0.info() == info,
        },
        r matches Some(i) ==> i.ins@ == mnemonic_row_8(opcode),
{
    match opcode {
        0x80 => Some(Instruction::new(0x80, "*NOP", 2, 2, AddressingMode::Immediate)),
        0x81 => Some(Instruction::new(0x81, "STA", 2, 6, AddressingMode::IndirectX)),
        0x83 => Some(Instruction::new(0x83, "*SAX", 2, 6, AddressingMode::IndirectX)),
        0x84 => Some(Instruction::new(0x84, "STY", 2, 3, AddressingMode::ZeroPage)),
        0x85 => Some(Instruction::new(0x85, "STA", 2, 3, AddressingMode::ZeroPage)),
        0x86 => Some(Instruction::new(0x86, "STX", 2, 3, AddressingMode::ZeroPage)),
        0x87 => Some(Instruction::new(0x87, "*SAX", 2, 3, AddressingMode::ZeroPage)),
        0x88 => Some(Instruction::new(0x88, "DEY", 1, 2, AddressingMode::Implied)),
        0x8A => Some(Instruction::new(0x8A, "TXA", 1, 2, AddressingMode::Implied)),
        0x8C => Some(Instruction::new(0x8C, "STY", 3, 4, AddressingMode::Absolute)),
        0x8D => Some(Instruction::new(0x8D, "STA", 3, 4, AddressingMode::Absolute)),
        0x8E => Some(Instruction::new(0x8E, "STX", 3, 4, AddressingMode::Absolute)),
        0x8F => Some(Instruction::new(0x8F, "*SAX", 3, 4, AddressingMode::Absolute)),
        _ => None,
    }
}

fn lookup_row_9(opcode: u8) -> (r: Option<Instruction>)
    ensures
        match opcode_info_row_9(opcode) {
            None => r is None,
            Some(info) => r is Some && r->0.opcode == opcode && r->0.info() == info,
        },
        r matches Some(i) ==> i.ins@ == mnemonic_row_9(opcode),
{
    match opcode {
        0x90 => Some(Instruction::new(0x90, "BCC", 2, 2, AddressingMode::Relative)),
        0x91 => Some(Instruction::new(0x91, "STA", 2, 6, AddressingMode::IndirectY)),
        0x94 => Some(Instruction::new(0x94, "STY", 2, 4, AddressingMode::ZeroPageX)),
        0x95 => Some(Instruction::new(0x95, "STA", 2, 4, AddressingMode::ZeroPageX)),
        0x96 => Some(Instruction::new(0x96, "STX", 2, 4, AddressingMode::ZeroPageY)),
        0x97 => Some(Instruction::new(0x97, "*SAX", 2, 4, AddressingMode::ZeroPageY)),
        0x98 => Some(Instruction::new(0x98, "TYA", 1, 2, AddressingMode::Implied)),
        0x99 => Some(Instruction::new(0x99, "STA", 3, 5, AddressingMode::AbsoluteY)),
        0x9A => Some(Instruction::new(0x9A, "TXS", 1, 2, AddressingMode::Implied)),
        0x9D => Some(Instruction::new(0x9D, "STA", 3, 5, AddressingMode::AbsoluteX)),
        _ => None,
    }
}

fn lookup_row_a(opcode: u8) -> (r: Option<Instruction>)
    ensures
        match opcode_info_row_a(opcode) {
            None => r is None,
            Some(info) => r is Some && r->0.opcode == opcode && r->0.info() == info,
        },
        r matches Some(i) ==> i.ins@ == mnemonic_row_a(opcode),
{
    match opcode {
        0xA0 => Some(Instruction::new(0xA0, "LDY", 2, 2, AddressingMode::Immediate)),
        0xA1 => Some(Instruction::new(0xA1, "LDA", 2, 6, AddressingMode::IndirectX)),
        0xA2 => Some(Instruction::new(0xA2, "LDX", 2, 2, AddressingMode::Immediate)),
        0xA3 => Some(Instruction::new(0xA3, "*LAX", 2, 6, AddressingMode::IndirectX)),
        0xA4 => Some(Instruction::new(0xA4, "LDY", 2, 3, AddressingMode::ZeroPage)),
        0xA5 => Some(Instruction::new(0xA5, "LDA", 2, 3, AddressingMode::ZeroPage)),
        0xA6 => Some(Instruction::new(0xA6, "LDX", 2, 3, AddressingMode::ZeroPage)),
        0xA7 => Some(Instruction::new(0xA7, "*LAX", 2, 3, AddressingMode::ZeroPage)),
        0xA8 => Some(Instruction::new(0xA8, "TAY", 1, 2, AddressingMode::Implied)),
        0xA9 => Some(Instruction::new(0xA9, "LDA", 2, 2, AddressingMode::Immediate)),
        0xAA => Some(Instruction::new(0xAA, "TAX", 1, 2, AddressingMode::Implied)),
        0xAC => Some(Instruction::new(0xAC, "LDY", 3, 4, AddressingMode::Absolute)),
        0xAD => Some(Instruction::new(0xAD, "LDA", 3, 4, AddressingMode::Absolute)),
        0xAE => Some(Instruction::new(0xAE, "LDX", 3, 4, AddressingMode::Absolute)),
        0xAF => Some(Instruction::new(0xAF, "*LAX", 3, 4, AddressingMode::Absolute)),
        _ => None,
    }
}

fn lookup_row_b(opcode: u8) -> (r: Option<Instruction>)
    ensures
        match opcode_info_row_b(opcode) {
            None => r is None,
            Some(info) => r is Some && r->0.opcode == opcode && r->0.info() == info,
        },
        r matches Some(i) ==> i.ins@ == mnemonic_row_b(opcode),
{
    match opcode {
        0xB0 => Some(Instruction::new(0xB0, "BCS", 2, 2, AddressingMode::Relative)),
        0xB1 => Some(Instruction::new(0xB1, "LDA", 2, 5, AddressingMode::IndirectY)),
        0xB3 => Some(Instruction::new(0xB3, "*LAX", 2, 5, AddressingMode::IndirectY)),
        0xB4 => Some(Instruction::new(0xB4, "LDY", 2, 4, AddressingMode::ZeroPageX)),
        0xB5 => Some(Instruction::new(0xB5, "LDA", 2, 4, AddressingMode::ZeroPageX)),
        0xB6 => Some(Instruction::new(0xB6, "LDX", 2, 4, AddressingMode::ZeroPageY)),
        0xB7 => Some(Instruction::new(0xB7, "*LAX", 2, 4, AddressingMode::ZeroPageY)),
        0xB8 => Some(Instruction::new(0xB8, "CLV", 1, 2, AddressingMode::Implied)),
        0xB9 => Some(Instruction::new(0xB9, "LDA", 3, 4, AddressingMode::AbsoluteY)),
        0xBA => Some(Instruction::new(0xBA, "TSX", 1, 2, AddressingMode::Implied)),
        0xBC => Some(Instruction::new(0xBC, "LDY", 3, 4, AddressingMode::AbsoluteX)),
        0xBD => Some(Instruction::new(0xBD, "LDA", 3, 4, AddressingMode::AbsoluteX)),
        0xBE => Some(Instruction::new(0xBE, "LDX", 3, 4, AddressingMode::AbsoluteY)),
        0xBF => Some(Instruction::new(0xBF, "*LAX", 3, 5, AddressingMode::AbsoluteY)),
        _ => None,
    }
}

fn lookup_row_c(opcode: u8) -> (r: Option<Instruction>)
    ensures
        match opcode_info_row_c(opcode) {
            None => r is None,
            Some(info) => r is Some && r->0.opcode == opcode && r->0.info() == info,
        },
        r matches Some(i) ==> i.ins@ == mnemonic_row_c(opcode),
{
    match opcode {
        0xC0 => Some(Instruction::new(0xC0, "CPY", 2, 2, AddressingMode::Immediate)),
        0xC1 => Some(Instruction::new(0xC1, "CMP", 2, 6, AddressingMode::IndirectX)),
        0xC3 => Some(Instruction::new(0xC3, "*DCP", 2, 6, AddressingMode::IndirectX)),
        0xC4 => Some(Instruction::new(0xC4, "CPY", 2, 3, AddressingMode::ZeroPage)),
        0xC5 => Some(Instruction::new(0xC5, "CMP", 2, 3, AddressingMode::ZeroPage)),
        0xC6 => Some(Instruction::new(0xC6, "DEC", 2, 5, AddressingMode::ZeroPage)),
        0xC7 => Some(Instruction::new(0xC7, "*DCP", 2, 3, AddressingMode::ZeroPage)),
        0xC8 => Some(Instruction::new(0xC8, "INY", 1, 2, AddressingMode::Implied)),
        0xC9 => Some(Instruction::new(0xC9, "CMP", 2, 2, AddressingMode::Immediate)),
        0xCA => Some(Instruction::new(0xCA, "DEX", 1, 2, AddressingMode::Implied)),
        0xCC => Some(Instruction::new(0xCC, "CPY", 3, 4, AddressingMode::Absolute)),
        0xCD => Some(Instruction::new(0xCD, "CMP", 3, 4, AddressingMode::Absolute)),
        0xCE => Some(Instruction::new(0xCE, "DEC", 3, 6, AddressingMode::Absolute)),
        0xCF => Some(Instruction::new(0xCF, "*DCP", 3, 4, AddressingMode::Absolute)),
        _ => None,
    }
}

fn lookup_row_d(opcode: u8) -> (r: Option<Instruction>)
    ensures
        match opcode_info_row_d(opcode) {
            None => r is None,
            Some(info) => r is Some && r->0.opcode == opcode && r->0.info() == info,
        },
        r matches Some(i) ==> i.ins@ == mnemonic_row_d(opcode),
{
    match opcode {
        0xD0 => Some(Instruction::new(0xD0, "BNE", 2, 2, AddressingMode::Relative)),
        0xD1 => Some(Instruction::new(0xD1, "CMP", 2, 5, AddressingMode::IndirectY)),
        0xD3 => Some(Instruction::new(0xD3, "*DCP", 2, 5, AddressingMode::IndirectY)),
        0xD4 => Some(Instruction::new(0xD4, "*NOP", 2, 4, AddressingMode::ZeroPageX)),
        0xD5 => Some(Instruction::new(0xD5, "CMP", 2, 4, AddressingMode::ZeroPageX)),
        0xD6 => Some(Instruction::new(0xD6, "DEC", 2, 6, AddressingMode::ZeroPageX)),
        0xD7 => Some(Instruction::new(0xD7, "*DCP", 2, 4, AddressingMode::ZeroPageX)),
        0xD8 => Some(Instruction::new(0xD8, "CLD", 1, 2, AddressingMode::Implied)),
        0xD9 => Some(Instruction::new(0xD9, "CMP", 3, 4, AddressingMode::AbsoluteY)),
        0xDA => Some(Instruction::new(0xDA, "*NOP", 1, 2, AddressingMode::Implied)),
        0xDB => Some(Instruction::new(0xDB, "*DCP", 3, 4, AddressingMode::AbsoluteY)),
        0xDC => Some(Instruction::new(0xDC, "*NOP", 3, 4, AddressingMode::AbsoluteX)),
        0xDD => Some(Instruction::new(0xDD, "CMP", 3, 4, AddressingMode::AbsoluteX)),
        0xDE => Some(Instruction::new(0xDE, "DEC", 3, 7, AddressingMode::AbsoluteX)),
        0xDF => Some(Instruction::new(0xDF, "*DCP", 3, 4, AddressingMode::AbsoluteX)),
        _ => None,
    }
}

fn lookup_row_e(opcode: u8) -> (r: Option<Instruction>)
    ensures
        match opcode_info_row_e(opcode) {
            None => r is None,
            Some(info) => r is Some && r->0.opcode == opcode && r->0.info() == info,
        },
        r matches Some(i) ==> i.ins@ == mnemonic_row_e(opcode),
{
    match opcode {
        0xE0 => Some(Instruction::new(0xE0, "CPX", 2, 2, AddressingMode::Immediate)),
        0xE1 => Some(Instruction::new(0xE1, "SBC", 2, 6, AddressingMode::IndirectX)),
        0xE3 => Some(Instruction::new(0xE3, "*ISB", 2, 8, AddressingMode::IndirectX)),
        0xE4 => Some(Instruction::new(0xE4, "CPX", 2, 3, AddressingMode::ZeroPage)),
        0xE5 => Some(Instruction::new(0xE5, "SBC", 2, 3, AddressingMode::ZeroPage)),
        0xE6 => Some(Instruction::new(0xE6, "INC", 2, 5, AddressingMode::ZeroPage)),
        0xE7 => Some(Instruction::new(0xE7, "*ISB", 2, 5, AddressingMode::ZeroPage)),
        0xE8 => Some(Instruction::new(0xE8, "INX", 1, 2, AddressingMode::Implied)),
        0xE9 => Some(Instruction::new(0xE9, "SBC", 2, 2, AddressingMode::Immediate)),
        0xEA => Some(Instruction::new(0xEA, "NOP", 1, 2, AddressingMode::Implied)),
        0xEB => Some(Instruction::new(0xEB, "*SBC", 2, 2, AddressingMode::Immediate)),
        0xEC => Some(Instruction::new(0xEC, "CPX", 3, 4, AddressingMode::Absolute)),
        0xED => Some(Instruction::new(0xED, "SBC", 3, 4, AddressingMode::Absolute)),
        0xEE => Some(Instruction::new(0xEE, "INC", 3, 6, AddressingMode::Absolute)),
        0xEF => Some(Instruction::new(0xEF, "*ISB", 3, 6, AddressingMode::Absolute)),
        _ => None,
    }
}

fn lookup_row_f(opcode: u8) -> (r: Option<Instruction>)
    ensures
        match opcode_info_row_f(opcode) {
            None => r is None,
            Some(info) => r is Some && r->0.opcode == opcode && r->0.info() == info,
        },
        r matches Some(i) ==> i.ins@ == mnemonic_row_f(opcode),
{
    match opcode {
        0xF0 => Some(Instruction::new(0xF0, "BEQ", 2, 2, AddressingMode::Relative)),
        0xF1 => Some(Instruction::new(0xF1, "SBC", 2, 5, AddressingMode::IndirectY)),
        0xF3 => Some(Instruction::new(0xF3, "*ISB", 2, 8, AddressingMode::IndirectY)),
        0xF4 => Some(Instruction::new(0xF4, "*NOP", 2, 4, AddressingMode::ZeroPageX)),
        0xF5 => Some(Instruction::new(0xF5, "SBC", 2, 4, AddressingMode::ZeroPageX)),
        0xF6 => Some(Instruction::new(0xF6, "INC", 2, 6, AddressingMode::ZeroPageX)),
        0xF7 => Some(Instruction::new(0xF7, "*ISB", 2, 6, AddressingMode::ZeroPageX)),
        0xF8 => Some(Instruction::new(0xF8, "SED", 1, 2, AddressingMode::Implied)),
        0xF9 => Some(Instruction::new(0xF9, "SBC", 3, 4, AddressingMode::AbsoluteY)),
        0xFA => Some(Instruction::new(0xFA, "*NOP", 1, 2, AddressingMode::Implied)),
        0xFB => Some(Instruction::new(0xFB, "*ISB", 3, 7, AddressingMode::AbsoluteY)),
        0xFC => Some(Instruction::new(0xFC, "*NOP", 3, 4, AddressingMode::AbsoluteX)),
        0xFD => Some(Instruction::new(0xFD, "SBC", 3, 4, AddressingMode::AbsoluteX)),
        0xFE => Some(Instruction::new(0xFE, "INC", 3, 7, AddressingMode::AbsoluteX)),
        0xFF => Some(Instruction::new(0xFF, "*ISB", 3, 7, AddressingMode::AbsoluteX)),
        _ => None,
    }
}

} // verus!
