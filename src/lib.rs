//! Core of a cartridge-based 8-bit console emulator: the processor, the
//! memory bus, the cartridge mappers and the video timing unit.

pub mod flags;
pub mod instructions;
pub mod mem;
pub mod rom;
pub mod mappers;
pub mod registers;
pub mod ppu;
pub mod gamepad;
pub mod bus;
pub mod cpu;
pub mod laws;
pub mod text;
pub mod trace;
