//! Core of a Nintendo Entertainment System emulator: the 6502 CPU, the PPU,
//! the memory bus and the cartridge mappers.
pub mod bus;
pub mod cpu;
pub mod emulator;
pub mod mapper;
pub mod ppu;
pub mod utils;

use vstd::prelude::*;

verus! {

/// The errors of the emulator core.
#[derive(Debug, Clone, Copy, PartialEq, Eq, Structural)]
pub enum NesError {
    /// The file is not an iNES image, or is shorter than its header says.
    MalformedRom,
    /// The header names a mapper this core does not implement.
    UnsupportedMapper(u8),
    /// The CPU met an opcode it does not execute.
    IllegalOpcode { pc: u16, opcode: u8, cycle: u64 },
    /// An access to a region that no component owns.
    UnmappedAccess(u16),
}

} // verus!
