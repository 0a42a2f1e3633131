//! The 6502 CPU.
pub mod addressing_modes;
pub mod instructions;
pub mod registers;
pub mod semantics;
pub mod cpu;
pub mod disassembler;
