//! The shared memory bus and the memories it owns.
pub mod apu_io_registers;
pub mod bus;
pub mod cpu_ram;
pub mod nametable;
pub mod oam;
pub mod palettes;
pub mod registers;
pub mod vram;
