use vstd::prelude::*;

verus! {

/// Status-register bit masks.
pub const CARRY: u8 = 0x01;
pub const ZERO: u8 = 0x02;
pub const INTERRUPT_DISABLE: u8 = 0x04;
pub const DECIMAL: u8 = 0x08;
pub const BREAK: u8 = 0x10;
pub const UNUSED: u8 = 0x20;
pub const OVERFLOW: u8 = 0x40;
pub const NEGATIVE: u8 = 0x80;

/// The 6502 registers.
#[derive(Debug, Clone, Copy, PartialEq, Eq, Structural)]
pub struct Registers {
    pub a: u8,
    pub x: u8,
    pub y: u8,
    pub pc: u16,
    /// Stack pointer; the stack lives at `$0100 + sp`.
    pub sp: u8,
    /// Status: C, Z, I, D, B, U, V, N in bits 0 to 7.
    pub p: u8,
}

/// The flags of the status register.
#[derive(Debug, Clone, Copy, PartialEq, Eq, Structural)]
pub enum StatusFlags {
    Carry,
    Zero,
    InterruptDisable,
    DecimalMode,
    BreakCommand,
    Unused,
    Overflow,
    Negative,
}

pub open spec fn flag_mask(flag: StatusFlags) -> u8 {
    match flag {
        StatusFlags::Carry => CARRY,
        StatusFlags::Zero => ZERO,
        StatusFlags::InterruptDisable => INTERRUPT_DISABLE,
        StatusFlags::DecimalMode => DECIMAL,
        StatusFlags::BreakCommand => BREAK,
        StatusFlags::Unused => UNUSED,
        StatusFlags::Overflow => OVERFLOW,
        StatusFlags::Negative => NEGATIVE,
    }
}

/// Computes `flag_mask`.
pub fn mask_of(flag: StatusFlags) -> (r: u8)
    ensures
        r == flag_mask(flag),
{
    match flag {
        StatusFlags::Carry => CARRY,
        StatusFlags::Zero => ZERO,
        StatusFlags::InterruptDisable => INTERRUPT_DISABLE,
        StatusFlags::DecimalMode => DECIMAL,
        StatusFlags::BreakCommand => BREAK,
        StatusFlags::Unused => UNUSED,
        StatusFlags::Overflow => OVERFLOW,
        StatusFlags::Negative => NEGATIVE,
    }
}

/// `p` with the bits of `mask` set or cleared.
pub open spec fn with_flag(p: u8, mask: u8, on: bool) -> u8 {
    if on {
        p | mask
    } else {
        p & !mask
    }
}

impl Default for Registers {
    /// The state the registers start in: `PC = $C000`, `S = $FD`, `P = $24`.
    fn default() -> (r: Self)
        ensures
            r == (Registers { a: 0, x: 0, y: 0, pc: 0xC000, sp: 0xFD, p: 0x24 }),
    {
        Registers { a: 0, x: 0, y: 0, pc: 0xC000, sp: 0xFD, p: 0x24 }
    }
}

impl Registers {
    pub fn set_flag(&mut self, flag: StatusFlags, value: bool)
        ensures
            *final(self) == (Registers { p: with_flag(old(self).p, flag_mask(flag), value), ..*old(self) }),
    {
        let mask = mask_of(flag);
        if value {
            self.p = self.p | mask;
        } else {
            self.p = self.p & !mask;
        }
    }

    pub fn get_flag(&self, flag: StatusFlags) -> (r: bool)
        ensures
            r == (self.p & flag_mask(flag) != 0),
    {
        self.p & mask_of(flag) != 0
    }
}

} // verus!
