use vstd::prelude::*;

verus! {

/// The 6502 addressing modes.
#[derive(Debug, PartialEq, Eq, Clone, Copy, Structural)]
pub enum AddressingMode {
    Implied,
    Accumulator,
    Immediate,
    Absolute,
    AbsoluteX,
    AbsoluteY,
    ZeroPage,
    ZeroPageX,
    ZeroPageY,
    Indirect,
    IndirectX,
    IndirectY,
    Relative,
}

/// Length in bytes of an instruction in a mode, opcode included.
pub open spec fn mode_len(mode: AddressingMode) -> u8 {
    match mode {
        AddressingMode::Implied | AddressingMode::Accumulator => 1,
        AddressingMode::Absolute | AddressingMode::AbsoluteX | AddressingMode::AbsoluteY
        | AddressingMode::Indirect => 3,
        _ => 2,
    }
}

/// Computes `mode_len`.
pub fn operand_size_of(mode: AddressingMode) -> (r: u8)
    ensures
        r == mode_len(mode),
{
    match mode {
        AddressingMode::Implied | AddressingMode::Accumulator => 1,
        AddressingMode::Absolute | AddressingMode::AbsoluteX | AddressingMode::AbsoluteY
        | AddressingMode::Indirect => 3,
        _ => 2,
    }
}

} // verus!
