use vstd::prelude::*;
use crate::cpu::addressing_modes::{mode_len, operand_size_of, AddressingMode};

verus! {

/// How an instruction's cycle count can grow beyond the table's.
#[derive(Debug, PartialEq, Eq, Clone, Copy, Structural)]
pub enum InstructionType {
    /// Always the table's count.
    Common,
    /// One more cycle when an indexed read crosses a page.
    CrossingPage,
    /// One more cycle when taken, another when the target is on another page.
    Branch,
}

/// The 6502 mnemonics, the unofficial ones included.
#[derive(Debug, PartialEq, Eq, Clone, Copy, Structural)]
pub enum Instruction {
    LDA,
    LDX,
    LDY,
    BRK,
    SEI,
    NOP,
    DOP,
    TOP,
    PHP,
    BPL,
    CLC,
    ORA,
    STP,
    ASL,
    SLO,
    ROL,
    ANC,
    JSR,
    BIT,
    PLP,
    BMI,
    SEC,
    AND,
    RLA,
    RTI,
    PHA,
    JMP,
    BVC,
    CLI,
    EOR,
    LSR,
    SRE,
    RTS,
    PLA,
    BVS,
    ADC,
    ROR,
    RRA,
    STY,
    DEY,
    BCC,
    TYA,
    SHY,
    STA,
    STX,
    TXA,
    TXS,
    SHX,
    SAX,
    XAA,
    AHX,
    TAS,
    TAY,
    BCS,
    CLV,
    TAX,
    TSX,
    LAX,
    LAS,
    CPY,
    INY,
    BNE,
    CLD,
    CMP,
    DEC,
    DEX,
    DCP,
    AXS,
    CPX,
    INX,
    BEQ,
    SED,
    SBC,
    INC,
    ISC,
    ALR,
    ARR,
}

/// One entry of the decode table.
#[derive(Debug, PartialEq, Eq, Clone, Copy, Structural)]
pub struct InstructionInfo {
    pub operand_code: u8,
    pub instruction: Instruction,
    pub addressing_mode: AddressingMode,
    /// Length of the instruction in bytes, opcode included.
    pub operand_size: u8,
    /// Base cycle count.
    pub instruction_cycle: u8,
    pub instruction_type: InstructionType,
    pub unofficial: bool,
}

pub open spec fn is_branch(ins: Instruction) -> bool {
    matches!(ins, Instruction::BPL | Instruction::BMI | Instruction::BVC | Instruction::BVS
        | Instruction::BCC | Instruction::BCS | Instruction::BNE | Instruction::BEQ)
}

/// Instructions whose indexed reads cost a cycle more across a page.
pub open spec fn pays_page_cross(ins: Instruction, mode: AddressingMode) -> bool {
    &&& matches!(mode, AddressingMode::AbsoluteX | AddressingMode::AbsoluteY | AddressingMode::IndirectY)
    &&& matches!(ins, Instruction::ORA | Instruction::AND | Instruction::EOR | Instruction::ADC
        | Instruction::SBC | Instruction::CMP | Instruction::LDA | Instruction::LDX | Instruction::LDY
        | Instruction::LAX | Instruction::LAS | Instruction::NOP | Instruction::TOP)
}

pub open spec fn type_of(ins: Instruction, mode: AddressingMode) -> InstructionType {
    if is_branch(ins) {
        InstructionType::Branch
    } else if pays_page_cross(ins, mode) {
        InstructionType::CrossingPage
    } else {
        InstructionType::Common
    }
}

pub open spec fn info_of(
    op: u8,
    ins: Instruction,
    mode: AddressingMode,
    cycles: u8,
    unofficial: bool,
) -> InstructionInfo {
    InstructionInfo {
        operand_code: op,
        instruction: ins,
        addressing_mode: mode,
        operand_size: mode_len(mode),
        instruction_cycle: cycles,
        instruction_type: type_of(ins, mode),
        unofficial,
    }
}

fn make_info(op: u8, ins: Instruction, mode: AddressingMode, cycles: u8, unofficial: bool) -> (r:
    InstructionInfo)
    ensures
        r == info_of(op, ins, mode, cycles, unofficial),
{
    let branch = match ins {
        Instruction::BPL | Instruction::BMI | Instruction::BVC | Instruction::BVS
        | Instruction::BCC | Instruction::BCS | Instruction::BNE | Instruction::BEQ => true,
        _ => false,
    };
    let indexed = match mode {
        AddressingMode::AbsoluteX | AddressingMode::AbsoluteY | AddressingMode::IndirectY => true,
        _ => false,
    };
    let reads = match ins {
        Instruction::ORA | Instruction::AND | Instruction::EOR | Instruction::ADC
        | Instruction::SBC | Instruction::CMP | Instruction::LDA | Instruction::LDX
        | Instruction::LDY | Instruction::LAX | Instruction::LAS | Instruction::NOP
        | Instruction::TOP => true,
        _ => false,
    };
    let instruction_type = if branch {
        InstructionType::Branch
    } else if indexed && reads {
        InstructionType::CrossingPage
    } else {
        InstructionType::Common
    };
    InstructionInfo {
        operand_code: op,
        instruction: ins,
        addressing_mode: mode,
        operand_size: operand_size_of(mode),
        instruction_cycle: cycles,
        instruction_type,
        unofficial,
    }
}

/// The decode table: mnemonic, addressing mode, length, base cycles and
/// whether the opcode is unofficial, for each of the 256 opcodes.
pub open spec fn opcode_table(op: u8) -> InstructionInfo {
    let low = op % 16;
    match op / 16 {
        0 => table_row_0(low),
        1 => table_row_1(low),
        2 => table_row_2(low),
        3 => table_row_3(low),
        4 => table_row_4(low),
        5 => table_row_5(low),
        6 => table_row_6(low),
        7 => table_row_7(low),
        8 => table_row_8(low),
        9 => table_row_9(low),
        10 => table_row_a(low),
        11 => table_row_b(low),
        12 => table_row_c(low),
        13 => table_row_d(low),
        14 => table_row_e(low),
        _ => table_row_f(low),
    }
}

/// Opcodes `0x00` to `0x0F`, by low nibble.
pub open spec fn table_row_0(low: u8) -> InstructionInfo {
    match low {
        0x0 => info_of(0x00, Instruction::BRK, AddressingMode::Implied, 7, false),
        0x1 => info_of(0x01, Instruction::ORA, AddressingMode::IndirectX, 6, false),
        0x2 => info_of(0x02, Instruction::STP, AddressingMode::Implied, 2, true),
        0x3 => info_of(0x03, Instruction::SLO, AddressingMode::IndirectX, 8, true),
        0x4 => info_of(0x04, Instruction::DOP, AddressingMode::ZeroPage, 3, true),
        0x5 => info_of(0x05, Instruction::ORA, AddressingMode::ZeroPage, 3, false),
        0x6 => info_of(0x06, Instruction::ASL, AddressingMode::ZeroPage, 5, false),
        0x7 => info_of(0x07, Instruction::SLO, AddressingMode::ZeroPage, 5, true),
        0x8 => info_of(0x08, Instruction::PHP, AddressingMode::Implied, 3, false),
        0x9 => info_of(0x09, Instruction::ORA, AddressingMode::Immediate, 2, false),
        0xA => info_of(0x0A, Instruction::ASL, AddressingMode::Accumulator, 2, false),
        0xB => info_of(0x0B, Instruction::ANC, AddressingMode::Immediate, 2, true),
        0xC => info_of(0x0C, Instruction::TOP, AddressingMode::Absolute, 4, true),
        0xD => info_of(0x0D, Instruction::ORA, AddressingMode::Absolute, 4, false),
        0xE => info_of(0x0E, Instruction::ASL, AddressingMode::Absolute, 6, false),
        _ => info_of(0x0F, Instruction::SLO, AddressingMode::Absolute, 6, true),
    }
}

/// Opcodes `0x10` to `0x1F`, by low nibble.
pub open spec fn table_row_1(low: u8) -> InstructionInfo {
    match low {
        0x0 => info_of(0x10, Instruction::BPL, AddressingMode::Relative, 2, false),
        0x1 => info_of(0x11, Instruction::ORA, AddressingMode::IndirectY, 5, false),
        0x2 => info_of(0x12, Instruction::STP, AddressingMode::Implied, 2, true),
        0x3 => info_of(0x13, Instruction::SLO, AddressingMode::IndirectY, 8, true),
        0x4 => info_of(0x14, Instruction::DOP, AddressingMode::ZeroPageX, 4, true),
        0x5 => info_of(0x15, Instruction::ORA, AddressingMode::ZeroPageX, 4, false),
        0x6 => info_of(0x16, Instruction::ASL, AddressingMode::ZeroPageX, 6, false),
        0x7 => info_of(0x17, Instruction::SLO, AddressingMode::ZeroPageX, 6, true),
        0x8 => info_of(0x18, Instruction::CLC, AddressingMode::Implied, 2, false),
        0x9 => info_of(0x19, Instruction::ORA, AddressingMode::AbsoluteY, 4, false),
        0xA => info_of(0x1A, Instruction::NOP, AddressingMode::Implied, 2, true),
        0xB => info_of(0x1B, Instruction::SLO, AddressingMode::AbsoluteY, 7, true),
        0xC => info_of(0x1C, Instruction::TOP, AddressingMode::AbsoluteX, 4, true),
        0xD => info_of(0x1D, Instruction::ORA, AddressingMode::AbsoluteX, 4, false),
        0xE => info_of(0x1E, Instruction::ASL, AddressingMode::AbsoluteX, 7, false),
        _ => info_of(0x1F, Instruction::SLO, AddressingMode::AbsoluteX, 7, true),
    }
}

/// Opcodes `0x20` to `0x2F`, by low nibble.
pub open spec fn table_row_2(low: u8) -> InstructionInfo {
    match low {
        0x0 => info_of(0x20, Instruction::JSR, AddressingMode::Absolute, 6, false),
        0x1 => info_of(0x21, Instruction::AND, AddressingMode::IndirectX, 6, false),
        0x2 => info_of(0x22, Instruction::STP, AddressingMode::Implied, 2, true),
        0x3 => info_of(0x23, Instruction::RLA, AddressingMode::IndirectX, 8, true),
        0x4 => info_of(0x24, Instruction::BIT, AddressingMode::ZeroPage, 3, false),
        0x5 => info_of(0x25, Instruction::AND, AddressingMode::ZeroPage, 3, false),
        0x6 => info_of(0x26, Instruction::ROL, AddressingMode::ZeroPage, 5, false),
        0x7 => info_of(0x27, Instruction::RLA, AddressingMode::ZeroPage, 5, true),
        0x8 => info_of(0x28, Instruction::PLP, AddressingMode::Implied, 4, false),
        0x9 => info_of(0x29, Instruction::AND, AddressingMode::Immediate, 2, false),
        0xA => info_of(0x2A, Instruction::ROL, AddressingMode::Accumulator, 2, false),
        0xB => info_of(0x2B, Instruction::ANC, AddressingMode::Immediate, 2, true),
        0xC => info_of(0x2C, Instruction::BIT, AddressingMode::Absolute, 4, false),
        0xD => info_of(0x2D, Instruction::AND, AddressingMode::Absolute, 4, false),
        0xE => info_of(0x2E, Instruction::ROL, AddressingMode::Absolute, 6, false),
        _ => info_of(0x2F, Instruction::RLA, AddressingMode::Absolute, 6, true),
    }
}

/// Opcodes `0x30` to `0x3F`, by low nibble.
pub open spec fn table_row_3(low: u8) -> InstructionInfo {
    match low {
        0x0 => info_of(0x30, Instruction::BMI, AddressingMode::Relative, 2, false),
        0x1 => info_of(0x31, Instruction::AND, AddressingMode::IndirectY, 5, false),
        0x2 => info_of(0x32, Instruction::STP, AddressingMode::Implied, 2, true),
        0x3 => info_of(0x33, Instruction::RLA, AddressingMode::IndirectY, 8, true),
        0x4 => info_of(0x34, Instruction::DOP, AddressingMode::ZeroPageX, 4, true),
        0x5 => info_of(0x35, Instruction::AND, AddressingMode::ZeroPageX, 4, false),
        0x6 => info_of(0x36, Instruction::ROL, AddressingMode::ZeroPageX, 6, false),
        0x7 => info_of(0x37, Instruction::RLA, AddressingMode::ZeroPageX, 6, true),
        0x8 => info_of(0x38, Instruction::SEC, AddressingMode::Implied, 2, false),
        0x9 => info_of(0x39, Instruction::AND, AddressingMode::AbsoluteY, 4, false),
        0xA => info_of(0x3A, Instruction::NOP, AddressingMode::Implied, 2, true),
        0xB => info_of(0x3B, Instruction::RLA, AddressingMode::AbsoluteY, 7, true),
        0xC => info_of(0x3C, Instruction::TOP, AddressingMode::AbsoluteX, 4, true),
        0xD => info_of(0x3D, Instruction::AND, AddressingMode::AbsoluteX, 4, false),
        0xE => info_of(0x3E, Instruction::ROL, AddressingMode::AbsoluteX, 7, false),
        _ => info_of(0x3F, Instruction::RLA, AddressingMode::AbsoluteX, 7, true),
    }
}

/// Opcodes `0x40` to `0x4F`, by low nibble.
pub open spec fn table_row_4(low: u8) -> InstructionInfo {
    match low {
        0x0 => info_of(0x40, Instruction::RTI, AddressingMode::Implied, 6, false),
        0x1 => info_of(0x41, Instruction::EOR, AddressingMode::IndirectX, 6, false),
        0x2 => info_of(0x42, Instruction::STP, AddressingMode::Implied, 2, true),
        0x3 => info_of(0x43, Instruction::SRE, AddressingMode::IndirectX, 8, true),
        0x4 => info_of(0x44, Instruction::DOP, AddressingMode::ZeroPage, 3, true),
        0x5 => info_of(0x45, Instruction::EOR, AddressingMode::ZeroPage, 3, false),
        0x6 => info_of(0x46, Instruction::LSR, AddressingMode::ZeroPage, 5, false),
        0x7 => info_of(0x47, Instruction::SRE, AddressingMode::ZeroPage, 5, true),
        0x8 => info_of(0x48, Instruction::PHA, AddressingMode::Implied, 3, false),
        0x9 => info_of(0x49, Instruction::EOR, AddressingMode::Immediate, 2, false),
        0xA => info_of(0x4A, Instruction::LSR, AddressingMode::Accumulator, 2, false),
        0xB => info_of(0x4B, Instruction::ALR, AddressingMode::Immediate, 2, true),
        0xC => info_of(0x4C, Instruction::JMP, AddressingMode::Absolute, 3, false),
        0xD => info_of(0x4D, Instruction::EOR, AddressingMode::Absolute, 4, false),
        0xE => info_of(0x4E, Instruction::LSR, AddressingMode::Absolute, 6, false),
        _ => info_of(0x4F, Instruction::SRE, AddressingMode::Absolute, 6, true),
    }
}

/// Opcodes `0x50` to `0x5F`, by low nibble.
pub open spec fn table_row_5(low: u8) -> InstructionInfo {
    match low {
        0x0 => info_of(0x50, Instruction::BVC, AddressingMode::Relative, 2, false),
        0x1 => info_of(0x51, Instruction::EOR, AddressingMode::IndirectY, 5, false),
        0x2 => info_of(0x52, Instruction::STP, AddressingMode::Implied, 2, true),
        0x3 => info_of(0x53, Instruction::SRE, AddressingMode::IndirectY, 8, true),
        0x4 => info_of(0x54, Instruction::DOP, AddressingMode::ZeroPageX, 4, true),
        0x5 => info_of(0x55, Instruction::EOR, AddressingMode::ZeroPageX, 4, false),
        0x6 => info_of(0x56, Instruction::LSR, AddressingMode::ZeroPageX, 6, false),
        0x7 => info_of(0x57, Instruction::SRE, AddressingMode::ZeroPageX, 6, true),
        0x8 => info_of(0x58, Instruction::CLI, AddressingMode::Implied, 2, false),
        0x9 => info_of(0x59, Instruction::EOR, AddressingMode::AbsoluteY, 4, false),
        0xA => info_of(0x5A, Instruction::NOP, AddressingMode::Implied, 2, true),
        0xB => info_of(0x5B, Instruction::SRE, AddressingMode::AbsoluteY, 7, true),
        0xC => info_of(0x5C, Instruction::TOP, AddressingMode::AbsoluteX, 4, true),
        0xD => info_of(0x5D, Instruction::EOR, AddressingMode::AbsoluteX, 4, false),
        0xE => info_of(0x5E, Instruction::LSR, AddressingMode::AbsoluteX, 7, false),
        _ => info_of(0x5F, Instruction::SRE, AddressingMode::AbsoluteX, 7, true),
    }
}

/// Opcodes `0x60` to `0x6F`, by low nibble.
pub open spec fn table_row_6(low: u8) -> InstructionInfo {
    match low {
        0x0 => info_of(0x60, Instruction::RTS, AddressingMode::Implied, 6, false),
        0x1 => info_of(0x61, Instruction::ADC, AddressingMode::IndirectX, 6, false),
        0x2 => info_of(0x62, Instruction::STP, AddressingMode::Implied, 2, true),
        0x3 => info_of(0x63, Instruction::RRA, AddressingMode::IndirectX, 8, true),
        0x4 => info_of(0x64, Instruction::DOP, AddressingMode::ZeroPage, 3, true),
        0x5 => info_of(0x65, Instruction::ADC, AddressingMode::ZeroPage, 3, false),
        0x6 => info_of(0x66, Instruction::ROR, AddressingMode::ZeroPage, 5, false),
        0x7 => info_of(0x67, Instruction::RRA, AddressingMode::ZeroPage, 5, true),
        0x8 => info_of(0x68, Instruction::PLA, AddressingMode::Implied, 4, false),
        0x9 => info_of(0x69, Instruction::ADC, AddressingMode::Immediate, 2, false),
        0xA => info_of(0x6A, Instruction::ROR, AddressingMode::Accumulator, 2, false),
        0xB => info_of(0x6B, Instruction::ARR, AddressingMode::Immediate, 2, true),
        0xC => info_of(0x6C, Instruction::JMP, AddressingMode::Indirect, 5, false),
        0xD => info_of(0x6D, Instruction::ADC, AddressingMode::Absolute, 4, false),
        0xE => info_of(0x6E, Instruction::ROR, AddressingMode::Absolute, 6, false),
        _ => info_of(0x6F, Instruction::RRA, AddressingMode::Absolute, 6, true),
    }
}

/// Opcodes `0x70` to `0x7F`, by low nibble.
pub open spec fn table_row_7(low: u8) -> InstructionInfo {
    match low {
        0x0 => info_of(0x70, Instruction::BVS, AddressingMode::Relative, 2, false),
        0x1 => info_of(0x71, Instruction::ADC, AddressingMode::IndirectY, 5, false),
        0x2 => info_of(0x72, Instruction::STP, AddressingMode::Implied, 2, true),
        0x3 => info_of(0x73, Instruction::RRA, AddressingMode::IndirectY, 8, true),
        0x4 => info_of(0x74, Instruction::DOP, AddressingMode::ZeroPageX, 4, true),
        0x5 => info_of(0x75, Instruction::ADC, AddressingMode::ZeroPageX, 4, false),
        0x6 => info_of(0x76, Instruction::ROR, AddressingMode::ZeroPageX, 6, false),
        0x7 => info_of(0x77, Instruction::RRA, AddressingMode::ZeroPageX, 6, true),
        0x8 => info_of(0x78, Instruction::SEI, AddressingMode::Implied, 2, false),
        0x9 => info_of(0x79, Instruction::ADC, AddressingMode::AbsoluteY, 4, false),
        0xA => info_of(0x7A, Instruction::NOP, AddressingMode::Implied, 2, true),
        0xB => info_of(0x7B, Instruction::RRA, AddressingMode::AbsoluteY, 7, true),
        0xC => info_of(0x7C, Instruction::TOP, AddressingMode::AbsoluteX, 4, true),
        0xD => info_of(0x7D, Instruction::ADC, AddressingMode::AbsoluteX, 4, false),
        0xE => info_of(0x7E, Instruction::ROR, AddressingMode::AbsoluteX, 7, false),
        _ => info_of(0x7F, Instruction::RRA, AddressingMode::AbsoluteX, 7, true),
    }
}

/// Opcodes `0x80` to `0x8F`, by low nibble.
pub open spec fn table_row_8(low: u8) -> InstructionInfo {
    match low {
        0x0 => info_of(0x80, Instruction::DOP, AddressingMode::Immediate, 2, true),
        0x1 => info_of(0x81, Instruction::STA, AddressingMode::IndirectX, 6, false),
        0x2 => info_of(0x82, Instruction::DOP, AddressingMode::Immediate, 2, true),
        0x3 => info_of(0x83, Instruction::SAX, AddressingMode::IndirectX, 6, true),
        0x4 => info_of(0x84, Instruction::STY, AddressingMode::ZeroPage, 3, false),
        0x5 => info_of(0x85, Instruction::STA, AddressingMode::ZeroPage, 3, false),
        0x6 => info_of(0x86, Instruction::STX, AddressingMode::ZeroPage, 3, false),
        0x7 => info_of(0x87, Instruction::SAX, AddressingMode::ZeroPage, 3, true),
        0x8 => info_of(0x88, Instruction::DEY, AddressingMode::Implied, 2, false),
        0x9 => info_of(0x89, Instruction::DOP, AddressingMode::Immediate, 2, true),
        0xA => info_of(0x8A, Instruction::TXA, AddressingMode::Implied, 2, false),
        0xB => info_of(0x8B, Instruction::XAA, AddressingMode::Immediate, 2, true),
        0xC => info_of(0x8C, Instruction::STY, AddressingMode::Absolute, 4, false),
        0xD => info_of(0x8D, Instruction::STA, AddressingMode::Absolute, 4, false),
        0xE => info_of(0x8E, Instruction::STX, AddressingMode::Absolute, 4, false),
        _ => info_of(0x8F, Instruction::SAX, AddressingMode::Absolute, 4, true),
    }
}

/// Opcodes `0x90` to `0x9F`, by low nibble.
pub open spec fn table_row_9(low: u8) -> InstructionInfo {
    match low {
        0x0 => info_of(0x90, Instruction::BCC, AddressingMode::Relative, 2, false),
        0x1 => info_of(0x91, Instruction::STA, AddressingMode::IndirectY, 6, false),
        0x2 => info_of(0x92, Instruction::STP, AddressingMode::Implied, 2, true),
        0x3 => info_of(0x93, Instruction::AHX, AddressingMode::IndirectY, 6, true),
        0x4 => info_of(0x94, Instruction::STY, AddressingMode::ZeroPageX, 4, false),
        0x5 => info_of(0x95, Instruction::STA, AddressingMode::ZeroPageX, 4, false),
        0x6 => info_of(0x96, Instruction::STX, AddressingMode::ZeroPageY, 4, false),
        0x7 => info_of(0x97, Instruction::SAX, AddressingMode::ZeroPageY, 4, true),
        0x8 => info_of(0x98, Instruction::TYA, AddressingMode::Implied, 2, false),
        0x9 => info_of(0x99, Instruction::STA, AddressingMode::AbsoluteY, 5, false),
        0xA => info_of(0x9A, Instruction::TXS, AddressingMode::Implied, 2, false),
        0xB => info_of(0x9B, Instruction::TAS, AddressingMode::AbsoluteY, 5, true),
        0xC => info_of(0x9C, Instruction::SHY, AddressingMode::AbsoluteX, 5, true),
        0xD => info_of(0x9D, Instruction::STA, AddressingMode::AbsoluteX, 5, false),
        0xE => info_of(0x9E, Instruction::SHX, AddressingMode::AbsoluteY, 5, true),
        _ => info_of(0x9F, Instruction::AHX, AddressingMode::AbsoluteY, 5, true),
    }
}

/// Opcodes `0xA0` to `0xAF`, by low nibble.
pub open spec fn table_row_a(low: u8) -> InstructionInfo {
    match low {
        0x0 => info_of(0xA0, Instruction::LDY, AddressingMode::Immediate, 2, false),
        0x1 => info_of(0xA1, Instruction::LDA, AddressingMode::IndirectX, 6, false),
        0x2 => info_of(0xA2, Instruction::LDX, AddressingMode::Immediate, 2, false),
        0x3 => info_of(0xA3, Instruction::LAX, AddressingMode::IndirectX, 6, true),
        0x4 => info_of(0xA4, Instruction::LDY, AddressingMode::ZeroPage, 3, false),
        0x5 => info_of(0xA5, Instruction::LDA, AddressingMode::ZeroPage, 3, false),
        0x6 => info_of(0xA6, Instruction::LDX, AddressingMode::ZeroPage, 3, false),
        0x7 => info_of(0xA7, Instruction::LAX, AddressingMode::ZeroPage, 3, true),
        0x8 => info_of(0xA8, Instruction::TAY, AddressingMode::Implied, 2, false),
        0x9 => info_of(0xA9, Instruction::LDA, AddressingMode::Immediate, 2, false),
        0xA => info_of(0xAA, Instruction::TAX, AddressingMode::Implied, 2, false),
        0xB => info_of(0xAB, Instruction::LAX, AddressingMode::Immediate, 2, true),
        0xC => info_of(0xAC, Instruction::LDY, AddressingMode::Absolute, 4, false),
        0xD => info_of(0xAD, Instruction::LDA, AddressingMode::Absolute, 4, false),
        0xE => info_of(0xAE, Instruction::LDX, AddressingMode::Absolute, 4, false),
        _ => info_of(0xAF, Instruction::LAX, AddressingMode::Absolute, 4, true),
    }
}

/// Opcodes `0xB0` to `0xBF`, by low nibble.
pub open spec fn table_row_b(low: u8) -> InstructionInfo {
    match low {
        0x0 => info_of(0xB0, Instruction::BCS, AddressingMode::Relative, 2, false),
        0x1 => info_of(0xB1, Instruction::LDA, AddressingMode::IndirectY, 5, false),
        0x2 => info_of(0xB2, Instruction::STP, AddressingMode::Implied, 2, true),
        0x3 => info_of(0xB3, Instruction::LAX, AddressingMode::IndirectY, 5, true),
        0x4 => info_of(0xB4, Instruction::LDY, AddressingMode::ZeroPageX, 4, false),
        0x5 => info_of(0xB5, Instruction::LDA, AddressingMode::ZeroPageX, 4, false),
        0x6 => info_of(0xB6, Instruction::LDX, AddressingMode::ZeroPageY, 4, false),
        0x7 => info_of(0xB7, Instruction::LAX, AddressingMode::ZeroPageY, 4, true),
        0x8 => info_of(0xB8, Instruction::CLV, AddressingMode::Implied, 2, false),
        0x9 => info_of(0xB9, Instruction::LDA, AddressingMode::AbsoluteY, 4, false),
        0xA => info_of(0xBA, Instruction::TSX, AddressingMode::Implied, 2, false),
        0xB => info_of(0xBB, Instruction::LAS, AddressingMode::AbsoluteY, 4, true),
        0xC => info_of(0xBC, Instruction::LDY, AddressingMode::AbsoluteX, 4, false),
        0xD => info_of(0xBD, Instruction::LDA, AddressingMode::AbsoluteX, 4, false),
        0xE => info_of(0xBE, Instruction::LDX, AddressingMode::AbsoluteY, 4, false),
        _ => info_of(0xBF, Instruction::LAX, AddressingMode::AbsoluteY, 4, true),
    }
}

/// Opcodes `0xC0` to `0xCF`, by low nibble.
pub open spec fn table_row_c(low: u8) -> InstructionInfo {
    match low {
        0x0 => info_of(0xC0, Instruction::CPY, AddressingMode::Immediate, 2, false),
        0x1 => info_of(0xC1, Instruction::CMP, AddressingMode::IndirectX, 6, false),
        0x2 => info_of(0xC2, Instruction::DOP, AddressingMode::Immediate, 2, true),
        0x3 => info_of(0xC3, Instruction::DCP, AddressingMode::IndirectX, 8, true),
        0x4 => info_of(0xC4, Instruction::CPY, AddressingMode::ZeroPage, 3, false),
        0x5 => info_of(0xC5, Instruction::CMP, AddressingMode::ZeroPage, 3, false),
        0x6 => info_of(0xC6, Instruction::DEC, AddressingMode::ZeroPage, 5, false),
        0x7 => info_of(0xC7, Instruction::DCP, AddressingMode::ZeroPage, 5, true),
        0x8 => info_of(0xC8, Instruction::INY, AddressingMode::Implied, 2, false),
        0x9 => info_of(0xC9, Instruction::CMP, AddressingMode::Immediate, 2, false),
        0xA => info_of(0xCA, Instruction::DEX, AddressingMode::Implied, 2, false),
        0xB => info_of(0xCB, Instruction::AXS, AddressingMode::Immediate, 2, true),
        0xC => info_of(0xCC, Instruction::CPY, AddressingMode::Absolute, 4, false),
        0xD => info_of(0xCD, Instruction::CMP, AddressingMode::Absolute, 4, false),
        0xE => info_of(0xCE, Instruction::DEC, AddressingMode::Absolute, 6, false),
        _ => info_of(0xCF, Instruction::DCP, AddressingMode::Absolute, 6, true),
    }
}

/// Opcodes `0xD0` to `0xDF`, by low nibble.
pub open spec fn table_row_d(low: u8) -> InstructionInfo {
    match low {
        0x0 => info_of(0xD0, Instruction::BNE, AddressingMode::Relative, 2, false),
        0x1 => info_of(0xD1, Instruction::CMP, AddressingMode::IndirectY, 5, false),
        0x2 => info_of(0xD2, Instruction::STP, AddressingMode::Implied, 2, true),
        0x3 => info_of(0xD3, Instruction::DCP, AddressingMode::IndirectY, 8, true),
        0x4 => info_of(0xD4, Instruction::DOP, AddressingMode::ZeroPageX, 4, true),
        0x5 => info_of(0xD5, Instruction::CMP, AddressingMode::ZeroPageX, 4, false),
        0x6 => info_of(0xD6, Instruction::DEC, AddressingMode::ZeroPageX, 6, false),
        0x7 => info_of(0xD7, Instruction::DCP, AddressingMode::ZeroPageX, 6, true),
        0x8 => info_of(0xD8, Instruction::CLD, AddressingMode::Implied, 2, false),
        0x9 => info_of(0xD9, Instruction::CMP, AddressingMode::AbsoluteY, 4, false),
        0xA => info_of(0xDA, Instruction::NOP, AddressingMode::Implied, 2, true),
        0xB => info_of(0xDB, Instruction::DCP, AddressingMode::AbsoluteY, 7, true),
        0xC => info_of(0xDC, Instruction::TOP, AddressingMode::AbsoluteX, 4, true),
        0xD => info_of(0xDD, Instruction::CMP, AddressingMode::AbsoluteX, 4, false),
        0xE => info_of(0xDE, Instruction::DEC, AddressingMode::AbsoluteX, 7, false),
        _ => info_of(0xDF, Instruction::DCP, AddressingMode::AbsoluteX, 7, true),
    }
}

/// Opcodes `0xE0` to `0xEF`, by low nibble.
pub open spec fn table_row_e(low: u8) -> InstructionInfo {
    match low {
        0x0 => info_of(0xE0, Instruction::CPX, AddressingMode::Immediate, 2, false),
        0x1 => info_of(0xE1, Instruction::SBC, AddressingMode::IndirectX, 6, false),
        0x2 => info_of(0xE2, Instruction::DOP, AddressingMode::Immediate, 2, true),
        0x3 => info_of(0xE3, Instruction::ISC, AddressingMode::IndirectX, 8, true),
        0x4 => info_of(0xE4, Instruction::CPX, AddressingMode::ZeroPage, 3, false),
        0x5 => info_of(0xE5, Instruction::SBC, AddressingMode::ZeroPage, 3, false),
        0x6 => info_of(0xE6, Instruction::INC, AddressingMode::ZeroPage, 5, false),
        0x7 => info_of(0xE7, Instruction::ISC, AddressingMode::ZeroPage, 5, true),
        0x8 => info_of(0xE8, Instruction::INX, AddressingMode::Implied, 2, false),
        0x9 => info_of(0xE9, Instruction::SBC, AddressingMode::Immediate, 2, false),
        0xA => info_of(0xEA, Instruction::NOP, AddressingMode::Implied, 2, false),
        0xB => info_of(0xEB, Instruction::SBC, AddressingMode::Immediate, 2, true),
        0xC => info_of(0xEC, Instruction::CPX, AddressingMode::Absolute, 4, false),
        0xD => info_of(0xED, Instruction::SBC, AddressingMode::Absolute, 4, false),
        0xE => info_of(0xEE, Instruction::INC, AddressingMode::Absolute, 6, false),
        _ => info_of(0xEF, Instruction::ISC, AddressingMode::Absolute, 6, true),
    }
}

/// Opcodes `0xF0` to `0xFF`, by low nibble.
pub open spec fn table_row_f(low: u8) -> InstructionInfo {
    match low {
        0x0 => info_of(0xF0, Instruction::BEQ, AddressingMode::Relative, 2, false),
        0x1 => info_of(0xF1, Instruction::SBC, AddressingMode::IndirectY, 5, false),
        0x2 => info_of(0xF2, Instruction::STP, AddressingMode::Implied, 2, true),
        0x3 => info_of(0xF3, Instruction::ISC, AddressingMode::IndirectY, 8, true),
        0x4 => info_of(0xF4, Instruction::DOP, AddressingMode::ZeroPageX, 4, true),
        0x5 => info_of(0xF5, Instruction::SBC, AddressingMode::ZeroPageX, 4, false),
        0x6 => info_of(0xF6, Instruction::INC, AddressingMode::ZeroPageX, 6, false),
        0x7 => info_of(0xF7, Instruction::ISC, AddressingMode::ZeroPageX, 6, true),
        0x8 => info_of(0xF8, Instruction::SED, AddressingMode::Implied, 2, false),
        0x9 => info_of(0xF9, Instruction::SBC, AddressingMode::AbsoluteY, 4, false),
        0xA => info_of(0xFA, Instruction::NOP, AddressingMode::Implied, 2, true),
        0xB => info_of(0xFB, Instruction::ISC, AddressingMode::AbsoluteY, 7, true),
        0xC => info_of(0xFC, Instruction::TOP, AddressingMode::AbsoluteX, 4, true),
        0xD => info_of(0xFD, Instruction::SBC, AddressingMode::AbsoluteX, 4, false),
        0xE => info_of(0xFE, Instruction::INC, AddressingMode::AbsoluteX, 7, false),
        _ => info_of(0xFF, Instruction::ISC, AddressingMode::AbsoluteX, 7, true),
    }
}

/// Looks an opcode up in the decode table.
pub fn decode_opcode(op: u8) -> (r: InstructionInfo)
    ensures
        r == opcode_table(op),
{
    let low = op % 16;
    match op / 16 {
        0 => decode_row_0(low),
        1 => decode_row_1(low),
        2 => decode_row_2(low),
        3 => decode_row_3(low),
        4 => decode_row_4(low),
        5 => decode_row_5(low),
        6 => decode_row_6(low),
        7 => decode_row_7(low),
        8 => decode_row_8(low),
        9 => decode_row_9(low),
        10 => decode_row_a(low),
        11 => decode_row_b(low),
        12 => decode_row_c(low),
        13 => decode_row_d(low),
        14 => decode_row_e(low),
        _ => decode_row_f(low),
    }
}

fn decode_row_0(low: u8) -> (r: InstructionInfo)
    ensures
        r == table_row_0(low),
{
    match low {
        0x0 => make_info(0x00, Instruction::BRK, AddressingMode::Implied, 7, false),
        0x1 => make_info(0x01, Instruction::ORA, AddressingMode::IndirectX, 6, false),
        0x2 => make_info(0x02, Instruction::STP, AddressingMode::Implied, 2, true),
        0x3 => make_info(0x03, Instruction::SLO, AddressingMode::IndirectX, 8, true),
        0x4 => make_info(0x04, Instruction::DOP, AddressingMode::ZeroPage, 3, true),
        0x5 => make_info(0x05, Instruction::ORA, AddressingMode::ZeroPage, 3, false),
        0x6 => make_info(0x06, Instruction::ASL, AddressingMode::ZeroPage, 5, false),
        0x7 => make_info(0x07, Instruction::SLO, AddressingMode::ZeroPage, 5, true),
        0x8 => make_info(0x08, Instruction::PHP, AddressingMode::Implied, 3, false),
        0x9 => make_info(0x09, Instruction::ORA, AddressingMode::Immediate, 2, false),
        0xA => make_info(0x0A, Instruction::ASL, AddressingMode::Accumulator, 2, false),
        0xB => make_info(0x0B, Instruction::ANC, AddressingMode::Immediate, 2, true),
        0xC => make_info(0x0C, Instruction::TOP, AddressingMode::Absolute, 4, true),
        0xD => make_info(0x0D, Instruction::ORA, AddressingMode::Absolute, 4, false),
        0xE => make_info(0x0E, Instruction::ASL, AddressingMode::Absolute, 6, false),
        _ => make_info(0x0F, Instruction::SLO, AddressingMode::Absolute, 6, true),
    }
}

fn decode_row_1(low: u8) -> (r: InstructionInfo)
    ensures
        r == table_row_1(low),
{
    match low {
        0x0 => make_info(0x10, Instruction::BPL, AddressingMode::Relative, 2, false),
        0x1 => make_info(0x11, Instruction::ORA, AddressingMode::IndirectY, 5, false),
        0x2 => make_info(0x12, Instruction::STP, AddressingMode::Implied, 2, true),
        0x3 => make_info(0x13, Instruction::SLO, AddressingMode::IndirectY, 8, true),
        0x4 => make_info(0x14, Instruction::DOP, AddressingMode::ZeroPageX, 4, true),
        0x5 => make_info(0x15, Instruction::ORA, AddressingMode::ZeroPageX, 4, false),
        0x6 => make_info(0x16, Instruction::ASL, AddressingMode::ZeroPageX, 6, false),
        0x7 => make_info(0x17, Instruction::SLO, AddressingMode::ZeroPageX, 6, true),
        0x8 => make_info(0x18, Instruction::CLC, AddressingMode::Implied, 2, false),
        0x9 => make_info(0x19, Instruction::ORA, AddressingMode::AbsoluteY, 4, false),
        0xA => make_info(0x1A, Instruction::NOP, AddressingMode::Implied, 2, true),
        0xB => make_info(0x1B, Instruction::SLO, AddressingMode::AbsoluteY, 7, true),
        0xC => make_info(0x1C, Instruction::TOP, AddressingMode::AbsoluteX, 4, true),
        0xD => make_info(0x1D, Instruction::ORA, AddressingMode::AbsoluteX, 4, false),
        0xE => make_info(0x1E, Instruction::ASL, AddressingMode::AbsoluteX, 7, false),
        _ => make_info(0x1F, Instruction::SLO, AddressingMode::AbsoluteX, 7, true),
    }
}

fn decode_row_2(low: u8) -> (r: InstructionInfo)
    ensures
        r == table_row_2(low),
{
    match low {
        0x0 => make_info(0x20, Instruction::JSR, AddressingMode::Absolute, 6, false),
        0x1 => make_info(0x21, Instruction::AND, AddressingMode::IndirectX, 6, false),
        0x2 => make_info(0x22, Instruction::STP, AddressingMode::Implied, 2, true),
        0x3 => make_info(0x23, Instruction::RLA, AddressingMode::IndirectX, 8, true),
        0x4 => make_info(0x24, Instruction::BIT, AddressingMode::ZeroPage, 3, false),
        0x5 => make_info(0x25, Instruction::AND, AddressingMode::ZeroPage, 3, false),
        0x6 => make_info(0x26, Instruction::ROL, AddressingMode::ZeroPage, 5, false),
        0x7 => make_info(0x27, Instruction::RLA, AddressingMode::ZeroPage, 5, true),
        0x8 => make_info(0x28, Instruction::PLP, AddressingMode::Implied, 4, false),
        0x9 => make_info(0x29, Instruction::AND, AddressingMode::Immediate, 2, false),
        0xA => make_info(0x2A, Instruction::ROL, AddressingMode::Accumulator, 2, false),
        0xB => make_info(0x2B, Instruction::ANC, AddressingMode::Immediate, 2, true),
        0xC => make_info(0x2C, Instruction::BIT, AddressingMode::Absolute, 4, false),
        0xD => make_info(0x2D, Instruction::AND, AddressingMode::Absolute, 4, false),
        0xE => make_info(0x2E, Instruction::ROL, AddressingMode::Absolute, 6, false),
        _ => make_info(0x2F, Instruction::RLA, AddressingMode::Absolute, 6, true),
    }
}

fn decode_row_3(low: u8) -> (r: InstructionInfo)
    ensures
        r == table_row_3(low),
{
    match low {
        0x0 => make_info(0x30, Instruction::BMI, AddressingMode::Relative, 2, false),
        0x1 => make_info(0x31, Instruction::AND, AddressingMode::IndirectY, 5, false),
        0x2 => make_info(0x32, Instruction::STP, AddressingMode::Implied, 2, true),
        0x3 => make_info(0x33, Instruction::RLA, AddressingMode::IndirectY, 8, true),
        0x4 => make_info(0x34, Instruction::DOP, AddressingMode::ZeroPageX, 4, true),
        0x5 => make_info(0x35, Instruction::AND, AddressingMode::ZeroPageX, 4, false),
        0x6 => make_info(0x36, Instruction::ROL, AddressingMode::ZeroPageX, 6, false),
        0x7 => make_info(0x37, Instruction::RLA, AddressingMode::ZeroPageX, 6, true),
        0x8 => make_info(0x38, Instruction::SEC, AddressingMode::Implied, 2, false),
        0x9 => make_info(0x39, Instruction::AND, AddressingMode::AbsoluteY, 4, false),
        0xA => make_info(0x3A, Instruction::NOP, AddressingMode::Implied, 2, true),
        0xB => make_info(0x3B, Instruction::RLA, AddressingMode::AbsoluteY, 7, true),
        0xC => make_info(0x3C, Instruction::TOP, AddressingMode::AbsoluteX, 4, true),
        0xD => make_info(0x3D, Instruction::AND, AddressingMode::AbsoluteX, 4, false),
        0xE => make_info(0x3E, Instruction::ROL, AddressingMode::AbsoluteX, 7, false),
        _ => make_info(0x3F, Instruction::RLA, AddressingMode::AbsoluteX, 7, true),
    }
}

fn decode_row_4(low: u8) -> (r: InstructionInfo)
    ensures
        r == table_row_4(low),
{
    match low {
        0x0 => make_info(0x40, Instruction::RTI, AddressingMode::Implied, 6, false),
        0x1 => make_info(0x41, Instruction::EOR, AddressingMode::IndirectX, 6, false),
        0x2 => make_info(0x42, Instruction::STP, AddressingMode::Implied, 2, true),
        0x3 => make_info(0x43, Instruction::SRE, AddressingMode::IndirectX, 8, true),
        0x4 => make_info(0x44, Instruction::DOP, AddressingMode::ZeroPage, 3, true),
        0x5 => make_info(0x45, Instruction::EOR, AddressingMode::ZeroPage, 3, false),
        0x6 => make_info(0x46, Instruction::LSR, AddressingMode::ZeroPage, 5, false),
        0x7 => make_info(0x47, Instruction::SRE, AddressingMode::ZeroPage, 5, true),
        0x8 => make_info(0x48, Instruction::PHA, AddressingMode::Implied, 3, false),
        0x9 => make_info(0x49, Instruction::EOR, AddressingMode::Immediate, 2, false),
        0xA => make_info(0x4A, Instruction::LSR, AddressingMode::Accumulator, 2, false),
        0xB => make_info(0x4B, Instruction::ALR, AddressingMode::Immediate, 2, true),
        0xC => make_info(0x4C, Instruction::JMP, AddressingMode::Absolute, 3, false),
        0xD => make_info(0x4D, Instruction::EOR, AddressingMode::Absolute, 4, false),
        0xE => make_info(0x4E, Instruction::LSR, AddressingMode::Absolute, 6, false),
        _ => make_info(0x4F, Instruction::SRE, AddressingMode::Absolute, 6, true),
    }
}

fn decode_row_5(low: u8) -> (r: InstructionInfo)
    ensures
        r == table_row_5(low),
{
    match low {
        0x0 => make_info(0x50, Instruction::BVC, AddressingMode::Relative, 2, false),
        0x1 => make_info(0x51, Instruction::EOR, AddressingMode::IndirectY, 5, false),
        0x2 => make_info(0x52, Instruction::STP, AddressingMode::Implied, 2, true),
        0x3 => make_info(0x53, Instruction::SRE, AddressingMode::IndirectY, 8, true),
        0x4 => make_info(0x54, Instruction::DOP, AddressingMode::ZeroPageX, 4, true),
        0x5 => make_info(0x55, Instruction::EOR, AddressingMode::ZeroPageX, 4, false),
        0x6 => make_info(0x56, Instruction::LSR, AddressingMode::ZeroPageX, 6, false),
        0x7 => make_info(0x57, Instruction::SRE, AddressingMode::ZeroPageX, 6, true),
        0x8 => make_info(0x58, Instruction::CLI, AddressingMode::Implied, 2, false),
        0x9 => make_info(0x59, Instruction::EOR, AddressingMode::AbsoluteY, 4, false),
        0xA => make_info(0x5A, Instruction::NOP, AddressingMode::Implied, 2, true),
        0xB => make_info(0x5B, Instruction::SRE, AddressingMode::AbsoluteY, 7, true),
        0xC => make_info(0x5C, Instruction::TOP, AddressingMode::AbsoluteX, 4, true),
        0xD => make_info(0x5D, Instruction::EOR, AddressingMode::AbsoluteX, 4, false),
        0xE => make_info(0x5E, Instruction::LSR, AddressingMode::AbsoluteX, 7, false),
        _ => make_info(0x5F, Instruction::SRE, AddressingMode::AbsoluteX, 7, true),
    }
}

fn decode_row_6(low: u8) -> (r: InstructionInfo)
    ensures
        r == table_row_6(low),
{
    match low {
        0x0 => make_info(0x60, Instruction::RTS, AddressingMode::Implied, 6, false),
        0x1 => make_info(0x61, Instruction::ADC, AddressingMode::IndirectX, 6, false),
        0x2 => make_info(0x62, Instruction::STP, AddressingMode::Implied, 2, true),
        0x3 => make_info(0x63, Instruction::RRA, AddressingMode::IndirectX, 8, true),
        0x4 => make_info(0x64, Instruction::DOP, AddressingMode::ZeroPage, 3, true),
        0x5 => make_info(0x65, Instruction::ADC, AddressingMode::ZeroPage, 3, false),
        0x6 => make_info(0x66, Instruction::ROR, AddressingMode::ZeroPage, 5, false),
        0x7 => make_info(0x67, Instruction::RRA, AddressingMode::ZeroPage, 5, true),
        0x8 => make_info(0x68, Instruction::PLA, AddressingMode::Implied, 4, false),
        0x9 => make_info(0x69, Instruction::ADC, AddressingMode::Immediate, 2, false),
        0xA => make_info(0x6A, Instruction::ROR, AddressingMode::Accumulator, 2, false),
        0xB => make_info(0x6B, Instruction::ARR, AddressingMode::Immediate, 2, true),
        0xC => make_info(0x6C, Instruction::JMP, AddressingMode::Indirect, 5, false),
        0xD => make_info(0x6D, Instruction::ADC, AddressingMode::Absolute, 4, false),
        0xE => make_info(0x6E, Instruction::ROR, AddressingMode::Absolute, 6, false),
        _ => make_info(0x6F, Instruction::RRA, AddressingMode::Absolute, 6, true),
    }
}

fn decode_row_7(low: u8) -> (r: InstructionInfo)
    ensures
        r == table_row_7(low),
{
    match low {
        0x0 => make_info(0x70, Instruction::BVS, AddressingMode::Relative, 2, false),
        0x1 => make_info(0x71, Instruction::ADC, AddressingMode::IndirectY, 5, false),
        0x2 => make_info(0x72, Instruction::STP, AddressingMode::Implied, 2, true),
        0x3 => make_info(0x73, Instruction::RRA, AddressingMode::IndirectY, 8, true),
        0x4 => make_info(0x74, Instruction::DOP, AddressingMode::ZeroPageX, 4, true),
        0x5 => make_info(0x75, Instruction::ADC, AddressingMode::ZeroPageX, 4, false),
        0x6 => make_info(0x76, Instruction::ROR, AddressingMode::ZeroPageX, 6, false),
        0x7 => make_info(0x77, Instruction::RRA, AddressingMode::ZeroPageX, 6, true),
        0x8 => make_info(0x78, Instruction::SEI, AddressingMode::Implied, 2, false),
        0x9 => make_info(0x79, Instruction::ADC, AddressingMode::AbsoluteY, 4, false),
        0xA => make_info(0x7A, Instruction::NOP, AddressingMode::Implied, 2, true),
        0xB => make_info(0x7B, Instruction::RRA, AddressingMode::AbsoluteY, 7, true),
        0xC => make_info(0x7C, Instruction::TOP, AddressingMode::AbsoluteX, 4, true),
        0xD => make_info(0x7D, Instruction::ADC, AddressingMode::AbsoluteX, 4, false),
        0xE => make_info(0x7E, Instruction::ROR, AddressingMode::AbsoluteX, 7, false),
        _ => make_info(0x7F, Instruction::RRA, AddressingMode::AbsoluteX, 7, true),
    }
}

fn decode_row_8(low: u8) -> (r: InstructionInfo)
    ensures
        r == table_row_8(low),
{
    match low {
        0x0 => make_info(0x80, Instruction::DOP, AddressingMode::Immediate, 2, true),
        0x1 => make_info(0x81, Instruction::STA, AddressingMode::IndirectX, 6, false),
        0x2 => make_info(0x82, Instruction::DOP, AddressingMode::Immediate, 2, true),
        0x3 => make_info(0x83, Instruction::SAX, AddressingMode::IndirectX, 6, true),
        0x4 => make_info(0x84, Instruction::STY, AddressingMode::ZeroPage, 3, false),
        0x5 => make_info(0x85, Instruction::STA, AddressingMode::ZeroPage, 3, false),
        0x6 => make_info(0x86, Instruction::STX, AddressingMode::ZeroPage, 3, false),
        0x7 => make_info(0x87, Instruction::SAX, AddressingMode::ZeroPage, 3, true),
        0x8 => make_info(0x88, Instruction::DEY, AddressingMode::Implied, 2, false),
        0x9 => make_info(0x89, Instruction::DOP, AddressingMode::Immediate, 2, true),
        0xA => make_info(0x8A, Instruction::TXA, AddressingMode::Implied, 2, false),
        0xB => make_info(0x8B, Instruction::XAA, AddressingMode::Immediate, 2, true),
        0xC => make_info(0x8C, Instruction::STY, AddressingMode::Absolute, 4, false),
        0xD => make_info(0x8D, Instruction::STA, AddressingMode::Absolute, 4, false),
        0xE => make_info(0x8E, Instruction::STX, AddressingMode::Absolute, 4, false),
        _ => make_info(0x8F, Instruction::SAX, AddressingMode::Absolute, 4, true),
    }
}

fn decode_row_9(low: u8) -> (r: InstructionInfo)
    ensures
        r == table_row_9(low),
{
    match low {
        0x0 => make_info(0x90, Instruction::BCC, AddressingMode::Relative, 2, false),
        0x1 => make_info(0x91, Instruction::STA, AddressingMode::IndirectY, 6, false),
        0x2 => make_info(0x92, Instruction::STP, AddressingMode::Implied, 2, true),
        0x3 => make_info(0x93, Instruction::AHX, AddressingMode::IndirectY, 6, true),
        0x4 => make_info(0x94, Instruction::STY, AddressingMode::ZeroPageX, 4, false),
        0x5 => make_info(0x95, Instruction::STA, AddressingMode::ZeroPageX, 4, false),
        0x6 => make_info(0x96, Instruction::STX, AddressingMode::ZeroPageY, 4, false),
        0x7 => make_info(0x97, Instruction::SAX, AddressingMode::ZeroPageY, 4, true),
        0x8 => make_info(0x98, Instruction::TYA, AddressingMode::Implied, 2, false),
        0x9 => make_info(0x99, Instruction::STA, AddressingMode::AbsoluteY, 5, false),
        0xA => make_info(0x9A, Instruction::TXS, AddressingMode::Implied, 2, false),
        0xB => make_info(0x9B, Instruction::TAS, AddressingMode::AbsoluteY, 5, true),
        0xC => make_info(0x9C, Instruction::SHY, AddressingMode::AbsoluteX, 5, true),
        0xD => make_info(0x9D, Instruction::STA, AddressingMode::AbsoluteX, 5, false),
        0xE => make_info(0x9E, Instruction::SHX, AddressingMode::AbsoluteY, 5, true),
        _ => make_info(0x9F, Instruction::AHX, AddressingMode::AbsoluteY, 5, true),
    }
}

fn decode_row_a(low: u8) -> (r: InstructionInfo)
    ensures
        r == table_row_a(low),
{
    match low {
        0x0 => make_info(0xA0, Instruction::LDY, AddressingMode::Immediate, 2, false),
        0x1 => make_info(0xA1, Instruction::LDA, AddressingMode::IndirectX, 6, false),
        0x2 => make_info(0xA2, Instruction::LDX, AddressingMode::Immediate, 2, false),
        0x3 => make_info(0xA3, Instruction::LAX, AddressingMode::IndirectX, 6, true),
        0x4 => make_info(0xA4, Instruction::LDY, AddressingMode::ZeroPage, 3, false),
        0x5 => make_info(0xA5, Instruction::LDA, AddressingMode::ZeroPage, 3, false),
        0x6 => make_info(0xA6, Instruction::LDX, AddressingMode::ZeroPage, 3, false),
        0x7 => make_info(0xA7, Instruction::LAX, AddressingMode::ZeroPage, 3, true),
        0x8 => make_info(0xA8, Instruction::TAY, AddressingMode::Implied, 2, false),
        0x9 => make_info(0xA9, Instruction::LDA, AddressingMode::Immediate, 2, false),
        0xA => make_info(0xAA, Instruction::TAX, AddressingMode::Implied, 2, false),
        0xB => make_info(0xAB, Instruction::LAX, AddressingMode::Immediate, 2, true),
        0xC => make_info(0xAC, Instruction::LDY, AddressingMode::Absolute, 4, false),
        0xD => make_info(0xAD, Instruction::LDA, AddressingMode::Absolute, 4, false),
        0xE => make_info(0xAE, Instruction::LDX, AddressingMode::Absolute, 4, false),
        _ => make_info(0xAF, Instruction::LAX, AddressingMode::Absolute, 4, true),
    }
}

fn decode_row_b(low: u8) -> (r: InstructionInfo)
    ensures
        r == table_row_b(low),
{
    match low {
        0x0 => make_info(0xB0, Instruction::BCS, AddressingMode::Relative, 2, false),
        0x1 => make_info(0xB1, Instruction::LDA, AddressingMode::IndirectY, 5, false),
        0x2 => make_info(0xB2, Instruction::STP, AddressingMode::Implied, 2, true),
        0x3 => make_info(0xB3, Instruction::LAX, AddressingMode::IndirectY, 5, true),
        0x4 => make_info(0xB4, Instruction::LDY, AddressingMode::ZeroPageX, 4, false),
        0x5 => make_info(0xB5, Instruction::LDA, AddressingMode::ZeroPageX, 4, false),
        0x6 => make_info(0xB6, Instruction::LDX, AddressingMode::ZeroPageY, 4, false),
        0x7 => make_info(0xB7, Instruction::LAX, AddressingMode::ZeroPageY, 4, true),
        0x8 => make_info(0xB8, Instruction::CLV, AddressingMode::Implied, 2, false),
        0x9 => make_info(0xB9, Instruction::LDA, AddressingMode::AbsoluteY, 4, false),
        0xA => make_info(0xBA, Instruction::TSX, AddressingMode::Implied, 2, false),
        0xB => make_info(0xBB, Instruction::LAS, AddressingMode::AbsoluteY, 4, true),
        0xC => make_info(0xBC, Instruction::LDY, AddressingMode::AbsoluteX, 4, false),
        0xD => make_info(0xBD, Instruction::LDA, AddressingMode::AbsoluteX, 4, false),
        0xE => make_info(0xBE, Instruction::LDX, AddressingMode::AbsoluteY, 4, false),
        _ => make_info(0xBF, Instruction::LAX, AddressingMode::AbsoluteY, 4, true),
    }
}

fn decode_row_c(low: u8) -> (r: InstructionInfo)
    ensures
        r == table_row_c(low),
{
    match low {
        0x0 => make_info(0xC0, Instruction::CPY, AddressingMode::Immediate, 2, false),
        0x1 => make_info(0xC1, Instruction::CMP, AddressingMode::IndirectX, 6, false),
        0x2 => make_info(0xC2, Instruction::DOP, AddressingMode::Immediate, 2, true),
        0x3 => make_info(0xC3, Instruction::DCP, AddressingMode::IndirectX, 8, true),
        0x4 => make_info(0xC4, Instruction::CPY, AddressingMode::ZeroPage, 3, false),
        0x5 => make_info(0xC5, Instruction::CMP, AddressingMode::ZeroPage, 3, false),
        0x6 => make_info(0xC6, Instruction::DEC, AddressingMode::ZeroPage, 5, false),
        0x7 => make_info(0xC7, Instruction::DCP, AddressingMode::ZeroPage, 5, true),
        0x8 => make_info(0xC8, Instruction::INY, AddressingMode::Implied, 2, false),
        0x9 => make_info(0xC9, Instruction::CMP, AddressingMode::Immediate, 2, false),
        0xA => make_info(0xCA, Instruction::DEX, AddressingMode::Implied, 2, false),
        0xB => make_info(0xCB, Instruction::AXS, AddressingMode::Immediate, 2, true),
        0xC => make_info(0xCC, Instruction::CPY, AddressingMode::Absolute, 4, false),
        0xD => make_info(0xCD, Instruction::CMP, AddressingMode::Absolute, 4, false),
        0xE => make_info(0xCE, Instruction::DEC, AddressingMode::Absolute, 6, false),
        _ => make_info(0xCF, Instruction::DCP, AddressingMode::Absolute, 6, true),
    }
}

fn decode_row_d(low: u8) -> (r: InstructionInfo)
    ensures
        r == table_row_d(low),
{
    match low {
        0x0 => make_info(0xD0, Instruction::BNE, AddressingMode::Relative, 2, false),
        0x1 => make_info(0xD1, Instruction::CMP, AddressingMode::IndirectY, 5, false),
        0x2 => make_info(0xD2, Instruction::STP, AddressingMode::Implied, 2, true),
        0x3 => make_info(0xD3, Instruction::DCP, AddressingMode::IndirectY, 8, true),
        0x4 => make_info(0xD4, Instruction::DOP, AddressingMode::ZeroPageX, 4, true),
        0x5 => make_info(0xD5, Instruction::CMP, AddressingMode::ZeroPageX, 4, false),
        0x6 => make_info(0xD6, Instruction::DEC, AddressingMode::ZeroPageX, 6, false),
        0x7 => make_info(0xD7, Instruction::DCP, AddressingMode::ZeroPageX, 6, true),
        0x8 => make_info(0xD8, Instruction::CLD, AddressingMode::Implied, 2, false),
        0x9 => make_info(0xD9, Instruction::CMP, AddressingMode::AbsoluteY, 4, false),
        0xA => make_info(0xDA, Instruction::NOP, AddressingMode::Implied, 2, true),
        0xB => make_info(0xDB, Instruction::DCP, AddressingMode::AbsoluteY, 7, true),
        0xC => make_info(0xDC, Instruction::TOP, AddressingMode::AbsoluteX, 4, true),
        0xD => make_info(0xDD, Instruction::CMP, AddressingMode::AbsoluteX, 4, false),
        0xE => make_info(0xDE, Instruction::DEC, AddressingMode::AbsoluteX, 7, false),
        _ => make_info(0xDF, Instruction::DCP, AddressingMode::AbsoluteX, 7, true),
    }
}

fn decode_row_e(low: u8) -> (r: InstructionInfo)
    ensures
        r == table_row_e(low),
{
    match low {
        0x0 => make_info(0xE0, Instruction::CPX, AddressingMode::Immediate, 2, false),
        0x1 => make_info(0xE1, Instruction::SBC, AddressingMode::IndirectX, 6, false),
        0x2 => make_info(0xE2, Instruction::DOP, AddressingMode::Immediate, 2, true),
        0x3 => make_info(0xE3, Instruction::ISC, AddressingMode::IndirectX, 8, true),
        0x4 => make_info(0xE4, Instruction::CPX, AddressingMode::ZeroPage, 3, false),
        0x5 => make_info(0xE5, Instruction::SBC, AddressingMode::ZeroPage, 3, false),
        0x6 => make_info(0xE6, Instruction::INC, AddressingMode::ZeroPage, 5, false),
        0x7 => make_info(0xE7, Instruction::ISC, AddressingMode::ZeroPage, 5, true),
        0x8 => make_info(0xE8, Instruction::INX, AddressingMode::Implied, 2, false),
        0x9 => make_info(0xE9, Instruction::SBC, AddressingMode::Immediate, 2, false),
        0xA => make_info(0xEA, Instruction::NOP, AddressingMode::Implied, 2, false),
        0xB => make_info(0xEB, Instruction::SBC, AddressingMode::Immediate, 2, true),
        0xC => make_info(0xEC, Instruction::CPX, AddressingMode::Absolute, 4, false),
        0xD => make_info(0xED, Instruction::SBC, AddressingMode::Absolute, 4, false),
        0xE => make_info(0xEE, Instruction::INC, AddressingMode::Absolute, 6, false),
        _ => make_info(0xEF, Instruction::ISC, AddressingMode::Absolute, 6, true),
    }
}

fn decode_row_f(low: u8) -> (r: InstructionInfo)
    ensures
        r == table_row_f(low),
{
    match low {
        0x0 => make_info(0xF0, Instruction::BEQ, AddressingMode::Relative, 2, false),
        0x1 => make_info(0xF1, Instruction::SBC, AddressingMode::IndirectY, 5, false),
        0x2 => make_info(0xF2, Instruction::STP, AddressingMode::Implied, 2, true),
        0x3 => make_info(0xF3, Instruction::ISC, AddressingMode::IndirectY, 8, true),
        0x4 => make_info(0xF4, Instruction::DOP, AddressingMode::ZeroPageX, 4, true),
        0x5 => make_info(0xF5, Instruction::SBC, AddressingMode::ZeroPageX, 4, false),
        0x6 => make_info(0xF6, Instruction::INC, AddressingMode::ZeroPageX, 6, false),
        0x7 => make_info(0xF7, Instruction::ISC, AddressingMode::ZeroPageX, 6, true),
        0x8 => make_info(0xF8, Instruction::SED, AddressingMode::Implied, 2, false),
        0x9 => make_info(0xF9, Instruction::SBC, AddressingMode::AbsoluteY, 4, false),
        0xA => make_info(0xFA, Instruction::NOP, AddressingMode::Implied, 2, true),
        0xB => make_info(0xFB, Instruction::ISC, AddressingMode::AbsoluteY, 7, true),
        0xC => make_info(0xFC, Instruction::TOP, AddressingMode::AbsoluteX, 4, true),
        0xD => make_info(0xFD, Instruction::SBC, AddressingMode::AbsoluteX, 4, false),
        0xE => make_info(0xFE, Instruction::INC, AddressingMode::AbsoluteX, 7, false),
        _ => make_info(0xFF, Instruction::ISC, AddressingMode::AbsoluteX, 7, true),
    }
}

impl Default for InstructionInfo {
    /// The official NOP.
    fn default() -> (r: Self)
        ensures
            r == opcode_table(0xEA),
    {
        decode_opcode(0xEA)
    }
}

} // verus!
