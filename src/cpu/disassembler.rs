//! Disassembly of 6502 code: text lines in the format of the canonical
//! nestest log, and a structured decode/encode pair.
use vstd::prelude::*;
use vstd::string::StringExecFns;
use crate::bus::bus::{Bus, BusView};
use crate::cpu::addressing_modes::{mode_len, AddressingMode};
use crate::cpu::cpu::{next_address, read_word_zp_debug, Cpu};
use crate::cpu::instructions::{decode_opcode, opcode_table, Instruction, InstructionInfo,
    table_row_0, table_row_1, table_row_2, table_row_3, table_row_4, table_row_5, table_row_6, table_row_7, table_row_8, table_row_9, table_row_a, table_row_b, table_row_c, table_row_d, table_row_e, table_row_f};
use crate::cpu::registers::Registers;
use crate::cpu::semantics::{add16, branch_offset, is_illegal, peek16_zp};

verus! {

// ---------------------------------------------------------------- text model

/// The name a listing shows for an instruction (the NOP variants as NOP, ISC as ISB).
pub open spec fn mnemonic_str(ins: Instruction) -> &'static str {
    match ins {
        Instruction::LDA => "LDA",
        Instruction::LDX => "LDX",
        Instruction::LDY => "LDY",
        Instruction::BRK => "BRK",
        Instruction::SEI => "SEI",
        Instruction::NOP => "NOP",
        Instruction::DOP => "NOP",
        Instruction::TOP => "NOP",
        Instruction::PHP => "PHP",
        Instruction::BPL => "BPL",
        Instruction::CLC => "CLC",
        Instruction::ORA => "ORA",
        Instruction::STP => "STP",
        Instruction::ASL => "ASL",
        Instruction::SLO => "SLO",
        Instruction::ROL => "ROL",
        Instruction::ANC => "ANC",
        Instruction::JSR => "JSR",
        Instruction::BIT => "BIT",
        Instruction::PLP => "PLP",
        Instruction::BMI => "BMI",
        Instruction::SEC => "SEC",
        Instruction::AND => "AND",
        Instruction::RLA => "RLA",
        Instruction::RTI => "RTI",
        Instruction::PHA => "PHA",
        Instruction::JMP => "JMP",
        Instruction::BVC => "BVC",
        Instruction::CLI => "CLI",
        Instruction::EOR => "EOR",
        Instruction::LSR => "LSR",
        Instruction::SRE => "SRE",
        Instruction::RTS => "RTS",
        Instruction::PLA => "PLA",
        Instruction::BVS => "BVS",
        Instruction::ADC => "ADC",
        Instruction::ROR => "ROR",
        Instruction::RRA => "RRA",
        Instruction::STY => "STY",
        Instruction::DEY => "DEY",
        Instruction::BCC => "BCC",
        Instruction::TYA => "TYA",
        Instruction::SHY => "SHY",
        Instruction::STA => "STA",
        Instruction::STX => "STX",
        Instruction::TXA => "TXA",
        Instruction::TXS => "TXS",
        Instruction::SHX => "SHX",
        Instruction::SAX => "SAX",
        Instruction::XAA => "XAA",
        Instruction::AHX => "AHX",
        Instruction::TAS => "TAS",
        Instruction::TAY => "TAY",
        Instruction::BCS => "BCS",
        Instruction::CLV => "CLV",
        Instruction::TAX => "TAX",
        Instruction::TSX => "TSX",
        Instruction::LAX => "LAX",
        Instruction::LAS => "LAS",
        Instruction::CPY => "CPY",
        Instruction::INY => "INY",
        Instruction::BNE => "BNE",
        Instruction::CLD => "CLD",
        Instruction::CMP => "CMP",
        Instruction::DEC => "DEC",
        Instruction::DEX => "DEX",
        Instruction::DCP => "DCP",
        Instruction::AXS => "AXS",
        Instruction::CPX => "CPX",
        Instruction::INX => "INX",
        Instruction::BEQ => "BEQ",
        Instruction::SED => "SED",
        Instruction::SBC => "SBC",
        Instruction::INC => "INC",
        Instruction::ISC => "ISB",
        Instruction::ALR => "ALR",
        Instruction::ARR => "ARR",
    }
}

/// Computes `mnemonic_str`.
pub fn mnemonic(ins: Instruction) -> (r: &'static str)
    ensures
        r == mnemonic_str(ins),
{
    match ins {
        Instruction::LDA => "LDA",
        Instruction::LDX => "LDX",
        Instruction::LDY => "LDY",
        Instruction::BRK => "BRK",
        Instruction::SEI => "SEI",
        Instruction::NOP => "NOP",
        Instruction::DOP => "NOP",
        Instruction::TOP => "NOP",
        Instruction::PHP => "PHP",
        Instruction::BPL => "BPL",
        Instruction::CLC => "CLC",
        Instruction::ORA => "ORA",
        Instruction::STP => "STP",
        Instruction::ASL => "ASL",
        Instruction::SLO => "SLO",
        Instruction::ROL => "ROL",
        Instruction::ANC => "ANC",
        Instruction::JSR => "JSR",
        Instruction::BIT => "BIT",
        Instruction::PLP => "PLP",
        Instruction::BMI => "BMI",
        Instruction::SEC => "SEC",
        Instruction::AND => "AND",
        Instruction::RLA => "RLA",
        Instruction::RTI => "RTI",
        Instruction::PHA => "PHA",
        Instruction::JMP => "JMP",
        Instruction::BVC => "BVC",
        Instruction::CLI => "CLI",
        Instruction::EOR => "EOR",
        Instruction::LSR => "LSR",
        Instruction::SRE => "SRE",
        Instruction::RTS => "RTS",
        Instruction::PLA => "PLA",
        Instruction::BVS => "BVS",
        Instruction::ADC => "ADC",
        Instruction::ROR => "ROR",
        Instruction::RRA => "RRA",
        Instruction::STY => "STY",
        Instruction::DEY => "DEY",
        Instruction::BCC => "BCC",
        Instruction::TYA => "TYA",
        Instruction::SHY => "SHY",
        Instruction::STA => "STA",
        Instruction::STX => "STX",
        Instruction::TXA => "TXA",
        Instruction::TXS => "TXS",
        Instruction::SHX => "SHX",
        Instruction::SAX => "SAX",
        Instruction::XAA => "XAA",
        Instruction::AHX => "AHX",
        Instruction::TAS => "TAS",
        Instruction::TAY => "TAY",
        Instruction::BCS => "BCS",
        Instruction::CLV => "CLV",
        Instruction::TAX => "TAX",
        Instruction::TSX => "TSX",
        Instruction::LAX => "LAX",
        Instruction::LAS => "LAS",
        Instruction::CPY => "CPY",
        Instruction::INY => "INY",
        Instruction::BNE => "BNE",
        Instruction::CLD => "CLD",
        Instruction::CMP => "CMP",
        Instruction::DEC => "DEC",
        Instruction::DEX => "DEX",
        Instruction::DCP => "DCP",
        Instruction::AXS => "AXS",
        Instruction::CPX => "CPX",
        Instruction::INX => "INX",
        Instruction::BEQ => "BEQ",
        Instruction::SED => "SED",
        Instruction::SBC => "SBC",
        Instruction::INC => "INC",
        Instruction::ISC => "ISB",
        Instruction::ALR => "ALR",
        Instruction::ARR => "ARR",
    }
}

/// The upper-case hex digit for `n & 15`.
pub open spec fn hex_digit_text(n: u8) -> Seq<char> {
    match n & 15 {
        0 => "0"@,
        1 => "1"@,
        2 => "2"@,
        3 => "3"@,
        4 => "4"@,
        5 => "5"@,
        6 => "6"@,
        7 => "7"@,
        8 => "8"@,
        9 => "9"@,
        10 => "A"@,
        11 => "B"@,
        12 => "C"@,
        13 => "D"@,
        14 => "E"@,
        _ => "F"@,
    }
}

fn hex_digit(n: u8) -> (r: &'static str)
    ensures
        r@ == hex_digit_text(n),
{
    match n & 15 {
        0 => "0",
        1 => "1",
        2 => "2",
        3 => "3",
        4 => "4",
        5 => "5",
        6 => "6",
        7 => "7",
        8 => "8",
        9 => "9",
        10 => "A",
        11 => "B",
        12 => "C",
        13 => "D",
        14 => "E",
        _ => "F",
    }
}

pub open spec fn hex2_text(v: u8) -> Seq<char> {
    hex_digit_text(v / 16) + hex_digit_text(v % 16)
}

pub open spec fn hex4_text(v: u16) -> Seq<char> {
    hex2_text((v / 256) as u8) + hex2_text((v % 256) as u8)
}

fn push_hex2(out: &mut String, v: u8)
    ensures
        final(out)@ == old(out)@ + hex2_text(v),
{
    out.append(hex_digit(v / 16));
    out.append(hex_digit(v % 16));
    assert(final(out)@ =~= old(out)@ + hex2_text(v));
}

fn push_hex4(out: &mut String, v: u16)
    ensures
        final(out)@ == old(out)@ + hex4_text(v),
{
    push_hex2(out, (v / 256) as u8);
    push_hex2(out, (v % 256) as u8);
    assert(final(out)@ =~= old(out)@ + hex4_text(v));
}

/// `s` padded with spaces to `n` characters.
pub open spec fn pad_text(s: Seq<char>, n: int) -> Seq<char> {
    if s.len() < n {
        s + Seq::new((n - s.len()) as nat, |i: int| ' ')
    } else {
        s
    }
}

fn pad(out: &mut String, n: usize)
    requires
        n < 0x10000,
    ensures
        final(out)@ == pad_text(old(out)@, n as int),
{
    proof {
        reveal_strlit(" ");
    }
    let ghost start = out@;
    let mut k: usize = out.unicode_len();
    while k < n
        invariant
            n < 0x10000,
            k == out@.len(),
            start.len() <= out@.len(),
            out@.len() <= n || out@ == start,
            out@ == start + Seq::new((out@.len() - start.len()) as nat, |i: int| ' '),
        decreases n - k,
    {
        let ghost before = out@;
        out.append(" ");
        proof {
            reveal_strlit(" ");
            assert(" "@.len() == 1 && " "@[0] == ' ');
            assert(out@ =~= start + Seq::new((out@.len() - start.len()) as nat, |i: int| ' '));
        }
        k = k + 1;
    }
    proof {
        if start.len() >= n {
            assert(out@ =~= start);
        }
    }
}

/// Jumps, calls, returns and branches: their operand shows as a target.
pub open spec fn is_flow(ins: Instruction) -> bool {
    matches!(ins, Instruction::JMP | Instruction::JSR | Instruction::BEQ | Instruction::BNE
        | Instruction::BCS | Instruction::BCC | Instruction::BMI | Instruction::BPL | Instruction::BVS
        | Instruction::BVC | Instruction::RTS | Instruction::RTI | Instruction::BRK)
}

/// The operand bytes after the opcode at `address`, as one little-endian number.
pub open spec fn operand_value(b: BusView, info: InstructionInfo, address: u16) -> u16 {
    if info.operand_size >= 3 {
        (b.peek(add16(address, 2)) as int * 256 + b.peek(add16(address, 1)) as int) as u16
    } else if info.operand_size == 2 {
        b.peek(add16(address, 1)) as u16
    } else {
        0
    }
}

/// The operand column of a listing line, with the addresses it resolves to
/// and the values found there.
pub open spec fn operand_text(b: BusView, r: Registers, info: InstructionInfo, address: u16) -> Seq<char> {
    let v = operand_value(b, info, address);
    let v8 = (v % 256) as u8;
    match info.addressing_mode {
        AddressingMode::Implied => Seq::empty(),
        AddressingMode::Accumulator => "A"@,
        AddressingMode::Immediate => "#$"@ + hex2_text(v8),
        AddressingMode::Absolute => if is_flow(info.instruction) {
            "$"@ + hex4_text(v)
        } else {
            "$"@ + hex4_text(v) + " = "@ + hex2_text(b.peek(v))
        },
        AddressingMode::Relative => "$"@ + hex4_text(add16(address, 2 + branch_offset(v8))),
        AddressingMode::Indirect => {
            let hi_addr = if v as int % 256 == 255 {
                (v as int - 255) as u16
            } else {
                (v + 1) as u16
            };
            let target = (b.peek(hi_addr) as int * 256 + b.peek(v) as int) as u16;
            "($"@ + hex4_text(v) + ") = "@ + hex4_text(target)
        },
        AddressingMode::ZeroPage => "$"@ + hex2_text(v8) + " = "@ + hex2_text(b.peek(v8 as u16)),
        AddressingMode::ZeroPageX => {
            let e = ((v8 as int + r.x as int) % 256) as u16;
            "$"@ + hex2_text(v8) + ",X @ "@ + hex2_text(e as u8) + " = "@ + hex2_text(b.peek(e))
        },
        AddressingMode::ZeroPageY => {
            let e = ((v8 as int + r.y as int) % 256) as u16;
            "$"@ + hex2_text(v8) + ",Y @ "@ + hex2_text(e as u8) + " = "@ + hex2_text(b.peek(e))
        },
        AddressingMode::AbsoluteX => {
            let e = add16(v, r.x as int);
            "$"@ + hex4_text(v) + ",X @ "@ + hex4_text(e) + " = "@ + hex2_text(b.peek(e))
        },
        AddressingMode::AbsoluteY => {
            let e = add16(v, r.y as int);
            "$"@ + hex4_text(v) + ",Y @ "@ + hex4_text(e) + " = "@ + hex2_text(b.peek(e))
        },
        AddressingMode::IndirectX => {
            let zp = ((v8 as int + r.x as int) % 256) as u8;
            let ptr = peek16_zp(b, zp);
            "($"@ + hex2_text(v8) + ",X) @ "@ + hex2_text(zp) + " = "@ + hex4_text(ptr) + " = "@
                + hex2_text(b.peek(ptr))
        },
        AddressingMode::IndirectY => {
            let base = peek16_zp(b, v8);
            let e = add16(base, r.y as int);
            "($"@ + hex2_text(v8) + "),Y = "@ + hex4_text(base) + " @ "@ + hex4_text(e) + " = "@
                + hex2_text(b.peek(e))
        },
    }
}

/// The opcode and operand bytes of the instruction at `address`, each as
/// two hex digits and a space.
pub open spec fn bytes_text(b: BusView, info: InstructionInfo, address: u16) -> Seq<char> {
    let one = hex2_text(b.peek(address)) + " "@;
    let two = one + hex2_text(b.peek(add16(address, 1))) + " "@;
    if info.operand_size >= 3 {
        two + hex2_text(b.peek(add16(address, 2))) + " "@
    } else if info.operand_size == 2 {
        two
    } else {
        one
    }
}

/// The instruction part of a listing line: `*` marks an unofficial opcode.
pub open spec fn instruction_text(b: BusView, r: Registers, info: InstructionInfo, address: u16) -> Seq<char> {
    (if info.unofficial {
        "*"@
    } else {
        " "@
    }) + mnemonic_str(info.instruction)@ + " "@ + operand_text(b, r, info, address)
}

/// A listing line: address, bytes padded to 15 columns, instruction.
pub open spec fn line_text(b: BusView, r: Registers, address: u16) -> Seq<char> {
    let info = opcode_table(b.peek(address));
    pad_text(hex4_text(address) + "  "@ + bytes_text(b, info, address), 15) + instruction_text(
        b,
        r,
        info,
        address,
    )
}

/// A log line: the listing line of the instruction at PC padded to 48
/// columns, then the registers.
pub open spec fn log_text(b: BusView, r: Registers) -> Seq<char> {
    pad_text(line_text(b, r, r.pc), 48) + "A:"@ + hex2_text(r.a) + " X:"@ + hex2_text(r.x) + " Y:"@
        + hex2_text(r.y) + " P:"@ + hex2_text(r.p) + " SP:"@ + hex2_text(r.sp)
}

fn operand_value_at(bus: &Bus, info: InstructionInfo, address: u16) -> (r: u16)
    requires
        bus.wf(),
    ensures
        r == operand_value(bus@, info, address),
{
    if info.operand_size >= 3 {
        bus.cpu_read_debug(next_address(address, 2)) as u16 * 256 + bus.cpu_read_debug(
            next_address(address, 1),
        ) as u16
    } else if info.operand_size == 2 {
        bus.cpu_read_debug(next_address(address, 1)) as u16
    } else {
        0
    }
}

fn push_accumulator(out: &mut String, bus: &Bus, r: Registers, info: InstructionInfo, address: u16, v: u16)
    requires
        bus.wf(),
        info.addressing_mode == AddressingMode::Accumulator,
        v == operand_value(bus@, info, address),
    ensures
        final(out)@ == old(out)@ + operand_text(bus@, r, info, address),
{
    let v8 = (v % 256) as u8;
        out.append("A");
    assert(final(out)@ =~= old(out)@ + operand_text(bus@, r, info, address));
}

fn push_immediate(out: &mut String, bus: &Bus, r: Registers, info: InstructionInfo, address: u16, v: u16)
    requires
        bus.wf(),
        info.addressing_mode == AddressingMode::Immediate,
        v == operand_value(bus@, info, address),
    ensures
        final(out)@ == old(out)@ + operand_text(bus@, r, info, address),
{
    let v8 = (v % 256) as u8;
        out.append("#$");
        push_hex2(out, v8);
    assert(final(out)@ =~= old(out)@ + operand_text(bus@, r, info, address));
}

#[verifier::rlimit(60)]
fn push_absolute(out: &mut String, bus: &Bus, r: Registers, info: InstructionInfo, address: u16, v: u16)
    requires
        bus.wf(),
        info.addressing_mode == AddressingMode::Absolute,
        v == operand_value(bus@, info, address),
    ensures
        final(out)@ == old(out)@ + operand_text(bus@, r, info, address),
{
    let v8 = (v % 256) as u8;
        out.append("$");
        push_hex4(out, v);
        let flow = match info.instruction {
            Instruction::JMP | Instruction::JSR | Instruction::BEQ | Instruction::BNE
            | Instruction::BCS | Instruction::BCC | Instruction::BMI | Instruction::BPL
            | Instruction::BVS | Instruction::BVC | Instruction::RTS | Instruction::RTI
            | Instruction::BRK => true,
            _ => false,
        };
        if !flow {
            out.append(" = ");
            push_hex2(out, bus.cpu_read_debug(v));
        }
    assert(final(out)@ =~= old(out)@ + operand_text(bus@, r, info, address));
}

#[verifier::rlimit(60)]
fn push_relative(out: &mut String, bus: &Bus, r: Registers, info: InstructionInfo, address: u16, v: u16)
    requires
        bus.wf(),
        info.addressing_mode == AddressingMode::Relative,
        v == operand_value(bus@, info, address),
    ensures
        final(out)@ == old(out)@ + operand_text(bus@, r, info, address),
{
    let v8 = (v % 256) as u8;
        out.append("$");
        let next = next_address(address, 2);
        let target = if v8 < 0x80 {
            ((next as u32 + v8 as u32) % 0x10000) as u16
        } else {
            ((next as u32 + 0x10000 + v8 as u32 - 256) % 0x10000) as u16
        };
        push_hex4(out, target);
    assert(final(out)@ =~= old(out)@ + operand_text(bus@, r, info, address));
}

#[verifier::rlimit(60)]
fn push_indirect(out: &mut String, bus: &Bus, r: Registers, info: InstructionInfo, address: u16, v: u16)
    requires
        bus.wf(),
        info.addressing_mode == AddressingMode::Indirect,
        v == operand_value(bus@, info, address),
    ensures
        final(out)@ == old(out)@ + operand_text(bus@, r, info, address),
{
    let v8 = (v % 256) as u8;
        let hi_addr = if v % 256 == 255 {
            v - 255
        } else {
            v + 1
        };
        let target = bus.cpu_read_debug(hi_addr) as u16 * 256 + bus.cpu_read_debug(v) as u16;
        out.append("($");
        push_hex4(out, v);
        out.append(") = ");
        push_hex4(out, target);
    assert(final(out)@ =~= old(out)@ + operand_text(bus@, r, info, address));
}

#[verifier::rlimit(60)]
fn push_zero_page(out: &mut String, bus: &Bus, r: Registers, info: InstructionInfo, address: u16, v: u16)
    requires
        bus.wf(),
        info.addressing_mode == AddressingMode::ZeroPage,
        v == operand_value(bus@, info, address),
    ensures
        final(out)@ == old(out)@ + operand_text(bus@, r, info, address),
{
    let v8 = (v % 256) as u8;
        out.append("$");
        push_hex2(out, v8);
        out.append(" = ");
        push_hex2(out, bus.cpu_read_debug(v8 as u16));
    assert(final(out)@ =~= old(out)@ + operand_text(bus@, r, info, address));
}

#[verifier::rlimit(60)]
fn push_zero_page_x(out: &mut String, bus: &Bus, r: Registers, info: InstructionInfo, address: u16, v: u16)
    requires
        bus.wf(),
        info.addressing_mode == AddressingMode::ZeroPageX,
        v == operand_value(bus@, info, address),
    ensures
        final(out)@ == old(out)@ + operand_text(bus@, r, info, address),
{
    let v8 = (v % 256) as u8;
        let e = ((v8 as u16 + r.x as u16) % 256) as u16;
        out.append("$");
        push_hex2(out, v8);
        out.append(",X @ ");
        push_hex2(out, e as u8);
        out.append(" = ");
        push_hex2(out, bus.cpu_read_debug(e));
    assert(final(out)@ =~= old(out)@ + operand_text(bus@, r, info, address));
}

#[verifier::rlimit(60)]
fn push_zero_page_y(out: &mut String, bus: &Bus, r: Registers, info: InstructionInfo, address: u16, v: u16)
    requires
        bus.wf(),
        info.addressing_mode == AddressingMode::ZeroPageY,
        v == operand_value(bus@, info, address),
    ensures
        final(out)@ == old(out)@ + operand_text(bus@, r, info, address),
{
    let v8 = (v % 256) as u8;
        let e = ((v8 as u16 + r.y as u16) % 256) as u16;
        out.append("$");
        push_hex2(out, v8);
        out.append(",Y @ ");
        push_hex2(out, e as u8);
        out.append(" = ");
        push_hex2(out, bus.cpu_read_debug(e));
    assert(final(out)@ =~= old(out)@ + operand_text(bus@, r, info, address));
}

#[verifier::rlimit(60)]
fn push_absolute_x(out: &mut String, bus: &Bus, r: Registers, info: InstructionInfo, address: u16, v: u16)
    requires
        bus.wf(),
        info.addressing_mode == AddressingMode::AbsoluteX,
        v == operand_value(bus@, info, address),
    ensures
        final(out)@ == old(out)@ + operand_text(bus@, r, info, address),
{
    let v8 = (v % 256) as u8;
        let e = next_address(v, r.x as u16);
        out.append("$");
        push_hex4(out, v);
        out.append(",X @ ");
        push_hex4(out, e);
        out.append(" = ");
        push_hex2(out, bus.cpu_read_debug(e));
    assert(final(out)@ =~= old(out)@ + operand_text(bus@, r, info, address));
}

#[verifier::rlimit(60)]
fn push_absolute_y(out: &mut String, bus: &Bus, r: Registers, info: InstructionInfo, address: u16, v: u16)
    requires
        bus.wf(),
        info.addressing_mode == AddressingMode::AbsoluteY,
        v == operand_value(bus@, info, address),
    ensures
        final(out)@ == old(out)@ + operand_text(bus@, r, info, address),
{
    let v8 = (v % 256) as u8;
        let e = next_address(v, r.y as u16);
        out.append("$");
        push_hex4(out, v);
        out.append(",Y @ ");
        push_hex4(out, e);
        out.append(" = ");
        push_hex2(out, bus.cpu_read_debug(e));
    assert(final(out)@ =~= old(out)@ + operand_text(bus@, r, info, address));
}

#[verifier::rlimit(60)]
fn push_indirect_x(out: &mut String, bus: &Bus, r: Registers, info: InstructionInfo, address: u16, v: u16)
    requires
        bus.wf(),
        info.addressing_mode == AddressingMode::IndirectX,
        v == operand_value(bus@, info, address),
    ensures
        final(out)@ == old(out)@ + operand_text(bus@, r, info, address),
{
    let v8 = (v % 256) as u8;
        let zp = ((v8 as u16 + r.x as u16) % 256) as u8;
        let ptr = read_word_zp_debug(bus, zp);
        out.append("($");
        push_hex2(out, v8);
        out.append(",X) @ ");
        push_hex2(out, zp);
        out.append(" = ");
        push_hex4(out, ptr);
        out.append(" = ");
        push_hex2(out, bus.cpu_read_debug(ptr));
    assert(final(out)@ =~= old(out)@ + operand_text(bus@, r, info, address));
}

#[verifier::rlimit(60)]
fn push_indirect_y(out: &mut String, bus: &Bus, r: Registers, info: InstructionInfo, address: u16, v: u16)
    requires
        bus.wf(),
        info.addressing_mode == AddressingMode::IndirectY,
        v == operand_value(bus@, info, address),
    ensures
        final(out)@ == old(out)@ + operand_text(bus@, r, info, address),
{
    let v8 = (v % 256) as u8;
        let base = read_word_zp_debug(bus, v8);
        let e = next_address(base, r.y as u16);
        out.append("($");
        push_hex2(out, v8);
        out.append("),Y = ");
        push_hex4(out, base);
        out.append(" @ ");
        push_hex4(out, e);
        out.append(" = ");
        push_hex2(out, bus.cpu_read_debug(e));
    assert(final(out)@ =~= old(out)@ + operand_text(bus@, r, info, address));
}

fn push_operand(out: &mut String, bus: &Bus, r: Registers, info: InstructionInfo, address: u16)
    requires
        bus.wf(),
    ensures
        final(out)@ == old(out)@ + operand_text(bus@, r, info, address),
{
    let v = operand_value_at(bus, info, address);
    match info.addressing_mode {
        AddressingMode::Implied => {
            assert(final(out)@ =~= old(out)@ + operand_text(bus@, r, info, address));
        },
        AddressingMode::Accumulator => push_accumulator(out, bus, r, info, address, v),
        AddressingMode::Immediate => push_immediate(out, bus, r, info, address, v),
        AddressingMode::Absolute => push_absolute(out, bus, r, info, address, v),
        AddressingMode::Relative => push_relative(out, bus, r, info, address, v),
        AddressingMode::Indirect => push_indirect(out, bus, r, info, address, v),
        AddressingMode::ZeroPage => push_zero_page(out, bus, r, info, address, v),
        AddressingMode::ZeroPageX => push_zero_page_x(out, bus, r, info, address, v),
        AddressingMode::ZeroPageY => push_zero_page_y(out, bus, r, info, address, v),
        AddressingMode::AbsoluteX => push_absolute_x(out, bus, r, info, address, v),
        AddressingMode::AbsoluteY => push_absolute_y(out, bus, r, info, address, v),
        AddressingMode::IndirectX => push_indirect_x(out, bus, r, info, address, v),
        AddressingMode::IndirectY => push_indirect_y(out, bus, r, info, address, v),
    }
}

fn push_bytes(out: &mut String, bus: &Bus, info: InstructionInfo, address: u16)
    requires
        bus.wf(),
    ensures
        final(out)@ == old(out)@ + bytes_text(bus@, info, address),
{
    push_hex2(out, bus.cpu_read_debug(address));
    out.append(" ");
    if info.operand_size >= 2 {
        push_hex2(out, bus.cpu_read_debug(next_address(address, 1)));
        out.append(" ");
    }
    if info.operand_size >= 3 {
        push_hex2(out, bus.cpu_read_debug(next_address(address, 2)));
        out.append(" ");
    }
    assert(final(out)@ =~= old(out)@ + bytes_text(bus@, info, address));
}

fn push_instruction(out: &mut String, bus: &Bus, r: Registers, info: InstructionInfo, address: u16)
    requires
        bus.wf(),
    ensures
        final(out)@ == old(out)@ + instruction_text(bus@, r, info, address),
{
    if info.unofficial {
        out.append("*");
    } else {
        out.append(" ");
    }
    out.append(mnemonic(info.instruction));
    out.append(" ");
    push_operand(out, bus, r, info, address);
    assert(final(out)@ =~= old(out)@ + instruction_text(bus@, r, info, address));
}

/// The listing line of the instruction at `address`.
pub fn listing_line(bus: &Bus, r: Registers, address: u16) -> (s: String)
    requires
        bus.wf(),
    ensures
        s@ == line_text(bus@, r, address),
{
    let info = decode_opcode(bus.cpu_read_debug(address));
    let mut out = String::new();
    push_hex4(&mut out, address);
    out.append("  ");
    push_bytes(&mut out, bus, info, address);
    assert(out@ =~= hex4_text(address) + "  "@ + bytes_text(bus@, info, address));
    pad(&mut out, 15);
    push_instruction(&mut out, bus, r, info, address);
    out
}

impl Cpu {
    /// The listing line of the instruction at `address`, in the nestest log format.
    pub fn disassemble_instruction(&self, bus: &Bus, address: u16) -> (r: String)
        requires
            bus.wf(),
        ensures
            r@ == line_text(bus@, self.registers, address),
    {
        listing_line(bus, self.registers, address)
    }

    /// The instruction at PC without address and bytes: mnemonic and operand.
    pub fn disassemble_instruction_short(&self, bus: &Bus) -> (r: String)
        requires
            bus.wf(),
        ensures
            r@ == instruction_text(
                bus@,
                self.registers,
                opcode_table(bus@.peek(self.registers.pc)),
                self.registers.pc,
            ),
    {
        let info = decode_opcode(bus.cpu_read_debug(self.registers.pc));
        let mut out = String::new();
        push_instruction(&mut out, bus, self.registers, info, self.registers.pc);
        assert(out@ =~= instruction_text(bus@, self.registers, info, self.registers.pc));
        out
    }

    /// The log line for the current state: the instruction at PC and the registers.
    pub fn get_current_log(&self, bus: &Bus) -> (r: String)
        requires
            bus.wf(),
        ensures
            r@ == log_text(bus@, self.registers),
    {
        let r = self.registers;
        let mut out = self.disassemble_instruction(bus, r.pc);
        pad(&mut out, 48);
        out.append("A:");
        push_hex2(&mut out, r.a);
        out.append(" X:");
        push_hex2(&mut out, r.x);
        out.append(" Y:");
        push_hex2(&mut out, r.y);
        out.append(" P:");
        push_hex2(&mut out, r.p);
        out.append(" SP:");
        push_hex2(&mut out, r.sp);
        out
    }
}

/// An instruction as assembly text: the mnemonic, then the operand in its
/// addressing mode's syntax (`#$nn`, `$nnnn,X`, `($nn),Y`, …); a branch
/// shows its target address.
pub open spec fn assembly_text(b: BusView, info: InstructionInfo, address: u16) -> Seq<char> {
    mnemonic_str(info.instruction)@ + assembly_operand_text(b, info, address)
}

/// The operand part of `assembly_text`.
pub open spec fn assembly_operand_text(b: BusView, info: InstructionInfo, address: u16) -> Seq<
    char,
> {
    let v = operand_value(b, info, address);
    let v8 = (v % 256) as u8;
    match info.addressing_mode {
        AddressingMode::Implied | AddressingMode::Accumulator => Seq::empty(),
        AddressingMode::Immediate => " #$"@ + hex2_text(v8),
        AddressingMode::Absolute => " $"@ + hex4_text(v),
        AddressingMode::AbsoluteX => " $"@ + hex4_text(v) + ",X"@,
        AddressingMode::AbsoluteY => " $"@ + hex4_text(v) + ",Y"@,
        AddressingMode::ZeroPage => " $"@ + hex2_text(v8),
        AddressingMode::ZeroPageX => " $"@ + hex2_text(v8) + ",X"@,
        AddressingMode::ZeroPageY => " $"@ + hex2_text(v8) + ",Y"@,
        AddressingMode::Indirect => " ($"@ + hex4_text(v) + ")"@,
        AddressingMode::IndirectX => " ($"@ + hex2_text(v8) + ",X)"@,
        AddressingMode::IndirectY => " ($"@ + hex2_text(v8) + "),Y"@,
        AddressingMode::Relative => " $"@ + hex4_text(add16(address, 2 + branch_offset(v8))),
    }
}

fn push_asm_immediate(out: &mut String, bus: &Bus, info: InstructionInfo, address: u16, v: u16)
    requires
        bus.wf(),
        info.addressing_mode == AddressingMode::Immediate,
        v == operand_value(bus@, info, address),
    ensures
        final(out)@ == old(out)@ + assembly_operand_text(bus@, info, address),
{
    let v8 = (v % 256) as u8;
        out.append(" #$");
        push_hex2(out, v8);
    assert(final(out)@ =~= old(out)@ + assembly_operand_text(bus@, info, address));
}

fn push_asm_absolute(out: &mut String, bus: &Bus, info: InstructionInfo, address: u16, v: u16)
    requires
        bus.wf(),
        info.addressing_mode == AddressingMode::Absolute,
        v == operand_value(bus@, info, address),
    ensures
        final(out)@ == old(out)@ + assembly_operand_text(bus@, info, address),
{
    let v8 = (v % 256) as u8;
        out.append(" $");
        push_hex4(out, v);
    assert(final(out)@ =~= old(out)@ + assembly_operand_text(bus@, info, address));
}

fn push_asm_absolute_x(out: &mut String, bus: &Bus, info: InstructionInfo, address: u16, v: u16)
    requires
        bus.wf(),
        info.addressing_mode == AddressingMode::AbsoluteX,
        v == operand_value(bus@, info, address),
    ensures
        final(out)@ == old(out)@ + assembly_operand_text(bus@, info, address),
{
    let v8 = (v % 256) as u8;
        out.append(" $");
        push_hex4(out, v);
        out.append(",X");
    assert(final(out)@ =~= old(out)@ + assembly_operand_text(bus@, info, address));
}

fn push_asm_absolute_y(out: &mut String, bus: &Bus, info: InstructionInfo, address: u16, v: u16)
    requires
        bus.wf(),
        info.addressing_mode == AddressingMode::AbsoluteY,
        v == operand_value(bus@, info, address),
    ensures
        final(out)@ == old(out)@ + assembly_operand_text(bus@, info, address),
{
    let v8 = (v % 256) as u8;
        out.append(" $");
        push_hex4(out, v);
        out.append(",Y");
    assert(final(out)@ =~= old(out)@ + assembly_operand_text(bus@, info, address));
}

fn push_asm_zero_page(out: &mut String, bus: &Bus, info: InstructionInfo, address: u16, v: u16)
    requires
        bus.wf(),
        info.addressing_mode == AddressingMode::ZeroPage,
        v == operand_value(bus@, info, address),
    ensures
        final(out)@ == old(out)@ + assembly_operand_text(bus@, info, address),
{
    let v8 = (v % 256) as u8;
        out.append(" $");
        push_hex2(out, v8);
    assert(final(out)@ =~= old(out)@ + assembly_operand_text(bus@, info, address));
}

fn push_asm_zero_page_x(out: &mut String, bus: &Bus, info: InstructionInfo, address: u16, v: u16)
    requires
        bus.wf(),
        info.addressing_mode == AddressingMode::ZeroPageX,
        v == operand_value(bus@, info, address),
    ensures
        final(out)@ == old(out)@ + assembly_operand_text(bus@, info, address),
{
    let v8 = (v % 256) as u8;
        out.append(" $");
        push_hex2(out, v8);
        out.append(",X");
    assert(final(out)@ =~= old(out)@ + assembly_operand_text(bus@, info, address));
}

fn push_asm_zero_page_y(out: &mut String, bus: &Bus, info: InstructionInfo, address: u16, v: u16)
    requires
        bus.wf(),
        info.addressing_mode == AddressingMode::ZeroPageY,
        v == operand_value(bus@, info, address),
    ensures
        final(out)@ == old(out)@ + assembly_operand_text(bus@, info, address),
{
    let v8 = (v % 256) as u8;
        out.append(" $");
        push_hex2(out, v8);
        out.append(",Y");
    assert(final(out)@ =~= old(out)@ + assembly_operand_text(bus@, info, address));
}

fn push_asm_indirect(out: &mut String, bus: &Bus, info: InstructionInfo, address: u16, v: u16)
    requires
        bus.wf(),
        info.addressing_mode == AddressingMode::Indirect,
        v == operand_value(bus@, info, address),
    ensures
        final(out)@ == old(out)@ + assembly_operand_text(bus@, info, address),
{
    let v8 = (v % 256) as u8;
        out.append(" ($");
        push_hex4(out, v);
        out.append(")");
    assert(final(out)@ =~= old(out)@ + assembly_operand_text(bus@, info, address));
}

fn push_asm_indirect_x(out: &mut String, bus: &Bus, info: InstructionInfo, address: u16, v: u16)
    requires
        bus.wf(),
        info.addressing_mode == AddressingMode::IndirectX,
        v == operand_value(bus@, info, address),
    ensures
        final(out)@ == old(out)@ + assembly_operand_text(bus@, info, address),
{
    let v8 = (v % 256) as u8;
        out.append(" ($");
        push_hex2(out, v8);
        out.append(",X)");
    assert(final(out)@ =~= old(out)@ + assembly_operand_text(bus@, info, address));
}

fn push_asm_indirect_y(out: &mut String, bus: &Bus, info: InstructionInfo, address: u16, v: u16)
    requires
        bus.wf(),
        info.addressing_mode == AddressingMode::IndirectY,
        v == operand_value(bus@, info, address),
    ensures
        final(out)@ == old(out)@ + assembly_operand_text(bus@, info, address),
{
    let v8 = (v % 256) as u8;
        out.append(" ($");
        push_hex2(out, v8);
        out.append("),Y");
    assert(final(out)@ =~= old(out)@ + assembly_operand_text(bus@, info, address));
}

#[verifier::rlimit(80)]
fn push_asm_relative(out: &mut String, bus: &Bus, info: InstructionInfo, address: u16, v: u16)
    requires
        bus.wf(),
        info.addressing_mode == AddressingMode::Relative,
        v == operand_value(bus@, info, address),
    ensures
        final(out)@ == old(out)@ + assembly_operand_text(bus@, info, address),
{
    let v8 = (v % 256) as u8;
        out.append(" $");
        let next = next_address(address, 2);
        let target = if v8 < 0x80 {
            ((next as u32 + v8 as u32) % 0x10000) as u16
        } else {
            ((next as u32 + 0x10000 + v8 as u32 - 256) % 0x10000) as u16
        };
        push_hex4(out, target);
    assert(final(out)@ =~= old(out)@ + assembly_operand_text(bus@, info, address));
}

fn push_assembly_operand(out: &mut String, bus: &Bus, info: InstructionInfo, address: u16)
    requires
        bus.wf(),
    ensures
        final(out)@ == old(out)@ + assembly_operand_text(bus@, info, address),
{
    let v = operand_value_at(bus, info, address);
    match info.addressing_mode {
        AddressingMode::Implied | AddressingMode::Accumulator => {
            assert(final(out)@ =~= old(out)@ + assembly_operand_text(bus@, info, address));
        },
        AddressingMode::Immediate => push_asm_immediate(out, bus, info, address, v),
        AddressingMode::Absolute => push_asm_absolute(out, bus, info, address, v),
        AddressingMode::AbsoluteX => push_asm_absolute_x(out, bus, info, address, v),
        AddressingMode::AbsoluteY => push_asm_absolute_y(out, bus, info, address, v),
        AddressingMode::ZeroPage => push_asm_zero_page(out, bus, info, address, v),
        AddressingMode::ZeroPageX => push_asm_zero_page_x(out, bus, info, address, v),
        AddressingMode::ZeroPageY => push_asm_zero_page_y(out, bus, info, address, v),
        AddressingMode::Indirect => push_asm_indirect(out, bus, info, address, v),
        AddressingMode::IndirectX => push_asm_indirect_x(out, bus, info, address, v),
        AddressingMode::IndirectY => push_asm_indirect_y(out, bus, info, address, v),
        AddressingMode::Relative => push_asm_relative(out, bus, info, address, v),
    }
}

/// The assembly text of the instruction at `address`.
pub fn assembly_line(bus: &Bus, address: u16) -> (s: String)
    requires
        bus.wf(),
    ensures
        s@ == assembly_text(bus@, opcode_table(bus@.peek(address)), address),
{
    let info = decode_opcode(bus.cpu_read_debug(address));
    let mut out = String::new();
    out.append(mnemonic(info.instruction));
    push_assembly_operand(&mut out, bus, info, address);
    assert(out@ =~= assembly_text(bus@, info, address));
    out
}

// ---------------------------------------------------------------- decode / encode

/// An instruction as bytes describe it: mnemonic, mode, operand value, length.
#[derive(Clone, Copy, Debug, PartialEq, Eq, Structural)]
pub struct DecodedInstruction {
    pub instruction: Instruction,
    pub addressing_mode: AddressingMode,
    /// The operand bytes as a little-endian number (0 when there are none).
    pub operand: u16,
    /// Length in bytes, opcode included.
    pub length: u8,
}

/// Bytes that begin with a complete instruction this CPU executes.
pub open spec fn valid_encoding(bytes: Seq<u8>) -> bool {
    &&& bytes.len() >= 1
    &&& bytes.len() >= opcode_table(bytes[0]).operand_size
    &&& !is_illegal(opcode_table(bytes[0]).instruction)
}

pub open spec fn decoded_of(bytes: Seq<u8>) -> DecodedInstruction {
    let info = opcode_table(bytes[0]);
    DecodedInstruction {
        instruction: info.instruction,
        addressing_mode: info.addressing_mode,
        operand: if info.operand_size >= 3 {
            (bytes[1] as int + 256 * bytes[2] as int) as u16
        } else if info.operand_size == 2 {
            bytes[1] as u16
        } else {
            0
        },
        length: info.operand_size,
    }
}

/// Opcode `op` followed by the operand bytes of `d`, low byte first.
pub open spec fn encoding_of(op: u8, d: DecodedInstruction) -> Seq<u8> {
    if d.length >= 3 {
        seq![op, (d.operand % 256) as u8, (d.operand / 256) as u8]
    } else if d.length == 2 {
        seq![op, (d.operand % 256) as u8]
    } else {
        seq![op]
    }
}

pub open spec fn entry_matches(op: u8, ins: Instruction, mode: AddressingMode) -> bool {
    opcode_table(op).instruction == ins && opcode_table(op).addressing_mode == mode
}

/// Every entry's length is its addressing mode's.
pub proof fn lemma_table_lengths(op: u8)
    ensures
        opcode_table(op).operand_size == mode_len(opcode_table(op).addressing_mode),
{
    let low = op % 16;
    lemma_row_0_lengths(low);
    lemma_row_1_lengths(low);
    lemma_row_2_lengths(low);
    lemma_row_3_lengths(low);
    lemma_row_4_lengths(low);
    lemma_row_5_lengths(low);
    lemma_row_6_lengths(low);
    lemma_row_7_lengths(low);
    lemma_row_8_lengths(low);
    lemma_row_9_lengths(low);
    lemma_row_a_lengths(low);
    lemma_row_b_lengths(low);
    lemma_row_c_lengths(low);
    lemma_row_d_lengths(low);
    lemma_row_e_lengths(low);
    lemma_row_f_lengths(low);
}

proof fn lemma_row_0_lengths(low: u8)
    ensures
        table_row_0(low).operand_size == mode_len(table_row_0(low).addressing_mode),
{
}

proof fn lemma_row_1_lengths(low: u8)
    ensures
        table_row_1(low).operand_size == mode_len(table_row_1(low).addressing_mode),
{
}

proof fn lemma_row_2_lengths(low: u8)
    ensures
        table_row_2(low).operand_size == mode_len(table_row_2(low).addressing_mode),
{
}

proof fn lemma_row_3_lengths(low: u8)
    ensures
        table_row_3(low).operand_size == mode_len(table_row_3(low).addressing_mode),
{
}

proof fn lemma_row_4_lengths(low: u8)
    ensures
        table_row_4(low).operand_size == mode_len(table_row_4(low).addressing_mode),
{
}

proof fn lemma_row_5_lengths(low: u8)
    ensures
        table_row_5(low).operand_size == mode_len(table_row_5(low).addressing_mode),
{
}

proof fn lemma_row_6_lengths(low: u8)
    ensures
        table_row_6(low).operand_size == mode_len(table_row_6(low).addressing_mode),
{
}

proof fn lemma_row_7_lengths(low: u8)
    ensures
        table_row_7(low).operand_size == mode_len(table_row_7(low).addressing_mode),
{
}

proof fn lemma_row_8_lengths(low: u8)
    ensures
        table_row_8(low).operand_size == mode_len(table_row_8(low).addressing_mode),
{
}

proof fn lemma_row_9_lengths(low: u8)
    ensures
        table_row_9(low).operand_size == mode_len(table_row_9(low).addressing_mode),
{
}

proof fn lemma_row_a_lengths(low: u8)
    ensures
        table_row_a(low).operand_size == mode_len(table_row_a(low).addressing_mode),
{
}

proof fn lemma_row_b_lengths(low: u8)
    ensures
        table_row_b(low).operand_size == mode_len(table_row_b(low).addressing_mode),
{
}

proof fn lemma_row_c_lengths(low: u8)
    ensures
        table_row_c(low).operand_size == mode_len(table_row_c(low).addressing_mode),
{
}

proof fn lemma_row_d_lengths(low: u8)
    ensures
        table_row_d(low).operand_size == mode_len(table_row_d(low).addressing_mode),
{
}

proof fn lemma_row_e_lengths(low: u8)
    ensures
        table_row_e(low).operand_size == mode_len(table_row_e(low).addressing_mode),
{
}

proof fn lemma_row_f_lengths(low: u8)
    ensures
        table_row_f(low).operand_size == mode_len(table_row_f(low).addressing_mode),
{
}


/// Decodes the instruction at the start of `bytes`.
pub fn decode_instruction(bytes: &[u8]) -> (r: Option<DecodedInstruction>)
    ensures
        r.is_some() <==> valid_encoding(bytes@),
        r matches Some(d) ==> d == decoded_of(bytes@),
{
    if bytes.len() == 0 {
        return None;
    }
    let info = decode_opcode(bytes[0]);
    if bytes.len() < info.operand_size as usize {
        return None;
    }
    match info.instruction {
        Instruction::STP | Instruction::ANC | Instruction::ALR | Instruction::ARR
        | Instruction::XAA | Instruction::AHX | Instruction::TAS | Instruction::SHY
        | Instruction::SHX | Instruction::LAS | Instruction::AXS => {
            return None;
        },
        _ => {},
    }
    let operand: u16 = if info.operand_size >= 3 {
        bytes[1] as u16 + 256 * bytes[2] as u16
    } else if info.operand_size == 2 {
        bytes[1] as u16
    } else {
        0
    };
    Some(
        DecodedInstruction {
            instruction: info.instruction,
            addressing_mode: info.addressing_mode,
            operand,
            length: info.operand_size,
        },
    )
}

/// The first opcode whose table entry has this mnemonic and mode.
pub fn opcode_for(ins: Instruction, mode: AddressingMode) -> (r: Option<u8>)
    ensures
        r matches Some(op) ==> entry_matches(op, ins, mode),
        r is None ==> forall|op: u8| !entry_matches(op, ins, mode),
{
    let mut k: u16 = 0;
    while k < 256
        invariant
            k <= 256,
            forall|op: u8| op < k ==> !entry_matches(op, ins, mode),
        decreases 256 - k,
    {
        let info = decode_opcode(k as u8);
        if info.instruction == ins && info.addressing_mode == mode {
            return Some(k as u8);
        }
        k = k + 1;
    }
    None
}

/// Encodes a decoded instruction: an opcode with its mnemonic and mode,
/// then the operand bytes.
pub fn encode_instruction(d: &DecodedInstruction) -> (r: Option<Vec<u8>>)
    ensures
        r is None <==> forall|op: u8| !entry_matches(op, d.instruction, d.addressing_mode),
        r matches Some(v) ==> v@.len() >= 1 && entry_matches(v@[0], d.instruction, d.addressing_mode)
            && v@ == encoding_of(v@[0], *d),
{
    match opcode_for(d.instruction, d.addressing_mode) {
        None => None,
        Some(op) => {
            let mut v: Vec<u8> = Vec::new();
            v.push(op);
            if d.length >= 2 {
                v.push((d.operand % 256) as u8);
            }
            if d.length >= 3 {
                v.push((d.operand / 256) as u8);
            }
            assert(v@ =~= encoding_of(op, *d));
            Some(v)
        },
    }
}

/// Disassembly round trip: decoding valid bytes, encoding the result with
/// any opcode of the same mnemonic and mode, and decoding again gives the
/// same instruction, mode and operand.
#[verifier::rlimit(60)]
pub proof fn lemma_disassembly_round_trip(bytes: Seq<u8>, op: u8)
    requires
        valid_encoding(bytes),
        entry_matches(op, decoded_of(bytes).instruction, decoded_of(bytes).addressing_mode),
    ensures
        valid_encoding(encoding_of(op, decoded_of(bytes))),
        decoded_of(encoding_of(op, decoded_of(bytes))) == decoded_of(bytes),
{
    lemma_table_lengths(op);
    lemma_table_lengths(bytes[0]);
    let d = decoded_of(bytes);
    let e = encoding_of(op, d);
    if d.length >= 3 {
        assert(e[1] as int + 256 * e[2] as int == d.operand as int);
    }
}

/// Decoding never fails on bytes that an encoding produced: the encoder
/// finds an opcode for whatever the decoder returned.
pub proof fn lemma_encode_total(bytes: Seq<u8>)
    requires
        valid_encoding(bytes),
    ensures
        entry_matches(bytes[0], decoded_of(bytes).instruction, decoded_of(bytes).addressing_mode),
{
}

// ---------------------------------------------------------------- listings

/// The address of the `i`-th instruction of a listing that starts at `start`.
#[verifier::opaque]
pub open spec fn listing_address(b: BusView, start: u16, i: nat) -> u16
    decreases i,
{
    if i == 0 {
        start
    } else {
        let a = listing_address(b, start, (i - 1) as nat);
        add16(a, opcode_table(b.peek(a)).operand_size as int)
    }
}

/// Lists a range of code with a fixed register file for the operands.
pub struct Disassembler {
    pub registers: Registers,
    pub start_address: u16,
    pub end_address: u16,
}

impl Disassembler {
    pub fn new(registers: Registers, start_address: u16, end_address: u16) -> (r: Self)
        ensures
            r == (Disassembler { registers, start_address, end_address }),
    {
        Disassembler { registers, start_address, end_address }
    }

    /// The assembly text of the instruction at `address` (mnemonic first)
    /// and the address of the next instruction.
    pub fn disassemble_instruction(&self, bus: &Bus, address: u16) -> (r: (String, u16))
        requires
            bus.wf(),
        ensures
            r.0@ == assembly_text(bus@, opcode_table(bus@.peek(address)), address),
            r.1 == add16(address, opcode_table(bus@.peek(address)).operand_size as int),
    {
        let info = decode_opcode(bus.cpu_read_debug(address));
        (assembly_line(bus, address), next_address(address, info.operand_size as u16))
    }

    /// The listing lines (address, bytes, instruction) from the start
    /// address up to the end address, one per instruction; stops where the
    /// addresses wrap.
    #[verifier::rlimit(60)]
    pub fn disassemble(&self, bus: &Bus) -> (r: Vec<String>)
        requires
            bus.wf(),
        ensures
            self.start_address <= self.end_address ==> r@.len() >= 1,
            r@.len() <= 0x10000,
            forall|i: int|
                0 <= i < r@.len() ==> #[trigger] r@[i]@ == line_text(
                    bus@,
                    self.registers,
                    listing_address(bus@, self.start_address, i as nat),
                ),
            forall|i: int|
                0 <= i < r@.len() ==> #[trigger] listing_address(bus@, self.start_address, i as nat)
                    <= self.end_address,
    {
        proof {
            reveal(listing_address);
        }
        let mut lines: Vec<String> = Vec::new();
        let mut address = self.start_address;
        let mut done = false;
        let mut count: u32 = 0;
        while !done && address <= self.end_address && count < 0x10000
            invariant
                bus.wf(),
                lines@.len() == count,
                count <= 0x10000,
                !done ==> address == listing_address(bus@, self.start_address, count as nat),
                count == 0 ==> !done,
                forall|i: int|
                    0 <= i < lines@.len() ==> #[trigger] lines@[i]@ == line_text(
                        bus@,
                        self.registers,
                        listing_address(bus@, self.start_address, i as nat),
                    ),
                forall|i: int|
                    0 <= i < lines@.len() ==> #[trigger] listing_address(bus@, self.start_address, i as nat)
                        <= self.end_address,
            decreases 0x10000 - count,
        {
            proof {
                reveal(listing_address);
            }
            let info = decode_opcode(bus.cpu_read_debug(address));
            let line = listing_line(bus, self.registers, address);
            let next = next_address(address, info.operand_size as u16);
            lines.push(line);
            if next <= address {
                done = true;
            }
            address = next;
            count = count + 1;
        }
        lines
    }

    /// The log line of `cpu` at its PC.
    pub fn get_current_log(&self, cpu: &Cpu, bus: &Bus) -> (r: String)
        requires
            bus.wf(),
        ensures
            r@ == log_text(bus@, cpu.registers),
    {
        cpu.get_current_log(bus)
    }
}

} // verus!
