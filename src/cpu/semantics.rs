//! What each instruction does, as functions of the registers, the cycle
//! count and the bus, and the pure arithmetic behind them.
use vstd::prelude::*;
use crate::bus::bus::BusView;
use crate::cpu::addressing_modes::AddressingMode;
use crate::cpu::instructions::{Instruction, InstructionInfo, InstructionType};
use crate::cpu::registers::{with_flag, Registers, CARRY, ZERO, INTERRUPT_DISABLE, DECIMAL, BREAK,
    UNUSED, OVERFLOW, NEGATIVE};

verus! {

/// The cycle counts the CPU functions accept: far from overflow.
pub const CYCLE_LIMIT: u64 = 0x7FFF_FFFF_FFFF_0000;

/// Registers, cycle count and bus after some work.
pub struct Effect {
    pub regs: Registers,
    pub cycle: int,
    pub bus: BusView,
}

/// `p` with Z set iff `v` is zero and N set iff bit 7 of `v` is set.
pub open spec fn with_zn(p: u8, v: u8) -> u8 {
    with_flag(with_flag(p, ZERO, v == 0), NEGATIVE, v & 0x80 != 0)
}

pub open spec fn add16(a: u16, n: int) -> u16 {
    ((a as int + n) % 0x10000) as u16
}

pub open spec fn same_page(a: u16, b: u16) -> bool {
    a as int / 256 == b as int / 256
}

/// The little-endian word at `addr`, `addr + 1`, read without side effects.
pub open spec fn peek16(b: BusView, addr: u16) -> u16 {
    (b.peek(add16(addr, 1)) as int * 256 + b.peek(addr) as int) as u16
}

/// The word at zero-page `zp`, the high byte wrapping within page zero.
pub open spec fn peek16_zp(b: BusView, zp: u8) -> u16 {
    (b.peek(((zp as int + 1) % 256) as u16) as int * 256 + b.peek(zp as u16) as int) as u16
}

/// The signed offset that a relative branch byte encodes.
pub open spec fn branch_offset(v: u8) -> int {
    if v < 0x80 {
        v as int
    } else {
        v as int - 256
    }
}

/// The operand address of the instruction at `pc`, and whether indexing
/// crossed a page. The indirect `JMP` reads its high byte from the start of
/// the same page when the pointer ends in `$FF`.
pub open spec fn operand_spec(mode: AddressingMode, r: Registers, b: BusView) -> (u16, bool) {
    let address = add16(r.pc, 1);
    match mode {
        AddressingMode::Implied | AddressingMode::Accumulator => (0, false),
        AddressingMode::Immediate => (address, false),
        AddressingMode::Absolute => (peek16(b, address), false),
        AddressingMode::AbsoluteX => {
            let base = peek16(b, address);
            let target = add16(base, r.x as int);
            (target, !same_page(base, target))
        },
        AddressingMode::AbsoluteY => {
            let base = peek16(b, address);
            let target = add16(base, r.y as int);
            (target, !same_page(base, target))
        },
        AddressingMode::ZeroPage => (b.peek(address) as u16, false),
        AddressingMode::ZeroPageX => (((b.peek(address) as int + r.x as int) % 256) as u16, false),
        AddressingMode::ZeroPageY => (((b.peek(address) as int + r.y as int) % 256) as u16, false),
        AddressingMode::Indirect => {
            let ptr = peek16(b, address);
            let hi_addr = if ptr as int % 256 == 255 {
                (ptr as int - 255) as u16
            } else {
                (ptr + 1) as u16
            };
            ((b.peek(hi_addr) as int * 256 + b.peek(ptr) as int) as u16, false)
        },
        AddressingMode::IndirectX => (
            peek16_zp(b, ((b.peek(address) as int + r.x as int) % 256) as u8),
            false,
        ),
        AddressingMode::IndirectY => {
            let base = peek16_zp(b, b.peek(address));
            let target = add16(base, r.y as int);
            (target, !same_page(base, target))
        },
        AddressingMode::Relative => {
            let next = add16(address, 1);
            let target = add16(next, branch_offset(b.peek(address)));
            (target, !same_page(next, target))
        },
    }
}

/// ADC: `a + m + C`, with carry out, signed overflow, Z and N.
pub open spec fn adc_regs(r: Registers, m: u8) -> Registers {
    let sum = r.a as int + m as int + (r.p & CARRY) as int;
    let res = (sum % 256) as u8;
    let p1 = with_flag(r.p, CARRY, sum > 255);
    let p2 = with_flag(p1, OVERFLOW, (r.a ^ res) & (m ^ res) & 0x80 != 0);
    Registers { a: res, p: with_zn(p2, res), ..r }
}

/// CMP, CPX, CPY: C iff `reg >= m`, Z and N from `reg - m`.
pub open spec fn compare_flags(p: u8, reg: u8, m: u8) -> u8 {
    with_zn(with_flag(p, CARRY, reg >= m), ((reg as int - m as int + 256) % 256) as u8)
}

pub open spec fn asl_spec(p: u8, m: u8) -> (u8, u8) {
    let res = ((m as int * 2) % 256) as u8;
    (res, with_zn(with_flag(p, CARRY, m >= 0x80), res))
}

pub open spec fn lsr_spec(p: u8, m: u8) -> (u8, u8) {
    let res = m / 2;
    (res, with_zn(with_flag(p, CARRY, m % 2 == 1), res))
}

pub open spec fn rol_spec(p: u8, m: u8) -> (u8, u8) {
    let res = ((m as int * 2) % 256 + (p & CARRY) as int) as u8;
    (res, with_zn(with_flag(p, CARRY, m >= 0x80), res))
}

pub open spec fn ror_spec(p: u8, m: u8) -> (u8, u8) {
    let res = (m as int / 2 + (p & CARRY) as int * 128) as u8;
    (res, with_zn(with_flag(p, CARRY, m % 2 == 1), res))
}

pub open spec fn inc8(m: u8) -> u8 {
    ((m as int + 1) % 256) as u8
}

pub open spec fn dec8(m: u8) -> u8 {
    ((m as int + 255) % 256) as u8
}

/// The registers after an instruction that reads operand `m`.
pub open spec fn read_result(ins: Instruction, r: Registers, m: u8) -> Registers {
    match ins {
        Instruction::LDA => Registers { a: m, p: with_zn(r.p, m), ..r },
        Instruction::LDX => Registers { x: m, p: with_zn(r.p, m), ..r },
        Instruction::LDY => Registers { y: m, p: with_zn(r.p, m), ..r },
        Instruction::LAX => Registers { a: m, x: m, p: with_zn(r.p, m), ..r },
        Instruction::AND => Registers { a: r.a & m, p: with_zn(r.p, r.a & m), ..r },
        Instruction::ORA => Registers { a: r.a | m, p: with_zn(r.p, r.a | m), ..r },
        Instruction::EOR => Registers { a: r.a ^ m, p: with_zn(r.p, r.a ^ m), ..r },
        Instruction::ADC => adc_regs(r, m),
        Instruction::SBC => adc_regs(r, m ^ 0xFF),
        Instruction::CMP => Registers { p: compare_flags(r.p, r.a, m), ..r },
        Instruction::CPX => Registers { p: compare_flags(r.p, r.x, m), ..r },
        Instruction::CPY => Registers { p: compare_flags(r.p, r.y, m), ..r },
        Instruction::BIT => Registers {
            p: with_flag(
                with_flag(with_flag(r.p, ZERO, r.a & m == 0), OVERFLOW, m & 0x40 != 0),
                NEGATIVE,
                m & 0x80 != 0,
            ),
            ..r
        },
        _ => r,
    }
}

/// The value a read-modify-write instruction stores, and the registers after it.
pub open spec fn modify_result(ins: Instruction, r: Registers, m: u8) -> (u8, Registers) {
    match ins {
        Instruction::ASL => (asl_spec(r.p, m).0, Registers { p: asl_spec(r.p, m).1, ..r }),
        Instruction::LSR => (lsr_spec(r.p, m).0, Registers { p: lsr_spec(r.p, m).1, ..r }),
        Instruction::ROL => (rol_spec(r.p, m).0, Registers { p: rol_spec(r.p, m).1, ..r }),
        Instruction::ROR => (ror_spec(r.p, m).0, Registers { p: ror_spec(r.p, m).1, ..r }),
        Instruction::INC => (inc8(m), Registers { p: with_zn(r.p, inc8(m)), ..r }),
        Instruction::DEC => (dec8(m), Registers { p: with_zn(r.p, dec8(m)), ..r }),
        Instruction::SLO => {
            let (res, p1) = asl_spec(r.p, m);
            (res, Registers { a: r.a | res, p: with_zn(p1, r.a | res), ..r })
        },
        Instruction::RLA => {
            let (res, p1) = rol_spec(r.p, m);
            (res, Registers { a: r.a & res, p: with_zn(p1, r.a & res), ..r })
        },
        Instruction::SRE => {
            let (res, p1) = lsr_spec(r.p, m);
            (res, Registers { a: r.a ^ res, p: with_zn(p1, r.a ^ res), ..r })
        },
        Instruction::RRA => {
            let (res, p1) = ror_spec(r.p, m);
            (res, adc_regs(Registers { p: p1, ..r }, res))
        },
        Instruction::DCP => (dec8(m), Registers { p: compare_flags(r.p, r.a, dec8(m)), ..r }),
        Instruction::ISC => (inc8(m), adc_regs(r, inc8(m) ^ 0xFF)),
        _ => (m, r),
    }
}

/// The registers after an instruction that touches no memory.
pub open spec fn implied_result(ins: Instruction, r: Registers) -> Registers {
    match ins {
        Instruction::TAX => Registers { x: r.a, p: with_zn(r.p, r.a), ..r },
        Instruction::TAY => Registers { y: r.a, p: with_zn(r.p, r.a), ..r },
        Instruction::TXA => Registers { a: r.x, p: with_zn(r.p, r.x), ..r },
        Instruction::TYA => Registers { a: r.y, p: with_zn(r.p, r.y), ..r },
        Instruction::TSX => Registers { x: r.sp, p: with_zn(r.p, r.sp), ..r },
        Instruction::TXS => Registers { sp: r.x, ..r },
        Instruction::INX => Registers { x: inc8(r.x), p: with_zn(r.p, inc8(r.x)), ..r },
        Instruction::INY => Registers { y: inc8(r.y), p: with_zn(r.p, inc8(r.y)), ..r },
        Instruction::DEX => Registers { x: dec8(r.x), p: with_zn(r.p, dec8(r.x)), ..r },
        Instruction::DEY => Registers { y: dec8(r.y), p: with_zn(r.p, dec8(r.y)), ..r },
        Instruction::CLC => Registers { p: with_flag(r.p, CARRY, false), ..r },
        Instruction::SEC => Registers { p: with_flag(r.p, CARRY, true), ..r },
        Instruction::CLI => Registers { p: with_flag(r.p, INTERRUPT_DISABLE, false), ..r },
        Instruction::SEI => Registers { p: with_flag(r.p, INTERRUPT_DISABLE, true), ..r },
        Instruction::CLV => Registers { p: with_flag(r.p, OVERFLOW, false), ..r },
        Instruction::CLD => Registers { p: with_flag(r.p, DECIMAL, false), ..r },
        Instruction::SED => Registers { p: with_flag(r.p, DECIMAL, true), ..r },
        _ => r,
    }
}

pub open spec fn store_value(ins: Instruction, r: Registers) -> u8 {
    match ins {
        Instruction::STX => r.x,
        Instruction::STY => r.y,
        Instruction::SAX => r.a & r.x,
        _ => r.a,
    }
}

pub open spec fn branch_taken(ins: Instruction, p: u8) -> bool {
    match ins {
        Instruction::BPL => p & NEGATIVE == 0,
        Instruction::BMI => p & NEGATIVE != 0,
        Instruction::BVC => p & OVERFLOW == 0,
        Instruction::BVS => p & OVERFLOW != 0,
        Instruction::BCC => p & CARRY == 0,
        Instruction::BCS => p & CARRY != 0,
        Instruction::BNE => p & ZERO == 0,
        _ => p & ZERO != 0,
    }
}

/// Cycles that a write to `addr` costs beyond the instruction's own: OAM
/// DMA takes 513 cycles, 514 when it starts on an odd cycle.
pub open spec fn dma_cost(addr: u16, cycle: int) -> int {
    if addr == 0x4014 {
        if cycle % 2 == 1 {
            514
        } else {
            513
        }
    } else {
        0
    }
}

pub open spec fn next_pc(r: Registers, info: InstructionInfo) -> u16 {
    add16(r.pc, info.operand_size as int)
}

pub open spec fn page_penalty(info: InstructionInfo, crossed: bool) -> int {
    if info.instruction_type == InstructionType::CrossingPage && crossed {
        1
    } else {
        0
    }
}

/// A push: the byte goes to `$0100 + S`, then S decrements (8-bit wrap).
pub open spec fn push_spec(r: Registers, b: BusView, v: u8) -> (Registers, BusView) {
    (Registers { sp: ((r.sp as int + 255) % 256) as u8, ..r }, b.after_write((0x100 + r.sp) as u16, v))
}

/// A pop: S increments (8-bit wrap), then the byte at `$0100 + S` is read.
pub open spec fn pop_spec(r: Registers, b: BusView) -> (Registers, BusView, u8) {
    let sp = ((r.sp as int + 1) % 256) as u8;
    let addr = (0x100 + sp) as u16;
    (Registers { sp, ..r }, b.after_read(addr), b.peek(addr))
}

/// A little-endian word read at `addr`, `addr + 1`.
pub open spec fn read16_spec(b: BusView, addr: u16) -> (u16, BusView) {
    let lo = b.peek(addr);
    let b1 = b.after_read(addr);
    let hi = b1.peek(add16(addr, 1));
    ((hi as int * 256 + lo as int) as u16, b1.after_read(add16(addr, 1)))
}

/// The status byte pushed by an interrupt (B clear) or by PHP and BRK (B set); U is set.
pub open spec fn pushed_status(p: u8, brk: bool) -> u8 {
    with_flag(with_flag(p, BREAK, brk), UNUSED, true)
}

/// An interrupt sequence through `vector`: push PC and P (B clear), set I,
/// load PC from the vector, seven cycles.
pub open spec fn interrupt_effect(r: Registers, cycle: int, b: BusView, vector: u16) -> Effect {
    let (r1, b1) = push_spec(r, b, (r.pc / 256) as u8);
    let (r2, b2) = push_spec(r1, b1, (r.pc % 256) as u8);
    let (r3, b3) = push_spec(r2, b2, pushed_status(r.p, false));
    let (pc, b4) = read16_spec(b3, vector);
    Effect {
        regs: Registers { pc, p: with_flag(r3.p, INTERRUPT_DISABLE, true), ..r3 },
        cycle: cycle + 7,
        bus: b4,
    }
}

/// The instructions this CPU does not execute.
pub open spec fn is_illegal(ins: Instruction) -> bool {
    matches!(ins, Instruction::STP | Instruction::ANC | Instruction::ALR | Instruction::ARR
        | Instruction::XAA | Instruction::AHX | Instruction::TAS | Instruction::SHY | Instruction::SHX
        | Instruction::LAS | Instruction::AXS)
}

pub open spec fn is_read(ins: Instruction) -> bool {
    matches!(ins, Instruction::LDA | Instruction::LDX | Instruction::LDY | Instruction::LAX
        | Instruction::AND | Instruction::ORA | Instruction::EOR | Instruction::ADC | Instruction::SBC
        | Instruction::CMP | Instruction::CPX | Instruction::CPY | Instruction::BIT)
}

pub open spec fn is_modify(ins: Instruction) -> bool {
    matches!(ins, Instruction::ASL | Instruction::LSR | Instruction::ROL | Instruction::ROR
        | Instruction::INC | Instruction::DEC | Instruction::SLO | Instruction::RLA | Instruction::SRE
        | Instruction::RRA | Instruction::DCP | Instruction::ISC)
}

pub open spec fn is_store(ins: Instruction) -> bool {
    matches!(ins, Instruction::STA | Instruction::STX | Instruction::STY | Instruction::SAX)
}

pub open spec fn is_implied(ins: Instruction) -> bool {
    matches!(ins, Instruction::TAX | Instruction::TAY | Instruction::TXA | Instruction::TYA
        | Instruction::TSX | Instruction::TXS | Instruction::INX | Instruction::INY | Instruction::DEX
        | Instruction::DEY | Instruction::CLC | Instruction::SEC | Instruction::CLI | Instruction::SEI
        | Instruction::CLV | Instruction::CLD | Instruction::SED)
}

/// What executing the decoded instruction `info` does, for a legal instruction.
pub open spec fn execute_spec(r: Registers, info: InstructionInfo, cycle: int, b: BusView) -> Effect {
    let ins = info.instruction;
    let (addr, crossed) = operand_spec(info.addressing_mode, r, b);
    let base = cycle + info.instruction_cycle as int;
    let next = next_pc(r, info);
    if is_read(ins) {
        Effect {
            regs: Registers { pc: next, ..read_result(ins, r, b.peek(addr)) },
            cycle: base + page_penalty(info, crossed),
            bus: b.after_read(addr),
        }
    } else if is_store(ins) {
        Effect {
            regs: Registers { pc: next, ..r },
            cycle: base + dma_cost(addr, cycle),
            bus: b.after_write(addr, store_value(ins, r)),
        }
    } else if is_modify(ins) {
        if info.addressing_mode == AddressingMode::Accumulator {
            let (res, r1) = modify_result(ins, r, r.a);
            Effect { regs: Registers { a: res, pc: next, ..r1 }, cycle: base, bus: b }
        } else {
            let (res, r1) = modify_result(ins, r, b.peek(addr));
            Effect {
                regs: Registers { pc: next, ..r1 },
                cycle: base + dma_cost(addr, cycle),
                bus: b.after_read(addr).after_write(addr, res),
            }
        }
    } else if is_implied(ins) {
        Effect { regs: Registers { pc: next, ..implied_result(ins, r) }, cycle: base, bus: b }
    } else if is_branch_ins(ins) {
        if branch_taken(ins, r.p) {
            Effect {
                regs: Registers { pc: addr, ..r },
                cycle: base + 1 + if crossed {
                    1int
                } else {
                    0int
                },
                bus: b,
            }
        } else {
            Effect { regs: Registers { pc: next, ..r }, cycle: base, bus: b }
        }
    } else {
        control_spec(r, info, cycle, b)
    }
}

pub open spec fn is_branch_ins(ins: Instruction) -> bool {
    crate::cpu::instructions::is_branch(ins)
}

/// Jumps, subroutine calls and returns, the stack instructions, BRK and the NOPs.
pub open spec fn control_spec(r: Registers, info: InstructionInfo, cycle: int, b: BusView) -> Effect {
    let ins = info.instruction;
    let (addr, crossed) = operand_spec(info.addressing_mode, r, b);
    let base = cycle + info.instruction_cycle as int;
    let next = next_pc(r, info);
    match ins {
        Instruction::JMP => Effect { regs: Registers { pc: addr, ..r }, cycle: base, bus: b },
        Instruction::JSR => {
            let ret = add16(r.pc, 2);
            let (r1, b1) = push_spec(r, b, (ret / 256) as u8);
            let (r2, b2) = push_spec(r1, b1, (ret % 256) as u8);
            Effect { regs: Registers { pc: addr, ..r2 }, cycle: base, bus: b2 }
        },
        Instruction::RTS => {
            let (r1, b1, lo) = pop_spec(r, b);
            let (r2, b2, hi) = pop_spec(r1, b1);
            Effect {
                regs: Registers { pc: add16((hi as int * 256 + lo as int) as u16, 1), ..r2 },
                cycle: base,
                bus: b2,
            }
        },
        Instruction::RTI => {
            let (r1, b1, st) = pop_spec(r, b);
            let (r2, b2, lo) = pop_spec(r1, b1);
            let (r3, b3, hi) = pop_spec(r2, b2);
            Effect {
                regs: Registers {
                    pc: (hi as int * 256 + lo as int) as u16,
                    p: pushed_status(st, false),
                    ..r3
                },
                cycle: base,
                bus: b3,
            }
        },
        Instruction::PHA => {
            let (r1, b1) = push_spec(r, b, r.a);
            Effect { regs: Registers { pc: next, ..r1 }, cycle: base, bus: b1 }
        },
        Instruction::PHP => {
            let (r1, b1) = push_spec(r, b, pushed_status(r.p, true));
            Effect { regs: Registers { pc: next, ..r1 }, cycle: base, bus: b1 }
        },
        Instruction::PLA => {
            let (r1, b1, v) = pop_spec(r, b);
            Effect { regs: Registers { a: v, p: with_zn(r1.p, v), pc: next, ..r1 }, cycle: base, bus: b1 }
        },
        Instruction::PLP => {
            let (r1, b1, v) = pop_spec(r, b);
            Effect { regs: Registers { p: pushed_status(v, false), pc: next, ..r1 }, cycle: base, bus: b1 }
        },
        Instruction::BRK => {
            let ret = add16(r.pc, 2);
            let (r1, b1) = push_spec(r, b, (ret / 256) as u8);
            let (r2, b2) = push_spec(r1, b1, (ret % 256) as u8);
            let (r3, b3) = push_spec(r2, b2, pushed_status(r.p, true));
            let (pc, b4) = read16_spec(b3, 0xFFFE);
            Effect {
                regs: Registers { pc, p: with_flag(r3.p, INTERRUPT_DISABLE, true), ..r3 },
                cycle: base,
                bus: b4,
            }
        },
        _ => Effect { regs: Registers { pc: next, ..r }, cycle: base + page_penalty(info, crossed), bus: b },
    }
}

/// Computes `with_flag`.
pub fn set_bits(p: u8, mask: u8, on: bool) -> (r: u8)
    ensures
        r == with_flag(p, mask, on),
{
    if on {
        p | mask
    } else {
        p & !mask
    }
}

/// Computes `with_zn`.
pub fn zn(p: u8, v: u8) -> (r: u8)
    ensures
        r == with_zn(p, v),
{
    set_bits(set_bits(p, ZERO, v == 0), NEGATIVE, v & 0x80 != 0)
}

/// Computes `adc_regs`.
pub fn adc(r: Registers, m: u8) -> (o: Registers)
    ensures
        o == adc_regs(r, m),
{
    let sum: u16 = r.a as u16 + m as u16 + (r.p & CARRY) as u16;
    let res = (sum % 256) as u8;
    let p1 = set_bits(r.p, CARRY, sum > 255);
    let p2 = set_bits(p1, OVERFLOW, (r.a ^ res) & (m ^ res) & 0x80 != 0);
    Registers { a: res, p: zn(p2, res), ..r }
}

/// Computes `compare_flags`.
pub fn compare(p: u8, reg: u8, m: u8) -> (r: u8)
    ensures
        r == compare_flags(p, reg, m),
{
    zn(set_bits(p, CARRY, reg >= m), ((reg as u16 + 256 - m as u16) % 256) as u8)
}

pub fn asl_op(p: u8, m: u8) -> (r: (u8, u8))
    ensures
        r == asl_spec(p, m),
{
    let res = ((m as u16 * 2) % 256) as u8;
    (res, zn(set_bits(p, CARRY, m >= 0x80), res))
}

pub fn lsr_op(p: u8, m: u8) -> (r: (u8, u8))
    ensures
        r == lsr_spec(p, m),
{
    let res = m / 2;
    (res, zn(set_bits(p, CARRY, m % 2 == 1), res))
}

pub fn rol_op(p: u8, m: u8) -> (r: (u8, u8))
    ensures
        r == rol_spec(p, m),
{
    let res = ((m as u16 * 2) % 256 + (p & CARRY) as u16) as u8;
    (res, zn(set_bits(p, CARRY, m >= 0x80), res))
}

pub fn ror_op(p: u8, m: u8) -> (r: (u8, u8))
    ensures
        r == ror_spec(p, m),
{
    let res = (m as u16 / 2 + (p & CARRY) as u16 * 128) as u8;
    (res, zn(set_bits(p, CARRY, m % 2 == 1), res))
}

pub fn inc_op(m: u8) -> (r: u8)
    ensures
        r == inc8(m),
{
    ((m as u16 + 1) % 256) as u8
}

pub fn dec_op(m: u8) -> (r: u8)
    ensures
        r == dec8(m),
{
    ((m as u16 + 255) % 256) as u8
}

/// Computes `read_result`.
pub fn read_op(ins: Instruction, r: Registers, m: u8) -> (o: Registers)
    ensures
        o == read_result(ins, r, m),
{
    match ins {
        Instruction::LDA => Registers { a: m, p: zn(r.p, m), ..r },
        Instruction::LDX => Registers { x: m, p: zn(r.p, m), ..r },
        Instruction::LDY => Registers { y: m, p: zn(r.p, m), ..r },
        Instruction::LAX => Registers { a: m, x: m, p: zn(r.p, m), ..r },
        Instruction::AND => Registers { a: r.a & m, p: zn(r.p, r.a & m), ..r },
        Instruction::ORA => Registers { a: r.a | m, p: zn(r.p, r.a | m), ..r },
        Instruction::EOR => Registers { a: r.a ^ m, p: zn(r.p, r.a ^ m), ..r },
        Instruction::ADC => adc(r, m),
        Instruction::SBC => adc(r, m ^ 0xFF),
        Instruction::CMP => Registers { p: compare(r.p, r.a, m), ..r },
        Instruction::CPX => Registers { p: compare(r.p, r.x, m), ..r },
        Instruction::CPY => Registers { p: compare(r.p, r.y, m), ..r },
        Instruction::BIT => Registers {
            p: set_bits(
                set_bits(set_bits(r.p, ZERO, r.a & m == 0), OVERFLOW, m & 0x40 != 0),
                NEGATIVE,
                m & 0x80 != 0,
            ),
            ..r
        },
        _ => r,
    }
}

/// Computes `modify_result`.
pub fn modify_op(ins: Instruction, r: Registers, m: u8) -> (o: (u8, Registers))
    ensures
        o == modify_result(ins, r, m),
{
    match ins {
        Instruction::ASL => {
            let (res, p) = asl_op(r.p, m);
            (res, Registers { p, ..r })
        },
        Instruction::LSR => {
            let (res, p) = lsr_op(r.p, m);
            (res, Registers { p, ..r })
        },
        Instruction::ROL => {
            let (res, p) = rol_op(r.p, m);
            (res, Registers { p, ..r })
        },
        Instruction::ROR => {
            let (res, p) = ror_op(r.p, m);
            (res, Registers { p, ..r })
        },
        Instruction::INC => {
            let res = inc_op(m);
            (res, Registers { p: zn(r.p, res), ..r })
        },
        Instruction::DEC => {
            let res = dec_op(m);
            (res, Registers { p: zn(r.p, res), ..r })
        },
        Instruction::SLO => {
            let (res, p1) = asl_op(r.p, m);
            (res, Registers { a: r.a | res, p: zn(p1, r.a | res), ..r })
        },
        Instruction::RLA => {
            let (res, p1) = rol_op(r.p, m);
            (res, Registers { a: r.a & res, p: zn(p1, r.a & res), ..r })
        },
        Instruction::SRE => {
            let (res, p1) = lsr_op(r.p, m);
            (res, Registers { a: r.a ^ res, p: zn(p1, r.a ^ res), ..r })
        },
        Instruction::RRA => {
            let (res, p1) = ror_op(r.p, m);
            (res, adc(Registers { p: p1, ..r }, res))
        },
        Instruction::DCP => {
            let res = dec_op(m);
            (res, Registers { p: compare(r.p, r.a, res), ..r })
        },
        Instruction::ISC => {
            let res = inc_op(m);
            (res, adc(r, res ^ 0xFF))
        },
        _ => (m, r),
    }
}

/// Computes `implied_result`.
pub fn implied_op(ins: Instruction, r: Registers) -> (o: Registers)
    ensures
        o == implied_result(ins, r),
{
    match ins {
        Instruction::TAX => Registers { x: r.a, p: zn(r.p, r.a), ..r },
        Instruction::TAY => Registers { y: r.a, p: zn(r.p, r.a), ..r },
        Instruction::TXA => Registers { a: r.x, p: zn(r.p, r.x), ..r },
        Instruction::TYA => Registers { a: r.y, p: zn(r.p, r.y), ..r },
        Instruction::TSX => Registers { x: r.sp, p: zn(r.p, r.sp), ..r },
        Instruction::TXS => Registers { sp: r.x, ..r },
        Instruction::INX => Registers { x: inc_op(r.x), p: zn(r.p, inc_op(r.x)), ..r },
        Instruction::INY => Registers { y: inc_op(r.y), p: zn(r.p, inc_op(r.y)), ..r },
        Instruction::DEX => Registers { x: dec_op(r.x), p: zn(r.p, dec_op(r.x)), ..r },
        Instruction::DEY => Registers { y: dec_op(r.y), p: zn(r.p, dec_op(r.y)), ..r },
        Instruction::CLC => Registers { p: set_bits(r.p, CARRY, false), ..r },
        Instruction::SEC => Registers { p: set_bits(r.p, CARRY, true), ..r },
        Instruction::CLI => Registers { p: set_bits(r.p, INTERRUPT_DISABLE, false), ..r },
        Instruction::SEI => Registers { p: set_bits(r.p, INTERRUPT_DISABLE, true), ..r },
        Instruction::CLV => Registers { p: set_bits(r.p, OVERFLOW, false), ..r },
        Instruction::CLD => Registers { p: set_bits(r.p, DECIMAL, false), ..r },
        Instruction::SED => Registers { p: set_bits(r.p, DECIMAL, true), ..r },
        _ => r,
    }
}

pub fn store_op(ins: Instruction, r: Registers) -> (v: u8)
    ensures
        v == store_value(ins, r),
{
    match ins {
        Instruction::STX => r.x,
        Instruction::STY => r.y,
        Instruction::SAX => r.a & r.x,
        _ => r.a,
    }
}

pub fn branch_op(ins: Instruction, p: u8) -> (t: bool)
    ensures
        t == branch_taken(ins, p),
{
    match ins {
        Instruction::BPL => p & NEGATIVE == 0,
        Instruction::BMI => p & NEGATIVE != 0,
        Instruction::BVC => p & OVERFLOW == 0,
        Instruction::BVS => p & OVERFLOW != 0,
        Instruction::BCC => p & CARRY == 0,
        Instruction::BCS => p & CARRY != 0,
        Instruction::BNE => p & ZERO == 0,
        _ => p & ZERO != 0,
    }
}

/// Computes `pushed_status`.
pub fn status_to_push(p: u8, brk: bool) -> (r: u8)
    ensures
        r == pushed_status(p, brk),
{
    set_bits(set_bits(p, BREAK, brk), UNUSED, true)
}

} // verus!
