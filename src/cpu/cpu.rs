use vstd::prelude::*;
use crate::bus::bus::{Bus, BusView, IRQ_LINE, NMI_LINE, RESET_LINE};
use crate::cpu::addressing_modes::AddressingMode;
use crate::cpu::instructions::{decode_opcode, opcode_table, Instruction, InstructionInfo,
    InstructionType};
use crate::cpu::registers::{Registers, INTERRUPT_DISABLE};
use crate::cpu::semantics::{add16, branch_offset, control_spec, dma_cost, execute_spec,
    interrupt_effect, is_illegal, is_implied, is_modify, is_read, is_store, peek16, peek16_zp,
    pop_spec, push_spec, read16_spec, same_page, operand_spec, Effect, CYCLE_LIMIT, adc, branch_op,
    implied_op, modify_op, read_op, set_bits, status_to_push, store_op, zn};
use crate::NesError;

verus! {

/// The interrupt lines as the CPU last sampled them.
#[derive(Debug, Clone, Copy)]
pub struct Interrupt {
    /// (current NMI level, NMI level at the previous instruction boundary)
    pub nmi: (bool, bool),
    pub irq: bool,
    pub reset: bool,
}

impl Default for Interrupt {
    fn default() -> (r: Self)
        ensures
            r == (Interrupt { nmi: (false, false), irq: false, reset: false }),
    {
        Interrupt { nmi: (false, false), irq: false, reset: false }
    }
}

/// NMI is edge-triggered: it is serviced when the line is high now and was
/// low at the previous instruction boundary.
pub open spec fn nmi_serviced(prev: bool, line: bool) -> bool {
    line && !prev
}

/// The interrupt service at an instruction boundary: an NMI edge first,
/// else an IRQ when the line is high and I is clear.
pub open spec fn service_spec(r: Registers, prev_nmi: bool, cycle: int, b: BusView) -> Effect {
    let nmi = b.interrupt_status & NMI_LINE != 0;
    let irq = b.interrupt_status & IRQ_LINE != 0;
    if nmi_serviced(prev_nmi, nmi) {
        interrupt_effect(r, cycle, b, 0xFFFA)
    } else if irq && r.p & INTERRUPT_DISABLE == 0 {
        interrupt_effect(r, cycle, b, 0xFFFE)
    } else {
        Effect { regs: r, cycle, bus: b }
    }
}

/// The reset sequence: `S = $FD`, `P = $24`, PC from `$FFFC`, seven cycles.
#[verifier::opaque]
pub open spec fn reset_spec(r: Registers, b: BusView) -> Effect {
    let (pc, b1) = read16_spec(b, 0xFFFC);
    Effect { regs: Registers { sp: 0xFD, p: 0x24, pc, ..r }, cycle: 7, bus: b1 }
}

/// The bus with the RESET line lowered.
pub open spec fn reset_taken(b: BusView) -> BusView {
    BusView { interrupt_status: b.interrupt_status & !RESET_LINE, ..b }
}

/// The decoded instruction at PC, and the state after fetching its opcode.
pub open spec fn fetch_spec(e: Effect) -> (InstructionInfo, Effect) {
    (opcode_table(e.bus.peek(e.regs.pc)), Effect { bus: e.bus.after_read(e.regs.pc), ..e })
}

/// One instruction boundary without RESET: service an interrupt if one is
/// due, then fetch and decode the next instruction.
#[verifier::opaque]
pub open spec fn boundary_spec(r: Registers, prev_nmi: bool, cycle: int, b: BusView) -> (
    InstructionInfo,
    Effect,
) {
    fetch_spec(service_spec(r, prev_nmi, cycle, b))
}

/// A full step without RESET, for a legal instruction.
#[verifier::opaque]
pub open spec fn step_spec(r: Registers, prev_nmi: bool, cycle: int, b: BusView) -> Effect {
    let (info, e) = boundary_spec(r, prev_nmi, cycle, b);
    execute_spec(e.regs, info, e.cycle, e.bus)
}

/// Every entry of the decode table costs at least two cycles.
pub proof fn lemma_table_cycles(op: u8)
    ensures
        opcode_table(op).instruction_cycle >= 2,
{
}

/// Executing an instruction takes at least its base cycle count.
pub proof fn lemma_execute_cycles(r: Registers, info: InstructionInfo, cycle: int, b: BusView)
    ensures
        execute_spec(r, info, cycle, b).cycle >= cycle + info.instruction_cycle,
{
}

/// Executing an instruction takes at most 600 cycles (OAM DMA included).
pub proof fn lemma_execute_bound(r: Registers, info: InstructionInfo, cycle: int, b: BusView)
    ensures
        execute_spec(r, info, cycle, b).cycle <= cycle + info.instruction_cycle + 600,
{
}

/// Cycle counts only grow: every step without RESET that executes an
/// instruction leaves the cycle count strictly higher.
pub proof fn lemma_cycles_increase(r: Registers, prev_nmi: bool, cycle: int, b: BusView)
    ensures
        step_spec(r, prev_nmi, cycle, b).cycle > cycle,
{
    reveal(step_spec);
    reveal(boundary_spec);
    let e1 = service_spec(r, prev_nmi, cycle, b);
    let (info, e) = boundary_spec(r, prev_nmi, cycle, b);
    lemma_table_cycles(e1.bus.peek(e1.regs.pc));
    lemma_execute_cycles(e.regs, info, e.cycle, e.bus);
}

/// The number of NMIs serviced over a run of instruction boundaries at
/// which the NMI line is sampled as `samples`, the line having been at
/// `prev` before the first.
pub open spec fn nmi_count(prev: bool, samples: Seq<bool>) -> nat
    decreases samples.len(),
{
    if samples.len() == 0 {
        0
    } else {
        (if nmi_serviced(prev, samples[0]) {
            1nat
        } else {
            0nat
        }) + nmi_count(samples[0], samples.drop_first())
    }
}

/// NMI is edge-triggered: when the line rises and is then held high across
/// any number of instruction boundaries, exactly one NMI is serviced.
pub proof fn lemma_nmi_edge(samples: Seq<bool>)
    requires
        samples.len() >= 1,
        forall|i: int| 0 <= i < samples.len() ==> samples[i],
    ensures
        nmi_count(false, samples) == 1,
        nmi_count(true, samples) == 0,
    decreases samples.len(),
{
    lemma_nmi_held(samples.drop_first());
}

proof fn lemma_nmi_held(samples: Seq<bool>)
    requires
        forall|i: int| 0 <= i < samples.len() ==> samples[i],
    ensures
        nmi_count(true, samples) == 0,
    decreases samples.len(),
{
    if samples.len() > 0 {
        lemma_nmi_held(samples.drop_first());
    }
}

/// The registers and bus after pushing the bytes of `vals` in order.
pub open spec fn pushes_spec(r: Registers, b: BusView, vals: Seq<u8>) -> (Registers, BusView)
    decreases vals.len(),
{
    if vals.len() == 0 {
        (r, b)
    } else {
        let (r1, b1) = pushes_spec(r, b, vals.drop_last());
        push_spec(r1, b1, vals.last())
    }
}

/// After `n` pushes the stack pointer has moved down by `n`, modulo 256.
pub proof fn lemma_pushes_sp(r: Registers, b: BusView, vals: Seq<u8>)
    ensures
        pushes_spec(r, b, vals).0.sp as int == (r.sp as int - vals.len() as int) % 256,
    decreases vals.len(),
{
    if vals.len() > 0 {
        lemma_pushes_sp(r, b, vals.drop_last());
        let s0 = pushes_spec(r, b, vals.drop_last()).0.sp as int;
        let n = vals.len() as int;
        assert(s0 == (r.sp as int - (n - 1)) % 256);
        assert((s0 + 255) % 256 == (r.sp as int - n) % 256) by {
            vstd::arithmetic::div_mod::lemma_add_mod_noop(r.sp as int - (n - 1), 255, 256);
            vstd::arithmetic::div_mod::lemma_mod_add_multiples_vanish(r.sp as int - n, 256);
        }
    }
}

/// The stack wraps within page one: pushing 257 bytes leaves the stack
/// pointer one below where it started, modulo 256.
pub proof fn lemma_stack_wrap(r: Registers, b: BusView, vals: Seq<u8>)
    requires
        vals.len() == 257,
    ensures
        pushes_spec(r, b, vals).0.sp == ((r.sp as int + 255) % 256) as u8,
{
    lemma_pushes_sp(r, b, vals);
    vstd::arithmetic::div_mod::lemma_mod_add_multiples_vanish(r.sp as int - 257, 256);
    vstd::arithmetic::div_mod::lemma_mod_add_multiples_vanish(r.sp as int - 1, 256);
}

/// The 6502 CPU.
pub struct Cpu {
    pub registers: Registers,
    pub interrupt: Interrupt,
    /// Cycles run since reset.
    pub cpu_cycle: u64,
    /// The instruction being executed.
    pub instruction_info: InstructionInfo,
    /// Clocks left before the next instruction starts.
    pub cpu_cycle_wait: u64,
}

impl Cpu {
    pub open spec fn effect(&self, bus: BusView) -> Effect {
        Effect { regs: self.registers, cycle: self.cpu_cycle as int, bus }
    }

    /// The state that instruction execution leaves alone.
    pub open spec fn same_control(&self, other: &Cpu) -> bool {
        &&& self.interrupt == other.interrupt
        &&& self.instruction_info == other.instruction_info
        &&& self.cpu_cycle_wait == other.cpu_cycle_wait
    }

    pub fn new() -> (r: Self)
        ensures
            r.registers == (Registers { a: 0, x: 0, y: 0, pc: 0xC000, sp: 0xFD, p: 0x24 }),
            r.interrupt == (Interrupt { nmi: (false, false), irq: false, reset: false }),
            r.cpu_cycle == 0,
            r.cpu_cycle_wait == 0,
            r.instruction_info == opcode_table(0xEA),
    {
        Cpu {
            registers: Registers::default(),
            interrupt: Interrupt::default(),
            cpu_cycle: 0,
            instruction_info: InstructionInfo::default(),
            cpu_cycle_wait: 0,
        }
    }

    /// The reset sequence: `S = $FD`, `P = $24`, PC from the vector at
    /// `$FFFC`, cycle count 7; the sampled interrupt lines are cleared.
    pub fn reset(&mut self, bus: &mut Bus)
        requires
            old(bus).wf(),
        ensures
            final(bus).wf(),
            final(self).effect(final(bus)@) == reset_spec(old(self).registers, old(bus)@),
            final(self).cpu_cycle == 7,
            final(bus)@ == read16_spec(old(bus)@, 0xFFFC).1,
            final(self).registers.sp == 0xFD,
            final(self).registers.p == 0x24,
            final(self).registers.pc == read16_spec(old(bus)@, 0xFFFC).0,
            final(self).interrupt == (Interrupt { nmi: (false, false), irq: false, reset: false }),
            final(self).instruction_info == opcode_table(0xEA),
            final(self).cpu_cycle_wait == 0,
    {
        proof {
            reveal(reset_spec);
        }
        let pc = read_u16(bus, 0xFFFC);
        self.registers.sp = 0xFD;
        self.registers.p = 0x24;
        self.registers.pc = pc;
        self.cpu_cycle = 7;
        self.interrupt = Interrupt::default();
        self.instruction_info = InstructionInfo::default();
        self.cpu_cycle_wait = 0;
    }

    /// A CPU write; a write to `$4014` also charges the OAM DMA cycles.
    pub fn write(&mut self, bus: &mut Bus, address: u16, data: u8)
        requires
            old(bus).wf(),
            old(self).cpu_cycle <= CYCLE_LIMIT + 0x100,
        ensures
            final(bus).wf(),
            final(bus)@ == old(bus)@.after_write(address, data),
            final(self).cpu_cycle == old(self).cpu_cycle + dma_cost(address, old(self).cpu_cycle as int),
            final(self).registers == old(self).registers,
            final(self).same_control(old(self)),
    {
        bus.cpu_write(address, data);
        if address == 0x4014 {
            self.cpu_cycle = self.cpu_cycle + if self.cpu_cycle % 2 == 1 {
                514
            } else {
                513
            };
        }
    }

    /// Pushes a byte: it goes to `$0100 + S`, then S decrements (8-bit wrap).
    pub fn stack_push(&mut self, bus: &mut Bus, value: u8)
        requires
            old(bus).wf(),
        ensures
            final(bus).wf(),
            (final(self).registers, final(bus)@) == push_spec(old(self).registers, old(bus)@, value),
            final(self).cpu_cycle == old(self).cpu_cycle,
            final(self).same_control(old(self)),
    {
        let sp = self.registers.sp;
        bus.cpu_write(0x100 + sp as u16, value);
        self.registers.sp = ((sp as u16 + 255) % 256) as u8;
    }

    /// Pops a byte: S increments (8-bit wrap), then `$0100 + S` is read.
    pub fn stack_pop(&mut self, bus: &mut Bus) -> (r: u8)
        requires
            old(bus).wf(),
        ensures
            final(bus).wf(),
            (final(self).registers, final(bus)@, r) == pop_spec(old(self).registers, old(bus)@),
            final(self).cpu_cycle == old(self).cpu_cycle,
            final(self).same_control(old(self)),
    {
        let sp = ((self.registers.sp as u16 + 1) % 256) as u8;
        self.registers.sp = sp;
        bus.cpu_read(0x100 + sp as u16)
    }

    /// The operand address of the current instruction and whether indexing
    /// crossed a page; reads nothing with side effects.
    pub fn get_operand_address(&self, bus: &Bus) -> (r: (u16, bool))
        requires
            bus.wf(),
        ensures
            r == operand_spec(self.instruction_info.addressing_mode, self.registers, bus@),
    {
        let address = next_address(self.registers.pc, 1);
        let x = self.registers.x;
        let y = self.registers.y;
        match self.instruction_info.addressing_mode {
            AddressingMode::Implied | AddressingMode::Accumulator => (0, false),
            AddressingMode::Immediate => (address, false),
            AddressingMode::Absolute => (read_word_debug(bus, address), false),
            AddressingMode::AbsoluteX => {
                let base = read_word_debug(bus, address);
                let target = next_address(base, x as u16);
                (target, base / 256 != target / 256)
            },
            AddressingMode::AbsoluteY => {
                let base = read_word_debug(bus, address);
                let target = next_address(base, y as u16);
                (target, base / 256 != target / 256)
            },
            AddressingMode::ZeroPage => (bus.cpu_read_debug(address) as u16, false),
            AddressingMode::ZeroPageX => (
                ((bus.cpu_read_debug(address) as u16 + x as u16) % 256) as u16,
                false,
            ),
            AddressingMode::ZeroPageY => (
                ((bus.cpu_read_debug(address) as u16 + y as u16) % 256) as u16,
                false,
            ),
            AddressingMode::Indirect => {
                (indirect_target(bus, read_word_debug(bus, address)), false)
            },
            AddressingMode::IndirectX => {
                let zp = ((bus.cpu_read_debug(address) as u16 + x as u16) % 256) as u8;
                (read_word_zp_debug(bus, zp), false)
            },
            AddressingMode::IndirectY => {
                let base = read_word_zp_debug(bus, bus.cpu_read_debug(address));
                let target = next_address(base, y as u16);
                (target, base / 256 != target / 256)
            },
            AddressingMode::Relative => {
                let next = next_address(address, 1);
                let target = relative_target(next, bus.cpu_read_debug(address));
                (target, next / 256 != target / 256)
            },
        }
    }

    /// The current instruction's address after its operand bytes.
    fn next_pc(&self) -> (r: u16)
        ensures
            r == add16(self.registers.pc, self.instruction_info.operand_size as int),
    {
        next_address(self.registers.pc, self.instruction_info.operand_size as u16)
    }

    fn exec_read(&mut self, bus: &mut Bus)
        requires
            old(bus).wf(),
            old(self).cpu_cycle <= CYCLE_LIMIT + 0x100,
            is_read(old(self).instruction_info.instruction),
        ensures
            final(bus).wf(),
            final(self).same_control(old(self)),
            final(self).effect(final(bus)@) == execute_spec(
                old(self).registers,
                old(self).instruction_info,
                old(self).cpu_cycle as int,
                old(bus)@,
            ),
    {
        let info = self.instruction_info;
        let (addr, crossed) = self.get_operand_address(bus);
        let next = self.next_pc();
        let m = bus.cpu_read(addr);
        self.registers = Registers { pc: next, ..read_op(info.instruction, self.registers, m) };
        let penalty: u64 = if info.instruction_type == InstructionType::CrossingPage && crossed {
            1
        } else {
            0
        };
        self.cpu_cycle = self.cpu_cycle + info.instruction_cycle as u64 + penalty;
    }

    fn exec_store(&mut self, bus: &mut Bus)
        requires
            old(bus).wf(),
            old(self).cpu_cycle <= CYCLE_LIMIT + 0x100,
            is_store(old(self).instruction_info.instruction),
        ensures
            final(bus).wf(),
            final(self).same_control(old(self)),
            final(self).effect(final(bus)@) == execute_spec(
                old(self).registers,
                old(self).instruction_info,
                old(self).cpu_cycle as int,
                old(bus)@,
            ),
    {
        let info = self.instruction_info;
        let (addr, crossed) = self.get_operand_address(bus);
        let next = self.next_pc();
        let v = store_op(info.instruction, self.registers);
        self.write(bus, addr, v);
        self.registers.pc = next;
        self.cpu_cycle = self.cpu_cycle + info.instruction_cycle as u64;
    }

    fn exec_modify(&mut self, bus: &mut Bus)
        requires
            old(bus).wf(),
            old(self).cpu_cycle <= CYCLE_LIMIT + 0x100,
            is_modify(old(self).instruction_info.instruction),
        ensures
            final(bus).wf(),
            final(self).same_control(old(self)),
            final(self).effect(final(bus)@) == execute_spec(
                old(self).registers,
                old(self).instruction_info,
                old(self).cpu_cycle as int,
                old(bus)@,
            ),
    {
        let info = self.instruction_info;
        let (addr, crossed) = self.get_operand_address(bus);
        let next = self.next_pc();
        if info.addressing_mode == AddressingMode::Accumulator {
            let (res, r1) = modify_op(info.instruction, self.registers, self.registers.a);
            self.registers = Registers { a: res, pc: next, ..r1 };
        } else {
            let m = bus.cpu_read(addr);
            let (res, r1) = modify_op(info.instruction, self.registers, m);
            self.write(bus, addr, res);
            self.registers = Registers { pc: next, ..r1 };
        }
        self.cpu_cycle = self.cpu_cycle + info.instruction_cycle as u64;
    }

    fn exec_implied(&mut self, bus: &mut Bus)
        requires
            old(bus).wf(),
            old(self).cpu_cycle <= CYCLE_LIMIT + 0x100,
            is_implied(old(self).instruction_info.instruction),
        ensures
            final(bus).wf(),
            final(self).same_control(old(self)),
            final(self).effect(final(bus)@) == execute_spec(
                old(self).registers,
                old(self).instruction_info,
                old(self).cpu_cycle as int,
                old(bus)@,
            ),
    {
        let info = self.instruction_info;
        let next = self.next_pc();
        self.registers = Registers { pc: next, ..implied_op(info.instruction, self.registers) };
        self.cpu_cycle = self.cpu_cycle + info.instruction_cycle as u64;
    }

    fn exec_branch(&mut self, bus: &mut Bus)
        requires
            old(bus).wf(),
            old(self).cpu_cycle <= CYCLE_LIMIT + 0x100,
            crate::cpu::instructions::is_branch(old(self).instruction_info.instruction),
        ensures
            final(bus).wf(),
            final(self).same_control(old(self)),
            final(self).effect(final(bus)@) == execute_spec(
                old(self).registers,
                old(self).instruction_info,
                old(self).cpu_cycle as int,
                old(bus)@,
            ),
    {
        let info = self.instruction_info;
        let (addr, crossed) = self.get_operand_address(bus);
        let next = self.next_pc();
        self.cpu_cycle = self.cpu_cycle + info.instruction_cycle as u64;
        if branch_op(info.instruction, self.registers.p) {
            self.registers.pc = addr;
            self.cpu_cycle = self.cpu_cycle + 1;
            if crossed {
                self.cpu_cycle = self.cpu_cycle + 1;
            }
        } else {
            self.registers.pc = next;
        }
    }

    /// Jumps, calls, returns, stack instructions, BRK and the NOPs.
    fn exec_control(&mut self, bus: &mut Bus)
        requires
            old(bus).wf(),
            old(self).cpu_cycle <= CYCLE_LIMIT + 0x100,
            !is_read(old(self).instruction_info.instruction),
            !is_store(old(self).instruction_info.instruction),
            !is_modify(old(self).instruction_info.instruction),
            !is_implied(old(self).instruction_info.instruction),
            !crate::cpu::instructions::is_branch(old(self).instruction_info.instruction),
        ensures
            final(bus).wf(),
            final(self).same_control(old(self)),
            final(self).effect(final(bus)@) == execute_spec(
                old(self).registers,
                old(self).instruction_info,
                old(self).cpu_cycle as int,
                old(bus)@,
            ),
    {
        let info = self.instruction_info;
        let (addr, crossed) = self.get_operand_address(bus);
        let next = self.next_pc();
        let base = info.instruction_cycle as u64;
        match info.instruction {
            Instruction::JMP => {
                self.registers.pc = addr;
            },
            Instruction::JSR => {
                let ret = next_address(self.registers.pc, 2);
                self.stack_push(bus, (ret / 256) as u8);
                self.stack_push(bus, (ret % 256) as u8);
                self.registers.pc = addr;
            },
            Instruction::RTS => {
                let lo = self.stack_pop(bus);
                let hi = self.stack_pop(bus);
                self.registers.pc = next_address(hi as u16 * 256 + lo as u16, 1);
            },
            Instruction::RTI => {
                let st = self.stack_pop(bus);
                let lo = self.stack_pop(bus);
                let hi = self.stack_pop(bus);
                self.registers.pc = hi as u16 * 256 + lo as u16;
                self.registers.p = status_to_push(st, false);
            },
            Instruction::PHA => {
                let a = self.registers.a;
                self.stack_push(bus, a);
                self.registers.pc = next;
            },
            Instruction::PHP => {
                let st = status_to_push(self.registers.p, true);
                self.stack_push(bus, st);
                self.registers.pc = next;
            },
            Instruction::PLA => {
                let v = self.stack_pop(bus);
                self.registers.a = v;
                self.registers.p = zn(self.registers.p, v);
                self.registers.pc = next;
            },
            Instruction::PLP => {
                let v = self.stack_pop(bus);
                self.registers.p = status_to_push(v, false);
                self.registers.pc = next;
            },
            Instruction::BRK => {
                let ret = next_address(self.registers.pc, 2);
                let st = status_to_push(self.registers.p, true);
                self.stack_push(bus, (ret / 256) as u8);
                self.stack_push(bus, (ret % 256) as u8);
                self.stack_push(bus, st);
                let pc = read_u16(bus, 0xFFFE);
                self.registers.pc = pc;
                self.registers.p = set_bits(self.registers.p, INTERRUPT_DISABLE, true);
            },
            _ => {
                self.registers.pc = next;
                if info.instruction_type == InstructionType::CrossingPage && crossed {
                    self.cpu_cycle = self.cpu_cycle + 1;
                }
            },
        }
        self.cpu_cycle = self.cpu_cycle + base;
    }

    /// Executes the decoded instruction; an instruction this CPU does not
    /// implement is an error and changes nothing.
    fn execute(&mut self, bus: &mut Bus) -> (r: Result<(), NesError>)
        requires
            old(bus).wf(),
            old(self).cpu_cycle <= CYCLE_LIMIT + 0x100,
        ensures
            final(bus).wf(),
            final(self).same_control(old(self)),
            r.is_err() <==> is_illegal(old(self).instruction_info.instruction),
            r.is_err() ==> r == Err::<(), NesError>(
                NesError::IllegalOpcode {
                    pc: old(self).registers.pc,
                    opcode: old(self).instruction_info.operand_code,
                    cycle: old(self).cpu_cycle,
                },
            ) && final(self).effect(final(bus)@) == old(self).effect(old(bus)@),
            r.is_ok() ==> final(self).effect(final(bus)@) == execute_spec(
                old(self).registers,
                old(self).instruction_info,
                old(self).cpu_cycle as int,
                old(bus)@,
            ),
    {
        match self.instruction_info.instruction {
            Instruction::STP | Instruction::ANC | Instruction::ALR | Instruction::ARR
            | Instruction::XAA | Instruction::AHX | Instruction::TAS | Instruction::SHY
            | Instruction::SHX | Instruction::LAS | Instruction::AXS => {
                return Err(
                    NesError::IllegalOpcode {
                        pc: self.registers.pc,
                        opcode: self.instruction_info.operand_code,
                        cycle: self.cpu_cycle,
                    },
                );
            },
            Instruction::LDA | Instruction::LDX | Instruction::LDY | Instruction::LAX
            | Instruction::AND | Instruction::ORA | Instruction::EOR | Instruction::ADC
            | Instruction::SBC | Instruction::CMP | Instruction::CPX | Instruction::CPY
            | Instruction::BIT => self.exec_read(bus),
            Instruction::STA | Instruction::STX | Instruction::STY | Instruction::SAX => self.exec_store(
                bus,
            ),
            Instruction::ASL | Instruction::LSR | Instruction::ROL | Instruction::ROR
            | Instruction::INC | Instruction::DEC | Instruction::SLO | Instruction::RLA
            | Instruction::SRE | Instruction::RRA | Instruction::DCP | Instruction::ISC => self.exec_modify(
                bus,
            ),
            Instruction::TAX | Instruction::TAY | Instruction::TXA | Instruction::TYA
            | Instruction::TSX | Instruction::TXS | Instruction::INX | Instruction::INY
            | Instruction::DEX | Instruction::DEY | Instruction::CLC | Instruction::SEC
            | Instruction::CLI | Instruction::SEI | Instruction::CLV | Instruction::CLD
            | Instruction::SED => self.exec_implied(bus),
            Instruction::BPL | Instruction::BMI | Instruction::BVC | Instruction::BVS
            | Instruction::BCC | Instruction::BCS | Instruction::BNE | Instruction::BEQ => self.exec_branch(
                bus,
            ),
            _ => self.exec_control(bus),
        }
        Ok(())
    }
    fn interrupt_sequence(&mut self, bus: &mut Bus, vector: u16)
        requires
            old(bus).wf(),
            old(self).cpu_cycle <= CYCLE_LIMIT,
        ensures
            final(bus).wf(),
            final(self).same_control(old(self)),
            final(self).effect(final(bus)@) == interrupt_effect(
                old(self).registers,
                old(self).cpu_cycle as int,
                old(bus)@,
                vector,
            ),
    {
        let pc = self.registers.pc;
        let st = status_to_push(self.registers.p, false);
        self.stack_push(bus, (pc / 256) as u8);
        self.stack_push(bus, (pc % 256) as u8);
        self.stack_push(bus, st);
        let target = read_u16(bus, vector);
        self.registers.pc = target;
        self.registers.p = set_bits(self.registers.p, INTERRUPT_DISABLE, true);
        self.cpu_cycle = self.cpu_cycle + 7;
    }

    /// Services an NMI through the vector at `$FFFA`.
    fn nmi(&mut self, bus: &mut Bus)
        requires
            old(bus).wf(),
            old(self).cpu_cycle <= CYCLE_LIMIT,
        ensures
            final(bus).wf(),
            final(self).same_control(old(self)),
            final(self).effect(final(bus)@) == interrupt_effect(
                old(self).registers,
                old(self).cpu_cycle as int,
                old(bus)@,
                0xFFFA,
            ),
    {
        self.interrupt_sequence(bus, 0xFFFA);
    }

    /// Services an IRQ through the vector at `$FFFE`.
    fn irq(&mut self, bus: &mut Bus)
        requires
            old(bus).wf(),
            old(self).cpu_cycle <= CYCLE_LIMIT,
        ensures
            final(bus).wf(),
            final(self).same_control(old(self)),
            final(self).effect(final(bus)@) == interrupt_effect(
                old(self).registers,
                old(self).cpu_cycle as int,
                old(bus)@,
                0xFFFE,
            ),
    {
        self.interrupt_sequence(bus, 0xFFFE);
    }

    /// Services a pending NMI edge or IRQ and records the NMI level.
    fn service_interrupts(&mut self, bus: &mut Bus)
        requires
            old(bus).wf(),
            old(self).cpu_cycle <= CYCLE_LIMIT,
            old(self).interrupt.nmi.0 == (old(bus)@.interrupt_status & NMI_LINE != 0),
            old(self).interrupt.irq == (old(bus)@.interrupt_status & IRQ_LINE != 0),
        ensures
            final(bus).wf(),
            final(self).cpu_cycle <= CYCLE_LIMIT + 7,
            final(self).effect(final(bus)@) == service_spec(
                old(self).registers,
                old(self).interrupt.nmi.1,
                old(self).cpu_cycle as int,
                old(bus)@,
            ),
            final(self).interrupt.nmi.1 == old(self).interrupt.nmi.0,
            final(self).interrupt.nmi.0 == old(self).interrupt.nmi.0,
            final(self).instruction_info == old(self).instruction_info,
    {
        if self.interrupt.nmi.0 && !self.interrupt.nmi.1 {
            self.nmi(bus);
        } else if self.interrupt.irq && self.registers.p & INTERRUPT_DISABLE == 0 {
            self.irq(bus);
        }
        self.interrupt.nmi.1 = self.interrupt.nmi.0;
    }

    /// Fetches, decodes and executes the instruction at PC.
    fn fetch_and_execute(&mut self, bus: &mut Bus) -> (r: Result<(), NesError>)
        requires
            old(bus).wf(),
            old(self).cpu_cycle <= CYCLE_LIMIT + 7,
        ensures
            final(bus).wf(),
            final(self).cpu_cycle <= CYCLE_LIMIT + 0x1000,
            old(self).cpu_cycle <= final(self).cpu_cycle <= old(self).cpu_cycle + 0x400,
            final(self).interrupt == old(self).interrupt,
            final(self).instruction_info == fetch_spec(old(self).effect(old(bus)@)).0,
            r.is_err() <==> is_illegal(final(self).instruction_info.instruction),
            r.is_err() ==> is_illegal(final(self).instruction_info.instruction) && r == Err::<
                (),
                NesError,
            >(
                NesError::IllegalOpcode {
                    pc: final(self).registers.pc,
                    opcode: final(self).instruction_info.operand_code,
                    cycle: final(self).cpu_cycle,
                },
            ),
            r.is_ok() ==> final(self).effect(final(bus)@) == execute_spec(
                fetch_spec(old(self).effect(old(bus)@)).1.regs,
                fetch_spec(old(self).effect(old(bus)@)).0,
                fetch_spec(old(self).effect(old(bus)@)).1.cycle,
                fetch_spec(old(self).effect(old(bus)@)).1.bus,
            ),
    {
        let opcode = bus.cpu_read(self.registers.pc);
        self.instruction_info = decode_opcode(opcode);
        let ghost info = self.instruction_info;
        let ghost before = self.effect(bus@);
        let result = self.execute(bus);
        proof {
            lemma_execute_cycles(before.regs, info, before.cycle, before.bus);
            lemma_execute_bound(before.regs, info, before.cycle, before.bus);
        }
        result
    }

    /// Runs one instruction. At the boundary the interrupt lines are
    /// sampled: RESET runs the reset sequence and ends the step; an NMI edge,
    /// or else an IRQ with I clear, is serviced before the next instruction
    /// is fetched and executed.
    #[verifier::rlimit(60)]
    pub fn step(&mut self, bus: &mut Bus) -> (r: Result<(), NesError>)
        requires
            old(bus).wf(),
            old(self).cpu_cycle <= CYCLE_LIMIT,
        ensures
            final(bus).wf(),
            final(self).cpu_cycle <= CYCLE_LIMIT + 0x1000,
            final(self).cpu_cycle <= old(self).cpu_cycle + 0x1000,
            old(self).cpu_cycle <= final(self).cpu_cycle || final(self).cpu_cycle == 7,
            final(self).cpu_cycle_wait <= 0x1000,
            r.is_err() ==> is_illegal(final(self).instruction_info.instruction) && r == Err::<
                (),
                NesError,
            >(
                NesError::IllegalOpcode {
                    pc: final(self).registers.pc,
                    opcode: final(self).instruction_info.operand_code,
                    cycle: final(self).cpu_cycle,
                },
            ),
            old(bus)@.interrupt_status & RESET_LINE != 0 ==> r.is_ok() && final(self).effect(
                final(bus)@,
            ) == reset_spec(old(self).registers, reset_taken(old(bus)@)) && final(self).cpu_cycle == 7,
            old(bus)@.interrupt_status & RESET_LINE == 0 ==> final(self).interrupt.nmi.1 == (
            old(bus)@.interrupt_status & NMI_LINE != 0) && final(self).instruction_info == boundary_spec(
                old(self).registers,
                old(self).interrupt.nmi.1,
                old(self).cpu_cycle as int,
                old(bus)@,
            ).0 && (r.is_err() <==> is_illegal(final(self).instruction_info.instruction)),
            old(bus)@.interrupt_status & RESET_LINE == 0 && r.is_ok() ==> final(self).effect(
                final(bus)@,
            ) == step_spec(
                old(self).registers,
                old(self).interrupt.nmi.1,
                old(self).cpu_cycle as int,
                old(bus)@,
            ),
            old(bus)@.interrupt_status & RESET_LINE == 0 && r.is_ok() ==> final(self).cpu_cycle
                > old(self).cpu_cycle && final(self).cpu_cycle_wait == final(self).cpu_cycle - old(
                self).cpu_cycle - 1,
    {
        proof {
            reveal(step_spec);
            reveal(boundary_spec);
            reveal(reset_spec);
        }
        let status = bus.interrupt_status;
        self.interrupt.irq = status & IRQ_LINE != 0;
        self.interrupt.nmi.0 = status & NMI_LINE != 0;
        self.interrupt.reset = status & RESET_LINE != 0;
        if self.interrupt.reset {
            bus.interrupt_status = status & !RESET_LINE;
            self.reset(bus);
            self.cpu_cycle_wait = 6;
            return Ok(());
        }
        let start = self.cpu_cycle;
        self.service_interrupts(bus);
        let result = self.fetch_and_execute(bus);
        proof {
            lemma_cycles_increase(
                old(self).registers,
                old(self).interrupt.nmi.1,
                old(self).cpu_cycle as int,
                old(bus)@,
            );
        }
        self.cpu_cycle_wait = if self.cpu_cycle > start {
            self.cpu_cycle - start - 1
        } else {
            0
        };
        result
    }
}

/// The target of a relative branch whose next instruction is at `next`.
fn relative_target(next: u16, v: u8) -> (r: u16)
    ensures
        r == add16(next, branch_offset(v)),
{
    if v < 0x80 {
        ((next as u32 + v as u32) % 0x10000) as u16
    } else {
        ((next as u32 + 0x10000 + v as u32 - 256) % 0x10000) as u16
    }
}

/// The word an indirect `JMP` loads through `ptr`, with the high byte taken
/// from the start of the page when `ptr` ends in `$FF`.
fn indirect_target(bus: &Bus, ptr: u16) -> (r: u16)
    requires
        bus.wf(),
    ensures
        r == (bus@.peek(
            if ptr as int % 256 == 255 {
                (ptr as int - 255) as u16
            } else {
                (ptr + 1) as u16
            },
        ) as int * 256 + bus@.peek(ptr) as int) as u16,
{
    let hi_addr = if ptr % 256 == 255 {
        ptr - 255
    } else {
        ptr + 1
    };
    let lo = bus.cpu_read_debug(ptr);
    let hi = bus.cpu_read_debug(hi_addr);
    hi as u16 * 256 + lo as u16
}

/// `a + n`, wrapping at 16 bits.
pub fn next_address(a: u16, n: u16) -> (r: u16)
    ensures
        r == add16(a, n as int),
{
    ((a as u32 + n as u32) % 0x10000) as u16
}

/// The word at `addr`, read without side effects.
pub fn read_word_debug(bus: &Bus, addr: u16) -> (r: u16)
    requires
        bus.wf(),
    ensures
        r == peek16(bus@, addr),
{
    let lo = bus.cpu_read_debug(addr);
    let hi = bus.cpu_read_debug(next_address(addr, 1));
    hi as u16 * 256 + lo as u16
}

/// The word at zero-page `zp`, read without side effects.
pub fn read_word_zp_debug(bus: &Bus, zp: u8) -> (r: u16)
    requires
        bus.wf(),
    ensures
        r == peek16_zp(bus@, zp),
{
    let lo = bus.cpu_read_debug(zp as u16);
    let hi = bus.cpu_read_debug((zp as u16 + 1) % 256);
    hi as u16 * 256 + lo as u16
}

/// The word at `addr`, read through the bus.
pub fn read_u16(bus: &mut Bus, addr: u16) -> (r: u16)
    requires
        old(bus).wf(),
    ensures
        final(bus).wf(),
        (r, final(bus)@) == read16_spec(old(bus)@, addr),
{
    let lo = bus.cpu_read(addr);
    let hi = bus.cpu_read(next_address(addr, 1));
    hi as u16 * 256 + lo as u16
}

} // verus!
