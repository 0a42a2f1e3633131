//! The driver: steps the CPU and the PPU in lock-step, three dots per CPU cycle.
use vstd::prelude::*;
use crate::bus::apu_io_registers::{buttons_word, Button};
use crate::bus::bus::{power_on_view, Bus, BusView, RESET_LINE};
use crate::cpu::registers::Registers;
use crate::cpu::cpu::Cpu;
use crate::cpu::semantics::{read16_spec, CYCLE_LIMIT};
use crate::mapper::{header_of, mapper_supported, mapper_view_of, rom_well_formed};
use crate::ppu::{position_index, ppu_owned_change, Ppu, PpuState, FRAME_DOTS};
use crate::cpu::cpu::{boundary_spec, reset_spec, reset_taken, step_spec};
use crate::cpu::semantics::is_illegal;
use crate::NesError;

verus! {

/// The cycle counts the driver accepts: each call adds far less than the margin.
pub const DRIVER_CYCLE_LIMIT: u64 = 0x7FFF_FF00_0000_0000;

/// CPU clocks that `frame` may run: three dots each, more than one frame.
pub const FRAME_CLOCK_BUDGET: u32 = 29_800;

/// The dot at which a frame is complete: scanline 241, dot 1.
pub open spec fn frame_done_index() -> int {
    241int * 341 + 1
}

/// Dot `j` after the dot with index `start`, counted within the frame.
pub open spec fn dot_after(start: int, j: int) -> int {
    (start + j) % (FRAME_DOTS as int)
}

/// Changes that only the PPU makes compose.
pub proof fn lemma_ppu_owned_trans(a: BusView, b: BusView, c: BusView)
    requires
        ppu_owned_change(a, b),
        ppu_owned_change(b, c),
    ensures
        ppu_owned_change(a, c),
{
}

/// The CPU registers and cycle count, as a debugger shows them.
#[derive(Debug, Clone)]
pub struct CpuState {
    pub a: u8,
    pub x: u8,
    pub y: u8,
    pub p: u8,
    pub sp: u8,
    pub pc: u16,
    pub cycles: u64,
    /// The listing line of the instruction at PC.
    pub disassembly: String,
}

/// A whole console: CPU, PPU and the bus they share.
pub struct Emulator {
    pub cpu: Cpu,
    pub ppu: Ppu,
    pub bus: Bus,
    pub palettes: crate::utils::Palettes,
}

impl Emulator {
    /// The state after RESET from bus `b`: the bus memories cleared (the
    /// cartridge ROM and held buttons kept), the PPU at the top of a blank
    /// frame, and the CPU's reset sequence run (`S = $FD`, `P = $24`, PC
    /// from `$FFFC`, cycle 7).
    pub open spec fn is_reset_from(&self, b: BusView) -> bool {
        &&& self.bus@ == b.after_reset()
        &&& self.cpu.registers.sp == 0xFD
        &&& self.cpu.registers.p == 0x24
        &&& self.cpu.registers.pc == read16_spec(b.after_reset(), 0xFFFC).0
        &&& self.cpu.cpu_cycle == 7
        &&& self.cpu.cpu_cycle_wait == 0
        &&& self.ppu.scanline == 0 && self.ppu.dot == 0 && self.ppu.cycles == 0
        &&& !self.ppu.frame_ready
        &&& self.ppu.frame_color_index_cache@ == Seq::new(
            crate::ppu::FRAME_SIZE as nat,
            |i: int| 0u8,
        )
    }

    pub open spec fn wf(&self) -> bool {
        &&& self.bus.wf()
        &&& self.ppu.wf()
        &&& self.cpu.cpu_cycle_wait <= 0x1000
    }

    /// Cycle counts far enough from overflow for one more driver call.
    pub open spec fn has_budget(&self) -> bool {
        &&& self.cpu.cpu_cycle <= DRIVER_CYCLE_LIMIT
        &&& self.ppu.cycles <= DRIVER_CYCLE_LIMIT
    }

    pub fn new() -> (r: Self)
        ensures
            r.wf(),
            r.has_budget(),
            r.bus@ == power_on_view(),
            r.cpu.registers == (Registers { a: 0, x: 0, y: 0, pc: 0xC000, sp: 0xFD, p: 0x24 }),
            r.cpu.cpu_cycle == 0,
            r.cpu.cpu_cycle_wait == 0,
            r.ppu.scanline == 0 && r.ppu.dot == 0 && r.ppu.cycles == 0,
            !r.ppu.frame_ready,
    {
        Emulator {
            cpu: Cpu::new(),
            ppu: Ppu::new(),
            bus: Bus::new(),
            palettes: crate::utils::Palettes::new(),
        }
    }

    /// Puts a cartridge in and resets. On an error nothing changes.
    pub fn load_rom(&mut self, rom: Vec<u8>) -> (r: Result<(), NesError>)
        requires
            old(self).wf(),
        ensures
            final(self).wf(),
            r.is_ok() <==> rom_well_formed(rom@) && mapper_supported(header_of(rom@).mapper_number),
            !rom_well_formed(rom@) ==> r == Err::<(), NesError>(NesError::MalformedRom),
            rom_well_formed(rom@) && !mapper_supported(header_of(rom@).mapper_number) ==> r == Err::<
                (),
                NesError,
            >(NesError::UnsupportedMapper(header_of(rom@).mapper_number)),
            r.is_err() ==> final(self).bus@ == old(self).bus@,
            r.is_ok() ==> final(self).bus@.mapper == mapper_view_of(rom@),
            r.is_ok() ==> final(self).is_reset_from(
                BusView { mapper: mapper_view_of(rom@), ..old(self).bus@ },
            ),
    {
        let r = self.bus.load_rom(rom);
        if r.is_ok() {
            self.reset();
            assert(mapper_view_of(rom@).after_reset() =~= mapper_view_of(rom@));
        }
        r
    }

    /// RESET: clears the bus memories, puts the PPU at the top of the
    /// frame and runs the CPU's reset sequence.
    pub fn reset(&mut self)
        requires
            old(self).wf(),
        ensures
            final(self).wf(),
            final(self).is_reset_from(old(self).bus@),
    {
        self.bus.reset();
        self.ppu.reset();
        self.cpu.reset(&mut self.bus);
    }

    pub fn hard_reset(&mut self)
        requires
            old(self).wf(),
        ensures
            final(self).wf(),
            final(self).is_reset_from(old(self).bus@),
    {
        self.bus.hard_reset();
        self.ppu.hard_reset();
        self.cpu.reset(&mut self.bus);
    }

    /// Records the buttons held now.
    pub fn refresh_input(&mut self, new_input: &Vec<Button>)
        requires
            old(self).wf(),
        ensures
            final(self).wf(),
            final(self).bus@ == (BusView {
                apu: crate::bus::apu_io_registers::ApuView {
                    input_reg: buttons_word(new_input@),
                    ..old(self).bus@.apu
                },
                ..old(self).bus@
            }),
            final(self).cpu == old(self).cpu,
            final(self).ppu.scanline == old(self).ppu.scanline,
            final(self).ppu.dot == old(self).ppu.dot,
            final(self).ppu.cycles == old(self).ppu.cycles,
    {
        self.bus.refresh_input(new_input);
    }

    /// Three PPU dots.
    fn ppu_clock(&mut self)
        requires
            old(self).wf(),
            old(self).ppu.cycles <= DRIVER_CYCLE_LIMIT + 0x1_0000_0000,
        ensures
            final(self).wf(),
            final(self).ppu.cycles == old(self).ppu.cycles + 3,
            final(self).cpu == old(self).cpu,
            final(self).bus@.interrupt_status & RESET_LINE == old(self).bus@.interrupt_status
                & RESET_LINE,
            ppu_owned_change(old(self).bus@, final(self).bus@),
            position_index(final(self).ppu.scanline, final(self).ppu.dot) == dot_after(
                position_index(old(self).ppu.scanline, old(self).ppu.dot),
                3,
            ),
            final(self).ppu.frame_ready == (old(self).ppu.frame_ready || exists|j: int|
                0 <= j < 3 && dot_after(position_index(old(self).ppu.scanline, old(self).ppu.dot), j)
                    == frame_done_index()),
    {
        let ghost p0 = position_index(self.ppu.scanline, self.ppu.dot);
        let ghost b0 = self.bus@;
        self.ppu.step(&mut self.bus);
        let ghost p1 = position_index(self.ppu.scanline, self.ppu.dot);
        let ghost b1 = self.bus@;
        self.ppu.step(&mut self.bus);
        let ghost p2 = position_index(self.ppu.scanline, self.ppu.dot);
        let ghost b2 = self.bus@;
        self.ppu.step(&mut self.bus);
        proof {
            lemma_ppu_owned_trans(b0, b1, b2);
            lemma_ppu_owned_trans(b0, b2, self.bus@);
            let m = FRAME_DOTS as int;
            vstd::arithmetic::div_mod::lemma_small_mod(p0 as nat, m as nat);
            vstd::arithmetic::div_mod::lemma_small_mod(1, m as nat);
            vstd::arithmetic::div_mod::lemma_add_mod_noop(p0 + 1, 1, m);
            vstd::arithmetic::div_mod::lemma_add_mod_noop(p0 + 2, 1, m);
            assert(dot_after(p0, 0) == p0);
            assert(dot_after(p0, 1) == p1);
            assert(dot_after(p0, 2) == p2);
            if p0 == frame_done_index() {
                assert(dot_after(p0, 0) == frame_done_index());
            }
            if p1 == frame_done_index() {
                assert(dot_after(p0, 1) == frame_done_index());
            }
            if p2 == frame_done_index() {
                assert(dot_after(p0, 2) == frame_done_index());
            }
        }
    }

    /// One CPU cycle: the CPU starts its next instruction when the previous
    /// one has used up its cycles, and the PPU runs three dots.
    pub fn cpu_clock(&mut self) -> (r: Result<(), NesError>)
        requires
            old(self).wf(),
            old(self).cpu.cpu_cycle <= DRIVER_CYCLE_LIMIT + 0x1_0000_0000,
            old(self).ppu.cycles <= DRIVER_CYCLE_LIMIT + 0x1_0000_0000,
        ensures
            final(self).wf(),
            final(self).ppu.cycles == old(self).ppu.cycles + 3,
            old(self).cpu.cpu_cycle_wait != 0 ==> final(self).cpu.cpu_cycle_wait == old(
                self,
            ).cpu.cpu_cycle_wait - 1 && final(self).cpu.registers == old(self).cpu.registers
                && final(self).cpu.cpu_cycle == old(self).cpu.cpu_cycle && r.is_ok(),
            final(self).cpu.cpu_cycle <= old(self).cpu.cpu_cycle + 0x1000,
            old(self).cpu.cpu_cycle <= final(self).cpu.cpu_cycle || final(self).cpu.cpu_cycle == 7,
            position_index(final(self).ppu.scanline, final(self).ppu.dot) == dot_after(
                position_index(old(self).ppu.scanline, old(self).ppu.dot),
                3,
            ),
            final(self).ppu.frame_ready == (old(self).ppu.frame_ready || exists|j: int|
                0 <= j < 3 && dot_after(position_index(old(self).ppu.scanline, old(self).ppu.dot), j)
                    == frame_done_index()),
            r.is_err() ==> is_illegal(final(self).cpu.instruction_info.instruction) && r == Err::<
                (),
                NesError,
            >(
                NesError::IllegalOpcode {
                    pc: final(self).cpu.registers.pc,
                    opcode: final(self).cpu.instruction_info.operand_code,
                    cycle: final(self).cpu.cpu_cycle,
                },
            ),
            old(self).cpu.cpu_cycle_wait != 0 ==> ppu_owned_change(old(self).bus@, final(self).bus@),
            old(self).cpu.cpu_cycle_wait == 0 && old(self).bus@.interrupt_status & RESET_LINE != 0
                ==> r.is_ok() && final(self).cpu.registers == reset_spec(
                old(self).cpu.registers,
                reset_taken(old(self).bus@),
            ).regs && final(self).cpu.cpu_cycle == 7 && ppu_owned_change(
                reset_spec(old(self).cpu.registers, reset_taken(old(self).bus@)).bus,
                final(self).bus@,
            ),
            old(self).cpu.cpu_cycle_wait == 0 && old(self).bus@.interrupt_status & RESET_LINE == 0
                ==> final(self).cpu.instruction_info == boundary_spec(
                old(self).cpu.registers,
                old(self).cpu.interrupt.nmi.1,
                old(self).cpu.cpu_cycle as int,
                old(self).bus@,
            ).0 && (r.is_err() <==> is_illegal(final(self).cpu.instruction_info.instruction)),
            old(self).cpu.cpu_cycle_wait == 0 && old(self).bus@.interrupt_status & RESET_LINE == 0
                && r.is_ok() ==> final(self).cpu.cpu_cycle > old(self).cpu.cpu_cycle
                && final(self).cpu.registers == step_spec(
                old(self).cpu.registers,
                old(self).cpu.interrupt.nmi.1,
                old(self).cpu.cpu_cycle as int,
                old(self).bus@,
            ).regs && final(self).cpu.cpu_cycle as int == step_spec(
                old(self).cpu.registers,
                old(self).cpu.interrupt.nmi.1,
                old(self).cpu.cpu_cycle as int,
                old(self).bus@,
            ).cycle && ppu_owned_change(
                step_spec(
                    old(self).cpu.registers,
                    old(self).cpu.interrupt.nmi.1,
                    old(self).cpu.cpu_cycle as int,
                    old(self).bus@,
                ).bus,
                final(self).bus@,
            ),
    {
        let mut r = Ok(());
        if self.cpu.cpu_cycle_wait == 0 {
            r = self.cpu.step(&mut self.bus);
        } else {
            self.cpu.cpu_cycle_wait = self.cpu.cpu_cycle_wait - 1;
        }
        self.ppu_clock();
        r
    }

    /// Runs to the next instruction boundary: the cycles left of the
    /// current instruction, then one whole instruction.
    pub fn cpu_step(&mut self) -> (r: Result<(), NesError>)
        requires
            old(self).wf(),
            old(self).has_budget(),
        ensures
            final(self).wf(),
            r.is_ok() ==> final(self).cpu.cpu_cycle_wait == 0,
            final(self).ppu.cycles >= old(self).ppu.cycles + 3,
            r.is_ok() && old(self).bus@.interrupt_status & RESET_LINE == 0 ==> final(self).ppu.cycles
                - old(self).ppu.cycles == 3 * (old(self).cpu.cpu_cycle_wait + final(self).cpu.cpu_cycle
                - old(self).cpu.cpu_cycle),
            final(self).cpu.cpu_cycle <= old(self).cpu.cpu_cycle + 0x1000,
            final(self).ppu.cycles <= old(self).ppu.cycles + 0x1_0000_0000,
            r.is_err() ==> is_illegal(final(self).cpu.instruction_info.instruction) && r == Err::<
                (),
                NesError,
            >(
                NesError::IllegalOpcode {
                    pc: final(self).cpu.registers.pc,
                    opcode: final(self).cpu.instruction_info.operand_code,
                    cycle: final(self).cpu.cpu_cycle,
                },
            ),
            old(self).bus@.interrupt_status & RESET_LINE == 0 ==> exists|mid: BusView|
                #[trigger] ppu_owned_change(old(self).bus@, mid) && (old(self).cpu.cpu_cycle_wait == 0
                    ==> mid == old(self).bus@) && final(self).cpu.instruction_info == boundary_spec(
                    old(self).cpu.registers,
                    old(self).cpu.interrupt.nmi.1,
                    old(self).cpu.cpu_cycle as int,
                    mid,
                ).0 && (r.is_err() <==> is_illegal(final(self).cpu.instruction_info.instruction)) && (
                r.is_ok() ==> final(self).cpu.registers == step_spec(
                    old(self).cpu.registers,
                    old(self).cpu.interrupt.nmi.1,
                    old(self).cpu.cpu_cycle as int,
                    mid,
                ).regs && final(self).cpu.cpu_cycle as int == step_spec(
                    old(self).cpu.registers,
                    old(self).cpu.interrupt.nmi.1,
                    old(self).cpu.cpu_cycle as int,
                    mid,
                ).cycle && ppu_owned_change(
                    step_spec(
                        old(self).cpu.registers,
                        old(self).cpu.interrupt.nmi.1,
                        old(self).cpu.cpu_cycle as int,
                        mid,
                    ).bus,
                    final(self).bus@,
                )),
    {
        self.drain();
        let ghost mid = self.bus@;
        let ghost cpu_mid = self.cpu;
        let r = self.cpu.step(&mut self.bus);
        let ghost stepped = self.bus@;
        self.ppu_clock();
        if r.is_ok() {
            self.drain();
        }
        proof {
            lemma_ppu_owned_trans(stepped, self.bus@, self.bus@);
            if old(self).bus@.interrupt_status & RESET_LINE == 0 {
                if r.is_ok() {
                    assert(self.cpu.registers == step_spec(
                        old(self).cpu.registers,
                        old(self).cpu.interrupt.nmi.1,
                        old(self).cpu.cpu_cycle as int,
                        mid,
                    ).regs);
                }
                assert(ppu_owned_change(old(self).bus@, mid));
            }
        }
        r
    }

    /// Lets the PPU run through the cycles the CPU has left.
    fn drain(&mut self)
        requires
            old(self).wf(),
            old(self).ppu.cycles <= DRIVER_CYCLE_LIMIT + 0x4000,
            old(self).cpu.cpu_cycle_wait <= 0x1000,
        ensures
            final(self).wf(),
            final(self).cpu.cpu_cycle_wait == 0,
            final(self).ppu.cycles == old(self).ppu.cycles + 3 * old(self).cpu.cpu_cycle_wait,
            final(self).cpu.registers == old(self).cpu.registers,
            final(self).cpu.cpu_cycle == old(self).cpu.cpu_cycle,
            final(self).bus@.interrupt_status & RESET_LINE == old(self).bus@.interrupt_status
                & RESET_LINE,
            final(self).cpu == (Cpu { cpu_cycle_wait: 0, ..old(self).cpu }),
            ppu_owned_change(old(self).bus@, final(self).bus@),
            old(self).cpu.cpu_cycle_wait == 0 ==> final(self).bus@ == old(self).bus@,
    {
        while self.cpu.cpu_cycle_wait != 0
            invariant
                self.wf(),
                self.cpu.cpu_cycle_wait <= old(self).cpu.cpu_cycle_wait,
                old(self).cpu.cpu_cycle_wait <= 0x1000,
                self.ppu.cycles == old(self).ppu.cycles + 3 * (old(self).cpu.cpu_cycle_wait
                    - self.cpu.cpu_cycle_wait),
                old(self).ppu.cycles <= DRIVER_CYCLE_LIMIT + 0x4000,
                self.cpu.registers == old(self).cpu.registers,
                self.cpu.cpu_cycle == old(self).cpu.cpu_cycle,
                self.bus@.interrupt_status & RESET_LINE == old(self).bus@.interrupt_status
                    & RESET_LINE,
                self.cpu == (Cpu { cpu_cycle_wait: self.cpu.cpu_cycle_wait, ..old(self).cpu }),
                ppu_owned_change(old(self).bus@, self.bus@),
                old(self).cpu.cpu_cycle_wait == 0 ==> self.bus@ == old(self).bus@,
            decreases self.cpu.cpu_cycle_wait,
        {
            let ghost before = self.bus@;
            self.ppu_clock();
            proof {
                lemma_ppu_owned_trans(old(self).bus@, before, self.bus@);
            }
            self.cpu.cpu_cycle_wait = self.cpu.cpu_cycle_wait - 1;
        }
    }

    /// Clocks until the PPU finishes a frame (at most one frame of dots);
    /// stops early at the first error the CPU meets.
    pub fn frame(&mut self) -> (r: Result<(), NesError>)
        requires
            old(self).wf(),
            old(self).has_budget(),
        ensures
            final(self).wf(),
            r.is_ok() ==> final(self).ppu.frame_ready,
            r.is_ok() ==> exists|j: int|
                1 <= j <= 3 && position_index(final(self).ppu.scanline, final(self).ppu.dot)
                    == dot_after(frame_done_index(), j),
            r.is_ok() ==> final(self).ppu.cycles >= old(self).ppu.cycles + 3,
            r.is_err() ==> is_illegal(final(self).cpu.instruction_info.instruction) && r == Err::<
                (),
                NesError,
            >(
                NesError::IllegalOpcode {
                    pc: final(self).cpu.registers.pc,
                    opcode: final(self).cpu.instruction_info.operand_code,
                    cycle: final(self).cpu.cpu_cycle,
                },
            ),
            final(self).cpu.cpu_cycle <= old(self).cpu.cpu_cycle + 0x1000 * FRAME_CLOCK_BUDGET,
            final(self).ppu.cycles <= old(self).ppu.cycles + 3 * FRAME_CLOCK_BUDGET,
    {
        self.ppu.frame_ready = false;
        let ghost start = position_index(self.ppu.scanline, self.ppu.dot);
        let mut n: u32 = 0;
        while !self.ppu.frame_ready && n < FRAME_CLOCK_BUDGET
            invariant
                self.wf(),
                n <= FRAME_CLOCK_BUDGET,
                self.cpu.cpu_cycle <= old(self).cpu.cpu_cycle + 0x1000 * n,
                self.ppu.cycles == old(self).ppu.cycles + 3 * n,
                old(self).has_budget(),
                0 <= start < FRAME_DOTS,
                position_index(self.ppu.scanline, self.ppu.dot) == dot_after(start, 3 * n as int),
                !self.ppu.frame_ready ==> forall|j: int|
                    0 <= j < 3 * n ==> dot_after(start, j) != frame_done_index(),
                self.ppu.frame_ready ==> n >= 1 && exists|j: int|
                    1 <= j <= 3 && position_index(self.ppu.scanline, self.ppu.dot) == dot_after(
                        frame_done_index(),
                        j,
                    ),
            decreases FRAME_CLOCK_BUDGET - n,
        {
            let ghost p = position_index(self.ppu.scanline, self.ppu.dot);
            let ghost was_ready = self.ppu.frame_ready;
            let r = self.cpu_clock();
            if r.is_err() {
                return r;
            }
            proof {
                let m = FRAME_DOTS as int;
                assert forall|j: int| 0 <= j < 3 implies dot_after(p, j) == dot_after(start, 3 * n + j) by {
                    vstd::arithmetic::div_mod::lemma_add_mod_noop(start + 3 * n, j, m);
                    vstd::arithmetic::div_mod::lemma_small_mod(j as nat, m as nat);
                    vstd::arithmetic::div_mod::lemma_mod_twice(start + 3 * n, m);
                }
                assert(dot_after(p, 3) == dot_after(start, 3 * n + 3)) by {
                    vstd::arithmetic::div_mod::lemma_add_mod_noop(start + 3 * n, 3, m);
                    vstd::arithmetic::div_mod::lemma_small_mod(3, m as nat);
                }
                if self.ppu.frame_ready && !was_ready {
                    let j = choose|j: int| 0 <= j < 3 && dot_after(p, j) == frame_done_index();
                    vstd::arithmetic::div_mod::lemma_add_mod_noop(p + j, 3 - j, m);
                    vstd::arithmetic::div_mod::lemma_small_mod((3 - j) as nat, m as nat);
                    assert(dot_after(p, 3) == dot_after(frame_done_index(), 3 - j));
                }
                if !self.ppu.frame_ready {
                    assert forall|j: int| 0 <= j < 3 * (n + 1) implies dot_after(start, j)
                        != frame_done_index() by {
                        if j >= 3 * n {
                            assert(dot_after(p, j - 3 * n) == dot_after(start, j));
                        }
                    }
                }
            }
            n = n + 1;
        }
        proof {
            if !self.ppu.frame_ready {
                let m = FRAME_DOTS as int;
                let j = (frame_done_index() - start + m) % m;
                vstd::arithmetic::div_mod::lemma_mod_bound(frame_done_index() - start + m, m);
                assert(dot_after(start, j) == frame_done_index()) by {
                    vstd::arithmetic::div_mod::lemma_add_mod_noop(start, frame_done_index() - start + m, m);
                    vstd::arithmetic::div_mod::lemma_small_mod(start as nat, m as nat);
                    vstd::arithmetic::div_mod::lemma_mod_add_multiples_vanish(frame_done_index(), m);
                    vstd::arithmetic::div_mod::lemma_small_mod(frame_done_index() as nat, m as nat);
                }
            }
        }
        Ok(())
    }

    /// A copy of the last finished frame.
    pub fn frame_buffer(&self) -> (r: Vec<u8>)
        requires
            self.wf(),
        ensures
            r@ == self.ppu.frame_color_index_cache@,
    {
        let mut out: Vec<u8> = Vec::new();
        let mut i: usize = 0;
        while i < self.ppu.frame_color_index_cache.len()
            invariant
                i <= self.ppu.frame_color_index_cache@.len(),
                out@ == self.ppu.frame_color_index_cache@.subrange(0, i as int),
            decreases self.ppu.frame_color_index_cache@.len() - i,
        {
            out.push(self.ppu.frame_color_index_cache[i]);
            i = i + 1;
        }
        assert(out@ =~= self.ppu.frame_color_index_cache@);
        out
    }

    /// The CPU log line for the instruction at PC.
    pub fn get_log(&self) -> (r: String)
        requires
            self.wf(),
        ensures
            r@ == crate::cpu::disassembler::log_text(self.bus@, self.cpu.registers),
    {
        self.cpu.get_current_log(&self.bus)
    }

    /// The listing line of the instruction at PC.
    pub fn disassemble_current(&self) -> (r: String)
        requires
            self.wf(),
        ensures
            r@ == crate::cpu::disassembler::line_text(
                self.bus@,
                self.cpu.registers,
                self.cpu.registers.pc,
            ),
    {
        self.cpu.disassemble_instruction(&self.bus, self.cpu.registers.pc)
    }

    pub fn current_registers(&self) -> (r: CpuState)
        requires
            self.wf(),
        ensures
            r.a == self.cpu.registers.a,
            r.x == self.cpu.registers.x,
            r.y == self.cpu.registers.y,
            r.p == self.cpu.registers.p,
            r.sp == self.cpu.registers.sp,
            r.pc == self.cpu.registers.pc,
            r.cycles == self.cpu.cpu_cycle,
            r.disassembly@ == crate::cpu::disassembler::line_text(
                self.bus@,
                self.cpu.registers,
                self.cpu.registers.pc,
            ),
    {
        CpuState {
            a: self.cpu.registers.a,
            x: self.cpu.registers.x,
            y: self.cpu.registers.y,
            p: self.cpu.registers.p,
            sp: self.cpu.registers.sp,
            pc: self.cpu.registers.pc,
            cycles: self.cpu.cpu_cycle,
            disassembly: self.disassemble_current(),
        }
    }

    pub fn current_ppu_state(&self) -> (r: PpuState)
        ensures
            r == (PpuState {
                scanline: self.ppu.scanline,
                dot: self.ppu.dot,
                cycles: self.ppu.cycles,
                ppuctrl: self.bus.registers.ppuctrl,
                ppumask: self.bus.registers.ppumask,
                ppustatus: self.bus.registers.ppustatus,
            }),
    {
        self.ppu.get_current_log(&self.bus)
    }
}

} // verus!
