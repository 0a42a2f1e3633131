use fc_emulator_rs::bus::bus::{Bus, NMI_LINE, RESET_LINE};
use fc_emulator_rs::cpu::addressing_modes::AddressingMode;
use fc_emulator_rs::cpu::cpu::Cpu;
use fc_emulator_rs::cpu::disassembler::{decode_instruction, encode_instruction, Disassembler};
use fc_emulator_rs::cpu::instructions::{decode_opcode, Instruction, InstructionType};
use fc_emulator_rs::cpu::registers::{Registers, StatusFlags};
use fc_emulator_rs::cpu::semantics::{adc, compare, rol_op, ror_op};
use fc_emulator_rs::emulator::Emulator;
use fc_emulator_rs::NesError;

/// A 16 KiB NROM image (seen at both $8000 and $C000) with `code` at
/// `$8000`, the RESET vector at `$8000` and the NMI and IRQ vectors given.
fn rom_with(code: &[(u16, &[u8])], nmi: u16, irq: u16) -> Vec<u8> {
    let mut prg = vec![0xEAu8; 0x4000];
    for (addr, bytes) in code {
        let off = (*addr as usize) & 0x3FFF;
        prg[off..off + bytes.len()].copy_from_slice(bytes);
    }
    prg[0x3FFA] = (nmi & 0xFF) as u8;
    prg[0x3FFB] = (nmi >> 8) as u8;
    prg[0x3FFC] = 0x00;
    prg[0x3FFD] = 0x80;
    prg[0x3FFE] = (irq & 0xFF) as u8;
    prg[0x3FFF] = (irq >> 8) as u8;
    let mut rom = vec![0x4E, 0x45, 0x53, 0x1A, 1, 1, 0, 0];
    rom.extend_from_slice(&[0u8; 8]);
    rom.extend(prg);
    rom.extend(std::iter::repeat(0u8).take(0x2000));
    rom
}

fn emulator_with(code: &[(u16, &[u8])], nmi: u16, irq: u16) -> Emulator {
    let mut emu = Emulator::new();
    emu.load_rom(rom_with(code, nmi, irq)).unwrap();
    emu
}

#[test]
fn reset_sequence_loads_the_vector() {
    let emu = emulator_with(&[], 0x8000, 0x8000);
    assert_eq!(emu.cpu.registers.pc, 0x8000);
    assert_eq!(emu.cpu.registers.sp, 0xFD);
    assert_eq!(emu.cpu.registers.p, 0x24);
    assert_eq!(emu.cpu.cpu_cycle, 7);
}

#[test]
fn oam_dma_cycle_cost_scenario() {
    let mut bus = Bus::new();
    let mut cpu = Cpu::new();
    cpu.cpu_cycle = 100;
    cpu.write(&mut bus, 0x4014, 0x02);
    assert_eq!(cpu.cpu_cycle, 100 + 513);
    cpu.cpu_cycle = 101;
    cpu.write(&mut bus, 0x4014, 0x02);
    assert_eq!(cpu.cpu_cycle, 101 + 514);
}

#[test]
fn stack_wraps_after_257_pushes() {
    let pushes = [0x48u8; 257];
    let mut emu = emulator_with(&[(0x8000, &pushes)], 0x8000, 0x8000);
    let start = emu.cpu.registers.sp;
    for _ in 0..257 {
        emu.cpu.step(&mut emu.bus).unwrap();
    }
    assert_eq!(emu.cpu.registers.sp, start.wrapping_sub(1));
}

#[test]
fn cycles_strictly_increase_per_step() {
    let code = [0xA9u8, 0x10, 0x85, 0x20, 0xE6, 0x20, 0x4C, 0x00, 0x80];
    let mut emu = emulator_with(&[(0x8000, &code)], 0x8000, 0x8000);
    let mut last = emu.cpu.cpu_cycle;
    for _ in 0..20 {
        emu.cpu.step(&mut emu.bus).unwrap();
        assert!(emu.cpu.cpu_cycle > last);
        last = emu.cpu.cpu_cycle;
    }
}

#[test]
fn instruction_cycle_counts() {
    // LDA #$10 (2), STA $20 (3), INC $20 (5), JMP $8000 (3)
    let code = [0xA9u8, 0x10, 0x85, 0x20, 0xE6, 0x20, 0x4C, 0x00, 0x80];
    let mut emu = emulator_with(&[(0x8000, &code)], 0x8000, 0x8000);
    let mut cycles = vec![];
    for _ in 0..4 {
        let before = emu.cpu.cpu_cycle;
        emu.cpu.step(&mut emu.bus).unwrap();
        cycles.push(emu.cpu.cpu_cycle - before);
    }
    assert_eq!(cycles, vec![2, 3, 5, 3]);
    assert_eq!(emu.bus.cpu_read(0x0020), 0x11);
    assert_eq!(emu.cpu.registers.pc, 0x8000);
}

#[test]
fn page_cross_and_branch_penalties() {
    // LDX #$FF; LDA $80F0,X (crosses: 5); BNE +2 taken, same page (3)
    let code = [0xA2u8, 0xFF, 0xBD, 0xF0, 0x80, 0xD0, 0x02];
    let mut emu = emulator_with(&[(0x8000, &code)], 0x8000, 0x8000);
    emu.cpu.step(&mut emu.bus).unwrap();
    let c = emu.cpu.cpu_cycle;
    emu.cpu.step(&mut emu.bus).unwrap();
    assert_eq!(emu.cpu.cpu_cycle - c, 5);
    let c = emu.cpu.cpu_cycle;
    emu.cpu.step(&mut emu.bus).unwrap();
    assert_eq!(emu.cpu.cpu_cycle - c, 3);
    assert_eq!(emu.cpu.registers.pc, 0x8009);
}

#[test]
fn jsr_and_rts_round_trip() {
    let mut emu = emulator_with(&[(0x8000, &[0x20, 0x00, 0x90]), (0x9000, &[0x60])], 0x8000, 0x8000);
    emu.cpu.step(&mut emu.bus).unwrap();
    assert_eq!(emu.cpu.registers.pc, 0x9000);
    assert_eq!(emu.cpu.registers.sp, 0xFB);
    assert_eq!(emu.bus.cpu_read(0x01FD), 0x80);
    assert_eq!(emu.bus.cpu_read(0x01FC), 0x02);
    emu.cpu.step(&mut emu.bus).unwrap();
    assert_eq!(emu.cpu.registers.pc, 0x8003);
    assert_eq!(emu.cpu.registers.sp, 0xFD);
}

#[test]
fn indirect_jump_page_wrap_bug() {
    let mut emu = emulator_with(&[(0x8000, &[0x6C, 0xFF, 0x02])], 0x8000, 0x8000);
    emu.bus.cpu_write(0x02FF, 0x34);
    emu.bus.cpu_write(0x0200, 0x12);
    emu.bus.cpu_write(0x0300, 0x99);
    emu.cpu.step(&mut emu.bus).unwrap();
    assert_eq!(emu.cpu.registers.pc, 0x1234);
}

#[test]
fn nmi_is_serviced_once_while_held_high() {
    let handler: &[u8] = &[0xE6, 0x10, 0x40];
    let mut emu = emulator_with(&[(0x8000, &[0x4C, 0x00, 0x80]), (0x9000, handler)], 0x9000, 0x8000);
    emu.bus.interrupt_status = NMI_LINE;
    emu.cpu.step(&mut emu.bus).unwrap();
    assert_eq!(emu.cpu.registers.pc, 0x9002);
    assert!(emu.cpu.registers.get_flag(StatusFlags::InterruptDisable));
    assert_eq!(emu.bus.cpu_read(0x01FD), 0x80);
    assert_eq!(emu.bus.cpu_read(0x01FC), 0x00);
    assert_eq!(emu.bus.cpu_read(0x01FB) & 0x10, 0);
    for _ in 0..6 {
        emu.cpu.step(&mut emu.bus).unwrap();
    }
    assert_eq!(emu.bus.cpu_read(0x0010), 1);
}

#[test]
fn irq_waits_for_interrupt_disable_clear() {
    let code = [0x4Cu8, 0x00, 0x80];
    let mut emu = emulator_with(&[(0x8000, &code), (0x9100, &[0xE6, 0x11, 0x40])], 0x8000, 0x9100);
    emu.bus.interrupt_status = 0x01;
    emu.cpu.step(&mut emu.bus).unwrap();
    assert_eq!(emu.cpu.registers.pc, 0x8000);
    emu.cpu.registers.set_flag(StatusFlags::InterruptDisable, false);
    emu.cpu.step(&mut emu.bus).unwrap();
    assert_eq!(emu.cpu.registers.pc, 0x9102);
}

#[test]
fn reset_line_reruns_the_reset_sequence() {
    let mut emu = emulator_with(&[(0x8000, &[0xA9, 0x01])], 0x8000, 0x8000);
    emu.cpu.step(&mut emu.bus).unwrap();
    emu.bus.interrupt_status = RESET_LINE;
    emu.cpu.step(&mut emu.bus).unwrap();
    assert_eq!(emu.cpu.registers.pc, 0x8000);
    assert_eq!(emu.cpu.cpu_cycle, 7);
    assert_eq!(emu.bus.interrupt_status & RESET_LINE, 0);
}

#[test]
fn illegal_opcode_is_an_error() {
    let mut emu = emulator_with(&[(0x8000, &[0x02])], 0x8000, 0x8000);
    let r = emu.cpu.step(&mut emu.bus);
    assert!(matches!(r, Err(NesError::IllegalOpcode { pc: 0x8000, opcode: 0x02, cycle: 7 })));
}

#[test]
fn brk_pushes_break_flag_and_vectors() {
    let mut emu = emulator_with(&[(0x8000, &[0x00, 0x00])], 0x8000, 0x9000);
    emu.cpu.step(&mut emu.bus).unwrap();
    assert_eq!(emu.cpu.registers.pc, 0x9000);
    assert_eq!(emu.bus.cpu_read(0x01FB), 0x34);
    assert_eq!(emu.cpu.registers.p & 0x10, 0);
}

#[test]
fn adc_and_sbc_flags() {
    let r = Registers { a: 0x50, x: 0, y: 0, pc: 0, sp: 0xFD, p: 0x00 };
    let o = adc(r, 0x50);
    assert_eq!(o.a, 0xA0);
    assert_eq!(o.p, 0xC0);
    let r = Registers { a: 0xFF, p: 0x01, ..r };
    let o = adc(r, 0x01);
    assert_eq!(o.a, 0x01);
    assert_eq!(o.p & 0x01, 0x01);
    // SBC is ADC of the complement: 0x50 - 0xF0 with carry set
    let r = Registers { a: 0x50, p: 0x01, ..r };
    let o = adc(r, 0xF0 ^ 0xFF);
    assert_eq!(o.a, 0x60);
    assert_eq!(o.p & 0x01, 0x00);
}

#[test]
fn compare_and_rotates() {
    assert_eq!(compare(0x00, 0x40, 0x40), 0x03);
    assert_eq!(compare(0x00, 0x40, 0x41), 0x80);
    assert_eq!(rol_op(0x01, 0x80), (0x01, 0x01));
    assert_eq!(ror_op(0x01, 0x01), (0x80, 0x81));
}

#[test]
fn decode_table_entries() {
    let lda = decode_opcode(0xBD);
    assert_eq!(lda.instruction, Instruction::LDA);
    assert_eq!(lda.addressing_mode, AddressingMode::AbsoluteX);
    assert_eq!(lda.operand_size, 3);
    assert_eq!(lda.instruction_cycle, 4);
    assert_eq!(lda.instruction_type, InstructionType::CrossingPage);
    assert!(!lda.unofficial);
    let sbc = decode_opcode(0xEB);
    assert_eq!(sbc.instruction, Instruction::SBC);
    assert!(sbc.unofficial);
    assert_eq!(decode_opcode(0xD0).instruction_type, InstructionType::Branch);
    for op in 0..=255u8 {
        assert!(decode_opcode(op).instruction_cycle >= 2);
    }
}

#[test]
fn decode_encode_round_trip() {
    let bytes = [0xADu8, 0x34, 0x12];
    let d = decode_instruction(&bytes).unwrap();
    assert_eq!(d.instruction, Instruction::LDA);
    assert_eq!(d.addressing_mode, AddressingMode::Absolute);
    assert_eq!(d.operand, 0x1234);
    assert_eq!(d.length, 3);
    let e = encode_instruction(&d).unwrap();
    assert_eq!(e, bytes.to_vec());
    assert_eq!(decode_instruction(&e).unwrap(), d);
    let nop = decode_instruction(&[0x1A]).unwrap();
    let again = decode_instruction(&encode_instruction(&nop).unwrap()).unwrap();
    assert_eq!(again, nop);
    assert!(decode_instruction(&[0xAD, 0x34]).is_none());
    assert!(decode_instruction(&[0x02]).is_none());
}

#[test]
fn every_valid_opcode_round_trips() {
    for op in 0..=255u8 {
        let bytes = [op, 0x5A, 0xC3];
        if let Some(d) = decode_instruction(&bytes) {
            let e = encode_instruction(&d).unwrap();
            assert_eq!(decode_instruction(&e).unwrap(), d);
        }
    }
}

#[test]
fn nestest_style_listing_line() {
    let mut emu = emulator_with(&[(0xC000, &[0x4C, 0xF5, 0xC5])], 0x8000, 0x8000);
    emu.cpu.registers.pc = 0xC000;
    assert_eq!(emu.cpu.disassemble_instruction(&emu.bus, 0xC000), "C000  4C F5 C5  JMP $C5F5");
    assert_eq!(
        emu.cpu.get_current_log(&emu.bus),
        "C000  4C F5 C5  JMP $C5F5                       A:00 X:00 Y:00 P:24 SP:FD"
    );
    assert_eq!(emu.cpu.disassemble_instruction_short(&emu.bus), " JMP $C5F5");
}

#[test]
fn listing_operand_formats() {
    let code: &[u8] = &[0xA9, 0x05, 0xB5, 0x33, 0xB1, 0x89, 0x1A, 0xF0, 0xFE, 0x0A];
    let mut emu = emulator_with(&[(0x8000, code)], 0x8000, 0x8000);
    emu.bus.cpu_write(0x0089, 0x00);
    emu.bus.cpu_write(0x008A, 0x03);
    emu.bus.cpu_write(0x0300, 0x77);
    let d = Disassembler::new(emu.cpu.registers, 0x8000, 0x8009);
    let lines = d.disassemble(&emu.bus);
    assert_eq!(lines[0], "8000  A9 05     LDA #$05");
    assert_eq!(lines[1], "8002  B5 33     LDA $33,X @ 33 = 00");
    assert_eq!(lines[2], "8004  B1 89     LDA ($89),Y = 0300 @ 0300 = 77");
    assert_eq!(lines[3], "8006  1A       *NOP ");
    assert_eq!(lines[4], "8007  F0 FE     BEQ $8007");
    assert_eq!(lines[5], "8009  0A        ASL A");
    let (text, next) = d.disassemble_instruction(&emu.bus, 0x8000);
    assert_eq!(text, "LDA #$05");
    assert_eq!(next, 0x8002);
    assert_eq!(d.disassemble_instruction(&emu.bus, 0x8002), ("LDA $33,X".to_string(), 0x8004));
    assert_eq!(d.disassemble_instruction(&emu.bus, 0x8004), ("LDA ($89),Y".to_string(), 0x8006));
    assert_eq!(d.disassemble_instruction(&emu.bus, 0x8006), ("NOP".to_string(), 0x8007));
    assert_eq!(d.disassemble_instruction(&emu.bus, 0x8007), ("BEQ $8007".to_string(), 0x8009));
    assert_eq!(d.disassemble_instruction(&emu.bus, 0x8009), ("ASL".to_string(), 0x800A));
}

#[test]
fn pushes_stay_in_page_one() {
    let mut bus = Bus::new();
    let mut cpu = Cpu::new();
    cpu.registers.sp = 0x01;
    for v in 0..257u16 {
        cpu.stack_push(&mut bus, v as u8);
    }
    assert_eq!(cpu.registers.sp, 0x00);
    assert_eq!(bus.cpu_read(0x0101), 0x00);
    assert_eq!(bus.cpu_read(0x0100), 0x01);
    assert_eq!(bus.cpu_read(0x0200), 0x00);
    assert_eq!(cpu.stack_pop(&mut bus), 0x00);
    assert_eq!(cpu.registers.sp, 0x01);
}
