use fc_emulator_rs::bus::bus::{Bus, NMI_LINE};
use fc_emulator_rs::emulator::Emulator;
use fc_emulator_rs::ppu::{evaluate_sprites, Ppu};
use fc_emulator_rs::utils::{ntsc_color, Frame, Palettes};

fn chr_ram_rom(code: &[u8], nmi: u16) -> Vec<u8> {
    let mut prg = vec![0xEAu8; 0x4000];
    prg[..code.len()].copy_from_slice(code);
    prg[0x3FFA] = (nmi & 0xFF) as u8;
    prg[0x3FFB] = (nmi >> 8) as u8;
    prg[0x3FFC] = 0x00;
    prg[0x3FFD] = 0x80;
    let mut rom = vec![0x4E, 0x45, 0x53, 0x1A, 1, 0, 0, 0];
    rom.extend_from_slice(&[0u8; 8]);
    rom.extend(prg);
    rom
}

#[test]
fn nmi_firing_scenario() {
    // LDA #$80; STA $2000; loop: JMP loop. NMI handler at $8100: INC $10; RTI.
    let mut code = vec![0xA9u8, 0x80, 0x8D, 0x00, 0x20, 0x4C, 0x05, 0x80];
    code.resize(0x100, 0xEA);
    code.extend_from_slice(&[0xE6, 0x10, 0x40]);
    let mut emu = Emulator::new();
    emu.load_rom(chr_ram_rom(&code, 0x8100)).unwrap();
    for _ in 0..29_781 {
        emu.cpu_clock().unwrap();
    }
    assert_eq!(emu.bus.cpu_read(0x0010), 1);
}

#[test]
fn no_nmi_when_disabled() {
    let code = [0x4Cu8, 0x00, 0x80];
    let mut emu = Emulator::new();
    emu.load_rom(chr_ram_rom(&code, 0x8100)).unwrap();
    for _ in 0..29_781 {
        emu.cpu_clock().unwrap();
    }
    assert_eq!(emu.bus.cpu_read(0x0010), 0);
    assert_eq!(emu.bus.interrupt_status & NMI_LINE, 0);
}

#[test]
fn vblank_flag_is_set_once_per_frame() {
    let mut bus = Bus::new();
    let mut ppu = Ppu::new();
    let mut rises = vec![];
    let mut prev = false;
    for n in 0..(262u32 * 341) {
        let (line, dot) = (ppu.scanline, ppu.dot);
        ppu.step(&mut bus);
        let now = bus.registers.ppustatus & 0x80 != 0;
        if now && !prev {
            rises.push((line, dot));
        }
        if now {
            assert!((241..=261).contains(&line), "set at {} {} (dot {})", line, dot, n);
        }
        prev = now;
    }
    assert_eq!(rises, vec![(241, 1)]);
    assert!(!prev);
    assert_eq!((ppu.scanline, ppu.dot), (0, 0));
    assert_eq!(ppu.cycles, 262 * 341);
}

#[test]
fn nmi_line_follows_vblank_and_enable() {
    let mut bus = Bus::new();
    let mut ppu = Ppu::new();
    bus.registers.ppuctrl = 0x80;
    while !(ppu.scanline == 241 && ppu.dot == 2) {
        ppu.step(&mut bus);
    }
    assert_ne!(bus.interrupt_status & NMI_LINE, 0);
    assert!(ppu.frame_ready);
    bus.cpu_read(0x2002);
    ppu.step(&mut bus);
    assert_eq!(bus.interrupt_status & NMI_LINE, 0);
}

#[test]
fn background_tile_is_drawn() {
    let mut emu = Emulator::new();
    emu.load_rom(chr_ram_rom(&[0x4C, 0x00, 0x80], 0x8000)).unwrap();
    let bus = &mut emu.bus;
    // tile 1, row 0: low plane all ones, so color 1
    bus.ppu_write(0x0010, 0xFF);
    bus.ppu_write(0x2000, 0x01);
    bus.ppu_write(0x3F00, 0x0F);
    bus.ppu_write(0x3F01, 0x16);
    bus.registers.ppumask = 0x0A;
    let mut ppu = Ppu::new();
    ppu.render_scanline(bus, 0);
    assert!(ppu.frame_color_index_cache[0..8].iter().all(|&c| c == 0x16));
    assert_eq!(ppu.frame_color_index_cache[8], 0x0F);
    assert_eq!(ppu.frame_color_index_cache[256], 0x00);
}

#[test]
fn left_column_mask_hides_background() {
    let mut emu = Emulator::new();
    emu.load_rom(chr_ram_rom(&[0x4C, 0x00, 0x80], 0x8000)).unwrap();
    let bus = &mut emu.bus;
    bus.ppu_write(0x0010, 0xFF);
    bus.ppu_write(0x2000, 0x01);
    bus.ppu_write(0x3F00, 0x0F);
    bus.ppu_write(0x3F01, 0x16);
    bus.registers.ppumask = 0x08;
    let mut ppu = Ppu::new();
    ppu.render_scanline(bus, 0);
    assert_eq!(ppu.frame_color_index_cache[0], 0x0F);
}

/// A cartridge with CHR RAM where tile 1 has opaque rows 0 and, if asked, 1.
fn sprite_setup(row_one: bool) -> Emulator {
    let mut emu = Emulator::new();
    emu.load_rom(chr_ram_rom(&[0x4C, 0x00, 0x80], 0x8000)).unwrap();
    let bus = &mut emu.bus;
    bus.ppu_write(0x0010, 0xFF);
    if row_one {
        bus.ppu_write(0x0011, 0xFF);
    }
    bus.ppu_write(0x2000, 0x01);
    bus.ppu_write(0x3F01, 0x16);
    bus.ppu_write(0x3F11, 0x27);
    bus.registers.ppumask = 0x1E;
    for i in 0..64u16 {
        bus.oam.write(4 * i, 0xF0);
    }
    emu
}

#[test]
fn sprite_overflow_without_hit() {
    let mut emu = sprite_setup(false);
    let bus = &mut emu.bus;
    for i in 0..9u16 {
        bus.oam.write(4 * i, 0);
        bus.oam.write(4 * i + 1, 1);
        bus.oam.write(4 * i + 2, 0);
        bus.oam.write(4 * i + 3, 0);
    }
    let eval = evaluate_sprites(bus, 1);
    assert_eq!(eval.sprites, vec![0, 1, 2, 3, 4, 5, 6, 7]);
    assert_eq!(eval.sprite_count, 9);
    assert!(eval.overflow);
    let mut ppu = Ppu::new();
    ppu.render_scanline(bus, 1);
    assert_eq!(bus.registers.ppustatus & 0x60, 0x20);
    assert_eq!(ppu.frame_color_index_cache[256], 0x27);
}

#[test]
fn sprite_zero_hit_over_opaque_background() {
    let mut emu = sprite_setup(true);
    let bus = &mut emu.bus;
    bus.oam.write(0, 0);
    bus.oam.write(1, 1);
    bus.oam.write(2, 0);
    bus.oam.write(3, 0);
    let mut ppu = Ppu::new();
    ppu.render_scanline(bus, 1);
    assert_eq!(bus.registers.ppustatus & 0x60, 0x40);
    assert_eq!(ppu.frame_color_index_cache[256], 0x27);
}

#[test]
fn sprite_behind_background_is_hidden() {
    let mut emu = sprite_setup(true);
    let bus = &mut emu.bus;
    bus.oam.write(0, 0);
    bus.oam.write(1, 1);
    bus.oam.write(2, 0x20);
    bus.oam.write(3, 0);
    let mut ppu = Ppu::new();
    ppu.render_scanline(bus, 1);
    assert_eq!(ppu.frame_color_index_cache[256], 0x16);
    bus.oam.write(2, 0x00);
    ppu.render_scanline(bus, 1);
    assert_eq!(ppu.frame_color_index_cache[256], 0x27);
}

#[test]
fn sprite_horizontal_flip() {
    let mut emu = sprite_setup(false);
    let bus = &mut emu.bus;
    bus.registers.ppumask = 0x16;
    bus.ppu_write(0x0010, 0x80);
    bus.oam.write(0, 0);
    bus.oam.write(1, 1);
    bus.oam.write(2, 0x40);
    bus.oam.write(3, 16);
    let mut ppu = Ppu::new();
    ppu.render_scanline(bus, 1);
    assert_eq!(ppu.frame_color_index_cache[256 + 23], 0x27);
    assert_ne!(ppu.frame_color_index_cache[256 + 16], 0x27);
}

#[test]
fn frame_runs_to_vblank() {
    let mut emu = Emulator::new();
    emu.load_rom(chr_ram_rom(&[0x4C, 0x00, 0x80], 0x8000)).unwrap();
    emu.frame().unwrap();
    assert!(emu.ppu.frame_ready);
    assert_eq!(emu.ppu.scanline, 241);
    assert!((2..=4).contains(&emu.ppu.dot));
    assert_eq!(emu.frame_buffer().len(), 256 * 240);
    emu.frame().unwrap();
    assert_eq!(emu.ppu.scanline, 241);
    assert!((2..=4).contains(&emu.ppu.dot));
}

#[test]
fn cpu_step_keeps_three_dots_per_cycle() {
    let code = [0xA9u8, 0x10, 0x85, 0x20, 0x4C, 0x00, 0x80];
    let mut emu = Emulator::new();
    emu.load_rom(chr_ram_rom(&code, 0x8000)).unwrap();
    let dots0 = emu.ppu.cycles;
    let cyc0 = emu.cpu.cpu_cycle;
    for _ in 0..10 {
        emu.cpu_step().unwrap();
        assert_eq!(emu.cpu.cpu_cycle_wait, 0);
    }
    assert_eq!(emu.ppu.cycles - dots0, 3 * (emu.cpu.cpu_cycle - cyc0));
    let regs = emu.current_registers();
    assert_eq!(regs.cycles, emu.cpu.cpu_cycle);
    assert_eq!(regs.pc, emu.cpu.registers.pc);
    assert_eq!(regs.disassembly, emu.disassemble_current());
    assert!(regs.disassembly.starts_with(&format!("{:04X}", regs.pc)));
    let st = emu.current_ppu_state();
    assert_eq!(st.cycles, emu.ppu.cycles);
}

#[test]
fn hard_reset_clears_memory_and_reloads_the_vector() {
    let code = [0xA9u8, 0x10, 0x85, 0x20, 0x4C, 0x00, 0x80];
    let mut emu = Emulator::new();
    emu.load_rom(chr_ram_rom(&code, 0x8000)).unwrap();
    for _ in 0..5 {
        emu.cpu_step().unwrap();
    }
    assert_eq!(emu.bus.cpu_read(0x0020), 0x10);
    emu.hard_reset();
    assert_eq!(emu.bus.cpu_read(0x0020), 0x00);
    assert_eq!(emu.cpu.registers.pc, 0x8000);
    assert_eq!((emu.cpu.registers.sp, emu.cpu.registers.p, emu.cpu.cpu_cycle), (0xFD, 0x24, 7));
    assert_eq!((emu.ppu.scanline, emu.ppu.dot, emu.ppu.cycles), (0, 0, 0));
}

#[test]
fn illegal_opcode_stops_frame_with_its_location() {
    let mut emu = Emulator::new();
    emu.load_rom(chr_ram_rom(&[0xEA, 0x02], 0x8000)).unwrap();
    let r = emu.frame();
    assert!(matches!(r, Err(fc_emulator_rs::NesError::IllegalOpcode { pc: 0x8001, opcode: 0x02, .. })));
}

#[test]
fn load_errors_leave_the_emulator_unchanged() {
    let mut emu = Emulator::new();
    let bad = vec![0u8; 10];
    assert!(emu.load_rom(bad).is_err());
    assert_eq!(emu.cpu.cpu_cycle, 0);
}

#[test]
fn palette_table_and_frame() {
    let p = Palettes::new();
    assert_eq!(p.colors.len(), 64);
    assert_eq!(p.colors[0x00], (84, 84, 84, 255));
    assert_eq!(p.colors[0x30], (236, 238, 236, 255));
    assert_eq!(ntsc_color(0x56), ntsc_color(0x16));
    assert_eq!(ntsc_color(0x16), (152, 34, 32));
    let f = Frame::new();
    assert_eq!((f.width, f.height, f.data.len()), (256, 240, 256 * 240));
}
