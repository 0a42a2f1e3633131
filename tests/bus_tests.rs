use fc_emulator_rs::bus::apu_io_registers::{buttons_to_word, Button};
use fc_emulator_rs::bus::bus::{mirrored_nametable_addr, Bus, RWMessage, RWType};
use fc_emulator_rs::bus::cpu_ram::CpuRam;
use fc_emulator_rs::bus::nametable::Nametable;
use fc_emulator_rs::bus::oam::Oam;
use fc_emulator_rs::bus::palettes::{palette_slot, Palettes};
use fc_emulator_rs::bus::registers::Registers;
use fc_emulator_rs::bus::vram::Vram;

fn set_vram_addr(bus: &mut Bus, addr: u16) {
    bus.cpu_write(0x2006, (addr >> 8) as u8);
    bus.cpu_write(0x2006, (addr & 0xFF) as u8);
}

#[test]
fn ram_mirror_scenario() {
    let mut bus = Bus::new();
    bus.cpu_write(0x0000, 0xAB);
    assert_eq!(bus.cpu_read(0x0800), 0xAB);
    assert_eq!(bus.cpu_read(0x1000), 0xAB);
    assert_eq!(bus.cpu_read(0x1800), 0xAB);
}

#[test]
fn ram_mirror_from_a_high_mirror() {
    let mut bus = Bus::new();
    bus.cpu_write(0x1ABC, 0x5D);
    for base in [0x0000u16, 0x0800, 0x1000, 0x1800] {
        assert_eq!(bus.cpu_read(0x02BC | base), 0x5D);
    }
}

#[test]
fn ppu_auto_increment_scenario() {
    let mut bus = Bus::new();
    bus.cpu_write(0x2000, 0x00);
    set_vram_addr(&mut bus, 0x2000);
    for v in [0x11u8, 0x22, 0x33, 0x44] {
        bus.cpu_write(0x2007, v);
    }
    set_vram_addr(&mut bus, 0x2000);
    let stale = bus.cpu_read(0x2007);
    assert_eq!(stale, 0x00);
    assert_eq!(bus.cpu_read(0x2007), 0x11);
    assert_eq!(bus.cpu_read(0x2007), 0x22);
    assert_eq!(bus.cpu_read(0x2007), 0x33);
    assert_eq!(bus.cpu_read(0x2007), 0x44);
}

#[test]
fn vram_increment_of_32() {
    let mut bus = Bus::new();
    bus.cpu_write(0x2000, 0x04);
    set_vram_addr(&mut bus, 0x2000);
    bus.cpu_write(0x2007, 0x01);
    assert_eq!(bus.vram_addr, 0x2020);
}

#[test]
fn register_mirror_every_eight_bytes() {
    let mut bus = Bus::new();
    bus.cpu_write(0x3FF8, 0x90);
    assert_eq!(bus.registers.ppuctrl, 0x90);
    bus.registers.ppustatus = 0xE0;
    assert_eq!(bus.cpu_read_debug(0x3FFA), bus.cpu_read_debug(0x2002));
    assert_eq!(bus.cpu_read(0x3FFA), 0xE0);
    assert_eq!(bus.registers.ppustatus, 0x60);
}

#[test]
fn reading_status_clears_vblank_and_toggle() {
    let mut bus = Bus::new();
    bus.registers.ppustatus = 0x80;
    bus.cpu_write(0x2006, 0x21);
    assert!(bus.write_toggle);
    assert_eq!(bus.cpu_read(0x2002), 0x80);
    assert!(!bus.write_toggle);
    assert_eq!(bus.cpu_read(0x2002), 0x00);
}

#[test]
fn racing_status_read_returns_clear_and_suppresses() {
    let mut bus = Bus::new();
    bus.registers.ppustatus = 0x80;
    bus.ppustatus_racing = true;
    assert_eq!(bus.cpu_read(0x2002), 0x00);
    assert!(bus.vblank_suppressed);
}

#[test]
fn palette_alias_both_ways() {
    let mut bus = Bus::new();
    set_vram_addr(&mut bus, 0x3F10);
    bus.cpu_write(0x2007, 0x2A);
    assert_eq!(bus.ppu_read(0x3F00), 0x2A);
    bus.ppu_write(0x3F04, 0x15);
    assert_eq!(bus.ppu_read(0x3F14), 0x15);
    set_vram_addr(&mut bus, 0x3F1C);
    assert_eq!(bus.cpu_read(0x2007), 0x00);
    bus.ppu_write(0x3F0C, 0x07);
    set_vram_addr(&mut bus, 0x3F1C);
    assert_eq!(bus.cpu_read(0x2007), 0x07);
}

#[test]
fn palette_read_is_immediate_and_refills_from_nametable() {
    let mut bus = Bus::new();
    bus.ppu_write(0x2F05, 0x66);
    bus.ppu_write(0x3F05, 0x21);
    set_vram_addr(&mut bus, 0x3F05);
    assert_eq!(bus.cpu_read(0x2007), 0x21);
    assert_eq!(bus.vram_buffer, 0x66);
}

#[test]
fn oam_data_port_and_address() {
    let mut bus = Bus::new();
    bus.cpu_write(0x2003, 0xFF);
    bus.cpu_write(0x2004, 0x12);
    assert_eq!(bus.oam.oam_addr, 0x00);
    bus.cpu_write(0x2003, 0xFF);
    assert_eq!(bus.cpu_read(0x2004), 0x12);
    assert_eq!(bus.oam.oam_addr, 0x00);
}

#[test]
fn oam_dma_copies_a_page_from_the_oam_address() {
    let mut bus = Bus::new();
    for i in 0..256u16 {
        bus.cpu_write(0x0200 + i, i as u8);
    }
    bus.cpu_write(0x2003, 0x10);
    bus.cpu_write(0x4014, 0x02);
    assert_eq!(bus.oam.read(0x10), 0x00);
    assert_eq!(bus.oam.read(0x0F), 0xFF);
    assert_eq!(bus.oam.read(0x20), 0x10);
    assert_eq!(bus.registers.oamdma, 0x02);
}

#[test]
fn controller_shift_scenario() {
    let mut bus = Bus::new();
    bus.refresh_input(&vec![Button::A, Button::Start]);
    bus.cpu_write(0x4016, 1);
    bus.cpu_write(0x4016, 0);
    let bits: Vec<u8> = (0..8).map(|_| bus.cpu_read(0x4016) & 1).collect();
    assert_eq!(bits, vec![1, 0, 0, 1, 0, 0, 0, 0]);
    assert_eq!(bus.cpu_read(0x4016), 0);
}

#[test]
fn controller_reports_a_while_strobe_is_high() {
    let mut bus = Bus::new();
    bus.refresh_input(&vec![Button::A]);
    bus.cpu_write(0x4016, 1);
    assert_eq!(bus.cpu_read(0x4016), 1);
    assert_eq!(bus.cpu_read(0x4016), 1);
}

#[test]
fn button_word_bits() {
    assert_eq!(buttons_to_word(&vec![]), 0);
    assert_eq!(buttons_to_word(&vec![Button::Right, Button::B]), 0x82);
    assert_eq!(buttons_to_word(&vec![Button::Up, Button::Up]), 0x10);
}

#[test]
fn expansion_area_reads_zero_and_drops_writes() {
    let mut bus = Bus::new();
    bus.cpu_write(0x5000, 0x12);
    assert_eq!(bus.cpu_read(0x5000), 0);
}

#[test]
fn horizontal_and_vertical_mirroring() {
    assert_eq!(mirrored_nametable_addr(0, 0x2400), 0x2000);
    assert_eq!(mirrored_nametable_addr(0, 0x2C05), 0x2405);
    assert_eq!(mirrored_nametable_addr(1, 0x2800), 0x2000);
    assert_eq!(mirrored_nametable_addr(1, 0x2C05), 0x2405);
    assert_eq!(mirrored_nametable_addr(2, 0x2C05), 0x2005);
    assert_eq!(mirrored_nametable_addr(3, 0x2005), 0x2405);
    assert_eq!(mirrored_nametable_addr(4, 0x2C05), 0x2C05);
    assert_eq!(mirrored_nametable_addr(1, 0x3005), 0x2005);
}

#[test]
fn bus_nametable_uses_cartridge_mirroring() {
    let mut bus = Bus::new();
    bus.ppu_write(0x2001, 0x33);
    assert_eq!(bus.ppu_read(0x2801), 0x33);
    assert_eq!(bus.ppu_read(0x2401), 0x00);
}

#[test]
fn reset_clears_memories_but_keeps_buttons() {
    let mut bus = Bus::new();
    bus.cpu_write(0x0010, 0x99);
    bus.cpu_write(0x2000, 0x80);
    bus.interrupt_status = 0x07;
    bus.refresh_input(&vec![Button::B]);
    bus.reset();
    assert_eq!(bus.cpu_read(0x0010), 0);
    assert_eq!(bus.registers.ppuctrl, 0);
    assert_eq!(bus.interrupt_status, 0);
    assert_eq!(bus.apu_io_registers.input_reg, 0x02);
}

#[test]
fn scroll_writes_fill_the_temporary_address() {
    let mut bus = Bus::new();
    bus.cpu_write(0x2005, 0x7D);
    assert_eq!(bus.fine_x, 0x05);
    assert_eq!(bus.temp_addr & 0x1F, 0x0F);
    bus.cpu_write(0x2005, 0x5E);
    assert_eq!(bus.temp_addr, 0x616F);
    assert!(!bus.write_toggle);
}

#[test]
fn component_memories() {
    let mut ram = CpuRam::new();
    ram.write(0x1801, 7);
    assert_eq!(ram.read(0x0001), 7);
    let mut nt = Nametable::new();
    nt.write(0x2FFF, 3);
    assert_eq!(nt.read(0x3FFF - 0x1000), 3);
    nt.reset();
    assert_eq!(nt.read(0x2FFF), 0);
    let mut oam = Oam::new();
    oam.write(0x1FF, 9);
    assert_eq!(oam.read(0xFF), 9);
    let mut pal = Palettes::new();
    pal.write(0x3F18, 4);
    assert_eq!(pal.read(0x3F08), 4);
    assert_eq!(palette_slot(0x3F1C), 0x0C);
    assert_eq!(palette_slot(0x3F11), 0x11);
    let mut regs = Registers::new();
    regs.write(0x2002, 0xFF);
    assert_eq!(regs.read(0x200A), 0);
    regs.write(0x2001, 0x1E);
    assert_eq!(regs.read(0x3001), 0x1E);
    let mut vram = Vram::new();
    vram.write(0x2400, 1);
    vram.write(0x3F10, 2);
    assert_eq!(vram.read(0x2400), 1);
    assert_eq!(vram.read(0x3F00), 2);
}

#[test]
fn bus_requests_are_served() {
    let mut bus = Bus::new();
    let w = bus.handle(RWMessage { operate_type: RWType::Write, address: 0x0042, value: Some(9) });
    assert!(w.is_success);
    let r = bus.handle(RWMessage { operate_type: RWType::Read, address: 0x0842, value: None });
    assert_eq!(r.data, Some(9));
    let bad = bus.handle(RWMessage { operate_type: RWType::WriteReg, address: 0x2000, value: None });
    assert!(!bad.is_success);
    bus.handle(RWMessage { operate_type: RWType::WriteInerruptStatus, address: 0, value: Some(2) });
    let st = bus.handle(RWMessage { operate_type: RWType::ReadInerruptStatus, address: 0, value: None });
    assert_eq!(st.data, Some(2));
    assert_eq!(bus.interrupt_status, 2);
}

#[test]
fn ppudata_writes_land_from_power_on() {
    let mut bus = Bus::new();
    bus.cpu_write(0x2000, 0x00);
    set_vram_addr(&mut bus, 0x2000);
    for v in [0x11u8, 0x22, 0x33, 0x44] {
        bus.cpu_write(0x2007, v);
    }
    assert_eq!(bus.vram_addr, 0x2004);
    let got: Vec<u8> = (0x2000..0x2004u16).map(|a| bus.ppu_read(a)).collect();
    assert_eq!(got, vec![0x11, 0x22, 0x33, 0x44]);
}
