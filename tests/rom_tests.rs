// iNES parsing and the cartridge mappers.
use fc_emulator_rs::mapper::{
    create_mapper, parse_interrupt_vectors, parse_prg_and_chr_rom_data, parse_rom_header, Mapper,
};
use fc_emulator_rs::NesError;

fn ines(prg_banks: u8, chr_banks: u8, flags6: u8, flags7: u8) -> Vec<u8> {
    let mut rom = vec![0x4E, 0x45, 0x53, 0x1A, prg_banks, chr_banks, flags6, flags7];
    rom.extend_from_slice(&[0u8; 8]);
    rom.extend(std::iter::repeat(0xEAu8).take(prg_banks as usize * 0x4000));
    rom.extend(std::iter::repeat(0x11u8).take(chr_banks as usize * 0x2000));
    rom
}

#[test]
fn header_fields_are_parsed() {
    let rom = ines(2, 1, 0x31, 0x08);
    let h = parse_rom_header(&rom);
    assert_eq!(h.prg_rom_size, 0x8000);
    assert_eq!(h.chr_rom_size, 0x2000);
    assert_eq!(h.mapper_number, 3);
    assert_eq!(h.mirroring_type, 1);
    assert!(!h.battery_backed_ram);
    assert!(!h.trainer);
    assert!(h.nes2_0);
}

#[test]
fn four_screen_flag_wins_over_mirroring_bit() {
    let rom = ines(1, 1, 0x09, 0);
    assert_eq!(parse_rom_header(&rom).mirroring_type, 4);
}

#[test]
fn prg_and_chr_are_cut_out_after_a_trainer() {
    let mut rom = vec![0x4E, 0x45, 0x53, 0x1A, 1, 1, 0x04, 0];
    rom.extend_from_slice(&[0u8; 8]);
    rom.extend(std::iter::repeat(0x77u8).take(512));
    rom.extend(std::iter::repeat(0x01u8).take(0x4000));
    rom.extend(std::iter::repeat(0x02u8).take(0x2000));
    let (prg, chr) = parse_prg_and_chr_rom_data(&rom);
    assert_eq!(prg.len(), 0x4000);
    assert!(prg.iter().all(|&b| b == 0x01));
    assert_eq!(chr.len(), 0x2000);
    assert!(chr.iter().all(|&b| b == 0x02));
}

#[test]
fn chr_ram_cartridge_has_zero_chr_part() {
    let rom = ines(1, 0, 0, 0);
    let (_, chr) = parse_prg_and_chr_rom_data(&rom);
    assert_eq!(chr, vec![0u8; 0x2000]);
}

#[test]
fn interrupt_vectors_come_from_the_last_six_bytes() {
    let mut prg = vec![0u8; 16];
    prg[10..16].copy_from_slice(&[0x34, 0x12, 0x00, 0x80, 0xCD, 0xAB]);
    let v = parse_interrupt_vectors(&prg);
    assert_eq!(v.nmi_vector, 0x1234);
    assert_eq!(v.reset_vector, 0x8000);
    assert_eq!(v.irq_vector, 0xABCD);
}

#[test]
fn short_file_is_malformed() {
    assert!(matches!(create_mapper(&[0x4E, 0x45, 0x53]), Err(NesError::MalformedRom)));
}

#[test]
fn bad_magic_is_malformed() {
    let mut rom = ines(1, 1, 0, 0);
    rom[3] = 0x00;
    assert!(matches!(create_mapper(&rom), Err(NesError::MalformedRom)));
}

#[test]
fn truncated_file_is_malformed() {
    let mut rom = ines(1, 1, 0, 0);
    rom.truncate(rom.len() - 1);
    assert!(matches!(create_mapper(&rom), Err(NesError::MalformedRom)));
}

#[test]
fn unknown_mapper_is_unsupported() {
    let rom = ines(1, 1, 0x40, 0);
    assert!(matches!(create_mapper(&rom), Err(NesError::UnsupportedMapper(4))));
}

#[test]
fn nrom_mirrors_a_single_prg_bank() {
    let mut rom = ines(1, 1, 0, 0);
    rom[16] = 0xA9;
    let m = create_mapper(&rom).unwrap();
    assert!(matches!(m, Mapper::Nrom(_)));
    assert_eq!(m.read_prg_rom(0x8000), 0xA9);
    assert_eq!(m.read_prg_rom(0xC000), 0xA9);
}

#[test]
fn nrom_ignores_prg_writes_and_keeps_chr_rom() {
    let rom = ines(1, 1, 0, 0);
    let mut m = create_mapper(&rom).unwrap();
    m.write_prg_rom(0x8000, 0x55);
    assert_eq!(m.read_prg_rom(0x8000), 0xEA);
    m.write_chr_rom(0x0000, 0x99);
    assert_eq!(m.read_chr_rom(0x0000), 0x11);
}

#[test]
fn chr_ram_is_writable() {
    let rom = ines(1, 0, 0, 0);
    let mut m = create_mapper(&rom).unwrap();
    m.write_chr_rom(0x0123, 0x5A);
    assert_eq!(m.read_chr_rom(0x0123), 0x5A);
}

#[test]
fn prg_ram_reads_back_and_resets() {
    let rom = ines(1, 1, 0, 0);
    let mut m = create_mapper(&rom).unwrap();
    m.write_prg_ram(0x6010, 0x42);
    assert_eq!(m.read_prg_ram(0x6010), 0x42);
    m.reset();
    assert_eq!(m.read_prg_ram(0x6010), 0x00);
}

#[test]
fn cnrom_switches_chr_banks() {
    let mut rom = vec![0x4E, 0x45, 0x53, 0x1A, 2, 4, 0x30, 0];
    rom.extend_from_slice(&[0u8; 8]);
    rom.extend(std::iter::repeat(0xEAu8).take(0x8000));
    for bank in 0..4u8 {
        rom.extend(std::iter::repeat(bank + 1).take(0x2000));
    }
    let mut m = create_mapper(&rom).unwrap();
    assert!(matches!(m, Mapper::Cnrom(_)));
    assert_eq!(m.read_chr_rom(0x0010), 1);
    m.write_prg_rom(0x8000, 0x02);
    assert_eq!(m.read_chr_rom(0x0010), 3);
    m.write_prg_rom(0xFFFF, 0x07);
    assert_eq!(m.read_chr_rom(0x1FFF), 4);
    m.reset();
    assert_eq!(m.read_chr_rom(0x0010), 1);
}

#[test]
fn mapper_reports_its_mirroring() {
    let rom = ines(1, 1, 0x01, 0);
    assert_eq!(create_mapper(&rom).unwrap().ppu_mirror_mode(), 1);
}

fn mmc1_rom() -> Vec<u8> {
    let mut rom = vec![0x4E, 0x45, 0x53, 0x1A, 8, 2, 0x10, 0];
    rom.extend_from_slice(&[0u8; 8]);
    for bank in 0..8u8 {
        rom.extend(std::iter::repeat(bank).take(0x4000));
    }
    for bank in 0..4u8 {
        rom.extend(std::iter::repeat(0x40 + bank).take(0x1000));
    }
    rom
}

fn mmc1_load(m: &mut Mapper, addr: u16, value: u8) {
    for i in 0..5 {
        m.write_prg_rom(addr, (value >> i) & 1);
    }
}

#[test]
fn mmc1_powers_on_with_last_bank_fixed() {
    let m = create_mapper(&mmc1_rom()).unwrap();
    assert!(matches!(m, Mapper::Mmc1(_)));
    assert_eq!(m.read_prg_rom(0x8000), 0);
    assert_eq!(m.read_prg_rom(0xC000), 7);
}

#[test]
fn mmc1_serial_writes_switch_prg_banks() {
    let mut m = create_mapper(&mmc1_rom()).unwrap();
    mmc1_load(&mut m, 0xE000, 5);
    assert_eq!(m.read_prg_rom(0x8000), 5);
    assert_eq!(m.read_prg_rom(0xFFFF), 7);
    mmc1_load(&mut m, 0x8000, 0x08);
    mmc1_load(&mut m, 0xE000, 2);
    assert_eq!(m.read_prg_rom(0x8000), 0);
    assert_eq!(m.read_prg_rom(0xC000), 2);
    mmc1_load(&mut m, 0x8000, 0x00);
    mmc1_load(&mut m, 0xE000, 3);
    assert_eq!(m.read_prg_rom(0x8000), 2);
    assert_eq!(m.read_prg_rom(0xC000), 3);
}

#[test]
fn mmc1_chr_banks_and_mirroring() {
    let mut m = create_mapper(&mmc1_rom()).unwrap();
    mmc1_load(&mut m, 0x8000, 0x12);
    assert_eq!(m.ppu_mirror_mode(), 1);
    mmc1_load(&mut m, 0xA000, 3);
    mmc1_load(&mut m, 0xC000, 1);
    assert_eq!(m.read_chr_rom(0x0000), 0x43);
    assert_eq!(m.read_chr_rom(0x1000), 0x41);
    mmc1_load(&mut m, 0x8000, 0x03);
    assert_eq!(m.ppu_mirror_mode(), 0);
    assert_eq!(m.read_chr_rom(0x0000), 0x42);
    assert_eq!(m.read_chr_rom(0x1000), 0x43);
}

#[test]
fn mmc1_reset_bit_clears_the_shift_register() {
    let mut m = create_mapper(&mmc1_rom()).unwrap();
    m.write_prg_rom(0xE000, 1);
    m.write_prg_rom(0xE000, 1);
    m.write_prg_rom(0xE000, 0x80);
    mmc1_load(&mut m, 0xE000, 4);
    assert_eq!(m.read_prg_rom(0x8000), 4);
}
