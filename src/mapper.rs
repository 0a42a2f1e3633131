//! Cartridges: the iNES file format and the mappers.
pub mod mapper000;
pub mod mapper001;
pub mod mapper003;
pub mod view;

use vstd::prelude::*;
use crate::NesError;
use crate::mapper::mapper000::NromMapper;
use crate::mapper::mapper001::Mapper001;
use crate::mapper::mapper003::Mapper003;
use crate::mapper::view::{MapperView, CHR_BANK_SIZE, PRG_RAM_SIZE, MIRROR_FOUR_SCREEN};

verus! {

/// Size of the iNES header.
pub const HEADER_SIZE: usize = 16;
/// Size of the optional trainer that follows the header.
pub const TRAINER_SIZE: usize = 512;
/// One unit of PRG ROM in the header.
pub const PRG_ROM_BANK_SIZE: usize = 0x4000;

/// The fields of an iNES header.
#[derive(Debug, Clone, Copy, PartialEq, Eq, Structural)]
pub struct RomHeader {
    /// Bytes of PRG ROM.
    pub prg_rom_size: usize,
    /// Bytes of CHR ROM; 0 means the cartridge has CHR RAM.
    pub chr_rom_size: usize,
    pub mapper_number: u8,
    /// 0 horizontal, 1 vertical, 4 four-screen.
    pub mirroring_type: u8,
    pub battery_backed_ram: bool,
    pub trainer: bool,
    pub nes2_0: bool,
}

/// The three vectors at the end of PRG ROM.
#[derive(Debug, Clone, Copy, PartialEq, Eq, Structural)]
pub struct InterruptVectors {
    pub nmi_vector: u16,
    pub reset_vector: u16,
    pub irq_vector: u16,
}

/// The header that the first 16 bytes of `rom` describe.
pub open spec fn header_of(rom: Seq<u8>) -> RomHeader {
    RomHeader {
        prg_rom_size: (rom[4] as int * PRG_ROM_BANK_SIZE as int) as usize,
        chr_rom_size: (rom[5] as int * CHR_BANK_SIZE as int) as usize,
        mapper_number: (rom[6] >> 4u8) | (rom[7] & 0xF0),
        mirroring_type: if rom[6] & 0x08 != 0 {
            MIRROR_FOUR_SCREEN
        } else {
            rom[6] & 0x01
        },
        battery_backed_ram: rom[6] & 0x02 != 0,
        trainer: rom[6] & 0x04 != 0,
        nes2_0: rom[7] & 0x0C == 0x08,
    }
}

/// Where PRG ROM starts: after the header and the trainer, if any.
pub open spec fn prg_start(h: RomHeader) -> int {
    HEADER_SIZE as int + if h.trainer {
        TRAINER_SIZE as int
    } else {
        0
    }
}

/// The length a file needs to hold everything its header announces.
pub open spec fn needed_len(h: RomHeader) -> int {
    prg_start(h) + h.prg_rom_size + h.chr_rom_size
}

/// An iNES file: the magic bytes, some PRG ROM, and all the data the header announces.
pub open spec fn rom_well_formed(rom: Seq<u8>) -> bool {
    &&& rom.len() >= HEADER_SIZE
    &&& rom[0] == 0x4E && rom[1] == 0x45 && rom[2] == 0x53 && rom[3] == 0x1A
    &&& rom[4] > 0
    &&& rom.len() >= needed_len(header_of(rom))
}

pub open spec fn mapper_supported(id: u8) -> bool {
    id == 0 || id == 1 || id == 3
}

pub open spec fn prg_of(rom: Seq<u8>) -> Seq<u8> {
    let h = header_of(rom);
    rom.subrange(prg_start(h), prg_start(h) + h.prg_rom_size)
}

pub open spec fn chr_of(rom: Seq<u8>) -> Seq<u8> {
    let h = header_of(rom);
    rom.subrange(prg_start(h) + h.prg_rom_size, needed_len(h))
}

/// The little-endian word at `s[i]`, `s[i + 1]`.
pub open spec fn le_word(s: Seq<u8>, i: int) -> u16 {
    (s[i + 1] as u16 * 256 + s[i] as u16) as u16
}

/// Reads the header fields only. The magic bytes and the file length are
/// checked by `create_mapper`, which reports `MalformedRom`.
pub fn parse_rom_header(rom_data: &[u8]) -> (r: RomHeader)
    requires
        rom_data@.len() >= HEADER_SIZE,
    ensures
        r == header_of(rom_data@),
{
    let f6 = rom_data[6];
    let f7 = rom_data[7];
    RomHeader {
        prg_rom_size: rom_data[4] as usize * PRG_ROM_BANK_SIZE,
        chr_rom_size: rom_data[5] as usize * CHR_BANK_SIZE,
        mapper_number: (f6 >> 4u8) | (f7 & 0xF0),
        mirroring_type: if f6 & 0x08 != 0 {
            MIRROR_FOUR_SCREEN
        } else {
            f6 & 0x01
        },
        battery_backed_ram: f6 & 0x02 != 0,
        trainer: f6 & 0x04 != 0,
        nes2_0: f7 & 0x0C == 0x08,
    }
}

/// A copy of `s[start..end]`.
fn copy_range(s: &[u8], start: usize, end: usize) -> (r: Vec<u8>)
    requires
        start <= end <= s@.len(),
    ensures
        r@ == s@.subrange(start as int, end as int),
{
    let mut r: Vec<u8> = Vec::new();
    let mut i = start;
    while i < end
        invariant
            start <= i <= end <= s@.len(),
            r@ == s@.subrange(start as int, i as int),
        decreases end - i,
    {
        r.push(s[i]);
        i = i + 1;
    }
    r
}

/// Cuts PRG ROM and CHR ROM out of an iNES file. Where the header
/// announces CHR RAM (no CHR banks) the CHR part is 8 KiB of zeros.
pub fn parse_prg_and_chr_rom_data(rom_data: &[u8]) -> (r: (Vec<u8>, Vec<u8>))
    requires
        rom_data@.len() >= HEADER_SIZE,
        rom_data@.len() >= needed_len(header_of(rom_data@)),
    ensures
        r.0@ == prg_of(rom_data@),
        header_of(rom_data@).chr_rom_size != 0 ==> r.1@ == chr_of(rom_data@),
        header_of(rom_data@).chr_rom_size == 0 ==> r.1@ == Seq::new(
            CHR_BANK_SIZE as nat,
            |i: int| 0u8,
        ),
{
    let h = parse_rom_header(rom_data);
    let start = if h.trainer {
        HEADER_SIZE + TRAINER_SIZE
    } else {
        HEADER_SIZE
    };
    let prg = copy_range(rom_data, start, start + h.prg_rom_size);
    let chr = if h.chr_rom_size == 0 {
        crate::bus::cpu_ram::zeroed(CHR_BANK_SIZE)
    } else {
        copy_range(rom_data, start + h.prg_rom_size, start + h.prg_rom_size + h.chr_rom_size)
    };
    (prg, chr)
}

/// Reads the NMI, RESET and IRQ vectors from the last six bytes of PRG ROM.
pub fn parse_interrupt_vectors(prg_rom: &Vec<u8>) -> (r: InterruptVectors)
    requires
        prg_rom@.len() >= 6,
    ensures
        r.nmi_vector == le_word(prg_rom@, prg_rom@.len() - 6),
        r.reset_vector == le_word(prg_rom@, prg_rom@.len() - 4),
        r.irq_vector == le_word(prg_rom@, prg_rom@.len() - 2),
{
    let n = prg_rom.len();
    InterruptVectors {
        nmi_vector: prg_rom[n - 5] as u16 * 256 + prg_rom[n - 6] as u16,
        reset_vector: prg_rom[n - 3] as u16 * 256 + prg_rom[n - 4] as u16,
        irq_vector: prg_rom[n - 1] as u16 * 256 + prg_rom[n - 2] as u16,
    }
}

/// The cartridge in the slot, one variant per supported mapper.
pub enum Mapper {
    Nrom(NromMapper),
    Mmc1(Mapper001),
    Cnrom(Mapper003),
}

impl View for Mapper {
    type V = MapperView;

    open spec fn view(&self) -> MapperView {
        match self {
            Mapper::Nrom(m) => m@,
            Mapper::Mmc1(m) => m@,
            Mapper::Cnrom(m) => m@,
        }
    }
}

/// What `create_mapper` makes of a well-formed file with a supported mapper.
pub open spec fn mapper_view_of(rom: Seq<u8>) -> MapperView {
    let h = header_of(rom);
    MapperView {
        id: h.mapper_number,
        prg_rom: prg_of(rom),
        prg_ram: Seq::new(PRG_RAM_SIZE as nat, |i: int| 0u8),
        chr: if h.chr_rom_size == 0 {
            Seq::new(CHR_BANK_SIZE as nat, |i: int| 0u8)
        } else {
            chr_of(rom)
        },
        chr_writable: h.chr_rom_size == 0,
        mirror_mode: h.mirroring_type,
        chr_bank: 0,
        shift: 0x10,
        control: 0x0C,
        chr_bank1: 0,
        prg_bank: 0,
    }
}

/// Builds the cartridge that an iNES file describes.
pub fn create_mapper(rom_data: &[u8]) -> (r: Result<Mapper, NesError>)
    ensures
        !rom_well_formed(rom_data@) <==> r == Err::<Mapper, NesError>(NesError::MalformedRom),
        rom_well_formed(rom_data@) && !mapper_supported(header_of(rom_data@).mapper_number) <==> r
            == Err::<Mapper, NesError>(
            NesError::UnsupportedMapper(header_of(rom_data@).mapper_number),
        ),
        r.is_ok() <==> rom_well_formed(rom_data@) && mapper_supported(
            header_of(rom_data@).mapper_number,
        ),
        r matches Ok(m) ==> m@ == mapper_view_of(rom_data@) && m@.wf(),
{
    if rom_data.len() < HEADER_SIZE {
        return Err(NesError::MalformedRom);
    }
    if rom_data[0] != 0x4E || rom_data[1] != 0x45 || rom_data[2] != 0x53 || rom_data[3] != 0x1A
        || rom_data[4] == 0 {
        return Err(NesError::MalformedRom);
    }
    let h = parse_rom_header(rom_data);
    let start = if h.trainer {
        HEADER_SIZE + TRAINER_SIZE
    } else {
        HEADER_SIZE
    };
    if rom_data.len() < start + h.prg_rom_size + h.chr_rom_size {
        return Err(NesError::MalformedRom);
    }
    if h.mapper_number != 0 && h.mapper_number != 1 && h.mapper_number != 3 {
        return Err(NesError::UnsupportedMapper(h.mapper_number));
    }
    let (prg_rom, chr_data) = parse_prg_and_chr_rom_data(rom_data);
    // a cartridge without CHR ROM gets writable CHR RAM from the mapper
    let chr_rom = if h.chr_rom_size == 0 {
        Vec::new()
    } else {
        chr_data
    };
    if h.mapper_number == 0 {
        Ok(Mapper::Nrom(NromMapper::new(prg_rom, chr_rom, h.mirroring_type)))
    } else if h.mapper_number == 1 {
        Ok(Mapper::Mmc1(Mapper001::new(prg_rom, chr_rom, h.mirroring_type)))
    } else {
        Ok(Mapper::Cnrom(Mapper003::new(prg_rom, chr_rom, h.mirroring_type)))
    }
}

impl Mapper {
    pub fn read_prg_rom(&self, addr: u16) -> (r: u8)
        requires
            self@.wf(),
        ensures
            r == self@.prg_rom_byte(addr),
    {
        match self {
            Mapper::Nrom(m) => m.read_prg_rom(addr),
            Mapper::Mmc1(m) => m.read_prg_rom(addr),
            Mapper::Cnrom(m) => m.read_prg_rom(addr),
        }
    }

    pub fn read_prg_ram(&self, addr: u16) -> (r: u8)
        requires
            self@.wf(),
        ensures
            r == self@.prg_ram_byte(addr),
    {
        match self {
            Mapper::Nrom(m) => m.read_prg_ram(addr),
            Mapper::Mmc1(m) => m.read_prg_ram(addr),
            Mapper::Cnrom(m) => m.read_prg_ram(addr),
        }
    }

    pub fn write_prg_rom(&mut self, addr: u16, data: u8)
        requires
            old(self)@.wf(),
        ensures
            final(self)@ == old(self)@.after_prg_rom_write(addr, data),
    {
        match self {
            Mapper::Nrom(m) => m.write_prg_rom(addr, data),
            Mapper::Mmc1(m) => m.write_prg_rom(addr, data),
            Mapper::Cnrom(m) => m.write_prg_rom(addr, data),
        }
    }

    pub fn write_prg_ram(&mut self, addr: u16, data: u8)
        requires
            old(self)@.wf(),
        ensures
            final(self)@ == old(self)@.after_prg_ram_write(addr, data),
    {
        match self {
            Mapper::Nrom(m) => m.write_prg_ram(addr, data),
            Mapper::Mmc1(m) => m.write_prg_ram(addr, data),
            Mapper::Cnrom(m) => m.write_prg_ram(addr, data),
        }
    }

    pub fn read_chr_rom(&self, addr: u16) -> (r: u8)
        requires
            self@.wf(),
        ensures
            r == self@.chr_byte(addr),
    {
        match self {
            Mapper::Nrom(m) => m.read_chr_rom(addr),
            Mapper::Mmc1(m) => m.read_chr_rom(addr),
            Mapper::Cnrom(m) => m.read_chr_rom(addr),
        }
    }

    pub fn write_chr_rom(&mut self, addr: u16, data: u8)
        requires
            old(self)@.wf(),
        ensures
            final(self)@ == old(self)@.after_chr_write(addr, data),
    {
        match self {
            Mapper::Nrom(m) => m.write_chr_rom(addr, data),
            Mapper::Mmc1(m) => m.write_chr_rom(addr, data),
            Mapper::Cnrom(m) => m.write_chr_rom(addr, data),
        }
    }

    pub fn ppu_mirror_mode(&self) -> (r: u8)
        ensures
            r == self@.mirroring(),
    {
        match self {
            Mapper::Nrom(m) => m.ppu_mirror_mode(),
            Mapper::Mmc1(m) => m.ppu_mirror_mode(),
            Mapper::Cnrom(m) => m.ppu_mirror_mode(),
        }
    }

    pub fn reset(&mut self)
        requires
            old(self)@.wf(),
        ensures
            final(self)@ == old(self)@.after_reset(),
            final(self)@.wf(),
    {
        match self {
            Mapper::Nrom(m) => m.reset(),
            Mapper::Mmc1(m) => m.reset(),
            Mapper::Cnrom(m) => m.reset(),
        }
    }
}

} // verus!
