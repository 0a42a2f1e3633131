use vstd::prelude::*;
use crate::bus::cpu_ram::zeroed;
use crate::mapper::view::{wrapped_byte, MapperView, CHR_BANK_SIZE, PRG_RAM_SIZE};

verus! {

/// Mapper 3 (CNROM): fixed program ROM and a switchable 8 KiB CHR bank, selected by `data & 3` on any write to `$8000-$FFFF`.
pub struct Mapper003 {
    pub prg_rom: Vec<u8>,
    pub prg_ram: Vec<u8>,
    pub chr_rom: Vec<u8>,
    pub chr_is_ram: bool,
    pub mirror_mode: u8,
    pub chr_rom_bank: u8,
}

impl View for Mapper003 {
    type V = MapperView;

    open spec fn view(&self) -> MapperView {
        MapperView {
            id: 3,
            prg_rom: self.prg_rom@,
            prg_ram: self.prg_ram@,
            chr: self.chr_rom@,
            chr_writable: self.chr_is_ram,
            mirror_mode: self.mirror_mode,
            chr_bank: self.chr_rom_bank,
            shift: 0x10,
            control: 0x0C,
            chr_bank1: 0,
            prg_bank: 0,
        }
    }
}

impl Mapper003 {
    /// A cartridge with the given PRG ROM and CHR ROM; an empty CHR ROM
    /// stands for 8 KiB of CHR RAM.
    pub fn new(prg_rom: Vec<u8>, chr_rom: Vec<u8>, mirror_mode: u8) -> (r: Self)
        requires
            prg_rom@.len() > 0,
        ensures
            r@.wf(),
            r@.prg_rom == prg_rom@,
            r@.prg_ram == Seq::new(PRG_RAM_SIZE as nat, |i: int| 0u8),
            chr_rom@.len() > 0 ==> r@.chr == chr_rom@ && !r@.chr_writable,
            chr_rom@.len() == 0 ==> r@.chr == Seq::new(CHR_BANK_SIZE as nat, |i: int| 0u8)
                && r@.chr_writable,
            r@.mirror_mode == mirror_mode,
            r@.chr_bank == 0,
            r@.shift == 0x10 && r@.control == 0x0C && r@.chr_bank1 == 0 && r@.prg_bank == 0,
    {
        let chr_is_ram = chr_rom.len() == 0;
        let chr = if chr_is_ram {
            zeroed(CHR_BANK_SIZE)
        } else {
            chr_rom
        };
        Mapper003 { prg_rom, prg_ram: zeroed(PRG_RAM_SIZE), chr_rom: chr, chr_is_ram, mirror_mode, chr_rom_bank: 0 }
    }

    pub fn read_prg_rom(&self, addr: u16) -> (r: u8)
        requires
            self@.wf(),
        ensures
            r == self@.prg_rom_byte(addr),
    {
        wrapped_byte(&self.prg_rom, addr)
    }

    pub fn read_prg_ram(&self, addr: u16) -> (r: u8)
        requires
            self@.wf(),
        ensures
            r == self@.prg_ram_byte(addr),
    {
        wrapped_byte(&self.prg_ram, addr)
    }

    /// Selects CHR bank `data & 3`.
    pub fn write_prg_rom(&mut self, addr: u16, data: u8)
        requires
            old(self)@.wf(),
        ensures
            final(self)@ == old(self)@.after_prg_rom_write(addr, data),
    {
        self.chr_rom_bank = data & 0x03;
    }

    pub fn write_prg_ram(&mut self, addr: u16, data: u8)
        requires
            old(self)@.wf(),
        ensures
            final(self)@ == old(self)@.after_prg_ram_write(addr, data),
    {
        let i = addr as usize % PRG_RAM_SIZE;
        self.prg_ram.set(i, data);
    }

    fn chr_slot(&self, addr: u16) -> (r: usize)
        requires
            self@.wf(),
        ensures
            r == self@.chr_index(addr),
            r < self@.chr.len(),
    {
        let bank = self.chr_rom_bank as usize * CHR_BANK_SIZE;
        (bank + addr as usize % CHR_BANK_SIZE) % self.chr_rom.len()
    }

    pub fn read_chr_rom(&self, addr: u16) -> (r: u8)
        requires
            self@.wf(),
        ensures
            r == self@.chr_byte(addr),
    {
        self.chr_rom[self.chr_slot(addr)]
    }

    pub fn write_chr_rom(&mut self, addr: u16, data: u8)
        requires
            old(self)@.wf(),
        ensures
            final(self)@ == old(self)@.after_chr_write(addr, data),
    {
        if self.chr_is_ram {
            let i = self.chr_slot(addr);
            self.chr_rom.set(i, data);
        }
    }

    pub fn ppu_mirror_mode(&self) -> (r: u8)
        ensures
            r == self@.mirroring(),
    {
        self.mirror_mode
    }

    pub fn reset(&mut self)
        requires
            old(self)@.wf(),
        ensures
            final(self)@ == old(self)@.after_reset(),
            final(self)@.wf(),
    {
        self.prg_ram = zeroed(PRG_RAM_SIZE);
        self.chr_rom_bank = 0;
    }
}

} // verus!
