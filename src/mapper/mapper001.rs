use vstd::prelude::*;
use crate::bus::cpu_ram::zeroed;
use crate::mapper::view::{wrapped_byte, MapperView, CHR_BANK_SIZE, PRG_RAM_SIZE, MIRROR_HORIZONTAL,
    MIRROR_SINGLE_HIGH, MIRROR_SINGLE_LOW, MIRROR_VERTICAL};

verus! {

/// Mapper 1 (MMC1): PRG and CHR banks selected through a 5-bit serial
/// register written one bit at a time at `$8000-$FFFF`.
pub struct Mapper001 {
    pub prg_rom: Vec<u8>,
    pub prg_ram: Vec<u8>,
    pub chr_rom: Vec<u8>,
    pub chr_is_ram: bool,
    pub mirror_mode: u8,
    pub shift_register: u8,
    pub control: u8,
    pub chr_bank0: u8,
    pub chr_bank1: u8,
    pub prg_bank: u8,
}

impl View for Mapper001 {
    type V = MapperView;

    open spec fn view(&self) -> MapperView {
        MapperView {
            id: 1,
            prg_rom: self.prg_rom@,
            prg_ram: self.prg_ram@,
            chr: self.chr_rom@,
            chr_writable: self.chr_is_ram,
            mirror_mode: self.mirror_mode,
            chr_bank: self.chr_bank0,
            shift: self.shift_register,
            control: self.control,
            chr_bank1: self.chr_bank1,
            prg_bank: self.prg_bank,
        }
    }
}

impl Mapper001 {
    /// A cartridge with the given PRG ROM and CHR ROM; an empty CHR ROM
    /// stands for 8 KiB of CHR RAM. The last PRG bank starts at `$C000`.
    pub fn new(prg_rom: Vec<u8>, chr_rom: Vec<u8>, mirror_mode: u8) -> (r: Self)
        requires
            prg_rom@.len() > 0,
        ensures
            r@.wf(),
            r@.prg_rom == prg_rom@,
            r@.prg_ram == Seq::new(PRG_RAM_SIZE as nat, |i: int| 0u8),
            chr_rom@.len() > 0 ==> r@.chr == chr_rom@ && !r@.chr_writable,
            chr_rom@.len() == 0 ==> r@.chr == Seq::new(CHR_BANK_SIZE as nat, |i: int| 0u8)
                && r@.chr_writable,
            r@.mirror_mode == mirror_mode,
            r@.chr_bank == 0,
            r@.shift == 0x10 && r@.control == 0x0C && r@.chr_bank1 == 0 && r@.prg_bank == 0,
    {
        let chr_is_ram = chr_rom.len() == 0;
        let chr = if chr_is_ram {
            zeroed(CHR_BANK_SIZE)
        } else {
            chr_rom
        };
        Mapper001 {
            prg_rom,
            prg_ram: zeroed(PRG_RAM_SIZE),
            chr_rom: chr,
            chr_is_ram,
            mirror_mode,
            shift_register: 0x10,
            control: 0x0C,
            chr_bank0: 0,
            chr_bank1: 0,
            prg_bank: 0,
        }
    }

    fn prg_slot(&self, addr: u16) -> (r: usize)
        requires
            self@.wf(),
        ensures
            r == self@.prg_index(addr),
            r < self@.prg_rom.len(),
    {
        let len = self.prg_rom.len();
        let mode = (self.control / 4) % 4;
        let banks = len / 0x4000;
        let last = if banks > 0 {
            banks - 1
        } else {
            0
        };
        let high = addr >= 0xC000;
        let bank: usize = if mode <= 1 {
            (self.prg_bank as usize / 2) * 2 + if high {
                1
            } else {
                0
            }
        } else if mode == 2 {
            if high {
                self.prg_bank as usize % 16
            } else {
                0
            }
        } else {
            if high {
                last
            } else {
                self.prg_bank as usize % 16
            }
        };
        (bank * 0x4000 + addr as usize % 0x4000) % len
    }

    pub fn read_prg_rom(&self, addr: u16) -> (r: u8)
        requires
            self@.wf(),
        ensures
            r == self@.prg_rom_byte(addr),
    {
        self.prg_rom[self.prg_slot(addr)]
    }

    pub fn read_prg_ram(&self, addr: u16) -> (r: u8)
        requires
            self@.wf(),
        ensures
            r == self@.prg_ram_byte(addr),
    {
        wrapped_byte(&self.prg_ram, addr)
    }

    /// One serial write: bit 7 resets the shift register; otherwise bit 0
    /// is shifted in, and the fifth bit loads control, CHR 0, CHR 1 or PRG,
    /// as address bits 13-14 select.
    pub fn write_prg_rom(&mut self, addr: u16, data: u8)
        requires
            old(self)@.wf(),
        ensures
            final(self)@ == old(self)@.after_prg_rom_write(addr, data),
    {
        if data >= 0x80 {
            self.shift_register = 0x10;
            self.control = self.control | 0x0C;
        } else {
            let value = self.shift_register / 2 + (data % 2) * 16;
            if self.shift_register % 2 == 1 {
                let reg = (addr / 0x2000) % 4;
                self.shift_register = 0x10;
                if reg == 0 {
                    self.control = value;
                } else if reg == 1 {
                    self.chr_bank0 = value;
                } else if reg == 2 {
                    self.chr_bank1 = value;
                } else {
                    self.prg_bank = value % 16;
                }
            } else {
                self.shift_register = value;
            }
        }
    }

    pub fn write_prg_ram(&mut self, addr: u16, data: u8)
        requires
            old(self)@.wf(),
        ensures
            final(self)@ == old(self)@.after_prg_ram_write(addr, data),
    {
        let i = addr as usize % PRG_RAM_SIZE;
        self.prg_ram.set(i, data);
    }

    fn chr_slot(&self, addr: u16) -> (r: usize)
        requires
            self@.wf(),
        ensures
            r == self@.chr_index(addr),
            r < self@.chr.len(),
    {
        let len = self.chr_rom.len();
        if (self.control / 16) % 2 == 1 {
            let bank = if addr % 0x2000 < 0x1000 {
                self.chr_bank0
            } else {
                self.chr_bank1
            };
            (bank as usize * 0x1000 + addr as usize % 0x1000) % len
        } else {
            ((self.chr_bank0 as usize / 2) * 0x2000 + addr as usize % 0x2000) % len
        }
    }

    pub fn read_chr_rom(&self, addr: u16) -> (r: u8)
        requires
            self@.wf(),
        ensures
            r == self@.chr_byte(addr),
    {
        self.chr_rom[self.chr_slot(addr)]
    }

    pub fn write_chr_rom(&mut self, addr: u16, data: u8)
        requires
            old(self)@.wf(),
        ensures
            final(self)@ == old(self)@.after_chr_write(addr, data),
    {
        if self.chr_is_ram {
            let i = self.chr_slot(addr);
            self.chr_rom.set(i, data);
        }
    }

    /// The nametable layout that control bits 0-1 select.
    pub fn ppu_mirror_mode(&self) -> (r: u8)
        ensures
            r == self@.mirroring(),
    {
        let m = self.control % 4;
        if m == 0 {
            MIRROR_SINGLE_LOW
        } else if m == 1 {
            MIRROR_SINGLE_HIGH
        } else if m == 2 {
            MIRROR_VERTICAL
        } else {
            MIRROR_HORIZONTAL
        }
    }

    pub fn reset(&mut self)
        requires
            old(self)@.wf(),
        ensures
            final(self)@ == old(self)@.after_reset(),
            final(self)@.wf(),
    {
        self.prg_ram = zeroed(PRG_RAM_SIZE);
        self.shift_register = 0x10;
        self.control = 0x0C;
        self.chr_bank0 = 0;
        self.chr_bank1 = 0;
        self.prg_bank = 0;
    }
}

} // verus!
