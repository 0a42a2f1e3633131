use vstd::prelude::*;

verus! {

/// Size of the cartridge work RAM at `$6000-$7FFF`.
pub const PRG_RAM_SIZE: usize = 0x2000;

/// Size of one CHR bank.
pub const CHR_BANK_SIZE: usize = 0x2000;

/// Nametable layouts a cartridge can select.
pub const MIRROR_HORIZONTAL: u8 = 0;
pub const MIRROR_VERTICAL: u8 = 1;
pub const MIRROR_SINGLE_LOW: u8 = 2;
pub const MIRROR_SINGLE_HIGH: u8 = 3;
pub const MIRROR_FOUR_SCREEN: u8 = 4;

/// What a mapper holds, as plain values.
pub struct MapperView {
    /// The iNES mapper number: 0 (NROM), 1 (MMC1) or 3 (CNROM).
    pub id: u8,
    pub prg_rom: Seq<u8>,
    pub prg_ram: Seq<u8>,
    pub chr: Seq<u8>,
    /// True where the cartridge has CHR RAM, which the PPU may write.
    pub chr_writable: bool,
    pub mirror_mode: u8,
    /// The selected CHR bank: the 8 KiB bank of CNROM, the first CHR
    /// register of MMC1.
    pub chr_bank: u8,
    /// MMC1: the serial shift register; bit 4 marks an empty register.
    pub shift: u8,
    /// MMC1: mirroring (bits 0-1), PRG mode (bits 2-3), CHR mode (bit 4).
    pub control: u8,
    /// MMC1: the second CHR register (4 KiB mode).
    pub chr_bank1: u8,
    /// MMC1: the PRG bank register.
    pub prg_bank: u8,
}

impl MapperView {
    pub open spec fn wf(&self) -> bool {
        &&& self.prg_rom.len() > 0
        &&& self.chr.len() > 0
        &&& self.prg_ram.len() == PRG_RAM_SIZE
    }

    /// MMC1: the 16 KiB PRG bank that CPU address `addr` selects. Modes 0
    /// and 1 switch 32 KiB; mode 2 fixes the first bank at `$8000`; mode 3
    /// fixes the last bank at `$C000`.
    pub open spec fn mmc1_prg_bank(&self, addr: u16) -> int {
        let mode = (self.control as int / 4) % 4;
        let banks = self.prg_rom.len() as int / 0x4000;
        let last = if banks > 0 {
            banks - 1
        } else {
            0
        };
        let high = addr as int >= 0xC000;
        if mode <= 1 {
            (self.prg_bank as int / 2) * 2 + if high {
                1int
            } else {
                0int
            }
        } else if mode == 2 {
            if high {
                self.prg_bank as int % 16
            } else {
                0
            }
        } else {
            if high {
                last
            } else {
                self.prg_bank as int % 16
            }
        }
    }

    pub open spec fn prg_index(&self, addr: u16) -> int {
        if self.id == 1 {
            (self.mmc1_prg_bank(addr) * 0x4000 + addr as int % 0x4000) % self.prg_rom.len() as int
        } else {
            addr as int % self.prg_rom.len() as int
        }
    }

    pub open spec fn prg_rom_byte(&self, addr: u16) -> u8 {
        self.prg_rom[self.prg_index(addr)]
    }

    /// The nametable layout in force: MMC1 takes it from its control register.
    pub open spec fn mirroring(&self) -> u8 {
        if self.id == 1 {
            let m = self.control % 4;
            if m == 0 {
                MIRROR_SINGLE_LOW
            } else if m == 1 {
                MIRROR_SINGLE_HIGH
            } else if m == 2 {
                MIRROR_VERTICAL
            } else {
                MIRROR_HORIZONTAL
            }
        } else {
            self.mirror_mode
        }
    }

    pub open spec fn prg_ram_byte(&self, addr: u16) -> u8 {
        self.prg_ram[addr as int % PRG_RAM_SIZE as int]
    }

    /// The CHR byte that pattern-table address `addr` selects.
    pub open spec fn chr_index(&self, addr: u16) -> int {
        if self.id == 1 {
            if (self.control as int / 16) % 2 == 1 {
                let bank = if addr as int % 0x2000 < 0x1000 {
                    self.chr_bank
                } else {
                    self.chr_bank1
                };
                (bank as int * 0x1000 + addr as int % 0x1000) % self.chr.len() as int
            } else {
                ((self.chr_bank as int / 2) * 0x2000 + addr as int % 0x2000) % self.chr.len() as int
            }
        } else if self.id == 3 {
            (self.chr_bank as int * CHR_BANK_SIZE as int + addr as int % CHR_BANK_SIZE as int)
                % self.chr.len() as int
        } else {
            addr as int % self.chr.len() as int
        }
    }

    pub open spec fn chr_byte(&self, addr: u16) -> u8 {
        self.chr[self.chr_index(addr)]
    }

    /// After a CPU write into `$8000-$FFFF`: CNROM selects a CHR bank;
    /// MMC1 shifts bit 0 into its serial register (bit 7 resets it) and on
    /// the fifth write loads the register that address bits 13-14 select;
    /// NROM ignores it.
    pub open spec fn after_prg_rom_write(self, addr: u16, data: u8) -> MapperView {
        if self.id == 3 {
            MapperView { chr_bank: data & 0x03, ..self }
        } else if self.id == 1 {
            if data >= 0x80 {
                MapperView { shift: 0x10, control: self.control | 0x0C, ..self }
            } else {
                let value = (self.shift / 2 + (data % 2) * 16) as u8;
                if self.shift % 2 == 1 {
                    let reg = (addr as int / 0x2000) % 4;
                    let s = MapperView { shift: 0x10, ..self };
                    if reg == 0 {
                        MapperView { control: value, ..s }
                    } else if reg == 1 {
                        MapperView { chr_bank: value, ..s }
                    } else if reg == 2 {
                        MapperView { chr_bank1: value, ..s }
                    } else {
                        MapperView { prg_bank: value % 16, ..s }
                    }
                } else {
                    MapperView { shift: value, ..self }
                }
            }
        } else {
            self
        }
    }

    pub open spec fn after_prg_ram_write(self, addr: u16, data: u8) -> MapperView {
        MapperView {
            prg_ram: self.prg_ram.update(addr as int % PRG_RAM_SIZE as int, data),
            ..self
        }
    }

    /// After a PPU write into `$0000-$1FFF`: only CHR RAM changes.
    pub open spec fn after_chr_write(self, addr: u16, data: u8) -> MapperView {
        if self.chr_writable {
            MapperView { chr: self.chr.update(self.chr_index(addr), data), ..self }
        } else {
            self
        }
    }

    /// After a reset: work RAM cleared, bank registers back to power-on.
    pub open spec fn after_reset(self) -> MapperView {
        MapperView {
            prg_ram: Seq::new(PRG_RAM_SIZE as nat, |i: int| 0u8),
            chr_bank: 0,
            shift: 0x10,
            control: 0x0C,
            chr_bank1: 0,
            prg_bank: 0,
            ..self
        }
    }
}

/// Byte `addr` of `rom`, the address taken modulo the length.
pub fn wrapped_byte(rom: &Vec<u8>, addr: u16) -> (r: u8)
    requires
        rom@.len() > 0,
    ensures
        r == rom@[addr as int % rom@.len() as int],
{
    rom[addr as usize % rom.len()]
}

} // verus!
