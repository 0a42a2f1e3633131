use vstd::prelude::*;
use crate::bus::cpu_ram::zeroed;
use crate::bus::nametable::{nametable_index, NAMETABLE_SIZE};
use crate::bus::palettes::{palette_index, palette_slot, PALETTE_RAM_SIZE};

verus! {

/// Nametable memory and palette RAM together, addressed by PPU address
/// `$2000-$3FFF`, with the address register used for `$2007` access.
pub struct Vram {
    pub ram: Vec<u8>,
    pub palettes_ram: Vec<u8>,
    pub vram_addr: u16,
}

impl Vram {
    pub open spec fn names(&self) -> Seq<u8> {
        self.ram@
    }

    pub open spec fn colors(&self) -> Seq<u8> {
        self.palettes_ram@
    }

    pub open spec fn wf(&self) -> bool {
        self.names().len() == NAMETABLE_SIZE && self.colors().len() == PALETTE_RAM_SIZE
    }

    /// What a read of `addr` returns.
    pub open spec fn value_at(&self, addr: u16) -> u8 {
        if addr <= 0x3EFF {
            self.names()[nametable_index(addr)]
        } else {
            self.colors()[palette_index(addr)]
        }
    }

    pub fn new() -> (r: Self)
        ensures
            r.wf(),
            r.names() == Seq::new(NAMETABLE_SIZE as nat, |i: int| 0u8),
            r.colors() == Seq::new(PALETTE_RAM_SIZE as nat, |i: int| 0u8),
            r.vram_addr == 0,
    {
        Vram { ram: zeroed(NAMETABLE_SIZE), palettes_ram: zeroed(PALETTE_RAM_SIZE), vram_addr: 0 }
    }

    pub fn read(&self, addr: u16) -> (r: u8)
        requires
            self.wf(),
            0x2000 <= addr <= 0x3FFF,
        ensures
            r == self.value_at(addr),
    {
        if addr <= 0x3EFF {
            let i = addr & 0x0FFF;
            assert(i < 0x1000) by (bit_vector)
                requires i == addr & 0x0FFF;
            self.ram[i as usize]
        } else {
            self.palettes_ram[palette_slot(addr)]
        }
    }

    pub fn write(&mut self, addr: u16, data: u8)
        requires
            old(self).wf(),
            0x2000 <= addr <= 0x3FFF,
        ensures
            final(self).wf(),
            final(self).vram_addr == old(self).vram_addr,
            addr <= 0x3EFF ==> final(self).names() == old(self).names().update(
                nametable_index(addr),
                data,
            ) && final(self).colors() == old(self).colors(),
            addr > 0x3EFF ==> final(self).colors() == old(self).colors().update(
                palette_index(addr),
                data,
            ) && final(self).names() == old(self).names(),
    {
        if addr <= 0x3EFF {
            let i = addr & 0x0FFF;
            assert(i < 0x1000) by (bit_vector)
                requires i == addr & 0x0FFF;
            self.ram.set(i as usize, data);
        } else {
            let i = palette_slot(addr);
            self.palettes_ram.set(i, data);
        }
    }

    pub fn reset(&mut self)
        ensures
            final(self).wf(),
            final(self).names() == Seq::new(NAMETABLE_SIZE as nat, |i: int| 0u8),
            final(self).colors() == Seq::new(PALETTE_RAM_SIZE as nat, |i: int| 0u8),
            final(self).vram_addr == 0,
    {
        self.ram = zeroed(NAMETABLE_SIZE);
        self.palettes_ram = zeroed(PALETTE_RAM_SIZE);
        self.vram_addr = 0;
    }
}

} // verus!
