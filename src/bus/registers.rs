use vstd::prelude::*;

verus! {

/// The PPU register that a CPU address in `$2000-$3FFF` selects (0 to 7).
pub open spec fn register_slot(addr: u16) -> u16 {
    addr & 0x0007
}

/// The eight CPU-visible PPU registers, plus the OAM DMA page.
pub struct Registers {
    /// `$2000`: nametable base (bits 0-1), VRAM increment (bit 2), sprite and
    /// background pattern tables (bits 3, 4), sprite size (bit 5), NMI enable (bit 7).
    pub ppuctrl: u8,
    /// `$2001`: grayscale, left-column masks, background and sprite enable, emphasis.
    pub ppumask: u8,
    /// `$2002`: sprite overflow (bit 5), sprite-0 hit (bit 6), vertical blank (bit 7).
    pub ppustatus: u8,
    /// `$2003`
    pub oamaddr: u8,
    /// `$2004`
    pub oamdata: u8,
    /// `$2005`: the last byte written.
    pub ppuscroll: u8,
    /// `$2006`: the last byte written.
    pub ppuaddr: u8,
    /// `$2007`: the last byte written.
    pub ppudata: u8,
    /// `$4014`: the last page handed to OAM DMA.
    pub oamdma: u8,
}

impl Registers {
    /// What a plain read of register slot `slot` returns.
    pub open spec fn slot_value(&self, slot: u16) -> u8 {
        if slot == 0 {
            self.ppuctrl
        } else if slot == 1 {
            self.ppumask
        } else if slot == 2 {
            self.ppustatus
        } else if slot == 3 {
            self.oamaddr
        } else if slot == 4 {
            self.oamdata
        } else if slot == 5 {
            self.ppuscroll
        } else if slot == 6 {
            self.ppuaddr
        } else {
            self.ppudata
        }
    }

    /// The registers after `data` is written to slot `slot`; `$2002` is read-only.
    pub open spec fn with_slot(self, slot: u16, data: u8) -> Registers {
        if slot == 0 {
            Registers { ppuctrl: data, ..self }
        } else if slot == 1 {
            Registers { ppumask: data, ..self }
        } else if slot == 2 {
            self
        } else if slot == 3 {
            Registers { oamaddr: data, ..self }
        } else if slot == 4 {
            Registers { oamdata: data, ..self }
        } else if slot == 5 {
            Registers { ppuscroll: data, ..self }
        } else if slot == 6 {
            Registers { ppuaddr: data, ..self }
        } else {
            Registers { ppudata: data, ..self }
        }
    }

    pub open spec fn is_cleared(&self) -> bool {
        &&& self.ppuctrl == 0
        &&& self.ppumask == 0
        &&& self.ppustatus == 0
        &&& self.oamdata == 0
        &&& self.ppuscroll == 0
        &&& self.ppudata == 0
        &&& self.oamdma == 0
    }

    pub fn new() -> (r: Self)
        ensures
            r.is_cleared(),
            r.oamaddr == 0,
            r.ppuaddr == 0,
    {
        Registers {
            ppuctrl: 0,
            ppumask: 0,
            ppustatus: 0,
            oamaddr: 0,
            oamdata: 0,
            ppuscroll: 0,
            ppuaddr: 0,
            ppudata: 0,
            oamdma: 0,
        }
    }

    pub fn read(&self, addr: u16) -> (r: u8)
        ensures
            r == self.slot_value(register_slot(addr)),
    {
        let slot = addr & 0x0007;
        if slot == 0 {
            self.ppuctrl
        } else if slot == 1 {
            self.ppumask
        } else if slot == 2 {
            self.ppustatus
        } else if slot == 3 {
            self.oamaddr
        } else if slot == 4 {
            self.oamdata
        } else if slot == 5 {
            self.ppuscroll
        } else if slot == 6 {
            self.ppuaddr
        } else {
            self.ppudata
        }
    }

    pub fn write(&mut self, addr: u16, data: u8)
        ensures
            *final(self) == old(self).with_slot(register_slot(addr), data),
    {
        let slot = addr & 0x0007;
        if slot == 0 {
            self.ppuctrl = data;
        } else if slot == 1 {
            self.ppumask = data;
        } else if slot == 2 {
        } else if slot == 3 {
            self.oamaddr = data;
        } else if slot == 4 {
            self.oamdata = data;
        } else if slot == 5 {
            self.ppuscroll = data;
        } else if slot == 6 {
            self.ppuaddr = data;
        } else {
            self.ppudata = data;
        }
    }

    /// Clears every register but OAMADDR and PPUADDR.
    pub fn reset(&mut self)
        ensures
            final(self).is_cleared(),
            final(self).oamaddr == old(self).oamaddr,
            final(self).ppuaddr == old(self).ppuaddr,
    {
        self.ppuctrl = 0;
        self.ppumask = 0;
        self.ppustatus = 0;
        self.oamdata = 0;
        self.ppuscroll = 0;
        self.ppudata = 0;
        self.oamdma = 0;
    }
}

} // verus!
