use vstd::prelude::*;
use crate::bus::cpu_ram::zeroed;

verus! {

/// Bytes of palette RAM.
pub const PALETTE_RAM_SIZE: usize = 0x20;

/// The palette RAM byte that a PPU address selects: the address is taken
/// modulo 32, and `$3F10/$14/$18/$1C` fold onto `$3F00/$04/$08/$0C`.
pub open spec fn palette_index(addr: u16) -> int {
    let i = addr & 0x1F;
    if i & 0x13 == 0x10 {
        (i & 0x0F) as int
    } else {
        i as int
    }
}

/// Computes `palette_index`.
pub fn palette_slot(addr: u16) -> (r: usize)
    ensures
        r == palette_index(addr),
        r < PALETTE_RAM_SIZE,
{
    let i = addr & 0x1F;
    assert(i < 0x20 && (i & 0x0F) < 0x20) by (bit_vector)
        requires i == addr & 0x1F;
    if i & 0x13 == 0x10 {
        (i & 0x0F) as usize
    } else {
        i as usize
    }
}

/// Palette RAM at `$3F00-$3F1F`, mirrored up to `$3FFF`.
pub struct Palettes {
    pub palettes_ram: Vec<u8>,
}

impl View for Palettes {
    type V = Seq<u8>;

    open spec fn view(&self) -> Seq<u8> {
        self.palettes_ram@
    }
}

impl Palettes {
    pub open spec fn wf(&self) -> bool {
        self@.len() == PALETTE_RAM_SIZE
    }

    pub fn new() -> (r: Self)
        ensures
            r.wf(),
            r@ == Seq::new(PALETTE_RAM_SIZE as nat, |i: int| 0u8),
    {
        Palettes { palettes_ram: zeroed(PALETTE_RAM_SIZE) }
    }

    pub fn read(&self, addr: u16) -> (r: u8)
        requires
            self.wf(),
        ensures
            r == self@[palette_index(addr)],
    {
        self.palettes_ram[palette_slot(addr)]
    }

    pub fn write(&mut self, addr: u16, data: u8)
        requires
            old(self).wf(),
        ensures
            final(self).wf(),
            final(self)@ == old(self)@.update(palette_index(addr), data),
    {
        let i = palette_slot(addr);
        self.palettes_ram.set(i, data);
    }

    pub fn reset(&mut self)
        ensures
            final(self).wf(),
            final(self)@ == Seq::new(PALETTE_RAM_SIZE as nat, |i: int| 0u8),
    {
        self.palettes_ram = zeroed(PALETTE_RAM_SIZE);
    }
}

/// A write to one of `$3F10/$14/$18/$1C` is read back at the matching
/// `$3F00/$04/$08/$0C`, and a write there is read back at the alias.
pub proof fn lemma_palette_alias(k: u16)
    requires
        k < 4,
    ensures
        palette_index((0x3F10 + 4 * k) as u16) == palette_index((0x3F00 + 4 * k) as u16),
        palette_index((0x3F00 + 4 * k) as u16) == 4 * k,
{
    let hi: u16 = (0x3F10 + 4 * k) as u16;
    let lo: u16 = (0x3F00 + 4 * k) as u16;
    assert((hi & 0x1F) & 0x13 == 0x10 && ((hi & 0x1F) & 0x0F) == (lo & 0x1F) && (lo & 0x1F) & 0x13
        == 0x00 && (lo & 0x1F) == 4 * k) by (bit_vector)
        requires
            k < 4,
            hi == 0x3F10 + 4 * k,
            lo == 0x3F00 + 4 * k,
    ;
}

} // verus!
