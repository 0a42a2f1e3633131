use vstd::prelude::*;
use crate::bus::cpu_ram::zeroed;

verus! {

/// Bytes of nametable memory: room for four 1 KiB nametables.
pub const NAMETABLE_SIZE: usize = 0x1000;

/// The index that a PPU address in `$2000-$3EFF` selects in nametable memory.
pub open spec fn nametable_index(addr: u16) -> int {
    (addr & 0x0FFF) as int
}

/// Physical nametable and attribute-table storage: room for four 1 KiB
/// tables, indexed by `addr & 0xFFF`. It knows no mirroring mode: the bus
/// folds PPU addresses onto it with the cartridge's layout
/// (`mirrored_index`) before every access, so `$2400` reads `$2000` under
/// horizontal mirroring only through the bus.
pub struct Nametable {
    pub ram: Vec<u8>,
}

impl View for Nametable {
    type V = Seq<u8>;

    open spec fn view(&self) -> Seq<u8> {
        self.ram@
    }
}

impl Nametable {
    pub open spec fn wf(&self) -> bool {
        self@.len() == NAMETABLE_SIZE
    }

    pub fn new() -> (r: Self)
        ensures
            r.wf(),
            r@ == Seq::new(NAMETABLE_SIZE as nat, |i: int| 0u8),
    {
        Nametable { ram: zeroed(NAMETABLE_SIZE) }
    }

    pub fn read(&self, addr: u16) -> (r: u8)
        requires
            self.wf(),
            0x2000 <= addr <= 0x3EFF,
        ensures
            r == self@[nametable_index(addr)],
    {
        let i = addr & 0x0FFF;
        assert(i < 0x1000) by (bit_vector)
            requires i == addr & 0x0FFF;
        self.ram[i as usize]
    }

    pub fn write(&mut self, addr: u16, data: u8)
        requires
            old(self).wf(),
            0x2000 <= addr <= 0x3EFF,
        ensures
            final(self).wf(),
            final(self)@ == old(self)@.update(nametable_index(addr), data),
    {
        let i = addr & 0x0FFF;
        assert(i < 0x1000) by (bit_vector)
            requires i == addr & 0x0FFF;
        self.ram.set(i as usize, data);
    }

    pub fn reset(&mut self)
        ensures
            final(self).wf(),
            final(self)@ == Seq::new(NAMETABLE_SIZE as nat, |i: int| 0u8),
    {
        self.ram = zeroed(NAMETABLE_SIZE);
    }
}

} // verus!
