use vstd::prelude::*;
use crate::bus::cpu_ram::zeroed;

verus! {

/// Bytes of object attribute memory: 64 sprites of 4 bytes.
pub const OAM_SIZE: usize = 0x100;

/// The OAM byte that an address selects (the address wraps at 8 bits).
pub open spec fn oam_index(addr: u16) -> int {
    (addr & 0xFF) as int
}

/// Sprite attribute memory. Each sprite takes four bytes: Y - 1, tile index,
/// attributes (palette, priority, horizontal and vertical flip) and X.
pub struct Oam {
    pub oam: Vec<u8>,
    pub oam_addr: u16,
}

impl View for Oam {
    type V = Seq<u8>;

    open spec fn view(&self) -> Seq<u8> {
        self.oam@
    }
}

impl Oam {
    pub open spec fn wf(&self) -> bool {
        self@.len() == OAM_SIZE && self.oam_addr < 0x100
    }

    pub fn new() -> (r: Self)
        ensures
            r.wf(),
            r@ == Seq::new(OAM_SIZE as nat, |i: int| 0u8),
            r.oam_addr == 0,
    {
        Oam { oam: zeroed(OAM_SIZE), oam_addr: 0 }
    }

    pub fn read(&self, addr: u16) -> (r: u8)
        requires
            self@.len() == OAM_SIZE,
        ensures
            r == self@[oam_index(addr)],
    {
        let i = addr & 0xFF;
        assert(i < 0x100) by (bit_vector)
            requires i == addr & 0xFF;
        self.oam[i as usize]
    }

    pub fn write(&mut self, addr: u16, data: u8)
        requires
            old(self)@.len() == OAM_SIZE,
        ensures
            final(self)@ == old(self)@.update(oam_index(addr), data),
            final(self).oam_addr == old(self).oam_addr,
    {
        let i = addr & 0xFF;
        assert(i < 0x100) by (bit_vector)
            requires i == addr & 0xFF;
        self.oam.set(i as usize, data);
    }

    pub fn reset(&mut self)
        ensures
            final(self).wf(),
            final(self)@ == Seq::new(OAM_SIZE as nat, |i: int| 0u8),
            final(self).oam_addr == 0,
    {
        self.oam = zeroed(OAM_SIZE);
        self.oam_addr = 0;
    }
}

} // verus!
