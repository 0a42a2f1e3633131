use vstd::prelude::*;

verus! {

/// Number of bytes of CPU work RAM.
pub const CPU_RAM_SIZE: usize = 0x800;

/// A vector of `n` zero bytes.
pub fn zeroed(n: usize) -> (v: Vec<u8>)
    ensures
        v@ == Seq::new(n as nat, |i: int| 0u8),
{
    let mut v: Vec<u8> = Vec::new();
    let mut i: usize = 0;
    while i < n
        invariant
            i <= n,
            v@ == Seq::new(i as nat, |k: int| 0u8),
        decreases n - i,
    {
        v.push(0u8);
        i = i + 1;
    }
    v
}

/// The index that a CPU address in `$0000-$1FFF` selects in the 2 KiB RAM.
pub open spec fn ram_index(addr: u16) -> int {
    (addr & 0x07FF) as int
}

/// 2 KiB of CPU work RAM, mirrored every 2 KiB.
pub struct CpuRam {
    pub ram: Vec<u8>,
}

impl View for CpuRam {
    type V = Seq<u8>;

    open spec fn view(&self) -> Seq<u8> {
        self.ram@
    }
}

impl CpuRam {
    pub open spec fn wf(&self) -> bool {
        self@.len() == CPU_RAM_SIZE
    }

    pub fn new() -> (r: Self)
        ensures
            r.wf(),
            r@ == Seq::new(CPU_RAM_SIZE as nat, |i: int| 0u8),
    {
        CpuRam { ram: zeroed(CPU_RAM_SIZE) }
    }

    pub fn read(&self, addr: u16) -> (r: u8)
        requires
            self.wf(),
        ensures
            r == self@[ram_index(addr)],
    {
        let i = addr & 0x07FF;
        assert(i < 0x800) by (bit_vector)
            requires i == addr & 0x07FF;
        self.ram[i as usize]
    }

    pub fn write(&mut self, addr: u16, data: u8)
        requires
            old(self).wf(),
        ensures
            final(self).wf(),
            final(self)@ == old(self)@.update(ram_index(addr), data),
    {
        let i = addr & 0x07FF;
        assert(i < 0x800) by (bit_vector)
            requires i == addr & 0x07FF;
        self.ram.set(i as usize, data);
    }

    pub fn reset(&mut self)
        ensures
            final(self).wf(),
            final(self)@ == Seq::new(CPU_RAM_SIZE as nat, |i: int| 0u8),
    {
        self.ram = zeroed(CPU_RAM_SIZE);
    }
}

} // verus!
