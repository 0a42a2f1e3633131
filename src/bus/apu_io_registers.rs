use vstd::prelude::*;
use crate::bus::cpu_ram::zeroed;

verus! {

/// Bytes of the register window at `$4000-$401F`.
pub const APU_IO_SIZE: usize = 0x20;

/// Controller buttons, in the order in which `$4016` reports them.
#[derive(Clone, Copy, Debug, PartialEq, Eq, Structural)]
pub enum Button {
    A,
    B,
    Select,
    Start,
    Up,
    Down,
    Left,
    Right,
}

/// The bit of the controller word that stands for a button.
pub open spec fn button_bit(b: Button) -> u8 {
    match b {
        Button::A => 0x01,
        Button::B => 0x02,
        Button::Select => 0x04,
        Button::Start => 0x08,
        Button::Up => 0x10,
        Button::Down => 0x20,
        Button::Left => 0x40,
        Button::Right => 0x80,
    }
}

/// Computes `button_bit`.
pub fn button_mask(b: Button) -> (r: u8)
    ensures
        r == button_bit(b),
{
    match b {
        Button::A => 0x01,
        Button::B => 0x02,
        Button::Select => 0x04,
        Button::Start => 0x08,
        Button::Up => 0x10,
        Button::Down => 0x20,
        Button::Left => 0x40,
        Button::Right => 0x80,
    }
}

/// The controller word for the held buttons in `s`: the union of their bits.
pub open spec fn buttons_word(s: Seq<Button>) -> u8
    decreases s.len(),
{
    if s.len() == 0 {
        0
    } else {
        buttons_word(s.drop_last()) | button_bit(s.last())
    }
}

/// Computes `buttons_word` for a list of held buttons.
pub fn buttons_to_word(held: &Vec<Button>) -> (r: u8)
    ensures
        r == buttons_word(held@),
{
    let mut word: u8 = 0;
    let mut i: usize = 0;
    while i < held.len()
        invariant
            i <= held@.len(),
            word == buttons_word(held@.subrange(0, i as int)),
        decreases held@.len() - i,
    {
        assert(held@.subrange(0, i as int + 1).drop_last() == held@.subrange(0, i as int));
        word = word | button_mask(held[i]);
        i = i + 1;
    }
    assert(held@.subrange(0, held@.len() as int) == held@);
    word
}

/// The APU and I/O register window. The APU registers only store what is
/// written; `$4016` is the controller port.
pub struct ApuIoRegisters {
    pub ram: Vec<u8>,
    /// The buttons held now, one bit each (`Button` order, A in bit 0).
    pub input_reg: u8,
    /// The controller shift register; `$4016` reads shift it right.
    pub current_input: u8,
    /// True once the strobe bit has been written low: reads then shift.
    pub input_enable: bool,
    /// The last value a read returned.
    pub input_history: u8,
}

/// What the register window holds, as plain values.
pub struct ApuView {
    pub stored: Seq<u8>,
    pub input_reg: u8,
    pub current_input: u8,
    pub input_enable: bool,
    pub input_history: u8,
}

impl ApuView {
    pub open spec fn wf(&self) -> bool {
        self.stored.len() == APU_IO_SIZE
    }

    /// What a read of `addr` returns.
    pub open spec fn value_at(&self, addr: u16) -> u8 {
        let slot = addr & 0x1F;
        if slot == 0x16 {
            if self.input_enable {
                self.current_input & 1
            } else {
                self.input_reg & 1
            }
        } else {
            self.stored[slot as int]
        }
    }

    /// The state after a read of `addr`: a read of `$4016` after the strobe
    /// fell shifts the controller register.
    pub open spec fn after_read(self, addr: u16) -> ApuView {
        let v = self.value_at(addr);
        if addr & 0x1F == 0x16 && self.input_enable {
            ApuView { current_input: self.current_input >> 1, input_history: v, ..self }
        } else {
            ApuView { input_history: v, ..self }
        }
    }

    /// The state after `data` is written to `addr`. At `$4016` bit 0 is the
    /// strobe: high stops the shifting, and its falling edge loads the held
    /// buttons into the shift register.
    pub open spec fn after_write(self, addr: u16, data: u8) -> ApuView {
        let slot = addr & 0x1F;
        let s = ApuView { stored: self.stored.update(slot as int, data), ..self };
        if slot != 0x16 {
            s
        } else if data & 1 != 0 {
            ApuView { input_enable: false, ..s }
        } else if !self.input_enable {
            ApuView { input_enable: true, current_input: self.input_reg, ..s }
        } else {
            s
        }
    }
}

impl View for ApuIoRegisters {
    type V = ApuView;

    open spec fn view(&self) -> ApuView {
        ApuView {
            stored: self.ram@,
            input_reg: self.input_reg,
            current_input: self.current_input,
            input_enable: self.input_enable,
            input_history: self.input_history,
        }
    }
}

impl ApuIoRegisters {
    pub fn new() -> (r: Self)
        ensures
            r@ == (ApuView {
                stored: Seq::new(APU_IO_SIZE as nat, |i: int| 0u8),
                input_reg: 0,
                current_input: 0,
                input_enable: false,
                input_history: 0,
            }),
    {
        ApuIoRegisters {
            ram: zeroed(APU_IO_SIZE),
            input_reg: 0,
            current_input: 0,
            input_enable: false,
            input_history: 0,
        }
    }

    pub fn read(&mut self, addr: u16) -> (r: u8)
        requires
            old(self)@.wf(),
        ensures
            r == old(self)@.value_at(addr),
            final(self)@ == old(self)@.after_read(addr),
    {
        let slot = addr & 0x1F;
        assert(slot < 0x20) by (bit_vector)
            requires slot == addr & 0x1F;
        let data;
        if slot == 0x16 {
            if self.input_enable {
                data = self.current_input & 1;
                self.current_input = self.current_input >> 1;
            } else {
                data = self.input_reg & 1;
            }
        } else {
            data = self.ram[slot as usize];
        }
        self.input_history = data;
        data
    }

    pub fn read_debug(&self, addr: u16) -> (r: u8)
        requires
            self@.wf(),
        ensures
            r == self@.value_at(addr),
    {
        let slot = addr & 0x1F;
        assert(slot < 0x20) by (bit_vector)
            requires slot == addr & 0x1F;
        if slot == 0x16 {
            if self.input_enable {
                self.current_input & 1
            } else {
                self.input_reg & 1
            }
        } else {
            self.ram[slot as usize]
        }
    }

    pub fn write(&mut self, addr: u16, data: u8)
        requires
            old(self)@.wf(),
        ensures
            final(self)@ == old(self)@.after_write(addr, data),
            final(self)@.wf(),
    {
        let slot = addr & 0x1F;
        assert(slot < 0x20) by (bit_vector)
            requires slot == addr & 0x1F;
        self.ram.set(slot as usize, data);
        if slot == 0x16 {
            if data & 1 != 0 {
                self.input_enable = false;
            } else {
                if !self.input_enable {
                    self.current_input = self.input_reg;
                }
                self.input_enable = true;
            }
        }
    }

    /// Clears the stored registers and the controller port; the held
    /// buttons stay.
    pub fn reset(&mut self)
        ensures
            final(self)@ == (ApuView {
                stored: Seq::new(APU_IO_SIZE as nat, |i: int| 0u8),
                current_input: 0,
                input_enable: false,
                ..old(self)@
            }),
    {
        self.ram = zeroed(APU_IO_SIZE);
        self.current_input = 0;
        self.input_enable = false;
    }
}

} // verus!
