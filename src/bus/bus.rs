use vstd::prelude::*;
use crate::bus::apu_io_registers::{ApuIoRegisters, ApuView, APU_IO_SIZE};
use crate::bus::cpu_ram::{ram_index, CpuRam, CPU_RAM_SIZE};
use crate::bus::nametable::{Nametable, NAMETABLE_SIZE};
use crate::bus::oam::{Oam, OAM_SIZE};
use crate::bus::palettes::{palette_index, Palettes, PALETTE_RAM_SIZE};
use crate::bus::registers::{register_slot, Registers};
use crate::mapper::mapper000::NromMapper;
use crate::mapper::view::{MapperView, MIRROR_HORIZONTAL, MIRROR_VERTICAL, MIRROR_SINGLE_LOW,
    MIRROR_SINGLE_HIGH};
use crate::mapper::{create_mapper, mapper_supported, mapper_view_of, rom_well_formed, header_of,
    Mapper};
use crate::NesError;

verus! {

/// Interrupt-status bits held by the bus.
pub const IRQ_LINE: u8 = 0b001;
pub const NMI_LINE: u8 = 0b010;
pub const RESET_LINE: u8 = 0b100;

/// The kind of a request in a bus transaction log.
#[derive(Clone, Copy, Debug, PartialEq, Eq, Structural)]
pub enum RWType {
    Read,
    Write,
    ReadReg,
    WriteReg,
    ReadInerruptStatus,
    WriteInerruptStatus,
}

/// A request to the bus.
#[derive(Clone, Copy, Debug, PartialEq, Eq, Structural)]
pub struct RWMessage {
    pub operate_type: RWType,
    pub address: u16,
    pub value: Option<u8>,
}

/// The answer to a `RWMessage`.
#[derive(Clone, Copy, Debug, PartialEq, Eq, Structural)]
pub struct RWResult {
    pub data: Option<u8>,
    pub is_success: bool,
}

/// The nametable byte (0 to 0xFFF) that PPU address `addr` in `$2000-$3EFF`
/// selects under a mirroring mode: horizontal maps `$2400` onto `$2000` and
/// `$2C00` onto `$2800`, vertical maps `$2800` onto `$2000` and `$2C00` onto
/// `$2400`, the single-screen modes use one table, four-screen all four.
pub open spec fn mirrored_index(mode: u8, addr: u16) -> int {
    let a = (addr & 0x0FFF) as int;
    let table = a / 0x400;
    let offset = a % 0x400;
    let physical = if mode == MIRROR_HORIZONTAL {
        table / 2
    } else if mode == MIRROR_VERTICAL {
        table % 2
    } else if mode == MIRROR_SINGLE_LOW {
        0
    } else if mode == MIRROR_SINGLE_HIGH {
        1
    } else {
        table
    };
    physical * 0x400 + offset
}

/// Computes the address `0x2000 + mirrored_index(mode, addr)`.
pub fn mirrored_nametable_addr(mode: u8, addr: u16) -> (r: u16)
    ensures
        0x2000 <= r < 0x3000,
        r - 0x2000 == mirrored_index(mode, addr),
        (r & 0x0FFF) == mirrored_index(mode, addr),
{
    let a = addr & 0x0FFF;
    assert(a < 0x1000) by (bit_vector)
        requires a == addr & 0x0FFF;
    let table = a / 0x400;
    let offset = a % 0x400;
    let physical = if mode == MIRROR_HORIZONTAL {
        table / 2
    } else if mode == MIRROR_VERTICAL {
        table % 2
    } else if mode == MIRROR_SINGLE_LOW {
        0
    } else if mode == MIRROR_SINGLE_HIGH {
        1
    } else {
        table
    };
    let r = 0x2000 + physical * 0x400 + offset;
    assert((r & 0x0FFF) == r - 0x2000) by (bit_vector)
        requires 0x2000 <= r < 0x3000;
    r
}

/// The address increment after a `$2007` access: 32 if PPUCTRL bit 2 is set, else 1.
pub open spec fn vram_increment(ctrl: u8) -> u16 {
    if ctrl & 0x04 != 0 {
        32
    } else {
        1
    }
}

/// The VRAM address after an increment, kept to 15 bits.
pub open spec fn advance_vram_addr(v: u16, ctrl: u8) -> u16 {
    ((v as int + vram_increment(ctrl) as int) % 0x8000) as u16
}

/// The bus as plain values.
pub struct BusView {
    pub interrupt_status: u8,
    pub registers: Registers,
    pub ppustatus_racing: bool,
    pub vblank_suppressed: bool,
    pub nametable: Seq<u8>,
    pub vram_buffer: u8,
    pub vram_addr: u16,
    pub temp_addr: u16,
    pub fine_x: u8,
    pub write_toggle: bool,
    pub oam: Seq<u8>,
    pub oam_addr: u16,
    pub palettes: Seq<u8>,
    pub apu: ApuView,
    pub mapper: MapperView,
    pub ram: Seq<u8>,
}

impl BusView {
    pub open spec fn wf(&self) -> bool {
        &&& self.nametable.len() == NAMETABLE_SIZE
        &&& self.oam.len() == OAM_SIZE
        &&& self.oam_addr < 0x100
        &&& self.palettes.len() == PALETTE_RAM_SIZE
        &&& self.apu.wf()
        &&& self.mapper.wf()
        &&& self.ram.len() == CPU_RAM_SIZE
    }

    /// The byte at PPU address `addr`, taken in the 14-bit PPU address space.
    pub open spec fn ppu_value(&self, addr: u16) -> u8 {
        let a = addr & 0x3FFF;
        if a < 0x2000 {
            self.mapper.chr_byte(a)
        } else if a < 0x3F00 {
            self.nametable[mirrored_index(self.mapper.mirroring(), a)]
        } else {
            self.palettes[palette_index(a)]
        }
    }

    /// The bus after the PPU writes `data` at `addr`.
    pub open spec fn after_ppu_write(self, addr: u16, data: u8) -> BusView {
        let a = addr & 0x3FFF;
        if a < 0x2000 {
            BusView { mapper: self.mapper.after_chr_write(a, data), ..self }
        } else if a < 0x3F00 {
            BusView {
                nametable: self.nametable.update(mirrored_index(self.mapper.mirroring(), a), data),
                ..self
            }
        } else {
            BusView { palettes: self.palettes.update(palette_index(a), data), ..self }
        }
    }

    /// What a CPU read of `addr` returns.
    pub open spec fn peek(&self, addr: u16) -> u8 {
        if addr <= 0x1FFF {
            self.ram[ram_index(addr)]
        } else if addr <= 0x3FFF {
            let slot = register_slot(addr);
            if slot == 2 {
                if self.ppustatus_racing {
                    self.registers.ppustatus & 0x7F
                } else {
                    self.registers.ppustatus
                }
            } else if slot == 4 {
                self.oam[self.oam_addr as int]
            } else if slot == 7 {
                if (self.vram_addr & 0x3FFF) < 0x3F00 {
                    self.vram_buffer
                } else {
                    self.ppu_value(self.vram_addr)
                }
            } else {
                self.registers.slot_value(slot)
            }
        } else if addr <= 0x401F {
            self.apu.value_at(addr)
        } else if addr <= 0x5FFF {
            0
        } else if addr <= 0x7FFF {
            self.mapper.prg_ram_byte(addr)
        } else {
            self.mapper.prg_rom_byte(addr)
        }
    }

    /// The side effects of a CPU read of `addr`.
    pub open spec fn after_read(self, addr: u16) -> BusView {
        if 0x2000 <= addr <= 0x3FFF {
            let slot = register_slot(addr);
            if slot == 2 {
                BusView {
                    registers: Registers {
                        ppustatus: self.registers.ppustatus & 0x7F,
                        ..self.registers
                    },
                    write_toggle: false,
                    vblank_suppressed: self.vblank_suppressed || self.ppustatus_racing,
                    ..self
                }
            } else if slot == 4 {
                BusView { oam_addr: ((self.oam_addr + 1) % 0x100) as u16, ..self }
            } else if slot == 7 {
                let a = self.vram_addr & 0x3FFF;
                let refill = if a < 0x3F00 {
                    self.ppu_value(a)
                } else {
                    self.ppu_value((a - 0x1000) as u16)
                };
                BusView {
                    vram_buffer: refill,
                    vram_addr: advance_vram_addr(self.vram_addr, self.registers.ppuctrl),
                    ..self
                }
            } else {
                self
            }
        } else if 0x4000 <= addr <= 0x401F {
            BusView { apu: self.apu.after_read(addr), ..self }
        } else {
            self
        }
    }

    /// OAM after a DMA copy of page `page` starting at the current OAM address.
    pub open spec fn dma_oam(&self, page: u8) -> Seq<u8> {
        Seq::new(
            OAM_SIZE as nat,
            |j: int|
                self.peek(
                    (page as int * 256 + (j - self.oam_addr as int + 256) % 256) as u16,
                ),
        )
    }

    /// The bus after a CPU write of `data` to a PPU register.
    pub open spec fn after_register_write(self, addr: u16, data: u8) -> BusView {
        let slot = register_slot(addr);
        let s = BusView { registers: self.registers.with_slot(slot, data), ..self };
        let t = self.temp_addr;
        if slot == 0 {
            BusView { temp_addr: (t & 0x73FF) | (((data & 0x03) as u16) << 10u16), ..s }
        } else if slot == 3 {
            BusView { oam_addr: data as u16, ..s }
        } else if slot == 4 {
            BusView {
                oam: self.oam.update(self.oam_addr as int, data),
                oam_addr: ((self.oam_addr + 1) % 0x100) as u16,
                ..s
            }
        } else if slot == 5 {
            if !self.write_toggle {
                BusView {
                    temp_addr: (t & 0x7FE0) | ((data >> 3u8) as u16),
                    fine_x: data & 0x07,
                    write_toggle: true,
                    ..s
                }
            } else {
                BusView {
                    temp_addr: (t & 0x0C1F) | (((data & 0xF8) as u16) << 2u16) | (((data & 0x07) as u16)
                        << 12u16),
                    write_toggle: false,
                    ..s
                }
            }
        } else if slot == 6 {
            if !self.write_toggle {
                BusView {
                    temp_addr: (t & 0x00FF) | (((data & 0x3F) as u16) << 8u16),
                    write_toggle: true,
                    ..s
                }
            } else {
                let t2 = (t & 0x7F00) | (data as u16);
                BusView { temp_addr: t2, vram_addr: t2, write_toggle: false, ..s }
            }
        } else if slot == 7 {
            let w = s.after_ppu_write(self.vram_addr, data);
            BusView { vram_addr: advance_vram_addr(self.vram_addr, self.registers.ppuctrl), ..w }
        } else {
            s
        }
    }

    /// The bus after a CPU write of `data` to `addr`.
    pub open spec fn after_write(self, addr: u16, data: u8) -> BusView {
        if addr <= 0x1FFF {
            BusView { ram: self.ram.update(ram_index(addr), data), ..self }
        } else if addr <= 0x3FFF {
            self.after_register_write(addr, data)
        } else if addr == 0x4014 {
            BusView {
                oam: self.dma_oam(data),
                registers: Registers { oamdma: data, ..self.registers },
                ..self
            }
        } else if addr <= 0x401F {
            BusView { apu: self.apu.after_write(addr, data), ..self }
        } else if addr <= 0x5FFF {
            self
        } else if addr <= 0x7FFF {
            BusView { mapper: self.mapper.after_prg_ram_write(addr, data), ..self }
        } else {
            BusView { mapper: self.mapper.after_prg_rom_write(addr, data), ..self }
        }
    }

    /// The bus after a reset: every memory but the cartridge ROM cleared,
    /// the interrupt lines low, the held buttons kept.
    pub open spec fn after_reset(self) -> BusView {
        BusView {
            interrupt_status: 0,
            registers: Registers {
                ppuctrl: 0,
                ppumask: 0,
                ppustatus: 0,
                oamdata: 0,
                ppuscroll: 0,
                ppudata: 0,
                oamdma: 0,
                ..self.registers
            },
            ppustatus_racing: false,
            vblank_suppressed: false,
            nametable: Seq::new(NAMETABLE_SIZE as nat, |i: int| 0u8),
            vram_buffer: 0,
            vram_addr: 0,
            temp_addr: 0,
            fine_x: 0,
            write_toggle: false,
            oam: Seq::new(OAM_SIZE as nat, |i: int| 0u8),
            oam_addr: 0,
            palettes: Seq::new(PALETTE_RAM_SIZE as nat, |i: int| 0u8),
            apu: ApuView {
                stored: Seq::new(APU_IO_SIZE as nat, |i: int| 0u8),
                current_input: 0,
                input_enable: false,
                ..self.apu
            },
            mapper: self.mapper.after_reset(),
            ram: Seq::new(CPU_RAM_SIZE as nat, |i: int| 0u8),
        }
    }
}

/// The bus at power-on: every memory and register zero, the interrupt
/// lines low, the write toggle clear, and an empty NROM cartridge (two zero
/// bytes of PRG ROM and of CHR ROM, vertical mirroring).
pub open spec fn power_on_view() -> BusView {
    BusView {
        interrupt_status: 0,
        registers: Registers {
            ppuctrl: 0,
            ppumask: 0,
            ppustatus: 0,
            oamaddr: 0,
            oamdata: 0,
            ppuscroll: 0,
            ppuaddr: 0,
            ppudata: 0,
            oamdma: 0,
        },
        ppustatus_racing: false,
        vblank_suppressed: false,
        nametable: Seq::new(NAMETABLE_SIZE as nat, |i: int| 0u8),
        vram_buffer: 0,
        vram_addr: 0,
        temp_addr: 0,
        fine_x: 0,
        write_toggle: false,
        oam: Seq::new(OAM_SIZE as nat, |i: int| 0u8),
        oam_addr: 0,
        palettes: Seq::new(PALETTE_RAM_SIZE as nat, |i: int| 0u8),
        apu: ApuView {
            stored: Seq::new(APU_IO_SIZE as nat, |i: int| 0u8),
            input_reg: 0,
            current_input: 0,
            input_enable: false,
            input_history: 0,
        },
        mapper: MapperView {
            id: 0,
            prg_rom: Seq::new(2, |i: int| 0u8),
            prg_ram: Seq::new(crate::mapper::view::PRG_RAM_SIZE as nat, |i: int| 0u8),
            chr: Seq::new(2, |i: int| 0u8),
            chr_writable: false,
            mirror_mode: MIRROR_VERTICAL,
            chr_bank: 0,
            shift: 0x10,
            control: 0x0C,
            chr_bank1: 0,
            prg_bank: 0,
        },
        ram: Seq::new(CPU_RAM_SIZE as nat, |i: int| 0u8),
    }
}

/// Central address decoder. Owns work RAM, the PPU's memories, the
/// controller port and the cartridge, and holds the interrupt lines.
pub struct Bus {
    /// Interrupt lines: IRQ (bit 0), NMI (bit 1), RESET (bit 2).
    pub interrupt_status: u8,
    pub registers: Registers,
    /// Raised by the PPU on the dot just before it sets the vertical-blank flag.
    pub ppustatus_racing: bool,
    /// Set when a `$2002` read raced the vertical-blank flag: the flag and
    /// its NMI are skipped for that frame.
    pub vblank_suppressed: bool,
    pub nametable: Nametable,
    /// The `$2007` read buffer.
    pub vram_buffer: u8,
    /// The current VRAM address `v` (15 bits).
    pub vram_addr: u16,
    /// The temporary VRAM address `t` (15 bits).
    pub temp_addr: u16,
    /// Fine X scroll `x` (3 bits).
    pub fine_x: u8,
    /// The shared `$2005`/`$2006` write toggle `w`.
    pub write_toggle: bool,
    pub oam: Oam,
    pub palettes: Palettes,
    pub apu_io_registers: ApuIoRegisters,
    pub mapper: Mapper,
    pub cpu_ram: CpuRam,
}

impl View for Bus {
    type V = BusView;

    open spec fn view(&self) -> BusView {
        BusView {
            interrupt_status: self.interrupt_status,
            registers: self.registers,
            ppustatus_racing: self.ppustatus_racing,
            vblank_suppressed: self.vblank_suppressed,
            nametable: self.nametable@,
            vram_buffer: self.vram_buffer,
            vram_addr: self.vram_addr,
            temp_addr: self.temp_addr,
            fine_x: self.fine_x,
            write_toggle: self.write_toggle,
            oam: self.oam@,
            oam_addr: self.oam.oam_addr,
            palettes: self.palettes@,
            apu: self.apu_io_registers@,
            mapper: self.mapper@,
            ram: self.cpu_ram@,
        }
    }
}

impl Bus {
    pub open spec fn wf(&self) -> bool {
        self@.wf()
    }

    /// A powered-on bus holding an empty NROM cartridge.
    pub fn new() -> (r: Self)
        ensures
            r.wf(),
            r@ == power_on_view(),
    {
        let prg = crate::bus::cpu_ram::zeroed(2);
        let chr = crate::bus::cpu_ram::zeroed(2);
        Bus {
            interrupt_status: 0,
            registers: Registers::new(),
            ppustatus_racing: false,
            vblank_suppressed: false,
            nametable: Nametable::new(),
            vram_buffer: 0,
            vram_addr: 0,
            temp_addr: 0,
            fine_x: 0,
            write_toggle: false,
            oam: Oam::new(),
            palettes: Palettes::new(),
            apu_io_registers: ApuIoRegisters::new(),
            mapper: Mapper::Nrom(NromMapper::new(prg, chr, MIRROR_VERTICAL)),
            cpu_ram: CpuRam::new(),
        }
    }

    /// Records the buttons held now; the next strobe of `$4016` latches them.
    pub fn refresh_input(&mut self, new_input: &Vec<crate::bus::apu_io_registers::Button>)
        requires
            old(self).wf(),
        ensures
            final(self).wf(),
            final(self)@ == (BusView {
                apu: ApuView {
                    input_reg: crate::bus::apu_io_registers::buttons_word(new_input@),
                    ..old(self)@.apu
                },
                ..old(self)@
            }),
    {
        self.apu_io_registers.input_reg = crate::bus::apu_io_registers::buttons_to_word(new_input);
    }

    pub fn reset(&mut self)
        requires
            old(self).wf(),
        ensures
            final(self).wf(),
            final(self)@ == old(self)@.after_reset(),
    {
        self.registers.reset();
        self.nametable.reset();
        self.oam.reset();
        self.apu_io_registers.reset();
        self.cpu_ram.reset();
        self.mapper.reset();
        self.palettes.reset();
        self.interrupt_status = 0;
        self.ppustatus_racing = false;
        self.vblank_suppressed = false;
        self.vram_buffer = 0;
        self.vram_addr = 0;
        self.temp_addr = 0;
        self.fine_x = 0;
        self.write_toggle = false;
    }

    pub fn hard_reset(&mut self)
        requires
            old(self).wf(),
        ensures
            final(self).wf(),
            final(self)@ == old(self)@.after_reset(),
    {
        self.reset();
    }

    /// Puts the cartridge that an iNES file describes into the slot. On an
    /// error the bus stays as it was.
    pub fn load_rom(&mut self, rom: Vec<u8>) -> (r: Result<(), NesError>)
        requires
            old(self).wf(),
        ensures
            final(self).wf(),
            r.is_ok() <==> rom_well_formed(rom@) && mapper_supported(header_of(rom@).mapper_number),
            !rom_well_formed(rom@) ==> r == Err::<(), NesError>(NesError::MalformedRom),
            rom_well_formed(rom@) && !mapper_supported(header_of(rom@).mapper_number) ==> r == Err::<
                (),
                NesError,
            >(NesError::UnsupportedMapper(header_of(rom@).mapper_number)),
            r.is_ok() ==> final(self)@ == (BusView { mapper: mapper_view_of(rom@), ..old(self)@ }),
            r.is_err() ==> final(self)@ == old(self)@,
    {
        match create_mapper(rom.as_slice()) {
            Ok(m) => {
                self.mapper = m;
                Ok(())
            },
            Err(e) => Err(e),
        }
    }

    /// The byte at PPU address `addr` (14-bit PPU address space).
    pub fn ppu_read(&self, addr: u16) -> (r: u8)
        requires
            self.wf(),
        ensures
            r == self@.ppu_value(addr),
    {
        let a = addr & 0x3FFF;
        if a < 0x2000 {
            self.mapper.read_chr_rom(a)
        } else if a < 0x3F00 {
            self.nametable.read(mirrored_nametable_addr(self.mapper.ppu_mirror_mode(), a))
        } else {
            self.palettes.read(a)
        }
    }

    /// Writes `data` at PPU address `addr` (14-bit PPU address space).
    pub fn ppu_write(&mut self, addr: u16, data: u8)
        requires
            old(self).wf(),
        ensures
            final(self).wf(),
            final(self)@ == old(self)@.after_ppu_write(addr, data),
    {
        let a = addr & 0x3FFF;
        if a < 0x2000 {
            self.mapper.write_chr_rom(a, data);
        } else if a < 0x3F00 {
            let n = mirrored_nametable_addr(self.mapper.ppu_mirror_mode(), a);
            self.nametable.write(n, data);
        } else {
            self.palettes.write(a, data);
        }
    }

    /// A CPU read without side effects, for debuggers and disassembly.
    pub fn cpu_read_debug(&self, addr: u16) -> (r: u8)
        requires
            self.wf(),
        ensures
            r == self@.peek(addr),
    {
        if addr <= 0x1FFF {
            self.cpu_ram.read(addr)
        } else if addr <= 0x3FFF {
            let slot = addr & 0x0007;
            if slot == 2 {
                if self.ppustatus_racing {
                    self.registers.ppustatus & 0x7F
                } else {
                    self.registers.ppustatus
                }
            } else if slot == 4 {
                let a = self.oam.oam_addr;
                assert(a & 0xFF == a) by (bit_vector)
                    requires a < 0x100;
                self.oam.read(a)
            } else if slot == 7 {
                let a = self.vram_addr & 0x3FFF;
                if a < 0x3F00 {
                    self.vram_buffer
                } else {
                    let v = self.vram_addr;
                    assert((v & 0x3FFF) & 0x3FFF == v & 0x3FFF) by (bit_vector);
                    self.ppu_read(a)
                }
            } else {
                self.registers.read(addr)
            }
        } else if addr <= 0x401F {
            self.apu_io_registers.read_debug(addr)
        } else if addr <= 0x5FFF {
            0
        } else if addr <= 0x7FFF {
            self.mapper.read_prg_ram(addr)
        } else {
            self.mapper.read_prg_rom(addr)
        }
    }

    /// The VRAM address after a `$2007` access.
    fn next_vram_addr(&self) -> (r: u16)
        ensures
            r == advance_vram_addr(self.vram_addr, self.registers.ppuctrl),
    {
        let inc: u32 = if self.registers.ppuctrl & 0x04 != 0 {
            32
        } else {
            1
        };
        ((self.vram_addr as u32 + inc) % 0x8000) as u16
    }

    /// A CPU read, with the side effects of the registers it touches.
    pub fn cpu_read(&mut self, addr: u16) -> (r: u8)
        requires
            old(self).wf(),
        ensures
            final(self).wf(),
            r == old(self)@.peek(addr),
            final(self)@ == old(self)@.after_read(addr),
    {
        if addr <= 0x1FFF {
            self.cpu_ram.read(addr)
        } else if addr <= 0x3FFF {
            let slot = addr & 0x0007;
            if slot == 2 {
                let status = self.registers.ppustatus;
                let out = if self.ppustatus_racing {
                    status & 0x7F
                } else {
                    status
                };
                self.registers.ppustatus = status & 0x7F;
                self.write_toggle = false;
                if self.ppustatus_racing {
                    self.vblank_suppressed = true;
                }
                out
            } else if slot == 4 {
                let a = self.oam.oam_addr;
                assert(a & 0xFF == a) by (bit_vector)
                    requires a < 0x100;
                let out = self.oam.read(a);
                self.oam.oam_addr = (a + 1) % 0x100;
                out
            } else if slot == 7 {
                let v = self.vram_addr;
                let a = v & 0x3FFF;
                assert((v & 0x3FFF) & 0x3FFF == v & 0x3FFF) by (bit_vector);
                let out;
                if a < 0x3F00 {
                    out = self.vram_buffer;
                    self.vram_buffer = self.ppu_read(a);
                } else {
                    out = self.ppu_read(a);
                    self.vram_buffer = self.ppu_read(a - 0x1000);
                }
                self.vram_addr = self.next_vram_addr();
                out
            } else {
                self.registers.read(addr)
            }
        } else if addr <= 0x401F {
            self.apu_io_registers.read(addr)
        } else if addr <= 0x5FFF {
            0
        } else if addr <= 0x7FFF {
            self.mapper.read_prg_ram(addr)
        } else {
            self.mapper.read_prg_rom(addr)
        }
    }

    /// A CPU write to `$2000-$3FFF`.
    fn write_register(&mut self, addr: u16, data: u8)
        requires
            old(self).wf(),
            0x2000 <= addr <= 0x3FFF,
        ensures
            final(self).wf(),
            final(self)@ == old(self)@.after_register_write(addr, data),
    {
        let slot = addr & 0x0007;
        self.registers.write(addr, data);
        let t = self.temp_addr;
        if slot == 0 {
            self.temp_addr = (t & 0x73FF) | (((data & 0x03) as u16) << 10u16);
        } else if slot == 3 {
            self.oam.oam_addr = data as u16;
        } else if slot == 4 {
            let a = self.oam.oam_addr;
            assert(a & 0xFF == a) by (bit_vector)
                requires a < 0x100;
            self.oam.write(a, data);
            self.oam.oam_addr = (a + 1) % 0x100;
        } else if slot == 5 {
            if !self.write_toggle {
                self.temp_addr = (t & 0x7FE0) | ((data >> 3u8) as u16);
                self.fine_x = data & 0x07;
                self.write_toggle = true;
            } else {
                self.temp_addr = (t & 0x0C1F) | (((data & 0xF8) as u16) << 2u16) | (((data & 0x07)
                    as u16) << 12u16);
                self.write_toggle = false;
            }
        } else if slot == 6 {
            if !self.write_toggle {
                self.temp_addr = (t & 0x00FF) | (((data & 0x3F) as u16) << 8u16);
                self.write_toggle = true;
            } else {
                let t2 = (t & 0x7F00) | (data as u16);
                self.temp_addr = t2;
                self.vram_addr = t2;
                self.write_toggle = false;
            }
        } else if slot == 7 {
            let v = self.vram_addr;
            let next = self.next_vram_addr();
            self.ppu_write(v, data);
            self.vram_addr = next;
        }
    }

    /// OAM DMA: copies page `page` into OAM, starting at the OAM address.
    fn oam_dma(&mut self, page: u8)
        requires
            old(self).wf(),
        ensures
            final(self).wf(),
            final(self)@ == (BusView { oam: old(self)@.dma_oam(page), ..old(self)@ }),
    {
        let start = self.oam.oam_addr;
        let mut copied: Vec<u8> = Vec::new();
        let mut k: u16 = 0;
        while k < 256
            invariant
                self.wf(),
                start == self.oam.oam_addr,
                k <= 256,
                copied@ == Seq::new(
                    k as nat,
                    |j: int|
                        self@.peek((page as int * 256 + (j - start as int + 256) % 256) as u16),
                ),
            decreases 256 - k,
        {
            let src = (page as u16) * 256 + (k + 256 - start) % 256;
            copied.push(self.cpu_read_debug(src));
            k = k + 1;
        }
        assert(copied@ =~= self@.dma_oam(page));
        self.oam.oam = copied;
    }

    /// A CPU write, with the side effects of the registers it touches.
    pub fn cpu_write(&mut self, addr: u16, data: u8)
        requires
            old(self).wf(),
        ensures
            final(self).wf(),
            final(self)@ == old(self)@.after_write(addr, data),
    {
        if addr <= 0x1FFF {
            self.cpu_ram.write(addr, data);
        } else if addr <= 0x3FFF {
            self.write_register(addr, data);
        } else if addr == 0x4014 {
            self.oam_dma(data);
            self.registers.oamdma = data;
        } else if addr <= 0x401F {
            self.apu_io_registers.write(addr, data);
        } else if addr <= 0x5FFF {
        } else if addr <= 0x7FFF {
            self.mapper.write_prg_ram(addr, data);
        } else {
            self.mapper.write_prg_rom(addr, data);
        }
    }

    /// A read of the APU register window, without side effects.
    pub fn apu_read(&self, addr: u16) -> (r: u8)
        requires
            self.wf(),
        ensures
            r == self@.apu.value_at(addr),
    {
        self.apu_io_registers.read_debug(addr)
    }

    /// A write to the APU register window.
    pub fn apu_write(&mut self, addr: u16, data: u8)
        requires
            old(self).wf(),
        ensures
            final(self).wf(),
            final(self)@ == (BusView { apu: old(self)@.apu.after_write(addr, data), ..old(self)@ }),
    {
        self.apu_io_registers.write(addr, data);
    }

    /// Serves one request: reads and writes go through the CPU decoder, the
    /// interrupt-status requests read or set the interrupt lines. A write
    /// without a value fails and changes nothing.
    pub fn handle(&mut self, msg: RWMessage) -> (r: RWResult)
        requires
            old(self).wf(),
        ensures
            final(self).wf(),
            match msg.operate_type {
                RWType::Read | RWType::ReadReg => r == (RWResult {
                    data: Some(old(self)@.peek(msg.address)),
                    is_success: true,
                }) && final(self)@ == old(self)@.after_read(msg.address),
                RWType::Write | RWType::WriteReg => match msg.value {
                    Some(v) => r == (RWResult { data: None, is_success: true }) && final(self)@
                        == old(self)@.after_write(msg.address, v),
                    None => r == (RWResult { data: None, is_success: false }) && final(self)@ == old(
                        self,
                    )@,
                },
                RWType::ReadInerruptStatus => r == (RWResult {
                    data: Some(old(self)@.interrupt_status),
                    is_success: true,
                }) && final(self)@ == old(self)@,
                RWType::WriteInerruptStatus => match msg.value {
                    Some(v) => r == (RWResult { data: None, is_success: true }) && final(self)@ == (
                    BusView { interrupt_status: v, ..old(self)@ }),
                    None => r == (RWResult { data: None, is_success: false }) && final(self)@ == old(
                        self,
                    )@,
                },
            },
    {
        match msg.operate_type {
            RWType::Read | RWType::ReadReg => {
                let v = self.cpu_read(msg.address);
                RWResult { data: Some(v), is_success: true }
            },
            RWType::Write | RWType::WriteReg => match msg.value {
                Some(v) => {
                    self.cpu_write(msg.address, v);
                    RWResult { data: None, is_success: true }
                },
                None => RWResult { data: None, is_success: false },
            },
            RWType::ReadInerruptStatus => RWResult { data: Some(self.interrupt_status), is_success: true },
            RWType::WriteInerruptStatus => match msg.value {
                Some(v) => {
                    self.interrupt_status = v;
                    RWResult { data: None, is_success: true }
                },
                None => RWResult { data: None, is_success: false },
            },
        }
    }
}

/// Writing `v` to a RAM address `a` in `$0000-$1FFF` and then reading
/// `(a & 0x07FF) | k * 0x800`, for any of the four mirrors `k`, returns `v`.
pub proof fn lemma_ram_mirror(s: BusView, a: u16, v: u8, k: u16)
    requires
        s.wf(),
        a <= 0x1FFF,
        k < 4,
    ensures
        s.after_write(a, v).peek(((a & 0x07FF) | (k * 0x800) as u16) as u16) == v,
{
    let m: u16 = ((a & 0x07FF) | (k * 0x800) as u16) as u16;
    assert(m <= 0x1FFF && (m & 0x07FF) == (a & 0x07FF) && (a & 0x07FF) < 0x800) by (bit_vector)
        requires
            a <= 0x1FFF,
            k < 4,
            m == ((a & 0x07FF) | (k * 0x800) as u16) as u16,
    ;
}

/// Every address in `$2000-$3FFF` behaves as `0x2000 + (a & 7)`: the same
/// value is read, and reads and writes have the same effects.
pub proof fn lemma_register_mirror(s: BusView, a: u16, data: u8)
    requires
        0x2000 <= a <= 0x3FFF,
    ensures
        s.peek(a) == s.peek((0x2000 + (a & 7)) as u16),
        s.after_read(a) == s.after_read((0x2000 + (a & 7)) as u16),
        s.after_write(a, data) == s.after_write((0x2000 + (a & 7)) as u16, data),
{
    let m: u16 = (0x2000 + (a & 7)) as u16;
    assert(0x2000 <= m <= 0x2007 && (m & 7) == (a & 7)) by (bit_vector)
        requires
            0x2000 <= a <= 0x3FFF,
            m == (0x2000 + (a & 7)) as u16,
    ;
}

/// A palette write at `$3F10/$14/$18/$1C` is read back at
/// `$3F00/$04/$08/$0C`, and a write there is read back at the alias.
pub proof fn lemma_bus_palette_alias(s: BusView, k: u16, v: u8)
    requires
        s.wf(),
        k < 4,
    ensures
        s.after_ppu_write((0x3F10 + 4 * k) as u16, v).ppu_value((0x3F00 + 4 * k) as u16) == v,
        s.after_ppu_write((0x3F00 + 4 * k) as u16, v).ppu_value((0x3F10 + 4 * k) as u16) == v,
{
    let hi: u16 = (0x3F10 + 4 * k) as u16;
    let lo: u16 = (0x3F00 + 4 * k) as u16;
    assert((hi & 0x3FFF) == hi && (lo & 0x3FFF) == lo && (lo & 0x1F) < 0x20) by (bit_vector)
        requires
            k < 4,
            hi == 0x3F10 + 4 * k,
            lo == 0x3F00 + 4 * k,
    ;
    crate::bus::palettes::lemma_palette_alias(k);
}

} // verus!
