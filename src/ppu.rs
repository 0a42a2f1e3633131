//! The picture processing unit: the scanline/dot timing grid, vertical
//! blank and its NMI, and a scanline renderer.
use vstd::prelude::*;
use crate::bus::bus::{Bus, BusView, NMI_LINE};
use crate::bus::oam::OAM_SIZE;
use crate::bus::cpu_ram::zeroed;

verus! {

pub const SCREEN_WIDTH: usize = 256;
pub const SCREEN_HEIGHT: usize = 240;
pub const FRAME_SIZE: usize = 256 * 240;
/// Dots per scanline and scanlines per frame.
pub const DOTS_PER_LINE: u16 = 341;
pub const LINES_PER_FRAME: u16 = 262;

/// The loopy scroll registers, as the bus holds them.
#[derive(Debug, Clone, Copy, PartialEq, Eq, Structural)]
pub struct Registers {
    /// `v`: the current VRAM address (15 bits).
    pub current_vram_address: u16,
    /// `t`: the temporary VRAM address (15 bits).
    pub temporary_vram_address: u16,
    /// `x`: fine X scroll (3 bits).
    pub fine_x_scroll: u8,
    /// `w`: the `$2005`/`$2006` write toggle.
    pub write_toggle: bool,
}

/// The sprites found on one scanline.
pub struct SpriteEvaluationState {
    /// OAM indices of the first eight sprites on the line, in OAM order.
    pub sprites: Vec<u8>,
    /// How many sprites are on the line in all.
    pub sprite_count: u8,
    /// True when more than eight are.
    pub overflow: bool,
}

// ---------------------------------------------------------------- spec model

/// Horizontal scroll in pixels, over the two nametables side by side (0 to 511).
pub open spec fn scroll_x(b: BusView) -> int {
    ((b.temp_addr as int / 1024) % 2) * 256 + (b.temp_addr as int % 32) * 8 + b.fine_x as int % 8
}

/// Vertical scroll in pixels, over the two nametables stacked (0 to 479 and beyond).
pub open spec fn scroll_y(b: BusView) -> int {
    ((b.temp_addr as int / 2048) % 2) * 240 + ((b.temp_addr as int / 32) % 32) * 8 + (b.temp_addr
        as int / 4096) % 8
}

/// Bit `bit` (0 to 7) of the two pattern planes at `addr` and `addr + 8`: a 2-bit color.
pub open spec fn pattern_color(b: BusView, addr: int, bit: u8) -> u8 {
    let lo = b.ppu_value(addr as u16);
    let hi = b.ppu_value((addr + 8) as u16);
    (((hi >> bit) & 1) * 2 + ((lo >> bit) & 1)) as u8
}

/// The background's 2-bit color and palette group at screen pixel (x, y),
/// before masking: the nametable picks the tile, the attribute table the
/// group of each 2x2-tile quad, the pattern table the pixel.
pub open spec fn bg_fetch(b: BusView, x: int, y: int) -> (u8, u8) {
    let wx = (x + scroll_x(b)) % 512;
    let wy = (y + scroll_y(b)) % 480;
    let table = wx / 256 + 2 * (wy / 240);
    let col = (wx % 256) / 8;
    let row = (wy % 240) / 8;
    let base = 0x2000 + table * 0x400;
    let tile = b.ppu_value((base + row * 32 + col) as u16);
    let attr = b.ppu_value((base + 0x3C0 + (row / 4) * 8 + col / 4) as u16);
    let shift = (((row % 4) / 2) * 4 + ((col % 4) / 2) * 2) as u8;
    let group = (attr >> shift) & 3;
    let pattern = if b.registers.ppuctrl & 0x10 != 0 {
        0x1000int
    } else {
        0int
    };
    let color = pattern_color(b, pattern + tile as int * 16 + (wy % 240) % 8, (7 - wx % 8) as u8);
    (color, group)
}

pub open spec fn sprite_height(b: BusView) -> int {
    if b.registers.ppuctrl & 0x20 != 0 {
        16
    } else {
        8
    }
}

/// Sprite `i` covers scanline `y`; its top row is drawn on line `Y + 1`.
pub open spec fn sprite_on_line(b: BusView, i: int, y: int) -> bool {
    let top = b.oam[4 * i] as int + 1;
    top <= y < top + sprite_height(b)
}

/// The OAM indices below `n` of the sprites on line `y`, in order.
pub open spec fn sprites_on_line(b: BusView, y: int, n: int) -> Seq<u8>
    decreases n,
{
    if n <= 0 {
        Seq::empty()
    } else if sprite_on_line(b, n - 1, y) {
        sprites_on_line(b, y, n - 1).push((n - 1) as u8)
    } else {
        sprites_on_line(b, y, n - 1)
    }
}

/// The sprites drawn on line `y`: the first eight on it.
pub open spec fn selected_sprites(b: BusView, y: int) -> Seq<u8> {
    let all = sprites_on_line(b, y, 64);
    if all.len() <= 8 {
        all
    } else {
        all.take(8)
    }
}

/// The 2-bit color of sprite `i` at pixel (x, y); 0 is transparent. Bit 6
/// of the attributes flips horizontally, bit 7 vertically; 8x16 sprites
/// take their pattern table from bit 0 of the tile index.
pub open spec fn sprite_color(b: BusView, i: int, x: int, y: int) -> u8 {
    let col0 = x - b.oam[4 * i + 3] as int;
    if !(0 <= col0 < 8) || !sprite_on_line(b, i, y) {
        0
    } else {
        let attr = b.oam[4 * i + 2];
        let tile = b.oam[4 * i + 1] as int;
        let row0 = y - (b.oam[4 * i] as int + 1);
        let h = sprite_height(b);
        let row = if attr & 0x80 != 0 {
            h - 1 - row0
        } else {
            row0
        };
        let addr = if h == 8 {
            (if b.registers.ppuctrl & 0x08 != 0 {
                0x1000int
            } else {
                0int
            }) + tile * 16 + row
        } else {
            (tile % 2) * 0x1000 + ((tile / 2) * 2 + row / 8) * 16 + row % 8
        };
        let col = if attr & 0x40 != 0 {
            7 - col0
        } else {
            col0
        };
        pattern_color(b, addr, (7 - col) as u8)
    }
}

/// The first sprite of `sel` (by position in `sel`) that is opaque at (x, y).
pub open spec fn front_sprite(b: BusView, sel: Seq<u8>, x: int, y: int) -> Option<u8>
    decreases sel.len(),
{
    if sel.len() == 0 {
        None
    } else if sprite_color(b, sel[0] as int, x, y) != 0 {
        Some(sel[0])
    } else {
        front_sprite(b, sel.drop_first(), x, y)
    }
}

pub open spec fn bg_visible(b: BusView, x: int) -> bool {
    b.registers.ppumask & 0x08 != 0 && (x >= 8 || b.registers.ppumask & 0x02 != 0)
}

pub open spec fn sprites_visible(b: BusView, x: int) -> bool {
    b.registers.ppumask & 0x10 != 0 && (x >= 8 || b.registers.ppumask & 0x04 != 0)
}

/// The palette address of pixel (x, y): an opaque sprite in front, or over
/// a transparent background, shows; else an opaque background; else the
/// backdrop color at `$3F00`.
pub open spec fn pixel_palette_addr(b: BusView, sel: Seq<u8>, x: int, y: int) -> u16 {
    let (bg, group) = if bg_visible(b, x) {
        bg_fetch(b, x, y)
    } else {
        (0u8, 0u8)
    };
    let front = if sprites_visible(b, x) {
        front_sprite(b, sel, x, y)
    } else {
        None
    };
    match front {
        Some(i) if bg == 0 || b.oam[4 * i + 2] & 0x20 == 0 => (0x3F10 + (b.oam[4 * i + 2] & 3) as int
            * 4 + sprite_color(b, i as int, x, y) as int) as u16,
        _ => if bg != 0 {
            (0x3F00 + group as int * 4 + bg as int) as u16
        } else {
            0x3F00
        },
    }
}

/// The color index (0 to 63) of pixel (x, y).
pub open spec fn pixel_value(b: BusView, sel: Seq<u8>, x: int, y: int) -> u8 {
    b.ppu_value(pixel_palette_addr(b, sel, x, y)) & 0x3F
}

/// Sprite 0 is drawn opaque over an opaque background at (x, y), x < 255.
pub open spec fn sprite_zero_hit_at(b: BusView, sel: Seq<u8>, x: int, y: int) -> bool {
    &&& 0 <= x < 255
    &&& sel.len() > 0 && sel[0] == 0
    &&& sprites_visible(b, x) && bg_visible(b, x)
    &&& sprite_color(b, 0, x, y) != 0
    &&& bg_fetch(b, x, y).0 != 0
}

/// `b` differs from `a` at most in what the PPU drives on the bus: the
/// PPUSTATUS byte, the NMI line, and the race and suppression flags. The
/// RESET line is never touched.
pub open spec fn ppu_owned_change(a: BusView, b: BusView) -> bool {
    &&& b == (BusView {
        registers: crate::bus::registers::Registers {
            ppustatus: b.registers.ppustatus,
            ..a.registers
        },
        interrupt_status: b.interrupt_status,
        ppustatus_racing: b.ppustatus_racing,
        vblank_suppressed: b.vblank_suppressed,
        ..a
    })
    &&& b.interrupt_status & 0x04 == a.interrupt_status & 0x04
}

/// Dots in one frame.
pub const FRAME_DOTS: u32 = 89342;

/// The index of (`line`, `dot`) among the dots of a frame.
pub open spec fn position_index(line: u16, dot: u16) -> int {
    line as int * 341 + dot as int
}

/// The (scanline, dot) after (`line`, `dot`).
pub open spec fn next_position(line: u16, dot: u16) -> (u16, u16) {
    if dot + 1 < DOTS_PER_LINE {
        (line, (dot + 1) as u16)
    } else if line + 1 < LINES_PER_FRAME {
        ((line + 1) as u16, 0)
    } else {
        (0, 0)
    }
}

/// The vertical-blank flag after the PPU works at (`line`, `dot`): set at
/// scanline 241 dot 1 (unless a racing `$2002` read suppressed it),
/// cleared at scanline 261 dot 1.
pub open spec fn vblank_after(flag: bool, suppressed: bool, line: u16, dot: u16) -> bool {
    if line == 241 && dot == 1 {
        flag || !suppressed
    } else if line == 261 && dot == 1 {
        false
    } else {
        flag
    }
}

/// The status byte after a rendered line: sprite-0 hit (bit 6) and sprite
/// overflow (bit 5) are set when they happened, never cleared here.
pub open spec fn render_status(st: u8, hit: bool, overflow: bool) -> u8 {
    let s1 = if hit {
        st | 0x40
    } else {
        st
    };
    if overflow {
        s1 | 0x20
    } else {
        s1
    }
}

/// Sprite 0 hits somewhere on line `y`.
pub open spec fn scanline_hit(b: BusView, y: int) -> bool {
    exists|x: int| 0 <= x < 256 && sprite_zero_hit_at(b, selected_sprites(b, y), x, y)
}

/// The bus after line `y` is drawn: only PPUSTATUS changes.
pub open spec fn rendered_bus(b: BusView, y: int) -> BusView {
    BusView {
        registers: crate::bus::registers::Registers {
            ppustatus: render_status(
                b.registers.ppustatus,
                scanline_hit(b, y),
                sprites_on_line(b, y, 64).len() > 8,
            ),
            ..b.registers
        },
        ..b
    }
}

/// The frame after line `y` is drawn from bus `b`.
pub open spec fn rendered_frame(frame: Seq<u8>, b: BusView, y: int) -> Seq<u8> {
    Seq::new(
        frame.len(),
        |k: int|
            if y * 256 <= k < y * 256 + 256 {
                pixel_value(b, selected_sprites(b, y), k - y * 256, y)
            } else {
                frame[k]
            },
    )
}

/// There are at most `n` sprites below index `n`.
pub proof fn lemma_sprites_on_line_len(b: BusView, y: int, n: int)
    ensures
        sprites_on_line(b, y, n).len() <= if n < 0 {
            0
        } else {
            n
        },
        forall|k: int|
            0 <= k < sprites_on_line(b, y, n).len() ==> (#[trigger] sprites_on_line(b, y, n)[k]) < n,
    decreases n,
{
    if n > 0 {
        lemma_sprites_on_line_len(b, y, n - 1);
    }
}

// ---------------------------------------------------------------- execution

/// Computes `pattern_color`.
fn pattern_color_at(bus: &Bus, addr: u32, bit: u8) -> (r: u8)
    requires
        bus.wf(),
        addr + 8 < 0x10000,
        bit < 8,
    ensures
        r == pattern_color(bus@, addr as int, bit),
        r <= 3,
{
    let lo = bus.ppu_read(addr as u16);
    let hi = bus.ppu_read((addr + 8) as u16);
    let h = (hi >> bit) & 1;
    let l = (lo >> bit) & 1;
    assert(h <= 1 && l <= 1) by (bit_vector)
        requires
            h == (hi >> bit) & 1,
            l == (lo >> bit) & 1,
    ;
    h * 2 + l
}

/// Computes `bg_fetch`.
fn bg_fetch_at(bus: &Bus, x: u32, y: u32) -> (r: (u8, u8))
    requires
        bus.wf(),
        x < 256,
        y < 240,
    ensures
        r == bg_fetch(bus@, x as int, y as int),
        r.0 <= 3,
        r.1 <= 3,
{
    let t = bus.temp_addr as u32;
    let sx = ((t / 1024) % 2) * 256 + (t % 32) * 8 + (bus.fine_x as u32) % 8;
    let sy = ((t / 2048) % 2) * 240 + ((t / 32) % 32) * 8 + (t / 4096) % 8;
    let wx = (x + sx) % 512;
    let wy = (y + sy) % 480;
    let table = wx / 256 + 2 * (wy / 240);
    let col = (wx % 256) / 8;
    let row = (wy % 240) / 8;
    let base = 0x2000 + table * 0x400;
    let tile = bus.ppu_read((base + row * 32 + col) as u16);
    let attr = bus.ppu_read((base + 0x3C0 + (row / 4) * 8 + col / 4) as u16);
    let shift = (((row % 4) / 2) * 4 + ((col % 4) / 2) * 2) as u8;
    let group = (attr >> shift) & 3;
    assert(group <= 3) by (bit_vector)
        requires group == (attr >> shift) & 3;
    let pattern: u32 = if bus.registers.ppuctrl & 0x10 != 0 {
        0x1000
    } else {
        0
    };
    let color = pattern_color_at(
        bus,
        pattern + tile as u32 * 16 + (wy % 240) % 8,
        (7 - wx % 8) as u8,
    );
    (color, group)
}

/// Computes `sprite_on_line`.
fn on_line_at(bus: &Bus, i: u32, y: u32) -> (r: bool)
    requires
        bus.wf(),
        i < 64,
    ensures
        r == sprite_on_line(bus@, i as int, y as int),
{
    let top = bus.oam.oam[(4 * i) as usize] as u32 + 1;
    let h: u32 = if bus.registers.ppuctrl & 0x20 != 0 {
        16
    } else {
        8
    };
    top <= y && y < top + h
}

/// Computes `sprite_color`.
fn sprite_color_at(bus: &Bus, i: u32, x: u32, y: u32) -> (r: u8)
    requires
        bus.wf(),
        i < 64,
        x < 256,
        y < 240,
    ensures
        r == sprite_color(bus@, i as int, x as int, y as int),
        r <= 3,
{
    let ox = bus.oam.oam[(4 * i + 3) as usize] as u32;
    if x < ox || x >= ox + 8 || !on_line_at(bus, i, y) {
        return 0;
    }
    let ctrl = bus.registers.ppuctrl;
    let attr = bus.oam.oam[(4 * i + 2) as usize];
    let tile = bus.oam.oam[(4 * i + 1) as usize] as u32;
    let row0 = y - (bus.oam.oam[(4 * i) as usize] as u32 + 1);
    let h: u32 = if ctrl & 0x20 != 0 {
        16
    } else {
        8
    };
    let row = if attr & 0x80 != 0 {
        h - 1 - row0
    } else {
        row0
    };
    let addr = if h == 8 {
        (if ctrl & 0x08 != 0 {
            0x1000u32
        } else {
            0u32
        }) + tile * 16 + row
    } else {
        (tile % 2) * 0x1000 + ((tile / 2) * 2 + row / 8) * 16 + row % 8
    };
    let col0 = x - ox;
    let col = if attr & 0x40 != 0 {
        7 - col0
    } else {
        col0
    };
    pattern_color_at(bus, addr, (7 - col) as u8)
}

/// Computes `front_sprite`.
fn front_sprite_at(bus: &Bus, sel: &Vec<u8>, x: u32, y: u32) -> (r: Option<u8>)
    requires
        bus.wf(),
        x < 256,
        y < 240,
        forall|k: int| 0 <= k < sel@.len() ==> sel@[k] < 64,
    ensures
        r == front_sprite(bus@, sel@, x as int, y as int),
{
    let mut k: usize = 0;
    assert(sel@.subrange(0, sel@.len() as int) =~= sel@);
    while k < sel.len()
        invariant
            bus.wf(),
            x < 256,
            y < 240,
            k <= sel@.len(),
            forall|j: int| 0 <= j < sel@.len() ==> sel@[j] < 64,
            front_sprite(bus@, sel@, x as int, y as int) == front_sprite(
                bus@,
                sel@.subrange(k as int, sel@.len() as int),
                x as int,
                y as int,
            ),
        decreases sel@.len() - k,
    {
        let ghost rest = sel@.subrange(k as int, sel@.len() as int);
        assert(rest[0] == sel@[k as int]);
        assert(rest.drop_first() =~= sel@.subrange(k as int + 1, sel@.len() as int));
        if sprite_color_at(bus, sel[k] as u32, x, y) != 0 {
            return Some(sel[k]);
        }
        k = k + 1;
    }
    None
}

/// Finds the sprites on scanline `y`.
pub fn evaluate_sprites(bus: &Bus, y: u32) -> (r: SpriteEvaluationState)
    requires
        bus.wf(),
    ensures
        r.sprites@ == selected_sprites(bus@, y as int),
        r.sprite_count == sprites_on_line(bus@, y as int, 64).len(),
        r.overflow == (sprites_on_line(bus@, y as int, 64).len() > 8),
{
    let mut sprites: Vec<u8> = Vec::new();
    let mut count: u8 = 0;
    let mut i: u32 = 0;
    while i < 64
        invariant
            bus.wf(),
            i <= 64,
            count as int == sprites_on_line(bus@, y as int, i as int).len(),
            sprites@ == if sprites_on_line(bus@, y as int, i as int).len() <= 8 {
                sprites_on_line(bus@, y as int, i as int)
            } else {
                sprites_on_line(bus@, y as int, i as int).take(8)
            },
        decreases 64 - i,
    {
        proof {
            lemma_sprites_on_line_len(bus@, y as int, i as int);
        }
        let ghost before = sprites_on_line(bus@, y as int, i as int);
        if on_line_at(bus, i, y) {
            assert(sprites_on_line(bus@, y as int, i as int + 1) == before.push(i as u8));
            if sprites.len() < 8 {
                sprites.push(i as u8);
            } else {
                assert(before.push(i as u8).take(8) =~= before.take(8));
            }
            count = count + 1;
        }
        i = i + 1;
    }
    SpriteEvaluationState { sprites, sprite_count: count, overflow: count > 8 }
}

/// The color index of pixel (x, y), and whether sprite 0 hits there.
fn pixel_at(bus: &Bus, sel: &Vec<u8>, x: u32, y: u32) -> (r: (u8, bool))
    requires
        bus.wf(),
        x < 256,
        y < 240,
        forall|k: int| 0 <= k < sel@.len() ==> sel@[k] < 64,
    ensures
        r.0 == pixel_value(bus@, sel@, x as int, y as int),
        r.1 == sprite_zero_hit_at(bus@, sel@, x as int, y as int),
{
    let mask = bus.registers.ppumask;
    let bg_on = mask & 0x08 != 0 && (x >= 8 || mask & 0x02 != 0);
    let sprites_on = mask & 0x10 != 0 && (x >= 8 || mask & 0x04 != 0);
    let (bg, group) = if bg_on {
        bg_fetch_at(bus, x, y)
    } else {
        (0u8, 0u8)
    };
    let front = if sprites_on {
        front_sprite_at(bus, sel, x, y)
    } else {
        None
    };
    let backdrop: u16 = if bg != 0 {
        0x3F00 + group as u16 * 4 + bg as u16
    } else {
        0x3F00
    };
    let addr: u16 = match front {
        Some(i) => {
            proof {
                front_sprite_in(bus@, sel@, x as int, y as int);
            }
            let attr = bus.oam.oam[(4 * i as u32 + 2) as usize];
            if bg == 0 || attr & 0x20 == 0 {
                0x3F10 + (attr & 3) as u16 * 4 + sprite_color_at(bus, i as u32, x, y) as u16
            } else {
                backdrop
            }
        },
        None => backdrop,
    };
    let value = bus.ppu_read(addr) & 0x3F;
    let hit = x < 255 && sel.len() > 0 && sel[0] == 0 && sprites_on && bg_on && sprite_color_at(
        bus,
        0,
        x,
        y,
    ) != 0 && bg != 0;
    (value, hit)
}

/// The sprite `front_sprite` finds is one of `sel`.
proof fn front_sprite_in(b: BusView, sel: Seq<u8>, x: int, y: int)
    ensures
        front_sprite(b, sel, x, y) matches Some(i) ==> exists|k: int| 0 <= k < sel.len() && sel[k] == i,
    decreases sel.len(),
{
    if sel.len() > 0 && sprite_color(b, sel[0] as int, x, y) == 0 {
        front_sprite_in(b, sel.drop_first(), x, y);
        if front_sprite(b, sel, x, y) is Some {
            let i = front_sprite(b, sel, x, y)->Some_0;
            let k = choose|k: int| 0 <= k < sel.drop_first().len() && sel.drop_first()[k] == i;
            assert(sel[k + 1] == i);
        }
    }
}

/// The PPU: the position on the timing grid and the frame being drawn.
pub struct Ppu {
    /// Dots run since reset.
    pub cycles: u64,
    /// 0 to 261: 0-239 visible, 240 post-render, 241-260 vertical blank, 261 pre-render.
    pub scanline: u16,
    /// 0 to 340.
    pub dot: u16,
    /// 256 x 240 color indices (0 to 63), row by row.
    pub frame_color_index_cache: Vec<u8>,
    /// Set when a frame is complete (at the start of vertical blank).
    pub frame_ready: bool,
}

/// What the debugger shows of the PPU.
#[derive(Debug, Clone, Copy, PartialEq, Eq, Structural)]
pub struct PpuState {
    pub scanline: u16,
    pub dot: u16,
    pub cycles: u64,
    pub ppuctrl: u8,
    pub ppumask: u8,
    pub ppustatus: u8,
}

/// The bus after the PPU's work at one dot, outside rendering: the
/// vertical-blank flag per `vblank_after`, the NMI line following
/// (vertical blank and NMI enable), the race flag raised for the dot just
/// before vertical blank starts.
pub open spec fn dot_bus(b: BusView, line: u16, dot: u16) -> BusView {
    let st = b.registers.ppustatus;
    let flag = vblank_after(st & 0x80 != 0, b.vblank_suppressed, line, dot);
    let status = if line == 241 && dot == 1 {
        if flag {
            st | 0x80
        } else {
            st
        }
    } else if line == 261 && dot == 1 {
        st & 0x1F
    } else {
        st
    };
    let nmi = status & 0x80 != 0 && b.registers.ppuctrl & 0x80 != 0;
    let next = next_position(line, dot);
    BusView {
        registers: crate::bus::registers::Registers { ppustatus: status, ..b.registers },
        interrupt_status: if nmi {
            b.interrupt_status | NMI_LINE
        } else {
            b.interrupt_status & !NMI_LINE
        },
        ppustatus_racing: next.0 == 241 && next.1 == 1,
        vblank_suppressed: if line == 241 && dot == 1 {
            false
        } else {
            b.vblank_suppressed
        },
        ..b
    }
}

impl Ppu {
    pub open spec fn wf(&self) -> bool {
        &&& self.scanline < LINES_PER_FRAME
        &&& self.dot < DOTS_PER_LINE
        &&& self.frame_color_index_cache@.len() == FRAME_SIZE
    }

    pub fn new() -> (r: Self)
        ensures
            r.wf(),
            r.scanline == 0 && r.dot == 0 && r.cycles == 0 && !r.frame_ready,
            r.frame_color_index_cache@ == Seq::new(FRAME_SIZE as nat, |i: int| 0u8),
    {
        Ppu {
            cycles: 0,
            scanline: 0,
            dot: 0,
            frame_color_index_cache: zeroed(FRAME_SIZE),
            frame_ready: false,
        }
    }

    /// Back to the top of the frame.
    pub fn reset(&mut self)
        ensures
            final(self).wf(),
            final(self).scanline == 0 && final(self).dot == 0 && final(self).cycles == 0,
            !final(self).frame_ready,
            final(self).frame_color_index_cache@ == Seq::new(FRAME_SIZE as nat, |i: int| 0u8),
    {
        self.cycles = 0;
        self.scanline = 0;
        self.dot = 0;
        self.frame_ready = false;
        self.frame_color_index_cache = zeroed(FRAME_SIZE);
    }

    pub fn hard_reset(&mut self)
        ensures
            final(self).wf(),
            final(self).scanline == 0 && final(self).dot == 0 && final(self).cycles == 0,
            !final(self).frame_ready,
            final(self).frame_color_index_cache@ == Seq::new(FRAME_SIZE as nat, |i: int| 0u8),
    {
        self.reset();
    }

    /// Position, cycle count and the registers the debugger shows.
    pub fn get_current_log(&self, bus: &Bus) -> (r: PpuState)
        ensures
            r == (PpuState {
                scanline: self.scanline,
                dot: self.dot,
                cycles: self.cycles,
                ppuctrl: bus.registers.ppuctrl,
                ppumask: bus.registers.ppumask,
                ppustatus: bus.registers.ppustatus,
            }),
    {
        PpuState {
            scanline: self.scanline,
            dot: self.dot,
            cycles: self.cycles,
            ppuctrl: bus.registers.ppuctrl,
            ppumask: bus.registers.ppumask,
            ppustatus: bus.registers.ppustatus,
        }
    }

    /// The scroll registers `v`, `t`, `x` and `w`.
    pub fn scroll_registers(bus: &Bus) -> (r: Registers)
        ensures
            r == (Registers {
                current_vram_address: bus.vram_addr,
                temporary_vram_address: bus.temp_addr,
                fine_x_scroll: bus.fine_x,
                write_toggle: bus.write_toggle,
            }),
    {
        Registers {
            current_vram_address: bus.vram_addr,
            temporary_vram_address: bus.temp_addr,
            fine_x_scroll: bus.fine_x,
            write_toggle: bus.write_toggle,
        }
    }

    /// Draws scanline `y` into the frame, and records sprite-0 hit and
    /// sprite overflow in PPUSTATUS.
    pub fn render_scanline(&mut self, bus: &mut Bus, y: u16)
        requires
            old(self).wf(),
            old(bus).wf(),
            y < 240,
        ensures
            final(self).wf(),
            final(self).scanline == old(self).scanline,
            final(self).dot == old(self).dot,
            final(self).cycles == old(self).cycles,
            final(self).frame_ready == old(self).frame_ready,
            final(self).frame_color_index_cache@ == rendered_frame(
                old(self).frame_color_index_cache@,
                old(bus)@,
                y as int,
            ),
            final(bus).wf(),
            final(bus)@ == rendered_bus(old(bus)@, y as int),
    {
        let eval = evaluate_sprites(bus, y as u32);
        proof {
            lemma_sprites_on_line_len(bus@, y as int, 64);
        }
        let ghost b = bus@;
        let ghost sel = eval.sprites@;
        assert forall|k: int| 0 <= k < sel.len() implies sel[k] < 64 by {
            if sprites_on_line(b, y as int, 64).len() > 8 {
                assert(sel[k] == sprites_on_line(b, y as int, 64)[k]);
            }
        }
        let row_start: usize = y as usize * 256;
        let mut hit = false;
        let mut x: u32 = 0;
        while x < 256
            invariant
                bus.wf(),
                bus@ == b,
                sel == eval.sprites@,
                y < 240,
                row_start == y * 256,
                x <= 256,
                forall|k: int| 0 <= k < sel.len() ==> sel[k] < 64,
                self.wf(),
                self.scanline == old(self).scanline,
                self.dot == old(self).dot,
                self.cycles == old(self).cycles,
                self.frame_ready == old(self).frame_ready,
                forall|k: int|
                    0 <= k < FRAME_SIZE ==> #[trigger] self.frame_color_index_cache@[k] == if y
                        * 256 <= k < y * 256 + x {
                        pixel_value(b, sel, k - y * 256, y as int)
                    } else {
                        old(self).frame_color_index_cache@[k]
                    },
                hit == exists|j: int| 0 <= j < x && sprite_zero_hit_at(b, sel, j, y as int),
            decreases 256 - x,
        {
            let (value, h) = pixel_at(bus, &eval.sprites, x, y as u32);
            self.frame_color_index_cache.set(row_start + x as usize, value);
            proof {
                if h {
                    assert(sprite_zero_hit_at(b, sel, x as int, y as int));
                }
                if hit {
                    let j = choose|j: int| 0 <= j < x && sprite_zero_hit_at(b, sel, j, y as int);
                    assert(0 <= j < x + 1);
                }
            }
            hit = hit || h;
            x = x + 1;
        }
        let mut status = bus.registers.ppustatus;
        if hit {
            status = status | 0x40;
        }
        if eval.overflow {
            status = status | 0x20;
        }
        bus.registers.ppustatus = status;
        assert(self.frame_color_index_cache@ =~= rendered_frame(
            old(self).frame_color_index_cache@,
            b,
            y as int,
        ));
    }

    /// One PPU dot: draws the visible line at dot 256, sets the
    /// vertical-blank flag at scanline 241 dot 1 and clears it (with
    /// sprite-0 hit and overflow) at scanline 261 dot 1, keeps the NMI line
    /// equal to vertical blank and NMI enable, then moves to the next dot.
    pub fn step(&mut self, bus: &mut Bus)
        requires
            old(self).wf(),
            old(bus).wf(),
            old(self).cycles < u64::MAX,
        ensures
            final(self).wf(),
            final(bus).wf(),
            (final(self).scanline, final(self).dot) == next_position(old(self).scanline, old(self).dot),
            position_index(final(self).scanline, final(self).dot) == (position_index(
                old(self).scanline,
                old(self).dot,
            ) + 1) % (FRAME_DOTS as int),
            final(self).cycles == old(self).cycles + 1,
            final(bus)@.interrupt_status & 0x04 == old(bus)@.interrupt_status & 0x04,
            ppu_owned_change(old(bus)@, final(bus)@),
            final(self).frame_ready == (old(self).frame_ready || (old(self).scanline == 241
                && old(self).dot == 1)),
            old(self).scanline < 240 && old(self).dot == 256 ==> final(self).frame_color_index_cache@
                == rendered_frame(
                old(self).frame_color_index_cache@,
                old(bus)@,
                old(self).scanline as int,
            ) && final(bus)@ == dot_bus(
                rendered_bus(old(bus)@, old(self).scanline as int),
                old(self).scanline,
                old(self).dot,
            ),
            !(old(self).scanline < 240 && old(self).dot == 256)
                ==> final(self).frame_color_index_cache@ == old(self).frame_color_index_cache@
                && final(bus)@ == dot_bus(old(bus)@, old(self).scanline, old(self).dot),
            (final(bus)@.registers.ppustatus & 0x80 != 0) == vblank_after(
                old(bus)@.registers.ppustatus & 0x80 != 0,
                old(bus)@.vblank_suppressed,
                old(self).scanline,
                old(self).dot,
            ),
    {
        let line = self.scanline;
        let dot = self.dot;
        let st0 = bus.registers.ppustatus;
        if line < 240 && dot == 256 {
            self.render_scanline(bus, line);
        }
        let st = bus.registers.ppustatus;
        assert((st0 & 0x80 != 0) == (render_status(st0, true, true) & 0x80 != 0) && (st0 & 0x80
            != 0) == (render_status(st0, true, false) & 0x80 != 0) && (st0 & 0x80 != 0) == (
        render_status(st0, false, true) & 0x80 != 0)) by (bit_vector);
        let mut status = st;
        if line == 241 && dot == 1 {
            if st & 0x80 != 0 || !bus.vblank_suppressed {
                status = st | 0x80;
            }
            bus.vblank_suppressed = false;
            self.frame_ready = true;
        } else if line == 261 && dot == 1 {
            status = st & 0x1F;
        }
        assert((st | 0x80) & 0x80 != 0 && (st & 0x1F) & 0x80 == 0) by (bit_vector);
        bus.registers.ppustatus = status;
        let nmi = status & 0x80 != 0 && bus.registers.ppuctrl & 0x80 != 0;
        let st_int = bus.interrupt_status;
        assert((st_int | NMI_LINE) & 0x04 == st_int & 0x04 && (st_int & !NMI_LINE) & 0x04 == st_int
            & 0x04) by (bit_vector);
        bus.interrupt_status = if nmi {
            bus.interrupt_status | NMI_LINE
        } else {
            bus.interrupt_status & !NMI_LINE
        };
        if dot + 1 < DOTS_PER_LINE {
            self.dot = dot + 1;
        } else if line + 1 < LINES_PER_FRAME {
            self.dot = 0;
            self.scanline = line + 1;
        } else {
            self.dot = 0;
            self.scanline = 0;
        }
        bus.ppustatus_racing = self.scanline == 241 && self.dot == 1;
        self.cycles = self.cycles + 1;
    }
}

/// The (scanline, dot) of the `n`-th dot of a frame.
pub open spec fn position_of(n: int) -> (u16, u16) {
    ((n / 341) as u16, (n % 341) as u16)
}

/// The vertical-blank flag after the first `n` dots of a frame, with no
/// `$2002` read and the flag clear at the start.
pub open spec fn vblank_trace(n: nat) -> bool
    decreases n,
{
    if n == 0 {
        false
    } else {
        vblank_after(vblank_trace((n - 1) as nat), false, position_of(n - 1).0, position_of(n - 1).1)
    }
}

/// Across one frame (262 x 341 dots) the vertical-blank flag, unread, is
/// set exactly once, at scanline 241 dot 1, and stays set through
/// scanline 260, until scanline 261 dot 1.
pub proof fn lemma_vblank_timing(n: nat)
    requires
        n <= 262 * 341,
    ensures
        vblank_trace(n) == (241 * 341 + 1 < n <= 261 * 341 + 1),
    decreases n,
{
    if n > 0 {
        lemma_vblank_timing((n - 1) as nat);
        let k = n - 1;
        vstd::arithmetic::div_mod::lemma_fundamental_div_mod(k, 341);
        assert(0 <= k % 341 < 341) by {
            vstd::arithmetic::div_mod::lemma_mod_bound(k, 341);
        }
        assert(k / 341 < 262) by {
            vstd::arithmetic::div_mod::lemma_div_is_ordered(k, 262 * 341 - 1, 341);
        }
    }
}

} // verus!
