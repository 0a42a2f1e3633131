use vstd::prelude::*;

verus! {

/// Signals a front end sends to the core.
#[derive(Clone, Copy, Debug, PartialEq, Eq, Structural)]
pub enum GlobalSignal {
    Clock,
    GetLog,
    Reset,
    Step,
}

/// A finished picture: 256 x 240 color indices (0 to 63), row by row.
pub struct Frame {
    pub data: Vec<u8>,
    pub width: u32,
    pub height: u32,
}

impl Frame {
    pub fn new() -> (r: Self)
        ensures
            r.data@ == Seq::new(256 * 240, |i: int| 0u8),
            r.width == 256,
            r.height == 240,
    {
        Frame { data: crate::bus::cpu_ram::zeroed(256 * 240), width: 256, height: 240 }
    }
}

/// The fixed NTSC palette: red, green and blue of each of the 64 color indices.
pub open spec fn ntsc_rgb(index: u8) -> (u8, u8, u8) {
    match index {
        0 => (84, 84, 84),
        1 => (0, 30, 116),
        2 => (8, 16, 144),
        3 => (48, 0, 136),
        4 => (68, 0, 100),
        5 => (92, 0, 48),
        6 => (84, 4, 0),
        7 => (60, 24, 0),
        8 => (32, 42, 0),
        9 => (8, 58, 0),
        10 => (0, 64, 0),
        11 => (0, 60, 0),
        12 => (0, 50, 60),
        13 => (0, 0, 0),
        14 => (0, 0, 0),
        15 => (0, 0, 0),
        16 => (152, 150, 152),
        17 => (8, 76, 196),
        18 => (48, 50, 236),
        19 => (92, 30, 228),
        20 => (136, 20, 176),
        21 => (160, 20, 100),
        22 => (152, 34, 32),
        23 => (120, 60, 0),
        24 => (84, 90, 0),
        25 => (40, 114, 0),
        26 => (8, 124, 0),
        27 => (0, 118, 40),
        28 => (0, 102, 120),
        29 => (0, 0, 0),
        30 => (0, 0, 0),
        31 => (0, 0, 0),
        32 => (236, 238, 236),
        33 => (76, 154, 236),
        34 => (120, 124, 236),
        35 => (176, 98, 236),
        36 => (228, 84, 236),
        37 => (236, 88, 180),
        38 => (236, 106, 100),
        39 => (212, 136, 32),
        40 => (160, 170, 0),
        41 => (116, 196, 0),
        42 => (76, 208, 32),
        43 => (56, 204, 108),
        44 => (56, 180, 204),
        45 => (60, 60, 60),
        46 => (0, 0, 0),
        47 => (0, 0, 0),
        48 => (236, 238, 236),
        49 => (168, 204, 236),
        50 => (188, 188, 236),
        51 => (212, 178, 236),
        52 => (236, 174, 236),
        53 => (236, 174, 212),
        54 => (236, 180, 176),
        55 => (228, 196, 144),
        56 => (204, 210, 120),
        57 => (180, 222, 120),
        58 => (168, 226, 144),
        59 => (152, 226, 180),
        60 => (160, 214, 228),
        61 => (160, 162, 160),
        62 => (0, 0, 0),
        _ => (0, 0, 0),
    }
}

/// Computes `ntsc_rgb` for `index & 0x3F`.
pub fn ntsc_color(index: u8) -> (r: (u8, u8, u8))
    ensures
        r == ntsc_rgb(index & 0x3F),
{
    match index & 0x3F {
        0 => (84, 84, 84),
        1 => (0, 30, 116),
        2 => (8, 16, 144),
        3 => (48, 0, 136),
        4 => (68, 0, 100),
        5 => (92, 0, 48),
        6 => (84, 4, 0),
        7 => (60, 24, 0),
        8 => (32, 42, 0),
        9 => (8, 58, 0),
        10 => (0, 64, 0),
        11 => (0, 60, 0),
        12 => (0, 50, 60),
        13 => (0, 0, 0),
        14 => (0, 0, 0),
        15 => (0, 0, 0),
        16 => (152, 150, 152),
        17 => (8, 76, 196),
        18 => (48, 50, 236),
        19 => (92, 30, 228),
        20 => (136, 20, 176),
        21 => (160, 20, 100),
        22 => (152, 34, 32),
        23 => (120, 60, 0),
        24 => (84, 90, 0),
        25 => (40, 114, 0),
        26 => (8, 124, 0),
        27 => (0, 118, 40),
        28 => (0, 102, 120),
        29 => (0, 0, 0),
        30 => (0, 0, 0),
        31 => (0, 0, 0),
        32 => (236, 238, 236),
        33 => (76, 154, 236),
        34 => (120, 124, 236),
        35 => (176, 98, 236),
        36 => (228, 84, 236),
        37 => (236, 88, 180),
        38 => (236, 106, 100),
        39 => (212, 136, 32),
        40 => (160, 170, 0),
        41 => (116, 196, 0),
        42 => (76, 208, 32),
        43 => (56, 204, 108),
        44 => (56, 180, 204),
        45 => (60, 60, 60),
        46 => (0, 0, 0),
        47 => (0, 0, 0),
        48 => (236, 238, 236),
        49 => (168, 204, 236),
        50 => (188, 188, 236),
        51 => (212, 178, 236),
        52 => (236, 174, 236),
        53 => (236, 174, 212),
        54 => (236, 180, 176),
        55 => (228, 196, 144),
        56 => (204, 210, 120),
        57 => (180, 222, 120),
        58 => (168, 226, 144),
        59 => (152, 226, 180),
        60 => (160, 214, 228),
        61 => (160, 162, 160),
        62 => (0, 0, 0),
        _ => (0, 0, 0),
    }
}

/// The color lookup table a presenter uses to turn a frame into pixels.
pub struct Palettes {
    /// Red, green, blue and alpha of each color index.
    pub colors: Vec<(u8, u8, u8, u8)>,
}

impl Palettes {
    pub fn new() -> (r: Self)
        ensures
            r.colors@.len() == 64,
            forall|i: int|
                0 <= i < 64 ==> #[trigger] r.colors@[i] == (
                    ntsc_rgb(i as u8).0,
                    ntsc_rgb(i as u8).1,
                    ntsc_rgb(i as u8).2,
                    255u8,
                ),
    {
        let mut colors: Vec<(u8, u8, u8, u8)> = Vec::new();
        let mut i: u8 = 0;
        while i < 64
            invariant
                i <= 64,
                colors@.len() == i,
                forall|k: int|
                    0 <= k < i ==> #[trigger] colors@[k] == (
                        ntsc_rgb(k as u8).0,
                        ntsc_rgb(k as u8).1,
                        ntsc_rgb(k as u8).2,
                        255u8,
                    ),
            decreases 64 - i,
        {
            assert(i & 0x3F == i) by (bit_vector)
                requires i < 64;
            let (r, g, b) = ntsc_color(i);
            colors.push((r, g, b, 255));
            i = i + 1;
        }
        Palettes { colors }
    }
}

} // verus!
