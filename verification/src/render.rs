//! Rendering: decoding stored tile and sprite data into an RGB pixel
//! buffer through the fixed 64-colour system palette.

use vstd::prelude::*;

use crate::ppu::{CTRL_BACKGROUND_PATTERN_ADDR, CTRL_SPRITE_PATTERN_ADDR, PpuView, PPU};

verus! {

/// Width of the rendered picture in pixels.
pub const WIDTH: usize = 256;
/// Height of the rendered picture in pixels.
pub const HEIGHT: usize = 240;

/// A row-major RGB pixel buffer of the fixed picture size.
pub struct Frame {
    pub data: Vec<u8>,
}

impl Frame {
    pub open spec fn wf(&self) -> bool {
        self.data@.len() == 256 * 240 * 3
    }

    pub fn new() -> (r: Frame)
        ensures
            r.wf(),
            forall|i: int| 0 <= i < 256 * 240 * 3 ==> r.data@[i] == 0u8,
    {
        let mut data: Vec<u8> = Vec::new();
        let mut i: usize = 0;
        while i < 256 * 240 * 3
            invariant
                i <= 256 * 240 * 3,
                data@.len() == i,
                forall|j: int| 0 <= j < i ==> data@[j] == 0u8,
            decreases 256 * 240 * 3 - i,
        {
            data.push(0u8);
            i = i + 1;
        }
        Frame { data }
    }

    /// Writes one pixel; coordinates outside the picture are ignored.
    pub fn set_pixel(&mut self, x: usize, y: usize, rgb: (u8, u8, u8))
        requires
            old(self).wf(),
        ensures
            final(self).wf(),
            x < 256 && y < 240 ==> final(self).data@ == old(self).data@.update(
                (y * 3 * 256 + x * 3) as int,
                rgb.0,
            ).update((y * 3 * 256 + x * 3 + 1) as int, rgb.1).update(
                (y * 3 * 256 + x * 3 + 2) as int,
                rgb.2,
            ),
            !(x < 256 && y < 240) ==> *final(self) == *old(self),
    {
        if x < 256 && y < 240 {
            let base = y * 3 * 256 + x * 3;
            self.data[base] = rgb.0;
            self.data[base + 1] = rgb.1;
            self.data[base + 2] = rgb.2;
        }
    }
}

/// The colour of one entry of the fixed 64-colour system palette; the
/// index is taken modulo the palette size, as the hardware's six-bit
/// colour bus dictates.
pub fn system_palette_color(index: u8) -> (r: (u8, u8, u8))
    ensures
        r == spec_system_palette_color(index),
{
    let i = index & 0x3f;
    palette_entry(i)
}

/// The palette colour as a function of the six low bits of the index.
pub open spec fn spec_system_palette_color(index: u8) -> (u8, u8, u8) {
    spec_palette_entry(index & 0x3f)
}

/// The 64 fixed colours, in palette order.
pub open spec fn spec_palette_entry(i: u8) -> (u8, u8, u8) {
    match i {
        0 => (0x80, 0x80, 0x80),
        1 => (0x00, 0x3D, 0xA6),
        2 => (0x00, 0x12, 0xB0),
        3 => (0x44, 0x00, 0x96),
        4 => (0xA1, 0x00, 0x5E),
        5 => (0xC7, 0x00, 0x28),
        6 => (0xBA, 0x06, 0x00),
        7 => (0x8C, 0x17, 0x00),
        8 => (0x5C, 0x2F, 0x00),
        9 => (0x10, 0x45, 0x00),
        10 => (0x05, 0x4A, 0x00),
        11 => (0x00, 0x47, 0x2E),
        12 => (0x00, 0x41, 0x66),
        13 => (0x00, 0x00, 0x00),
        14 => (0x05, 0x05, 0x05),
        15 => (0x05, 0x05, 0x05),
        16 => (0xC7, 0xC7, 0xC7),
        17 => (0x00, 0x77, 0xFF),
        18 => (0x21, 0x55, 0xFF),
        19 => (0x82, 0x37, 0xFA),
        20 => (0xEB, 0x2F, 0xB5),
        21 => (0xFF, 0x29, 0x50),
        22 => (0xFF, 0x22, 0x00),
        23 => (0xD6, 0x32, 0x00),
        24 => (0xC4, 0x62, 0x00),
        25 => (0x35, 0x80, 0x00),
        26 => (0x05, 0x8F, 0x00),
        27 => (0x00, 0x8A, 0x55),
        28 => (0x00, 0x99, 0xCC),
        29 => (0x21, 0x21, 0x21),
        30 => (0x09, 0x09, 0x09),
        31 => (0x09, 0x09, 0x09),
        32 => (0xFF, 0xFF, 0xFF),
        33 => (0x0F, 0xD7, 0xFF),
        34 => (0x69, 0xA2, 0xFF),
        35 => (0xD4, 0x80, 0xFF),
        36 => (0xFF, 0x45, 0xF3),
        37 => (0xFF, 0x61, 0x8B),
        38 => (0xFF, 0x88, 0x33),
        39 => (0xFF, 0x9C, 0x12),
        40 => (0xFA, 0xBC, 0x20),
        41 => (0x9F, 0xE3, 0x0E),
        42 => (0x2B, 0xF0, 0x35),
        43 => (0x0C, 0xF0, 0xA4),
        44 => (0x05, 0xFB, 0xFF),
        45 => (0x5E, 0x5E, 0x5E),
        46 => (0x0D, 0x0D, 0x0D),
        47 => (0x0D, 0x0D, 0x0D),
        48 => (0xFF, 0xFF, 0xFF),
        49 => (0xA6, 0xFC, 0xFF),
        50 => (0xB3, 0xEC, 0xFF),
        51 => (0xDA, 0xAB, 0xEB),
        52 => (0xFF, 0xA8, 0xF9),
        53 => (0xFF, 0xAB, 0xB3),
        54 => (0xFF, 0xD2, 0xB0),
        55 => (0xFF, 0xEF, 0xA6),
        56 => (0xFF, 0xF7, 0x9C),
        57 => (0xD7, 0xE8, 0x95),
        58 => (0xA6, 0xED, 0xAF),
        59 => (0xA2, 0xF2, 0xDA),
        60 => (0x99, 0xFF, 0xFC),
        61 => (0xDD, 0xDD, 0xDD),
        62 => (0x11, 0x11, 0x11),
        63 => (0x11, 0x11, 0x11),
        _ => (0x00, 0x00, 0x00),
    }
}

fn palette_entry(i: u8) -> (r: (u8, u8, u8))
    ensures
        r == spec_palette_entry(i),
{
    match i {
        0 => (0x80, 0x80, 0x80),
        1 => (0x00, 0x3D, 0xA6),
        2 => (0x00, 0x12, 0xB0),
        3 => (0x44, 0x00, 0x96),
        4 => (0xA1, 0x00, 0x5E),
        5 => (0xC7, 0x00, 0x28),
        6 => (0xBA, 0x06, 0x00),
        7 => (0x8C, 0x17, 0x00),
        8 => (0x5C, 0x2F, 0x00),
        9 => (0x10, 0x45, 0x00),
        10 => (0x05, 0x4A, 0x00),
        11 => (0x00, 0x47, 0x2E),
        12 => (0x00, 0x41, 0x66),
        13 => (0x00, 0x00, 0x00),
        14 => (0x05, 0x05, 0x05),
        15 => (0x05, 0x05, 0x05),
        16 => (0xC7, 0xC7, 0xC7),
        17 => (0x00, 0x77, 0xFF),
        18 => (0x21, 0x55, 0xFF),
        19 => (0x82, 0x37, 0xFA),
        20 => (0xEB, 0x2F, 0xB5),
        21 => (0xFF, 0x29, 0x50),
        22 => (0xFF, 0x22, 0x00),
        23 => (0xD6, 0x32, 0x00),
        24 => (0xC4, 0x62, 0x00),
        25 => (0x35, 0x80, 0x00),
        26 => (0x05, 0x8F, 0x00),
        27 => (0x00, 0x8A, 0x55),
        28 => (0x00, 0x99, 0xCC),
        29 => (0x21, 0x21, 0x21),
        30 => (0x09, 0x09, 0x09),
        31 => (0x09, 0x09, 0x09),
        32 => (0xFF, 0xFF, 0xFF),
        33 => (0x0F, 0xD7, 0xFF),
        34 => (0x69, 0xA2, 0xFF),
        35 => (0xD4, 0x80, 0xFF),
        36 => (0xFF, 0x45, 0xF3),
        37 => (0xFF, 0x61, 0x8B),
        38 => (0xFF, 0x88, 0x33),
        39 => (0xFF, 0x9C, 0x12),
        40 => (0xFA, 0xBC, 0x20),
        41 => (0x9F, 0xE3, 0x0E),
        42 => (0x2B, 0xF0, 0x35),
        43 => (0x0C, 0xF0, 0xA4),
        44 => (0x05, 0xFB, 0xFF),
        45 => (0x5E, 0x5E, 0x5E),
        46 => (0x0D, 0x0D, 0x0D),
        47 => (0x0D, 0x0D, 0x0D),
        48 => (0xFF, 0xFF, 0xFF),
        49 => (0xA6, 0xFC, 0xFF),
        50 => (0xB3, 0xEC, 0xFF),
        51 => (0xDA, 0xAB, 0xEB),
        52 => (0xFF, 0xA8, 0xF9),
        53 => (0xFF, 0xAB, 0xB3),
        54 => (0xFF, 0xD2, 0xB0),
        55 => (0xFF, 0xEF, 0xA6),
        56 => (0xFF, 0xF7, 0x9C),
        57 => (0xD7, 0xE8, 0x95),
        58 => (0xA6, 0xED, 0xAF),
        59 => (0xA2, 0xF2, 0xDA),
        60 => (0x99, 0xFF, 0xFC),
        61 => (0xDD, 0xDD, 0xDD),
        62 => (0x11, 0x11, 0x11),
        63 => (0x11, 0x11, 0x11),
        _ => (0x00, 0x00, 0x00),
    }
}

/// One byte of pattern data, or zero past the end of the bank.
fn chr_byte(chr_rom: &Vec<u8>, idx: usize) -> (r: u8)
    ensures
        r == spec_chr_byte(chr_rom@, idx as int),
{
    if idx < chr_rom.len() {
        chr_rom[idx]
    } else {
        0
    }
}

pub open spec fn spec_chr_byte(chr: Seq<u8>, idx: int) -> u8 {
    if 0 <= idx < chr.len() {
        chr[idx]
    } else {
        0u8
    }
}

/// The four background palette colours of one tile cell: the packed
/// attribute byte of its 4x4-tile block selects a 2-bit palette number by
/// the cell's quadrant; entry 0 is the shared backdrop colour.
pub fn bg_palette(ppu: &PPU, tile_column: usize, tile_row: usize) -> (r: (u8, u8, u8, u8))
    requires
        ppu.wf(),
        tile_column < 32,
        tile_row < 30,
    ensures
        r == spec_bg_palette(ppu@.vram, ppu@.palette_table, tile_column as int, tile_row as int),
{
    let attr_table_idx = tile_row / 4 * 8 + tile_column / 4;
    let attr_byte = ppu.vram[0x3c0 + attr_table_idx];

    let qx = tile_column % 4 / 2;
    let qy = tile_row % 4 / 2;
    let pallet_idx: u8 = if qx == 0 && qy == 0 {
        attr_byte & 0b11
    } else if qx == 1 && qy == 0 {
        (attr_byte >> 2) & 0b11
    } else if qx == 0 && qy == 1 {
        (attr_byte >> 4) & 0b11
    } else {
        (attr_byte >> 6) & 0b11
    };

    proof {
        let ab = ppu@.vram[0x3c0 + (tile_row / 4 * 8 + tile_column / 4)];
        assert(ab & 0b11 <= 3) by (bit_vector);
        assert((ab >> 2) & 0b11 <= 3) by (bit_vector);
        assert((ab >> 4) & 0b11 <= 3) by (bit_vector);
        assert((ab >> 6) & 0b11 <= 3) by (bit_vector);
    }
    let pallete_start: usize = 1 + (pallet_idx as usize) * 4;
    (
        ppu.palette_table[0],
        ppu.palette_table[pallete_start],
        ppu.palette_table[pallete_start + 1],
        ppu.palette_table[pallete_start + 2],
    )
}

/// The background palette of a tile cell, as `bg_palette` computes it.
pub open spec fn spec_bg_palette(
    vram: Seq<u8>,
    palette_table: Seq<u8>,
    tile_column: int,
    tile_row: int,
) -> (u8, u8, u8, u8) {
    let attr_byte = vram[0x3c0 + (tile_row / 4 * 8 + tile_column / 4)];
    let qx = tile_column % 4 / 2;
    let qy = tile_row % 4 / 2;
    let pallet_idx = if qx == 0 && qy == 0 {
        attr_byte & 0b11
    } else if qx == 1 && qy == 0 {
        (attr_byte >> 2) & 0b11
    } else if qx == 0 && qy == 1 {
        (attr_byte >> 4) & 0b11
    } else {
        (attr_byte >> 6) & 0b11
    };
    let start = 1 + pallet_idx * 4;
    (palette_table[0], palette_table[start], palette_table[start + 1], palette_table[start + 2])
}

/// The four colours of one sprite palette; entry 0 is transparent and
/// never drawn.
pub fn sprite_palette(ppu: &PPU, pallete_idx: u8) -> (r: (u8, u8, u8, u8))
    requires
        ppu.wf(),
        pallete_idx < 4,
    ensures
        r == spec_sprite_palette(ppu@.palette_table, pallete_idx as int),
{
    let start: usize = 0x11 + (pallete_idx as usize) * 4;
    (
        0,
        ppu.palette_table[start],
        ppu.palette_table[start + 1],
        ppu.palette_table[start + 2],
    )
}

pub open spec fn spec_sprite_palette(palette_table: Seq<u8>, pallete_idx: int) -> (u8, u8, u8, u8) {
    let start = 0x11 + pallete_idx * 4;
    (0u8, palette_table[start], palette_table[start + 1], palette_table[start + 2])
}

/// The two-bit plane value of the background pixel at (x, y): the tile
/// cell's pattern row decoded from its two bitplanes.
pub open spec fn spec_bg_pixel_value(p: PpuView, x: int, y: int) -> u8 {
    let tile = p.vram[(y / 8) * 32 + x / 8];
    let bank: int = if p.control.has(CTRL_BACKGROUND_PATTERN_ADDR) {
        0x1000
    } else {
        0
    };
    let upper = spec_chr_byte(p.chr_rom, bank + tile * 16 + y % 8);
    let lower = spec_chr_byte(p.chr_rom, bank + tile * 16 + y % 8 + 8);
    let sh = (7 - x % 8) as u8;
    (((upper >> sh) & 1) << 1) | ((lower >> sh) & 1)
}

/// The colour of the background pixel at (x, y): its plane value mapped
/// through the cell's resolved four-entry palette into the system palette.
pub open spec fn spec_bg_pixel(p: PpuView, x: int, y: int) -> (u8, u8, u8) {
    let pal = spec_bg_palette(p.vram, p.palette_table, x / 8, y / 8);
    let v = spec_bg_pixel_value(p, x, y);
    spec_system_palette_color(
        if v == 0 {
            pal.0
        } else if v == 1 {
            pal.1
        } else if v == 2 {
            pal.2
        } else {
            pal.3
        },
    )
}

/// Whether sprite slot `s` covers the screen position (x, y).
pub open spec fn spec_sprite_covers(p: PpuView, s: int, x: int, y: int) -> bool {
    let tile_x = p.oam_data[s * 4 + 3] as int;
    let tile_y = p.oam_data[s * 4] as int;
    &&& tile_x <= x < tile_x + 8
    &&& tile_y <= y < tile_y + 8
}

/// The two-bit plane value sprite slot `s` shows at (x, y), honouring its
/// horizontal and vertical flip attributes.
pub open spec fn spec_sprite_pixel_value(p: PpuView, s: int, x: int, y: int) -> u8 {
    let tile_x = p.oam_data[s * 4 + 3] as int;
    let tile_y = p.oam_data[s * 4] as int;
    let tile_idx = p.oam_data[s * 4 + 1];
    let attributes = p.oam_data[s * 4 + 2];
    let xx: int = if (attributes >> 6) & 1 == 1 {
        7 - (x - tile_x)
    } else {
        x - tile_x
    };
    let yy: int = if (attributes >> 7) & 1 == 1 {
        7 - (y - tile_y)
    } else {
        y - tile_y
    };
    let bank: int = if p.control.has(CTRL_SPRITE_PATTERN_ADDR) {
        0x1000
    } else {
        0
    };
    let upper = spec_chr_byte(p.chr_rom, bank + tile_idx * 16 + yy);
    let lower = spec_chr_byte(p.chr_rom, bank + tile_idx * 16 + yy + 8);
    let sh = (7 - xx) as u8;
    (((upper >> sh) & 1) << 1) | ((lower >> sh) & 1)
}

/// The colour of the topmost opaque sprite pixel at (x, y) among slots
/// `s..64`, if any: slots are drawn back to front, so the lowest covering
/// slot with a non-transparent plane value shows.
pub open spec fn spec_sprite_lookup(p: PpuView, x: int, y: int, s: int) -> Option<(u8, u8, u8)>
    decreases 64 - s,
{
    if s >= 64 {
        None
    } else {
        let v = spec_sprite_pixel_value(p, s, x, y);
        if spec_sprite_covers(p, s, x, y) && v != 0 {
            let pal = spec_sprite_palette(p.palette_table, (p.oam_data[s * 4 + 2] & 0b11) as int);
            Some(
                spec_system_palette_color(
                    if v == 1 {
                        pal.1
                    } else if v == 2 {
                        pal.2
                    } else {
                        pal.3
                    },
                ),
            )
        } else {
            spec_sprite_lookup(p, x, y, s + 1)
        }
    }
}

/// The colour the renderer produces at (x, y): the topmost opaque sprite
/// pixel if one covers the position, else the background pixel.
pub open spec fn spec_rendered_pixel(p: PpuView, x: int, y: int) -> (u8, u8, u8) {
    match spec_sprite_lookup(p, x, y, 0) {
        Some(c) => c,
        None => spec_bg_pixel(p, x, y),
    }
}

/// Resolves one screen position: the topmost opaque sprite pixel wins,
/// transparent sprite pixels (plane value zero) fall through, and the
/// decoded background tile shows underneath.
pub fn rendered_pixel(ppu: &PPU, x: usize, y: usize) -> (r: (u8, u8, u8))
    requires
        ppu.wf(),
        x < 256,
        y < 240,
    ensures
        r == spec_rendered_pixel(ppu@, x as int, y as int),
{
    // sprites, front to back: the first opaque covering slot shows
    let mut s: usize = 0;
    while s < 64
        invariant
            ppu.wf(),
            x < 256,
            y < 240,
            s <= 64,
            spec_sprite_lookup(ppu@, x as int, y as int, 0) == spec_sprite_lookup(
                ppu@,
                x as int,
                y as int,
                s as int,
            ),
        decreases 64 - s,
    {
        let base = s * 4;
        let tile_y = ppu.oam_data[base] as usize;
        let tile_idx = ppu.oam_data[base + 1] as usize;
        let attributes = ppu.oam_data[base + 2];
        let tile_x = ppu.oam_data[base + 3] as usize;

        if tile_x <= x && x < tile_x + 8 && tile_y <= y && y < tile_y + 8 {
            let xx = if (attributes >> 6) & 1 == 1 {
                7 - (x - tile_x)
            } else {
                x - tile_x
            };
            let yy = if (attributes >> 7) & 1 == 1 {
                7 - (y - tile_y)
            } else {
                y - tile_y
            };
            let bank = ppu.control.sprt_pattern_address() as usize;
            let upper = chr_byte(&ppu.chr_rom, bank + tile_idx * 16 + yy);
            let lower = chr_byte(&ppu.chr_rom, bank + tile_idx * 16 + yy + 8);
            let sh = (7 - xx) as u8;
            let value = (((upper >> sh) & 1) << 1) | ((lower >> sh) & 1);
            if value != 0 {
                proof {
                    let attr = ppu@.oam_data[s as int * 4 + 2];
                    assert(attr & 0b11 < 4) by (bit_vector);
                }
                let pal = sprite_palette(ppu, attributes & 0b11);
                let color = if value == 1 {
                    pal.1
                } else if value == 2 {
                    pal.2
                } else {
                    pal.3
                };
                return system_palette_color(color);
            }
        }
        s = s + 1;
    }

    // background underneath
    let tile = ppu.vram[(y / 8) * 32 + x / 8] as usize;
    let bank = ppu.control.bknd_pattern_address() as usize;
    let upper = chr_byte(&ppu.chr_rom, bank + tile * 16 + y % 8);
    let lower = chr_byte(&ppu.chr_rom, bank + tile * 16 + y % 8 + 8);
    let sh = (7 - x % 8) as u8;
    let value = (((upper >> sh) & 1) << 1) | ((lower >> sh) & 1);
    let pal = bg_palette(ppu, x / 8, y / 8);
    let color = if value == 0 {
        pal.0
    } else if value == 1 {
        pal.1
    } else if value == 2 {
        pal.2
    } else {
        pal.3
    };
    system_palette_color(color)
}

/// Renders the whole picture: every visible pixel takes the colour of the
/// decoded background tile under it, overlaid by the topmost opaque
/// sprite pixel, back to front.
pub fn render(ppu: &PPU, frame: &mut Frame)
    requires
        ppu.wf(),
        old(frame).wf(),
    ensures
        final(frame).wf(),
        forall|x: int, y: int|
            0 <= x < 256 && 0 <= y < 240 ==> {
                &&& final(frame).data[(y * 256 + x) * 3] == spec_rendered_pixel(ppu@, x, y).0
                &&& final(frame).data[(y * 256 + x) * 3 + 1] == spec_rendered_pixel(ppu@, x, y).1
                &&& final(frame).data[(y * 256 + x) * 3 + 2] == spec_rendered_pixel(ppu@, x, y).2
            },
{
    let mut y: usize = 0;
    while y < 240
        invariant
            ppu.wf(),
            frame.wf(),
            y <= 240,
            forall|xi: int, yi: int|
                0 <= xi < 256 && 0 <= yi < y ==> {
                    &&& frame.data@[(yi * 256 + xi) * 3] == spec_rendered_pixel(ppu@, xi, yi).0
                    &&& frame.data@[(yi * 256 + xi) * 3 + 1] == spec_rendered_pixel(ppu@, xi, yi).1
                    &&& frame.data@[(yi * 256 + xi) * 3 + 2] == spec_rendered_pixel(ppu@, xi, yi).2
                },
        decreases 240 - y,
    {
        let mut x: usize = 0;
        while x < 256
            invariant
                ppu.wf(),
                frame.wf(),
                y < 240,
                x <= 256,
                forall|xi: int, yi: int|
                    0 <= xi < 256 && 0 <= yi < y ==> {
                        &&& frame.data@[(yi * 256 + xi) * 3] == spec_rendered_pixel(ppu@, xi, yi).0
                        &&& frame.data@[(yi * 256 + xi) * 3 + 1] == spec_rendered_pixel(
                            ppu@,
                            xi,
                            yi,
                        ).1
                        &&& frame.data@[(yi * 256 + xi) * 3 + 2] == spec_rendered_pixel(
                            ppu@,
                            xi,
                            yi,
                        ).2
                    },
                forall|xi: int|
                    0 <= xi < x ==> {
                        &&& frame.data@[(y * 256 + xi) * 3] == spec_rendered_pixel(ppu@, xi, y as int).0
                        &&& frame.data@[(y * 256 + xi) * 3 + 1] == spec_rendered_pixel(
                            ppu@,
                            xi,
                            y as int,
                        ).1
                        &&& frame.data@[(y * 256 + xi) * 3 + 2] == spec_rendered_pixel(
                            ppu@,
                            xi,
                            y as int,
                        ).2
                    },
            decreases 256 - x,
        {
            let rgb = rendered_pixel(ppu, x, y);
            frame.set_pixel(x, y, rgb);
            x = x + 1;
        }
        y = y + 1;
    }
}

/// A preview frame of one pattern-table bank: its 255 tiles laid out in a
/// grid, drawn in four fixed colours.
pub fn show_tiles(chr_rom: &Vec<u8>, bank: usize) -> (r: Frame)
    requires
        bank <= 1,
    ensures
        r.wf(),
{
    let mut frame = Frame::new();
    let mut tile_x: usize = 0;
    let mut tile_y: usize = 0;
    let base = bank * 0x1000;

    let mut tile: usize = 0;
    while tile < 255
        invariant
            frame.wf(),
            tile <= 255,
            base <= 0x1000,
            tile_x <= 10 * tile,
            tile_y <= 10 * tile,
        decreases 255 - tile,
    {
        if tile != 0 && tile % 20 == 0 {
            tile_x = 0;
            tile_y = tile_y + 10;
        }

        let mut y: usize = 0;
        while y < 8
            invariant
                frame.wf(),
                y <= 8,
                tile <= 255,
                base <= 0x1000,
                tile_x <= 2550,
                tile_y <= 2550,
            decreases 8 - y,
        {
            let mut upper = chr_byte(chr_rom, base + tile * 16 + y);
            let mut lower = chr_byte(chr_rom, base + tile * 16 + y + 8);

            let mut xr: usize = 0;
            while xr < 8
                invariant
                    frame.wf(),
                    xr <= 8,
                    y < 8,
                    tile_x <= 2550,
                    tile_y <= 2550,
                decreases 8 - xr,
            {
                let x = 7 - xr;
                let value = (1 & upper) << 1 | (1 & lower);
                upper = upper >> 1;
                lower = lower >> 1;

                let rgb = if value == 0 {
                    system_palette_color(0x01)
                } else if value == 1 {
                    system_palette_color(0x23)
                } else if value == 2 {
                    system_palette_color(0x27)
                } else {
                    system_palette_color(0x30)
                };

                frame.set_pixel(tile_x + x, tile_y + y, rgb);
                xr = xr + 1;
            }
            y = y + 1;
        }

        tile_x = tile_x + 10;
        tile = tile + 1;
    }
    frame
}

} // verus!
