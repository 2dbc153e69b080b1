//! The graphics unit: hardware registers, video memory, sprite memory,
//! palette memory, and the dot/scanline timing state machine.

use vstd::prelude::*;

use crate::cartridges::Mirroring;

verus! {

/// Control-register bit: low bit of the base nametable selector.
pub const CTRL_NAMETABLE1: u8 = 0b0000_0001;
/// Control-register bit: high bit of the base nametable selector.
pub const CTRL_NAMETABLE2: u8 = 0b0000_0010;
/// Control-register bit: address increment of 32 instead of 1.
pub const CTRL_VRAM_ADD_INCREMENT: u8 = 0b0000_0100;
/// Control-register bit: sprite pattern table at 0x1000.
pub const CTRL_SPRITE_PATTERN_ADDR: u8 = 0b0000_1000;
/// Control-register bit: background pattern table at 0x1000.
pub const CTRL_BACKGROUND_PATTERN_ADDR: u8 = 0b0001_0000;
/// Control-register bit: 8x16 sprites.
pub const CTRL_SPRITE_SIZE: u8 = 0b0010_0000;
/// Control-register bit: master/slave select.
pub const CTRL_MASTER_SLAVE_SELECT: u8 = 0b0100_0000;
/// Control-register bit: raise an interrupt at the start of vertical blank.
pub const CTRL_GENERATE_NMI: u8 = 0b1000_0000;

/// Status-register bit: more than eight sprites on a scanline.
pub const STATUS_SPRITE_OVERFLOW: u8 = 0b0010_0000;
/// Status-register bit: sprite zero overlapped the background.
pub const STATUS_SPRITE_ZERO_HIT: u8 = 0b0100_0000;
/// Status-register bit: vertical blank has started.
pub const STATUS_VBLANK_STARTED: u8 = 0b1000_0000;

/// Mask-register bit: greyscale display.
pub const MASK_GREYSCALE: u8 = 0b0000_0001;
/// Mask-register bit: show the background in the leftmost eight pixels.
pub const MASK_LEFTMOST_8PXL_BACKGROUND: u8 = 0b0000_0010;
/// Mask-register bit: show sprites in the leftmost eight pixels.
pub const MASK_LEFTMOST_8PXL_SPRITE: u8 = 0b0000_0100;
/// Mask-register bit: show the background.
pub const MASK_SHOW_BACKGROUND: u8 = 0b0000_1000;
/// Mask-register bit: show sprites.
pub const MASK_SHOW_SPRITES: u8 = 0b0001_0000;
/// Mask-register bit: emphasise red.
pub const MASK_EMPHASISE_RED: u8 = 0b0010_0000;
/// Mask-register bit: emphasise green.
pub const MASK_EMPHASISE_GREEN: u8 = 0b0100_0000;
/// Mask-register bit: emphasise blue.
pub const MASK_EMPHASISE_BLUE: u8 = 0b1000_0000;

/// The 14-bit video address register, written one byte at a time through a
/// high/low toggle.
#[derive(Clone, Copy, PartialEq, Eq, Structural)]
pub struct AddressRegister {
    pub low: u8,
    pub high: u8,
    pub high_pointer: bool,
}

impl AddressRegister {
    /// The 16-bit value currently latched.
    pub open spec fn spec_get(self) -> u16 {
        ((self.high as u16) << 8) | (self.low as u16)
    }

    /// Both halves replaced from a 16-bit value.
    pub open spec fn spec_set(self, data: u16) -> AddressRegister {
        AddressRegister { high: (data >> 8) as u8, low: (data & 0xff) as u8, ..self }
    }

    /// One byte written through the toggle: the first write fills the high
    /// half, the second the low half; the result is reduced to 14 bits.
    pub open spec fn spec_update(self, data: u8) -> AddressRegister {
        let filled = if self.high_pointer {
            AddressRegister { high: data, ..self }
        } else {
            AddressRegister { low: data, ..self }
        };
        let masked = if filled.spec_get() > 0x3fff {
            filled.spec_set(filled.spec_get() & 0x3fff)
        } else {
            filled
        };
        AddressRegister { high_pointer: !self.high_pointer, ..masked }
    }

    /// The register stepped by the configured increment, reduced to 14 bits.
    pub open spec fn spec_increment(self, inc: u8) -> AddressRegister {
        let low = self.low.wrapping_add(inc);
        let high = if self.low > low {
            self.high.wrapping_add(1)
        } else {
            self.high
        };
        let stepped = AddressRegister { low, high, ..self };
        if stepped.spec_get() > 0x3fff {
            stepped.spec_set(stepped.spec_get() & 0x3fff)
        } else {
            stepped
        }
    }

    /// The toggle put back to "expect the high byte next".
    pub open spec fn spec_reset_latch(self) -> AddressRegister {
        AddressRegister { high_pointer: true, ..self }
    }

    pub fn new() -> (r: AddressRegister)
        ensures
            r == (AddressRegister { high: 0, low: 0, high_pointer: true }),
    {
        AddressRegister { high: 0, low: 0, high_pointer: true }
    }

    fn set(&mut self, data: u16)
        ensures
            *final(self) == old(self).spec_set(data),
    {
        self.high = (data >> 8) as u8;
        self.low = (data & 0xff) as u8;
    }

    pub fn update(&mut self, data: u8)
        ensures
            *final(self) == old(self).spec_update(data),
    {
        if self.high_pointer {
            self.high = data;
        } else {
            self.low = data;
        }

        if self.get() > 0x3fff {
            // reduce addresses above the 14-bit range
            let masked = self.get() & 0x3fff;
            self.set(masked);
        }

        self.high_pointer = !self.high_pointer;
    }

    pub fn increment(&mut self, inc: u8)
        ensures
            *final(self) == old(self).spec_increment(inc),
    {
        let low = self.low;
        self.low = self.low.wrapping_add(inc);

        if low > self.low {
            self.high = self.high.wrapping_add(1);
        }

        if self.get() > 0x3fff {
            let masked = self.get() & 0x3fff;
            self.set(masked);
        }
    }

    pub fn reset_latch(&mut self)
        ensures
            *final(self) == old(self).spec_reset_latch(),
    {
        self.high_pointer = true;
    }

    pub fn get(&self) -> (r: u16)
        ensures
            r == self.spec_get(),
    {
        ((self.high as u16) << 8) | (self.low as u16)
    }
}

/// The control register: nametable select, address increment, pattern-table
/// selects, sprite size, and the interrupt-enable bit.
#[derive(Clone, Copy, PartialEq, Eq, Structural)]
pub struct ControlRegister {
    pub bits: u8,
}

impl ControlRegister {
    pub open spec fn has(self, mask: u8) -> bool {
        self.bits & mask != 0
    }

    /// Base address of the selected nametable.
    pub open spec fn spec_nametable_address(self) -> u16 {
        if self.bits & 0b11 == 0 {
            0x2000
        } else if self.bits & 0b11 == 1 {
            0x2400
        } else if self.bits & 0b11 == 2 {
            0x2800
        } else {
            0x2c00
        }
    }

    /// The address-register step configured for data accesses.
    pub open spec fn spec_vram_address_increment(self) -> u8 {
        if self.bits & CTRL_VRAM_ADD_INCREMENT == 0 {
            1
        } else {
            32
        }
    }

    pub fn new() -> (r: ControlRegister)
        ensures
            r.bits == 0,
    {
        ControlRegister { bits: 0 }
    }

    pub fn contains(&self, mask: u8) -> (r: bool)
        ensures
            r == self.has(mask),
    {
        self.bits & mask != 0
    }

    pub fn nametable_address(&self) -> (r: u16)
        ensures
            r == self.spec_nametable_address(),
    {
        let t = self.bits & 0b11;
        if t == 0 {
            0x2000
        } else if t == 1 {
            0x2400
        } else if t == 2 {
            0x2800
        } else {
            0x2c00
        }
    }

    pub fn vram_address_increment(&self) -> (r: u8)
        ensures
            r == self.spec_vram_address_increment(),
    {
        if self.bits & CTRL_VRAM_ADD_INCREMENT == 0 {
            1
        } else {
            32
        }
    }

    pub fn sprt_pattern_address(&self) -> (r: u16)
        ensures
            r == if self.has(CTRL_SPRITE_PATTERN_ADDR) { 0x1000u16 } else { 0u16 },
    {
        if self.bits & CTRL_SPRITE_PATTERN_ADDR == 0 {
            0
        } else {
            0x1000
        }
    }

    pub fn bknd_pattern_address(&self) -> (r: u16)
        ensures
            r == if self.has(CTRL_BACKGROUND_PATTERN_ADDR) { 0x1000u16 } else { 0u16 },
    {
        if self.bits & CTRL_BACKGROUND_PATTERN_ADDR == 0 {
            0
        } else {
            0x1000
        }
    }

    pub fn sprite_size(&self) -> (r: u8)
        ensures
            r == if self.has(CTRL_SPRITE_SIZE) { 16u8 } else { 8u8 },
    {
        if self.bits & CTRL_SPRITE_SIZE == 0 {
            8
        } else {
            16
        }
    }

    pub fn master_slave_select(&self) -> (r: u8)
        ensures
            r == if self.has(CTRL_MASTER_SLAVE_SELECT) { 1u8 } else { 0u8 },
    {
        if self.bits & CTRL_MASTER_SLAVE_SELECT == 0 {
            0
        } else {
            1
        }
    }

    pub fn generate_vblank_nmi(&self) -> (r: bool)
        ensures
            r == self.has(CTRL_GENERATE_NMI),
    {
        self.bits & CTRL_GENERATE_NMI != 0
    }

    pub fn update(&mut self, data: u8)
        ensures
            final(self).bits == data,
    {
        self.bits = data;
    }
}

/// The mask register: greyscale, left-column, show, and emphasis bits.
#[derive(Clone, Copy, PartialEq, Eq, Structural)]
pub struct MaskRegister {
    pub bits: u8,
}

/// A colour channel selected for emphasis.
#[derive(Debug, Clone, Copy, PartialEq, Eq, Structural)]
pub enum Color {
    Red,
    Green,
    Blue,
}

impl MaskRegister {
    pub open spec fn has(self, mask: u8) -> bool {
        self.bits & mask != 0
    }

    pub fn new() -> (r: MaskRegister)
        ensures
            r.bits == 0,
    {
        MaskRegister { bits: 0 }
    }

    pub fn is_grayscale(&self) -> (r: bool)
        ensures
            r == self.has(MASK_GREYSCALE),
    {
        self.bits & MASK_GREYSCALE != 0
    }

    pub fn leftmost_8pxl_background(&self) -> (r: bool)
        ensures
            r == self.has(MASK_LEFTMOST_8PXL_BACKGROUND),
    {
        self.bits & MASK_LEFTMOST_8PXL_BACKGROUND != 0
    }

    pub fn leftmost_8pxl_sprite(&self) -> (r: bool)
        ensures
            r == self.has(MASK_LEFTMOST_8PXL_SPRITE),
    {
        self.bits & MASK_LEFTMOST_8PXL_SPRITE != 0
    }

    pub fn show_background(&self) -> (r: bool)
        ensures
            r == self.has(MASK_SHOW_BACKGROUND),
    {
        self.bits & MASK_SHOW_BACKGROUND != 0
    }

    pub fn show_sprites(&self) -> (r: bool)
        ensures
            r == self.has(MASK_SHOW_SPRITES),
    {
        self.bits & MASK_SHOW_SPRITES != 0
    }

    /// The channels marked for emphasis, in red, blue, green order.
    pub fn emphasise(&self) -> (r: Vec<Color>)
        ensures
            r@ == emphasis_list(*self),
    {
        let mut result: Vec<Color> = Vec::new();
        if self.bits & MASK_EMPHASISE_RED != 0 {
            result.push(Color::Red);
        }
        if self.bits & MASK_EMPHASISE_BLUE != 0 {
            result.push(Color::Blue);
        }
        if self.bits & MASK_EMPHASISE_GREEN != 0 {
            result.push(Color::Green);
        }
        proof {
            assert(result@ =~= emphasis_list(*self));
        }
        result
    }

    pub fn update(&mut self, data: u8)
        ensures
            final(self).bits == data,
    {
        self.bits = data;
    }
}

/// The emphasis channels of a mask value, in red, blue, green order.
pub open spec fn emphasis_list(m: MaskRegister) -> Seq<Color> {
    let red: Seq<Color> = if m.has(MASK_EMPHASISE_RED) {
        seq![Color::Red]
    } else {
        Seq::empty()
    };
    let blue: Seq<Color> = if m.has(MASK_EMPHASISE_BLUE) {
        seq![Color::Blue]
    } else {
        Seq::empty()
    };
    let green: Seq<Color> = if m.has(MASK_EMPHASISE_GREEN) {
        seq![Color::Green]
    } else {
        Seq::empty()
    };
    red + blue + green
}

/// The two scroll offsets, written through their own high/low toggle.
#[derive(Clone, Copy, PartialEq, Eq, Structural)]
pub struct ScrollRegister {
    pub scroll_x: u8,
    pub scroll_y: u8,
    pub latch: bool,
}

impl ScrollRegister {
    /// One byte written through the toggle: x first, then y.
    pub open spec fn spec_write(self, data: u8) -> ScrollRegister {
        if !self.latch {
            ScrollRegister { scroll_x: data, latch: true, ..self }
        } else {
            ScrollRegister { scroll_y: data, latch: false, ..self }
        }
    }

    pub open spec fn spec_reset_latch(self) -> ScrollRegister {
        ScrollRegister { latch: false, ..self }
    }

    pub fn new() -> (r: ScrollRegister)
        ensures
            r == (ScrollRegister { scroll_x: 0, scroll_y: 0, latch: false }),
    {
        ScrollRegister { scroll_x: 0, scroll_y: 0, latch: false }
    }

    pub fn write(&mut self, data: u8)
        ensures
            *final(self) == old(self).spec_write(data),
    {
        if !self.latch {
            self.scroll_x = data;
        } else {
            self.scroll_y = data;
        }
        self.latch = !self.latch;
    }

    pub fn reset_latch(&mut self)
        ensures
            *final(self) == old(self).spec_reset_latch(),
    {
        self.latch = false;
    }
}

/// The status register: vblank, sprite-zero-hit and sprite-overflow bits.
#[derive(Clone, Copy, PartialEq, Eq, Structural)]
pub struct StatusRegister {
    pub bits: u8,
}

/// A byte with one bit forced set or cleared.
pub open spec fn set_bit(bits: u8, mask: u8, on: bool) -> u8 {
    if on {
        bits | mask
    } else {
        bits & !mask
    }
}

impl StatusRegister {
    pub open spec fn has(self, mask: u8) -> bool {
        self.bits & mask != 0
    }

    pub fn new() -> (r: StatusRegister)
        ensures
            r.bits == 0,
    {
        StatusRegister { bits: 0 }
    }

    pub fn set_vblank_status(&mut self, status: bool)
        ensures
            final(self).bits == set_bit(old(self).bits, STATUS_VBLANK_STARTED, status),
    {
        if status {
            self.bits = self.bits | STATUS_VBLANK_STARTED;
        } else {
            self.bits = self.bits & !STATUS_VBLANK_STARTED;
        }
    }

    pub fn set_sprite_zero_hit(&mut self, status: bool)
        ensures
            final(self).bits == set_bit(old(self).bits, STATUS_SPRITE_ZERO_HIT, status),
    {
        if status {
            self.bits = self.bits | STATUS_SPRITE_ZERO_HIT;
        } else {
            self.bits = self.bits & !STATUS_SPRITE_ZERO_HIT;
        }
    }

    pub fn set_sprite_overflow(&mut self, status: bool)
        ensures
            final(self).bits == set_bit(old(self).bits, STATUS_SPRITE_OVERFLOW, status),
    {
        if status {
            self.bits = self.bits | STATUS_SPRITE_OVERFLOW;
        } else {
            self.bits = self.bits & !STATUS_SPRITE_OVERFLOW;
        }
    }

    pub fn reset_vblank_status(&mut self)
        ensures
            final(self).bits == (old(self).bits & !STATUS_VBLANK_STARTED),
    {
        self.bits = self.bits & !STATUS_VBLANK_STARTED;
    }

    pub fn is_in_vblank(&self) -> (r: bool)
        ensures
            r == self.has(STATUS_VBLANK_STARTED),
    {
        self.bits & STATUS_VBLANK_STARTED != 0
    }

    pub fn snapshot(&self) -> (r: u8)
        ensures
            r == self.bits,
    {
        self.bits
    }
}

} // verus!

verus! {

/// Mathematical image of the whole graphics unit.
#[verifier::ext_equal]
pub struct PpuView {
    pub chr_rom: Seq<u8>,
    pub mirroring: Mirroring,
    pub control: ControlRegister,
    pub mask: MaskRegister,
    pub status: StatusRegister,
    pub scroll: ScrollRegister,
    pub address: AddressRegister,
    pub vram: Seq<u8>,
    pub oam_address: u8,
    pub oam_data: Seq<u8>,
    pub palette_table: Seq<u8>,
    pub internal_data_buf: u8,
    pub scanline: u16,
    pub cycles: nat,
    pub nmi_interrupt: Option<u8>,
}

impl PpuView {
    /// Memory banks have their hardware sizes and the timing counters sit
    /// inside one frame.
    pub open spec fn wf(self) -> bool {
        &&& self.vram.len() == 2048
        &&& self.oam_data.len() == 256
        &&& self.palette_table.len() == 32
        &&& self.cycles < 341
        &&& self.scanline < 262
    }
}

/// Storage index in the 2KB nametable memory that a video-space address
/// reaches under the given mirroring mode.
pub open spec fn mirror_idx(mode: Mirroring, address: u16) -> int {
    let mirrored = address & 0x2fff;
    let vram_index = mirrored - 0x2000;
    let name_table = vram_index / 0x400;
    match mode {
        Mirroring::Vertical => if name_table == 2 || name_table == 3 {
            vram_index - 0x800
        } else {
            vram_index
        },
        Mirroring::Horizontal => if name_table == 1 || name_table == 2 {
            vram_index - 0x400
        } else if name_table == 3 {
            vram_index - 0x800
        } else {
            vram_index
        },
        Mirroring::FourScreen => vram_index,
    }
}

/// Index in the 32-byte palette memory for a palette-space address,
/// including the aliasing of the four sprite backdrop entries.
pub open spec fn palette_idx(address: u16) -> int {
    let base = (address - 0x3f00) % 32;
    if base == 0x10 || base == 0x14 || base == 0x18 || base == 0x1c {
        base - 0x10
    } else {
        base
    }
}

/// The address register stepped by the configured increment.
pub open spec fn vram_step(v: PpuView) -> AddressRegister {
    v.address.spec_increment(v.control.spec_vram_address_increment())
}

/// Effect of reading the status register: the value before the read comes
/// back, the vblank bit clears, and both write toggles reset.
pub open spec fn ppu_read_status(v: PpuView) -> (PpuView, u8) {
    (
        PpuView {
            status: StatusRegister { bits: v.status.bits & !STATUS_VBLANK_STARTED },
            address: v.address.spec_reset_latch(),
            scroll: v.scroll.spec_reset_latch(),
            ..v
        },
        v.status.bits,
    )
}

/// Effect of writing the control register: newly enabling interrupts while
/// already inside vertical blank raises an interrupt at once.
pub open spec fn ppu_write_control(v: PpuView, data: u8) -> PpuView {
    let retrigger = !v.control.has(CTRL_GENERATE_NMI) && (data & CTRL_GENERATE_NMI != 0)
        && v.status.has(STATUS_VBLANK_STARTED);
    PpuView {
        control: ControlRegister { bits: data },
        nmi_interrupt: if retrigger {
            Some(1u8)
        } else {
            v.nmi_interrupt
        },
        ..v
    }
}

/// Effect of a data-register read: buffered for pattern and nametable
/// space, direct for palette space, and the address register steps.
pub open spec fn ppu_read_data(v: PpuView) -> (PpuView, u8) {
    let a = v.address.spec_get();
    let stepped = PpuView { address: vram_step(v), ..v };
    if a < 0x2000 {
        let fetched: u8 = if a < v.chr_rom.len() {
            v.chr_rom[a as int]
        } else {
            0u8
        };
        (PpuView { internal_data_buf: fetched, ..stepped }, v.internal_data_buf)
    } else if a < 0x3f00 {
        let mi = mirror_idx(v.mirroring, a);
        let fetched: u8 = if 0 <= mi < v.vram.len() {
            v.vram[mi]
        } else {
            0u8
        };
        (PpuView { internal_data_buf: fetched, ..stepped }, v.internal_data_buf)
    } else {
        (stepped, v.palette_table[palette_idx(a)])
    }
}

/// Effect of a data-register write: pattern space ignores it, nametable
/// space goes through mirroring, palette space through its aliasing, and
/// the address register steps.
pub open spec fn ppu_write_data(v: PpuView, data: u8) -> PpuView {
    let a = v.address.spec_get();
    let stepped = PpuView { address: vram_step(v), ..v };
    if a < 0x2000 {
        stepped
    } else if a < 0x3f00 {
        let mi = mirror_idx(v.mirroring, a);
        if 0 <= mi < v.vram.len() {
            PpuView { vram: v.vram.update(mi, data), ..stepped }
        } else {
            stepped
        }
    } else {
        PpuView { palette_table: v.palette_table.update(palette_idx(a), data), ..stepped }
    }
}

/// Effect of an attribute-memory write: the cell under the cursor takes the
/// value and the cursor steps with wraparound.
pub open spec fn ppu_write_oam_data(v: PpuView, data: u8) -> PpuView {
    PpuView {
        oam_data: v.oam_data.update(v.oam_address as int, data),
        oam_address: v.oam_address.wrapping_add(1),
        ..v
    }
}

/// Attribute memory after a bulk transfer of `count` bytes of `data`
/// starting at cursor position `start`.
pub open spec fn oam_dma_fold(oam: Seq<u8>, start: u8, data: Seq<u8>, count: int) -> Seq<u8>
    decreases count,
{
    if count <= 0 {
        oam
    } else {
        oam_dma_fold(oam, start, data, count - 1).update(
            (start + count - 1) % 256,
            data[count - 1],
        )
    }
}

/// Effect of advancing the timing counters by `dots` dots: at most one
/// scanline boundary is crossed; entering scanline 241 starts vertical
/// blank and may raise an interrupt; wrapping past the last scanline ends
/// the frame, clearing vblank, sprite-zero-hit, and any pending interrupt.
pub open spec fn ppu_tick(v: PpuView, dots: u16) -> (PpuView, bool) {
    let c = v.cycles + dots;
    if c >= 341 {
        let c2 = (c - 341) as nat;
        let s = v.scanline + 1;
        if s >= 262 {
            (
                PpuView {
                    cycles: c2,
                    scanline: 0,
                    nmi_interrupt: None,
                    status: StatusRegister {
                        bits: v.status.bits & !STATUS_SPRITE_ZERO_HIT & !STATUS_VBLANK_STARTED,
                    },
                    ..v
                },
                true,
            )
        } else {
            let entering = s == 241;
            (
                PpuView {
                    cycles: c2,
                    scanline: s as u16,
                    status: if entering {
                        StatusRegister {
                            bits: (v.status.bits | STATUS_VBLANK_STARTED) & !STATUS_SPRITE_ZERO_HIT,
                        }
                    } else {
                        v.status
                    },
                    nmi_interrupt: if entering && v.control.has(CTRL_GENERATE_NMI) {
                        Some(1u8)
                    } else {
                        v.nmi_interrupt
                    },
                    ..v
                },
                false,
            )
        }
    } else {
        (PpuView { cycles: c as nat, ..v }, false)
    }
}

} // verus!

verus! {

/// The graphics unit itself.
pub struct PPU {
    pub chr_rom: Vec<u8>,
    pub mirroring: Mirroring,
    pub control: ControlRegister,
    pub mask: MaskRegister,
    pub status: StatusRegister,
    pub scroll: ScrollRegister,
    pub address: AddressRegister,
    pub vram: Vec<u8>,
    pub oam_address: u8,
    pub oam_data: Vec<u8>,
    pub palette_table: Vec<u8>,
    pub internal_data_buf: u8,
    pub scanline: u16,
    pub cycles: usize,
    pub nmi_interrupt: Option<u8>,
}

impl View for PPU {
    type V = PpuView;

    open spec fn view(&self) -> PpuView {
        PpuView {
            chr_rom: self.chr_rom@,
            mirroring: self.mirroring,
            control: self.control,
            mask: self.mask,
            status: self.status,
            scroll: self.scroll,
            address: self.address,
            vram: self.vram@,
            oam_address: self.oam_address,
            oam_data: self.oam_data@,
            palette_table: self.palette_table@,
            internal_data_buf: self.internal_data_buf,
            scanline: self.scanline,
            cycles: self.cycles as nat,
            nmi_interrupt: self.nmi_interrupt,
        }
    }
}

/// A vector of `n` copies of `fill`.
fn filled_vec(n: usize, fill: u8) -> (r: Vec<u8>)
    ensures
        r@ == Seq::new(n as nat, |i: int| fill),
{
    let mut out: Vec<u8> = Vec::new();
    let mut i: usize = 0;
    while i < n
        invariant
            i <= n,
            out@.len() == i,
            forall|j: int| 0 <= j < i ==> out@[j] == fill,
        decreases n - i,
    {
        out.push(fill);
        i = i + 1;
    }
    proof {
        assert(out@ =~= Seq::new(n as nat, |i: int| fill));
    }
    out
}

impl PPU {
    pub open spec fn wf(self) -> bool {
        self@.wf()
    }

    /// A fresh graphics unit over the given pattern data.
    pub fn new(chr_rom: Vec<u8>, mirroring: Mirroring) -> (r: PPU)
        ensures
            r.wf(),
            r@.chr_rom == chr_rom@,
            r@.mirroring == mirroring,
            r@.control.bits == 0,
            r@.mask.bits == 0,
            r@.status.bits == 0,
            r@.scroll == (ScrollRegister { scroll_x: 0, scroll_y: 0, latch: false }),
            r@.address == (AddressRegister { high: 0, low: 0, high_pointer: true }),
            r@.vram == Seq::new(2048, |i: int| 0u8),
            r@.oam_address == 0,
            r@.oam_data == Seq::new(256, |i: int| 0u8),
            r@.palette_table == Seq::new(32, |i: int| 0u8),
            r@.internal_data_buf == 0,
            r@.scanline == 0,
            r@.cycles == 0,
            r@.nmi_interrupt is None,
    {
        PPU {
            chr_rom,
            mirroring,
            control: ControlRegister::new(),
            mask: MaskRegister::new(),
            status: StatusRegister::new(),
            scroll: ScrollRegister::new(),
            address: AddressRegister::new(),
            vram: filled_vec(2048, 0),
            oam_address: 0,
            oam_data: filled_vec(256, 0),
            palette_table: filled_vec(32, 0),
            internal_data_buf: 0,
            scanline: 0,
            cycles: 0,
            nmi_interrupt: None,
        }
    }

    /// A fresh graphics unit with blank pattern data and horizontal
    /// mirroring, for exercising the registers.
    pub fn new_empty_rom() -> (r: PPU)
        ensures
            r.wf(),
            r@.chr_rom == Seq::new(2048, |i: int| 0u8),
            r@.mirroring == Mirroring::Horizontal,
            r@.control.bits == 0,
            r@.mask.bits == 0,
            r@.status.bits == 0,
            r@.vram == Seq::new(2048, |i: int| 0u8),
            r@.oam_address == 0,
            r@.oam_data == Seq::new(256, |i: int| 0u8),
            r@.palette_table == Seq::new(32, |i: int| 0u8),
            r@.address == (AddressRegister { high: 0, low: 0, high_pointer: true }),
            r@.scroll == (ScrollRegister { scroll_x: 0, scroll_y: 0, latch: false }),
            r@.internal_data_buf == 0,
            r@.scanline == 0,
            r@.cycles == 0,
            r@.nmi_interrupt is None,
    {
        PPU::new(filled_vec(2048, 0), Mirroring::Horizontal)
    }

    /// Storage index that a nametable-space address reaches.
    pub fn mirror_vram_address(&self, address: u16) -> (r: u16)
        requires
            0x2000 <= address <= 0x3fff,
        ensures
            r == mirror_idx(self@.mirroring, address),
            self@.mirroring != Mirroring::FourScreen ==> r < 0x800,
            r < 0x1000,
    {
        proof {
            assert(0x2000 <= (address & 0x2fff) <= 0x2fff) by (bit_vector)
                requires 0x2000 <= address <= 0x3fff;
        }
        let mirrored_vram = address & 0x2fff;
        let vram_index = mirrored_vram - 0x2000;
        let name_table = vram_index / 0x400;
        match self.mirroring {
            Mirroring::Vertical => {
                if name_table == 2 || name_table == 3 {
                    vram_index - 0x800
                } else {
                    vram_index
                }
            },
            Mirroring::Horizontal => {
                if name_table == 1 || name_table == 2 {
                    vram_index - 0x400
                } else if name_table == 3 {
                    vram_index - 0x800
                } else {
                    vram_index
                }
            },
            Mirroring::FourScreen => vram_index,
        }
    }

    fn increment_vram_address(&mut self)
        ensures
            *final(self) == (PPU { address: vram_step(old(self)@), ..*old(self) }),
    {
        self.address.increment(self.control.vram_address_increment());
    }

    /// Advances the timing counters; the result reports whether the frame
    /// completed during this step.
    pub fn tick(&mut self, cycles: u8) -> (r: bool)
        requires
            old(self).wf(),
        ensures
            final(self).wf(),
            (final(self)@, r) == ppu_tick(old(self)@, cycles as u16),
    {
        self.cycles = self.cycles + cycles as usize;
        if self.cycles >= 341 {
            self.cycles = self.cycles - 341;
            self.scanline = self.scanline + 1;

            if self.scanline == 241 {
                self.status.set_vblank_status(true);
                self.status.set_sprite_zero_hit(false);
                if self.control.generate_vblank_nmi() {
                    self.nmi_interrupt = Some(1);
                }
            }

            if self.scanline >= 262 {
                self.scanline = 0;
                self.nmi_interrupt = None;
                self.status.set_sprite_zero_hit(false);
                self.status.reset_vblank_status();
                proof {
                    assert(self@ =~= ppu_tick(old(self)@, cycles as u16).0);
                }
                return true;
            }
            proof {
                assert(self@ =~= ppu_tick(old(self)@, cycles as u16).0);
            }
            return false;
        }
        proof {
            assert(self@ =~= ppu_tick(old(self)@, cycles as u16).0);
        }
        false
    }

    /// Hands out a pending interrupt request, consuming it.
    pub fn poll_nmi_interrupt(&mut self) -> (r: Option<u8>)
        ensures
            r == old(self)@.nmi_interrupt,
            *final(self) == (PPU { nmi_interrupt: None, ..*old(self) }),
    {
        let r = self.nmi_interrupt;
        self.nmi_interrupt = None;
        r
    }

    pub fn write_to_control(&mut self, value: u8)
        ensures
            final(self)@ == ppu_write_control(old(self)@, value),
            final(self).wf() == old(self).wf(),
    {
        let before_nmi_status = self.control.generate_vblank_nmi();
        self.control.update(value);
        if !before_nmi_status && self.control.generate_vblank_nmi() && self.status.is_in_vblank() {
            self.nmi_interrupt = Some(1);
        }
        proof {
            assert(self@ =~= ppu_write_control(old(self)@, value));
        }
    }

    pub fn write_to_mask(&mut self, value: u8)
        ensures
            *final(self) == (PPU { mask: MaskRegister { bits: value }, ..*old(self) }),
    {
        self.mask.update(value);
    }

    /// Reads the status register: returns it, clears the vblank bit, and
    /// resets both write toggles.
    pub fn read_status(&mut self) -> (r: u8)
        ensures
            (final(self)@, r) == ppu_read_status(old(self)@),
            final(self).wf() == old(self).wf(),
    {
        let data = self.status.snapshot();
        self.status.reset_vblank_status();
        self.address.reset_latch();
        self.scroll.reset_latch();
        proof {
            assert(self@ =~= ppu_read_status(old(self)@).0);
        }
        data
    }

    pub fn write_to_oam_address(&mut self, value: u8)
        ensures
            *final(self) == (PPU { oam_address: value, ..*old(self) }),
    {
        self.oam_address = value;
    }

    pub fn write_to_oam_data(&mut self, value: u8)
        requires
            old(self).wf(),
        ensures
            final(self).wf(),
            final(self)@ == ppu_write_oam_data(old(self)@, value),
    {
        self.oam_data[self.oam_address as usize] = value;
        self.oam_address = self.oam_address.wrapping_add(1);
        proof {
            assert(self@ =~= ppu_write_oam_data(old(self)@, value));
        }
    }

    pub fn read_oam_data(&self) -> (r: u8)
        requires
            self.wf(),
        ensures
            r == self@.oam_data[self@.oam_address as int],
    {
        self.oam_data[self.oam_address as usize]
    }

    pub fn write_to_scroll(&mut self, value: u8)
        ensures
            *final(self) == (PPU { scroll: old(self).scroll.spec_write(value), ..*old(self) }),
    {
        self.scroll.write(value);
    }

    pub fn write_to_ppu_address(&mut self, value: u8)
        ensures
            *final(self) == (PPU { address: old(self).address.spec_update(value), ..*old(self) }),
    {
        self.address.update(value);
    }

    /// Writes through the data register at the latched address, then steps
    /// the address register.
    pub fn write_to_data(&mut self, value: u8)
        requires
            old(self).wf(),
        ensures
            final(self).wf(),
            final(self)@ == ppu_write_data(old(self)@, value),
    {
        let address = self.address.get();
        if address < 0x2000 {
            // pattern space is read-only; the write is dropped
        } else if address < 0x3f00 {
            let mi = self.mirror_vram_address(address);
            if mi < 2048 {
                self.vram[mi as usize] = value;
            }
        } else {
            let base = ((address - 0x3f00) % 32) as usize;
            let idx = if base == 0x10 || base == 0x14 || base == 0x18 || base == 0x1c {
                base - 0x10
            } else {
                base
            };
            self.palette_table[idx] = value;
        }
        self.increment_vram_address();
        proof {
            assert(self@ =~= ppu_write_data(old(self)@, value));
        }
    }

    /// Reads through the data register at the latched address, then steps
    /// the address register. Pattern and nametable reads come back one
    /// access late through the internal buffer; palette reads bypass it.
    pub fn read_data(&mut self) -> (r: u8)
        requires
            old(self).wf(),
        ensures
            final(self).wf(),
            (final(self)@, r) == ppu_read_data(old(self)@),
    {
        let address = self.address.get();
        self.increment_vram_address();

        if address < 0x2000 {
            let result = self.internal_data_buf;
            self.internal_data_buf = if (address as usize) < self.chr_rom.len() {
                self.chr_rom[address as usize]
            } else {
                0
            };
            proof {
                assert(self@ =~= ppu_read_data(old(self)@).0);
            }
            result
        } else if address < 0x3f00 {
            let mi = self.mirror_vram_address(address);
            let result = self.internal_data_buf;
            self.internal_data_buf = if mi < 2048 {
                self.vram[mi as usize]
            } else {
                0
            };
            proof {
                assert(self@ =~= ppu_read_data(old(self)@).0);
            }
            result
        } else {
            let base = ((address - 0x3f00) % 32) as usize;
            let idx = if base == 0x10 || base == 0x14 || base == 0x18 || base == 0x1c {
                base - 0x10
            } else {
                base
            };
            proof {
                assert(self@ =~= ppu_read_data(old(self)@).0);
            }
            self.palette_table[idx]
        }
    }

    /// Bulk transfer of 256 bytes into sprite attribute memory, starting at
    /// the current cursor and wrapping around it.
    pub fn write_oam_dma(&mut self, data: &Vec<u8>)
        requires
            old(self).wf(),
            data@.len() == 256,
        ensures
            final(self).wf(),
            final(self)@ == (PpuView {
                oam_data: oam_dma_fold(old(self)@.oam_data, old(self)@.oam_address, data@, 256),
                ..old(self)@
            }),
    {
        let mut i: usize = 0;
        while i < 256
            invariant
                i <= 256,
                data@.len() == 256,
                self.oam_data@.len() == 256,
                self.oam_data@ == oam_dma_fold(old(self)@.oam_data, old(self)@.oam_address, data@, i as int),
                self.oam_address == (old(self)@.oam_address + i) % 256,
                self.chr_rom@ == old(self)@.chr_rom,
                self.mirroring == old(self)@.mirroring,
                self.control == old(self)@.control,
                self.mask == old(self)@.mask,
                self.status == old(self)@.status,
                self.scroll == old(self)@.scroll,
                self.address == old(self)@.address,
                self.vram@ == old(self)@.vram,
                self.palette_table@ == old(self)@.palette_table,
                self.internal_data_buf == old(self)@.internal_data_buf,
                self.scanline == old(self)@.scanline,
                self.cycles as nat == old(self)@.cycles,
                self.nmi_interrupt == old(self)@.nmi_interrupt,
            decreases 256 - i,
        {
            self.oam_data[self.oam_address as usize] = data[i];
            self.oam_address = self.oam_address.wrapping_add(1);
            i = i + 1;
        }
        proof {
            assert(self.oam_address == old(self)@.oam_address);
            assert(self@ =~= (PpuView {
                oam_data: oam_dma_fold(old(self)@.oam_data, old(self)@.oam_address, data@, 256),
                ..old(self)@
            }));
        }
    }
}

} // verus!

verus! {

/// Total dot count of a sequence of tick increments.
pub open spec fn dots_sum(ds: Seq<u16>) -> int
    decreases ds.len(),
{
    if ds.len() == 0 {
        0
    } else {
        ds.first() + dots_sum(ds.drop_first())
    }
}

/// The graphics unit folded over a sequence of tick increments, together
/// with the number of frame-completion signals raised along the way.
pub open spec fn run_ticks(v: PpuView, ds: Seq<u16>) -> (PpuView, int)
    decreases ds.len(),
{
    if ds.len() == 0 {
        (v, 0)
    } else {
        let stepped = ppu_tick(v, ds.first());
        let rest = run_ticks(stepped.0, ds.drop_first());
        (rest.0, rest.1 + if stepped.1 { 1int } else { 0int })
    }
}

proof fn lemma_dots_sum_nonneg(ds: Seq<u16>)
    ensures
        dots_sum(ds) >= 0,
    decreases ds.len(),
{
    if ds.len() > 0 {
        lemma_dots_sum_nonneg(ds.drop_first());
    }
}

proof fn lemma_run_ticks_zero_sum(v: PpuView, ds: Seq<u16>)
    requires
        v.cycles < 341,
        dots_sum(ds) == 0,
    ensures
        run_ticks(v, ds).0 == v,
        run_ticks(v, ds).1 == 0,
    decreases ds.len(),
{
    if ds.len() > 0 {
        let d = ds.first();
        let rest = ds.drop_first();
        lemma_dots_sum_nonneg(rest);
        assert(d == 0);
        let stepped = ppu_tick(v, d);
        assert(stepped.0 == v);
        lemma_run_ticks_zero_sum(v, rest);
    }
}

proof fn lemma_run_ticks_to_frame_end(v: PpuView, ds: Seq<u16>)
    requires
        v.cycles < 341,
        v.scanline < 262,
        forall|i: int| 0 <= i < ds.len() ==> #[trigger] ds[i] <= 341,
        v.scanline * 341 + v.cycles + dots_sum(ds) == 262 * 341,
    ensures
        run_ticks(v, ds).1 == 1,
        run_ticks(v, ds).0.cycles == 0,
        run_ticks(v, ds).0.scanline == 0,
        !run_ticks(v, ds).0.status.has(STATUS_VBLANK_STARTED),
        run_ticks(v, ds).0.nmi_interrupt is None,
    decreases ds.len(),
{
    assert(v.scanline * 341 + v.cycles < 262 * 341) by (nonlinear_arith)
        requires v.cycles < 341 && v.scanline < 262;
    if ds.len() == 0 {
        assert(false);
    } else {
        let d = ds.first();
        let rest = ds.drop_first();
        assert(d == ds[0]);
        assert(forall|i: int| 0 <= i < rest.len() ==> #[trigger] rest[i] <= 341) by {
            assert forall|i: int| 0 <= i < rest.len() implies #[trigger] rest[i] <= 341 by {
                assert(rest[i] == ds[i + 1]);
            }
        }
        let stepped = ppu_tick(v, d);
        let v1 = stepped.0;
        if v.cycles + d < 341 {
            assert(v1.scanline == v.scanline && v1.cycles == v.cycles + d);
            assert(!stepped.1);
            lemma_run_ticks_to_frame_end(v1, rest);
        } else {
            let s = v.scanline + 1;
            if s < 262 {
                assert(v1.scanline == s && v1.cycles == v.cycles + d - 341);
                assert(!stepped.1);
                assert(v1.scanline * 341 + v1.cycles == v.scanline * 341 + v.cycles + d)
                    by (nonlinear_arith)
                    requires v1.scanline == v.scanline + 1 && v1.cycles == v.cycles + d - 341
                        && v.cycles + d >= 341;
                lemma_run_ticks_to_frame_end(v1, rest);
            } else {
                // the wrap: this must be the last increment
                assert(v.scanline == 261);
                assert(stepped.1);
                assert(v.scanline * 341 + v.cycles + d >= 262 * 341) by (nonlinear_arith)
                    requires v.scanline == 261 && v.cycles + d >= 341;
                assert(dots_sum(ds) == d + dots_sum(rest));
                lemma_dots_sum_nonneg(rest);
                assert(dots_sum(rest) == 0);
                assert(v.scanline * 341 + v.cycles + d == 262 * 341);
                assert(v.cycles + d == 341) by (nonlinear_arith)
                    requires v.scanline == 261 && v.scanline * 341 + v.cycles + d == 262 * 341;
                assert(v1.cycles == 0);
                lemma_run_ticks_zero_sum(v1, rest);
                assert(run_ticks(v1, rest).0 == v1 && run_ticks(v1, rest).1 == 0);
                assert(run_ticks(v, ds).0 == v1);
                assert(v1.scanline == 0);
                let sb = v.status.bits;
                assert((sb & !STATUS_SPRITE_ZERO_HIT & !STATUS_VBLANK_STARTED)
                    & STATUS_VBLANK_STARTED == 0) by (bit_vector);
                assert(run_ticks(v, ds).1 == 1);
            }
        }
    }
}

/// Advancing the timing counters across exactly one full frame of dots
/// (341 dots on each of 262 scanlines), in steps of at most one scanline
/// each — zero-dot steps included — raises the frame-completion signal
/// exactly once and leaves the vertical-blank bit clear, no interrupt
/// request pending, and the counters back at the frame start.
pub proof fn lemma_frame_boundary(v: PpuView, ds: Seq<u16>)
    requires
        v.cycles == 0,
        v.scanline == 0,
        forall|i: int| 0 <= i < ds.len() ==> #[trigger] ds[i] <= 341,
        dots_sum(ds) == 262 * 341,
    ensures
        run_ticks(v, ds).1 == 1,
        !run_ticks(v, ds).0.status.has(STATUS_VBLANK_STARTED),
        run_ticks(v, ds).0.nmi_interrupt is None,
        run_ticks(v, ds).0.cycles == 0,
        run_ticks(v, ds).0.scanline == 0,
{
    lemma_run_ticks_to_frame_end(v, ds);
}

/// Two consecutive address-register writes followed by a status-register
/// read leave the toggle expecting a high byte, so a third write fills the
/// high half again (reduced to the 14-bit range).
pub proof fn lemma_address_toggle_reset(r: AddressRegister, a: u8, b: u8, c: u8)
    ensures
        ({
            let after = r.spec_update(a).spec_update(b).spec_reset_latch();
            &&& after.high_pointer
            &&& after.spec_update(c).high == if ((c as u16) << 8 | (after.low as u16)) > 0x3fff {
                c & 0x3f
            } else {
                c
            }
        }),
{
    let after = r.spec_update(a).spec_update(b).spec_reset_latch();
    let low = after.low;
    let g = (c as u16) << 8 | (low as u16);
    if g > 0x3fff {
        assert((((((c as u16) << 8 | (low as u16)) & 0x3fff) >> 8) as u8) == c & 0x3f)
            by (bit_vector);
    }
}

/// Under vertical mirroring, a nametable cell and the cell one mirror
/// stride (0x800) above it share storage: both reach index `offset`.
pub proof fn lemma_vertical_mirroring(offset: u16)
    requires
        offset < 0x400,
    ensures
        mirror_idx(Mirroring::Vertical, (0x2000 + offset) as u16) == offset,
        mirror_idx(Mirroring::Vertical, (0x2800 + offset) as u16) == offset,
{
    let a1 = (0x2000 + offset) as u16;
    let a2 = (0x2800 + offset) as u16;
    assert(a1 & 0x2fff == a1) by (bit_vector)
        requires a1 == (0x2000 + offset) as u16 && offset < 0x400;
    assert(a2 & 0x2fff == a2) by (bit_vector)
        requires a2 == (0x2800 + offset) as u16 && offset < 0x400;
    assert((a1 - 0x2000) / 0x400 == 0) by (nonlinear_arith)
        requires a1 == 0x2000 + offset && offset < 0x400;
    assert((a2 - 0x2000) / 0x400 == 2) by (nonlinear_arith)
        requires a2 == 0x2800 + offset && offset < 0x400;
}

/// Under horizontal mirroring, a nametable cell and the cell one mirror
/// stride (0x400) above it share storage: both reach index `offset`.
pub proof fn lemma_horizontal_mirroring(offset: u16)
    requires
        offset < 0x400,
    ensures
        mirror_idx(Mirroring::Horizontal, (0x2000 + offset) as u16) == offset,
        mirror_idx(Mirroring::Horizontal, (0x2400 + offset) as u16) == offset,
{
    let a1 = (0x2000 + offset) as u16;
    let a2 = (0x2400 + offset) as u16;
    assert(a1 & 0x2fff == a1) by (bit_vector)
        requires a1 == (0x2000 + offset) as u16 && offset < 0x400;
    assert(a2 & 0x2fff == a2) by (bit_vector)
        requires a2 == (0x2400 + offset) as u16 && offset < 0x400;
    assert((a1 - 0x2000) / 0x400 == 0) by (nonlinear_arith)
        requires a1 == 0x2000 + offset && offset < 0x400;
    assert((a2 - 0x2000) / 0x400 == 1) by (nonlinear_arith)
        requires a2 == 0x2400 + offset && offset < 0x400;
}

} // verus!

verus! {

proof fn lemma_mod_shift_distinct(u: int, d: int)
    requires
        0 <= u,
        0 < d < 256,
    ensures
        (u + d) % 256 != u % 256,
{
    vstd::arithmetic::div_mod::lemma_fundamental_div_mod(u, 256);
    vstd::arithmetic::div_mod::lemma_fundamental_div_mod(u + d, 256);
    if (u + d) % 256 == u % 256 {
        let k = (u + d) / 256 - u / 256;
        assert(d == 256 * k);
        assert(false);
    }
}

proof fn lemma_oam_dma_fold_len(oam: Seq<u8>, start: u8, data: Seq<u8>, count: int)
    requires
        oam.len() == 256,
    ensures
        oam_dma_fold(oam, start, data, count).len() == 256,
    decreases count,
{
    if count > 0 {
        lemma_oam_dma_fold_len(oam, start, data, count - 1);
    }
}

proof fn lemma_oam_dma_fold_at(oam: Seq<u8>, start: u8, data: Seq<u8>, count: int, i: int)
    requires
        oam.len() == 256,
        0 <= i < count <= 256,
    ensures
        oam_dma_fold(oam, start, data, count)[(start + i) % 256] == data[i],
    decreases count,
{
    lemma_oam_dma_fold_len(oam, start, data, count - 1);
    if i < count - 1 {
        lemma_oam_dma_fold_at(oam, start, data, count - 1, i);
        lemma_mod_shift_distinct(start + i, count - 1 - i);
    }
}

/// A bulk sprite-memory transfer lands every source byte: afterwards the
/// cell one step past the cursor for each offset — index
/// `(start + i) mod 256` — holds byte `i` of the source page.
pub proof fn lemma_oam_dma_lands_every_byte(oam: Seq<u8>, start: u8, data: Seq<u8>, i: int)
    requires
        oam.len() == 256,
        0 <= i < 256,
    ensures
        oam_dma_fold(oam, start, data, 256)[(start + i) % 256] == data[i],
{
    lemma_oam_dma_fold_at(oam, start, data, 256, i);
}

} // verus!
