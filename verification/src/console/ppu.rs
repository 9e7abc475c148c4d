//! The picture processing unit: walks the tile maps and object
//! attributes each scanline-equivalent step, decodes 2-bit-per-pixel
//! tile rows through pixel FIFOs, and fills an RGBA frame buffer that
//! the host presents. It touches the bus only through reads and the
//! interrupt-request register, and publishes its line counter.

use vstd::prelude::*;

use std::collections::VecDeque;

use crate::console::interrupts::{bit_u8, spec_bit_u8, spec_pow2_u8, STAT_I, VBLANK_I};
use crate::console::memory::Memory;
use crate::console::regids::IF;

verus! {

pub const LCD_WIDTH: usize = 160;

pub const LCD_HEIGHT: usize = 144;

pub const LCD_SIZE: usize = LCD_WIDTH * LCD_HEIGHT;

/// Bytes in the RGBA frame buffer.
pub const FRAME_BYTES: usize = LCD_SIZE * 4;

// Tile data blocks in video RAM.
pub const VB_0: u16 = 0x8000;

pub const VB_1: u16 = 0x8800;

pub const VB_2: u16 = 0x9000;

// Tile map areas.
pub const TMA_0: u16 = 0x9800;

pub const TMA_1: u16 = 0x9C00;

// Display registers.
pub const LCDC: u16 = 0xFF40;

pub const LY: u16 = 0xFF44;

pub const LYC: u16 = 0xFF46;

pub const STAT: u16 = 0xFF41;

pub const SCY: u16 = 0xFF42;

pub const SCX: u16 = 0xFF43;

pub const WY: u16 = 0xFF4A;

pub const WX: u16 = 0xFF4B;

pub const BGP: u16 = 0xFF47;

pub const OBP0: u16 = 0xFF48;

pub const OBP1: u16 = 0xFF49;

/// One entry of a pixel FIFO.
#[derive(Debug, Clone, Copy, PartialEq, Eq, Structural)]
pub struct Pixel {
    pub color: u8,
    pub palette: u8,
    pub sprite_prio: u8,
    pub bg_prio: u8,
}

impl Pixel {
    pub fn new(color: u8, palette: u8, sprite_prio: u8, bg_prio: u8) -> (r: Pixel)
        ensures
            r == (Pixel { color, palette, sprite_prio, bg_prio }),
    {
        Pixel { color, palette, sprite_prio, bg_prio }
    }
}

/// The 2-bit colour of pixel `p` (left to right) in a tile row whose
/// low and high bit planes are `low` and `high`.
pub open spec fn spec_pixel2(low: u8, high: u8, p: int) -> u8 {
    (low / spec_pow2_u8((7 - p) as u8) % 2 + 2 * (high / spec_pow2_u8((7 - p) as u8) % 2)) as u8
}

/// Decode one tile row from its two bit planes into eight 2-bit colour
/// values, left to right.
pub fn mix_bytes(low: u8, high: u8) -> (r: Vec<u8>)
    ensures
        r@.len() == 8,
        forall|p: int| 0 <= p < 8 ==> r@[p] == spec_pixel2(low, high, p),
{
    let mut out: Vec<u8> = Vec::new();
    let mut p: u8 = 0;
    while p < 8
        invariant
            p <= 8,
            out@.len() == p,
            forall|q: int| 0 <= q < p ==> out@[q] == spec_pixel2(low, high, q),
        decreases 8 - p,
    {
        let sh: u8 = crate::console::interrupts::pow2_u8(7 - p);
        let l: u8 = low / sh % 2;
        let h: u8 = high / sh % 2;
        out.push(l + 2 * h);
        p = p + 1;
    }
    out
}

/// As [`mix_bytes`], but reversed left-to-right when the horizontal
/// flip attribute is set; the vertical flip is resolved by the caller's
/// row selection.
pub fn mix_bytes_obj(low: u8, high: u8, y_flip: bool, x_flip: bool) -> (r: Vec<u8>)
    ensures
        r@.len() == 8,
        forall|p: int|
            0 <= p < 8 ==> r@[p] == spec_pixel2(low, high, if x_flip { 7 - p } else { p }),
{
    let base: Vec<u8> = mix_bytes(low, high);
    if x_flip {
        let mut out: Vec<u8> = Vec::new();
        let mut p: u8 = 0;
        while p < 8
            invariant
                p <= 8,
                out@.len() == p,
                base@.len() == 8,
                forall|q: int| 0 <= q < 8 ==> base@[q] == spec_pixel2(low, high, q),
                forall|q: int| 0 <= q < p ==> out@[q] == spec_pixel2(low, high, 7 - q),
            decreases 8 - p,
        {
            out.push(base[(7 - p) as usize]);
            p = p + 1;
        }
        out
    } else {
        base
    }
}

/// One 8x8 tile decoded from its 16 bytes: two bit planes per row, low
/// plane first, rows top to bottom.
pub struct Tile {
    pub pixels: Vec<u8>,
}

impl Tile {
    /// Decode 16 tile-data bytes into 64 2-bit colour values, row by
    /// row.
    pub fn new(data: [u8; 16]) -> (r: Tile)
        ensures
            r.pixels@.len() == 64,
            forall|row: int, col: int|
                0 <= row < 8 && 0 <= col < 8 ==> #[trigger] r.pixels@[8 * row + col]
                    == spec_pixel2(data@[2 * row], data@[2 * row + 1], col),
    {
        let mut pixels: Vec<u8> = Vec::new();
        let mut row: u8 = 0;
        while row < 8
            invariant
                row <= 8,
                pixels@.len() == 8 * row,
                forall|r0: int, c0: int|
                    0 <= r0 < row && 0 <= c0 < 8 ==> #[trigger] pixels@[8 * r0 + c0]
                        == spec_pixel2(data@[2 * r0], data@[2 * r0 + 1], c0),
            decreases 8 - row,
        {
            let low: u8 = data[(2 * row) as usize];
            let high: u8 = data[(2 * row + 1) as usize];
            let line: Vec<u8> = mix_bytes(low, high);
            let mut col: u8 = 0;
            let ghost pre: Seq<u8> = pixels@;
            while col < 8
                invariant
                    col <= 8,
                    row < 8,
                    pre.len() == 8 * row,
                    pixels@.len() == 8 * row + col,
                    line@.len() == 8,
                    forall|q: int| 0 <= q < 8 ==> line@[q] == spec_pixel2(data@[2 * (row as int)], data@[2 * (row as int) + 1], q),
                    forall|k: int| 0 <= k < pre.len() ==> pixels@[k] == pre[k],
                    forall|r0: int, c0: int|
                        0 <= r0 < row && 0 <= c0 < 8 ==> #[trigger] pre[8 * r0 + c0]
                            == spec_pixel2(data@[2 * r0], data@[2 * r0 + 1], c0),
                    forall|c0: int|
                        0 <= c0 < col ==> #[trigger] pixels@[8 * (row as int) + c0] == line@[c0],
                decreases 8 - col,
            {
                pixels.push(line[col as usize]);
                col = col + 1;
            }
            proof {
                assert forall|r0: int, c0: int|
                    0 <= r0 < row + 1 && 0 <= c0 < 8 implies #[trigger] pixels@[8 * r0 + c0]
                    == spec_pixel2(data@[2 * r0], data@[2 * r0 + 1], c0) by {
                    if r0 == row as int {
                        assert(pixels@[8 * (row as int) + c0] == line@[c0]);
                    } else {
                        assert(pixels@[8 * r0 + c0] == pre[8 * r0 + c0]);
                    }
                };
            }
            row = row + 1;
        }
        Tile { pixels }
    }
}

/// The sort key used to order objects for drawing: the screen x
/// coordinate, eight less than the stored byte, wrapping.
pub open spec fn spec_obj_key(mem: Seq<u8>, a: u16) -> u8 {
    ((mem[a + 1] + 248) % 256) as u8
}

fn obj_key(memory: &Memory, a: u16) -> (r: u8)
    requires
        memory.wf(),
        a < 0xFFFF,
    ensures
        r == spec_obj_key(memory@, a),
{
    let x: u8 = memory.read(a + 1);
    (((x as u16) + 248) % 256) as u8
}

/// Order object-attribute addresses by their screen x coordinate;
/// the element bounds are kept.
fn sort_by_x(v: &mut Vec<u16>, memory: &Memory)
    requires
        memory.wf(),
        forall|k: int| 0 <= k < old(v)@.len() ==> 0xFE00 <= #[trigger] old(v)@[k] < 0xFE9F,
    ensures
        final(v)@.len() == old(v)@.len(),
        forall|k: int| 0 <= k < final(v)@.len() ==> 0xFE00 <= #[trigger] final(v)@[k] < 0xFE9F,
        forall|k1: int, k2: int|
            0 <= k1 <= k2 < final(v)@.len() ==> spec_obj_key(memory@, #[trigger] final(v)@[k1])
                <= spec_obj_key(memory@, #[trigger] final(v)@[k2]),
{
    let n: usize = v.len();
    let mut i: usize = 0;
    while i < n
        invariant
            memory.wf(),
            i <= n,
            n == v@.len(),
            forall|k: int| 0 <= k < v@.len() ==> 0xFE00 <= #[trigger] v@[k] < 0xFE9F,
            forall|k1: int, k2: int|
                0 <= k1 <= k2 < i ==> spec_obj_key(memory@, #[trigger] v@[k1]) <= spec_obj_key(
                    memory@,
                    #[trigger] v@[k2],
                ),
            forall|k1: int, k2: int|
                0 <= k1 < i && i <= k2 < v@.len() ==> spec_obj_key(memory@, #[trigger] v@[k1])
                    <= spec_obj_key(memory@, #[trigger] v@[k2]),
        decreases n - i,
    {
        let mut min_idx: usize = i;
        let mut j: usize = i + 1;
        while j < n
            invariant
                memory.wf(),
                i < n,
                i <= min_idx < j,
                j <= n,
                n == v@.len(),
                forall|k: int| 0 <= k < v@.len() ==> 0xFE00 <= #[trigger] v@[k] < 0xFE9F,
                forall|k: int|
                    i <= k < j ==> spec_obj_key(memory@, v@[min_idx as int]) <= spec_obj_key(
                        memory@,
                        #[trigger] v@[k],
                    ),
            decreases n - j,
        {
            let kj: u8 = obj_key(memory, v[j]);
            let km: u8 = obj_key(memory, v[min_idx]);
            if kj < km {
                min_idx = j;
            }
            j = j + 1;
        }
        let a: u16 = v[i];
        let b: u16 = v[min_idx];
        v[i] = b;
        v[min_idx] = a;
        proof {
            assert(v@.len() == n);
        }
        i = i + 1;
    }
}

pub struct PPU {
    pub dots: usize,
    pub mode: u8,
    /// Fetcher coordinates.
    pub fx: u8,
    pub fy: u8,
    // Display register copies.
    pub lcdc: u8,
    pub ly: u8,
    pub lyc: u8,
    pub stat: u8,
    pub scy: u8,
    pub scx: u8,
    pub wy: u8,
    pub wx: u8,
    pub bgp: u8,
    pub obp0: u8,
    pub obp1: u8,
    pub bg_fifo: VecDeque<Pixel>,
    pub obj_fifo: VecDeque<Pixel>,
    /// The RGBA frame buffer, `FRAME_BYTES` long.
    pub bg: Vec<u8>,
}

/// The display registers re-read from the bus (the line counter is
/// owned by the unit itself and written back, not read).
pub open spec fn spec_ppu_regs_loaded(p: PPU, mem: Seq<u8>) -> PPU {
    PPU {
        lcdc: mem[LCDC as int],
        lyc: mem[LYC as int],
        stat: mem[STAT as int],
        scy: mem[SCY as int],
        scx: mem[SCX as int],
        wy: mem[WY as int],
        wx: mem[WX as int],
        bgp: mem[BGP as int],
        obp0: mem[OBP0 as int],
        obp1: mem[OBP1 as int],
        ..p
    }
}

/// The tile-map address the fetcher reads for the current coordinates,
/// after the scroll registers have been zeroed: the window map when the
/// window is enabled and covers the fetcher column, else the background
/// map, indexed by column and line-of-tiles.
pub open spec fn spec_tile_addr(p: PPU) -> u16 {
    let in_window = p.fx < p.wx / 8 && p.fx + 1 >= p.wx / 8 && p.fy >= p.wy && p.fy <= 143;
    let win_tma = if spec_bit_u8(p.lcdc, 6) {
        TMA_0
    } else {
        TMA_1
    };
    let bg_tma = if !spec_bit_u8(p.lcdc, 3) {
        TMA_0
    } else {
        TMA_1
    };
    let tma = if spec_bit_u8(p.lcdc, 5) && in_window {
        win_tma
    } else {
        bg_tma
    };
    (tma + (p.fx % 32) + 32 * ((p.ly / 8) as u16)) as u16
}

impl PPU {
    /// The frame buffer has its fixed size and the line counter stays
    /// inside the frame.
    pub open spec fn wf(&self) -> bool {
        &&& self.bg@.len() == FRAME_BYTES
        &&& self.ly < 154
    }

    pub fn new() -> (r: PPU)
        ensures
            r.wf(),
            r.dots == 0,
            r.mode == 0,
            r.fx == 0,
            r.fy == 0,
            r.ly == 0,
            r.bg_fifo@.len() == 0,
            r.obj_fifo@.len() == 0,
    {
        let mut bg: Vec<u8> = Vec::new();
        let mut i: usize = 0;
        while i < FRAME_BYTES
            invariant
                i <= FRAME_BYTES,
                bg@.len() == i,
            decreases FRAME_BYTES - i,
        {
            bg.push(0u8);
            i = i + 1;
        }
        PPU {
            dots: 0,
            mode: 0,
            fx: 0,
            fy: 0,
            lcdc: 0u8,
            ly: 0u8,
            lyc: 0u8,
            stat: 0u8,
            scy: 0u8,
            scx: 0u8,
            wy: 0u8,
            wx: 0u8,
            bgp: 0u8,
            obp0: 0u8,
            obp1: 0u8,
            bg_fifo: VecDeque::new(),
            obj_fifo: VecDeque::new(),
            bg,
        }
    }

    /// Re-read the display registers from the bus.
    fn update_registers(&mut self, memory: &Memory)
        requires
            memory.wf(),
        ensures
            *final(self) == spec_ppu_regs_loaded(*old(self), memory@),
    {
        self.lcdc = memory.read(LCDC);
        self.lyc = memory.read(LYC);
        self.stat = memory.read(STAT);
        self.scy = memory.read(SCY);
        self.scx = memory.read(SCX);
        self.wy = memory.read(WY);
        self.wx = memory.read(WX);
        self.bgp = memory.read(BGP);
        self.obp0 = memory.read(OBP0);
        self.obp1 = memory.read(OBP1);
    }

    /// Publish the line counter on the bus.
    fn set_registers(&mut self, memory: &mut Memory)
        requires
            old(memory).wf(),
        ensures
            *final(self) == *old(self),
            final(memory).wf(),
            final(memory)@ == crate::console::memory::spec_write(old(memory)@, LY, old(self).ly),
    {
        memory.write(LY, self.ly);
    }

    /// The fetcher's tile lookup; zeroes the scroll registers and
    /// clamps the fetcher column, as the hardware pass does per tile.
    fn get_tile(&mut self, memory: &mut Memory) -> (r: u16)
        requires
            old(memory).wf(),
        ensures
            *final(memory) == *old(memory),
            r == old(memory)@[spec_tile_addr(*old(self)) as int],
            r < 256,
            *final(self) == (PPU {
                scy: 0,
                scx: 0,
                fx: (old(self).fx % 32) as u8,
                fy: old(self).ly,
                ..*old(self)
            }),
    {
        let in_window: bool = self.fx < self.wx / 8 && self.fx as u16 + 1 >= (self.wx / 8) as u16
            && self.fy >= self.wy && self.fy <= 143;
        let win_tma: u16 = if bit_u8(self.lcdc, 6) {
            TMA_0
        } else {
            TMA_1
        };
        let bg_tma: u16 = if !bit_u8(self.lcdc, 3) {
            TMA_0
        } else {
            TMA_1
        };
        let tma: u16 = if bit_u8(self.lcdc, 5) && in_window {
            win_tma
        } else {
            bg_tma
        };
        self.scy = 0;
        self.scx = 0;
        self.fx = self.fx % 32;
        self.fy = self.ly;
        let block_y: u16 = self.fy as u16 / 8;
        let loc: u16 = tma + self.fx as u16 + 32 * block_y;
        memory.read(loc) as u16
    }

    /// Collect the object-attribute entries whose sprite covers the
    /// current scanline; each returned address indexes into the
    /// object-attribute window.
    fn get_obj(&mut self, memory: &mut Memory) -> (r: Vec<u16>)
        requires
            old(memory).wf(),
        ensures
            *final(memory) == *old(memory),
            *final(self) == *old(self),
            forall|k: int| 0 <= k < r@.len() ==> 0xFE00 <= #[trigger] r@[k] < 0xFE9F,
    {
        let mut valid_objects: Vec<u16> = Vec::new();
        let ly: u16 = memory.read(LY) as u16;
        let range: u16 = if !bit_u8(self.lcdc, 2) {
            8
        } else {
            16
        };
        let mut addr: u16 = 0xFE00;
        while addr < 0xFE9F
            invariant
                memory.wf(),
                0xFE00 <= addr,
                ly < 256,
                range <= 16,
                forall|k: int|
                    0 <= k < valid_objects@.len() ==> 0xFE00 <= #[trigger] valid_objects@[k]
                        < 0xFE9F,
            decreases 0x10000 - addr,
        {
            let y: u16 = memory.read(addr) as u16;
            let y_max: u16 = y + range;
            if ly + 16 >= y && ly + 16 < y_max {
                valid_objects.push(addr);
            }
            addr = addr + 4;
        }
        valid_objects
    }
}

/// Two bits of a palette byte, selected by a 2-bit colour index.
fn two_bits(x: u8, sel: u8) -> (r: u8)
    ensures
        r < 4,
{
    if sel % 4 == 0 {
        x % 4
    } else if sel % 4 == 1 {
        x / 4 % 4
    } else if sel % 4 == 2 {
        x / 16 % 4
    } else {
        x / 64 % 4
    }
}

/// The background palette, one RGBA quadruple per shade.
fn palette_rgba(i: u8) -> (r: (u8, u8, u8, u8)) {
    if i % 4 == 0 {
        (0xE0, 0xF8, 0xD0, 0xFF)
    } else if i % 4 == 1 {
        (0x88, 0xC0, 0x70, 0xFF)
    } else if i % 4 == 2 {
        (0x34, 0x68, 0x56, 0xFF)
    } else {
        (0x08, 0x18, 0x20, 0xFF)
    }
}

/// The object palette; shade zero is transparent.
fn palette_obj_rgba(i: u8) -> (r: (u8, u8, u8, u8)) {
    if i % 4 == 0 {
        (0x00, 0x00, 0x00, 0x00)
    } else if i % 4 == 1 {
        (0x88, 0xC0, 0x70, 0xFF)
    } else if i % 4 == 2 {
        (0x34, 0x68, 0x56, 0xFF)
    } else {
        (0x08, 0x18, 0x20, 0xFF)
    }
}

impl PPU {
    /// Append one decoded background tile row to the background FIFO.
    fn push_bg_row(&mut self, pixels: &Vec<u8>, palette: u8)
        requires
            pixels@.len() == 8,
        ensures
            *final(self) == (PPU { bg_fifo: final(self).bg_fifo, ..*old(self) }),
            final(self).bg_fifo@.len() == old(self).bg_fifo@.len() + 8,
    {
        let mut p: usize = 0;
        while p < 8
            invariant
                p <= 8,
                pixels@.len() == 8,
                *self == (PPU { bg_fifo: self.bg_fifo, ..*old(self) }),
                self.bg_fifo@.len() == old(self).bg_fifo@.len() + p,
            decreases 8 - p,
        {
            self.bg_fifo.push_back(Pixel::new(pixels[p], palette, 0, 0));
            p = p + 1;
        }
    }

    /// Append one decoded object tile row to the object FIFO.
    fn push_obj_row(&mut self, pixels: &Vec<u8>, palette: u8, bg_prio: u8)
        requires
            pixels@.len() == 8,
        ensures
            *final(self) == (PPU { obj_fifo: final(self).obj_fifo, ..*old(self) }),
            final(self).obj_fifo@.len() == old(self).obj_fifo@.len() + 8,
    {
        let mut p: usize = 0;
        while p < 8
            invariant
                p <= 8,
                pixels@.len() == 8,
                *self == (PPU { obj_fifo: self.obj_fifo, ..*old(self) }),
                self.obj_fifo@.len() == old(self).obj_fifo@.len() + p,
            decreases 8 - p,
        {
            self.obj_fifo.push_back(Pixel::new(pixels[p], palette, 0, bg_prio));
            p = p + 1;
        }
    }

    /// Blend up to eight pixels from the two FIFOs into the frame
    /// buffer at the fetcher column; an out-of-frame column stops the
    /// row.
    fn internal_render(&mut self, x: usize)
        requires
            old(self).wf(),
        ensures
            final(self).wf(),
            *final(self) == (PPU {
                bg: final(self).bg,
                bg_fifo: final(self).bg_fifo,
                obj_fifo: final(self).obj_fifo,
                ..*old(self)
            }),
    {
        let mut i: usize = 0;
        let mut done: bool = false;
        while i < 8 && !done
            invariant
                i <= 8,
                self.wf(),
                *self == (PPU {
                    bg: self.bg,
                    bg_fifo: self.bg_fifo,
                    obj_fifo: self.obj_fifo,
                    ..*old(self)
                }),
            decreases 8 - i,
        {
            let pixel: Pixel = match self.bg_fifo.pop_front() {
                Option::Some(px) => px,
                Option::None => Pixel::new(3, 0, 0, 0),
            };
            let obj_pixel: Pixel = match self.obj_fifo.pop_front() {
                Option::Some(px) => px,
                Option::None => Pixel::new(0, 0, 0, 1),
            };
            let index: usize = (self.fx as usize * 8 + i + LCD_WIDTH * self.ly as usize) * 4;
            if index + 3 >= self.bg.len() {
                done = true;
            } else {
                let bgp_val: u8 = two_bits(pixel.palette, pixel.color);
                let obp_val: u8 = two_bits(obj_pixel.palette, obj_pixel.color);
                let bg_color: (u8, u8, u8, u8) = palette_rgba(bgp_val);
                let obj_color: (u8, u8, u8, u8) = palette_obj_rgba(obp_val);
                if obj_pixel.bg_prio == 1 || obj_pixel.color == 0 {
                    self.bg[index] = bg_color.3;
                    self.bg[index + 1] = bg_color.2;
                    self.bg[index + 2] = bg_color.1;
                    self.bg[index + 3] = bg_color.0;
                } else {
                    self.bg[index] = bg_color.3;
                    self.bg[index + 1] = obj_color.2;
                    self.bg[index + 2] = obj_color.1;
                    self.bg[index + 3] = obj_color.0;
                }
            }
            i = i + 1;
        }
    }

    /// One fetcher dot: on a visible line, gather and order the
    /// scanline's objects, raise the mode-2 status interrupt when
    /// selected, fetch and decode one background tile row and at most
    /// one object row, and blend them into the frame buffer; past the
    /// visible lines, request vertical-sync. The bus is only read,
    /// except for the interrupt-request register.
    #[verifier::rlimit(100)]
    fn dot(&mut self, memory: &mut Memory)
        requires
            old(memory).wf(),
            old(self).wf(),
        ensures
            final(memory).wf(),
            final(self).wf(),
            forall|j: int|
                0 <= j < 0x10000 && j != IF ==> final(memory)@[j] == old(memory)@[j],
            final(self).ly == old(self).ly,
            final(self).dots == old(self).dots,
            final(self).lcdc == old(self).lcdc,
            final(self).fx <= 32 || final(self).fx == old(self).fx,
    {
        if self.ly <= 143 {
            self.mode = 2;
            let mut objects: Vec<u16> = self.get_obj(memory);
            sort_by_x(&mut objects, memory);

            if bit_u8(self.stat, 5) {
                memory.request_interrupt(STAT_I);
            }

            self.mode = 3;

            let tile_index: u16 = self.get_tile(memory);
            let mut vram_bank: u16 = if bit_u8(self.lcdc, 4) {
                VB_0
            } else {
                if tile_index < 128 {
                    VB_2
                } else {
                    VB_0
                }
            };
            if bit_u8(self.lcdc, 5) {
                vram_bank = if bit_u8(self.lcdc, 4) {
                    VB_0
                } else {
                    VB_1
                };
            }
            let index_low: u16 = vram_bank + tile_index * 16 + (self.fy % 8) as u16 * 2;
            let index_high: u16 = index_low + 1;
            let low: u8 = memory.read(index_low);
            let high: u8 = memory.read(index_high);
            let bgp: u8 = memory.read(BGP);
            let pixels: Vec<u8> = mix_bytes(low, high);
            self.push_bg_row(&pixels, bgp);

            let fx_now: u8 = self.fx;
            let fy_now: u8 = self.fy;
            let ghost snap: PPU = *self;
            let ghost snap_mem: Seq<u8> = memory@;
            let mut idx: usize = 0;
            let mut done: bool = false;
            while idx < objects.len() && !done
                invariant
                    idx <= objects@.len(),
                    memory.wf(),
                    *self == (PPU { obj_fifo: self.obj_fifo, ..snap }),
                    forall|k: int| 0 <= k < objects@.len() ==> 0xFE00 <= #[trigger] objects@[k] < 0xFE9F,
                    forall|j: int|
                        0 <= j < 0x10000 ==> memory@[j] == snap_mem[j],
                decreases objects@.len() - idx,
            {
                let addr: u16 = objects[idx];
                let x: u8 = memory.read(addr + 1);
                let x_min: u16 = fx_now as u16 * 8 + 8;
                let x_max: u16 = x_min + 8;
                if x as u16 >= x_min && (x as u16) < x_max {
                    let attributes: u8 = memory.read(addr + 3);
                    let y_flip: bool = bit_u8(attributes, 6);
                    let x_flip: bool = bit_u8(attributes, 5);

                    let obj_ti: u16 = memory.read(addr + 2) as u16;

                    let y: u16 = memory.read(addr) as u16;
                    let diff: u16 = (((fy_now as u32) + 0x10000 - y as u32 + 16) % 0x10000 % 8)
                        as u16;
                    let obj_internal_y: u16 = if !y_flip {
                        diff * 2
                    } else {
                        (8 - diff) * 2
                    };

                    let obj_index_low: u16 = VB_0 + obj_ti * 16 + obj_internal_y;
                    let obj_index_high: u16 = obj_index_low + 1;
                    let obj_low: u8 = memory.read(obj_index_low);
                    let obj_high: u8 = memory.read(obj_index_high);

                    let palette: u8 = if bit_u8(attributes, 5) {
                        memory.read(OBP0)
                    } else {
                        memory.read(OBP1)
                    };

                    let obj_pixels: Vec<u8> = mix_bytes_obj(obj_low, obj_high, y_flip, x_flip);
                    self.push_obj_row(&obj_pixels, palette, attributes % 2);
                    done = true;
                }
                idx = idx + 1;
            }

            let fx_arg: usize = self.fx as usize;
            self.internal_render(fx_arg);

            self.fx = self.fx + 1;
            self.mode = 0;
        }
        if self.ly > 143 {
            memory.request_interrupt(VBLANK_I);
            self.mode = 1;
        }

        self.stat = self.stat | self.mode;
    }

    /// One scanline-equivalent step: re-read the display registers,
    /// raise the line-compare status interrupt when selected, run
    /// twenty fetcher dots, advance the line counter modulo 154, and
    /// publish it on the bus. Only the interrupt-request register and
    /// the line-counter register change on the bus.
    #[verifier::rlimit(100)]
    pub fn update(&mut self, memory: &mut Memory)
        requires
            old(memory).wf(),
            old(self).wf(),
        ensures
            final(memory).wf(),
            final(self).wf(),
            final(self).ly == ((old(self).ly + 1) % 154) as u8,
            forall|j: int|
                0 <= j < 0x10000 && j != IF && j != LY ==> final(memory)@[j] == old(memory)@[j],
            final(memory)@[LY as int] == final(self).ly,
    {
        self.update_registers(memory);

        if bit_u8(self.stat, 6) {
            memory.request_interrupt(STAT_I);
            self.stat = self.stat | 0b10;
        }
        self.fx = 0;
        let ghost ly0: u8 = self.ly;
        let ghost dots0: usize = self.dots;
        let mut k: usize = 0;
        while k < 20
            invariant
                k <= 20,
                memory.wf(),
                self.wf(),
                self.ly == ly0,
                self.dots == dots0,
                forall|j: int|
                    0 <= j < 0x10000 && j != IF ==> memory@[j] == old(memory)@[j],
            decreases 20 - k,
        {
            self.dot(memory);
            k = k + 1;
        }
        self.ly = (((self.ly as u16) + 1) % 154) as u8;
        if self.dots < usize::MAX {
            self.dots = self.dots + 1;
        }
        let ghost m_before: Seq<u8> = memory@;
        self.set_registers(memory);
        proof {
            crate::console::memory::lemma_write_readback(m_before, LY, self.ly);
            assert forall|j: int|
                0 <= j < 0x10000 && j != IF as int && j != LY as int implies memory@[j]
                == old(memory)@[j] by {
                crate::console::memory::lemma_write_preserves(m_before, LY, self.ly, j as u16);
            };
        }
    }

    /// Whether a whole frame of lines has been walked.
    pub fn is_ready(&self) -> (r: bool)
        ensures
            r == (self.ly == 153),
    {
        self.ly == 153
    }

    /// Test one control-register bit mask.
    pub fn check_lcdc(&self, mask: u8) -> (r: bool)
        ensures
            r == (self.lcdc & mask != 0),
    {
        self.lcdc & mask != 0
    }

    /// The RGBA frame buffer, for the host to present.
    pub fn frame(&self) -> (r: &Vec<u8>)
        ensures
            r@ == self.bg@,
    {
        &self.bg
    }
}

} // verus!
