//! The pixel-processing unit: the scanline timing state machine, the tile
//! cache, the palettes and the rendering of one scanline.

use vstd::prelude::*;

verus! {

pub const SCREEN_WIDTH: usize = 160;
pub const SCREEN_HEIGHT: usize = 144;
pub const FRAME_PIXELS: usize = 23040;
/// The colour index of column `col` of a tile row stored as two bit planes.
pub open spec fn tile_color(lo: u8, hi: u8, col: int) -> u8 {
    let s = (7 - col) as u8;
    (((lo >> s) & 1) + 2 * ((hi >> s) & 1)) as u8
}

pub const TILE_CACHE_LEN: usize = 24576;
pub const VRAM_SIZE: usize = 0x2000;
pub const OAM_SIZE: usize = 0x100;
pub const SPRITE_COUNT: usize = 40;

/// An RGB triple.
#[derive(Clone, Copy, Debug, PartialEq, Eq, Structural)]
pub struct Color {
    pub r: u8,
    pub g: u8,
    pub b: u8,
}


/// The four shades that a palette entry selects.
pub open spec fn shade(k: int) -> Color {
    if k == 0 {
        Color { r: 255, g: 255, b: 255 }
    } else if k == 1 {
        Color { r: 192, g: 192, b: 192 }
    } else if k == 2 {
        Color { r: 96, g: 96, b: 96 }
    } else {
        Color { r: 0, g: 0, b: 0 }
    }
}

/// White, the colour of a cleared frame.
pub fn white() -> (c: Color)
    ensures
        c == shade(0),
{
    Color { r: 255, g: 255, b: 255 }
}

fn shade_of(k: u8) -> (c: Color)
    ensures
        c == shade(k as int),
{
    if k == 0 {
        Color { r: 255, g: 255, b: 255 }
    } else if k == 1 {
        Color { r: 192, g: 192, b: 192 }
    } else if k == 2 {
        Color { r: 96, g: 96, b: 96 }
    } else {
        Color { r: 0, g: 0, b: 0 }
    }
}

/// The 2-bit field `i` of a palette register.
pub open spec fn palette_field(val: u8, i: int) -> int {
    if i == 0 {
        val as int % 4
    } else if i == 1 {
        (val as int / 4) % 4
    } else if i == 2 {
        (val as int / 16) % 4
    } else {
        (val as int / 64) % 4
    }
}

/// The LCD registers.
#[derive(Clone, Copy, Debug, PartialEq, Eq, Structural)]
pub struct Status {
    pub lcdc: u8,
    pub stat: u8,
    pub scy: u8,
    pub scx: u8,
    pub ly: u8,
    pub lyc: u8,
    pub dma: u8,
    pub wy: u8,
    pub wx: u8,
    pub vbk: u8,
    pub bgpi: u8,
    pub obpi: u8,
}

impl Status {
    pub fn new() -> (s: Status)
        ensures
            s == (Status {
                lcdc: 0,
                stat: 0,
                scy: 0,
                scx: 0,
                ly: 0,
                lyc: 0,
                dma: 0,
                wy: 0,
                wx: 0,
                vbk: 0,
                bgpi: 0,
                obpi: 0,
            }),
    {
        Status {
            lcdc: 0,
            stat: 0,
            scy: 0,
            scx: 0,
            ly: 0,
            lyc: 0,
            dma: 0,
            wy: 0,
            wx: 0,
            vbk: 0,
            bgpi: 0,
            obpi: 0,
        }
    }

    pub fn display_enabled(&self) -> (r: bool)
        ensures
            r == (self.lcdc & 0x80 != 0),
    {
        self.lcdc & 0x80 != 0
    }

    /// The base address of the window's tile map.
    pub fn window_tilemap(&self) -> (r: u16)
        ensures
            r == (if self.lcdc & 0x40 != 0 { 0x9C00u16 } else { 0x9800u16 }),
    {
        if self.lcdc & 0x40 != 0 {
            0x9C00
        } else {
            0x9800
        }
    }

    pub fn window_enabled(&self) -> (r: bool)
        ensures
            r == (self.lcdc & 0x20 != 0),
    {
        self.lcdc & 0x20 != 0
    }

    /// The base address of the background's tile data.
    pub fn bg_tile_data(&self) -> (r: u16)
        ensures
            r == (if self.lcdc & 0x10 != 0 { 0x8000u16 } else { 0x8800u16 }),
    {
        if self.lcdc & 0x10 != 0 {
            0x8000
        } else {
            0x8800
        }
    }

    /// The base address of the background's tile map.
    pub fn bg_tilemap(&self) -> (r: u16)
        ensures
            r == (if self.lcdc & 0x08 != 0 { 0x9C00u16 } else { 0x9800u16 }),
    {
        if self.lcdc & 0x08 != 0 {
            0x9C00
        } else {
            0x9800
        }
    }

    pub fn ob_size(&self) -> (r: bool)
        ensures
            r == (self.lcdc & 0x04 != 0),
    {
        self.lcdc & 0x04 != 0
    }

    pub fn ob_enabled(&self) -> (r: bool)
        ensures
            r == (self.lcdc & 0x02 != 0),
    {
        self.lcdc & 0x02 != 0
    }

    pub fn bg_enabled(&self) -> (r: bool)
        ensures
            r == (self.lcdc & 0x01 != 0),
    {
        self.lcdc & 0x01 != 0
    }
}

/// One entry of the object table.
#[derive(Clone, Copy, Debug, PartialEq, Eq, Structural)]
pub struct Sprite {
    pub x: i16,
    pub y: i16,
    pub tile_number: u8,
    pub options: u8,
}

impl Sprite {
    /// Reads entry `index` of the object table; its position is stored
    /// offset by (8, 16).
    pub fn from_index(oam: &Vec<u8>, index: usize) -> (s: Sprite)
        requires
            oam@.len() == OAM_SIZE,
            index < SPRITE_COUNT,
        ensures
            s.y == oam@[4 * index as int] as int - 16,
            s.x == oam@[4 * index as int + 1] as int - 8,
            s.tile_number == oam@[4 * index as int + 2],
            s.options == oam@[4 * index as int + 3],
    {
        Sprite {
            y: oam[4 * index] as i16 - 16,
            x: oam[4 * index + 1] as i16 - 8,
            tile_number: oam[4 * index + 2],
            options: oam[4 * index + 3],
        }
    }

    /// The sprite is drawn over the background, whatever its colour.
    pub fn above_bg(&self) -> (r: bool)
        ensures
            r == (self.options & 0x80 == 0),
    {
        self.options & 0x80 == 0
    }

    /// Mirrored horizontally.
    pub fn flip_x(&self) -> (r: bool)
        ensures
            r == (self.options & 0x20 != 0),
    {
        self.options & 0x20 != 0
    }

    /// Mirrored vertically.
    pub fn flip_y(&self) -> (r: bool)
        ensures
            r == (self.options & 0x40 != 0),
    {
        self.options & 0x40 != 0
    }

    /// Which of the two sprite palettes it uses.
    pub fn palette(&self) -> (r: usize)
        ensures
            r == (if self.options & 0x10 != 0 { 1usize } else { 0usize }),
    {
        if self.options & 0x10 != 0 {
            1
        } else {
            0
        }
    }
}

/// The four modes of the scanline state machine.
#[derive(Clone, Copy, Debug, PartialEq, Eq, Structural)]
pub enum GpuMode {
    HBlank,
    VBlank,
    OAM,
    VRAM,
}

/// The dots that a mode lasts.
pub open spec fn budget(m: GpuMode) -> nat {
    match m {
        GpuMode::OAM => 80,
        GpuMode::VRAM => 172,
        GpuMode::HBlank => 204,
        GpuMode::VBlank => 456,
    }
}

fn budget_of(m: GpuMode) -> (r: u64)
    ensures
        r == budget(m),
{
    match m {
        GpuMode::OAM => 80,
        GpuMode::VRAM => 172,
        GpuMode::HBlank => 204,
        GpuMode::VBlank => 456,
    }
}

/// The mode and scanline that follow when a mode's budget is spent.
pub open spec fn next_mode(m: GpuMode, ly: u8) -> (GpuMode, u8) {
    match m {
        GpuMode::OAM => (GpuMode::VRAM, ly),
        GpuMode::VRAM => (GpuMode::HBlank, ly),
        GpuMode::HBlank => if ly as int + 1 == 144 {
            (GpuMode::VBlank, 144u8)
        } else {
            (GpuMode::OAM, (ly as int + 1) as u8)
        },
        GpuMode::VBlank => if ly as int + 1 > 153 {
            (GpuMode::OAM, 0u8)
        } else {
            (GpuMode::VBlank, (ly as int + 1) as u8)
        },
    }
}

/// Video RAM, the object table, the decoded tile cache and the palettes.
pub struct VideoMemory {
    pub vram: Vec<u8>,
    pub oam: Vec<u8>,
    /// Colour index of each pixel: tile * 64 + row * 8 + column.
    pub tiles: Vec<u8>,
    pub background_palette: Vec<Color>,
    pub sprite_palette: Vec<Color>,
}

/// Where the two bit planes of the row of tile-cache entry `i` start in
/// video RAM.
pub open spec fn row_base(i: int) -> int {
    (i / 64) * 16 + ((i % 64) / 8) * 2
}

/// Every entry of the tile cache is the decoding of its row in video RAM.
#[verifier::opaque]
pub open spec fn tiles_decoded(tiles: Seq<u8>, vram: Seq<u8>) -> bool {
    forall|i: int| 0 <= i < TILE_CACHE_LEN ==> #[trigger] tiles[i] == tile_color(vram[row_base(i)], vram[row_base(i) + 1], i % 8)
}

/// The cache entries of the row that holds video RAM byte `offset` are
/// those whose row starts at the even byte of that pair.
proof fn lemma_row_index(i: int, offset: int)
    requires
        0 <= i < TILE_CACHE_LEN,
        0 <= offset < 0x1800,
    ensures
        row_base(i) % 2 == 0,
        0 <= row_base(i),
        row_base(i) + 1 < 0x1800,
        ({
            let first = (offset / 16) * 64 + ((offset % 16) / 2) * 8;
            &&& (offset - offset % 2 == row_base(i)) <==> (first <= i < first + 8)
            &&& first <= i < first + 8 ==> i % 8 == i - first
        }),
{
    let t = i / 64;
    let r = (i % 64) / 8;
    let c = i % 8;
    assert(i == 64 * t + 8 * r + c) by {
        vstd::arithmetic::div_mod::lemma_fundamental_div_mod(i, 64);
        vstd::arithmetic::div_mod::lemma_fundamental_div_mod(i % 64, 8);
        vstd::arithmetic::div_mod::lemma_mod_mod(i, 8, 8);
        assert((i % 64) % 8 == i % 8) by {
            vstd::arithmetic::div_mod::lemma_mod_mod(i, 8, 8);
            vstd::arithmetic::div_mod::lemma_mod_breakdown(i, 8, 8);
        }
    }
    let t2 = offset / 16;
    let r2 = (offset % 16) / 2;
    let h = offset % 2;
    assert(offset == 16 * t2 + 2 * r2 + h) by {
        vstd::arithmetic::div_mod::lemma_fundamental_div_mod(offset, 16);
        vstd::arithmetic::div_mod::lemma_fundamental_div_mod(offset % 16, 2);
        vstd::arithmetic::div_mod::lemma_mod_breakdown(offset, 2, 8);
    }
    assert(0 <= r < 8 && 0 <= c < 8 && 0 <= r2 < 8 && 0 <= h < 2 && 0 <= t < 384 && 0 <= t2 < 384);
}

/// The tile cache `new` is `old` with the row that holds video RAM byte
/// `offset` decoded again from `vram`.
pub open spec fn tile_row_decoded(old: Seq<u8>, new: Seq<u8>, vram: Seq<u8>, offset: int) -> bool {
    let base = offset - offset % 2;
    let first = (offset / 16) * 64 + ((offset % 16) / 2) * 8;
    &&& new.len() == old.len()
    &&& forall|c: int| 0 <= c < 8 ==> #[trigger] new[first + c] == tile_color(vram[base], vram[base + 1], c)
    &&& forall|i: int| 0 <= i < old.len() && !(first <= i < first + 8) ==> #[trigger] new[i] == old[i]
}

impl VideoMemory {
    /// Stores a byte of video RAM at `offset`; a byte of the tile area
    /// (below 0x1800) re-decodes its tile row into the tile cache.
    pub fn write_vram(&mut self, offset: usize, val: u8)
        requires
            old(self).wf(),
            offset < VRAM_SIZE,
        ensures
            final(self).wf(),
            final(self).vram@ == old(self).vram@.update(offset as int, val),
            final(self).oam == old(self).oam,
            final(self).background_palette == old(self).background_palette,
            final(self).sprite_palette == old(self).sprite_palette,
            offset >= 0x1800 ==> final(self).tiles == old(self).tiles,
            offset < 0x1800 ==> tile_row_decoded(old(self).tiles@, final(self).tiles@, final(self).vram@, offset as int),
    {
        reveal(tiles_decoded);
        self.vram[offset] = val;
        if offset < 0x1800 {
            let base: usize = offset - offset % 2;
            let first: usize = (offset / 16) * 64 + ((offset % 16) / 2) * 8;
            let lo = self.vram[base];
            let hi = self.vram[base + 1];
            let mut c: usize = 0;
            while c < 8
                invariant
                    c <= 8,
                    first + 8 <= TILE_CACHE_LEN,
                    first == (offset as int / 16) * 64 + ((offset as int % 16) / 2) * 8,
                    base == offset as int - offset as int % 2,
                    offset < 0x1800,
                    lo == self.vram@[base as int],
                    hi == self.vram@[base + 1],
                    self.vram@ == old(self).vram@.update(offset as int, val),
                    self.oam == old(self).oam,
                    self.background_palette == old(self).background_palette,
                    self.sprite_palette == old(self).sprite_palette,
                    self.tiles@.len() == TILE_CACHE_LEN,
                    forall|i: int| 0 <= i < TILE_CACHE_LEN ==> #[trigger] self.tiles@[i] < 4,
                    forall|k: int| 0 <= k < c ==> #[trigger] self.tiles@[first + k] == tile_color(lo, hi, k),
                    forall|i: int| 0 <= i < TILE_CACHE_LEN && !(first <= i < first + c) ==> #[trigger] self.tiles@[i] == old(self).tiles@[i],
                decreases 8 - c,
            {
                let s: u8 = (7 - c) as u8;
                let a: u8 = (lo >> s) & 1;
                let b: u8 = (hi >> s) & 1;
                assert((lo >> s) & 1 <= 1) by (bit_vector);
                assert((hi >> s) & 1 <= 1) by (bit_vector);
                self.tiles[first + c] = a + 2 * b;
                c = c + 1;
            }
            assert forall|i: int| 0 <= i < TILE_CACHE_LEN implies #[trigger] self.tiles@[i] == tile_color(
                self.vram@[row_base(i)],
                self.vram@[row_base(i) + 1],
                i % 8,
            ) by {
                lemma_row_index(i, offset as int);
                if first <= i < first + 8 {
                    assert(self.tiles@[first + (i - first)] == tile_color(lo, hi, i - first));
                } else {
                    assert(row_base(i) != base);
                    assert(old(self).tiles@[i] == tile_color(
                        old(self).vram@[row_base(i)],
                        old(self).vram@[row_base(i) + 1],
                        i % 8,
                    ));
                }
            }
        } else {
            assert forall|i: int| 0 <= i < TILE_CACHE_LEN implies #[trigger] self.tiles@[i] == tile_color(
                self.vram@[row_base(i)],
                self.vram@[row_base(i) + 1],
                i % 8,
            ) by {
                lemma_row_index(i, 0);
                assert(old(self).tiles@[i] == tile_color(
                    old(self).vram@[row_base(i)],
                    old(self).vram@[row_base(i) + 1],
                    i % 8,
                ));
            }
        }
    }

    pub open spec fn wf(&self) -> bool {
        &&& self.vram@.len() == VRAM_SIZE
        &&& self.oam@.len() == OAM_SIZE
        &&& self.tiles@.len() == TILE_CACHE_LEN
        &&& self.background_palette@.len() == 4
        &&& self.sprite_palette@.len() == 8
        &&& forall|i: int| 0 <= i < TILE_CACHE_LEN ==> #[trigger] self.tiles@[i] < 4
        &&& tiles_decoded(self.tiles@, self.vram@)
    }
}

/// The tile that a background map byte names: unsigned from 0x8000, or
/// signed around 0x9000.
pub open spec fn bg_tile_number(lcdc: u8, byte: u8) -> int {
    if lcdc & 0x10 != 0 {
        byte as int
    } else if byte < 128 {
        256 + byte as int
    } else {
        byte as int
    }
}

/// The colour index of background pixel `x` on line `ly`.
pub open spec fn bg_index(v: VideoMemory, lcdc: u8, scx: u8, scy: u8, ly: int, x: int) -> u8 {
    let by = (ly + scy as int) % 256;
    let bx = (x + scx as int) % 256;
    let map_base = if lcdc & 0x08 != 0 { 0x1C00int } else { 0x1800int };
    let byte = v.vram@[map_base + (by / 8) * 32 + bx / 8];
    v.tiles@[bg_tile_number(lcdc, byte) * 64 + (by % 8) * 8 + bx % 8]
}

/// The colour that sprite `i` puts on pixel `x` of line `ly`, if any.
pub open spec fn sprite_pixel(v: VideoMemory, ly: int, x: int, i: int, bg: u8) -> Option<Color> {
    let sy = v.oam@[4 * i] as int - 16;
    let sx = v.oam@[4 * i + 1] as int - 8;
    let tile = v.oam@[4 * i + 2] as int;
    let opts = v.oam@[4 * i + 3];
    if sy <= ly < sy + 8 && sx <= x < sx + 8 {
        let row = if opts & 0x40 != 0 { 7 - (ly - sy) } else { ly - sy };
        let col = if opts & 0x20 != 0 { 7 - (x - sx) } else { x - sx };
        let idx = v.tiles@[tile * 64 + row * 8 + col];
        if idx != 0 && (opts & 0x80 == 0 || bg == 0) {
            Some(v.sprite_palette@[(if opts & 0x10 != 0 { 4int } else { 0 }) + idx as int])
        } else {
            None
        }
    } else {
        None
    }
}

/// Pixel `x` of line `ly` after the first `n` sprites were drawn over `base`;
/// a later sprite covers an earlier one.
pub open spec fn sprites_over(v: VideoMemory, ly: int, x: int, n: int, bg: u8, base: Color) -> Color
    decreases n,
{
    if n <= 0 {
        base
    } else {
        match sprite_pixel(v, ly, x, n - 1, bg) {
            Some(c) => c,
            None => sprites_over(v, ly, x, n - 1, bg, base),
        }
    }
}

/// The rendered colour of pixel `x` on line `ly`, which held `old`.
pub open spec fn pixel_of(v: VideoMemory, lcdc: u8, scx: u8, scy: u8, ly: int, x: int, old: Color) -> Color {
    let bg_on = lcdc & 0x01 != 0;
    let bi = if bg_on { bg_index(v, lcdc, scx, scy, ly, x) } else { 0u8 };
    let base = if bg_on { v.background_palette@[bi as int] } else { old };
    if lcdc & 0x02 != 0 {
        sprites_over(v, ly, x, SPRITE_COUNT as int, bi, base)
    } else {
        base
    }
}

/// The frame with line `ly` rendered.
pub open spec fn render_line(v: VideoMemory, lcdc: u8, scx: u8, scy: u8, ly: int, fb: Seq<Color>) -> Seq<Color> {
    Seq::new(
        fb.len(),
        |k: int|
            if ly * 160 <= k < ly * 160 + 160 {
                pixel_of(v, lcdc, scx, scy, ly, k - ly * 160, fb[k])
            } else {
                fb[k]
            },
    )
}

/// The mode, scanline, dots into the mode, frame and whether VBlank was
/// entered, after `dots` dots from the given mode and line.
pub open spec fn run_dots(
    v: VideoMemory,
    lcdc: u8,
    scx: u8,
    scy: u8,
    mode: GpuMode,
    ly: u8,
    dots: nat,
    fb: Seq<Color>,
    vblank: bool,
) -> (GpuMode, u8, nat, Seq<Color>, bool)
    decreases dots,
{
    if dots < budget(mode) {
        (mode, ly, dots, fb, vblank)
    } else {
        let (m2, l2) = next_mode(mode, ly);
        let fb2 = if mode == GpuMode::VRAM { render_line(v, lcdc, scx, scy, ly as int, fb) } else { fb };
        let vb2 = vblank || (mode == GpuMode::HBlank && m2 == GpuMode::VBlank);
        run_dots(v, lcdc, scx, scy, m2, l2, (dots - budget(mode)) as nat, fb2, vb2)
    }
}

/// The pixel-processing unit.
pub struct Gpu {
    pub mode: GpuMode,
    /// Dots spent in the current mode.
    pub tick: u32,
    pub framebuffer: Vec<Color>,
    pub video: VideoMemory,
    pub status: Status,
}

impl Gpu {
    pub open spec fn wf(&self) -> bool {
        &&& self.video.wf()
        &&& self.framebuffer@.len() == FRAME_PIXELS
        &&& self.tick < budget(self.mode)
        &&& self.status.ly <= 153
        &&& (self.mode == GpuMode::VBlank) == (self.status.ly >= 144)
    }

    /// Everything but the timing and the frame is as in `other`.
    pub open spec fn same_memory(&self, other: &Gpu) -> bool {
        &&& self.video == other.video
        &&& self.status == (Status { ly: self.status.ly, ..other.status })
    }

    /// This state, and `vblank`, are what `cycles` dots make of `prev`.
    pub open spec fn stepped_from(&self, prev: &Gpu, cycles: u32, vblank: bool) -> bool {
        let r = run_dots(
            prev.video,
            prev.status.lcdc,
            prev.status.scx,
            prev.status.scy,
            prev.mode,
            prev.status.ly,
            (prev.tick + cycles) as nat,
            prev.framebuffer@,
            false,
        );
        &&& self.same_memory(prev)
        &&& self.mode == r.0
        &&& self.status.ly == r.1
        &&& self.tick == r.2
        &&& self.framebuffer@ == r.3
        &&& vblank == r.4
    }

    /// A PPU as power-on leaves it: HBlank on line 0 with no dots spent,
    /// every LCD register zero, a white frame, white palettes, and video RAM,
    /// object table and tile cache zero.
    pub open spec fn is_fresh(&self) -> bool {
        &&& self.mode == GpuMode::HBlank
        &&& self.tick == 0
        &&& self.status == (Status {
            lcdc: 0,
            stat: 0,
            scy: 0,
            scx: 0,
            ly: 0,
            lyc: 0,
            dma: 0,
            wy: 0,
            wx: 0,
            vbk: 0,
            bgpi: 0,
            obpi: 0,
        })
        &&& forall|i: int| 0 <= i < FRAME_PIXELS ==> self.framebuffer@[i] == shade(0)
        &&& forall|i: int| 0 <= i < 4 ==> self.video.background_palette@[i] == shade(0)
        &&& forall|i: int| 0 <= i < 8 ==> self.video.sprite_palette@[i] == shade(0)
        &&& forall|i: int| 0 <= i < VRAM_SIZE ==> self.video.vram@[i] == 0
        &&& forall|i: int| 0 <= i < OAM_SIZE ==> self.video.oam@[i] == 0
        &&& forall|i: int| 0 <= i < TILE_CACHE_LEN ==> self.video.tiles@[i] == 0
    }

    pub fn new() -> (g: Gpu)
        ensures
            g.wf(),
            g.is_fresh(),
    {
        reveal(tiles_decoded);
        let g = Gpu {
            mode: GpuMode::HBlank,
            tick: 0,
            framebuffer: vec![white(); FRAME_PIXELS],
            video: VideoMemory {
                vram: vec![0u8; VRAM_SIZE],
                oam: vec![0u8; OAM_SIZE],
                tiles: vec![0u8; TILE_CACHE_LEN],
                background_palette: vec![white(); 4],
                sprite_palette: vec![white(); 8],
            },
            status: Status::new(),
        };
        assert forall|i: int| 0 <= i < TILE_CACHE_LEN implies #[trigger] g.video.tiles@[i] == tile_color(
            g.video.vram@[row_base(i)],
            g.video.vram@[row_base(i) + 1],
            i % 8,
        ) by {
            lemma_row_index(i, 0);
            let s = (7 - i % 8) as u8;
            assert(((0u8 >> s) & 1) + 2 * ((0u8 >> s) & 1) == 0) by (bit_vector);
        }
        g
    }

    /// Sets the palettes to the four shades in order.
    pub fn reset(&mut self)
        requires
            old(self).wf(),
        ensures
            final(self).wf(),
            forall|i: int| 0 <= i < 4 ==> final(self).video.background_palette@[i] == shade(i),
            forall|i: int| 0 <= i < 8 ==> final(self).video.sprite_palette@[i] == shade(i % 4),
            final(self).video.vram == old(self).video.vram,
            final(self).video.oam == old(self).video.oam,
            final(self).video.tiles == old(self).video.tiles,
            final(self).framebuffer == old(self).framebuffer,
            final(self).status == old(self).status,
            final(self).mode == old(self).mode,
            final(self).tick == old(self).tick,
    {
        self.update_background_palette(0xE4);
        self.update_sprite_palette(0, 0xE4);
        let ghost first = self.video.sprite_palette@;
        self.update_sprite_palette(1, 0xE4);
        assert(forall|i: int| 0 <= i < 4 ==> palette_field(0xE4, i) == i);
        assert forall|i: int| 0 <= i < 8 implies self.video.sprite_palette@[i] == shade(i % 4) by {
            if i < 4 {
                assert(first[4 * 0 + i] == shade(palette_field(0xE4, i)));
            } else {
                assert(self.video.sprite_palette@[4 * 1 + (i - 4)] == shade(palette_field(0xE4, i - 4)));
            }
        }
    }

    /// Advances the state machine by `cycles` dots, taking each transition
    /// whose budget is reached and carrying the remainder; a scanline is
    /// rendered when pixel transfer ends. Tells whether VBlank was entered.
    pub fn step(&mut self, cycles: u32) -> (vblank: bool)
        requires
            old(self).wf(),
        ensures
            final(self).wf(),
            final(self).stepped_from(old(self), cycles, vblank),
    {
        let ghost g0 = *old(self);
        let mut dots: u64 = self.tick as u64 + cycles as u64;
        let mut vblank = false;
        while dots >= budget_of(self.mode)
            invariant
                self.video.wf(),
                self.framebuffer@.len() == FRAME_PIXELS,
                self.status.ly <= 153,
                (self.mode == GpuMode::VBlank) == (self.status.ly >= 144),
                self.same_memory(&g0),
                run_dots(
                    self.video,
                    self.status.lcdc,
                    self.status.scx,
                    self.status.scy,
                    self.mode,
                    self.status.ly,
                    dots as nat,
                    self.framebuffer@,
                    vblank,
                ) == run_dots(
                    g0.video,
                    g0.status.lcdc,
                    g0.status.scx,
                    g0.status.scy,
                    g0.mode,
                    g0.status.ly,
                    (g0.tick + cycles) as nat,
                    g0.framebuffer@,
                    false,
                ),
            decreases dots,
        {
            let b = budget_of(self.mode);
            match self.mode {
                GpuMode::OAM => {
                    self.mode = GpuMode::VRAM;
                },
                GpuMode::VRAM => {
                    self.render_scanline();
                    self.mode = GpuMode::HBlank;
                },
                GpuMode::HBlank => {
                    self.status.ly = self.status.ly + 1;
                    if self.status.ly == 144 {
                        self.mode = GpuMode::VBlank;
                        vblank = true;
                    } else {
                        self.mode = GpuMode::OAM;
                    }
                },
                GpuMode::VBlank => {
                    if self.status.ly >= 153 {
                        self.status.ly = 0;
                        self.mode = GpuMode::OAM;
                    } else {
                        self.status.ly = self.status.ly + 1;
                    }
                },
            }
            dots = dots - b;
        }
        self.tick = dots as u32;
        vblank
    }

    /// Renders the current scanline into the frame.
    fn render_scanline(&mut self)
        requires
            old(self).video.wf(),
            old(self).framebuffer@.len() == FRAME_PIXELS,
            old(self).status.ly < 144,
        ensures
            final(self).framebuffer@.len() == FRAME_PIXELS,
            final(self).video == old(self).video,
            final(self).status == old(self).status,
            final(self).mode == old(self).mode,
            final(self).tick == old(self).tick,
            final(self).framebuffer@ == render_line(
                old(self).video,
                old(self).status.lcdc,
                old(self).status.scx,
                old(self).status.scy,
                old(self).status.ly as int,
                old(self).framebuffer@,
            ),
    {
        let ghost fb0 = self.framebuffer@;
        let ly = self.status.ly;
        let lcdc = self.status.lcdc;
        let scx = self.status.scx;
        let scy = self.status.scy;
        let row: usize = ly as usize * SCREEN_WIDTH;
        let mut x: usize = 0;
        while x < SCREEN_WIDTH
            invariant
                x <= SCREEN_WIDTH,
                row == ly as int * 160,
                ly < 144,
                self.video.wf(),
                self.framebuffer@.len() == FRAME_PIXELS,
                fb0.len() == FRAME_PIXELS,
                self.video == old(self).video,
                self.status == old(self).status,
                self.mode == old(self).mode,
                self.tick == old(self).tick,
                lcdc == self.status.lcdc,
                scx == self.status.scx,
                scy == self.status.scy,
                ly == self.status.ly,
                forall|k: int|
                    0 <= k < FRAME_PIXELS ==> #[trigger] self.framebuffer@[k] == if row <= k < row + x {
                        pixel_of(self.video, lcdc, scx, scy, ly as int, k - row, fb0[k])
                    } else {
                        fb0[k]
                    },
            decreases SCREEN_WIDTH - x,
        {
            let old_px = self.framebuffer[row + x];
            let c = line_pixel(&self.video, lcdc, scx, scy, ly, x as u8, old_px);
            self.framebuffer[row + x] = c;
            x = x + 1;
        }
        assert(self.framebuffer@ =~= render_line(self.video, lcdc, scx, scy, ly as int, fb0));
    }

    /// Fills the frame with white.
    pub fn clear_framebuffer(&mut self)
        requires
            old(self).wf(),
        ensures
            final(self).wf(),
            forall|i: int| 0 <= i < FRAME_PIXELS ==> final(self).framebuffer@[i] == shade(0),
            final(self).video == old(self).video,
            final(self).status == old(self).status,
            final(self).mode == old(self).mode,
            final(self).tick == old(self).tick,
    {
        self.framebuffer = vec![white(); FRAME_PIXELS];
    }

    /// Sets each background palette entry to the shade that its 2-bit field
    /// of `val` selects.
    pub fn update_background_palette(&mut self, val: u8)
        requires
            old(self).wf(),
        ensures
            final(self).wf(),
            forall|i: int| 0 <= i < 4 ==> final(self).video.background_palette@[i] == shade(palette_field(val, i)),
            final(self).video.sprite_palette == old(self).video.sprite_palette,
            final(self).video.vram == old(self).video.vram,
            final(self).video.oam == old(self).video.oam,
            final(self).video.tiles == old(self).video.tiles,
            final(self).framebuffer == old(self).framebuffer,
            final(self).status == old(self).status,
            final(self).mode == old(self).mode,
            final(self).tick == old(self).tick,
    {
        let mut i: usize = 0;
        let mut v: u8 = val;
        while i < 4
            invariant
                i <= 4,
                self.video.background_palette@.len() == 4,
                v as int == val as int / pow4(i as int),
                forall|j: int| 0 <= j < i ==> self.video.background_palette@[j] == shade(palette_field(val, j)),
                self.video.sprite_palette == old(self).video.sprite_palette,
                self.video.vram == old(self).video.vram,
                self.video.oam == old(self).video.oam,
                self.video.tiles == old(self).video.tiles,
                self.framebuffer == old(self).framebuffer,
                self.status == old(self).status,
                self.mode == old(self).mode,
                self.tick == old(self).tick,
            decreases 4 - i,
        {
            self.video.background_palette[i] = shade_of(v % 4);
            proof {
                lemma_palette_field(val, i as int);
            }
            v = v / 4;
            i = i + 1;
        }
    }

    /// Sets the entries of sprite palette `index` (0 or 1) to the shades
    /// that the 2-bit fields of `val` select.
    pub fn update_sprite_palette(&mut self, index: usize, val: u8)
        requires
            old(self).wf(),
            index < 2,
        ensures
            final(self).wf(),
            forall|i: int| 0 <= i < 4 ==> final(self).video.sprite_palette@[4 * index + i] == shade(palette_field(val, i)),
            forall|i: int| 0 <= i < 8 && (i / 4 != index) ==> final(self).video.sprite_palette@[i] == old(self).video.sprite_palette@[i],
            final(self).video.background_palette == old(self).video.background_palette,
            final(self).video.vram == old(self).video.vram,
            final(self).video.oam == old(self).video.oam,
            final(self).video.tiles == old(self).video.tiles,
            final(self).framebuffer == old(self).framebuffer,
            final(self).status == old(self).status,
            final(self).mode == old(self).mode,
            final(self).tick == old(self).tick,
    {
        let mut i: usize = 0;
        let mut v: u8 = val;
        while i < 4
            invariant
                i <= 4,
                index < 2,
                self.video.sprite_palette@.len() == 8,
                v as int == val as int / pow4(i as int),
                forall|j: int| 0 <= j < i ==> self.video.sprite_palette@[4 * index + j] == shade(palette_field(val, j)),
                forall|j: int| 0 <= j < 8 && !(4 * index <= j < 4 * index + i) ==> self.video.sprite_palette@[j] == old(self).video.sprite_palette@[j],
                self.video.background_palette == old(self).video.background_palette,
                self.video.vram == old(self).video.vram,
                self.video.oam == old(self).video.oam,
                self.video.tiles == old(self).video.tiles,
                self.framebuffer == old(self).framebuffer,
                self.status == old(self).status,
                self.mode == old(self).mode,
                self.tick == old(self).tick,
            decreases 4 - i,
        {
            self.video.sprite_palette[4 * index + i] = shade_of(v % 4);
            proof {
                lemma_palette_field(val, i as int);
            }
            v = v / 4;
            i = i + 1;
        }
    }
}

pub open spec fn pow4(i: int) -> int {
    if i <= 0 {
        1
    } else if i == 1 {
        4
    } else if i == 2 {
        16
    } else if i == 3 {
        64
    } else {
        256
    }
}

proof fn lemma_palette_field(val: u8, i: int)
    requires
        0 <= i < 4,
    ensures
        (val as int / pow4(i)) % 4 == palette_field(val, i),
        (val as int / pow4(i)) / 4 == val as int / pow4(i + 1),
{
    let x = val as int;
    assert((x / 4) / 4 == x / 16) by (nonlinear_arith)
        requires x >= 0;
    assert((x / 16) / 4 == x / 64) by (nonlinear_arith)
        requires x >= 0;
    assert((x / 64) / 4 == x / 256) by (nonlinear_arith)
        requires x >= 0;
}

/// The colour index of background pixel `x` on line `ly`.
fn bg_index_of(v: &VideoMemory, lcdc: u8, scx: u8, scy: u8, ly: u8, x: u8) -> (r: u8)
    requires
        v.wf(),
    ensures
        r == bg_index(*v, lcdc, scx, scy, ly as int, x as int),
        r < 4,
{
    let by: usize = (ly as usize + scy as usize) % 256;
    let bx: usize = (x as usize + scx as usize) % 256;
    let map_base: usize = if lcdc & 0x08 != 0 { 0x1C00 } else { 0x1800 };
    let byte = v.vram[map_base + (by / 8) * 32 + bx / 8];
    let tile: usize = if lcdc & 0x10 != 0 {
        byte as usize
    } else if byte < 128 {
        256 + byte as usize
    } else {
        byte as usize
    };
    v.tiles[tile * 64 + (by % 8) * 8 + bx % 8]
}

/// The colour that sprite `i` puts on pixel `x` of line `ly`, if any.
fn sprite_pixel_of(v: &VideoMemory, ly: u8, x: u8, i: usize, bg: u8) -> (r: Option<Color>)
    requires
        v.wf(),
        i < SPRITE_COUNT,
    ensures
        r == sprite_pixel(*v, ly as int, x as int, i as int, bg),
{
    let s = Sprite::from_index(&v.oam, i);
    let ly = ly as i16;
    let x = x as i16;
    if s.y <= ly && ly < s.y + 8 && s.x <= x && x < s.x + 8 {
        let row: i16 = if s.flip_y() { 7 - (ly - s.y) } else { ly - s.y };
        let col: i16 = if s.flip_x() { 7 - (x - s.x) } else { x - s.x };
        let idx = v.tiles[s.tile_number as usize * 64 + row as usize * 8 + col as usize];
        if idx != 0 && (s.above_bg() || bg == 0) {
            Some(v.sprite_palette[4 * s.palette() + idx as usize])
        } else {
            None
        }
    } else {
        None
    }
}

/// The rendered colour of pixel `x` on line `ly`, which held `old`.
fn line_pixel(v: &VideoMemory, lcdc: u8, scx: u8, scy: u8, ly: u8, x: u8, old: Color) -> (c: Color)
    requires
        v.wf(),
    ensures
        c == pixel_of(*v, lcdc, scx, scy, ly as int, x as int, old),
{
    let bg_on = lcdc & 0x01 != 0;
    let bi: u8 = if bg_on { bg_index_of(v, lcdc, scx, scy, ly, x) } else { 0 };
    let base = if bg_on { v.background_palette[bi as usize] } else { old };
    if lcdc & 0x02 != 0 {
        let mut color = base;
        let mut i: usize = 0;
        while i < SPRITE_COUNT
            invariant
                v.wf(),
                i <= SPRITE_COUNT,
                color == sprites_over(*v, ly as int, x as int, i as int, bi, base),
            decreases SPRITE_COUNT - i,
        {
            match sprite_pixel_of(v, ly, x, i, bi) {
                Some(c) => {
                    color = c;
                },
                None => {},
            }
            i = i + 1;
        }
        color
    } else {
        base
    }
}

/// From HBlank at the start of a line below 143, one full line of dots
/// (204 + 80 + 172 = 456) passes through OAM scan and pixel transfer and
/// ends in HBlank on the next line, with no dots left over and VBlank not
/// entered.
pub proof fn lemma_scanline_cycle(g0: &Gpu, g1: &Gpu, vblank: bool)
    requires
        g0.wf(),
        g0.mode == GpuMode::HBlank,
        g0.tick == 0,
        g0.status.ly < 143,
        g1.stepped_from(g0, 456, vblank),
    ensures
        g1.mode == GpuMode::HBlank,
        g1.status.ly == g0.status.ly + 1,
        g1.tick == 0,
        !vblank,
{
    reveal_with_fuel(run_dots, 4);
}

/// The last HBlank of the visible lines enters VBlank on line 144.
pub proof fn lemma_enter_vblank(g0: &Gpu, g1: &Gpu, vblank: bool)
    requires
        g0.wf(),
        g0.mode == GpuMode::HBlank,
        g0.tick == 0,
        g0.status.ly == 143,
        g1.stepped_from(g0, 204, vblank),
    ensures
        g1.mode == GpuMode::VBlank,
        g1.status.ly == 144,
        g1.tick == 0,
        vblank,
{
    reveal_with_fuel(run_dots, 2);
}

} // verus!
