use vstd::prelude::*;

use crate::mmu::{MmuView, MMU};

verus! {

/// Width of the full background layer, in pixels.
pub const WIDTH: usize = 256;

/// Height of the full background layer, in pixels.
pub const HEIGHT: usize = 256;

/// Width of the visible viewport extracted from the background.
pub const SCREEN_WIDTH: usize = 160;

/// Height of the visible viewport extracted from the background.
pub const SCREEN_HEIGHT: usize = 144;

/// Packed display colors of the four background shades, lightest to darkest.
pub const LIGHTEST_GREEN: u32 = 0xFF9BBC0F;

pub const LIGHT_GREEN: u32 = 0xFF8BAC0F;

pub const DARK_GREEN: u32 = 0xFF306230;

pub const DARKEST_GREEN: u32 = 0xFF0F380F;

// ---------------------------------------------------------------------------
// Background compositing, at the specification level
// ---------------------------------------------------------------------------

/// The 4-entry background palette register: entry `pair` occupies the two
/// bits at position 2*pair. A value above 3 reads entry 0.
pub open spec fn palette_entry(p: u8, pair: u8) -> u8 {
    if pair == 1 {
        ((p / 4) % 4) as u8
    } else if pair == 2 {
        ((p / 16) % 4) as u8
    } else if pair == 3 {
        ((p / 64) % 4) as u8
    } else {
        (p % 4) as u8
    }
}

/// The display color of a palette entry: 0 is the lightest shade, 3 the
/// darkest; values above 3 show the lightest.
pub open spec fn shade_color(v: u8) -> u32 {
    if v == 1 {
        LIGHT_GREEN
    } else if v == 2 {
        DARK_GREEN
    } else if v == 3 {
        DARKEST_GREEN
    } else {
        LIGHTEST_GREEN
    }
}

/// The single-bit weight of pixel column `col` of a tile row, in
/// most-significant-bit-first order: column 0 sits at bit 7.
pub open spec fn col_mask(col: int) -> u8 {
    if col == 0 {
        0x80
    } else if col == 1 {
        0x40
    } else if col == 2 {
        0x20
    } else if col == 3 {
        0x10
    } else if col == 4 {
        0x08
    } else if col == 5 {
        0x04
    } else if col == 6 {
        0x02
    } else {
        0x01
    }
}

/// The 2-bit pixel value at column `col` of a tile row stored as the byte
/// pair (b0, b1): both bits come from the same bit position, the first byte
/// giving the high bit.
pub open spec fn pair_at(b0: u8, b1: u8, col: int) -> u8 {
    (2 * ((b0 / col_mask(col)) % 2) + ((b1 / col_mask(col)) % 2)) as u8
}

/// The display color of pixel column `col` of a tile row (byte pair b0, b1)
/// under palette register `bgp`.
pub open spec fn tile_row_pixel(b0: u8, b1: u8, col: int, bgp: u8) -> u32 {
    shade_color(palette_entry(bgp, pair_at(b0, b1, col)))
}

/// The display color of pixel (row, col) of a 16-byte tile, under palette
/// register `bgp`.
pub open spec fn tile_pixel_of(tile: Seq<u8>, row: int, col: int, bgp: u8) -> u32 {
    tile_row_pixel(tile[2 * row], tile[2 * row + 1], col, bgp)
}

/// The display color of pixel (row, col) of tile `t` of the tile set stored
/// from 0x8000.
pub open spec fn tile_set_pixel(m: MmuView, t: int, row: int, col: int) -> u32 {
    tile_row_pixel(
        m.ram[0x8000 + t * 16 + 2 * row],
        m.ram[0x8000 + t * 16 + 2 * row + 1],
        col,
        m.ram[0xFF47],
    )
}

/// The background pixel that viewport cell (x, y) shows under scroll
/// registers (scx, scy): row and column indices wrap modulo 256.
pub open spec fn vp_pixel(bg: Seq<u32>, scx: u8, scy: u8, x: int, y: int) -> u32 {
    bg[((scy + y) % 256) * 256 + ((scx + x) % 256)]
}

/// The color of background pixel (x, y), for 0 <= x, y < 256: the 32x32 tile
/// map at 0x9800 names the tile, whose 16 bytes sit at 0x8000 plus 16 times
/// the index; each pixel row is a pair of successive bytes.
pub open spec fn bg_pixel(m: MmuView, x: int, y: int) -> u32 {
    let idx = m.ram[0x9800 + (y / 8) * 32 + (x / 8)];
    let b0 = m.ram[0x8000 + idx * 16 + 2 * (y % 8)];
    let b1 = m.ram[0x8000 + idx * 16 + 2 * (y % 8) + 1];
    tile_row_pixel(b0, b1, x % 8, m.ram[0xFF47])
}

/// The whole 256x256 background buffer, row-major.
pub open spec fn bg_seq_spec(m: MmuView) -> Seq<u32> {
    Seq::new(65536, |i: int| bg_pixel(m, i % 256, i / 256))
}

/// The 160x144 viewport extracted from a background buffer under scroll
/// registers (scx, scy), row-major, with row and column indices wrapping
/// modulo 256.
pub open spec fn viewport_seq_spec(bg: Seq<u32>, scx: u8, scy: u8) -> Seq<u32> {
    Seq::new(23040, |i: int| vp_pixel(bg, scx, scy, i % 160, i / 160))
}

// ---------------------------------------------------------------------------
// Timing state machine, at the specification level
// ---------------------------------------------------------------------------

/// Whether the picture unit is enabled: bit 7 of the control register.
pub open spec fn lcd_enabled(m: MmuView) -> bool {
    m.ram[0xFF40] >= 0x80
}

/// The raster line after one scanline budget elapses: it increments, and
/// wraps to zero after line 153.
pub open spec fn ly_step(ly: u8) -> u8 {
    if ly >= 153 {
        0
    } else {
        (ly + 1) as u8
    }
}

/// The raster line after `n` scanline budgets.
pub open spec fn ly_iter(ly: u8, n: nat) -> u8
    decreases n,
{
    if n == 0 {
        ly
    } else {
        ly_step(ly_iter(ly, (n - 1) as nat))
    }
}

/// The mode for a raster line and a mode-clock within the scanline budget:
/// VBlank(1) on the invisible lines; on a visible line, OAM-scan(2) for the
/// first 80 cycles, Transfer(3) up to 252, HBlank(0) for the remainder.
pub open spec fn mode_of(ly: u8, clk: nat) -> u8 {
    if ly >= 144 {
        1
    } else if clk < 80 {
        2
    } else if clk < 252 {
        3
    } else {
        0
    }
}

/// The status register after a step: its high five bits kept, bit 2 the
/// LY==LYC comparison, bits 0..=1 the current mode.
pub open spec fn stat_after(stat: u8, eq: bool, mode: u8) -> u8 {
    ((stat / 8) * 8 + (if eq {
        4int
    } else {
        0int
    }) + mode) as u8
}

/// Mathematical view of the picture unit: current mode, mode-clock within
/// the scanline budget, and the two pixel buffers.
pub ghost struct PpuView {
    pub mode: u8,
    pub mode_clock: nat,
    pub background: Seq<u32>,
    pub viewport: Seq<u32>,
}

impl PpuView {
    pub open spec fn wf(self) -> bool {
        &&& self.mode <= 3
        &&& self.mode_clock < 456
        &&& self.background.len() == 65536
        &&& self.viewport.len() == 23040
    }
}

/// What one step of `delta` elapsed cycles does to the picture unit and the
/// bus. Disabled, everything freezes. Enabled, the mode-clock accumulates
/// and normalizes against the 456-cycle scanline budget, the raster line
/// advances once per budget (wrapping after line 153), the status register's
/// low three bits are recomputed, and — in OAM-scan only — a raised dirty
/// flag makes the compositor rebuild the background and/or viewport and then
/// clears.
pub open spec fn ppu_step_spec(p: PpuView, delta: nat, m: MmuView) -> (PpuView, MmuView) {
    if !lcd_enabled(m) {
        (p, m)
    } else {
        let total = p.mode_clock + delta;
        let lines = total / 456;
        let clk = total % 456;
        let ly = ly_iter(m.ram[0xFF44], lines);
        let mode = mode_of(ly, clk);
        let stat = stat_after(m.ram[0xFF41], ly == m.ram[0xFF45], mode);
        let m1 = MmuView {
            ram: m.ram.update(0xFF44, ly).update(0xFF41, stat),
            boot_rom: m.boot_rom,
            dirty_vram: m.dirty_vram,
            dirty_viewport: m.dirty_viewport,
        };
        if mode == 2 {
            let bg = if m1.dirty_vram {
                bg_seq_spec(m1)
            } else {
                p.background
            };
            let vp = if m1.dirty_vram || m1.dirty_viewport {
                viewport_seq_spec(bg, m1.ram[0xFF43], m1.ram[0xFF42])
            } else {
                p.viewport
            };
            (
                PpuView { mode, mode_clock: clk as nat, background: bg, viewport: vp },
                MmuView { dirty_vram: false, dirty_viewport: false, ..m1 },
            )
        } else {
            (
                PpuView { mode, mode_clock: clk as nat, background: p.background, viewport: p.viewport },
                m1,
            )
        }
    }
}

// ---------------------------------------------------------------------------
// The picture unit
// ---------------------------------------------------------------------------

/// The picture unit: the four-phase per-scanline timing state machine and
/// the background compositor with its persistent pixel buffers.
pub struct PPU {
    mode: u8,
    mode_clock: usize,
    background_buffer: Vec<u32>,
    viewport: Vec<u32>,
}

impl View for PPU {
    type V = PpuView;

    closed spec fn view(&self) -> PpuView {
        PpuView {
            mode: self.mode,
            mode_clock: self.mode_clock as nat,
            background: self.background_buffer@,
            viewport: self.viewport@,
        }
    }
}

impl PPU {
    /// A picture unit at power-on: HBlank mode, mode-clock zero, both pixel
    /// buffers showing the lightest shade.
    pub fn new() -> (r: PPU)
        ensures
            r@.wf(),
            r@.mode == 0u8,
            r@.mode_clock == 0nat,
            forall|i: int| 0 <= i < 65536 ==> r@.background[i] == LIGHTEST_GREEN,
            forall|i: int| 0 <= i < 23040 ==> r@.viewport[i] == LIGHTEST_GREEN,
    {
        let mut background_buffer: Vec<u32> = Vec::new();
        let mut i: usize = 0;
        while i < 65536
            invariant
                i <= 65536,
                background_buffer@.len() == i,
                forall|j: int| 0 <= j < i ==> background_buffer@[j] == LIGHTEST_GREEN,
            decreases 65536 - i,
        {
            background_buffer.push(LIGHTEST_GREEN);
            i += 1;
        }
        let mut viewport: Vec<u32> = Vec::new();
        let mut k: usize = 0;
        while k < 23040
            invariant
                k <= 23040,
                viewport@.len() == k,
                forall|j: int| 0 <= j < k ==> viewport@[j] == LIGHTEST_GREEN,
            decreases 23040 - k,
        {
            viewport.push(LIGHTEST_GREEN);
            k += 1;
        }
        PPU { mode: 0, mode_clock: 0, background_buffer, viewport }
    }

    /// The picture-unit control register.
    pub fn get_lcdc(&self, mmu: &MMU) -> (r: u8)
        requires
            mmu@.wf(),
        ensures
            r == mmu@.read(0xFF40),
    {
        mmu.read_byte(0xFF40)
    }

    /// The background palette register.
    pub fn get_bgp(&self, mmu: &MMU) -> (r: u8)
        requires
            mmu@.wf(),
        ensures
            r == mmu@.read(0xFF47),
    {
        mmu.read_byte(0xFF47)
    }

    /// The vertical scroll register.
    pub fn get_scy(&self, mmu: &MMU) -> (r: u8)
        requires
            mmu@.wf(),
        ensures
            r == mmu@.read(0xFF42),
    {
        mmu.read_byte(0xFF42)
    }

    /// The horizontal scroll register.
    pub fn get_scx(&self, mmu: &MMU) -> (r: u8)
        requires
            mmu@.wf(),
        ensures
            r == mmu@.read(0xFF43),
    {
        mmu.read_byte(0xFF43)
    }

    /// The raster-line counter.
    pub fn get_ly(&self, mmu: &MMU) -> (r: u8)
        requires
            mmu@.wf(),
        ensures
            r == mmu@.read(0xFF44),
    {
        mmu.read_byte(0xFF44)
    }

    /// The raster-line compare register.
    pub fn get_lyc(&self, mmu: &MMU) -> (r: u8)
        requires
            mmu@.wf(),
        ensures
            r == mmu@.read(0xFF45),
    {
        mmu.read_byte(0xFF45)
    }

    /// The current 160x144 viewport buffer of packed pixel colors.
    pub fn get_viewport(&self) -> (r: &Vec<u32>)
        ensures
            r@ == self@.viewport,
    {
        &self.viewport
    }

    /// The current 256x256 background buffer of packed pixel colors.
    pub fn get_background_buffer(&self) -> (r: &Vec<u32>)
        ensures
            r@ == self@.background,
    {
        &self.background_buffer
    }

    /// Whether the picture unit is enabled by bit 7 of its control register.
    pub fn is_lcd_enable(&self, mmu: &MMU) -> (r: bool)
        requires
            mmu@.wf(),
        ensures
            r == lcd_enabled(mmu@),
    {
        self.get_lcdc(mmu) >= 0x80
    }

    /// The 32x32 tile map read off the bus: 1024 tile indices starting at
    /// 0x9800.
    pub fn get_tile_map(&self, mmu: &MMU) -> (r: Vec<u8>)
        requires
            mmu@.wf(),
        ensures
            r@.len() == 1024,
            forall|i: int| 0 <= i < 1024 ==> r@[i] == mmu@.ram[0x9800 + i],
    {
        let mut tile_map: Vec<u8> = Vec::new();
        let mut i: usize = 0;
        while i < 1024
            invariant
                mmu@.wf(),
                i <= 1024,
                tile_map@.len() == i,
                forall|j: int| 0 <= j < i ==> tile_map@[j] == mmu@.ram[0x9800 + j],
            decreases 1024 - i,
        {
            tile_map.push(mmu.read_byte(0x9800 + i as u16));
            i += 1;
        }
        tile_map
    }

    /// The 16 bytes of one tile, read off the bus from its first byte's
    /// address.
    pub fn get_tile(&self, mmu: &MMU, first_tile_byte_addr: u16) -> (r: Vec<u8>)
        requires
            mmu@.wf(),
            first_tile_byte_addr + 16 <= 0x10000,
        ensures
            r@.len() == 16,
            forall|i: int|
                0 <= i < 16 ==> r@[i] == mmu@.read((first_tile_byte_addr + i) as u16),
    {
        let mut tile: Vec<u8> = Vec::new();
        let mut i: usize = 0;
        while i < 16
            invariant
                mmu@.wf(),
                first_tile_byte_addr + 16 <= 0x10000,
                i <= 16,
                tile@.len() == i,
                forall|j: int|
                    0 <= j < i ==> tile@[j] == mmu@.read((first_tile_byte_addr + j) as u16),
            decreases 16 - i,
        {
            tile.push(mmu.read_byte(first_tile_byte_addr + i as u16));
            i += 1;
        }
        tile
    }

    /// Looks the 2-bit value `pixel_pair` up in the background palette
    /// register.
    pub fn transform_pair_into_bgp_palette(&self, mmu: &MMU, pixel_pair: u8) -> (r: u8)
        requires
            mmu@.wf(),
        ensures
            r == palette_entry(mmu@.read(0xFF47), pixel_pair),
    {
        let bgp_palette = self.get_bgp(mmu);
        if pixel_pair == 1 {
            (bgp_palette / 4) % 4
        } else if pixel_pair == 2 {
            (bgp_palette / 16) % 4
        } else if pixel_pair == 3 {
            (bgp_palette / 64) % 4
        } else {
            bgp_palette % 4
        }
    }

    /// Maps a palette entry to its packed display color.
    pub fn transform_from_bgp_to_minifb_color(&self, bgp_palette: u8) -> (r: u32)
        ensures
            r == shade_color(bgp_palette),
    {
        if bgp_palette == 1 {
            LIGHT_GREEN
        } else if bgp_palette == 2 {
            DARK_GREEN
        } else if bgp_palette == 3 {
            DARKEST_GREEN
        } else {
            LIGHTEST_GREEN
        }
    }

    /// Decodes one 16-byte tile into its 64 display pixels, row-major: each
    /// pixel row is a pair of successive bytes, and the two bits of a pixel
    /// come from the same bit position of the pair, most-significant-bit
    /// first.
    pub fn raster_tile(&self, mmu: &MMU, tile: &Vec<u8>) -> (r: Vec<u32>)
        requires
            mmu@.wf(),
            tile@.len() == 16,
        ensures
            r@.len() == 64,
            forall|row: int, col: int|
                0 <= row < 8 && 0 <= col < 8 ==> r@[row * 8 + col] == #[trigger] tile_pixel_of(
                    tile@,
                    row,
                    col,
                    mmu@.read(0xFF47),
                ),
    {
        let mut pixels: Vec<u32> = Vec::new();
        let mut row: usize = 0;
        while row < 8
            invariant
                mmu@.wf(),
                tile@.len() == 16,
                row <= 8,
                pixels@.len() == row * 8,
                forall|r0: int, c0: int|
                    0 <= r0 < row && 0 <= c0 < 8 ==> pixels@[r0 * 8 + c0]
                        == #[trigger] tile_pixel_of(tile@, r0, c0, mmu@.read(0xFF47)),
            decreases 8 - row,
        {
            let b0 = tile[2 * row];
            let b1 = tile[2 * row + 1];
            let mut col: usize = 0;
            while col < 8
                invariant
                    mmu@.wf(),
                    tile@.len() == 16,
                    row < 8,
                    col <= 8,
                    b0 == tile@[2 * row],
                    b1 == tile@[2 * row + 1],
                    pixels@.len() == row * 8 + col,
                    forall|r0: int, c0: int|
                        0 <= r0 < row && 0 <= c0 < 8 ==> pixels@[r0 * 8 + c0]
                            == #[trigger] tile_pixel_of(tile@, r0, c0, mmu@.read(0xFF47)),
                    forall|c0: int|
                        0 <= c0 < col ==> pixels@[row * 8 + c0] == #[trigger] tile_pixel_of(
                            tile@,
                            row as int,
                            c0,
                            mmu@.read(0xFF47),
                        ),
                decreases 8 - col,
            {
                let color = self.raster_pixel(mmu, b0, b1, col);
                pixels.push(color);
                col += 1;
            }
            row += 1;
        }
        pixels
    }

    /// The display color of pixel column `col` of a tile row given as the
    /// byte pair (b0, b1).
    fn raster_pixel(&self, mmu: &MMU, b0: u8, b1: u8, col: usize) -> (r: u32)
        requires
            mmu@.wf(),
            col < 8,
        ensures
            r == tile_row_pixel(b0, b1, col as int, mmu@.read(0xFF47)),
    {
        let mask: u8 = if col == 0 {
            0x80
        } else if col == 1 {
            0x40
        } else if col == 2 {
            0x20
        } else if col == 3 {
            0x10
        } else if col == 4 {
            0x08
        } else if col == 5 {
            0x04
        } else if col == 6 {
            0x02
        } else {
            0x01
        };
        let pair: u8 = 2 * ((b0 / mask) % 2) + ((b1 / mask) % 2);
        let entry = self.transform_pair_into_bgp_palette(mmu, pair);
        self.transform_from_bgp_to_minifb_color(entry)
    }

    /// The rasterized tile set: the display pixels of all 256 tiles stored
    /// from 0x8000, 64 pixels each, in tile order.
    pub fn get_tile_set(&self, mmu: &MMU) -> (r: Vec<u32>)
        requires
            mmu@.wf(),
        ensures
            r@.len() == 16384,
            forall|t: int, row: int, col: int|
                0 <= t < 256 && 0 <= row < 8 && 0 <= col < 8 ==> r@[t * 64 + row * 8 + col]
                    == #[trigger] tile_set_pixel(mmu@, t, row, col),
    {
        let mut pixels: Vec<u32> = Vec::new();
        let mut t: usize = 0;
        while t < 256
            invariant
                mmu@.wf(),
                t <= 256,
                pixels@.len() == t * 64,
                forall|t0: int, r0: int, c0: int|
                    0 <= t0 < t && 0 <= r0 < 8 && 0 <= c0 < 8 ==> pixels@[t0 * 64 + r0 * 8 + c0]
                        == #[trigger] tile_set_pixel(mmu@, t0, r0, c0),
            decreases 256 - t,
        {
            let mut row: usize = 0;
            while row < 8
                invariant
                    mmu@.wf(),
                    t < 256,
                    row <= 8,
                    pixels@.len() == t * 64 + row * 8,
                    forall|t0: int, r0: int, c0: int|
                        0 <= t0 < t && 0 <= r0 < 8 && 0 <= c0 < 8 ==> pixels@[t0 * 64 + r0 * 8
                            + c0] == #[trigger] tile_set_pixel(mmu@, t0, r0, c0),
                    forall|r0: int, c0: int|
                        0 <= r0 < row && 0 <= c0 < 8 ==> pixels@[t * 64 + r0 * 8 + c0]
                            == #[trigger] tile_set_pixel(mmu@, t as int, r0, c0),
                decreases 8 - row,
            {
                let b0 = mmu.read_byte((0x8000 + t * 16 + 2 * row) as u16);
                let b1 = mmu.read_byte((0x8000 + t * 16 + 2 * row + 1) as u16);
                let mut col: usize = 0;
                while col < 8
                    invariant
                        mmu@.wf(),
                        t < 256,
                        row < 8,
                        col <= 8,
                        b0 == mmu@.ram[0x8000 + t * 16 + 2 * row],
                        b1 == mmu@.ram[0x8000 + t * 16 + 2 * row + 1],
                        pixels@.len() == t * 64 + row * 8 + col,
                        forall|t0: int, r0: int, c0: int|
                            0 <= t0 < t && 0 <= r0 < 8 && 0 <= c0 < 8 ==> pixels@[t0 * 64 + r0 * 8
                                + c0] == #[trigger] tile_set_pixel(mmu@, t0, r0, c0),
                        forall|r0: int, c0: int|
                            0 <= r0 < row && 0 <= c0 < 8 ==> pixels@[t * 64 + r0 * 8 + c0]
                                == #[trigger] tile_set_pixel(mmu@, t as int, r0, c0),
                        forall|c0: int|
                            0 <= c0 < col ==> pixels@[t * 64 + row * 8 + c0]
                                == #[trigger] tile_set_pixel(mmu@, t as int, row as int, c0),
                    decreases 8 - col,
                {
                    let color = self.raster_pixel(mmu, b0, b1, col);
                    pixels.push(color);
                    col += 1;
                }
                row += 1;
            }
            t += 1;
        }
        pixels
    }

    /// Rebuilds the whole 256x256 background buffer from the tile map and
    /// tile data currently on the bus.
    pub fn populate_background_buffer(&mut self, mmu: &MMU)
        requires
            old(self)@.wf(),
            mmu@.wf(),
        ensures
            final(self)@.wf(),
            final(self)@ == (PpuView { background: bg_seq_spec(mmu@), ..old(self)@ }),
    {
        let mut y: usize = 0;
        while y < 256
            invariant
                old(self)@.wf(),
                mmu@.wf(),
                y <= 256,
                self@.background.len() == 65536,
                self@.mode == old(self)@.mode,
                self@.mode_clock == old(self)@.mode_clock,
                self@.viewport == old(self)@.viewport,
                forall|y0: int, x0: int|
                    0 <= y0 < y && 0 <= x0 < 256 ==> self@.background[y0 * 256 + x0]
                        == #[trigger] bg_pixel(mmu@, x0, y0),
            decreases 256 - y,
        {
            let mut x: usize = 0;
            while x < 256
                invariant
                    old(self)@.wf(),
                    mmu@.wf(),
                    y < 256,
                    x <= 256,
                    self@.background.len() == 65536,
                    self@.mode == old(self)@.mode,
                    self@.mode_clock == old(self)@.mode_clock,
                    self@.viewport == old(self)@.viewport,
                    forall|y0: int, x0: int|
                        0 <= y0 < y && 0 <= x0 < 256 ==> self@.background[y0 * 256 + x0]
                            == #[trigger] bg_pixel(mmu@, x0, y0),
                    forall|x0: int|
                        0 <= x0 < x ==> self@.background[y * 256 + x0] == #[trigger] bg_pixel(
                            mmu@,
                            x0,
                            y as int,
                        ),
                decreases 256 - x,
            {
                let map_addr: u16 = (0x9800 + (y / 8) * 32 + x / 8) as u16;
                let idx = mmu.read_byte(map_addr);
                let tile_addr: usize = 0x8000 + (idx as usize) * 16 + 2 * (y % 8);
                let b0 = mmu.read_byte(tile_addr as u16);
                let b1 = mmu.read_byte((tile_addr + 1) as u16);
                let color = self.raster_pixel(mmu, b0, b1, x % 8);
                self.background_buffer.set(y * 256 + x, color);
                x += 1;
            }
            y += 1;
        }
        proof {
            assert forall|i: int| 0 <= i < 65536 implies self@.background[i] == bg_seq_spec(
                mmu@,
            )[i] by {
                vstd::arithmetic::div_mod::lemma_fundamental_div_mod(i, 256);
                vstd::arithmetic::div_mod::lemma_mod_bound(i, 256);
                assert(0 <= i / 256 < 256) by {
                    vstd::arithmetic::div_mod::lemma_fundamental_div_mod(i, 256);
                    vstd::arithmetic::div_mod::lemma_mod_bound(i, 256);
                };
                assert(self@.background[(i / 256) * 256 + (i % 256)] == bg_pixel(
                    mmu@,
                    i % 256,
                    i / 256,
                ));
            }
            assert(self@.background =~= bg_seq_spec(mmu@));
        }
    }

    /// Extracts the 160x144 viewport out of the background buffer under the
    /// current scroll registers, wrapping row and column indices modulo 256.
    pub fn transform_background_buffer_into_screen(&self, mmu: &MMU) -> (r: Vec<u32>)
        requires
            self@.wf(),
            mmu@.wf(),
        ensures
            r@ == viewport_seq_spec(self@.background, mmu@.read(0xFF43), mmu@.read(0xFF42)),
    {
        let scxb = self.get_scx(mmu);
        let scyb = self.get_scy(mmu);
        let scx = scxb as usize;
        let scy = scyb as usize;
        let mut viewport: Vec<u32> = Vec::new();
        let mut vy: usize = 0;
        while vy < 144
            invariant
                self@.wf(),
                mmu@.wf(),
                scxb == mmu@.read(0xFF43),
                scyb == mmu@.read(0xFF42),
                scx == scxb as usize,
                scy == scyb as usize,
                vy <= 144,
                viewport@.len() == vy * 160,
                forall|y0: int, x0: int|
                    0 <= y0 < vy && 0 <= x0 < 160 ==> viewport@[y0 * 160 + x0]
                        == #[trigger] vp_pixel(self@.background, scxb, scyb, x0, y0),
            decreases 144 - vy,
        {
            let sy = (scy + vy) % 256;
            let mut vx: usize = 0;
            while vx < 160
                invariant
                    self@.wf(),
                    mmu@.wf(),
                    scxb == mmu@.read(0xFF43),
                    scyb == mmu@.read(0xFF42),
                    scx == scxb as usize,
                    scy == scyb as usize,
                    vy < 144,
                    vx <= 160,
                    sy == (scy + vy) % 256,
                    viewport@.len() == vy * 160 + vx,
                    forall|y0: int, x0: int|
                        0 <= y0 < vy && 0 <= x0 < 160 ==> viewport@[y0 * 160 + x0]
                            == #[trigger] vp_pixel(self@.background, scxb, scyb, x0, y0),
                    forall|x0: int|
                        0 <= x0 < vx ==> viewport@[vy * 160 + x0] == #[trigger] vp_pixel(
                            self@.background,
                            scxb,
                            scyb,
                            x0,
                            vy as int,
                        ),
                decreases 160 - vx,
            {
                let sx = (scx + vx) % 256;
                viewport.push(self.background_buffer[sy * 256 + sx]);
                vx += 1;
            }
            vy += 1;
        }
        proof {
            assert forall|i: int| 0 <= i < 23040 implies viewport@[i] == viewport_seq_spec(
                self@.background,
                mmu@.read(0xFF43),
                mmu@.read(0xFF42),
            )[i] by {
                vstd::arithmetic::div_mod::lemma_fundamental_div_mod(i, 160);
                vstd::arithmetic::div_mod::lemma_mod_bound(i, 160);
                assert(viewport@[(i / 160) * 160 + (i % 160)] == vp_pixel(
                    self@.background,
                    mmu@.read(0xFF43),
                    mmu@.read(0xFF42),
                    i % 160,
                    i / 160,
                ));
            }
            assert(viewport@ =~= viewport_seq_spec(
                self@.background,
                mmu@.read(0xFF43),
                mmu@.read(0xFF42),
            ));
        }
        viewport
    }

    /// Advances the timing state machine by the cycles the processor just
    /// reported. Disabled, the unit freezes. Enabled, the mode-clock
    /// accumulates and normalizes against the scanline budget, the raster
    /// line steps once per budget, the status register mirrors mode and
    /// LY==LYC, and in OAM-scan a raised dirty flag makes the compositor
    /// rebuild the background and/or viewport before the flags clear.
    pub fn step(&mut self, cpu_clocks_passed: usize, mmu: &mut MMU)
        requires
            old(self)@.wf(),
            old(mmu)@.wf(),
            cpu_clocks_passed <= usize::MAX - 456,
        ensures
            final(self)@.wf(),
            final(mmu)@.wf(),
            (final(self)@, final(mmu)@) == ppu_step_spec(
                old(self)@,
                cpu_clocks_passed as nat,
                old(mmu)@,
            ),
    {
        let lcdc = mmu.read_byte(0xFF40);
        if lcdc >= 0x80 {
            self.mode_clock += cpu_clocks_passed;
            let mut ly = mmu.read_byte(0xFF44);
            let ghost ly0 = ly;
            let ghost total: nat = old(self)@.mode_clock + cpu_clocks_passed as nat;
            let ghost mut lines: nat = 0nat;
            while self.mode_clock >= 456
                invariant
                    self@.mode_clock + 456 * lines == total,
                    ly == ly_iter(ly0, lines),
                    self@.mode == old(self)@.mode,
                    self@.background == old(self)@.background,
                    self@.viewport == old(self)@.viewport,
                decreases self@.mode_clock,
            {
                self.mode_clock -= 456;
                ly = if ly >= 153 {
                    0
                } else {
                    ly + 1
                };
                proof {
                    lines = lines + 1;
                }
            }
            proof {
                vstd::arithmetic::div_mod::lemma_fundamental_div_mod_converse(
                    total as int,
                    456,
                    lines as int,
                    self@.mode_clock as int,
                );
            }
            let lyc = mmu.read_byte(0xFF45);
            let mode: u8 = if ly >= 144 {
                1
            } else if self.mode_clock < 80 {
                2
            } else if self.mode_clock < 252 {
                3
            } else {
                0
            };
            self.mode = mode;
            mmu.write_byte(0xFF44, ly);
            let stat_old = mmu.read_byte(0xFF41);
            let stat: u8 = (stat_old / 8) * 8 + (if ly == lyc {
                4
            } else {
                0
            }) + mode;
            mmu.write_byte(0xFF41, stat);
            if mode == 2 {
                if mmu.vram_dirty() {
                    self.populate_background_buffer(mmu);
                    self.viewport = self.transform_background_buffer_into_screen(mmu);
                    mmu.clear_vram_dirty();
                }
                if mmu.viewport_dirty() {
                    self.viewport = self.transform_background_buffer_into_screen(mmu);
                    mmu.clear_viewport_dirty();
                }
            }
        }
    }
}

} // verus!
