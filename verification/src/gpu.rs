//! The display timing unit: a four-phase state machine driven by an
//! elapsed-cycle counter. It owns video memory and sprite-attribute memory,
//! decodes raw tile bytes into 2-bit palette indices, and renders background
//! scanlines into a fixed 160x144 pixel buffer of packed colors.
//!
//! Timing choice: the cycle counter carries its remainder across a phase
//! transition instead of resetting to zero, so delivering a phase's cycle
//! budget in any split of `step` calls advances the machine by exactly that
//! budget; each call performs at most one phase transition.

use vstd::prelude::*;

verus! {

pub const SCREEN_WIDTH: usize = 160;

pub const SCREEN_HEIGHT: usize = 144;

/// Bytes of video memory backing tile data and the background maps.
pub const RAM_SIZE: usize = 0x2000;

/// Bytes of sprite-attribute memory.
pub const SPRITE_SIZE: usize = 0xA0;

/// Cycles spent scanning sprite attributes at the start of a visible line.
pub const OAM_CYCLES: u32 = 80;

/// Cycles spent transferring pixels; rendering happens when they elapse.
pub const VRAM_CYCLES: u32 = 172;

/// Cycles of horizontal blank closing each visible line.
pub const HBLANK_CYCLES: u32 = 204;

/// Cycles of one whole line during vertical blank.
pub const VBLANK_LINE_CYCLES: u32 = 456;

/// Index of the last visible scanline.
pub const LAST_VISIBLE_LINE: u32 = 143;

/// Index of the last vertical-blank line.
pub const LAST_LINE: u32 = 153;

/// The four phases of the scanline cycle.
#[derive(Clone, Copy, PartialEq, Eq, Structural, Debug)]
pub enum ReadMode {
    HorizontalBlank,
    VerticalBlank,
    ScanlineOAM,
    ScanlineVRAM,
}

/// The timing-relevant part of the unit's state, as one ghost value, so
/// that laws about phase transitions can be stated over a pure function.
pub ghost struct GpuTiming {
    pub mode: ReadMode,
    pub clock: int,
    pub line: int,
}

/// The cycle budget of a phase.
pub open spec fn spec_phase_budget(mode: ReadMode) -> int {
    match mode {
        ReadMode::ScanlineOAM => 80,
        ReadMode::ScanlineVRAM => 172,
        ReadMode::HorizontalBlank => 204,
        ReadMode::VerticalBlank => 456,
    }
}

/// One `step` call on the timing state: the elapsed cycles accumulate, and
/// at most one phase transition fires, carrying the remainder forward.
pub open spec fn spec_tick(t: GpuTiming, cycles: int) -> GpuTiming {
    let c = t.clock + cycles;
    if c < spec_phase_budget(t.mode) {
        GpuTiming { clock: c, ..t }
    } else {
        let c2 = c - spec_phase_budget(t.mode);
        match t.mode {
            ReadMode::ScanlineOAM => GpuTiming { mode: ReadMode::ScanlineVRAM, clock: c2, ..t },
            ReadMode::ScanlineVRAM => GpuTiming { mode: ReadMode::HorizontalBlank, clock: c2, ..t },
            ReadMode::HorizontalBlank => {
                if t.line == 143 {
                    GpuTiming { mode: ReadMode::VerticalBlank, clock: c2, line: 144 }
                } else {
                    GpuTiming { mode: ReadMode::ScanlineOAM, clock: c2, line: t.line + 1 }
                }
            },
            ReadMode::VerticalBlank => {
                if t.line == 153 {
                    GpuTiming { mode: ReadMode::ScanlineOAM, clock: c2, line: 0 }
                } else {
                    GpuTiming { mode: ReadMode::VerticalBlank, clock: c2, line: t.line + 1 }
                }
            },
        }
    }
}

/// Whether a `step` call delivering `cycles` completes the pixel-transfer
/// phase and therefore renders the current scanline.
pub open spec fn spec_tick_renders(t: GpuTiming, cycles: int) -> bool {
    t.mode == ReadMode::ScanlineVRAM && t.clock + cycles >= 172
}

/// Value of one bit of a byte, bit 0 the least significant.
pub open spec fn spec_bit_of(b: u8, k: int) -> u8 {
    (((b as int) / (if k == 0 {
        1int
    } else if k == 1 {
        2int
    } else if k == 2 {
        4int
    } else if k == 3 {
        8int
    } else if k == 4 {
        16int
    } else if k == 5 {
        32int
    } else if k == 6 {
        64int
    } else {
        128int
    })) % 2) as u8
}

/// The 2-bit palette index of pixel `col` (0 = leftmost) of a tile row
/// stored as two raw bit-plane bytes: the bit from `b1` is color bit 0, the
/// corresponding bit from `b2` is color bit 1.
pub open spec fn spec_color_index(b1: u8, b2: u8, col: int) -> u8 {
    (spec_bit_of(b1, 7 - col) + 2 * spec_bit_of(b2, 7 - col)) as u8
}

/// Palette index of pixel (`row`, `col`) of tile `tile` in bank `bank`,
/// decoded straight from the raw bytes in video memory. Bank 1 starts at
/// the bottom of video memory; bank 0 starts 0x800 bytes in.
pub open spec fn spec_tile_pixel(ram: Seq<u8>, bank: int, tile: int, row: int, col: int) -> u8 {
    let base: int = if bank == 0 {
        0x800
    } else {
        0
    };
    spec_color_index(ram[base + tile * 16 + row * 2], ram[base + tile * 16 + row * 2 + 1], col)
}

/// The fixed four-entry grayscale palette, packed as 0x00RRGGBB.
pub open spec fn spec_palette(i: u8) -> u32 {
    if i == 0 {
        0xFFFFFFu32
    } else if i == 1 {
        0xC0C0C0u32
    } else if i == 2 {
        0x606060u32
    } else {
        0u32
    }
}

/// The packed color of visible pixel (`line`, `x`): the background map at
/// the scroll-adjusted position names a tile, and the tile's scroll-adjusted
/// pixel goes through the palette.
pub open spec fn spec_bg_pixel(
    ram: Seq<u8>,
    bank: int,
    scroll_x: int,
    scroll_y: int,
    line: int,
    x: int,
) -> u32 {
    let by = (line + scroll_y) % 256;
    let bx = (x + scroll_x) % 256;
    let tile = ram[0x1800 + (by / 8) * 32 + bx / 8];
    spec_palette(spec_tile_pixel(ram, bank, tile as int, by % 8, bx % 8))
}

/// The display timing unit. It owns the video and sprite-attribute stores
/// the address bus delegates into, the decoded tile cache (two banks of 256
/// tiles, 64 palette indices each, flattened), and the output pixel buffer.
pub struct GPU {
    /// The rendered frame, one packed color per visible pixel, row-major.
    pub canvas: Vec<u32>,
    /// Raw video memory: tile data and background maps.
    pub ram: Vec<u8>,
    /// Sprite attribute memory.
    pub sprite: Vec<u8>,
    /// Decoded tile cache: two banks, 256 tiles, 8x8 palette indices.
    pub tile_set: Vec<u8>,
    pub read_mode: ReadMode,
    /// Cycles accumulated in the current phase.
    pub clock: u32,
    /// Current scanline, 0..=153; rows past 143 are vertical blank.
    pub line: u32,
    pub scroll_x: u8,
    pub scroll_y: u8,
    /// The tile-data bank the renderer reads, 0 or 1.
    pub tile_bank: u8,
}

impl GPU {
    /// Well-formed unit: fixed store sizes, the line inside its range and
    /// tied to the phase, and a valid bank selector.
    pub open spec fn wf(&self) -> bool {
        &&& self.canvas@.len() == 160 * 144
        &&& self.ram@.len() == 0x2000
        &&& self.sprite@.len() == 0xA0
        &&& self.tile_set@.len() == 2 * 256 * 64
        &&& self.tile_bank < 2
        &&& (self.read_mode == ReadMode::VerticalBlank ==> 144 <= self.line <= 153)
        &&& (self.read_mode != ReadMode::VerticalBlank ==> self.line < 144)
    }

    /// The timing-relevant part of the state.
    pub open spec fn timing(&self) -> GpuTiming {
        GpuTiming { mode: self.read_mode, clock: self.clock as int, line: self.line as int }
    }

    /// Power-on state: all stores zeroed (palette index 0 is white, packed
    /// color 0 is black), horizontal blank at line 0, bank 1 selected.
    pub fn new() -> (g: GPU)
        ensures
            g.wf(),
            g.canvas@ == Seq::new((160 * 144) as nat, |i: int| 0u32),
            g.ram@ == Seq::new(0x2000nat, |i: int| 0u8),
            g.sprite@ == Seq::new(0xA0nat, |i: int| 0u8),
            g.tile_set@ == Seq::new((2 * 256 * 64) as nat, |i: int| 0u8),
            g.read_mode == ReadMode::HorizontalBlank,
            g.clock == 0,
            g.line == 0,
            g.scroll_x == 0,
            g.scroll_y == 0,
            g.tile_bank == 1,
    {
        GPU {
            canvas: zero_vec_u32(160 * 144),
            ram: zero_vec_u8(0x2000),
            sprite: zero_vec_u8(0xA0),
            tile_set: zero_vec_u8(2 * 256 * 64),
            read_mode: ReadMode::HorizontalBlank,
            clock: 0,
            line: 0,
            scroll_x: 0,
            scroll_y: 0,
            tile_bank: 1,
        }
    }

    /// Decodes one raw tile row into its eight palette indices, leftmost
    /// pixel first.
    pub fn tile_line_color(b1: u8, b2: u8) -> (r: Vec<u8>)
        ensures
            r@.len() == 8,
            forall|k: int| 0 <= k < 8 ==> r@[k] == spec_color_index(b1, b2, k),
            forall|k: int| 0 <= k < 8 ==> r@[k] < 4,
    {
        let mut v: Vec<u8> = Vec::new();
        v.push((b1 / 128) % 2 + 2 * ((b2 / 128) % 2));
        v.push((b1 / 64) % 2 + 2 * ((b2 / 64) % 2));
        v.push((b1 / 32) % 2 + 2 * ((b2 / 32) % 2));
        v.push((b1 / 16) % 2 + 2 * ((b2 / 16) % 2));
        v.push((b1 / 8) % 2 + 2 * ((b2 / 8) % 2));
        v.push((b1 / 4) % 2 + 2 * ((b2 / 4) % 2));
        v.push((b1 / 2) % 2 + 2 * ((b2 / 2) % 2));
        v.push(b1 % 2 + 2 * (b2 % 2));
        v
    }

    /// Rebuilds one bank of the decoded tile cache from raw video memory.
    /// Raw interleaved bit-planes become palette indices, tile by tile.
    pub fn read_tiles(&mut self, set_idx: usize)
        requires
            old(self).wf(),
            set_idx < 2,
        ensures
            final(self).wf(),
            final(self).canvas == old(self).canvas,
            final(self).ram == old(self).ram,
            final(self).sprite == old(self).sprite,
            final(self).read_mode == old(self).read_mode,
            final(self).clock == old(self).clock,
            final(self).line == old(self).line,
            final(self).scroll_x == old(self).scroll_x,
            final(self).scroll_y == old(self).scroll_y,
            final(self).tile_bank == old(self).tile_bank,
            forall|t: int, r: int, c: int|
                0 <= t < 256 && 0 <= r < 8 && 0 <= c < 8 ==> final(self).tile_set@[set_idx * 16384
                    + t * 64 + r * 8 + c] == spec_tile_pixel(old(self).ram@, set_idx as int, t, r, c),
            forall|j: int|
                0 <= j < 2 * 256 * 64 && !(set_idx * 16384 <= j < set_idx * 16384 + 16384)
                    ==> final(self).tile_set@[j] == old(self).tile_set@[j],
    {
        let base: usize = if set_idx == 0 {
            0x800
        } else {
            0
        };
        let start: usize = set_idx * 16384;
        let mut t: usize = 0;
        while t < 256
            invariant
                t <= 256,
                set_idx < 2,
                base == (if set_idx == 0 {
                    0x800int
                } else {
                    0int
                }),
                start == set_idx * 16384,
                self.wf(),
                self.canvas == old(self).canvas,
                self.ram == old(self).ram,
                self.sprite == old(self).sprite,
                self.read_mode == old(self).read_mode,
                self.clock == old(self).clock,
                self.line == old(self).line,
                self.scroll_x == old(self).scroll_x,
                self.scroll_y == old(self).scroll_y,
                self.tile_bank == old(self).tile_bank,
                forall|tt: int, rr: int, cc: int|
                    0 <= tt < t && 0 <= rr < 8 && 0 <= cc < 8 ==> self.tile_set@[start + tt * 64
                        + rr * 8 + cc] == spec_tile_pixel(old(self).ram@, set_idx as int, tt, rr, cc),
                forall|j: int|
                    0 <= j < 2 * 256 * 64 && !(start <= j < start + t * 64) ==> self.tile_set@[j]
                        == old(self).tile_set@[j],
            decreases 256 - t,
        {
            let mut r: usize = 0;
            while r < 8
                invariant
                    t < 256,
                    r <= 8,
                    set_idx < 2,
                    base == (if set_idx == 0 {
                        0x800int
                    } else {
                        0int
                    }),
                    start == set_idx * 16384,
                    self.wf(),
                    self.canvas == old(self).canvas,
                    self.ram == old(self).ram,
                    self.sprite == old(self).sprite,
                    self.read_mode == old(self).read_mode,
                    self.clock == old(self).clock,
                    self.line == old(self).line,
                    self.scroll_x == old(self).scroll_x,
                    self.scroll_y == old(self).scroll_y,
                    self.tile_bank == old(self).tile_bank,
                    forall|tt: int, rr: int, cc: int|
                        0 <= tt < t && 0 <= rr < 8 && 0 <= cc < 8 ==> self.tile_set@[start + tt * 64
                            + rr * 8 + cc] == spec_tile_pixel(
                            old(self).ram@,
                            set_idx as int,
                            tt,
                            rr,
                            cc,
                        ),
                    forall|rr: int, cc: int|
                        0 <= rr < r && 0 <= cc < 8 ==> self.tile_set@[start + t * 64 + rr * 8 + cc]
                            == spec_tile_pixel(old(self).ram@, set_idx as int, t as int, rr, cc),
                    forall|j: int|
                        0 <= j < 2 * 256 * 64 && !(start <= j < start + t * 64 + r * 8)
                            ==> self.tile_set@[j] == old(self).tile_set@[j],
                decreases 8 - r,
            {
                let b1 = self.ram[base + t * 16 + r * 2];
                let b2 = self.ram[base + t * 16 + r * 2 + 1];
                let px = GPU::tile_line_color(b1, b2);
                let mut c: usize = 0;
                while c < 8
                    invariant
                        t < 256,
                        r < 8,
                        c <= 8,
                        set_idx < 2,
                        base == (if set_idx == 0 {
                            0x800int
                        } else {
                            0int
                        }),
                        start == set_idx * 16384,
                        px@.len() == 8,
                        forall|k: int|
                            0 <= k < 8 ==> px@[k] == spec_color_index(b1, b2, k),
                        b1 == old(self).ram@[base + t * 16 + r * 2],
                        b2 == old(self).ram@[base + t * 16 + r * 2 + 1],
                        self.wf(),
                        self.canvas == old(self).canvas,
                        self.ram == old(self).ram,
                        self.sprite == old(self).sprite,
                        self.read_mode == old(self).read_mode,
                        self.clock == old(self).clock,
                        self.line == old(self).line,
                        self.scroll_x == old(self).scroll_x,
                        self.scroll_y == old(self).scroll_y,
                        self.tile_bank == old(self).tile_bank,
                        forall|tt: int, rr: int, cc: int|
                            0 <= tt < t && 0 <= rr < 8 && 0 <= cc < 8 ==> self.tile_set@[start + tt
                                * 64 + rr * 8 + cc] == spec_tile_pixel(
                                old(self).ram@,
                                set_idx as int,
                                tt,
                                rr,
                                cc,
                            ),
                        forall|rr: int, cc: int|
                            0 <= rr < r && 0 <= cc < 8 ==> self.tile_set@[start + t * 64 + rr * 8
                                + cc] == spec_tile_pixel(
                                old(self).ram@,
                                set_idx as int,
                                t as int,
                                rr,
                                cc,
                            ),
                        forall|cc: int|
                            0 <= cc < c ==> self.tile_set@[start + t * 64 + r * 8 + cc]
                                == spec_tile_pixel(
                                old(self).ram@,
                                set_idx as int,
                                t as int,
                                r as int,
                                cc,
                            ),
                        forall|j: int|
                            0 <= j < 2 * 256 * 64 && !(start <= j < start + t * 64 + r * 8 + c)
                                ==> self.tile_set@[j] == old(self).tile_set@[j],
                    decreases 8 - c,
                {
                    let idx: usize = start + t * 64 + r * 8 + c;
                    self.tile_set[idx] = px[c];
                    c = c + 1;
                }
                r = r + 1;
            }
            t = t + 1;
        }
    }

    /// Renders the current scanline: redecodes the selected bank, then maps
    /// every visible pixel of the row through the background map, the tile
    /// cache and the palette into the pixel buffer.
    pub fn render_scan_line(&mut self)
        requires
            old(self).wf(),
            old(self).line < 144,
        ensures
            final(self).wf(),
            final(self).ram == old(self).ram,
            final(self).sprite == old(self).sprite,
            final(self).read_mode == old(self).read_mode,
            final(self).clock == old(self).clock,
            final(self).line == old(self).line,
            final(self).scroll_x == old(self).scroll_x,
            final(self).scroll_y == old(self).scroll_y,
            final(self).tile_bank == old(self).tile_bank,
            forall|x: int|
                0 <= x < 160 ==> final(self).canvas@[old(self).line * 160 + x] == spec_bg_pixel(
                    old(self).ram@,
                    old(self).tile_bank as int,
                    old(self).scroll_x as int,
                    old(self).scroll_y as int,
                    old(self).line as int,
                    x,
                ),
            forall|j: int|
                0 <= j < 160 * 144 && !(old(self).line * 160 <= j < old(self).line * 160 + 160)
                    ==> final(self).canvas@[j] == old(self).canvas@[j],
    {
        let bank: usize = self.tile_bank as usize;
        self.read_tiles(bank);
        let line: usize = self.line as usize;
        let sx: usize = self.scroll_x as usize;
        let sy: usize = self.scroll_y as usize;
        let mut x: usize = 0;
        while x < 160
            invariant
                x <= 160,
                line == old(self).line,
                line < 144,
                sx == old(self).scroll_x,
                sy == old(self).scroll_y,
                bank == old(self).tile_bank,
                bank < 2,
                self.wf(),
                self.ram == old(self).ram,
                self.sprite == old(self).sprite,
                self.read_mode == old(self).read_mode,
                self.clock == old(self).clock,
                self.line == old(self).line,
                self.scroll_x == old(self).scroll_x,
                self.scroll_y == old(self).scroll_y,
                self.tile_bank == old(self).tile_bank,
                forall|t: int, r: int, c: int|
                    0 <= t < 256 && 0 <= r < 8 && 0 <= c < 8 ==> self.tile_set@[bank * 16384 + t
                        * 64 + r * 8 + c] == spec_tile_pixel(old(self).ram@, bank as int, t, r, c),
                forall|xx: int|
                    0 <= xx < x ==> self.canvas@[line * 160 + xx] == spec_bg_pixel(
                        old(self).ram@,
                        bank as int,
                        sx as int,
                        sy as int,
                        line as int,
                        xx,
                    ),
                forall|j: int|
                    0 <= j < 160 * 144 && !(line * 160 <= j < line * 160 + x) ==> self.canvas@[j]
                        == old(self).canvas@[j],
            decreases 160 - x,
        {
            let by: usize = (line + sy) % 256;
            let bx: usize = (x + sx) % 256;
            let tile: usize = self.ram[0x1800 + (by / 8) * 32 + bx / 8] as usize;
            let pix: u8 = self.tile_set[bank * 16384 + tile * 64 + (by % 8) * 8 + (bx % 8)];
            let color: u32 = palette(pix);
            self.canvas[line * 160 + x] = color;
            x = x + 1;
        }
    }

    /// Advances the timing machine by `cycles` elapsed cycles: at most one
    /// phase transition, remainder carried forward. Completing the
    /// pixel-transfer phase renders the current scanline; no other call
    /// touches the pixel buffer.
    pub fn step(&mut self, cycles: u32)
        requires
            old(self).wf(),
            old(self).clock + cycles <= u32::MAX,
        ensures
            final(self).wf(),
            final(self).timing() == spec_tick(old(self).timing(), cycles as int),
            final(self).ram == old(self).ram,
            final(self).sprite == old(self).sprite,
            final(self).scroll_x == old(self).scroll_x,
            final(self).scroll_y == old(self).scroll_y,
            final(self).tile_bank == old(self).tile_bank,
            !spec_tick_renders(old(self).timing(), cycles as int) ==> final(self).canvas
                == old(self).canvas && final(self).tile_set == old(self).tile_set,
            spec_tick_renders(old(self).timing(), cycles as int) ==> {
                &&& forall|x: int|
                    0 <= x < 160 ==> final(self).canvas@[old(self).line * 160 + x] == spec_bg_pixel(
                        old(self).ram@,
                        old(self).tile_bank as int,
                        old(self).scroll_x as int,
                        old(self).scroll_y as int,
                        old(self).line as int,
                        x,
                    )
                &&& forall|j: int|
                    0 <= j < 160 * 144 && !(old(self).line * 160 <= j < old(self).line * 160 + 160)
                        ==> final(self).canvas@[j] == old(self).canvas@[j]
            },
    {
        self.clock = self.clock + cycles;
        match self.read_mode {
            ReadMode::HorizontalBlank => {
                if self.clock >= HBLANK_CYCLES {
                    self.clock = self.clock - HBLANK_CYCLES;
                    if self.line == LAST_VISIBLE_LINE {
                        self.read_mode = ReadMode::VerticalBlank;
                        self.line = 144;
                    } else {
                        self.read_mode = ReadMode::ScanlineOAM;
                        self.line = self.line + 1;
                    }
                }
            },
            ReadMode::VerticalBlank => {
                if self.clock >= VBLANK_LINE_CYCLES {
                    self.clock = self.clock - VBLANK_LINE_CYCLES;
                    if self.line == LAST_LINE {
                        self.read_mode = ReadMode::ScanlineOAM;
                        self.line = 0;
                    } else {
                        self.line = self.line + 1;
                    }
                }
            },
            ReadMode::ScanlineOAM => {
                if self.clock >= OAM_CYCLES {
                    self.clock = self.clock - OAM_CYCLES;
                    self.read_mode = ReadMode::ScanlineVRAM;
                }
            },
            ReadMode::ScanlineVRAM => {
                if self.clock >= VRAM_CYCLES {
                    self.clock = self.clock - VRAM_CYCLES;
                    self.read_mode = ReadMode::HorizontalBlank;
                    self.render_scan_line();
                }
            },
        }
    }
}

/// One visible scanline, cycle-exact: from the sprite-scan phase with a
/// fresh counter, delivering the three phase budgets of 80, 172 and 204
/// cycles walks the unit through pixel transfer — whose completion, and
/// nothing else along the way, renders the line — and horizontal blank
/// into the next line's sprite scan, with the line counter one higher.
pub proof fn lemma_scanline_cycle(l: int)
    requires
        0 <= l < 143,
    ensures
        spec_tick(GpuTiming { mode: ReadMode::ScanlineOAM, clock: 0, line: l }, 80) == (GpuTiming {
            mode: ReadMode::ScanlineVRAM,
            clock: 0,
            line: l,
        }),
        spec_tick(GpuTiming { mode: ReadMode::ScanlineVRAM, clock: 0, line: l }, 172)
            == (GpuTiming { mode: ReadMode::HorizontalBlank, clock: 0, line: l }),
        spec_tick(GpuTiming { mode: ReadMode::HorizontalBlank, clock: 0, line: l }, 204)
            == (GpuTiming { mode: ReadMode::ScanlineOAM, clock: 0, line: l + 1 }),
        spec_tick_renders(GpuTiming { mode: ReadMode::ScanlineVRAM, clock: 0, line: l }, 172),
        !spec_tick_renders(GpuTiming { mode: ReadMode::ScanlineOAM, clock: 0, line: l }, 80),
        !spec_tick_renders(GpuTiming { mode: ReadMode::HorizontalBlank, clock: 0, line: l }, 204),
{
}

/// The frame's tail: after the last visible line's horizontal blank the
/// unit enters vertical blank at line 144; each further 456-cycle period
/// advances one blank line, and the period closing line 153 returns the
/// unit to the sprite scan of line 0.
pub proof fn lemma_vertical_blank_cycle()
    ensures
        spec_tick(GpuTiming { mode: ReadMode::HorizontalBlank, clock: 0, line: 143 }, 204)
            == (GpuTiming { mode: ReadMode::VerticalBlank, clock: 0, line: 144 }),
        forall|l: int|
            144 <= l < 153 ==> spec_tick(
                GpuTiming { mode: ReadMode::VerticalBlank, clock: 0, line: l },
                456,
            ) == (GpuTiming { mode: ReadMode::VerticalBlank, clock: 0, line: l + 1 }),
        spec_tick(GpuTiming { mode: ReadMode::VerticalBlank, clock: 0, line: 153 }, 456)
            == (GpuTiming { mode: ReadMode::ScanlineOAM, clock: 0, line: 0 }),
{
}

/// Splitting a delivery: a call that stays inside the current phase's
/// budget only accumulates, so the cycles of one phase may arrive in any
/// number of `step` calls — the state after the budget is the same as if
/// it had arrived at once.
pub proof fn lemma_tick_split(t: GpuTiming, a: int, b: int)
    requires
        0 <= a,
        0 <= b,
        t.clock + a < spec_phase_budget(t.mode),
    ensures
        spec_tick(spec_tick(t, a), b) == spec_tick(t, a + b),
{
}

/// Maps a 2-bit palette index to its packed grayscale color.
pub fn palette(i: u8) -> (c: u32)
    ensures
        c == spec_palette(i),
{
    if i == 0 {
        0xFFFFFF
    } else if i == 1 {
        0xC0C0C0
    } else if i == 2 {
        0x606060
    } else {
        0
    }
}

/// A zero-filled byte store of the given size.
fn zero_vec_u8(n: usize) -> (v: Vec<u8>)
    ensures
        v@ == Seq::new(n as nat, |i: int| 0u8),
{
    let mut v: Vec<u8> = Vec::new();
    let mut i: usize = 0;
    while i < n
        invariant
            i <= n,
            v@.len() == i,
            forall|j: int| 0 <= j < i ==> v@[j] == 0u8,
        decreases n - i,
    {
        v.push(0);
        i = i + 1;
    }
    proof {
        assert(v@ =~= Seq::new(n as nat, |i: int| 0u8));
    }
    v
}

/// A zero-filled pixel buffer of the given size.
fn zero_vec_u32(n: usize) -> (v: Vec<u32>)
    ensures
        v@ == Seq::new(n as nat, |i: int| 0u32),
{
    let mut v: Vec<u32> = Vec::new();
    let mut i: usize = 0;
    while i < n
        invariant
            i <= n,
            v@.len() == i,
            forall|j: int| 0 <= j < i ==> v@[j] == 0u32,
        decreases n - i,
    {
        v.push(0);
        i = i + 1;
    }
    proof {
        assert(v@ =~= Seq::new(n as nat, |i: int| 0u32));
    }
    v
}

} // verus!
