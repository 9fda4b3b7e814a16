//! The Game Boy picture processing unit: scanline timing, LCD modes and STAT/VBlank
//! interrupts, and rendering of background, window and sprites. The framebuffer
//! holds one shade per pixel, 0 (white) to 3 (black).
use vstd::prelude::*;
use crate::gb::bus::{Bus, BusModel};
use crate::bits::lemma_and_le_u8;

verus! {

pub const SCREEN_WIDTH: usize = 160;
pub const SCREEN_HEIGHT: usize = 144;
/// Cycles per scanline.
pub const SCANLINE_CYCLES: u32 = 456;
/// Scanlines per frame, VBlank included.
pub const TOTAL_SCANLINES: u8 = 154;

/// The shade that palette register `palette` gives color index `ci`.
pub open spec fn shade(palette: u8, ci: u8) -> u8 {
    (palette >> (ci * 2) as u8) & 0x03
}

/// The 2-bit color at column `col` of row `line` of the tile at `tile_addr`.
pub open spec fn tile_pixel(m: BusModel, tile_addr: int, line: int, col: int) -> u8 {
    let b1 = m.read8((tile_addr + line * 2) as u16);
    let b2 = m.read8((tile_addr + line * 2 + 1) as u16);
    let bit = (7 - col) as u8;
    (((b2 >> bit) & 1) << 1u8) | ((b1 >> bit) & 1)
}

/// Address of the tile with index `idx` under the LCDC tile data select.
pub open spec fn bg_tile_addr(lcdc: u8, idx: u8) -> int {
    if lcdc & 0x10 == 0 {
        0x9000 + (if idx >= 128 { idx - 256 } else { idx as int }) * 16
    } else {
        0x8000 + idx * 16
    }
}

/// The background or window color index at pixel (`x`, `y`).
pub open spec fn bg_color_index(m: BusModel, y: int, x: int) -> u8 {
    let lcdc = m.read8(0xFF40);
    let scy = m.read8(0xFF42) as int;
    let scx = m.read8(0xFF43) as int;
    let wy = m.read8(0xFF4A) as int;
    let wx = m.read8(0xFF4B) as int;
    let in_window = lcdc & 0x20 != 0 && wy < 144 && y >= wy && x >= wx - 7;
    let map_base: int = if in_window {
        if lcdc & 0x40 != 0 { 0x9C00 } else { 0x9800 }
    } else {
        if lcdc & 0x08 != 0 { 0x9C00 } else { 0x9800 }
    };
    let py = if in_window { y - wy } else { (y + scy) % 256 };
    let px = if in_window { x - (wx - 7) } else { (x + scx) % 256 };
    let idx = m.read8((map_base + (py / 8) * 32 + px / 8) as u16);
    tile_pixel(m, bg_tile_addr(lcdc, idx), py % 8, px % 8)
}

/// Whether sprite `i` puts a pixel at (`x`, `y`): it covers the pixel, its color there is
/// not transparent, and it is not hidden behind a nonzero background color.
pub open spec fn sprite_draws(m: BusModel, y: int, x: int, i: int) -> bool {
    let base = 0xFE00 + i * 4;
    let lcdc = m.read8(0xFF40);
    let height: int = if lcdc & 0x04 != 0 { 16 } else { 8 };
    let sy = m.read8(base as u16) - 16;
    let sx = m.read8((base + 1) as u16) - 8;
    let attr = m.read8((base + 3) as u16);
    &&& sy <= y < sy + height
    &&& sx <= x < sx + 8
    &&& sprite_color(m, y, x, i) != 0
    &&& !(attr & 0x80 != 0 && bg_color_index(m, y, x) != 0)
}

/// The color index of sprite `i` at pixel (`x`, `y`), given that it covers the pixel.
pub open spec fn sprite_color(m: BusModel, y: int, x: int, i: int) -> u8 {
    let base = 0xFE00 + i * 4;
    let lcdc = m.read8(0xFF40);
    let height: int = if lcdc & 0x04 != 0 { 16 } else { 8 };
    let sy = m.read8(base as u16) - 16;
    let sx = m.read8((base + 1) as u16) - 8;
    let tile = m.read8((base + 2) as u16);
    let attr = m.read8((base + 3) as u16);
    let row = y - sy;
    let tile_y = if attr & 0x40 != 0 { height - 1 - row } else { row };
    let tile_index = if height == 16 { tile & 0xFE } else { tile };
    let col = x - sx;
    let tile_col = if attr & 0x20 != 0 { 7 - col } else { col };
    tile_pixel(m, 0x8000 + tile_index * 16, tile_y, tile_col)
}

/// The shade of sprite `i` at pixel (`x`, `y`).
pub open spec fn sprite_shade(m: BusModel, y: int, x: int, i: int) -> u8 {
    let attr = m.read8((0xFE00 + i * 4 + 3) as u16);
    let palette = if attr & 0x10 != 0 { m.read8(0xFF49) } else { m.read8(0xFF48) };
    shade(palette, sprite_color(m, y, x, i))
}

/// The shade of the lowest-numbered sprite from `i` on that draws at (`x`, `y`):
/// lower-numbered sprites are drawn over higher-numbered ones.
pub open spec fn top_sprite(m: BusModel, y: int, x: int, i: int) -> Option<u8>
    decreases 40 - i,
{
    if i >= 40 || i < 0 {
        None
    } else if sprite_draws(m, y, x, i) {
        Some(sprite_shade(m, y, x, i))
    } else {
        top_sprite(m, y, x, i + 1)
    }
}

/// The shade of pixel (`x`, `y`) once a scanline is rendered.
pub open spec fn rendered_shade(m: BusModel, y: int, x: int) -> u8 {
    let lcdc = m.read8(0xFF40);
    if lcdc & 0x01 == 0 {
        0
    } else {
        let bg = shade(m.read8(0xFF47), bg_color_index(m, y, x));
        if lcdc & 0x02 == 0 {
            bg
        } else {
            match top_sprite(m, y, x, 0) {
                Some(s) => s,
                None => bg,
            }
        }
    }
}

/// The background information kept for pixel (`x`, `y`): its background color index.
pub open spec fn rendered_bg_info(m: BusModel, y: int, x: int) -> u8 {
    if m.read8(0xFF40) & 0x01 == 0 {
        0
    } else {
        bg_color_index(m, y, x)
    }
}

/// Pixel (`x`, `y`) of a screen-sized buffer.
pub open spec fn pixel(buf: Seq<u8>, y: int, x: int) -> u8 {
    buf[y * 160 + x]
}

/// The PPU as a value.
pub struct PpuModel {
    pub framebuffer: Seq<u8>,
    pub bg_pixel_info: Seq<u8>,
    pub cycle_counter: u32,
    pub scanline: u8,
    pub frame_counter: u32,
}

impl PpuModel {
    pub open spec fn wf(self) -> bool {
        &&& self.framebuffer.len() == SCREEN_WIDTH * SCREEN_HEIGHT
        &&& forall|j: int| 0 <= j < self.framebuffer.len() ==> #[trigger] self.framebuffer[j] <= 3
        &&& self.bg_pixel_info.len() == SCREEN_WIDTH * SCREEN_HEIGHT
        &&& self.scanline < TOTAL_SCANLINES
    }

    /// The PPU after rendering scanline `y` from the bus.
    pub open spec fn render_line(self, m: BusModel, y: int) -> PpuModel {
        PpuModel {
            framebuffer: Seq::new(
                self.framebuffer.len(),
                |j: int|
                    if y * 160 <= j < y * 160 + 160 {
                        rendered_shade(m, y, j - y * 160)
                    } else {
                        self.framebuffer[j]
                    },
            ),
            bg_pixel_info: Seq::new(
                self.bg_pixel_info.len(),
                |j: int|
                    if y * 160 <= j < y * 160 + 160 {
                        rendered_bg_info(m, y, j - y * 160)
                    } else {
                        self.bg_pixel_info[j]
                    },
            ),
            ..self
        }
    }

    /// One completed scanline: render it if visible, move to the next line, request
    /// VBlank on entering line 144, wrap after line 153, and publish LY.
    pub open spec fn line_step(self, m: BusModel) -> (PpuModel, BusModel, bool) {
        let p1 = if self.scanline < 144 { self.render_line(m, self.scanline as int) } else { self };
        let next = (self.scanline + 1) as u8;
        let m1 = if next == 144 { m.request_interrupt_model(0x01) } else { m };
        let wrapped = next >= TOTAL_SCANLINES;
        let p2 = PpuModel {
            scanline: if wrapped { 0 } else { next },
            frame_counter: if wrapped { self.frame_counter.wrapping_add(1) } else { self.frame_counter },
            ..p1
        };
        (p2, m1.set_ly_model(p2.scanline), wrapped)
    }

    /// `n` completed scanlines, and whether a frame completed among them.
    pub open spec fn lines(self, m: BusModel, n: nat) -> (PpuModel, BusModel, bool)
        decreases n,
    {
        if n == 0 {
            (self, m, false)
        } else {
            let (p, b, f) = self.lines(m, (n - 1) as nat);
            let (p2, b2, f2) = p.line_step(b);
            (p2, b2, f || f2)
        }
    }

    /// The LCD mode for the current position: 1 in VBlank, else 2, 3 or 0 by the cycle.
    pub open spec fn mode(self) -> u8 {
        if self.scanline >= 144 {
            1
        } else if self.cycle_counter < 80 {
            2
        } else if self.cycle_counter < 252 {
            3
        } else {
            0
        }
    }

    /// The PPU and bus after `cycles` cycles, and whether a frame completed.
    pub open spec fn step(self, cycles: u32, m: BusModel) -> (PpuModel, BusModel, bool) {
        if m.read8(0xFF40) & 0x80 == 0 {
            let p = PpuModel { cycle_counter: 0, scanline: 0, ..self };
            (p, m.set_ly_model(0).set_stat_model(0, false), false)
        } else {
            let total = self.cycle_counter.wrapping_add(cycles);
            let p0 = PpuModel { cycle_counter: (total % SCANLINE_CYCLES) as u32, ..self };
            let (p1, m1, frame) = p0.lines(m, (total / SCANLINE_CYCLES) as nat);
            let mode = p1.mode();
            let stat = m1.io[0x41];
            let mode_int = mode != stat & 0x03 && (
                (mode == 0 && stat & 0x08 != 0)
                || (mode == 1 && stat & 0x10 != 0)
                || (mode == 2 && stat & 0x20 != 0)
            );
            let lyc_match = p1.scanline == m1.io[0x45];
            let lyc_int = lyc_match && stat & 0x04 == 0 && stat & 0x40 != 0;
            let m2 = m1.set_stat_model(mode, lyc_match);
            let m3 = if mode_int || lyc_int { m2.request_interrupt_model(0x02) } else { m2 };
            (p1, m3, frame)
        }
    }
}


/// A 2-bit color index is at most 3.
proof fn lemma_color_index(b1: u8, b2: u8, bit: u8)
    ensures
        (((b2 >> bit) & 1) << 1u8) | ((b1 >> bit) & 1) <= 3,
{
    assert((((b2 >> bit) & 1) << 1u8) | ((b1 >> bit) & 1) <= 3) by (bit_vector);
}

/// The shade of a palette entry is at most 3, and masking a color index by 3 keeps it.
proof fn lemma_shade(palette: u8, ci: u8)
    requires
        ci <= 3,
    ensures
        shade(palette, ci) <= 3,
        ci & 3 == ci,
{
    let sh: u8 = (ci * 2) as u8;
    assert((palette >> sh) & 0x03 <= 3) by (bit_vector);
    assert(ci <= 3 ==> ci & 3 == ci) by (bit_vector);
}

/// A tile pixel is a 2-bit color index.
proof fn lemma_tile_pixel(m: BusModel, tile_addr: int, line: int, col: int)
    ensures
        tile_pixel(m, tile_addr, line, col) <= 3,
{
    let b1 = m.read8((tile_addr + line * 2) as u16);
    let b2 = m.read8((tile_addr + line * 2 + 1) as u16);
    lemma_color_index(b1, b2, (7 - col) as u8);
}

/// A background pixel is a 2-bit color index.
proof fn lemma_bg_color_index(m: BusModel, y: int, x: int)
    ensures
        bg_color_index(m, y, x) <= 3,
{
    let lcdc = m.read8(0xFF40);
    let scy = m.read8(0xFF42) as int;
    let scx = m.read8(0xFF43) as int;
    let wy = m.read8(0xFF4A) as int;
    let wx = m.read8(0xFF4B) as int;
    let in_window = lcdc & 0x20 != 0 && wy < 144 && y >= wy && x >= wx - 7;
    let map_base: int = if in_window {
        if lcdc & 0x40 != 0 { 0x9C00 } else { 0x9800 }
    } else {
        if lcdc & 0x08 != 0 { 0x9C00 } else { 0x9800 }
    };
    let py = if in_window { y - wy } else { (y + scy) % 256 };
    let px = if in_window { x - (wx - 7) } else { (x + scx) % 256 };
    let idx = m.read8((map_base + (py / 8) * 32 + px / 8) as u16);
    lemma_tile_pixel(m, bg_tile_addr(lcdc, idx), py % 8, px % 8);
}

/// The Game Boy picture processing unit.
#[derive(Debug)]
pub struct Ppu {
    /// One shade per pixel, row by row: 0 white, 1 light gray, 2 dark gray, 3 black.
    pub framebuffer: Vec<u8>,
    /// The background color index under each pixel, for sprite priority.
    pub bg_pixel_info: Vec<u8>,
    cycle_counter: u32,
    scanline: u8,
    frame_counter: u32,
}

impl View for Ppu {
    type V = PpuModel;

    closed spec fn view(&self) -> PpuModel {
        PpuModel {
            framebuffer: self.framebuffer@,
            bg_pixel_info: self.bg_pixel_info@,
            cycle_counter: self.cycle_counter,
            scanline: self.scanline,
            frame_counter: self.frame_counter,
        }
    }
}

/// Reads the 2-bit color at column `col` of row `line` of the tile at `tile_addr`.
fn read_tile_pixel(bus: &Bus, tile_addr: u16, line: u16, col: u16) -> (ci: u8)
    requires
        bus.wf(),
        col < 8,
        line < 16,
        tile_addr + line * 2 + 1 <= 0xFFFF,
    ensures
        ci == tile_pixel(bus@, tile_addr as int, line as int, col as int),
        ci <= 3,
{
    let b1 = bus.read8(tile_addr + line * 2);
    let b2 = bus.read8(tile_addr + line * 2 + 1);
    let bit = (7 - col) as u8;
    proof { lemma_color_index(b1, b2, bit); }
    (((b2 >> bit) & 1) << 1u8) | ((b1 >> bit) & 1)
}

/// The shade that palette register `palette` gives color index `ci`.
fn palette_shade(palette: u8, ci: u8) -> (s: u8)
    requires
        ci <= 3,
    ensures
        s == shade(palette, ci),
        s <= 3,
{
    proof { lemma_shade(palette, ci); }
    (palette >> (ci * 2)) & 0x03
}

/// The background or window color index at pixel (`x`, `y`).
fn read_bg_color_index(bus: &Bus, y: usize, x: usize) -> (ci: u8)
    requires
        bus.wf(),
        y < SCREEN_HEIGHT,
        x < SCREEN_WIDTH,
    ensures
        ci == bg_color_index(bus@, y as int, x as int),
        ci <= 3,
{
    let lcdc = bus.read8(0xFF40);
    let scy = bus.read8(0xFF42) as usize;
    let scx = bus.read8(0xFF43) as usize;
    let wy = bus.read8(0xFF4A) as usize;
    let wx = bus.read8(0xFF4B) as usize;
    let in_window = lcdc & 0x20 != 0 && wy < 144 && y >= wy && x + 7 >= wx;
    let map_base: usize = if in_window {
        if lcdc & 0x40 != 0 { 0x9C00 } else { 0x9800 }
    } else {
        if lcdc & 0x08 != 0 { 0x9C00 } else { 0x9800 }
    };
    let py: usize = if in_window { y - wy } else { (y + scy) % 256 };
    let px: usize = if in_window { x + 7 - wx } else { (x + scx) % 256 };
    let idx = bus.read8((map_base + (py / 8) * 32 + px / 8) as u16);
    let tile_addr: u16 = if lcdc & 0x10 == 0 {
        if idx >= 128 { 0x9000 - (256 - idx as u16) * 16 } else { 0x9000 + idx as u16 * 16 }
    } else {
        0x8000 + idx as u16 * 16
    };
    assert(tile_addr as int == bg_tile_addr(lcdc, idx));
    read_tile_pixel(bus, tile_addr, (py % 8) as u16, (px % 8) as u16)
}

impl Ppu {
    pub open spec fn wf(&self) -> bool {
        self@.wf()
    }

    pub open spec fn spec_new() -> PpuModel {
        PpuModel {
            framebuffer: Seq::new((SCREEN_WIDTH * SCREEN_HEIGHT) as nat, |i: int| 0u8),
            bg_pixel_info: Seq::new((SCREEN_WIDTH * SCREEN_HEIGHT) as nat, |i: int| 0u8),
            cycle_counter: 0,
            scanline: 0,
            frame_counter: 0,
        }
    }

    /// A PPU at the start of a frame with a white screen.
    pub fn new() -> (p: Self)
        ensures
            p@ == Self::spec_new(),
            p.wf(),
    {
        let p = Ppu {
            framebuffer: vec![0u8; SCREEN_WIDTH * SCREEN_HEIGHT],
            bg_pixel_info: vec![0u8; SCREEN_WIDTH * SCREEN_HEIGHT],
            cycle_counter: 0,
            scanline: 0,
            frame_counter: 0,
        };
        assert(p@.framebuffer =~= Self::spec_new().framebuffer);
        assert(p@.bg_pixel_info =~= Self::spec_new().bg_pixel_info);
        p
    }

    /// The framebuffer: one shade per pixel, row by row.
    pub fn framebuffer(&self) -> (f: &[u8])
        ensures
            f@ == self@.framebuffer,
    {
        self.framebuffer.as_slice()
    }

    /// Draws sprite `i` over scanline `y`.
    fn draw_sprite(&mut self, bus: &Bus, y: usize, i: u16)
        requires
            bus.wf(),
            old(self).wf(),
            y < SCREEN_HEIGHT,
            i < 40,
            forall|x: int| 0 <= x < 160 ==> pixel(old(self)@.bg_pixel_info, y as int, x) == bg_color_index(bus@, y as int, x),
        ensures
            final(self).wf(),
            final(self)@.bg_pixel_info == old(self)@.bg_pixel_info,
            final(self)@.cycle_counter == old(self)@.cycle_counter,
            final(self)@.scanline == old(self)@.scanline,
            final(self)@.frame_counter == old(self)@.frame_counter,
            forall|j: int| 0 <= j < 23040 && !(y * 160 <= j < y * 160 + 160) ==> final(self)@.framebuffer[j] == old(self)@.framebuffer[j],
            forall|x: int| 0 <= x < 160 ==> pixel(final(self)@.framebuffer, y as int, x) == (if sprite_draws(bus@, y as int, x, i as int) {
                sprite_shade(bus@, y as int, x, i as int)
            } else {
                pixel(old(self)@.framebuffer, y as int, x)
            }),
    {
        let ghost m = bus@;
        let lcdc = bus.read8(0xFF40);
        let height: i32 = if lcdc & 0x04 != 0 { 16 } else { 8 };
        let base: u16 = 0xFE00 + i * 4;
        let sy = bus.read8(base) as i32 - 16;
        let yi = y as i32;
        if yi < sy || yi >= sy + height {
            return;
        }
        let sx = bus.read8(base + 1) as i32 - 8;
        let tile = bus.read8(base + 2);
        let attr = bus.read8(base + 3);
        let priority = attr & 0x80 != 0;
        let y_flip = attr & 0x40 != 0;
        let x_flip = attr & 0x20 != 0;
        let palette = if attr & 0x10 != 0 { bus.read8(0xFF49) } else { bus.read8(0xFF48) };
        let row = yi - sy;
        let tile_y = if y_flip { height - 1 - row } else { row };
        let tile_index = if height == 16 { tile & 0xFE } else { tile };
        let tile_addr: u16 = 0x8000 + tile_index as u16 * 16;
        let ghost pre = self@;
        let mut c: i32 = 0;
        while c < 8
            invariant
                0 <= c <= 8,
                bus.wf(),
                bus@ == m,
                self.wf(),
                y < SCREEN_HEIGHT,
                i < 40,
                base == 0xFE00 + i * 4,
                lcdc == m.read8(0xFF40),
                height == (if lcdc & 0x04 != 0 { 16int } else { 8int }),
                sy == m.read8(base) - 16,
                sx == m.read8((base + 1) as u16) - 8,
                tile == m.read8((base + 2) as u16),
                attr == m.read8((base + 3) as u16),
                priority == (attr & 0x80 != 0),
                x_flip == (attr & 0x20 != 0),
                palette == (if attr & 0x10 != 0 { m.read8(0xFF49) } else { m.read8(0xFF48) }),
                sy <= y < sy + height,
                0 <= tile_y < height,
                tile_y == (if attr & 0x40 != 0 { height - 1 - (y - sy) } else { y - sy }),
                tile_index == (if height == 16 { tile & 0xFE } else { tile }),
                tile_addr == 0x8000 + tile_index * 16,
                self@.bg_pixel_info == pre.bg_pixel_info,
                self@.cycle_counter == pre.cycle_counter,
                self@.scanline == pre.scanline,
                self@.frame_counter == pre.frame_counter,
                forall|x: int| 0 <= x < 160 ==> pixel(pre.bg_pixel_info, y as int, x) == bg_color_index(m, y as int, x),
                forall|j: int| 0 <= j < 23040 && !(y * 160 <= j < y * 160 + 160) ==> self@.framebuffer[j] == pre.framebuffer[j],
                forall|x: int| 0 <= x < 160 ==> #[trigger] pixel(self@.framebuffer, y as int, x) == (if sx <= x < sx + c && sprite_draws(m, y as int, x, i as int) {
                    sprite_shade(m, y as int, x, i as int)
                } else {
                    pixel(pre.framebuffer, y as int, x)
                }),
            decreases 8 - c,
        {
            let screen_x = sx + c;
            let ghost before = self@;
            if screen_x >= 0 && screen_x < 160 {
                let tile_col = if x_flip { 7 - c } else { c };
                proof { lemma_and_le_u8(tile, 0xFE); }
                let ci = read_tile_pixel(bus, tile_addr, tile_y as u16, tile_col as u16);
                assert(ci == sprite_color(m, y as int, screen_x as int, i as int));
                if ci != 0 {
                    let idx = y * 160 + screen_x as usize;
                    proof {
                        lemma_bg_color_index(m, y as int, screen_x as int);
                        lemma_shade(0, self.bg_pixel_info[idx as int]);
                    }
                    let bg_ci = self.bg_pixel_info[idx] & 3;
                    let behind = priority && bg_ci != 0;
                    assert(bg_ci == bg_color_index(m, y as int, screen_x as int));
                    if !behind {
                        let sh = palette_shade(palette, ci);
                        assert(sprite_draws(m, y as int, screen_x as int, i as int));
                        assert(sh == sprite_shade(m, y as int, screen_x as int, i as int));
                        self.framebuffer[idx] = sh;
                    } else {
                        assert(!sprite_draws(m, y as int, screen_x as int, i as int));
                    }
                } else {
                    assert(!sprite_draws(m, y as int, screen_x as int, i as int));
                }
            }
            proof {
                assert forall|x: int| 0 <= x < 160 implies #[trigger] pixel(self@.framebuffer, y as int, x) == (if sx <= x < sx + c + 1
                    && sprite_draws(m, y as int, x, i as int) {
                    sprite_shade(m, y as int, x, i as int)
                } else {
                    pixel(pre.framebuffer, y as int, x)
                }) by {
                    assert(pixel(before.framebuffer, y as int, x) == (if sx <= x < sx + c && sprite_draws(m, y as int, x, i as int) {
                        sprite_shade(m, y as int, x, i as int)
                    } else {
                        pixel(pre.framebuffer, y as int, x)
                    }));
                    if x == screen_x {
                        assert(sprite_color(m, y as int, x, i as int) == tile_pixel(m, tile_addr as int, tile_y as int,
                            (if x_flip { 7 - c as int } else { c as int })));
                    } else {
                        assert(pixel(self@.framebuffer, y as int, x) == pixel(before.framebuffer, y as int, x));
                    }
                }
            }
            c = c + 1;
        }
    }

    /// Renders scanline `y`: background and window, then the sprites, with lower-numbered
    /// sprites drawn over higher-numbered ones.
    fn render_scanline(&mut self, bus: &Bus, y: usize)
        requires
            bus.wf(),
            old(self).wf(),
            y < SCREEN_HEIGHT,
        ensures
            final(self)@ == old(self)@.render_line(bus@, y as int),
            final(self).wf(),
    {
        let ghost m = bus@;
        let ghost pre = self@;
        let lcdc = bus.read8(0xFF40);
        let row: usize = y * SCREEN_WIDTH;
        if lcdc & 0x01 == 0 {
            let mut x: usize = 0;
            while x < SCREEN_WIDTH
                invariant
                    x <= SCREEN_WIDTH,
                    y < SCREEN_HEIGHT,
                    row == y * 160,
                    self.wf(),
                    m.read8(0xFF40) & 0x01 == 0,
                    self@.cycle_counter == pre.cycle_counter,
                    self@.scanline == pre.scanline,
                    self@.frame_counter == pre.frame_counter,
                    forall|j: int| 0 <= j < 23040 && !(row <= j < row + x) ==> #[trigger] self@.framebuffer[j] == pre.framebuffer[j],
                    forall|j: int| 0 <= j < 23040 && !(row <= j < row + x) ==> #[trigger] self@.bg_pixel_info[j] == pre.bg_pixel_info[j],
                    forall|j: int| row <= j < row + x ==> #[trigger] self@.framebuffer[j] == 0,
                    forall|j: int| row <= j < row + x ==> #[trigger] self@.bg_pixel_info[j] == 0,
                decreases SCREEN_WIDTH - x,
            {
                self.framebuffer[row + x] = 0;
                self.bg_pixel_info[row + x] = 0;
                x = x + 1;
            }
            proof {
                let target = pre.render_line(m, y as int);
                assert(self@.framebuffer =~= target.framebuffer);
                assert(self@.bg_pixel_info =~= target.bg_pixel_info);
            }
            return;
        }
        let palette = bus.read8(0xFF47);
        let mut x: usize = 0;
        while x < SCREEN_WIDTH
            invariant
                x <= SCREEN_WIDTH,
                y < SCREEN_HEIGHT,
                row == y * 160,
                bus.wf(),
                bus@ == m,
                self.wf(),
                lcdc == m.read8(0xFF40),
                palette == m.read8(0xFF47),
                self@.cycle_counter == pre.cycle_counter,
                self@.scanline == pre.scanline,
                self@.frame_counter == pre.frame_counter,
                forall|j: int| 0 <= j < 23040 && !(row <= j < row + x) ==> #[trigger] self@.framebuffer[j] == pre.framebuffer[j],
                forall|j: int| 0 <= j < 23040 && !(row <= j < row + x) ==> #[trigger] self@.bg_pixel_info[j] == pre.bg_pixel_info[j],
                forall|j: int| row <= j < row + x ==> #[trigger] self@.bg_pixel_info[j] == bg_color_index(m, y as int, j - row),
                forall|j: int| row <= j < row + x ==> #[trigger] self@.framebuffer[j] == shade(palette, bg_color_index(m, y as int, j - row)),
            decreases SCREEN_WIDTH - x,
        {
            let ci = read_bg_color_index(bus, y, x);
            self.bg_pixel_info[row + x] = ci;
            self.framebuffer[row + x] = palette_shade(palette, ci);
            x = x + 1;
        }
        let ghost bg_done = self@;
        self.render_sprites_for_scanline(bus, lcdc, y);
        proof {
            let target = pre.render_line(m, y as int);
            assert forall|j: int| row <= j < row + 160 implies #[trigger] self@.framebuffer[j] == target.framebuffer[j] by {
                assert(pixel(self@.framebuffer, y as int, j - row) == self@.framebuffer[j]);
                assert(pixel(bg_done.framebuffer, y as int, j - row) == bg_done.framebuffer[j]);
            }
            assert(self@.framebuffer =~= target.framebuffer);
            assert(self@.bg_pixel_info =~= target.bg_pixel_info);
        }
    }

    /// Draws the sprites over scanline `y` when LCDC enables them, sprite 39 first so
    /// that lower-numbered sprites end on top.
    fn render_sprites_for_scanline(&mut self, bus: &Bus, lcdc: u8, y: usize)
        requires
            bus.wf(),
            old(self).wf(),
            y < SCREEN_HEIGHT,
            lcdc == bus@.read8(0xFF40),
            forall|x: int| 0 <= x < 160 ==> #[trigger] pixel(old(self)@.bg_pixel_info, y as int, x) == bg_color_index(bus@, y as int, x),
        ensures
            final(self).wf(),
            final(self)@.bg_pixel_info == old(self)@.bg_pixel_info,
            final(self)@.cycle_counter == old(self)@.cycle_counter,
            final(self)@.scanline == old(self)@.scanline,
            final(self)@.frame_counter == old(self)@.frame_counter,
            forall|j: int| 0 <= j < 23040 && !(y * 160 <= j < y * 160 + 160) ==> #[trigger] final(self)@.framebuffer[j] == old(self)@.framebuffer[j],
            forall|x: int| 0 <= x < 160 ==> #[trigger] pixel(final(self)@.framebuffer, y as int, x) == (if lcdc & 0x02 == 0 {
                pixel(old(self)@.framebuffer, y as int, x)
            } else {
                match top_sprite(bus@, y as int, x, 0) {
                    Some(s) => s,
                    None => pixel(old(self)@.framebuffer, y as int, x),
                }
            }),
    {
        if lcdc & 0x02 == 0 {
            return;
        }
        let ghost m = bus@;
        let ghost start = self@;
        let mut i: u16 = 40;
        while i > 0
            invariant
                i <= 40,
                y < SCREEN_HEIGHT,
                bus.wf(),
                bus@ == m,
                self.wf(),
                self@.bg_pixel_info == start.bg_pixel_info,
                self@.cycle_counter == start.cycle_counter,
                self@.scanline == start.scanline,
                self@.frame_counter == start.frame_counter,
                forall|j: int| 0 <= j < 23040 && !(y * 160 <= j < y * 160 + 160) ==> #[trigger] self@.framebuffer[j] == start.framebuffer[j],
                forall|x: int| 0 <= x < 160 ==> #[trigger] pixel(start.bg_pixel_info, y as int, x) == bg_color_index(m, y as int, x),
                forall|x: int| 0 <= x < 160 ==> #[trigger] pixel(self@.framebuffer, y as int, x) == (match top_sprite(m, y as int, x, i as int) {
                    Some(s) => s,
                    None => pixel(start.framebuffer, y as int, x),
                }),
            decreases i,
        {
            let ghost before = self@;
            i = i - 1;
            self.draw_sprite(bus, y, i);
            proof {
                assert forall|x: int| 0 <= x < 160 implies #[trigger] pixel(self@.framebuffer, y as int, x) == (match top_sprite(m, y as int, x, i as int) {
                    Some(s) => s,
                    None => pixel(start.framebuffer, y as int, x),
                }) by {
                    assert(pixel(before.framebuffer, y as int, x) == (match top_sprite(m, y as int, x, i + 1) {
                        Some(s) => s,
                        None => pixel(start.framebuffer, y as int, x),
                    }));
                }
            }
        }
    }

    /// Completes one scanline: renders it if visible, advances to the next line, requests
    /// VBlank on line 144, wraps after line 153 and publishes LY. Returns whether a frame
    /// completed.
    fn finish_line(&mut self, bus: &mut Bus) -> (frame: bool)
        requires
            old(bus).wf(),
            old(self).wf(),
        ensures
            (final(self)@, final(bus)@, frame) == old(self)@.line_step(old(bus)@),
            final(self).wf(),
            final(bus).wf(),
    {
        if self.scanline < 144 {
            self.render_scanline(bus, self.scanline as usize);
        }
        let next = self.scanline + 1;
        if next == 144 {
            bus.request_interrupt(0x01);
        }
        let mut frame = false;
        if next >= TOTAL_SCANLINES {
            self.scanline = 0;
            self.frame_counter = self.frame_counter.wrapping_add(1);
            frame = true;
        } else {
            self.scanline = next;
        }
        bus.set_ly(self.scanline);
        frame
    }

    /// Advances the PPU by `cycles` CPU cycles: completes the scanlines they cover, then
    /// sets the LCD mode and the LY=LYC flag in STAT and requests the STAT interrupt on
    /// an enabled mode change or a new LY=LYC match. With the LCD off, resets to line 0
    /// in mode 0. Returns whether a frame completed.
    pub fn step(&mut self, cycles: u32, bus: &mut Bus) -> (frame: bool)
        requires
            old(bus).wf(),
            old(self).wf(),
        ensures
            (final(self)@, final(bus)@, frame) == old(self)@.step(cycles, old(bus)@),
            final(self).wf(),
            final(bus).wf(),
    {
        let lcdc = bus.lcdc();
        if lcdc & 0x80 == 0 {
            self.cycle_counter = 0;
            self.scanline = 0;
            bus.set_ly(0);
            bus.set_stat_ppu_bits(0, false);
            return false;
        }
        let total = self.cycle_counter.wrapping_add(cycles);
        self.cycle_counter = total % SCANLINE_CYCLES;
        let n = total / SCANLINE_CYCLES;
        let ghost p0 = self@;
        let ghost m0 = bus@;
        let mut frame = false;
        let mut k: u32 = 0;
        while k < n
            invariant
                k <= n,
                self.wf(),
                bus.wf(),
                (self@, bus@, frame) == p0.lines(m0, k as nat),
            decreases n - k,
        {
            let f = self.finish_line(bus);
            frame = frame || f;
            k = k + 1;
        }
        let mode: u8 = if self.scanline >= 144 {
            1
        } else if self.cycle_counter < 80 {
            2
        } else if self.cycle_counter < 252 {
            3
        } else {
            0
        };
        let stat = bus.stat();
        let mut request_stat_int = false;
        if mode != stat & 0x03 {
            if (mode == 0 && stat & 0x08 != 0) || (mode == 1 && stat & 0x10 != 0) || (mode == 2 && stat & 0x20 != 0) {
                request_stat_int = true;
            }
        }
        let lyc_match = self.scanline == bus.lyc();
        if lyc_match && stat & 0x04 == 0 && stat & 0x40 != 0 {
            request_stat_int = true;
        }
        bus.set_stat_ppu_bits(mode, lyc_match);
        if request_stat_int {
            bus.request_interrupt(0x02);
        }
        frame
    }
}


impl Default for Ppu {
    /// A PPU at the start of a frame with a white screen.
    fn default() -> (p: Self)
        ensures
            p@ == Ppu::spec_new(),
            p.wf(),
    {
        Ppu::new()
    }
}


/// With the LCD off, a PPU step completes no frame and leaves line 0, LY 0 and mode 0.
pub proof fn lemma_lcd_off(p: PpuModel, cycles: u32, m: BusModel)
    requires
        m.wf(),
        m.read8(0xFF40) & 0x80 == 0,
    ensures
        !p.step(cycles, m).2,
        p.step(cycles, m).0.scanline == 0,
        p.step(cycles, m).1.read8(0xFF44) == 0,
        p.step(cycles, m).1.read8(0xFF41) & 0x03 == 0,
{
    let stat = m.io[0x41];
    assert(((stat & 0xF8) | (0u8 & 0x03) | 0x00u8) & 0x03 == 0) by (bit_vector);
}

/// A completed scanline moves to the next line; leaving line 143 requests the VBlank
/// interrupt, and leaving line 153 wraps to line 0 and completes a frame.
pub proof fn lemma_line_step(p: PpuModel, m: BusModel)
    requires
        p.wf(),
        m.wf(),
    ensures
        p.line_step(m).0.scanline == (if p.scanline == 153 { 0 } else { p.scanline + 1 }),
        p.line_step(m).2 == (p.scanline == 153),
        p.line_step(m).1.io[0x44] == p.line_step(m).0.scanline,
        p.scanline == 143 ==> p.line_step(m).1.io[0x0F] == m.io[0x0F] | 0x01,
        p.line_step(m).0.wf(),
{
    if p.scanline < 144 {
        let y = p.scanline as int;
        let q = p.render_line(m, y);
        assert(q.framebuffer.len() == p.framebuffer.len());
        assert(q.bg_pixel_info.len() == p.bg_pixel_info.len());
        assert forall|j: int| 0 <= j < q.framebuffer.len() implies #[trigger] q.framebuffer[j] <= 3 by {
            if y * 160 <= j < y * 160 + 160 {
                lemma_rendered_shade(m, y, j - y * 160);
            }
        }
    }
}

/// Every rendered pixel is one of the four shades.
proof fn lemma_rendered_shade(m: BusModel, y: int, x: int)
    ensures
        rendered_shade(m, y, x) <= 3,
{
    lemma_and_le_u8(m.read8(0xFF47) >> ((bg_color_index(m, y, x) * 2) as u8), 0x03);
    lemma_top_sprite_shade(m, y, x, 0);
}

/// The sprite on top, if any, shows one of the four shades.
proof fn lemma_top_sprite_shade(m: BusModel, y: int, x: int, i: int)
    ensures
        top_sprite(m, y, x, i) matches Some(s) ==> s <= 3,
    decreases 40 - i,
{
    if 0 <= i < 40 {
        let attr = m.read8((0xFE00 + i * 4 + 3) as u16);
        let palette = if attr & 0x10 != 0 { m.read8(0xFF49) } else { m.read8(0xFF48) };
        lemma_and_le_u8(palette >> ((sprite_color(m, y, x, i) * 2) as u8), 0x03);
        lemma_top_sprite_shade(m, y, x, i + 1);
    }
}

/// Completed scanlines move the scanline round the 154 lines of a frame, keep the
/// cycle counter, publish LY once a line completes, and report a frame exactly when the
/// count passes line 153.
proof fn lemma_lines_position(p: PpuModel, m: BusModel, n: nat)
    requires
        p.scanline < TOTAL_SCANLINES,
        m.io.len() == 0x80,
    ensures
        ({
            let (p1, m1, f) = p.lines(m, n);
            &&& p1.scanline == (p.scanline + n) % 154
            &&& p1.cycle_counter == p.cycle_counter
            &&& f == (p.scanline + n >= 154)
            &&& m1.io.len() == 0x80
            &&& (n > 0 ==> m1.io[0x44] == p1.scanline)
            &&& (n == 0 ==> m1 == m)
        }),
    decreases n,
{
    if n > 0 {
        lemma_lines_position(p, m, (n - 1) as nat);
    }
}

/// The PPU's position in a frame, in cycles: the scanline times 456 plus the cycles into it.
pub open spec fn frame_position(p: PpuModel) -> int {
    p.scanline * 456 + p.cycle_counter
}

/// With the LCD on, a step of `cycles` moves the PPU that far round the 70224 cycles of
/// a frame (154 lines of 456), reports a frame exactly when it passes the end of the
/// frame, leaves LY showing the scanline and STAT showing the mode of the new position
/// (1 in lines 144-153, else 2, 3 and 0 by the cycles into the line). The cycle count is
/// bounded so that the counter does not wrap.
pub proof fn lemma_step_timing(p: PpuModel, cycles: u32, m: BusModel)
    requires
        p.wf(),
        m.wf(),
        m.read8(0xFF40) & 0x80 != 0,
        p.cycle_counter < SCANLINE_CYCLES,
        cycles <= u32::MAX - SCANLINE_CYCLES,
        m.io[0x44] == p.scanline,
    ensures
        ({
            let (p1, m1, f) = p.step(cycles, m);
            let t = frame_position(p) + cycles;
            &&& frame_position(p1) == t % 70224
            &&& f == (t >= 70224)
            &&& p1.cycle_counter < SCANLINE_CYCLES
            &&& m1.read8(0xFF44) == p1.scanline
            &&& m1.read8(0xFF41) & 0x03 == p1.mode()
            &&& p1.mode() == (if p1.scanline >= 144 { 1u8 } else if p1.cycle_counter < 80 { 2u8 } else if p1.cycle_counter
                < 252 { 3u8 } else { 0u8 })
        }),
{
    let total = p.cycle_counter.wrapping_add(cycles);
    assert(total == p.cycle_counter + cycles);
    let n = (total / SCANLINE_CYCLES) as nat;
    let p0 = PpuModel { cycle_counter: (total % SCANLINE_CYCLES) as u32, ..p };
    lemma_lines_position(p0, m, n);
    let (p1, m1, f) = p0.lines(m, n);
    let s = p.scanline as int;
    let cc = (total % 456) as int;
    assert(total == 456 * n + cc);
    let k = s + n;
    assert(frame_position(p) + cycles == 456 * k + cc);
    assert((456 * k + cc) % 70224 == (k % 154) * 456 + cc) by (nonlinear_arith)
        requires
            k >= 0,
            0 <= cc < 456,
    {
        vstd::arithmetic::div_mod::lemma_fundamental_div_mod(k, 154);
        vstd::arithmetic::div_mod::lemma_fundamental_div_mod_converse(
            456 * k + cc,
            70224,
            k / 154,
            (k % 154) * 456 + cc,
        );
    }
    let mode = p1.mode();
    let stat = m1.io[0x41];
    let lyc_match = p1.scanline == m1.io[0x45];
    assert(((stat & 0xF8) | (mode & 0x03) | (if lyc_match { 0x04u8 } else { 0x00u8 })) & 0x03 == mode) by (bit_vector)
        requires
            mode <= 3,
    ;
}

/// Sprite `i` is the one on top at (`x`, `y`) when it draws there and no lower-numbered
/// sprite does.
proof fn lemma_top_sprite_first(m: BusModel, y: int, x: int, i: int, j: int)
    requires
        0 <= j <= i < 40,
        sprite_draws(m, y, x, i),
        forall|k: int| 0 <= k < i ==> !#[trigger] sprite_draws(m, y, x, k),
    ensures
        top_sprite(m, y, x, j) == Some(sprite_shade(m, y, x, i)),
    decreases i - j,
{
    if j < i {
        lemma_top_sprite_first(m, y, x, i, j + 1);
    }
}

/// Sprite palettes: where sprite `i` is the lowest-numbered sprite drawing at (`x`, `y`),
/// with the LCD's background and sprites enabled, the rendered pixel shows its color `c`
/// through OBP1 (0xFF49) when bit 4 of its attributes is set and through OBP0 (0xFF48)
/// when it is clear: bits `2c` and `2c + 1` of that palette register.
pub proof fn lemma_sprite_palette(p: PpuModel, m: BusModel, y: int, x: int, i: int)
    requires
        p.wf(),
        0 <= y < 144,
        0 <= x < 160,
        0 <= i < 40,
        m.read8(0xFF40) & 0x01 != 0,
        m.read8(0xFF40) & 0x02 != 0,
        sprite_draws(m, y, x, i),
        forall|k: int| 0 <= k < i ==> !#[trigger] sprite_draws(m, y, x, k),
    ensures
        ({
            let attr = m.read8((0xFE00 + i * 4 + 3) as u16);
            let palette = if attr & 0x10 != 0 { m.read8(0xFF49) } else { m.read8(0xFF48) };
            let c = sprite_color(m, y, x, i);
            &&& rendered_shade(m, y, x) == (palette >> ((2 * c) as u8)) & 0x03
            &&& pixel(p.render_line(m, y).framebuffer, y, x) == (palette >> ((2 * c) as u8)) & 0x03
        }),
{
    lemma_top_sprite_first(m, y, x, i, 0);
    let q = p.render_line(m, y);
    assert(y * 160 + x < 160 * 144);
    assert(q.framebuffer[y * 160 + x] == rendered_shade(m, y, (y * 160 + x) - y * 160));
}

} // verus!
