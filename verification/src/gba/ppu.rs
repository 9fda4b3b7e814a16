//! The Game Boy Advance picture processing unit: scanline timing, DISPSTAT/VCOUNT and
//! the display interrupts, and rendering of the tiled modes 0-2, the bitmap modes 3-5
//! and sprites.
use vstd::prelude::*;
use crate::gba::dma::DmaTrigger;
use crate::gba::timer::raise_if;

verus! {

pub const SCREEN_WIDTH: usize = 240;
pub const SCREEN_HEIGHT: usize = 160;
/// Cycles per scanline.
pub const LINE_CYCLES: u32 = 1232;
/// The cycle within a scanline where HBlank starts.
pub const HBLANK_START: u32 = 960;
/// Scanlines per frame, VBlank included.
pub const TOTAL_LINES: u16 = 228;
/// Bytes of video RAM.
pub const VRAM_SIZE: usize = 0x18000;

/// The little-endian halfword at `i` of `mem`.
pub open spec fn half(mem: Seq<u8>, i: int) -> u16 {
    (mem[i] as u16) | ((mem[i + 1] as u16) << 8u16)
}

/// A 15-bit BGR color as 24-bit RGB, each 5-bit channel widened to 8 bits.
pub open spec fn bgr_to_rgb(color: u16) -> u32 {
    let r = ((color & 0x1F) as u32) << 3u32;
    let g = (((color >> 5u16) & 0x1F) as u32) << 3u32;
    let b = (((color >> 10u16) & 0x1F) as u32) << 3u32;
    let r2 = r | (r >> 5u32);
    let g2 = g | (g >> 5u32);
    let b2 = b | (b >> 5u32);
    (r2 << 16u32) | (g2 << 8u32) | b2
}

/// The color of palette entry `offset` (a byte offset), where the entry exists.
pub open spec fn palette_color(pal: Seq<u8>, offset: int) -> Option<u32> {
    if offset + 1 < pal.len() { Some(bgr_to_rgb(half(pal, offset))) } else { None }
}

/// The color that background `bg` puts at (`x`, `y`), or `None` where it is transparent.
pub open spec fn bg_pixel(bg: int, io: Seq<u8>, pal: Seq<u8>, vram: Seq<u8>, y: int, x: int) -> Option<u32> {
    let bgcnt = half(io, 0x08 + bg * 2);
    let char_base = (((bgcnt >> 2u16) & 3) as int) * 16384;
    let screen_base = (((bgcnt >> 8u16) & 0x1F) as int) * 2048;
    let screen_size = (bgcnt >> 14u16) & 3;
    let color_256 = bgcnt & 0x80 != 0;
    let bg_width: int = if screen_size == 1 || screen_size == 3 { 512 } else { 256 };
    let bg_height: int = if screen_size == 2 || screen_size == 3 { 512 } else { 256 };
    let hofs = (half(io, 0x10 + bg * 4) & 0x1FF) as int;
    let vofs = (half(io, 0x12 + bg * 4) & 0x1FF) as int;
    let bg_x = if bg_width == 512 { (x + hofs) % 512 } else { (x + hofs) % 256 };
    let bg_y = if bg_height == 512 { (y + vofs) % 512 } else { (y + vofs) % 256 };
    let tile_col = bg_x / 8;
    let tile_row = bg_y / 8;
    let wide = (screen_size == 1 || screen_size == 3) && tile_col >= 32;
    let tall = screen_size == 3 && tile_row >= 32;
    let tall2 = screen_size == 2 && tile_row >= 32;
    let map_col = if wide { tile_col - 32 } else { tile_col };
    let map_row = if tall || tall2 { tile_row - 32 } else { tile_row };
    let map_block = screen_base + (if wide { 2048int } else { 0 }) + (if tall { 4096int } else if tall2 { 2048int } else { 0 });
    let map_addr = map_block + (map_row * 32 + map_col) * 2;
    if map_addr + 1 < vram.len() {
        let entry = half(vram, map_addr);
        let tile_idx = (entry & 0x3FF) as int;
        let h_flip = entry & 0x400 != 0;
        let v_flip = entry & 0x800 != 0;
        let bank = ((entry >> 12u16) & 0x0F) as int;
        let px = if h_flip { 7 - bg_x % 8 } else { bg_x % 8 };
        let py = if v_flip { 7 - bg_y % 8 } else { bg_y % 8 };
        let ci: int = if !color_256 {
            let off = char_base + tile_idx * 32 + py * 4 + px / 2;
            if off < vram.len() {
                if px % 2 == 0 { (vram[off] & 0x0F) as int } else { (vram[off] >> 4u8) as int }
            } else {
                0
            }
        } else {
            let off = char_base + tile_idx * 64 + py * 8 + px;
            if off < vram.len() { vram[off] as int } else { 0 }
        };
        if ci != 0 {
            palette_color(pal, if !color_256 { (bank * 16 + ci) * 2 } else { ci * 2 })
        } else {
            None
        }
    } else {
        None
    }
}

/// Whether background `bg` is drawn in the layer pass of priority `prio`.
pub open spec fn bg_in_pass(io: Seq<u8>, bg: int, prio: int) -> bool {
    let dispcnt = half(io, 0);
    &&& dispcnt & (1u16 << (8 + bg) as u16) != 0
    &&& (half(io, 0x08 + bg * 2) & 3) as int == prio
}

/// Pixel (`x`, `y`) after layer passes `j` and up, starting from `color`: backgrounds are
/// drawn from priority 3 down to 0, and within a priority from BG0 to BG3, each
/// covering what was drawn before where it is not transparent.
pub open spec fn layers_from(io: Seq<u8>, pal: Seq<u8>, vram: Seq<u8>, y: int, x: int, j: int, color: u32) -> u32
    decreases 16 - j,
{
    if j >= 16 || j < 0 {
        color
    } else {
        let bg = j % 4;
        let prio = 3 - j / 4;
        let c2 = if bg_in_pass(io, bg, prio) {
            match bg_pixel(bg, io, pal, vram, y, x) {
                Some(c) => c,
                None => color,
            }
        } else {
            color
        };
        layers_from(io, pal, vram, y, x, j + 1, c2)
    }
}

/// The size in pixels of a sprite of shape `shape` and size `size`.
pub open spec fn sprite_dims(shape: u16, size: u16) -> (int, int) {
    if shape == 0 {
        if size == 0 { (8, 8) } else if size == 1 { (16, 16) } else if size == 2 { (32, 32) } else { (64, 64) }
    } else if shape == 1 {
        if size == 0 { (16, 8) } else if size == 1 { (32, 8) } else if size == 2 { (32, 16) } else { (64, 32) }
    } else if shape == 2 {
        if size == 0 { (8, 16) } else if size == 1 { (8, 32) } else if size == 2 { (16, 32) } else { (32, 64) }
    } else {
        (8, 8)
    }
}

/// Where pixel (`x`, `y`) falls in the sprite with attributes `attr0` and `attr1`: the
/// column and row within its tiles, after flips, and its width; `None` where the
/// sprite is disabled or does not cover the pixel.
pub open spec fn sprite_place(attr0: u16, attr1: u16, y: int, x: int) -> Option<(int, int, int)> {
    let sy0 = (attr0 & 0xFF) as int;
    let sprite_y = if sy0 >= 160 { sy0 - 256 } else { sy0 };
    let rot_scale = attr0 & 0x100 != 0;
    let disabled = !rot_scale && attr0 & 0x200 != 0;
    let (w, h) = sprite_dims((attr0 >> 14u16) & 3, (attr1 >> 14u16) & 3);
    let y_in = y - sprite_y;
    let sx0 = (attr1 & 0x1FF) as int;
    let sprite_x = if sx0 >= 246 { sx0 - 512 } else { sx0 };
    let sx = x - sprite_x;
    if disabled || y_in < 0 || y_in >= h || sx < 0 || sx >= w {
        None
    } else {
        let h_flip = !rot_scale && attr1 & 0x1000 != 0;
        let v_flip = !rot_scale && attr1 & 0x2000 != 0;
        Some((if h_flip { w - 1 - sx } else { sx }, if v_flip { h - 1 - y_in } else { y_in }, w))
    }
}

/// The color of column `px`, row `py` of a sprite `w` pixels wide with attributes
/// `attr0` and `attr2`, or `None` where it is transparent.
pub open spec fn sprite_color_at(attr0: u16, attr2: u16, dispcnt: u16, pal: Seq<u8>, vram: Seq<u8>, px: int, py: int, w: int) -> Option<u32> {
    let color_256 = attr0 & 0x2000 != 0;
    let tile_idx = (attr2 & 0x3FF) as int;
    let bank = ((attr2 >> 12u16) & 0x0F) as int;
    let tile_x = px / 8;
    let tile_y = py / 8;
    let lpx = px % 8;
    let lpy = py % 8;
    let stride: int = if color_256 { 2 } else { 1 };
    let char_offset = if dispcnt & 0x40 != 0 {
        tile_idx + (tile_y * (w / 8) + tile_x) * stride
    } else {
        tile_idx + tile_y * 32 + tile_x * stride
    };
    let ci: int = if !color_256 {
        let addr = 0x10000 + char_offset * 32 + lpy * 4 + lpx / 2;
        if addr < vram.len() {
            if lpx % 2 == 0 { (vram[addr] & 0x0F) as int } else { (vram[addr] >> 4u8) as int }
        } else {
            0
        }
    } else {
        let addr = 0x10000 + char_offset * 32 + lpy * 8 + lpx;
        if addr < vram.len() { vram[addr] as int } else { 0 }
    };
    if ci != 0 {
        palette_color(pal, if !color_256 { 0x200 + (bank * 16 + ci) * 2 } else { 0x200 + ci * 2 })
    } else {
        None
    }
}

/// The color that sprite `i` puts at (`x`, `y`), or `None` where it does not cover the
/// pixel or is transparent there.
pub open spec fn sprite_pixel(i: int, dispcnt: u16, pal: Seq<u8>, vram: Seq<u8>, oam: Seq<u8>, y: int, x: int) -> Option<u32> {
    let attr0 = half(oam, i * 8);
    let attr1 = half(oam, i * 8 + 2);
    let attr2 = half(oam, i * 8 + 4);
    match sprite_place(attr0, attr1, y, x) {
        None => None,
        Some((px, py, w)) => sprite_color_at(attr0, attr2, dispcnt, pal, vram, px, py, w),
    }
}

/// The color of the lowest-numbered sprite from `i` on that draws at (`x`, `y`): lower
/// numbers are drawn over higher ones.
pub open spec fn top_sprite(dispcnt: u16, pal: Seq<u8>, vram: Seq<u8>, oam: Seq<u8>, y: int, x: int, i: int) -> Option<u32>
    decreases 128 - i,
{
    if i >= 128 || i < 0 {
        None
    } else {
        match sprite_pixel(i, dispcnt, pal, vram, oam, y, x) {
            Some(c) => Some(c),
            None => top_sprite(dispcnt, pal, vram, oam, y, x, i + 1),
        }
    }
}

/// Pixel (`x`, `y`) of a rendered scanline, before sprites, over the backdrop `back`.
pub open spec fn base_pixel(io: Seq<u8>, pal: Seq<u8>, vram: Seq<u8>, y: int, x: int, back: u32) -> u32 {
    let dispcnt = half(io, 0);
    let mode = dispcnt & 7;
    let page_base: int = if dispcnt & 0x10 != 0 { 0xA000 } else { 0 };
    if mode <= 2 {
        layers_from(io, pal, vram, y, x, 0, back)
    } else if mode == 3 {
        let off = (y * 240 + x) * 2;
        if off + 1 < vram.len() { bgr_to_rgb(half(vram, off)) } else { back }
    } else if mode == 4 {
        let off = page_base + y * 240 + x;
        if off < vram.len() {
            match palette_color(pal, vram[off] as int * 2) {
                Some(c) => c,
                None => back,
            }
        } else {
            back
        }
    } else if mode == 5 {
        if 16 <= y < 144 && 40 <= x < 200 {
            let off = page_base + ((y - 16) * 160 + (x - 40)) * 2;
            if off + 1 < vram.len() { bgr_to_rgb(half(vram, off)) } else { back }
        } else {
            back
        }
    } else {
        back
    }
}

/// Pixel (`x`, `y`) of a rendered scanline.
pub open spec fn rendered_pixel(io: Seq<u8>, pal: Seq<u8>, vram: Seq<u8>, oam: Seq<u8>, y: int, x: int) -> u32 {
    let dispcnt = half(io, 0);
    let back = bgr_to_rgb(half(pal, 0));
    let base = base_pixel(io, pal, vram, y, x, back);
    if dispcnt & 0x1000 != 0 {
        match top_sprite(dispcnt, pal, vram, oam, y, x, 0) {
            Some(c) => c,
            None => base,
        }
    } else {
        base
    }
}

/// The PPU as a value.
pub struct GbaPpuModel {
    pub framebuffer: Seq<u32>,
    pub scanline_cycles: u32,
    pub backdrop_color: u32,
    pub hblank_triggered: bool,
}

impl GbaPpuModel {
    pub open spec fn wf(self) -> bool {
        &&& self.framebuffer.len() == SCREEN_WIDTH * SCREEN_HEIGHT
        &&& self.scanline_cycles < LINE_CYCLES
    }

    /// The PPU after rendering scanline `y`.
    pub open spec fn render_line(self, io: Seq<u8>, pal: Seq<u8>, vram: Seq<u8>, oam: Seq<u8>, y: int) -> GbaPpuModel {
        GbaPpuModel {
            framebuffer: Seq::new(
                self.framebuffer.len(),
                |j: int| if y * 240 <= j < y * 240 + 240 { rendered_pixel(io, pal, vram, oam, y, j - y * 240) } else { self.framebuffer[j] },
            ),
            backdrop_color: bgr_to_rgb(half(pal, 0)),
            ..self
        }
    }

    /// `n` completed scanlines from line `vcount`: each moves to the next line (wrapping
    /// after 227), publishes it in VCOUNT, renders it if visible, and notes entering
    /// VBlank at line 160. Gives the PPU, the IO memory, the line, and whether VBlank
    /// was entered.
    pub open spec fn lines(self, io: Seq<u8>, pal: Seq<u8>, vram: Seq<u8>, oam: Seq<u8>, vcount: u16, n: nat) -> (GbaPpuModel, Seq<u8>, u16, bool)
        decreases n,
    {
        if n == 0 {
            (self, io, vcount, false)
        } else {
            let (p, io1, v, vb) = self.lines(io, pal, vram, oam, vcount, (n - 1) as nat);
            let v2 = ((v + 1) % 228) as u16;
            let io2 = io1.update(6, v2 as u8).update(7, 0);
            let p1 = GbaPpuModel { hblank_triggered: false, ..p };
            let p2 = if v2 < 160 { p1.render_line(io2, pal, vram, oam, v2 as int) } else { p1 };
            (p2, io2, v2, vb || v2 == 160)
        }
    }

    /// The PPU, IO memory and DMA trigger after `cycles` cycles: the completed scanlines,
    /// then the HBlank trigger on first reaching cycle 960 of a visible line, then the
    /// DISPSTAT flags and the VBlank, HBlank and VCOUNT-match interrupts when enabled.
    pub open spec fn tick(self, cycles: u32, io: Seq<u8>, pal: Seq<u8>, vram: Seq<u8>, oam: Seq<u8>) -> (GbaPpuModel, Seq<u8>, Option<DmaTrigger>) {
        let total = self.scanline_cycles + cycles;
        let vcount0 = (half(io, 6) & 0xFF) as u16;
        let p0 = GbaPpuModel { scanline_cycles: (total % 1232) as u32, ..self };
        let (p1, io1, vcount, vblank) = p0.lines(io, pal, vram, oam, vcount0, (total / 1232) as nat);
        let hb = !p1.hblank_triggered && p1.scanline_cycles >= 960;
        let p2 = if hb { GbaPpuModel { hblank_triggered: true, ..p1 } } else { p1 };
        let trigger = if vblank {
            Some(DmaTrigger::VBlank)
        } else if hb && vcount < 160 {
            Some(DmaTrigger::HBlank)
        } else {
            None
        };
        let d0 = half(io1, 4);
        let in_vblank = vcount >= 160;
        let d1 = if in_vblank { d0 | 1 } else { d0 & !1u16 };
        let io2 = if in_vblank && d1 & 0x08 != 0 { raise_if(io1, 0) } else { io1 };
        let in_hblank = p2.scanline_cycles >= 960;
        let d2 = if in_hblank { d1 | 2 } else { d1 & !2u16 };
        let io3 = if in_hblank && d2 & 0x10 != 0 { raise_if(io2, 1) } else { io2 };
        let matched = vcount == (d2 >> 8u16) & 0xFF;
        let d3 = if matched { d2 | 4 } else { d2 & !4u16 };
        let io4 = if matched && d3 & 0x20 != 0 { raise_if(io3, 2) } else { io3 };
        let io5 = io4.update(4, d3 as u8).update(5, (d3 >> 8u16) as u8);
        (p2, io5, trigger)
    }
}

/// The Game Boy Advance PPU.
#[derive(Debug, Clone)]
pub struct Ppu {
    /// The screen, 240 by 160 pixels, as 24-bit RGB.
    pub framebuffer: Vec<u32>,
    /// The cycle within the current scanline.
    pub scanline_cycles: u32,
    /// The backdrop color of the last rendered line.
    pub backdrop_color: u32,
    /// Whether HBlank has been signalled on the current scanline.
    pub hblank_triggered: bool,
}

impl View for Ppu {
    type V = GbaPpuModel;

    open spec fn view(&self) -> GbaPpuModel {
        GbaPpuModel {
            framebuffer: self.framebuffer@,
            scanline_cycles: self.scanline_cycles,
            backdrop_color: self.backdrop_color,
            hblank_triggered: self.hblank_triggered,
        }
    }
}


/// The little-endian halfword at `i` of `mem`.
fn read_half(mem: &[u8], i: usize) -> (v: u16)
    requires
        i + 1 < mem@.len(),
    ensures
        v == half(mem@, i as int),
{
    (mem[i] as u16) | ((mem[i + 1] as u16) << 8u16)
}

/// The color of palette entry `offset`, where it exists.
fn read_palette_color(pal: &[u8; 0x400], offset: usize) -> (c: Option<u32>)
    ensures
        c == palette_color(pal@, offset as int),
{
    if offset < 0x3FF {
        Some(Ppu::convert_bgr555_to_xrgb(read_half(pal, offset)))
    } else {
        None
    }
}

/// The color that background `bg` puts at (`x`, `y`).
#[verifier::rlimit(60)]
fn compute_bg_pixel(bg: usize, io: &[u8; 0x400], pal: &[u8; 0x400], vram: &[u8], y: usize, x: usize) -> (c: Option<u32>)
    requires
        bg < 4,
        y < SCREEN_HEIGHT,
        x < SCREEN_WIDTH,
        vram@.len() <= 0x20000,
    ensures
        c == bg_pixel(bg as int, io@, pal@, vram@, y as int, x as int),
{
    let bgcnt = read_half(io, 0x08 + bg * 2);
    let char_base: usize = ((bgcnt >> 2u16) & 3) as usize * 16384;
    let screen_base: usize = ((bgcnt >> 8u16) & 0x1F) as usize * 2048;
    let screen_size = (bgcnt >> 14u16) & 3;
    let color_256 = bgcnt & 0x80 != 0;
    let bg_width: usize = if screen_size == 1 || screen_size == 3 { 512 } else { 256 };
    let bg_height: usize = if screen_size == 2 || screen_size == 3 { 512 } else { 256 };
    let hofs = (read_half(io, 0x10 + bg * 4) & 0x1FF) as usize;
    let vofs = (read_half(io, 0x12 + bg * 4) & 0x1FF) as usize;
    let bg_x = if bg_width == 512 { (x + hofs) % 512 } else { (x + hofs) % 256 };
    let bg_y = if bg_height == 512 { (y + vofs) % 512 } else { (y + vofs) % 256 };
    let tile_col = bg_x / 8;
    let tile_row = bg_y / 8;
    let wide = (screen_size == 1 || screen_size == 3) && tile_col >= 32;
    let tall = screen_size == 3 && tile_row >= 32;
    let tall2 = screen_size == 2 && tile_row >= 32;
    let map_col = if wide { tile_col - 32 } else { tile_col };
    let map_row = if tall || tall2 { tile_row - 32 } else { tile_row };
    let map_block = screen_base + (if wide { 2048usize } else { 0 }) + (if tall { 4096usize } else if tall2 { 2048usize } else { 0 });
    let map_addr = map_block + (map_row * 32 + map_col) * 2;
    if map_addr + 1 < vram.len() {
        let entry = read_half(vram, map_addr);
        let tile_idx = (entry & 0x3FF) as usize;
        let h_flip = entry & 0x400 != 0;
        let v_flip = entry & 0x800 != 0;
        let bank = ((entry >> 12u16) & 0x0F) as usize;
        let px = if h_flip { 7 - bg_x % 8 } else { bg_x % 8 };
        let py = if v_flip { 7 - bg_y % 8 } else { bg_y % 8 };
        let ci: usize = if !color_256 {
            let off = char_base + tile_idx * 32 + py * 4 + px / 2;
            if off < vram.len() {
                if px % 2 == 0 { (vram[off] & 0x0F) as usize } else { (vram[off] >> 4u8) as usize }
            } else {
                0
            }
        } else {
            let off = char_base + tile_idx * 64 + py * 8 + px;
            if off < vram.len() { vram[off] as usize } else { 0 }
        };
        if ci != 0 {
            read_palette_color(pal, if !color_256 { (bank * 16 + ci) * 2 } else { ci * 2 })
        } else {
            None
        }
    } else {
        None
    }
}

/// The size in pixels of a sprite of shape `shape` and size `size`.
fn sprite_size(shape: u16, size: u16) -> (d: (i32, i32))
    ensures
        (d.0 as int, d.1 as int) == sprite_dims(shape, size),
        d.0 == 8 || d.0 == 16 || d.0 == 32 || d.0 == 64,
        d.1 == 8 || d.1 == 16 || d.1 == 32 || d.1 == 64,
{
    if shape == 0 {
        if size == 0 { (8, 8) } else if size == 1 { (16, 16) } else if size == 2 { (32, 32) } else { (64, 64) }
    } else if shape == 1 {
        if size == 0 { (16, 8) } else if size == 1 { (32, 8) } else if size == 2 { (32, 16) } else { (64, 32) }
    } else if shape == 2 {
        if size == 0 { (8, 16) } else if size == 1 { (8, 32) } else if size == 2 { (16, 32) } else { (32, 64) }
    } else {
        (8, 8)
    }
}

/// Where pixel (`x`, `y`) falls in a sprite.
fn place_in_sprite(attr0: u16, attr1: u16, y: usize, x: usize) -> (r: Option<(usize, usize, usize)>)
    requires
        y < SCREEN_HEIGHT,
        x < SCREEN_WIDTH,
    ensures
        r matches Some((px, py, w)) ==> sprite_place(attr0, attr1, y as int, x as int) == Some((px as int, py as int, w as int))
            && px < 64 && py < 64 && (w == 8 || w == 16 || w == 32 || w == 64),
        r is None ==> sprite_place(attr0, attr1, y as int, x as int) is None,
{
    let sy0 = (attr0 & 0xFF) as i32;
    let sprite_y: i32 = if sy0 >= 160 { sy0 - 256 } else { sy0 };
    let rot_scale = attr0 & 0x100 != 0;
    let disabled = !rot_scale && attr0 & 0x200 != 0;
    let shape = (attr0 >> 14u16) & 3;
    let size = (attr1 >> 14u16) & 3;
    let (w, h) = sprite_size(shape, size);
    let y_in = y as i32 - sprite_y;
    let sx0 = (attr1 & 0x1FF) as i32;
    let sprite_x: i32 = if sx0 >= 246 { sx0 - 512 } else { sx0 };
    let sx = x as i32 - sprite_x;
    if disabled || y_in < 0 || y_in >= h || sx < 0 || sx >= w {
        return None;
    }
    let h_flip = !rot_scale && attr1 & 0x1000 != 0;
    let v_flip = !rot_scale && attr1 & 0x2000 != 0;
    let py = (if v_flip { h - 1 - y_in } else { y_in }) as usize;
    let px = (if h_flip { w - 1 - sx } else { sx }) as usize;
    Some((px, py, w as usize))
}

/// The color of column `px`, row `py` of a sprite.
fn sprite_color(attr0: u16, attr2: u16, dispcnt: u16, pal: &[u8; 0x400], vram: &[u8], px: usize, py: usize, w: usize) -> (c: Option<u32>)
    requires
        px < 64,
        py < 64,
        w <= 64,
        vram@.len() <= 0x20000,
    ensures
        c == sprite_color_at(attr0, attr2, dispcnt, pal@, vram@, px as int, py as int, w as int),
{
    let color_256 = attr0 & 0x2000 != 0;
    let tile_idx = (attr2 & 0x3FF) as usize;
    let bank = ((attr2 >> 12u16) & 0x0F) as usize;
    let tile_x = px / 8;
    let tile_y = py / 8;
    let lpx = px % 8;
    let lpy = py % 8;
    let stride: usize = if color_256 { 2 } else { 1 };
    let tiles_per_row = w / 8;
    assert(tile_y * tiles_per_row <= 64) by (nonlinear_arith)
        requires
            tile_y < 8,
            tiles_per_row <= 8,
    ;
    let char_offset = if dispcnt & 0x40 != 0 {
        tile_idx + (tile_y * tiles_per_row + tile_x) * stride
    } else {
        tile_idx + tile_y * 32 + tile_x * stride
    };
    let ci: usize = if !color_256 {
        let addr = 0x10000 + char_offset * 32 + lpy * 4 + lpx / 2;
        if addr < vram.len() {
            if lpx % 2 == 0 { (vram[addr] & 0x0F) as usize } else { (vram[addr] >> 4u8) as usize }
        } else {
            0
        }
    } else {
        let addr = 0x10000 + char_offset * 32 + lpy * 8 + lpx;
        if addr < vram.len() { vram[addr] as usize } else { 0 }
    };
    if ci != 0 {
        read_palette_color(pal, if !color_256 { 0x200 + (bank * 16 + ci) * 2 } else { 0x200 + ci * 2 })
    } else {
        None
    }
}

/// The color that sprite `i` puts at (`x`, `y`).
fn compute_sprite_pixel(i: usize, dispcnt: u16, pal: &[u8; 0x400], vram: &[u8], oam: &[u8; 0x400], y: usize, x: usize) -> (c: Option<u32>)
    requires
        i < 128,
        y < SCREEN_HEIGHT,
        x < SCREEN_WIDTH,
        vram@.len() <= 0x20000,
    ensures
        c == sprite_pixel(i as int, dispcnt, pal@, vram@, oam@, y as int, x as int),
{
    let attr0 = read_half(oam, i * 8);
    let attr1 = read_half(oam, i * 8 + 2);
    let attr2 = read_half(oam, i * 8 + 4);
    match place_in_sprite(attr0, attr1, y, x) {
        None => None,
        Some((px, py, w)) => sprite_color(attr0, attr2, dispcnt, pal, vram, px, py, w),
    }
}

impl Ppu {
    pub open spec fn spec_new() -> GbaPpuModel {
        GbaPpuModel {
            framebuffer: Seq::new((SCREEN_WIDTH * SCREEN_HEIGHT) as nat, |i: int| 0xFF00_0000u32),
            scanline_cycles: 0,
            backdrop_color: 0,
            hblank_triggered: false,
        }
    }

    /// A PPU at the start of a scanline with a black screen.
    pub fn new() -> (p: Self)
        ensures
            p@ == Ppu::spec_new(),
    {
        let p = Ppu {
            framebuffer: vec![0xFF00_0000u32; SCREEN_WIDTH * SCREEN_HEIGHT],
            scanline_cycles: 0,
            backdrop_color: 0,
            hblank_triggered: false,
        };
        assert(p@.framebuffer =~= Ppu::spec_new().framebuffer);
        p
    }

    /// A 15-bit BGR color as 24-bit RGB.
    fn convert_bgr555_to_xrgb(color: u16) -> (c: u32)
        ensures
            c == bgr_to_rgb(color),
    {
        let r = ((color & 0x1F) as u32) << 3u32;
        let g = (((color >> 5u16) & 0x1F) as u32) << 3u32;
        let b = (((color >> 10u16) & 0x1F) as u32) << 3u32;
        let r2 = r | (r >> 5u32);
        let g2 = g | (g >> 5u32);
        let b2 = b | (b >> 5u32);
        (r2 << 16u32) | (g2 << 8u32) | b2
    }

    /// Sets interrupt flag `bit` in IF.
    fn raise_interrupt(&self, io: &mut [u8; 0x400], bit: u16)
        requires
            bit < 16,
        ensures
            final(io)@ == raise_if(old(io)@, bit),
    {
        let current_if = (io[0x202] as u16) | ((io[0x203] as u16) << 8u16);
        let new_if = current_if | (1u16 << bit);
        io[0x202] = new_if as u8;
        io[0x203] = (new_if >> 8u16) as u8;
    }
}


/// Pixel (`x`, `y`) in the bitmap modes 3-5 (and the modes past 5, which draw only the
/// backdrop).
fn bitmap_pixel(dispcnt: u16, pal: &[u8; 0x400], vram: &[u8], y: usize, x: usize, back: u32) -> (c: u32)
    requires
        y < SCREEN_HEIGHT,
        x < SCREEN_WIDTH,
        vram@.len() <= 0x20000,
    ensures
        forall|io: Seq<u8>| io.len() == 0x400 && half(io, 0) == dispcnt && dispcnt & 7 > 2
            ==> c == #[trigger] base_pixel(io, pal@, vram@, y as int, x as int, back),
{
    let mode = dispcnt & 7;
    let page_base: usize = if dispcnt & 0x10 != 0 { 0xA000 } else { 0 };
    if mode == 3 {
        let off = (y * 240 + x) * 2;
        if off + 1 < vram.len() { Ppu::convert_bgr555_to_xrgb(read_half(vram, off)) } else { back }
    } else if mode == 4 {
        let off = page_base + y * 240 + x;
        if off < vram.len() {
            match read_palette_color(pal, vram[off] as usize * 2) {
                Some(c) => c,
                None => back,
            }
        } else {
            back
        }
    } else if mode == 5 {
        if 16 <= y && y < 144 && 40 <= x && x < 200 {
            let off = page_base + ((y - 16) * 160 + (x - 40)) * 2;
            if off + 1 < vram.len() { Ppu::convert_bgr555_to_xrgb(read_half(vram, off)) } else { back }
        } else {
            back
        }
    } else {
        back
    }
}

impl Ppu {
    /// Draws the background layers of scanline `y` over what is there: priority 3 first
    /// and 0 last, BG0 before BG3 within a priority.
    fn render_tiled_backgrounds(&mut self, y: usize, io: &[u8; 0x400], pal: &[u8; 0x400], vram: &[u8])
        requires
            old(self)@.wf(),
            y < SCREEN_HEIGHT,
            vram@.len() <= 0x20000,
        ensures
            final(self)@ == (GbaPpuModel { framebuffer: final(self)@.framebuffer, ..old(self)@ }),
            final(self)@.framebuffer.len() == old(self)@.framebuffer.len(),
            forall|j: int| 0 <= j < 38400 && !(y * 240 <= j < y * 240 + 240)
                ==> #[trigger] final(self)@.framebuffer[j] == old(self)@.framebuffer[j],
            forall|x: int| 0 <= x < 240 ==> #[trigger] final(self)@.framebuffer[y * 240 + x]
                == layers_from(io@, pal@, vram@, y as int, x, 0, old(self)@.framebuffer[y * 240 + x]),
    {
        let ghost pre = self@;
        let dispcnt = read_half(io, 0);
        let row = y * SCREEN_WIDTH;
        let mut j: usize = 0;
        while j < 16
            invariant
                j <= 16,
                y < SCREEN_HEIGHT,
                row == y * 240,
                vram@.len() <= 0x20000,
                dispcnt == half(io@, 0),
                self@ == (GbaPpuModel { framebuffer: self@.framebuffer, ..pre }),
                self@.framebuffer.len() == 38400,
                forall|k: int| 0 <= k < 38400 && !(row <= k < row + 240) ==> #[trigger] self@.framebuffer[k] == pre.framebuffer[k],
                forall|x: int| 0 <= x < 240 ==> layers_from(io@, pal@, vram@, y as int, x, j as int, #[trigger] self@.framebuffer[row + x])
                    == layers_from(io@, pal@, vram@, y as int, x, 0, pre.framebuffer[row + x]),
            decreases 16 - j,
        {
            let bg = j % 4;
            let prio = 3 - j / 4;
            let bgcnt = read_half(io, 0x08 + bg * 2);
            let enabled = dispcnt & (1u16 << (8 + bg) as u16) != 0;
            if enabled && (bgcnt & 3) as usize == prio {
                let ghost before = self@;
                let mut x: usize = 0;
                while x < SCREEN_WIDTH
                    invariant
                        x <= 240,
                        j < 16,
                        bg == j % 4,
                        prio == 3 - j / 4,
                        y < SCREEN_HEIGHT,
                        row == y * 240,
                        vram@.len() <= 0x20000,
                        bg_in_pass(io@, bg as int, prio as int),
                        self@ == (GbaPpuModel { framebuffer: self@.framebuffer, ..pre }),
                        self@.framebuffer.len() == 38400,
                        forall|k: int| 0 <= k < 38400 && !(row <= k < row + x) ==> #[trigger] self@.framebuffer[k] == before.framebuffer[k],
                        forall|k: int| 0 <= k < x ==> #[trigger] self@.framebuffer[row + k] == (match bg_pixel(bg as int, io@, pal@, vram@, y as int, k) {
                            Some(c) => c,
                            None => before.framebuffer[row + k],
                        }),
                    decreases 240 - x,
                {
                    match compute_bg_pixel(bg, io, pal, vram, y, x) {
                        Some(c) => {
                            self.framebuffer.set(row + x, c);
                        },
                        None => {},
                    }
                    x = x + 1;
                }
                proof {
                    assert forall|x: int| 0 <= x < 240 implies layers_from(io@, pal@, vram@, y as int, x, (j + 1) as int, #[trigger] self@.framebuffer[row + x])
                        == layers_from(io@, pal@, vram@, y as int, x, 0, pre.framebuffer[row + x]) by {
                        assert(layers_from(io@, pal@, vram@, y as int, x, j as int, before.framebuffer[row + x])
                            == layers_from(io@, pal@, vram@, y as int, x, 0, pre.framebuffer[row + x]));
                    }
                }
            } else {
                proof {
                    assert(!bg_in_pass(io@, bg as int, prio as int));
                    assert forall|x: int| 0 <= x < 240 implies layers_from(io@, pal@, vram@, y as int, x, (j + 1) as int, #[trigger] self@.framebuffer[row + x])
                        == layers_from(io@, pal@, vram@, y as int, x, 0, pre.framebuffer[row + x]) by {
                        assert(layers_from(io@, pal@, vram@, y as int, x, j as int, self@.framebuffer[row + x])
                            == layers_from(io@, pal@, vram@, y as int, x, 0, pre.framebuffer[row + x]));
                    }
                }
            }
            j = j + 1;
        }
    }
}


impl Ppu {
    /// Draws the sprites over scanline `y`, from sprite 127 down to sprite 0 so that
    /// lower-numbered sprites end on top.
    fn render_sprites(&mut self, y: usize, dispcnt: u16, pal: &[u8; 0x400], vram: &[u8], oam: &[u8; 0x400])
        requires
            old(self)@.wf(),
            y < SCREEN_HEIGHT,
            vram@.len() <= 0x20000,
        ensures
            final(self)@ == (GbaPpuModel { framebuffer: final(self)@.framebuffer, ..old(self)@ }),
            final(self)@.framebuffer.len() == old(self)@.framebuffer.len(),
            forall|j: int| 0 <= j < 38400 && !(y * 240 <= j < y * 240 + 240)
                ==> #[trigger] final(self)@.framebuffer[j] == old(self)@.framebuffer[j],
            forall|x: int| 0 <= x < 240 ==> #[trigger] final(self)@.framebuffer[y * 240 + x]
                == (match top_sprite(dispcnt, pal@, vram@, oam@, y as int, x, 0) {
                    Some(c) => c,
                    None => old(self)@.framebuffer[y * 240 + x],
                }),
    {
        let ghost pre = self@;
        let row = y * SCREEN_WIDTH;
        let mut i: usize = 128;
        while i > 0
            invariant
                i <= 128,
                y < SCREEN_HEIGHT,
                row == y * 240,
                vram@.len() <= 0x20000,
                self@ == (GbaPpuModel { framebuffer: self@.framebuffer, ..pre }),
                self@.framebuffer.len() == 38400,
                forall|k: int| 0 <= k < 38400 && !(row <= k < row + 240) ==> #[trigger] self@.framebuffer[k] == pre.framebuffer[k],
                forall|x: int| 0 <= x < 240 ==> #[trigger] self@.framebuffer[row + x] == (match top_sprite(dispcnt, pal@, vram@, oam@, y as int, x, i as int) {
                    Some(c) => c,
                    None => pre.framebuffer[row + x],
                }),
            decreases i,
        {
            i = i - 1;
            let ghost before = self@;
            let mut x: usize = 0;
            while x < SCREEN_WIDTH
                invariant
                    x <= 240,
                    i < 128,
                    y < SCREEN_HEIGHT,
                    row == y * 240,
                    vram@.len() <= 0x20000,
                    self@ == (GbaPpuModel { framebuffer: self@.framebuffer, ..pre }),
                    self@.framebuffer.len() == 38400,
                    forall|k: int| 0 <= k < 38400 && !(row <= k < row + x) ==> #[trigger] self@.framebuffer[k] == before.framebuffer[k],
                    forall|k: int| 0 <= k < x ==> #[trigger] self@.framebuffer[row + k] == (match sprite_pixel(i as int, dispcnt, pal@, vram@, oam@, y as int, k) {
                        Some(c) => c,
                        None => before.framebuffer[row + k],
                    }),
                decreases 240 - x,
            {
                match compute_sprite_pixel(i, dispcnt, pal, vram, oam, y, x) {
                    Some(c) => {
                        self.framebuffer.set(row + x, c);
                    },
                    None => {},
                }
                x = x + 1;
            }
            proof {
                assert forall|x: int| 0 <= x < 240 implies #[trigger] self@.framebuffer[row + x] == (match top_sprite(dispcnt, pal@, vram@, oam@, y as int, x, i as int) {
                    Some(c) => c,
                    None => pre.framebuffer[row + x],
                }) by {
                    assert(before.framebuffer[row + x] == (match top_sprite(dispcnt, pal@, vram@, oam@, y as int, x, i + 1) {
                        Some(c) => c,
                        None => pre.framebuffer[row + x],
                    }));
                }
            }
        }
    }

    /// Renders scanline `y`: the backdrop, the mode's backgrounds or bitmap, then the
    /// sprites when enabled.
    fn render_scanline(&mut self, y: usize, io: &[u8; 0x400], pal: &[u8; 0x400], vram: &[u8], oam: &[u8; 0x400])
        requires
            old(self)@.wf(),
            y < SCREEN_HEIGHT,
            vram@.len() <= 0x20000,
        ensures
            final(self)@ == old(self)@.render_line(io@, pal@, vram@, oam@, y as int),
    {
        let ghost pre = self@;
        let dispcnt = read_half(io, 0);
        let mode = dispcnt & 7;
        let back = Ppu::convert_bgr555_to_xrgb(read_half(pal, 0));
        self.backdrop_color = back;
        let row = y * SCREEN_WIDTH;
        let ghost start = self@;
        let mut x: usize = 0;
        while x < SCREEN_WIDTH
            invariant
                x <= 240,
                y < SCREEN_HEIGHT,
                row == y * 240,
                self@ == (GbaPpuModel { framebuffer: self@.framebuffer, ..start }),
                self@.framebuffer.len() == 38400,
                forall|k: int| 0 <= k < 38400 && !(row <= k < row + x) ==> #[trigger] self@.framebuffer[k] == pre.framebuffer[k],
                forall|k: int| row <= k < row + x ==> #[trigger] self@.framebuffer[k] == back,
            decreases 240 - x,
        {
            self.framebuffer.set(row + x, back);
            x = x + 1;
        }
        if mode <= 2 {
            self.render_tiled_backgrounds(y, io, pal, vram);
        } else {
            let ghost filled = self@;
            let mut x: usize = 0;
            while x < SCREEN_WIDTH
                invariant
                    x <= 240,
                    y < SCREEN_HEIGHT,
                    row == y * 240,
                    vram@.len() <= 0x20000,
                    dispcnt == half(io@, 0),
                    dispcnt & 7 > 2,
                    self@ == (GbaPpuModel { framebuffer: self@.framebuffer, ..start }),
                    self@.framebuffer.len() == 38400,
                    forall|k: int| 0 <= k < 38400 && !(row <= k < row + x) ==> #[trigger] self@.framebuffer[k] == filled.framebuffer[k],
                    forall|k: int| 0 <= k < x ==> #[trigger] self@.framebuffer[row + k] == base_pixel(io@, pal@, vram@, y as int, k, back),
                decreases 240 - x,
            {
                let c = bitmap_pixel(dispcnt, pal, vram, y, x, back);
                proof {
                    assert(c == base_pixel(io@, pal@, vram@, y as int, x as int, back));
                }
                self.framebuffer.set(row + x, c);
                x = x + 1;
            }
        }
        let ghost based = self@;
        proof {
            assert forall|k: int| 0 <= k < 240 implies #[trigger] based.framebuffer[row + k] == base_pixel(io@, pal@, vram@, y as int, k, back) by {
                if mode <= 2 {
                    assert(based.framebuffer[row + k] == layers_from(io@, pal@, vram@, y as int, k, 0, back));
                }
            }
        }
        if dispcnt & 0x1000 != 0 {
            self.render_sprites(y, dispcnt, pal, vram, oam);
        }
        proof {
            let target = pre.render_line(io@, pal@, vram@, oam@, y as int);
            assert forall|j: int| row <= j < row + 240 implies #[trigger] self@.framebuffer[j] == target.framebuffer[j] by {
                assert(based.framebuffer[row + (j - row)] == base_pixel(io@, pal@, vram@, y as int, j - row, back));
            }
            assert(self@.framebuffer =~= target.framebuffer);
        }
    }
}


impl Ppu {
    /// Completes one scanline from line `vcount`: moves to the next line, publishes it in
    /// VCOUNT and renders it if visible. Returns the new line.
    fn finish_line(&mut self, vcount: u16, io: &mut [u8; 0x400], pal: &[u8; 0x400], vram: &[u8], oam: &[u8; 0x400]) -> (v: u16)
        requires
            old(self)@.wf(),
            vcount <= 0xFF,
            vram@.len() <= 0x20000,
        ensures
            final(self)@.wf(),
            v == ((vcount + 1) % 228) as u16,
            final(io)@ == old(io)@.update(6, v as u8).update(7, 0),
            final(self)@ == ({
                let p1 = GbaPpuModel { hblank_triggered: false, ..old(self)@ };
                if v < 160 { p1.render_line(final(io)@, pal@, vram@, oam@, v as int) } else { p1 }
            }),
    {
        self.hblank_triggered = false;
        let v = (vcount + 1) % TOTAL_LINES;
        io[6] = v as u8;
        io[7] = 0;
        if v < 160 {
            self.render_scanline(v as usize, io, pal, vram, oam);
        }
        v
    }

    /// Advances the PPU by `cycles` CPU cycles: completes the scanlines they cover,
    /// updates DISPSTAT and raises the display interrupts that are enabled. Returns the
    /// DMA trigger of entering VBlank or, failing that, of entering HBlank on a visible
    /// line.
    pub fn tick(&mut self, cycles: u32, io: &mut [u8; 0x400], palette_ram: &[u8; 0x400], vram: &[u8], oam: &[u8; 0x400]) -> (t: Option<DmaTrigger>)
        requires
            old(self)@.wf(),
            cycles <= u32::MAX - LINE_CYCLES,
            vram@.len() <= 0x20000,
        ensures
            final(self)@.wf(),
            (final(self)@, final(io)@, t) == old(self)@.tick(cycles, old(io)@, palette_ram@, vram@, oam@),
    {
        let total = self.scanline_cycles + cycles;
        self.scanline_cycles = total % LINE_CYCLES;
        let n = total / LINE_CYCLES;
        let mut vcount: u16 = read_half(io, 6) & 0xFF;
        proof { crate::bits::lemma_and_le_u16(half(io@, 6), 0xFF); }
        let ghost p0 = self@;
        let ghost io0 = io@;
        let ghost v0 = vcount;
        let mut vblank = false;
        let mut k: u32 = 0;
        while k < n
            invariant
                k <= n,
                self@.wf(),
                vcount <= 0xFF,
                vram@.len() <= 0x20000,
                (self@, io@, vcount, vblank) == p0.lines(io0, palette_ram@, vram@, oam@, v0, k as nat),
            decreases n - k,
        {
            vcount = self.finish_line(vcount, io, palette_ram, vram, oam);
            if vcount == 160 {
                vblank = true;
            }
            k = k + 1;
        }
        let mut trigger: Option<DmaTrigger> = if vblank { Some(DmaTrigger::VBlank) } else { None };
        if !self.hblank_triggered && self.scanline_cycles >= HBLANK_START {
            self.hblank_triggered = true;
            if vcount < 160 && trigger.is_none() {
                trigger = Some(DmaTrigger::HBlank);
            }
        }
        let mut dispstat = read_half(io, 4);
        if vcount >= 160 {
            dispstat = dispstat | 1;
            if dispstat & 0x08 != 0 {
                self.raise_interrupt(io, 0);
            }
        } else {
            dispstat = dispstat & !1u16;
        }
        if self.scanline_cycles >= HBLANK_START {
            dispstat = dispstat | 2;
            if dispstat & 0x10 != 0 {
                self.raise_interrupt(io, 1);
            }
        } else {
            dispstat = dispstat & !2u16;
        }
        let vcount_trigger = (dispstat >> 8u16) & 0xFF;
        if vcount == vcount_trigger {
            dispstat = dispstat | 4;
            if dispstat & 0x20 != 0 {
                self.raise_interrupt(io, 2);
            }
        } else {
            dispstat = dispstat & !4u16;
        }
        io[4] = dispstat as u8;
        io[5] = (dispstat >> 8u16) as u8;
        trigger
    }
}

impl Default for Ppu {
    /// A PPU at the start of a scanline with a black screen.
    fn default() -> (p: Self)
        ensures
            p@ == Ppu::spec_new(),
    {
        Ppu::new()
    }
}

} // verus!
