//! What the desktop program draws and reads that is pure computation: the five by
//! seven font of the status screen, the text it draws into an RGB buffer, the
//! palette that turns the shades of a Game Boy frame into colours, and the joypad
//! byte made from the pressed keys.
use vstd::prelude::*;
use vstd::string::StrSliceExecFns;
use vstd::arithmetic::div_mod::{lemma_fundamental_div_mod, lemma_fundamental_div_mod_converse};

verus! {

/// The columns of a character of the font, left to right; bit `r` of a column is
/// the pixel in row `r` from the top. Characters outside the font are blank.
pub open spec fn glyph(c: char) -> Seq<u8> {
    if c == 'A' {
        seq![0x7Cu8, 0x12, 0x11, 0x12, 0x7C]
    } else if c == 'C' {
        seq![0x3Eu8, 0x41, 0x41, 0x41, 0x22]
    } else if c == 'D' {
        seq![0x7Fu8, 0x41, 0x41, 0x22, 0x1C]
    } else if c == 'E' {
        seq![0x7Fu8, 0x49, 0x49, 0x49, 0x41]
    } else if c == 'G' {
        seq![0x3Eu8, 0x41, 0x49, 0x49, 0x3A]
    } else if c == 'I' {
        seq![0x00u8, 0x41, 0x7F, 0x41, 0x00]
    } else if c == 'L' {
        seq![0x7Fu8, 0x40, 0x40, 0x40, 0x40]
    } else if c == 'M' {
        seq![0x7Fu8, 0x02, 0x0C, 0x02, 0x7F]
    } else if c == 'N' {
        seq![0x7Fu8, 0x06, 0x18, 0x60, 0x7F]
    } else if c == 'O' {
        seq![0x3Eu8, 0x41, 0x41, 0x41, 0x3E]
    } else if c == 'P' {
        seq![0x7Fu8, 0x09, 0x09, 0x09, 0x06]
    } else if c == 'Q' {
        seq![0x3Eu8, 0x41, 0x51, 0x21, 0x5E]
    } else if c == 'R' {
        seq![0x7Fu8, 0x09, 0x19, 0x29, 0x46]
    } else if c == 'S' {
        seq![0x46u8, 0x49, 0x49, 0x49, 0x31]
    } else if c == 'T' {
        seq![0x01u8, 0x01, 0x7F, 0x01, 0x01]
    } else if c == 'U' {
        seq![0x3Fu8, 0x40, 0x40, 0x40, 0x3F]
    } else {
        seq![0x00u8, 0x00, 0x00, 0x00, 0x00]
    }
}

/// The bitmap of one character of the font.
pub fn char_bitmap(character: char) -> (bitmap: [u8; 5])
    ensures
        bitmap@ == glyph(character),
{
    match character {
        'A' => [0x7C, 0x12, 0x11, 0x12, 0x7C],
        'C' => [0x3E, 0x41, 0x41, 0x41, 0x22],
        'D' => [0x7F, 0x41, 0x41, 0x22, 0x1C],
        'E' => [0x7F, 0x49, 0x49, 0x49, 0x41],
        'G' => [0x3E, 0x41, 0x49, 0x49, 0x3A],
        'I' => [0x00, 0x41, 0x7F, 0x41, 0x00],
        'L' => [0x7F, 0x40, 0x40, 0x40, 0x40],
        'M' => [0x7F, 0x02, 0x0C, 0x02, 0x7F],
        'N' => [0x7F, 0x06, 0x18, 0x60, 0x7F],
        'O' => [0x3E, 0x41, 0x41, 0x41, 0x3E],
        'P' => [0x7F, 0x09, 0x09, 0x09, 0x06],
        'Q' => [0x3E, 0x41, 0x51, 0x21, 0x5E],
        'R' => [0x7F, 0x09, 0x19, 0x29, 0x46],
        'S' => [0x46, 0x49, 0x49, 0x49, 0x31],
        'T' => [0x01, 0x01, 0x7F, 0x01, 0x01],
        'U' => [0x3F, 0x40, 0x40, 0x40, 0x3F],
        _ => [0x00, 0x00, 0x00, 0x00, 0x00],
    }
}

/// Whether any character of `text` has a pixel set in its bitmap.
pub open spec fn has_ink(text: Seq<char>) -> bool {
    exists|i: int, c: int| 0 <= i < text.len() && 0 <= c < 5 && #[trigger] glyph(text[i])[c] != 0
}

/// Whether `text`, drawn with its top left corner at (`sx`, `sy`) and a cell of six
/// columns per character, sets the pixel (`px`, `py`): the pixel falls in one of the
/// five columns and seven rows of a character's cell, and that character's bitmap
/// has the bit.
pub open spec fn text_lit(text: Seq<char>, sx: int, sy: int, px: int, py: int) -> bool {
    let dx = px - sx;
    let dy = py - sy;
    &&& 0 <= dx
    &&& 0 <= dy < 7
    &&& dx / 6 < text.len()
    &&& dx % 6 < 5
    &&& glyph(text[dx / 6])[dx % 6] & (1u8 << (dy as u8)) != 0
}

/// The pixel at index `k` of a buffer of `len` pixels in rows of `width`, after
/// `text` was drawn in `color` at (`sx`, `sy`) over `old`: pixels of the partial last
/// row are never drawn.
pub open spec fn drawn_pixel(
    text: Seq<char>,
    sx: int,
    sy: int,
    width: int,
    len: int,
    k: int,
    color: u32,
    old: u32,
) -> u32 {
    if width > 0 && k / width < len / width && text_lit(text, sx, sy, k % width, k / width) {
        color
    } else {
        old
    }
}

/// Whether the cell position (character `ci`, column `col`, row `dy`) comes before
/// the position (`i`, `c`, `r`) in the order the text is drawn.
pub open spec fn drawn_before(ci: int, col: int, dy: int, i: int, c: int, r: int) -> bool {
    ci < i || (ci == i && (col < c || (col == c && dy < r)))
}

/// What the buffer holds while the text is drawn, once every cell position before
/// (`i`, `c`, `r`) has been handled.
pub open spec fn partly_drawn(
    text: Seq<char>,
    sx: int,
    sy: int,
    width: int,
    len: int,
    k: int,
    color: u32,
    old: u32,
    i: int,
    c: int,
    r: int,
) -> u32 {
    let px = k % width;
    let py = k / width;
    if width > 0 && py < len / width && text_lit(text, sx, sy, px, py) && drawn_before(
        (px - sx) / 6,
        (px - sx) % 6,
        py - sy,
        i,
        c,
        r,
    ) {
        color
    } else {
        old
    }
}

/// Draws `text` in `color` with its top left corner at (`start_x`, `start_y`) into a
/// buffer of rows of `width` pixels, one cell of six columns per character; pixels
/// that fall right of the row or below the last full row are left out.
pub fn draw_text(buffer: &mut [u32], width: usize, start_x: usize, start_y: usize, text: &str, color: u32)
    requires
        start_x + 6 * text@.len() <= usize::MAX,
        has_ink(text@) ==> width > 0 && start_y + 6 <= usize::MAX,
    ensures
        final(buffer)@.len() == old(buffer)@.len(),
        forall|k: int|
            0 <= k < old(buffer)@.len() ==> #[trigger] final(buffer)@[k] == drawn_pixel(
                text@,
                start_x as int,
                start_y as int,
                width as int,
                old(buffer)@.len() as int,
                k,
                color,
                old(buffer)@[k],
            ),
{
    let ghost old_buf = buffer@;
    let ghost t = text@;
    let ghost len = buffer@.len() as int;
    let ghost sx = start_x as int;
    let ghost sy = start_y as int;
    let n = text.unicode_len();
    let mut x = start_x;
    let mut i: usize = 0;
    while i < n
        invariant
            n == t.len(),
            t == text@,
            i <= n,
            x == start_x + 6 * i,
            start_x + 6 * t.len() <= usize::MAX,
            has_ink(t) ==> width > 0 && start_y + 6 <= usize::MAX,
            buffer@.len() == len,
            len == old_buf.len(),
            sx == start_x,
            sy == start_y,
            forall|k: int|
                0 <= k < len ==> #[trigger] buffer@[k] == partly_drawn(
                    t,
                    sx,
                    sy,
                    width as int,
                    len,
                    k,
                    color,
                    old_buf[k],
                    i as int,
                    0,
                    0,
                ),
        decreases n - i,
    {
        let character = text.get_char(i);
        let bitmap = char_bitmap(character);
        let mut column: usize = 0;
        while column < 5
            invariant
                n == t.len(),
                i < n,
                x == start_x + 6 * i,
                start_x + 6 * t.len() <= usize::MAX,
                has_ink(t) ==> width > 0 && start_y + 6 <= usize::MAX,
                bitmap@ == glyph(t[i as int]),
                column <= 5,
                buffer@.len() == len,
                sx == start_x,
                sy == start_y,
                forall|k: int|
                    0 <= k < len ==> #[trigger] buffer@[k] == partly_drawn(
                        t,
                        sx,
                        sy,
                        width as int,
                        len,
                        k,
                        color,
                        old_buf[k],
                        i as int,
                        column as int,
                        0,
                    ),
            decreases 5 - column,
        {
            let column_data = bitmap[column];
            let mut row: u8 = 0;
            while row < 7
                invariant
                    n == t.len(),
                    i < n,
                    x == start_x + 6 * i,
                    start_x + 6 * t.len() <= usize::MAX,
                    has_ink(t) ==> width > 0 && start_y + 6 <= usize::MAX,
                    bitmap@ == glyph(t[i as int]),
                    column < 5,
                    column_data == glyph(t[i as int])[column as int],
                    row <= 7,
                    buffer@.len() == len,
                    sx == start_x,
                    sy == start_y,
                    forall|k: int|
                        0 <= k < len ==> #[trigger] buffer@[k] == partly_drawn(
                            t,
                            sx,
                            sy,
                            width as int,
                            len,
                            k,
                            color,
                            old_buf[k],
                            i as int,
                            column as int,
                            row as int,
                        ),
                decreases 7 - row,
            {
                let ghost before = buffer@;
                if column_data & (1u8 << row) != 0 {
                    assert(column_data != 0) by (bit_vector)
                        requires
                            column_data & (1u8 << row) != 0,
                    ;
                    assert(has_ink(t)) by {
                        assert(glyph(t[i as int])[column as int] != 0);
                    }
                    let pixel_x = x + column;
                    let pixel_y = start_y + row as usize;
                    if pixel_x < width && pixel_y < buffer.len() / width {
                        proof {
                            assert(pixel_y * width + pixel_x < len) by (nonlinear_arith)
                                requires
                                    pixel_x < width,
                                    pixel_y < len / (width as int),
                                    width > 0,
                                    len >= 0,
                            {
                                lemma_fundamental_div_mod(len, width as int);
                                assert(pixel_y + 1 <= len / (width as int));
                                assert((pixel_y + 1) * width <= (len / (width as int)) * width);
                            }
                        }
                        let index = pixel_y * width + pixel_x;
                        buffer[index] = color;
                        proof {
                            lemma_fundamental_div_mod_converse(
                                index as int,
                                width as int,
                                pixel_y as int,
                                pixel_x as int,
                            );
                            let dx = pixel_x - sx;
                            lemma_fundamental_div_mod_converse(dx, 6, i as int, column as int);
                            assert forall|k: int| 0 <= k < len implies #[trigger] buffer@[k]
                                == partly_drawn(
                                t,
                                sx,
                                sy,
                                width as int,
                                len,
                                k,
                                color,
                                old_buf[k],
                                i as int,
                                column as int,
                                row + 1,
                            ) by {
                                if k != index {
                                    lemma_fundamental_div_mod(k, width as int);
                                    let kx = k % (width as int);
                                    let ky = k / (width as int);
                                    if kx == pixel_x && ky == pixel_y {
                                        assert(k == index) by (nonlinear_arith)
                                            requires
                                                k == (width as int) * ky + kx,
                                                index == pixel_y * width + pixel_x,
                                                kx == pixel_x,
                                                ky == pixel_y,
                                        ;
                                    }
                                    let kdx = kx - sx;
                                    lemma_fundamental_div_mod(kdx, 6);
                                    assert(before[k] == buffer@[k]);
                                } else {
                                    assert((1u8 << row) == (1u8 << ((pixel_y - sy) as u8)));
                                }
                            }
                        }
                    } else {
                        proof {
                            assert forall|k: int| 0 <= k < len implies #[trigger] buffer@[k]
                                == partly_drawn(
                                t,
                                sx,
                                sy,
                                width as int,
                                len,
                                k,
                                color,
                                old_buf[k],
                                i as int,
                                column as int,
                                row + 1,
                            ) by {
                                lemma_fundamental_div_mod(k, width as int);
                                let kx = k % (width as int);
                                let ky = k / (width as int);
                                let kdx = kx - sx;
                                lemma_fundamental_div_mod(kdx, 6);
                                if kdx >= 0 && kdx / 6 == i && kdx % 6 == column && ky - sy == row {
                                    assert(kx == pixel_x);
                                    assert(ky == pixel_y);
                                }
                            }
                        }
                    }
                } else {
                    proof {
                        assert forall|k: int| 0 <= k < len implies #[trigger] buffer@[k]
                            == partly_drawn(
                            t,
                            sx,
                            sy,
                            width as int,
                            len,
                            k,
                            color,
                            old_buf[k],
                            i as int,
                            column as int,
                            row + 1,
                        ) by {
                            if width > 0 {
                                let kx = k % (width as int);
                                let ky = k / (width as int);
                                let kdx = kx - sx;
                                if kdx >= 0 && kdx / 6 == i && kdx % 6 == column && ky - sy == row {
                                    assert((1u8 << row) == (1u8 << ((ky - sy) as u8)));
                                }
                            }
                        }
                    }
                }
                row = row + 1;
            }
            column = column + 1;
        }
        x = x + 6;
        i = i + 1;
    }
    proof {
        assert forall|k: int| 0 <= k < len implies #[trigger] buffer@[k] == drawn_pixel(
            t,
            sx,
            sy,
            width as int,
            len,
            k,
            color,
            old_buf[k],
        ) by {
            if width > 0 {
                let kx = k % (width as int);
                let ky = k / (width as int);
                let kdx = kx - sx;
                if text_lit(t, sx, sy, kx, ky) {
                    assert(kdx / 6 < i);
                }
            }
        }
    }
}

/// The colour of the status screen's background.
pub const SCREEN_GREY: u32 = 0xCCCCCCFF;

/// The colour of the status screen's text.
pub const SCREEN_INK: u32 = 0x000000FF;

/// The status screen shown while no cartridge is loaded, at pixel `k` of a buffer of
/// `len` pixels in rows of `width`: grey, with three lines of black text.
pub open spec fn no_rom_pixel(width: int, len: int, k: int) -> u32 {
    let px = k % width;
    let py = k / width;
    if width > 0 && py < len / width && (text_lit("NO ROM LOADED"@, 12, 40, px, py)
        || text_lit("PRESS L TO LOAD ROM"@, 12, 60, px, py) || text_lit(
        "ESC TO QUIT"@,
        12,
        80,
        px,
        py,
    )) {
        SCREEN_INK
    } else {
        SCREEN_GREY
    }
}

/// Fills the buffer with the status screen shown while no cartridge is loaded.
pub fn render_no_rom_screen(buffer: &mut [u32], width: usize, _height: usize)
    requires
        width > 0,
    ensures
        final(buffer)@.len() == old(buffer)@.len(),
        forall|k: int|
            0 <= k < old(buffer)@.len() ==> #[trigger] final(buffer)@[k] == no_rom_pixel(
                width as int,
                old(buffer)@.len() as int,
                k,
            ),
{
    let len = buffer.len();
    let mut k: usize = 0;
    while k < len
        invariant
            buffer@.len() == len,
            k <= len,
            forall|j: int| 0 <= j < k ==> #[trigger] buffer@[j] == SCREEN_GREY,
        decreases len - k,
    {
        buffer[k] = SCREEN_GREY;
        k = k + 1;
    }
    proof {
        reveal_strlit("NO ROM LOADED");
        reveal_strlit("PRESS L TO LOAD ROM");
        reveal_strlit("ESC TO QUIT");
    }
    draw_text(buffer, width, 12, 40, "NO ROM LOADED", SCREEN_INK);
    draw_text(buffer, width, 12, 60, "PRESS L TO LOAD ROM", SCREEN_INK);
    draw_text(buffer, width, 12, 80, "ESC TO QUIT", SCREEN_INK);
}

/// The colour of a Game Boy shade, from white (0) to black (3).
pub open spec fn shade_rgb(shade: u8) -> u32 {
    if shade == 0 {
        0x00FFFFFF
    } else if shade == 1 {
        0x00AAAAAA
    } else if shade == 2 {
        0x00555555
    } else {
        0x00000000
    }
}

/// The colour of a Game Boy shade, from white (0) to black (3).
pub fn shade_color(shade: u8) -> (rgb: u32)
    requires
        shade < 4,
    ensures
        rgb == shade_rgb(shade),
{
    if shade == 0 {
        0x00FFFFFF
    } else if shade == 1 {
        0x00AAAAAA
    } else if shade == 2 {
        0x00555555
    } else {
        0x00000000
    }
}

/// Writes the colours of a frame of shades into the front of the buffer.
pub fn present_frame(frame: &[u8], buffer: &mut [u32])
    requires
        frame@.len() <= old(buffer)@.len(),
        forall|i: int| 0 <= i < frame@.len() ==> #[trigger] frame@[i] < 4,
    ensures
        final(buffer)@.len() == old(buffer)@.len(),
        forall|i: int| 0 <= i < frame@.len() ==> #[trigger] final(buffer)@[i] == shade_rgb(frame@[i]),
        forall|i: int|
            frame@.len() <= i < old(buffer)@.len() ==> #[trigger] final(buffer)@[i] == old(buffer)@[i],
{
    let ghost old_buf = buffer@;
    let mut i: usize = 0;
    while i < frame.len()
        invariant
            frame@.len() <= buffer@.len(),
            buffer@.len() == old_buf.len(),
            i <= frame@.len(),
            forall|j: int| 0 <= j < frame@.len() ==> #[trigger] frame@[j] < 4,
            forall|j: int| 0 <= j < i ==> #[trigger] buffer@[j] == shade_rgb(frame@[j]),
            forall|j: int| i <= j < buffer@.len() ==> #[trigger] buffer@[j] == old_buf[j],
        decreases frame@.len() - i,
    {
        buffer[i] = shade_color(frame[i]);
        i = i + 1;
    }
}

/// The joypad bit of the A button.
pub const BTN_A: u8 = 0x01;

/// The joypad bit of the B button.
pub const BTN_B: u8 = 0x02;

/// The joypad bit of the Select button.
pub const BTN_SELECT: u8 = 0x04;

/// The joypad bit of the Start button.
pub const BTN_START: u8 = 0x08;

/// The joypad bit of right on the pad.
pub const BTN_RIGHT: u8 = 0x10;

/// The joypad bit of left on the pad.
pub const BTN_LEFT: u8 = 0x20;

/// The joypad bit of up on the pad.
pub const BTN_UP: u8 = 0x40;

/// The joypad bit of down on the pad.
pub const BTN_DOWN: u8 = 0x80;

/// The joypad byte with the bit of each pressed button set.
pub open spec fn key_mask(
    a: bool,
    b: bool,
    select: bool,
    start: bool,
    right: bool,
    left: bool,
    up: bool,
    down: bool,
) -> int {
    (if a { BTN_A as int } else { 0 }) + (if b { BTN_B as int } else { 0 }) + (if select {
        BTN_SELECT as int
    } else {
        0
    }) + (if start { BTN_START as int } else { 0 }) + (if right { BTN_RIGHT as int } else { 0 })
        + (if left { BTN_LEFT as int } else { 0 }) + (if up { BTN_UP as int } else { 0 }) + (if down {
        BTN_DOWN as int
    } else {
        0
    })
}

/// The joypad byte for the buttons held down: A, B, Select, Start, right, left, up
/// and down give bits 0 to 7.
pub fn buttons_from_keys(
    a: bool,
    b: bool,
    select: bool,
    start: bool,
    right: bool,
    left: bool,
    up: bool,
    down: bool,
) -> (buttons: u8)
    ensures
        buttons == key_mask(a, b, select, start, right, left, up, down),
{
    let mut buttons: u8 = 0;
    if a {
        buttons = buttons + BTN_A;
    }
    if b {
        buttons = buttons + BTN_B;
    }
    if select {
        buttons = buttons + BTN_SELECT;
    }
    if start {
        buttons = buttons + BTN_START;
    }
    if right {
        buttons = buttons + BTN_RIGHT;
    }
    if left {
        buttons = buttons + BTN_LEFT;
    }
    if up {
        buttons = buttons + BTN_UP;
    }
    if down {
        buttons = buttons + BTN_DOWN;
    }
    buttons
}

} // verus!
