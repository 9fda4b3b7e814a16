use gb_gba_emu::frontend::{
    buttons_from_keys, char_bitmap, draw_text, present_frame, render_no_rom_screen, shade_color,
    BTN_A, BTN_DOWN, BTN_START, SCREEN_GREY, SCREEN_INK,
};

#[test]
fn char_bitmap_known_and_unknown_characters() {
    assert_eq!(char_bitmap('A'), [0x7C, 0x12, 0x11, 0x12, 0x7C]);
    assert_eq!(char_bitmap('T'), [0x01, 0x01, 0x7F, 0x01, 0x01]);
    assert_eq!(char_bitmap(' '), [0; 5]);
    assert_eq!(char_bitmap('z'), [0; 5]);
}

#[test]
fn draw_text_sets_the_bits_of_the_glyph() {
    let width = 10;
    let mut buffer = vec![0u32; width * 8];
    draw_text(&mut buffer, width, 1, 0, "L", 7);
    // 'L' is a full left column and a bottom row.
    for row in 0..7 {
        assert_eq!(buffer[row * width + 1], 7);
    }
    for column in 1..6 {
        assert_eq!(buffer[6 * width + column], 7);
    }
    assert_eq!(buffer[0], 0);
    assert_eq!(buffer[2], 0);
    assert_eq!(buffer[7 * width + 1], 0);
}

#[test]
fn draw_text_advances_six_columns_per_character() {
    let width = 20;
    let mut buffer = vec![0u32; width * 7];
    draw_text(&mut buffer, width, 0, 0, " I", 9);
    // The stem of 'I' is its middle column: 6 + 2.
    for row in 0..7 {
        assert_eq!(buffer[row * width + 8], 9);
    }
    for column in 0..6 {
        assert_eq!(buffer[column], 0);
    }
}

#[test]
fn draw_text_clips_at_the_right_edge_and_the_last_full_row() {
    let width = 3;
    let mut buffer = vec![5u32; width * 4 + 2];
    draw_text(&mut buffer, width, 0, 0, "L", 1);
    // Columns 0..3 of rows 0..4 are inside; the two pixels of the partial row stay.
    for row in 0..4 {
        assert_eq!(buffer[row * width], 1);
    }
    assert_eq!(buffer[width * 4], 5);
    assert_eq!(buffer[width * 4 + 1], 5);
}

#[test]
fn no_rom_screen_is_grey_with_black_text() {
    let (width, height) = (160, 144);
    let mut buffer = vec![0u32; width * height];
    render_no_rom_screen(&mut buffer, width, height);
    assert_eq!(buffer[0], SCREEN_GREY);
    // The left column of 'N' at (12, 40).
    assert_eq!(buffer[40 * width + 12], SCREEN_INK);
    // The left column of 'P' at (12, 60) and of 'E' at (12, 80).
    assert_eq!(buffer[60 * width + 12], SCREEN_INK);
    assert_eq!(buffer[80 * width + 12], SCREEN_INK);
    assert_eq!(buffer[100 * width + 12], SCREEN_GREY);
    let inked = buffer.iter().filter(|&&p| p == SCREEN_INK).count();
    assert!(inked > 0);
    assert!(buffer.iter().all(|&p| p == SCREEN_INK || p == SCREEN_GREY));
}

#[test]
fn shades_map_to_the_four_greys() {
    assert_eq!(shade_color(0), 0x00FFFFFF);
    assert_eq!(shade_color(1), 0x00AAAAAA);
    assert_eq!(shade_color(2), 0x00555555);
    assert_eq!(shade_color(3), 0x00000000);
}

#[test]
fn present_frame_writes_the_front_of_the_buffer() {
    let frame = [3u8, 0, 2];
    let mut buffer = vec![1u32; 4];
    present_frame(&frame, &mut buffer);
    assert_eq!(buffer, vec![0x00000000, 0x00FFFFFF, 0x00555555, 1]);
}

#[test]
fn buttons_from_keys_sets_one_bit_per_key() {
    assert_eq!(buttons_from_keys(false, false, false, false, false, false, false, false), 0);
    assert_eq!(buttons_from_keys(true, false, false, true, false, false, false, true), BTN_A | BTN_START | BTN_DOWN);
    assert_eq!(buttons_from_keys(true, true, true, true, true, true, true, true), 0xFF);
}
