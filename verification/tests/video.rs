//! Tests of the pixel processing unit: the scanline state machine's timing
//! and the per-line compositor for background, window and sprites.

use gameboy::ppu::{Mode, PPU};

const WHITE: u32 = 0xffffff;
const LIGHT: u32 = 0xaaaaaa;
const BLACK: u32 = 0x000000;

/// A unit with the LCD just enabled: sprite scan of line 0 begins.
fn lcd_on(extra_control: u8) -> PPU {
    let mut p = PPU::new();
    p.write_byte(0xff40, 0x80 | extra_control);
    p
}

/// Fill one tile's eight rows so that every pixel has color number `num`.
fn fill_tile(p: &mut PPU, base: u16, num: u8) {
    let d0 = if num & 2 != 0 { 0xff } else { 0x00 };
    let d1 = if num & 1 != 0 { 0xff } else { 0x00 };
    for row in 0..8u16 {
        p.write_byte(base + row * 2, d0);
        p.write_byte(base + row * 2 + 1, d1);
    }
}

/// Place sprite table entry `idx` at screen position `x` on line 0.
fn place_sprite(p: &mut PPU, idx: u16, screen_x: u8, tile: u8, flags: u8) {
    p.write_byte(0xfe00 + 4 * idx, 16); // raw Y: row range starts at line 0
    p.write_byte(0xfe00 + 4 * idx + 1, screen_x + 8);
    p.write_byte(0xfe00 + 4 * idx + 2, tile);
    p.write_byte(0xfe00 + 4 * idx + 3, flags);
}

#[test]
fn mode_sequence_of_one_line() {
    let mut p = lcd_on(0);
    assert_eq!(p.mode, Mode::AccessOAM);
    for _ in 0..20 {
        p.run(4); // 80 cycles of sprite scan
    }
    assert_eq!(p.mode, Mode::AccessVRAM);
    for _ in 0..43 {
        p.run(4); // 172 cycles of pixel transfer
    }
    assert_eq!(p.mode, Mode::HBlank);
    for _ in 0..51 {
        p.run(4); // 204 cycles of horizontal blank
    }
    assert_eq!(p.mode, Mode::AccessOAM);
    assert_eq!(p.ly, 1);
}

#[test]
fn frame_costs_exactly_70224_cycles() {
    // between two successive entries into sprite scan at line 0, the run
    // calls sum to exactly one frame
    let mut p = lcd_on(0);
    let mut total: u32 = 0;
    loop {
        p.run(4);
        total += 4;
        if p.mode == Mode::AccessOAM && p.ly == 0 && p.clocks == 0 {
            break;
        }
        assert!(total < 80000);
    }
    assert_eq!(total, 70224);
}

#[test]
fn vblank_starts_after_line_143_and_raises_its_interrupt() {
    let mut p = lcd_on(0);
    while p.ly < 144 {
        p.run(4);
    }
    assert_eq!(p.mode, Mode::VBlank);
    assert!(p.interrupt_vblank);
}

#[test]
fn line_compare_sets_the_flag_and_interrupts_when_armed() {
    let mut p = lcd_on(0);
    p.write_byte(0xff41, 0x40); // arm the line-compare interrupt
    p.write_byte(0xff45, 2);
    while p.ly < 2 {
        p.run(4);
    }
    assert!(p.stat & 0x04 != 0);
    assert!(p.interrupt_lcdc);
    p.interrupt_lcdc = false;
    while p.ly < 3 {
        p.run(4);
    }
    assert!(p.stat & 0x04 == 0); // no longer equal
}

#[test]
fn disabling_the_lcd_resets_line_and_cycles() {
    let mut p = lcd_on(0);
    for _ in 0..300 {
        p.run(4);
    }
    p.write_byte(0xff40, 0x00);
    assert_eq!(p.ly, 0);
    assert_eq!(p.clocks, 0);
    assert_eq!(p.mode, Mode::HBlank);
    p.run(24);
    assert_eq!(p.clocks, 0); // nothing moves with the LCD off
}

#[test]
fn oam_and_vram_are_blocked_outside_the_blanking_modes() {
    let mut p = PPU::new();
    p.write_byte(0x8123, 0x55);
    p.write_byte(0xfe12, 0x66);
    p.write_byte(0xff40, 0x80); // sprite scan begins
    assert_eq!(p.read_byte(0xfe12), 0xff); // sprite table blocked
    assert_eq!(p.read_byte(0x8123), 0x55); // video RAM still readable
    p.write_byte(0xfe12, 0x77); // ignored
    for _ in 0..20 {
        p.run(4); // into pixel transfer
    }
    assert_eq!(p.mode, Mode::AccessVRAM);
    assert_eq!(p.read_byte(0x8123), 0xff); // video RAM blocked
    p.write_byte(0xff40, 0x00);
    assert_eq!(p.read_byte(0xfe12), 0x66); // the blocked write never landed
}

#[test]
fn display_registers_read_back_with_stat_masked() {
    let mut p = PPU::new();
    p.write_byte(0xff41, 0xff);
    assert_eq!(p.read_byte(0xff41), 0x78); // only the four arm bits stick
    p.write_byte(0xff42, 0x12);
    p.write_byte(0xff43, 0x34);
    p.write_byte(0xff4a, 0x56);
    p.write_byte(0xff4b, 0x78);
    assert_eq!(p.read_byte(0xff42), 0x12);
    assert_eq!(p.read_byte(0xff43), 0x34);
    assert_eq!(p.read_byte(0xff4a), 0x56);
    assert_eq!(p.read_byte(0xff4b), 0x78);
    p.write_byte(0xff44, 0x99); // the line counter is read-only
    assert_eq!(p.read_byte(0xff44), 0x00);
}

#[test]
fn background_line_renders_through_the_palette() {
    let mut p = PPU::new();
    fill_tile(&mut p, 0x9000, 1); // tile 0, signed addressing
    p.write_byte(0xff47, 0b0000_0100); // background palette: 1 -> light gray
    p.write_byte(0xff40, 0x80 | 0x01); // LCD on, background on
    for _ in 0..20 {
        p.run(4); // render line 0 at pixel-transfer entry
    }
    for c in 0..160 {
        assert_eq!(p.frame_buffer[c], LIGHT);
    }
}

#[test]
fn background_color_zero_maps_to_white() {
    let mut p = PPU::new();
    p.write_byte(0xff47, 0b1110_0100); // identity-ish palette, 0 -> white
    p.write_byte(0xff40, 0x80 | 0x01);
    for _ in 0..20 {
        p.run(4);
    }
    for c in 0..160 {
        assert_eq!(p.frame_buffer[c], WHITE);
    }
}

#[test]
fn window_overwrites_from_its_left_edge() {
    let mut p = PPU::new();
    fill_tile(&mut p, 0x9000, 1);
    p.write_byte(0xff47, 0b0000_0100); // 1 -> light gray
    p.write_byte(0xff4a, 0); // window starts at the top
    p.write_byte(0xff4b, 10); // and at screen column 10 + 7
    p.write_byte(0xff40, 0x80 | 0x20); // LCD on, window on, background off
    for _ in 0..20 {
        p.run(4);
    }
    for c in 0..17 {
        assert_eq!(p.frame_buffer[c], 0); // untouched: background is off
    }
    for c in 17..160 {
        assert_eq!(p.frame_buffer[c], LIGHT);
    }
}

#[test]
fn two_sprites_paint_their_own_columns() {
    // screen X = 10 and 20, identical tiles; each covers its own eight
    // columns, so column 15 belongs to the X=10 sprite alone
    let mut p = PPU::new();
    fill_tile(&mut p, 0x1010 + 0x8000, 2); // tile 1, signed addressing
    p.write_byte(0xff48, 0b0001_0000); // sprite palette 0: 2 -> light gray
    p.write_byte(0xff49, 0b0011_0000); // sprite palette 1: 2 -> black
    place_sprite(&mut p, 0, 10, 1, 0x00);
    place_sprite(&mut p, 1, 20, 1, 0x10); // the other palette
    p.write_byte(0xff40, 0x80 | 0x02); // LCD on, sprites on
    for _ in 0..20 {
        p.run(4);
    }
    for c in 10..=17 {
        assert_eq!(p.frame_buffer[c], LIGHT);
    }
    assert_eq!(p.frame_buffer[15], LIGHT); // only the X=10 sprite is there
    for c in 20..=27 {
        assert_eq!(p.frame_buffer[c], BLACK);
    }
    assert_eq!(p.frame_buffer[18], 0);
    assert_eq!(p.frame_buffer[19], 0);
    assert_eq!(p.frame_buffer[9], 0);
}

#[test]
fn overlapping_sprites_resolve_by_smaller_x() {
    let mut p = PPU::new();
    fill_tile(&mut p, 0x1010 + 0x8000, 2);
    p.write_byte(0xff48, 0b0001_0000);
    p.write_byte(0xff49, 0b0011_0000);
    place_sprite(&mut p, 0, 12, 1, 0x10); // later in X but earlier in the table
    place_sprite(&mut p, 1, 10, 1, 0x00);
    p.write_byte(0xff40, 0x80 | 0x02);
    for _ in 0..20 {
        p.run(4);
    }
    for c in 10..=17 {
        assert_eq!(p.frame_buffer[c], LIGHT); // the X=10 sprite wins overlap
    }
    for c in 18..=19 {
        assert_eq!(p.frame_buffer[c], BLACK); // only the X=12 sprite reaches here
    }
}

#[test]
fn equal_x_resolves_by_the_earlier_table_entry() {
    let mut p = PPU::new();
    fill_tile(&mut p, 0x1010 + 0x8000, 2);
    p.write_byte(0xff48, 0b0001_0000);
    p.write_byte(0xff49, 0b0011_0000);
    place_sprite(&mut p, 0, 30, 1, 0x00);
    place_sprite(&mut p, 1, 30, 1, 0x10);
    p.write_byte(0xff40, 0x80 | 0x02);
    for _ in 0..20 {
        p.run(4);
    }
    for c in 30..=37 {
        assert_eq!(p.frame_buffer[c], LIGHT); // entry 0's palette
    }
}

#[test]
fn sprite_behind_background_defers_to_nonzero_background() {
    let mut p = PPU::new();
    fill_tile(&mut p, 0x9000, 1); // background tile 0, color number 1
    fill_tile(&mut p, 0x1010 + 0x8000, 2); // sprite tile
    p.write_byte(0xff47, 0b0000_0100); // background 1 -> light gray
    p.write_byte(0xff49, 0b0011_0000); // sprite palette 1: 2 -> black
    place_sprite(&mut p, 0, 40, 1, 0x80 | 0x10); // behind the background
    p.write_byte(0xff40, 0x80 | 0x02 | 0x01);
    for _ in 0..20 {
        p.run(4);
    }
    for c in 40..=47 {
        assert_eq!(p.frame_buffer[c], LIGHT); // background held its ground
    }
}

#[test]
fn transparent_sprite_pixels_leave_the_background() {
    let mut p = PPU::new();
    // tile 2 left all zero: every sprite pixel is color number 0
    p.write_byte(0xff49, 0b0011_0000);
    place_sprite(&mut p, 0, 50, 2, 0x10);
    p.write_byte(0xff40, 0x80 | 0x02);
    for _ in 0..20 {
        p.run(4);
    }
    for c in 50..=57 {
        assert_eq!(p.frame_buffer[c], 0); // nothing painted
    }
}

#[test]
fn at_most_ten_sprites_render_on_one_line() {
    let mut p = PPU::new();
    fill_tile(&mut p, 0x1010 + 0x8000, 2);
    p.write_byte(0xff48, 0b0001_0000); // 2 -> light gray
    for i in 0..12u16 {
        place_sprite(&mut p, i, (8 * i) as u8, 1, 0x00);
    }
    p.write_byte(0xff40, 0x80 | 0x02);
    for _ in 0..20 {
        p.run(4);
    }
    // the first ten table entries cover columns 0..80; the last two lost
    // their slots
    for c in 0..80 {
        assert_eq!(p.frame_buffer[c], LIGHT);
    }
    for c in 80..96 {
        assert_eq!(p.frame_buffer[c], 0);
    }
}

#[test]
fn background_scroll_picks_the_shifted_tile() {
    let mut p = PPU::new();
    // tile map row 0: entry 1 (columns 8..15 of the map) names tile 1
    p.write_byte(0x9801, 1);
    fill_tile(&mut p, 0x1010 + 0x8000, 1); // tile 1, signed addressing
    p.write_byte(0xff47, 0b0000_0100); // 1 -> light gray
    p.write_byte(0xff43, 8); // scroll one tile to the right
    p.write_byte(0xff40, 0x80 | 0x01);
    for _ in 0..20 {
        p.run(4);
    }
    // with SCX=8, screen columns 0..7 sample map entry 1
    for c in 0..8 {
        assert_eq!(p.frame_buffer[c], LIGHT);
    }
    for c in 8..16 {
        assert_eq!(p.frame_buffer[c], WHITE); // tile 0 is blank, color 0
    }
}

#[test]
fn sprite_x_flip_mirrors_the_tile() {
    let mut p = PPU::new();
    // tile 1 row 0: only the leftmost pixel is opaque
    p.write_byte(0x9010, 0x80);
    p.write_byte(0x9011, 0x00);
    p.write_byte(0xff48, 0b0001_0000); // 2 -> light gray
    place_sprite(&mut p, 0, 60, 1, 0x00);
    place_sprite(&mut p, 1, 80, 1, 0x20); // flipped horizontally
    p.write_byte(0xff40, 0x80 | 0x02);
    for _ in 0..20 {
        p.run(4);
    }
    assert_eq!(p.frame_buffer[60], LIGHT); // leftmost pixel
    assert_eq!(p.frame_buffer[61], 0);
    assert_eq!(p.frame_buffer[87], LIGHT); // mirrored to the rightmost
    assert_eq!(p.frame_buffer[80], 0);
}

#[test]
fn tall_sprites_pick_the_half_tile_by_row() {
    let mut p = PPU::new();
    // tiles 2 and 3: the even tile paints, the odd tile is blank
    fill_tile(&mut p, 0x1020 + 0x8000, 2);
    p.write_byte(0xff48, 0b0001_0000); // 2 -> light gray
    // raw Y = 9: rows 7..14 of the sprite land on lines 0..7, so line 0
    // shows the lower rows of the upper half-tile
    p.write_byte(0xfe00, 9);
    p.write_byte(0xfe01, 100 + 8);
    p.write_byte(0xfe02, 3); // in 8x16 mode bit 0 is ignored: upper is tile 2
    p.write_byte(0xfe03, 0x00);
    p.write_byte(0xff40, 0x80 | 0x02 | 0x04); // 8x16 sprites
    for _ in 0..20 {
        p.run(4);
    }
    assert_eq!(p.frame_buffer[100], LIGHT);
}

#[test]
fn writing_the_current_line_compare_value_still_recomputes() {
    let mut p = PPU::new();
    assert!(p.stat & 0x04 == 0);
    p.write_byte(0xff45, 0); // the line counter already equals 0
    assert!(p.stat & 0x04 != 0);
}

#[test]
fn lcd_toggle_resets_the_line_and_recomputes_the_compare() {
    let mut p = lcd_on(0);
    p.write_byte(0xff45, 5);
    while p.ly < 5 {
        p.run(4);
    }
    assert!(p.stat & 0x04 != 0);
    p.write_byte(0xff40, 0x00); // the line resets to 0, no longer equal
    assert!(p.stat & 0x04 == 0);
}
