//! Pixel composition: background tiles, the window overlay, sprites with
//! transparency and flipping.

use mcugb::gb::GB;

const SHADE0: (u8, u8) = (0x9c, 0xe7);
const SHADE1: (u8, u8) = (0x08, 0x97);
const SHADE2: (u8, u8) = (0x31, 0x44);

fn boot() -> (GB, Vec<u8>) {
    let mut gb = GB::with_rom(vec![0u8; 0x8000]).unwrap();
    gb.reset();
    (gb, vec![0u8; 0x20000])
}

fn run_frame(gb: &mut GB, buf: &mut Vec<u8>) {
    loop {
        let (_, redraw) = gb.step(buf);
        if redraw {
            return;
        }
    }
}

fn pixel(buf: &[u8], x: usize, y: usize) -> (u8, u8) {
    (buf[(y * 256 + x) * 2], buf[(y * 256 + x) * 2 + 1])
}

#[test]
fn background_tile_pixels() {
    let (mut gb, mut buf) = boot();
    // tile 1: row 0 shows shade 1 in its leftmost pixel, row 1 shade 2
    gb.mem.write8(0x8010, 0x80);
    gb.mem.write8(0x8011, 0x00);
    gb.mem.write8(0x8012, 0x00);
    gb.mem.write8(0x8013, 0x80);
    // map cell (0, 0) shows tile 1
    gb.mem.write8(0x9800, 1);
    run_frame(&mut gb, &mut buf);
    assert_eq!(pixel(&buf, 0, 0), SHADE1);
    assert_eq!(pixel(&buf, 0, 1), SHADE2);
    assert_eq!(pixel(&buf, 1, 0), SHADE0);
    assert_eq!(pixel(&buf, 8, 0), SHADE0);
}

#[test]
fn background_scroll_wraps() {
    let (mut gb, mut buf) = boot();
    gb.mem.write8(0x8010, 0x80);
    gb.mem.write8(0x8011, 0x00);
    gb.mem.write8(0x9800, 1);
    // scrolling right by one moves the cell's pixels left by one, wrapping
    gb.mem.write8(0xff43, 1);
    run_frame(&mut gb, &mut buf);
    assert_eq!(pixel(&buf, 255, 0), SHADE1);
    assert_eq!(pixel(&buf, 0, 0), SHADE0);
}

#[test]
fn window_draws_over_background() {
    let (mut gb, mut buf) = boot();
    // tile 1 shows shade 1 in its top-left pixel
    gb.mem.write8(0x8010, 0x80);
    // the window map at 0x9C00 shows tile 1 in its first cell
    gb.mem.write8(0x9c00, 1);
    // window on (bit 5) with the 0x9C00 map (bit 6), origin (0, 0)
    gb.mem.write8(0xff4b, 7);
    gb.mem.write8(0xff4a, 0);
    gb.mem.write8(0xff40, 0xf1);
    run_frame(&mut gb, &mut buf);
    assert_eq!(pixel(&buf, 0, 0), SHADE1);
    assert_eq!(pixel(&buf, 1, 0), SHADE0);
}

#[test]
fn window_outside_visible_area_is_skipped() {
    let (mut gb, mut buf) = boot();
    gb.mem.write8(0x8010, 0x80);
    gb.mem.write8(0x9c00, 1);
    // the window origin sits below the visible area
    gb.mem.write8(0xff4b, 7);
    gb.mem.write8(0xff4a, 150);
    gb.mem.write8(0xff40, 0xf1);
    run_frame(&mut gb, &mut buf);
    assert_eq!(pixel(&buf, 0, 150), SHADE0);
}

#[test]
fn sprite_pixels_and_transparency() {
    let (mut gb, mut buf) = boot();
    // tile 1: shade 1 in the top-left pixel, the rest transparent
    gb.mem.write8(0x8010, 0x80);
    // one sprite at screen (0, 0) showing tile 1
    gb.mem.write8(0xfe00, 16);
    gb.mem.write8(0xfe01, 8);
    gb.mem.write8(0xfe02, 1);
    gb.mem.write8(0xfe03, 0);
    // sprites on
    gb.mem.write8(0xff40, 0x93);
    run_frame(&mut gb, &mut buf);
    assert_eq!(pixel(&buf, 0, 0), SHADE1);
    // shade 0 of a sprite is transparent: the background stays
    assert_eq!(pixel(&buf, 1, 0), SHADE0);
}

#[test]
fn sprite_horizontal_flip() {
    let (mut gb, mut buf) = boot();
    gb.mem.write8(0x8010, 0x80);
    gb.mem.write8(0xfe00, 16);
    gb.mem.write8(0xfe01, 8);
    gb.mem.write8(0xfe02, 1);
    gb.mem.write8(0xfe03, 0x20);
    gb.mem.write8(0xff40, 0x93);
    run_frame(&mut gb, &mut buf);
    // the leftmost tile pixel shows at column 7
    assert_eq!(pixel(&buf, 7, 0), SHADE1);
    assert_eq!(pixel(&buf, 0, 0), SHADE0);
}

#[test]
fn sprite_vertical_flip() {
    let (mut gb, mut buf) = boot();
    gb.mem.write8(0x8010, 0x80);
    gb.mem.write8(0xfe00, 16);
    gb.mem.write8(0xfe01, 8);
    gb.mem.write8(0xfe02, 1);
    gb.mem.write8(0xfe03, 0x40);
    gb.mem.write8(0xff40, 0x93);
    run_frame(&mut gb, &mut buf);
    // the top tile row shows at row 7
    assert_eq!(pixel(&buf, 0, 7), SHADE1);
    assert_eq!(pixel(&buf, 0, 0), SHADE0);
}

#[test]
fn double_height_sprite_draws_tile_pair() {
    let (mut gb, mut buf) = boot();
    // tiles 2 and 3: each shows shade 1 in its top-left pixel
    gb.mem.write8(0x8020, 0x80);
    gb.mem.write8(0x8030, 0x80);
    // an 8x16 sprite at (0, 0) names tile 3; the pair (2, 3) is drawn
    gb.mem.write8(0xfe00, 16);
    gb.mem.write8(0xfe01, 8);
    gb.mem.write8(0xfe02, 3);
    gb.mem.write8(0xfe03, 0);
    gb.mem.write8(0xff40, 0x97);
    run_frame(&mut gb, &mut buf);
    assert_eq!(pixel(&buf, 0, 0), SHADE1);
    assert_eq!(pixel(&buf, 0, 8), SHADE1);
}

#[test]
fn signed_tile_addressing() {
    let (mut gb, mut buf) = boot();
    // LCDC bit 4 clear: tile ids are signed around 0x9000; id 0xFF is
    // the tile at 0x8FF0
    gb.mem.write8(0x8ff0, 0x80);
    gb.mem.write8(0x9800, 0xff);
    gb.mem.write8(0xff40, 0x81);
    run_frame(&mut gb, &mut buf);
    assert_eq!(pixel(&buf, 0, 0), SHADE1);
}
