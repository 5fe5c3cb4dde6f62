//! PPU behaviour: counters, mode progression, palettes and frames.

use gameboy_core::cart::Cartridge;
use gameboy_core::dmg::GameBoy;
use gameboy_core::header;
use gameboy_core::ppu::{mix, Pixel, Ppu};
use gameboy_core::Color;

fn setup() -> GameBoy {
    let mut rom = vec![0u8; 0x8000];
    let logo = header::logo();
    for i in 0..48 {
        rom[0x104 + i] = logo[i];
    }
    let mut chk: u8 = 0;
    for i in 0x134..=0x14c {
        chk = chk.wrapping_sub(rom[i]).wrapping_sub(1);
    }
    rom[0x14d] = chk;
    let cart = Cartridge::new(&rom).unwrap();
    let mut gb = GameBoy::new(cart);
    gb.write(0xff50, 0x01);
    gb.cpu.halted = true;
    gb
}

/// The scanline and dot counters stay in range over many frames of
/// cycling, and the scanline wraps after the vertical blank.
#[test]
fn ly_and_dot_stay_in_range() {
    let mut gb = setup();
    gb.write(0xff40, 0x91); // enable the LCD
    for _ in 0..3 * 154 * 456 {
        gb.cycle().unwrap();
        assert!(gb.read(0xff44) < 154);
        assert!(gb.bus.ppu.dot < 456);
    }
}

/// One scanline lasts 456 dots; the vertical blank begins at line 144
/// and requests its interrupt.
#[test]
fn scanline_and_vblank_timing() {
    let mut gb = setup();
    gb.write(0xff40, 0x91);
    for _ in 0..456 {
        gb.cycle().unwrap();
    }
    assert_eq!(gb.read(0xff44), 1);
    for _ in 0..143 * 456 {
        gb.cycle().unwrap();
    }
    assert_eq!(gb.read(0xff44), 144);
    assert_ne!(gb.read(0xff0f) & 0x01, 0, "VBlank must be requested");
}

/// A full frame of cycling publishes a frame for redraw, exactly once.
#[test]
fn frame_publishes_once() {
    let mut gb = setup();
    gb.write(0xff40, 0x91);
    for _ in 0..145 * 456 {
        gb.cycle().unwrap();
    }
    let frame = gb.redraw().expect("a frame must await redraw");
    assert_eq!(frame.len(), 160 * 144);
    // The blank background colorizes through the lightest palette entry.
    assert!(frame.iter().all(|&px| px == 0xe9efec));
    assert!(gb.redraw().is_none());
}

/// Disabling the LCD parks the PPU at line zero.
#[test]
fn lcd_disable_resets_line() {
    let mut gb = setup();
    gb.write(0xff40, 0x91);
    for _ in 0..5 * 456 {
        gb.cycle().unwrap();
    }
    assert_eq!(gb.read(0xff44), 5);
    gb.write(0xff40, 0x11);
    assert_eq!(gb.read(0xff44), 0);
    assert_eq!(gb.bus.ppu.dot, 0);
}

/// Colorizing picks the two-bit shade the palette register assigns to
/// the pixel's colour index.
#[test]
fn color_uses_selected_palette() {
    let mut ppu = Ppu::new();
    ppu.bgp = 0b1110_0100; // identity for the background
    ppu.obp0 = 0b0001_1011; // reversed for the first object palette
    let bg = Pixel { col: 2, pal: 0, bgpri: false };
    assert_eq!(ppu.color(&bg), Color::C2);
    let ob = Pixel { col: 3, pal: 1, bgpri: false };
    assert_eq!(ppu.color(&ob), Color::C0);
    let ob1 = Pixel { col: 0, pal: 2, bgpri: false };
    ppu.obp1 = 0b0000_0011;
    assert_eq!(ppu.color(&ob1), Color::C3);
}

/// The pixel-priority rule: sprites win only when enabled, opaque, and
/// not deferring to a visible background pixel.
#[test]
fn mix_respects_priority() {
    let bg = Pixel { col: 2, pal: 0, bgpri: false };
    let obj = Pixel { col: 1, pal: 1, bgpri: false };
    let clear_obj = Pixel { col: 0, pal: 1, bgpri: false };
    let deferring = Pixel { col: 1, pal: 1, bgpri: true };
    // Sprites enabled (bit 1) and background enabled (bit 0).
    assert_eq!(mix(0x93, bg, obj), obj);
    // A transparent sprite pixel loses.
    assert_eq!(mix(0x93, bg, clear_obj), bg);
    // Background-over-object defers to a visible background pixel.
    assert_eq!(mix(0x93, bg, deferring), bg);
    // ... but wins over a blank one.
    let blank_bg = Pixel { col: 0, pal: 0, bgpri: false };
    assert_eq!(mix(0x93, blank_bg, deferring), deferring);
    // With sprites disabled the background always wins.
    assert_eq!(mix(0x91, bg, obj), bg);
    // With the background disabled its pixel blanks.
    assert_eq!(mix(0x92, bg, clear_obj), Pixel { col: 0, pal: 0, bgpri: false });
}

/// A sprite at the screen origin wins over a blank background and lands
/// its decoded pixels in the framebuffer through its own palette.
#[test]
fn sprite_reaches_framebuffer() {
    let mut gb = setup();
    // Tile 1: every row 0xff/0xff -> colour index 3 across the row.
    for row in 0..8u16 {
        gb.write(0x8010 + row * 2, 0xff);
        gb.write(0x8010 + row * 2 + 1, 0xff);
    }
    // One sprite at the top-left corner using tile 1 and OBP0.
    gb.write(0xfe00, 16); // y + 16
    gb.write(0xfe01, 8); // x + 8
    gb.write(0xfe02, 1); // tile
    gb.write(0xfe03, 0); // attributes
    gb.write(0xff48, 0b1110_0100); // identity object palette
    gb.write(0xff40, 0x93); // LCD on, sprites on, background on
    for _ in 0..2 * 456 {
        gb.cycle().unwrap();
    }
    assert_eq!(gb.bus.ppu.fbuf[0], 3);
    assert_eq!(gb.bus.ppu.fbuf[7], 3);
    // Past the sprite's eight columns the blank background shows.
    assert_eq!(gb.bus.ppu.fbuf[8], 0);
}

/// A background tile drawn at the screen origin lands its decoded pixels
/// in the framebuffer.
#[test]
fn background_tile_reaches_framebuffer() {
    let mut gb = setup();
    // Tile 0: every row 0xff/0x00 -> colour index 1 across the row.
    for row in 0..8u16 {
        gb.write(0x8000 + row * 2, 0xff);
        gb.write(0x8000 + row * 2 + 1, 0x00);
    }
    // Tile map at 0x9800 already points at tile 0.
    gb.write(0xff47, 0b1110_0100); // identity background palette
    gb.write(0xff40, 0x91); // LCD on, unsigned tile addressing, background on
    for _ in 0..2 * 456 {
        gb.cycle().unwrap();
    }
    // The first scanline is drawn: its pixels hold shade 1.
    assert_eq!(gb.bus.ppu.fbuf[0], 1);
    assert_eq!(gb.bus.ppu.fbuf[159], 1);
}
