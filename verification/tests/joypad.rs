//! Joypad matrix and interrupt edge.

use gameboy_core::cart::Cartridge;
use gameboy_core::dmg::GameBoy;
use gameboy_core::header;
use gameboy_core::joypad::Button;

fn setup() -> GameBoy {
    let mut rom = vec![0u8; 0x8000];
    let logo = header::logo();
    for i in 0..48 {
        rom[0x104 + i] = logo[i];
    }
    let mut chk: u8 = 0;
    for i in 0x134..=0x14c {
        chk = chk.wrapping_sub(rom[i]).wrapping_sub(1);
    }
    rom[0x14d] = chk;
    let cart = Cartridge::new(&rom).unwrap();
    let mut gb = GameBoy::new(cart);
    gb.write(0xff50, 0x01);
    gb.cpu.halted = true;
    gb
}

/// With no row selected and nothing pressed, the register reads its idle
/// pattern: both high bits set, select bits as written, low nibble high.
#[test]
fn p1_idle_reads_high() {
    let mut gb = setup();
    gb.write(0xff00, 0x30);
    assert_eq!(gb.read(0xff00), 0xff);
}

/// Selecting the direction row shows pressed directions active low.
#[test]
fn p1_direction_row() {
    let mut gb = setup();
    gb.write(0xff00, 0x20); // bit 4 low: directions selected
    gb.send(&vec![Button::Right, Button::Up]);
    // Right is bit 0, Up bit 2: both read low.
    assert_eq!(gb.read(0xff00), 0xc0 | 0x20 | 0b1010);
}

/// Selecting the action row shows pressed actions active low.
#[test]
fn p1_action_row() {
    let mut gb = setup();
    gb.write(0xff00, 0x10); // bit 5 low: actions selected
    gb.send(&vec![Button::A, Button::Start]);
    // A is bit 0, Start bit 3.
    assert_eq!(gb.read(0xff00), 0xc0 | 0x10 | 0b0110);
}

/// A newly pressed selected button raises the joypad interrupt flag.
#[test]
fn press_requests_interrupt() {
    let mut gb = setup();
    gb.write(0xff00, 0x20);
    assert_eq!(gb.read(0xff0f) & 0x10, 0);
    gb.send(&vec![Button::Left]);
    assert_ne!(gb.read(0xff0f) & 0x10, 0);
}

/// Releasing buttons raises no edge.
#[test]
fn release_requests_nothing() {
    let mut gb = setup();
    gb.write(0xff00, 0x20);
    gb.send(&vec![Button::Left]);
    gb.write(0xff0f, 0x00);
    gb.send(&vec![]);
    assert_eq!(gb.read(0xff0f) & 0x10, 0);
}
