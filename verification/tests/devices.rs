//! Small devices and option plumbing.

use gameboy_core::cli::{freq_of, Speed, DIVIDER, FREQ};
use gameboy_core::dmg::palette;
use gameboy_core::pic::{Interrupt, Pic};
use gameboy_core::screen::Resolution;
use gameboy_core::serial::Serial;

#[test]
fn resolution_depth_works() {
    let res = Resolution { width: 160, height: 144 };
    assert_eq!(res.depth(), 23040);
    let huge = Resolution { width: usize::MAX, height: 2 };
    assert_eq!(huge.depth(), usize::MAX);
}

#[test]
fn freq_of_selects_speed() {
    assert_eq!(freq_of(Speed::Half), FREQ / 2);
    assert_eq!(freq_of(Speed::Full), 4194304);
    assert_eq!(freq_of(Speed::Double), 2 * FREQ);
    assert_eq!(freq_of(Speed::Triple), 3 * FREQ);
    assert_eq!(freq_of(Speed::Max), DIVIDER);
    assert_eq!(freq_of(Speed::Custom(123456)), 123456);
}

#[test]
fn palette_maps_shades() {
    assert_eq!(palette(0), 0xe9efec);
    assert_eq!(palette(1), 0xa0a08b);
    assert_eq!(palette(2), 0x555568);
    assert_eq!(palette(3), 0x211e20);
}

#[test]
fn pic_priority_and_masking() {
    let mut pic = Pic::new();
    assert!(pic.pending_int().is_none());
    pic.req(Interrupt::Timer);
    // Requested but not enabled: nothing pending.
    assert!(pic.pending_int().is_none());
    pic.enable = 0x1f;
    assert_eq!(pic.pending_int(), Some(Interrupt::Timer));
    // A lower-index source wins.
    pic.req(Interrupt::VBlank);
    assert_eq!(pic.pending_int(), Some(Interrupt::VBlank));
    pic.ack(Interrupt::VBlank);
    assert_eq!(pic.pending_int(), Some(Interrupt::Timer));
    assert_eq!(pic.active & 0x01, 0);
}

#[test]
fn interrupt_vectors() {
    assert_eq!(Interrupt::VBlank.vector(), 0x40);
    assert_eq!(Interrupt::LcdStat.vector(), 0x48);
    assert_eq!(Interrupt::Timer.vector(), 0x50);
    assert_eq!(Interrupt::Serial.vector(), 0x58);
    assert_eq!(Interrupt::Joypad.vector(), 0x60);
}

#[test]
fn serial_stores_registers() {
    let mut s = Serial::new();
    s.write(0, 0x5a);
    s.write(1, 0x81);
    assert_eq!(s.read(0), 0x5a);
    assert_eq!(s.read(1), 0x81);
    s.reset();
    assert_eq!(s.read(0), 0);
}
