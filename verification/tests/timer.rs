//! Timer behaviour: divider, selected-bit increments, and the delayed
//! overflow reload.

use gameboy_core::cart::Cartridge;
use gameboy_core::dmg::GameBoy;
use gameboy_core::header;

fn setup() -> GameBoy {
    let mut rom = vec![0u8; 0x8000];
    let logo = header::logo();
    for i in 0..48 {
        rom[0x104 + i] = logo[i];
    }
    let mut chk: u8 = 0;
    for i in 0x134..=0x14c {
        chk = chk.wrapping_sub(rom[i]).wrapping_sub(1);
    }
    rom[0x14d] = chk;
    let cart = Cartridge::new(&rom).unwrap();
    let mut gb = GameBoy::new(cart);
    gb.write(0xff50, 0x01);
    // Park the processor so only the timer acts.
    gb.cpu.halted = true;
    gb
}

/// The timer-overflow scenario: with the fastest mode enabled and `TIMA`
/// at its ceiling, the cycle after the overflow loads `TMA` and raises
/// the timer interrupt flag.
#[test]
fn timer_overflow_reloads_and_interrupts() {
    let mut gb = setup();
    gb.write(0xff07, 0x05); // enable, 262144 Hz mode
    gb.write(0xff05, 0xff); // TIMA
    gb.write(0xff06, 0x42); // TMA

    let mut seen = false;
    for _ in 0..64 {
        gb.cycle().unwrap();
        if gb.read(0xff05) == 0x42 && gb.read(0xff0f) & 0x04 != 0 {
            seen = true;
            break;
        }
    }
    assert!(seen, "the overflow must reload TMA and request the interrupt");
}

/// `DIV` advances every 256 ticks and a write resets it.
#[test]
fn div_counts_and_resets() {
    let mut gb = setup();
    assert_eq!(gb.read(0xff04), 0);
    for _ in 0..256 {
        gb.cycle().unwrap();
    }
    assert_eq!(gb.read(0xff04), 1);
    gb.write(0xff04, 0xaa);
    assert_eq!(gb.read(0xff04), 0);
}

/// In the 262144 Hz mode `TIMA` increments every sixteen ticks.
#[test]
fn tima_increments_at_selected_rate() {
    let mut gb = setup();
    gb.write(0xff07, 0x05);
    for _ in 0..160 {
        gb.cycle().unwrap();
    }
    assert_eq!(gb.read(0xff05), 10);
}

/// A `TIMA` write during the one-cycle reload delay cancels the reload.
#[test]
fn tima_write_cancels_reload() {
    let mut gb = setup();
    gb.write(0xff07, 0x05);
    gb.write(0xff06, 0x42);
    gb.write(0xff05, 0xff);
    // Tick up to the overflow: the falling edge lands within the first
    // sixteen ticks.
    let mut overflowed = false;
    for _ in 0..16 {
        gb.cycle().unwrap();
        if gb.read(0xff05) == 0x00 {
            overflowed = true;
            break;
        }
    }
    assert!(overflowed);
    // Cancel the pending reload.
    gb.write(0xff05, 0x07);
    gb.cycle().unwrap();
    assert_eq!(gb.read(0xff05), 0x07);
    assert_eq!(gb.read(0xff0f) & 0x04, 0);
}
