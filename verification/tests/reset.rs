//! Console reset: devices return to defaults, the cartridge and onboard
//! RAM persist, and resetting twice changes nothing more.

use gameboy_core::cart::Cartridge;
use gameboy_core::dmg::GameBoy;
use gameboy_core::header;

fn setup() -> GameBoy {
    let mut rom = vec![0u8; 0x8000];
    let logo = header::logo();
    for i in 0..48 {
        rom[0x104 + i] = logo[i];
    }
    rom[0x147] = 0x08; // ROM with RAM
    rom[0x149] = 0x02; // 8 KiB
    let mut chk: u8 = 0;
    for i in 0x134..=0x14c {
        chk = chk.wrapping_sub(rom[i]).wrapping_sub(1);
    }
    rom[0x14d] = chk;
    let cart = Cartridge::new(&rom).unwrap();
    GameBoy::new(cart)
}

/// Every bus byte a freshly reset console serves.
fn snapshot(gb: &GameBoy) -> Vec<u8> {
    (0u32..0x1_0000).map(|a| gb.read(a as u16)).collect()
}

#[test]
fn reset_is_idempotent() {
    let mut gb = setup();
    // Disturb a bit of everything.
    gb.write(0xff50, 0x01);
    gb.write(0xc123, 0x55);
    gb.write(0xa042, 0x66);
    gb.write(0xff05, 0x99);
    gb.write(0xff40, 0x91);
    gb.cpu.pc = 0x1234;
    for _ in 0..1000 {
        gb.cycle().unwrap();
    }

    gb.reset();
    let once = snapshot(&gb);
    let cpu_once = gb.cpu;
    gb.reset();
    let twice = snapshot(&gb);
    assert_eq!(once, twice);
    assert_eq!(cpu_once, gb.cpu);
}

#[test]
fn reset_preserves_cartridge_ram_and_wram() {
    let mut gb = setup();
    gb.write(0xa042, 0x66);
    gb.write(0xc123, 0x55);
    gb.reset();
    // The boot ROM shadows the low page again.
    assert_eq!(gb.read(0x0000), 0x31);
    assert_eq!(gb.read(0xff50), 0x00);
    // External RAM and work RAM contents survive.
    assert_eq!(gb.read(0xa042), 0x66);
    assert_eq!(gb.read(0xc123), 0x55);
    // The timer and interrupt registers land on their defaults.
    assert_eq!(gb.read(0xff05), 0x00);
    assert_eq!(gb.read(0xff0f), 0x00);
    assert_eq!(gb.read(0xffff), 0x00);
}
