//! Boot ROM handoff: the start-up program runs to completion against a
//! valid cartridge and unmaps itself.

use gameboy_core::cart::Cartridge;
use gameboy_core::dmg::GameBoy;
use gameboy_core::header;

/// A valid 32 KiB cartridge: boot logo, matching header checksum, and a
/// recognisable first opcode.
fn valid_rom() -> Vec<u8> {
    let mut rom = vec![0u8; 0x8000];
    let logo = header::logo();
    for i in 0..48 {
        rom[0x104 + i] = logo[i];
    }
    rom[0x100] = 0x00; // NOP
    rom[0x101] = 0xc3; // JP 0x0150
    rom[0x102] = 0x50;
    rom[0x103] = 0x01;
    // Park the entry point in a tight loop.
    rom[0x150] = 0x18; // JR -2
    rom[0x151] = 0xfe;
    let mut chk: u8 = 0;
    for i in 0x134..=0x14c {
        chk = chk.wrapping_sub(rom[i]).wrapping_sub(1);
    }
    rom[0x14d] = chk;
    rom
}

/// The handoff scenario: before the boot program finishes, address zero
/// serves the boot byte; once `0xff50` reads one, the cartridge shows
/// through over the whole low page.
#[test]
fn boot_rom_handoff() {
    let rom = valid_rom();
    let cart = Cartridge::new(&rom).unwrap();
    let mut gb = GameBoy::new(cart);

    assert_eq!(gb.read(0x0000), 0x31, "the boot ROM's first byte");

    let mut done = false;
    for _ in 0..80_000_000u32 {
        gb.cycle().unwrap();
        if gb.read(0xff50) == 1 {
            done = true;
            break;
        }
    }
    assert!(done, "the boot program must finish and write 0xff50");
    assert_eq!(gb.read(0x0000), rom[0]);
    assert_eq!(gb.read(0x0100), rom[0x100]);
}
