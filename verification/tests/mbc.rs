//! Bank-controller behaviour on the bus.

use gameboy_core::cart::Cartridge;
use gameboy_core::dmg::GameBoy;
use gameboy_core::header;

/// A 256 KiB MBC1 image whose byte at offset `n * 0x4000` equals `n`,
/// with a parseable header.
fn banked_rom() -> Vec<u8> {
    let mut rom = vec![0u8; 0x4_0000];
    let logo = header::logo();
    for i in 0..48 {
        rom[0x104 + i] = logo[i];
    }
    rom[0x147] = 0x03; // MBC1 with RAM and battery
    rom[0x148] = 0x03; // 256 KiB
    rom[0x149] = 0x03; // 32 KiB of RAM
    let mut chk: u8 = 0;
    for i in 0x134..=0x14c {
        chk = chk.wrapping_sub(rom[i]).wrapping_sub(1);
    }
    rom[0x14d] = chk;
    for n in 0..16u8 {
        rom[(n as usize) * 0x4000] = n;
    }
    rom
}

fn setup() -> GameBoy {
    let cart = Cartridge::new(&banked_rom()).unwrap();
    let mut gb = GameBoy::new(cart);
    // Unmap the boot ROM so the low page reads the cartridge.
    gb.write(0xff50, 0x01);
    gb
}

/// The banking scenario: selecting bank 5 serves it in the switchable
/// window; combining high bank bits on a 256 KiB image masks to its
/// sixteen banks.
#[test]
fn mbc1_banking() {
    let mut gb = setup();

    // Select bank 5.
    gb.write(0x2100, 0x05);
    assert_eq!(gb.read(0x4000), 5);

    // RAM-banking mode, high bank bits 3, low bits 0 (promoted to 1):
    // the effective bank is (3 << 5 | 1) masked to 16 banks = bank 1.
    gb.write(0x6000, 0x01);
    gb.write(0x4000, 0x03);
    gb.write(0x2100, 0x00);
    assert_eq!(gb.read(0x4000), (3 * 32 + 1) % 16);
}

/// Round trip through the bank-select register for several written
/// values: the byte at `0x4000` is the ROM byte of the selected bank.
#[test]
fn mbc1_bank_select_round_trip() {
    let mut gb = setup();
    for v in [0x00u8, 0x01, 0x02, 0x07, 0x0f, 0x1f, 0x25, 0xff] {
        gb.write(0x2000, v);
        let lo = if v % 32 == 0 { 1 } else { v % 32 };
        let bank = (lo as usize) % 16;
        assert_eq!(gb.read(0x4000), bank as u8);
    }
}

/// Bank zero of the low-bank register is transparently remapped to one.
#[test]
fn mbc1_bank_zero_promotes_to_one() {
    let mut gb = setup();
    gb.write(0x2000, 0x00);
    assert_eq!(gb.read(0x4000), 1);
}

/// External RAM needs the enable register; disabled accesses read `0xff`
/// and drop writes.
#[test]
fn mbc1_ram_enable_gates_access() {
    let mut gb = setup();
    assert_eq!(gb.read(0xa000), 0xff);
    gb.write(0xa000, 0x12);
    assert_eq!(gb.read(0xa000), 0xff);

    gb.write(0x0000, 0x0a);
    gb.write(0xa000, 0x12);
    assert_eq!(gb.read(0xa000), 0x12);

    gb.write(0x0000, 0x00);
    assert_eq!(gb.read(0xa000), 0xff);
}

/// A 64 KiB MBC5 image: bank zero is selectable, and the nine-bit bank
/// register masks to the ROM's banks.
#[test]
fn mbc5_bank_select() {
    let mut rom = vec![0u8; 0x1_0000];
    let logo = header::logo();
    for i in 0..48 {
        rom[0x104 + i] = logo[i];
    }
    rom[0x147] = 0x19; // MBC5
    rom[0x148] = 0x01; // 64 KiB
    rom[0x149] = 0x00;
    let mut chk: u8 = 0;
    for i in 0x134..=0x14c {
        chk = chk.wrapping_sub(rom[i]).wrapping_sub(1);
    }
    rom[0x14d] = chk;
    for n in 0..4u8 {
        rom[(n as usize) * 0x4000] = n;
    }
    let cart = Cartridge::new(&rom).unwrap();
    let mut gb = GameBoy::new(cart);
    gb.write(0xff50, 0x01);

    // Bank 0 is selectable: no promotion.
    gb.write(0x2000, 0x00);
    assert_eq!(gb.read(0x4000), 0);
    gb.write(0x2000, 0x03);
    assert_eq!(gb.read(0x4000), 3);
    // The ninth bit masks away on a four-bank image.
    gb.write(0x3000, 0x01);
    assert_eq!(gb.read(0x4000), 3 % 4);
}
