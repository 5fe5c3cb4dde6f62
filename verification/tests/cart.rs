//! Cartridge construction: header parsing, sizing, and its error paths.

use gameboy_core::cart::{Cartridge, Error};
use gameboy_core::header::{self, Header, Kind};
use gameboy_core::mbc::Mbc;

/// A blank image of `len` bytes with a parseable header: cartridge kind
/// `kind`, ROM size code `romsz`, RAM size code `ramsz`, the boot logo in
/// place, and a matching header checksum.
fn bytes_of(len: usize, kind: u8, romsz: u8, ramsz: u8) -> Vec<u8> {
    let mut rom = vec![0u8; len];
    let logo = header::logo();
    for i in 0..48 {
        rom[0x104 + i] = logo[i];
    }
    rom[0x147] = kind;
    rom[0x148] = romsz;
    rom[0x149] = ramsz;
    let mut chk: u8 = 0;
    for i in 0x134..=0x14c {
        chk = chk.wrapping_sub(rom[i]).wrapping_sub(1);
    }
    rom[0x14d] = chk;
    rom
}

/// Construction succeeds for every declared ROM size from 32 KiB to
/// 8 MiB, and the assembled ROM serves its own bytes.
#[test]
fn new_works_for_every_rom_size() {
    for code in 0u8..=8 {
        let size = 0x8000usize << code;
        let mut rom = bytes_of(size, 0x00, code, 0x00);
        rom[0x100] = 0xc3;
        // The checksum area is outside 0x100, so it still matches.
        let cart = Cartridge::new(&rom).expect("a valid header must parse");
        assert_eq!(cart.rom_read(0x0100), rom[0x100]);
        assert_eq!(cart.header().romsz, size);
    }
}

#[test]
fn new_pads_short_images() {
    // A 0x150-byte image declared as 32 KiB is padded with 0xff.
    let rom = bytes_of(0x150, 0x00, 0x00, 0x00);
    let cart = Cartridge::new(&rom).unwrap();
    assert_eq!(cart.rom_read(0x4000), 0xff);
    assert_eq!(cart.rom_read(0x7fff), 0xff);
}

#[test]
fn new_rejects_short_images() {
    let rom = vec![0u8; 0x14f];
    assert_eq!(Cartridge::new(&rom).unwrap_err(), Error::Header(header::Error::Missing));
}

#[test]
fn new_rejects_unknown_kind() {
    let rom = bytes_of(0x8000, 0x42, 0x00, 0x00);
    assert_eq!(Cartridge::new(&rom).unwrap_err(), Error::Header(header::Error::Kind(0x42)));
}

#[test]
fn new_rejects_bad_rom_size_code() {
    let rom = bytes_of(0x8000, 0x00, 0x09, 0x00);
    assert_eq!(Cartridge::new(&rom).unwrap_err(), Error::Header(header::Error::RomSize(0x09)));
}

#[test]
fn new_rejects_bad_ram_size_code() {
    let rom = bytes_of(0x8000, 0x00, 0x00, 0x01);
    assert_eq!(Cartridge::new(&rom).unwrap_err(), Error::Header(header::Error::RamSize(0x01)));
}

#[test]
fn new_rejects_bad_checksum() {
    let mut rom = bytes_of(0x8000, 0x00, 0x00, 0x00);
    rom[0x14d] = rom[0x14d].wrapping_add(1);
    assert_eq!(Cartridge::new(&rom).unwrap_err(), Error::Header(header::Error::Checksum));
}

#[test]
fn new_rejects_unimplemented_controller() {
    // MBC3 parses but has no controller implementation.
    let rom = bytes_of(0x8000, 0x11, 0x00, 0x00);
    assert_eq!(
        Cartridge::new(&rom).unwrap_err(),
        Error::Unimplemented(Kind::Mbc3 { ram: false, bat: false, rtc: false }),
    );
}

#[test]
fn checked_rejects_size_mismatch() {
    // Valid header and checksums, but the image is shorter than declared.
    let mut rom = bytes_of(0x150, 0x00, 0x00, 0x00);
    let mut sum: u16 = 0;
    for (i, b) in rom.iter().enumerate() {
        if i != 0x14e && i != 0x14f {
            sum = sum.wrapping_add(*b as u16);
        }
    }
    rom[0x14e] = (sum / 256) as u8;
    rom[0x14f] = (sum % 256) as u8;
    assert_eq!(
        Cartridge::checked(&rom).unwrap_err(),
        Error::Mismatch { declared: 0x8000, found: 0x150 },
    );
}

#[test]
fn checked_rejects_bad_logo() {
    let mut rom = bytes_of(0x8000, 0x00, 0x00, 0x00);
    rom[0x104] = 0x00;
    // The logo byte sits outside the checksummed area, so only the logo
    // check fires.
    assert_eq!(Cartridge::checked(&rom).unwrap_err(), Error::Header(header::Error::Logo));
}

#[test]
fn checked_rejects_bad_global_checksum() {
    let rom = bytes_of(0x8000, 0x00, 0x00, 0x00);
    // The stored global checksum is zero but the logo bytes sum to more.
    assert_eq!(
        Cartridge::checked(&rom).unwrap_err(),
        Error::Header(header::Error::GlobalChecksum),
    );
}

#[test]
fn checked_accepts_consistent_image() {
    let mut rom = bytes_of(0x8000, 0x00, 0x00, 0x00);
    let mut sum: u16 = 0;
    for (i, b) in rom.iter().enumerate() {
        if i != 0x14e && i != 0x14f {
            sum = sum.wrapping_add(*b as u16);
        }
    }
    rom[0x14e] = (sum / 256) as u8;
    rom[0x14f] = (sum % 256) as u8;
    let cart = Cartridge::checked(&rom).unwrap();
    assert!(cart.header().logo_ok);
    assert!(cart.header().gchk_ok);
}

#[test]
fn unchecked_accepts_garbage() {
    let rom = vec![0x55u8; 0x200];
    let cart = Cartridge::unchecked(&rom);
    // The blank header declares 32 KiB of ROM without a controller.
    assert_eq!(cart.header().romsz, 0x8000);
    assert_eq!(cart.mbc, Mbc::Raw);
    assert_eq!(cart.rom_read(0x0000), 0x55);
    assert_eq!(cart.rom_read(0x0200), 0xff);
}

#[test]
fn blank_reads_garbage() {
    let cart = Cartridge::blank();
    assert_eq!(cart.rom_read(0x0000), 0xff);
    assert_eq!(cart.ram_read(0x0000), 0xff);
}

/// The header checksum formula on a known header: with the summed area
/// all zero, the stored byte must be `-25 mod 256`.
#[test]
fn header_checksum_known_value() {
    let rom = bytes_of(0x8000, 0x00, 0x00, 0x00);
    assert_eq!(rom[0x14d], 0xe7);
    assert!(Cartridge::new(&rom).is_ok());
}

#[test]
fn header_blank_fields() {
    let h = Header::blank();
    assert_eq!(h.cart, Kind::Raw { ram: false, bat: false });
    assert_eq!(h.romsz, 0x8000);
    assert_eq!(h.ramsz, 0);
}
