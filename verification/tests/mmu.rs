//! Bus and boot-ROM behaviour, checked through the assembled console.

use gameboy_core::cart::Cartridge;
use gameboy_core::dmg::GameBoy;

/// A 32 KiB ROM-plus-RAM cartridge image with a valid header.
fn setup_rom() -> Vec<u8> {
    let rom: [u8; 0x150] = [
        0xc3, 0x8b, 0x02, 0x00, 0x00, 0x00, 0x00, 0x00, 0xc3, 0x8b, 0x02, 0xff,
        0xff, 0xff, 0xff, 0xff, 0xff, 0xff, 0xff, 0xff, 0xff, 0xff, 0xff, 0xff,
        0xff, 0xff, 0xff, 0xff, 0xff, 0xff, 0xff, 0xff, 0xff, 0xff, 0xff, 0xff,
        0xff, 0xff, 0xff, 0xff, 0x87, 0xe1, 0x5f, 0x16, 0x00, 0x19, 0x5e, 0x23,
        0x56, 0xd5, 0xe1, 0xe9, 0xff, 0xff, 0xff, 0xff, 0xff, 0xff, 0xff, 0xff,
        0xff, 0xff, 0xff, 0xff, 0xc3, 0xfd, 0x01, 0xff, 0xff, 0xff, 0xff, 0xff,
        0xc3, 0x12, 0x27, 0xff, 0xff, 0xff, 0xff, 0xff, 0xc3, 0x12, 0x27, 0xff,
        0xff, 0xff, 0xff, 0xff, 0xc3, 0x7e, 0x01, 0xff, 0xff, 0xff, 0xff, 0xff,
        0xff, 0xff, 0xff, 0xff, 0xff, 0xff, 0xff, 0xff, 0xff, 0xff, 0xff, 0xff,
        0xff, 0xff, 0xff, 0xff, 0xff, 0xff, 0xff, 0xff, 0xff, 0xff, 0xff, 0xff,
        0xff, 0xff, 0xff, 0xff, 0xff, 0xff, 0xff, 0xff, 0xff, 0xff, 0xff, 0xff,
        0xff, 0xff, 0xff, 0xff, 0xff, 0xff, 0xff, 0xff, 0xff, 0xff, 0xff, 0xff,
        0xff, 0xff, 0xff, 0xff, 0xff, 0xff, 0xff, 0xff, 0xff, 0xff, 0xff, 0xff,
        0xff, 0xff, 0xff, 0xff, 0xff, 0xff, 0xff, 0xff, 0xff, 0xff, 0xff, 0xff,
        0xff, 0xff, 0xff, 0xff, 0xff, 0xff, 0xff, 0xff, 0xff, 0xff, 0xff, 0xff,
        0xff, 0xff, 0xff, 0xff, 0xff, 0xff, 0xff, 0xff, 0xff, 0xff, 0xff, 0xff,
        0xff, 0xff, 0xff, 0xff, 0xff, 0xff, 0xff, 0xff, 0xff, 0xff, 0xff, 0xff,
        0xff, 0xff, 0xff, 0xff, 0xff, 0xff, 0xff, 0xff, 0xff, 0xff, 0xff, 0xff,
        0xff, 0xff, 0xff, 0xff, 0xff, 0xff, 0xff, 0xff, 0xff, 0xff, 0xff, 0xff,
        0xff, 0xff, 0xff, 0xff, 0xff, 0xff, 0xff, 0xff, 0xff, 0xff, 0xff, 0xff,
        0xff, 0xff, 0xff, 0xff, 0xff, 0xff, 0xff, 0xff, 0xff, 0xff, 0xff, 0xff,
        0xff, 0xff, 0xff, 0xff, 0x00, 0xc3, 0x50, 0x01, 0xce, 0xed, 0x66, 0x66,
        0xcc, 0x0d, 0x00, 0x0b, 0x03, 0x73, 0x00, 0x83, 0x00, 0x0c, 0x00, 0x0d,
        0x00, 0x08, 0x11, 0x1f, 0x88, 0x89, 0x00, 0x0e, 0xdc, 0xcc, 0x6e, 0xe6,
        0xdd, 0xdd, 0xd9, 0x99, 0xbb, 0xbb, 0x67, 0x63, 0x6e, 0x0e, 0xec, 0xcc,
        0xdd, 0xdc, 0x99, 0x9f, 0xbb, 0xb9, 0x33, 0x3e, 0x00, 0x00, 0x00, 0x00,
        0x00, 0x00, 0x00, 0x00, 0x00, 0x00, 0x00, 0x00, 0x00, 0x00, 0x00, 0x00,
        0x00, 0x00, 0x00, 0x08, 0x00, 0x02, 0x01, 0x00, 0x00, 0xdc, 0x31, 0xbb,
    ];
    rom.to_vec()
}

fn setup() -> GameBoy {
    let rom = setup_rom();
    let cart = Cartridge::new(&rom).unwrap();
    GameBoy::new(cart)
}

#[test]
fn boot_disable_works() {
    let mut gb = setup();

    // Ensure the boot ROM starts enabled: the low page reads its bytes.
    let boot: [u8; 0x100] = [
        0x31, 0xfe, 0xff, 0xaf, 0x21, 0xff, 0x9f, 0x32, 0xcb, 0x7c, 0x20, 0xfb,
        0x21, 0x26, 0xff, 0x0e, 0x11, 0x3e, 0x80, 0x32, 0xe2, 0x0c, 0x3e, 0xf3,
        0xe2, 0x32, 0x3e, 0x77, 0x77, 0x3e, 0xfc, 0xe0, 0x47, 0x11, 0x04, 0x01,
        0x21, 0x10, 0x80, 0x1a, 0xcd, 0x95, 0x00, 0xcd, 0x96, 0x00, 0x13, 0x7b,
        0xfe, 0x34, 0x20, 0xf3, 0x11, 0xd8, 0x00, 0x06, 0x08, 0x1a, 0x13, 0x22,
        0x23, 0x05, 0x20, 0xf9, 0x3e, 0x19, 0xea, 0x10, 0x99, 0x21, 0x2f, 0x99,
        0x0e, 0x0c, 0x3d, 0x28, 0x08, 0x32, 0x0d, 0x20, 0xf9, 0x2e, 0x0f, 0x18,
        0xf3, 0x67, 0x3e, 0x64, 0x57, 0xe0, 0x42, 0x3e, 0x91, 0xe0, 0x40, 0x04,
        0x1e, 0x02, 0x0e, 0x0c, 0xf0, 0x44, 0xfe, 0x90, 0x20, 0xfa, 0x0d, 0x20,
        0xf7, 0x1d, 0x20, 0xf2, 0x0e, 0x13, 0x24, 0x7c, 0x1e, 0x83, 0xfe, 0x62,
        0x28, 0x06, 0x1e, 0xc1, 0xfe, 0x64, 0x20, 0x06, 0x7b, 0xe2, 0x0c, 0x3e,
        0x87, 0xe2, 0xf0, 0x42, 0x90, 0xe0, 0x42, 0x15, 0x20, 0xd2, 0x05, 0x20,
        0x4f, 0x16, 0x20, 0x18, 0xcb, 0x4f, 0x06, 0x04, 0xc5, 0xcb, 0x11, 0x17,
        0xc1, 0xcb, 0x11, 0x17, 0x05, 0x20, 0xf5, 0x22, 0x23, 0x22, 0x23, 0xc9,
        0xce, 0xed, 0x66, 0x66, 0xcc, 0x0d, 0x00, 0x0b, 0x03, 0x73, 0x00, 0x83,
        0x00, 0x0c, 0x00, 0x0d, 0x00, 0x08, 0x11, 0x1f, 0x88, 0x89, 0x00, 0x0e,
        0xdc, 0xcc, 0x6e, 0xe6, 0xdd, 0xdd, 0xd9, 0x99, 0xbb, 0xbb, 0x67, 0x63,
        0x6e, 0x0e, 0xec, 0xcc, 0xdd, 0xdc, 0x99, 0x9f, 0xbb, 0xb9, 0x33, 0x3e,
        0x3c, 0x42, 0xb9, 0xa5, 0xb9, 0xa5, 0x42, 0x3c, 0x21, 0x04, 0x01, 0x11,
        0xa8, 0x00, 0x1a, 0x13, 0xbe, 0x20, 0xfe, 0x23, 0x7d, 0xfe, 0x34, 0x20,
        0xf5, 0x06, 0x19, 0x78, 0x86, 0x23, 0x05, 0x20, 0xfb, 0x86, 0x20, 0xfe,
        0x3e, 0x01, 0xe0, 0x50,
    ];
    for i in 0..0x100u16 {
        assert_eq!(gb.read(i), boot[i as usize]);
    }

    // Disable the boot ROM.
    gb.write(0xff50, 0x01);

    // The low page now reads the cartridge ROM.
    let rom = setup_rom();
    for i in 0..0x100u16 {
        assert_eq!(gb.read(i), rom[i as usize]);
    }
}

#[test]
fn mmu_all_works() {
    let mut gb = setup();
    let rom = setup_rom();

    // Cartridge ROM: writes go to the bank controller, never the buffer.
    for addr in 0x0100..=0x7fffu16 {
        gb.write(addr, 0x20);
    }
    assert!((0x0100..=0x014fu16).any(|addr| gb.read(addr) != 0x20));
    for addr in 0x0100..=0x014fu16 {
        assert_eq!(gb.read(addr), rom[addr as usize]);
    }
    // Video RAM.
    for addr in 0x8000..=0x9fffu16 {
        gb.write(addr, 0x30);
        assert_eq!(gb.read(addr), 0x30);
    }
    // External RAM (this cartridge kind wires it directly).
    for addr in 0xa000..=0xbfffu16 {
        gb.write(addr, 0x40);
        assert_eq!(gb.read(addr), 0x40);
    }
    // OAM.
    for addr in 0xfe00..=0xfe9fu16 {
        gb.write(addr, 0x50);
        assert_eq!(gb.read(addr), 0x50);
    }
    // Controller: only the row-select bits are writable.
    gb.write(0xff00, 0x61);
    assert_eq!(gb.read(0xff00), 0xef);
    // Communication.
    for addr in 0xff01..=0xff02u16 {
        gb.write(addr, 0x62);
        assert_eq!(gb.read(addr), 0x62);
    }
    // Divider and timer: a divider write resets the whole counter, so it
    // reads zero; the other timer registers store their bytes.
    gb.write(0xff04, 0x63);
    assert_eq!(gb.read(0xff04), 0x00);
    for addr in 0xff05..=0xff07u16 {
        gb.write(addr, 0x63);
        assert_eq!(gb.read(addr), 0x63);
    }
    // Interrupt flag.
    gb.write(0xff0f, 0x64);
    assert_eq!(gb.read(0xff0f), 0x64);
    // Sound.
    for addr in 0xff10..=0xff26u16 {
        gb.write(addr, 0x65);
        assert_eq!(gb.read(addr), 0x65);
    }
    // Waveform RAM.
    for addr in 0xff30..=0xff3fu16 {
        gb.write(addr, 0x66);
        assert_eq!(gb.read(addr), 0x66);
    }
    // LCD registers.
    for addr in 0xff40..=0xff4bu16 {
        gb.write(addr, 0x67);
        assert_eq!(gb.read(addr), 0x67);
    }
    // Boot ROM disable.
    gb.write(0xff50, 0x68);
    assert_eq!(gb.read(0xff50), 0x68);
    // High RAM.
    for addr in 0xff80..=0xfffeu16 {
        gb.write(addr, 0x70);
        assert_eq!(gb.read(addr), 0x70);
    }
    // Interrupt enable.
    gb.write(0xffff, 0x80);
    assert_eq!(gb.read(0xffff), 0x80);
}

#[test]
fn mmu_unmapped_works() {
    let mut gb = setup();

    // Disable the boot ROM.
    gb.write(0xff50, 0x01);

    // Unmapped addresses read back garbage whatever is written.
    let unmapped = [0xfea0..=0xfeffu16, 0xff03..=0xff03, 0xff27..=0xff2f];
    for gap in unmapped {
        for addr in gap {
            gb.write(addr, 0xaa);
            assert_eq!(gb.read(addr), 0xff);
        }
    }
}

#[test]
fn unmapped_read_after_write_yields_garbage() {
    // The prohibited window drops writes and reads back `0xff`.
    let mut gb = setup();
    gb.write(0xff50, 0x01);
    assert_eq!(gb.read(0xfea5), 0xff);
    gb.write(0xfea5, 0xaa);
    assert_eq!(gb.read(0xfea5), 0xff);
}
