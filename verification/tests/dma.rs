//! OAM transfer engine.

use gameboy_core::cart::Cartridge;
use gameboy_core::dmg::GameBoy;
use gameboy_core::header;

fn setup() -> GameBoy {
    let mut rom = vec![0u8; 0x8000];
    let logo = header::logo();
    for i in 0..48 {
        rom[0x104 + i] = logo[i];
    }
    let mut chk: u8 = 0;
    for i in 0x134..=0x14c {
        chk = chk.wrapping_sub(rom[i]).wrapping_sub(1);
    }
    rom[0x14d] = chk;
    let cart = Cartridge::new(&rom).unwrap();
    let mut gb = GameBoy::new(cart);
    gb.write(0xff50, 0x01);
    gb.cpu.halted = true;
    gb
}

/// The transfer scenario: a known pattern in work RAM lands in OAM after
/// 160 machine cycles.
#[test]
fn dma_copies_pattern_to_oam() {
    let mut gb = setup();
    for i in 0..160u16 {
        gb.write(0xc000 + i, (3 * i % 256) as u8);
    }
    gb.write(0xff46, 0xc0);
    for _ in 0..4 * 160 {
        gb.cycle().unwrap();
    }
    for i in 0..160u16 {
        assert_eq!(gb.read(0xfe00 + i), (3 * i % 256) as u8);
    }
}

/// While the transfer is active, processor reads outside high RAM
/// observe `0xff`; the engine itself still reads its source.
#[test]
fn dma_blocks_processor_reads() {
    let mut gb = setup();
    gb.write(0xc000, 0x5a);
    gb.write(0xff80, 0x77);
    gb.write(0xff46, 0xc0);
    // One machine cycle: the transfer is now active.
    for _ in 0..4 {
        gb.cycle().unwrap();
    }
    assert!(matches!(
        gb.bus.dma.state,
        gameboy_core::dma::DmaState::On { .. }
    ));
    // The gated view the processor uses.
    assert_eq!(gb.bus.read_cpu(0xc000), 0xff);
    assert_eq!(gb.bus.read_cpu(0xff80), 0x77);
    // The plain bus view still serves the byte.
    assert_eq!(gb.read(0xc000), 0x5a);
}

/// Writing the register during a transfer replaces it at the next cycle.
#[test]
fn dma_write_replaces_transfer() {
    let mut gb = setup();
    for i in 0..160u16 {
        gb.write(0xc000 + i, 0x11);
        gb.write(0xd000 + i, 0x22);
    }
    gb.write(0xff46, 0xc0);
    for _ in 0..40 {
        gb.cycle().unwrap();
    }
    gb.write(0xff46, 0xd0);
    for _ in 0..4 * 160 {
        gb.cycle().unwrap();
    }
    for i in 0..160u16 {
        assert_eq!(gb.read(0xfe00 + i), 0x22);
    }
}
