//! Processor behaviour: instruction results, flags, and the error path.

use gameboy_core::cart::Cartridge;
use gameboy_core::cpu::Error;
use gameboy_core::dmg::GameBoy;
use gameboy_core::header;

/// A console with the boot ROM unmapped and the processor parked at the
/// start of work RAM, ready to execute a small program written there.
fn setup() -> GameBoy {
    let mut rom = vec![0u8; 0x8000];
    let logo = header::logo();
    for i in 0..48 {
        rom[0x104 + i] = logo[i];
    }
    let mut chk: u8 = 0;
    for i in 0x134..=0x14c {
        chk = chk.wrapping_sub(rom[i]).wrapping_sub(1);
    }
    rom[0x14d] = chk;
    let cart = Cartridge::new(&rom).unwrap();
    let mut gb = GameBoy::new(cart);
    gb.write(0xff50, 0x01);
    gb.cpu.pc = 0xc000;
    gb
}

/// Runs `n` machine cycles.
fn run(gb: &mut GameBoy, n: usize) {
    for _ in 0..4 * n {
        gb.cycle().unwrap();
    }
}

/// `ADD HL,BC` with a half-carry out of bit 11: `HL` takes the sum, `H`
/// sets, `C` and `N` clear, and `Z` is untouched.
#[test]
fn add_hl_bc_flags() {
    let mut gb = setup();
    gb.write(0xc000, 0x09);
    gb.cpu.h = 0x0f;
    gb.cpu.l = 0xff;
    gb.cpu.b = 0x00;
    gb.cpu.c = 0x01;
    gb.cpu.zf = false;
    gb.cpu.nf = false;
    gb.cpu.hf = false;
    gb.cpu.cf = false;
    run(&mut gb, 2);
    assert_eq!(gb.cpu.h, 0x10);
    assert_eq!(gb.cpu.l, 0x00);
    assert!(gb.cpu.hf);
    assert!(!gb.cpu.cf);
    assert!(!gb.cpu.nf);
    assert!(!gb.cpu.zf);
    assert_eq!(gb.cpu.f() & 0x0f, 0);
}

/// `ADD HL,BC` leaves `Z` alone in either polarity.
#[test]
fn add_hl_bc_keeps_zero_flag() {
    let mut gb = setup();
    gb.write(0xc000, 0x09);
    gb.cpu.zf = true;
    run(&mut gb, 2);
    assert!(gb.cpu.zf);
}

/// `OR B` ors into the accumulator and clears the other flags.
#[test]
fn or_b_works() {
    let mut gb = setup();
    gb.write(0xc000, 0xb0);
    gb.cpu.a = 0x41;
    gb.cpu.b = 0x22;
    gb.cpu.nf = true;
    gb.cpu.hf = true;
    gb.cpu.cf = true;
    run(&mut gb, 1);
    assert_eq!(gb.cpu.a, 0x63);
    assert!(!gb.cpu.zf && !gb.cpu.nf && !gb.cpu.hf && !gb.cpu.cf);
}

/// `OR A` of zero sets the zero flag.
#[test]
fn or_a_zero_sets_z() {
    let mut gb = setup();
    gb.write(0xc000, 0xb7);
    gb.cpu.a = 0x00;
    run(&mut gb, 1);
    assert!(gb.cpu.zf);
    assert_eq!(gb.cpu.a, 0x00);
}

/// `CALL a16` pushes the return address and jumps; six machine cycles.
#[test]
fn call_pushes_and_jumps() {
    let mut gb = setup();
    gb.write(0xc000, 0xcd);
    gb.write(0xc001, 0x34);
    gb.write(0xc002, 0x12);
    gb.cpu.sp = 0xd000;
    run(&mut gb, 6);
    assert_eq!(gb.cpu.pc, 0x1234);
    assert_eq!(gb.cpu.sp, 0xcffe);
    // The pushed return address is the byte after the operand.
    assert_eq!(gb.read(0xcfff), 0xc0);
    assert_eq!(gb.read(0xcffe), 0x03);
}

/// `CALL NZ,a16` with `Z` set falls through in three machine cycles.
#[test]
fn call_nz_not_taken() {
    let mut gb = setup();
    gb.write(0xc000, 0xc4);
    gb.write(0xc001, 0x34);
    gb.write(0xc002, 0x12);
    gb.cpu.sp = 0xd000;
    gb.cpu.zf = true;
    run(&mut gb, 3);
    assert_eq!(gb.cpu.pc, 0xc003);
    assert_eq!(gb.cpu.sp, 0xd000);
}

/// `STOP` advances past its two-byte form and continues.
#[test]
fn stop_skips_padding_byte() {
    let mut gb = setup();
    gb.write(0xc000, 0x10);
    gb.write(0xc001, 0x00);
    run(&mut gb, 1);
    assert_eq!(gb.cpu.pc, 0xc002);
}

/// An undefined opcode surfaces as an error from the cycle.
#[test]
fn undefined_opcode_reports_error() {
    let mut gb = setup();
    gb.write(0xc000, 0xd3);
    let r = gb.cycle();
    assert_eq!(r, Err(Error::Opcode(0xd3)));
}

/// A little program: load immediates, add, and write the result to work
/// RAM through `HL`.
#[test]
fn small_program_runs() {
    let mut gb = setup();
    let prog: [u8; 9] = [
        0x3e, 0x2a, // LD A,0x2a
        0x06, 0x13, // LD B,0x13
        0x80, // ADD A,B
        0x21, 0x00, 0xd0, // LD HL,0xd000
        0x77, // LD (HL),A
    ];
    for (i, b) in prog.iter().enumerate() {
        gb.write(0xc000 + i as u16, *b);
    }
    run(&mut gb, 2 + 2 + 1 + 3 + 2);
    assert_eq!(gb.cpu.a, 0x3d);
    assert_eq!(gb.read(0xd000), 0x3d);
    assert_eq!(gb.cpu.f() & 0x0f, 0);
}

/// The flag byte always reads zero in its low nibble, even after `POP AF`
/// with a dirty low nibble on the stack.
#[test]
fn pop_af_masks_low_nibble() {
    let mut gb = setup();
    gb.write(0xd000, 0xbf); // low byte for F: high-nibble flags + garbage
    gb.write(0xd001, 0x55); // high byte for A
    gb.write(0xc000, 0xf1); // POP AF
    gb.cpu.sp = 0xd000;
    run(&mut gb, 3);
    assert_eq!(gb.cpu.a, 0x55);
    assert_eq!(gb.cpu.f(), 0xb0);
    assert_eq!(gb.cpu.f() & 0x0f, 0);
}

/// `DAA` corrects a packed-decimal add.
#[test]
fn daa_corrects_addition() {
    let mut gb = setup();
    // 0x19 + 0x28 = 0x41 binary; DAA corrects to 0x47 decimal.
    let prog: [u8; 5] = [0x3e, 0x19, 0xc6, 0x28, 0x27];
    for (i, b) in prog.iter().enumerate() {
        gb.write(0xc000 + i as u16, *b);
    }
    run(&mut gb, 2 + 2 + 1);
    assert_eq!(gb.cpu.a, 0x47);
}

/// Interrupt service: a halted processor wakes on a pending timer
/// interrupt, pushes the return address, clears the request and the
/// master enable, and enters the handler at its vector.
#[test]
fn timer_interrupt_is_serviced() {
    let mut gb = setup();
    let prog: [u8; 15] = [
        0x3e, 0x05, // LD A,0x05
        0xe0, 0x07, // LDH (TAC),A: enable, fastest mode
        0x3e, 0x04, // LD A,0x04
        0xe0, 0xff, // LDH (IE),A: enable the timer source
        0x3e, 0xff, // LD A,0xff
        0xe0, 0x05, // LDH (TIMA),A: arm the overflow
        0xfb, // EI
        0x76, // HALT
        0x00, // NOP
    ];
    for (i, b) in prog.iter().enumerate() {
        gb.write(0xc000 + i as u16, *b);
    }
    gb.cpu.sp = 0xd000;
    for _ in 0..200 {
        gb.cycle().unwrap();
    }
    // The handler vector for the timer source is 0x50; the processor has
    // run a little way into the NOPs that follow it.
    assert!(0x50 <= gb.cpu.pc && gb.cpu.pc < 0x100, "pc={:#06x}", gb.cpu.pc);
    assert!(!gb.cpu.ime);
    assert_eq!(gb.read(0xff0f) & 0x04, 0);
    // The pushed return address points just past the HALT.
    assert_eq!(gb.cpu.sp, 0xcffe);
    assert_eq!(gb.read(0xcfff), 0xc0);
    assert_eq!(gb.read(0xcffe), 0x0e);
}

/// The relative jump goes backwards with a negative offset.
#[test]
fn jr_backwards() {
    let mut gb = setup();
    gb.write(0xc000, 0x00); // NOP
    gb.write(0xc001, 0x18); // JR -3: back to 0xc000
    gb.write(0xc002, 0xfd);
    run(&mut gb, 1 + 3);
    assert_eq!(gb.cpu.pc, 0xc000);
}
