//! Core behaviour of the Nintendo Game Boy (model DMG-01) hardware.
//!
//! The crate models each hardware block as plain data owned by a single
//! top-level [`dmg::GameBoy`] aggregate: the memory bus with its overlay
//! regions, the game cartridge with its memory bank controller, the SM83
//! processor as a micro-step state machine, the pixel-processing unit, the
//! OAM transfer engine, the timer, the joypad, and the interrupt controller.

use vstd::prelude::*;

pub mod apu;
pub mod boot;
pub mod bus;
pub mod cart;
pub mod cli;
pub mod cpu;
pub mod dma;
pub mod dmg;
pub mod header;
pub mod joypad;
pub mod mbc;
pub mod pic;
pub mod ppu;
pub mod screen;
pub mod serial;
pub mod timer;
pub mod unmapped;

verus! {

/// Shade of a single pixel on the 4-colour LCD, lightest first.
#[derive(Clone, Copy, Debug, PartialEq, Eq, Structural)]
pub enum Color {
    C0,
    C1,
    C2,
    C3,
}

impl Color {
    /// The two-bit index of this shade.
    pub fn index(self) -> (r: u8)
        ensures
            r == self.spec_index(),
            r < 4,
    {
        match self {
            Color::C0 => 0,
            Color::C1 => 1,
            Color::C2 => 2,
            Color::C3 => 3,
        }
    }

    /// The two-bit index of this shade.
    pub open spec fn spec_index(self) -> u8 {
        match self {
            Color::C0 => 0,
            Color::C1 => 1,
            Color::C2 => 2,
            Color::C3 => 3,
        }
    }

    /// The shade selected by the low two bits of `v`.
    pub fn from_bits(v: u8) -> (r: Color)
        ensures
            r == Color::spec_from_bits(v),
    {
        match v % 4 {
            0 => Color::C0,
            1 => Color::C1,
            2 => Color::C2,
            _ => Color::C3,
        }
    }

    /// The shade selected by the low two bits of `v`.
    pub open spec fn spec_from_bits(v: u8) -> Color {
        match v % 4 {
            0 => Color::C0,
            1 => Color::C1,
            2 => Color::C2,
            _ => Color::C3,
        }
    }
}

} // verus!
