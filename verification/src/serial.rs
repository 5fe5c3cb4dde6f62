//! Serial chip.
//!
//! The link-cable port appears on the bus as two bytes at `0xff01..0xff03`:
//! the transfer data register `SB` and the transfer control register `SC`.
//! No remote console is attached, so the registers only hold state.

use vstd::prelude::*;

verus! {

/// Serial-port registers.
#[derive(Clone, Copy, Debug, PartialEq, Eq, Structural)]
pub struct Serial {
    /// Transfer data (`0xff01`).
    pub sb: u8,
    /// Transfer control (`0xff02`).
    pub sc: u8,
}

impl Serial {
    /// A port with cleared registers.
    pub fn new() -> (r: Serial)
        ensures
            r.sb == 0,
            r.sc == 0,
    {
        Serial { sb: 0, sc: 0 }
    }

    /// Reads register `off` (0 for `SB`, otherwise `SC`).
    pub fn read(&self, off: u16) -> (r: u8)
        ensures
            r == if off == 0 {
                self.sb
            } else {
                self.sc
            },
    {
        if off == 0 {
            self.sb
        } else {
            self.sc
        }
    }

    /// Writes register `off` (0 for `SB`, otherwise `SC`).
    pub fn write(&mut self, off: u16, v: u8)
        ensures
            final(self).sb == if off == 0 {
                v
            } else {
                old(self).sb
            },
            final(self).sc == if off == 0 {
                old(self).sc
            } else {
                v
            },
    {
        if off == 0 {
            self.sb = v;
        } else {
            self.sc = v;
        }
    }

    /// Clears both registers, as a console reset does.
    pub fn reset(&mut self)
        ensures
            final(self).sb == 0,
            final(self).sc == 0,
    {
        self.sb = 0;
        self.sc = 0;
    }
}

} // verus!
