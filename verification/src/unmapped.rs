//! Unmapped device.
//!
//! The `Unmapped` device always yields the same garbage value when read and
//! ignores all writes; the bus uses its behaviour as the fallback for
//! addresses no region claims.

use vstd::prelude::*;

verus! {

/// The value every unmapped read observes.
pub const GARBAGE: u8 = 0xff;

/// A device that reads as [`GARBAGE`] and drops writes, covering the whole
/// 16-bit address space.
#[derive(Clone, Copy, Debug, PartialEq, Eq, Structural)]
pub struct Unmapped {}

impl Unmapped {
    /// Constructs a new `Unmapped`.
    pub fn new() -> (r: Unmapped)
        ensures
            r == (Unmapped {  }),
    {
        Unmapped {  }
    }

    /// Reads a byte: always [`GARBAGE`].
    pub fn read(&self, addr: u16) -> (r: u8)
        ensures
            r == GARBAGE,
    {
        GARBAGE
    }

    /// Writes a byte: always dropped.
    pub fn write(&mut self, addr: u16, v: u8)
        ensures
            *final(self) == *old(self),
    {
    }
}

} // verus!
