//! Direct memory access.
//!
//! Writing a page number to `0xff46` requests a transfer of 160 bytes from
//! `page << 8` into OAM, one byte per machine cycle. A write during an
//! active transfer replaces it at the next cycle.

use vstd::prelude::*;

verus! {

/// Transfer progress.
#[derive(Clone, Copy, Debug, PartialEq, Eq, Structural)]
pub enum DmaState {
    /// No transfer.
    Off,
    /// A transfer from this source page begins next cycle.
    Req(u8),
    /// Transferring from page `src`; byte `idx` is copied next.
    On { src: u8, idx: u8 },
}

/// Transfer engine state.
#[derive(Clone, Copy, Debug, PartialEq, Eq, Structural)]
pub struct Dma {
    /// Last value written to the `DMA` register (`0xff46`).
    pub page: u8,
    /// Transfer progress.
    pub state: DmaState,
}

impl Dma {
    /// An idle engine.
    pub fn new() -> (r: Dma)
        ensures
            r == (Dma { page: 0, state: DmaState::Off }),
    {
        Dma { page: 0, state: DmaState::Off }
    }

    /// Reads the `DMA` register: the last written page.
    pub fn load(&self) -> (r: u8)
        ensures
            r == self.page,
    {
        self.page
    }

    /// Writes the `DMA` register: records the page and requests a
    /// transfer, replacing any transfer in progress at the next cycle.
    pub fn store(&mut self, v: u8)
        ensures
            *final(self) == (Dma { page: v, state: DmaState::Req(v) }),
    {
        self.page = v;
        self.state = DmaState::Req(v);
    }

    /// The engine does work this cycle.
    pub fn enabled(&self) -> (r: bool)
        ensures
            r == !(self.state is Off),
    {
        !matches!(self.state, DmaState::Off)
    }

    /// Returns the engine to idle, as a console reset does.
    pub fn reset(&mut self)
        ensures
            *final(self) == (Dma { page: 0, state: DmaState::Off }),
    {
        self.page = 0;
        self.state = DmaState::Off;
    }
}

} // verus!
