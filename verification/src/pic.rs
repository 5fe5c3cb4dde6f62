//! Programmable interrupt controller.
//!
//! Two 8-bit registers couple the devices to the processor: `IF` holds
//! interrupt requests and `IE` the enabled sources. Only the low five bits
//! are meaningful; an interrupt is pending exactly when a request meets its
//! enable bit.

use vstd::prelude::*;

verus! {

/// Interrupt sources, in priority order (lowest bit serviced first).
#[derive(Clone, Copy, Debug, PartialEq, Eq, Structural)]
pub enum Interrupt {
    VBlank,
    LcdStat,
    Timer,
    Serial,
    Joypad,
}

impl Interrupt {
    /// Bit weight of this source inside `IF` and `IE`.
    pub open spec fn spec_mask(self) -> u8 {
        match self {
            Interrupt::VBlank => 1,
            Interrupt::LcdStat => 2,
            Interrupt::Timer => 4,
            Interrupt::Serial => 8,
            Interrupt::Joypad => 16,
        }
    }

    /// Bit weight of this source inside `IF` and `IE`.
    pub fn mask(self) -> (r: u8)
        ensures
            r == self.spec_mask(),
    {
        match self {
            Interrupt::VBlank => 1,
            Interrupt::LcdStat => 2,
            Interrupt::Timer => 4,
            Interrupt::Serial => 8,
            Interrupt::Joypad => 16,
        }
    }

    /// Handler address of this source: `0x40 + 8 * n`.
    pub open spec fn spec_vector(self) -> u16 {
        match self {
            Interrupt::VBlank => 0x40,
            Interrupt::LcdStat => 0x48,
            Interrupt::Timer => 0x50,
            Interrupt::Serial => 0x58,
            Interrupt::Joypad => 0x60,
        }
    }

    /// Handler address of this source.
    pub fn vector(self) -> (r: u16)
        ensures
            r == self.spec_vector(),
    {
        match self {
            Interrupt::VBlank => 0x40,
            Interrupt::LcdStat => 0x48,
            Interrupt::Timer => 0x50,
            Interrupt::Serial => 0x58,
            Interrupt::Joypad => 0x60,
        }
    }
}

/// The bit with weight `m` is set in `v`.
pub open spec fn spec_bit_set(v: u8, m: u8) -> bool {
    (v / m) % 2 == 1
}

/// `v` with the bit of weight `m` set.
pub open spec fn spec_set_bit(v: u8, m: u8) -> u8 {
    if spec_bit_set(v, m) {
        v
    } else {
        (v + m) as u8
    }
}

/// `v` with the bit of weight `m` cleared.
pub open spec fn spec_clear_bit(v: u8, m: u8) -> u8 {
    if spec_bit_set(v, m) {
        (v - m) as u8
    } else {
        v
    }
}

/// Interrupt controller state.
#[derive(Clone, Copy, Debug, PartialEq, Eq, Structural)]
pub struct Pic {
    /// `IF`: requested interrupts (`0xff0f`).
    pub active: u8,
    /// `IE`: enabled interrupts (`0xffff`).
    pub enable: u8,
}

/// Source `i` is both requested and enabled.
pub open spec fn spec_ready(p: Pic, i: Interrupt) -> bool {
    spec_bit_set(p.active, i.spec_mask()) && spec_bit_set(p.enable, i.spec_mask())
}

/// Some interrupt is pending: `(IF & IE & 0x1f) != 0`.
pub open spec fn spec_pending(p: Pic) -> bool {
    ||| spec_ready(p, Interrupt::VBlank)
    ||| spec_ready(p, Interrupt::LcdStat)
    ||| spec_ready(p, Interrupt::Timer)
    ||| spec_ready(p, Interrupt::Serial)
    ||| spec_ready(p, Interrupt::Joypad)
}

/// The pending source of lowest index, if any.
pub open spec fn spec_next(p: Pic) -> Option<Interrupt> {
    if spec_ready(p, Interrupt::VBlank) {
        Some(Interrupt::VBlank)
    } else if spec_ready(p, Interrupt::LcdStat) {
        Some(Interrupt::LcdStat)
    } else if spec_ready(p, Interrupt::Timer) {
        Some(Interrupt::Timer)
    } else if spec_ready(p, Interrupt::Serial) {
        Some(Interrupt::Serial)
    } else if spec_ready(p, Interrupt::Joypad) {
        Some(Interrupt::Joypad)
    } else {
        None
    }
}

impl Pic {
    /// A controller with nothing requested and nothing enabled.
    pub fn new() -> (r: Pic)
        ensures
            r.active == 0,
            r.enable == 0,
    {
        Pic { active: 0, enable: 0 }
    }

    /// Whether source `i` has its bit of weight `m` set in `v`.
    fn bit_set(v: u8, m: u8) -> (r: bool)
        requires
            m == 1 || m == 2 || m == 4 || m == 8 || m == 16,
        ensures
            r == spec_bit_set(v, m),
    {
        (v / m) % 2 == 1
    }

    /// Requests interrupt `i`: sets its bit in `IF`.
    pub fn req(&mut self, i: Interrupt)
        ensures
            final(self).active == spec_set_bit(old(self).active, i.spec_mask()),
            final(self).enable == old(self).enable,
    {
        let m = i.mask();
        if !Self::bit_set(self.active, m) {
            self.active = self.active + m;
        }
    }

    /// Acknowledges interrupt `i`: clears its bit in `IF`.
    pub fn ack(&mut self, i: Interrupt)
        ensures
            final(self).active == spec_clear_bit(old(self).active, i.spec_mask()),
            final(self).enable == old(self).enable,
    {
        let m = i.mask();
        if Self::bit_set(self.active, m) {
            self.active = self.active - m;
        }
    }

    /// The pending source of lowest index, if any.
    pub fn pending_int(&self) -> (r: Option<Interrupt>)
        ensures
            r == spec_next(*self),
            r is Some <==> spec_pending(*self),
    {
        if Self::bit_set(self.active, 1) && Self::bit_set(self.enable, 1) {
            Some(Interrupt::VBlank)
        } else if Self::bit_set(self.active, 2) && Self::bit_set(self.enable, 2) {
            Some(Interrupt::LcdStat)
        } else if Self::bit_set(self.active, 4) && Self::bit_set(self.enable, 4) {
            Some(Interrupt::Timer)
        } else if Self::bit_set(self.active, 8) && Self::bit_set(self.enable, 8) {
            Some(Interrupt::Serial)
        } else if Self::bit_set(self.active, 16) && Self::bit_set(self.enable, 16) {
            Some(Interrupt::Joypad)
        } else {
            None
        }
    }

    /// Clears both registers, as a console reset does.
    pub fn reset(&mut self)
        ensures
            final(self).active == 0,
            final(self).enable == 0,
    {
        self.active = 0;
        self.enable = 0;
    }
}

} // verus!
