//! Timer.
//!
//! A 16-bit counter ticks every clock cycle; `DIV` reads its upper byte.
//! `TIMA` increments whenever the counter bit selected by `TAC`, gated by
//! the `TAC` enable bit, falls. On `TIMA` overflow the reload of `TMA` and
//! the interrupt request are applied one cycle late, and a `TIMA` write in
//! that window cancels them.

use vstd::prelude::*;
use crate::pic::{self, Interrupt, Pic};

verus! {

/// Timer state.
#[derive(Clone, Copy, Debug, PartialEq, Eq, Structural)]
pub struct Timer {
    /// Internal 16-bit counter; `DIV` (`0xff04`) is its upper byte.
    pub ctr: u16,
    /// Timer counter `TIMA` (`0xff05`).
    pub tima: u8,
    /// Timer modulo `TMA` (`0xff06`).
    pub tma: u8,
    /// Timer control `TAC` (`0xff07`).
    pub tac: u8,
    /// `TIMA` overflowed last cycle: reload and interrupt are due.
    pub reload: bool,
}

/// Period, in counter ticks, of the `TIMA` input selected by the low two
/// `TAC` bits: the falling edge of counter bit 9, 3, 5 or 7.
pub open spec fn spec_period(tac: u8) -> u16 {
    match tac % 4 {
        0 => 1024u16,
        1 => 16u16,
        2 => 64u16,
        _ => 256u16,
    }
}

/// The `TIMA` input line: the selected counter bit, gated by the `TAC`
/// enable bit.
pub open spec fn spec_signal(tac: u8, ctr: u16) -> bool {
    (tac / 4) % 2 == 1 && (ctr / (spec_period(tac) / 2)) % 2 == 1
}

/// `TIMA` after one input edge: the increment, with overflow wrapping to
/// zero.
pub open spec fn spec_tima_inc(tima: u8) -> u8 {
    if tima == 0xff {
        0u8
    } else {
        (tima + 1) as u8
    }
}

/// Timer state after one clock cycle.
pub open spec fn spec_timer_cycle(t: Timer) -> Timer {
    let reloaded = if t.reload {
        Timer { tima: t.tma, reload: false, ..t }
    } else {
        t
    };
    let ctr2 = vstd::wrapping::u16_specs::wrapping_add(reloaded.ctr, 1);
    let edge = spec_signal(t.tac, reloaded.ctr) && !spec_signal(t.tac, ctr2);
    if edge {
        Timer {
            ctr: ctr2,
            tima: spec_tima_inc(reloaded.tima),
            reload: reloaded.tima == 0xff,
            ..reloaded
        }
    } else {
        Timer { ctr: ctr2, ..reloaded }
    }
}

/// The cycle requests the timer interrupt: exactly when it applies a
/// pending reload.
pub open spec fn spec_timer_irq(t: Timer) -> bool {
    t.reload
}

impl Timer {
    /// A timer with cleared registers.
    pub fn new() -> (r: Timer)
        ensures
            r == (Timer { ctr: 0, tima: 0, tma: 0, tac: 0, reload: false }),
    {
        Timer { ctr: 0, tima: 0, tma: 0, tac: 0, reload: false }
    }

    /// The `TIMA` input line for control value `tac` and counter `ctr`.
    fn signal(tac: u8, ctr: u16) -> (r: bool)
        ensures
            r == spec_signal(tac, ctr),
    {
        let period: u16 = match tac % 4 {
            0 => 1024,
            1 => 16,
            2 => 64,
            _ => 256,
        };
        (tac / 4) % 2 == 1 && (ctr / (period / 2)) % 2 == 1
    }

    /// Increments `TIMA`, recording a pending reload on overflow.
    fn inc_tima(&mut self)
        ensures
            final(self).tima == spec_tima_inc(old(self).tima),
            final(self).reload == (old(self).tima == 0xff),
            final(self).ctr == old(self).ctr,
            final(self).tma == old(self).tma,
            final(self).tac == old(self).tac,
    {
        if self.tima == 0xff {
            self.tima = 0;
            self.reload = true;
        } else {
            self.tima = self.tima + 1;
            self.reload = false;
        }
    }

    /// Advances the timer one clock cycle: applies a pending reload (and
    /// requests the timer interrupt), then increments the counter,
    /// incrementing `TIMA` on a falling edge of its input.
    pub fn cycle(&mut self, pic: &mut Pic)
        ensures
            *final(self) == spec_timer_cycle(*old(self)),
            final(pic).enable == old(pic).enable,
            final(pic).active == if spec_timer_irq(*old(self)) {
                pic::spec_set_bit(old(pic).active, Interrupt::Timer.spec_mask())
            } else {
                old(pic).active
            },
    {
        if self.reload {
            self.tima = self.tma;
            self.reload = false;
            pic.req(Interrupt::Timer);
        }
        let before = Self::signal(self.tac, self.ctr);
        self.ctr = self.ctr.wrapping_add(1);
        let after = Self::signal(self.tac, self.ctr);
        if before && !after {
            self.inc_tima();
        }
    }

    /// Reads `DIV`: the counter's upper byte.
    pub fn read_div(&self) -> (r: u8)
        ensures
            r == self.ctr / 256,
    {
        (self.ctr / 256) as u8
    }

    /// Writes `DIV`: resets the whole counter; a falling edge this causes
    /// on the `TIMA` input increments `TIMA`.
    pub fn write_div(&mut self)
        ensures
            final(self).ctr == 0,
            final(self).tma == old(self).tma,
            final(self).tac == old(self).tac,
            ({
                let edge = spec_signal(old(self).tac, old(self).ctr) && !spec_signal(
                    old(self).tac,
                    0,
                );
                if edge {
                    final(self).tima == spec_tima_inc(old(self).tima) && final(self).reload == (
                    old(self).tima == 0xff)
                } else {
                    final(self).tima == old(self).tima && final(self).reload == old(self).reload
                }
            }),
    {
        let before = Self::signal(self.tac, self.ctr);
        self.ctr = 0;
        let after = Self::signal(self.tac, 0);
        if before && !after {
            self.inc_tima();
        }
    }

    /// Writes `TIMA`; this cancels a pending reload.
    pub fn write_tima(&mut self, v: u8)
        ensures
            *final(self) == (Timer { tima: v, reload: false, ..*old(self) }),
    {
        self.tima = v;
        self.reload = false;
    }

    /// Writes `TMA`.
    pub fn write_tma(&mut self, v: u8)
        ensures
            *final(self) == (Timer { tma: v, ..*old(self) }),
    {
        self.tma = v;
    }

    /// Writes `TAC`; a falling edge this causes on the `TIMA` input
    /// increments `TIMA`.
    pub fn write_tac(&mut self, v: u8)
        ensures
            final(self).tac == v,
            final(self).ctr == old(self).ctr,
            final(self).tma == old(self).tma,
            ({
                let edge = spec_signal(old(self).tac, old(self).ctr) && !spec_signal(
                    v,
                    old(self).ctr,
                );
                if edge {
                    final(self).tima == spec_tima_inc(old(self).tima) && final(self).reload == (
                    old(self).tima == 0xff)
                } else {
                    final(self).tima == old(self).tima && final(self).reload == old(self).reload
                }
            }),
    {
        let before = Self::signal(self.tac, self.ctr);
        self.tac = v;
        let after = Self::signal(v, self.ctr);
        if before && !after {
            self.inc_tima();
        }
    }

    /// Clears every register, as a console reset does.
    pub fn reset(&mut self)
        ensures
            *final(self) == (Timer { ctr: 0, tima: 0, tma: 0, tac: 0, reload: false }),
    {
        self.ctr = 0;
        self.tima = 0;
        self.tma = 0;
        self.tac = 0;
        self.reload = false;
    }
}

} // verus!
