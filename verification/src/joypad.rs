//! Joypad.
//!
//! The `P1` register (`0xff00`) exposes a 4x2 button matrix: bits 4-5
//! select the direction or action row (active low), bits 0-3 read the
//! pressed state of the selected rows (active low), and bits 6-7 read as 1.
//! A high-to-low edge on a selected bit requests the joypad interrupt.

use vstd::prelude::*;
use crate::pic::{self, Interrupt, Pic};

verus! {

/// A physical button.
#[derive(Clone, Copy, Debug, PartialEq, Eq, Structural)]
pub enum Button {
    A,
    B,
    Select,
    Start,
    Right,
    Left,
    Up,
    Down,
}

impl Button {
    /// Bit weight of this button inside the pressed-state mask: the low
    /// nibble holds the direction row, the high nibble the action row.
    pub open spec fn spec_mask(self) -> u8 {
        match self {
            Button::Right => 0x01,
            Button::Left => 0x02,
            Button::Up => 0x04,
            Button::Down => 0x08,
            Button::A => 0x10,
            Button::B => 0x20,
            Button::Select => 0x40,
            Button::Start => 0x80,
        }
    }

    /// Bit weight of this button inside the pressed-state mask.
    pub fn mask(self) -> (r: u8)
        ensures
            r == self.spec_mask(),
    {
        match self {
            Button::Right => 0x01,
            Button::Left => 0x02,
            Button::Up => 0x04,
            Button::Down => 0x08,
            Button::A => 0x10,
            Button::B => 0x20,
            Button::Select => 0x40,
            Button::Start => 0x80,
        }
    }
}

/// Joypad state.
#[derive(Clone, Copy, Debug, PartialEq, Eq, Structural)]
pub struct Joypad {
    /// Row-select value written to bits 4-5 of `P1`, stored as `0..4`.
    pub select: u8,
    /// Pressed buttons: direction row in the low nibble, action row in the
    /// high nibble; a set bit means pressed.
    pub keys: u8,
}

/// The low nibble of `P1`: the active-low pressed state of whichever rows
/// bits 4-5 select.
pub open spec fn spec_p1_nibble(j: Joypad) -> u8 {
    let dirs: u8 = if j.select % 2 == 0 {
        j.keys % 16
    } else {
        0
    };
    let acts: u8 = if (j.select / 2) % 2 == 0 {
        j.keys / 16
    } else {
        0
    };
    let b0: u8 = if (dirs % 2 == 1) || (acts % 2 == 1) { 0 } else { 1 };
    let b1: u8 = if ((dirs / 2) % 2 == 1) || ((acts / 2) % 2 == 1) { 0 } else { 1 };
    let b2: u8 = if ((dirs / 4) % 2 == 1) || ((acts / 4) % 2 == 1) { 0 } else { 1 };
    let b3: u8 = if ((dirs / 8) % 2 == 1) || ((acts / 8) % 2 == 1) { 0 } else { 1 };
    (b0 + 2 * b1 + 4 * b2 + 8 * b3) as u8
}

/// The value `P1` reads: bits 6-7 high, bits 4-5 as written, low nibble
/// active-low from the selected rows.
pub open spec fn spec_p1(j: Joypad) -> u8 {
    (0xc0 + j.select * 16 + spec_p1_nibble(j)) as u8
}

impl Joypad {
    /// A pad with both rows selected off and nothing pressed.
    pub fn new() -> (r: Joypad)
        ensures
            r.select == 3,
            r.keys == 0,
    {
        Joypad { select: 3, keys: 0 }
    }

    /// The low nibble of `P1` for the current selection.
    fn nibble(&self) -> (r: u8)
        ensures
            r == spec_p1_nibble(*self),
            r < 16,
    {
        let dirs: u8 = if self.select % 2 == 0 { self.keys % 16 } else { 0 };
        let acts: u8 = if (self.select / 2) % 2 == 0 { self.keys / 16 } else { 0 };
        let b0: u8 = if (dirs % 2 == 1) || (acts % 2 == 1) { 0 } else { 1 };
        let b1: u8 = if ((dirs / 2) % 2 == 1) || ((acts / 2) % 2 == 1) { 0 } else { 1 };
        let b2: u8 = if ((dirs / 4) % 2 == 1) || ((acts / 4) % 2 == 1) { 0 } else { 1 };
        let b3: u8 = if ((dirs / 8) % 2 == 1) || ((acts / 8) % 2 == 1) { 0 } else { 1 };
        b0 + 2 * b1 + 4 * b2 + 8 * b3
    }

    /// Reads `P1`.
    pub fn read(&self) -> (r: u8)
        requires
            self.select < 4,
        ensures
            r == spec_p1(*self),
    {
        0xc0 + self.select * 16 + self.nibble()
    }

    /// Writes `P1`: only the row-select bits 4-5 are writable.
    pub fn write(&mut self, v: u8)
        ensures
            final(self).select == (v / 16) % 4,
            final(self).keys == old(self).keys,
    {
        self.select = (v / 16) % 4;
    }

    /// Replaces the pressed-button sample with `btns`, requesting the
    /// joypad interrupt when a selected `P1` bit falls.
    pub fn recv(&mut self, btns: &Vec<Button>, pic: &mut Pic)
        requires
            old(self).select < 4,
        ensures
            final(self).select == old(self).select,
            final(self).keys == spec_keys_of(btns@),
            final(pic).enable == old(pic).enable,
            ({
                let pressed = Joypad { keys: spec_keys_of(btns@), ..*old(self) };
                if spec_falling(*old(self), pressed) {
                    final(pic).active == pic::spec_set_bit(
                        old(pic).active,
                        Interrupt::Joypad.spec_mask(),
                    )
                } else {
                    final(pic).active == old(pic).active
                }
            }),
    {
        let before = self.nibble();
        let mut keys: u8 = 0;
        let mut i: usize = 0;
        let n = btns.len();
        while i < n
            invariant
                i <= n,
                n == btns@.len(),
                keys == spec_keys_upto(btns@, i as nat),
            decreases n - i,
        {
            let m = btns[i].mask();
            keys = keys | m;
            i = i + 1;
        }
        self.keys = keys;
        let after = self.nibble();
        if falling(before, after) {
            pic.req(Interrupt::Joypad);
        }
    }

    /// Restores the reset selection and clears the sample.
    pub fn reset(&mut self)
        ensures
            final(self).select == 3,
            final(self).keys == 0,
    {
        self.select = 3;
        self.keys = 0;
    }
}

/// Pressed-state mask of the first `n` buttons of `btns`.
pub open spec fn spec_keys_upto(btns: Seq<Button>, n: nat) -> u8
    decreases n,
{
    if n == 0 {
        0u8
    } else {
        spec_keys_upto(btns, (n - 1) as nat) | btns[n - 1].spec_mask()
    }
}

/// Pressed-state mask of a button sample.
pub open spec fn spec_keys_of(btns: Seq<Button>) -> u8 {
    spec_keys_upto(btns, btns.len())
}

/// Some selected `P1` bit goes from released to pressed between the two
/// states.
pub open spec fn spec_falling(before: Joypad, after: Joypad) -> bool {
    let b = spec_p1_nibble(before);
    let a = spec_p1_nibble(after);
    ||| (b % 2 == 1 && a % 2 == 0)
    ||| ((b / 2) % 2 == 1 && (a / 2) % 2 == 0)
    ||| ((b / 4) % 2 == 1 && (a / 4) % 2 == 0)
    ||| ((b / 8) % 2 == 1 && (a / 8) % 2 == 0)
}

/// Some selected `P1` bit falls from `before` to `after`.
fn falling(before: u8, after: u8) -> (r: bool)
    ensures
        r == ((before % 2 == 1 && after % 2 == 0) || ((before / 2) % 2 == 1 && (after / 2) % 2
            == 0) || ((before / 4) % 2 == 1 && (after / 4) % 2 == 0) || ((before / 8) % 2 == 1
            && (after / 8) % 2 == 0)),
{
    (before % 2 == 1 && after % 2 == 0) || ((before / 2) % 2 == 1 && (after / 2) % 2 == 0) || ((
    before / 4) % 2 == 1 && (after / 4) % 2 == 0) || ((before / 8) % 2 == 1 && (after / 8) % 2
        == 0)
}

} // verus!
