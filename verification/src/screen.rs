//! Dimensions of the LCD panel.

use vstd::prelude::*;

verus! {

/// Width of the visible screen in pixels.
pub const WIDTH: usize = 160;

/// Height of the visible screen in scanlines.
pub const HEIGHT: usize = 144;

/// Resolution info.
#[derive(Clone, Copy, Debug, PartialEq, Eq, Structural)]
pub struct Resolution {
    pub width: usize,
    pub height: usize,
}

impl Resolution {
    /// Total number of pixels at this resolution, saturating on overflow.
    pub fn depth(&self) -> (r: usize)
        ensures
            self.width * self.height <= usize::MAX ==> r == self.width * self.height,
            self.width * self.height > usize::MAX ==> r == usize::MAX,
    {
        match self.width.checked_mul(self.height) {
            Some(d) => d,
            None => usize::MAX,
        }
    }
}

/// The DMG-01 panel resolution.
pub fn lcd() -> (r: Resolution)
    ensures
        r.width == WIDTH,
        r.height == HEIGHT,
{
    Resolution { width: WIDTH, height: HEIGHT }
}

} // verus!
