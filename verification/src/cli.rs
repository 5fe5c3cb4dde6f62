//! Invocation options.
//!
//! Plain-data forms of the command-line arguments and the run options the
//! host front end passes in, together with the clock arithmetic the run
//! loop derives from them.

use vstd::prelude::*;

verus! {

/// The base clock frequency in ticks per second (4 MiHz).
pub const FREQ: u32 = 4194304;

/// The clock divider the run loop paces itself by.
pub const DIVIDER: u32 = 0x100;

/// Emulation speed selection.
#[derive(Clone, Copy, Debug, PartialEq, Eq, Structural)]
pub enum Speed {
    Half,
    Full,
    Double,
    Triple,
    Max,
    /// A custom frequency in ticks per second.
    Custom(u32),
}

/// The tick frequency a speed selection asks of the pacing clock.
pub open spec fn spec_freq_of(speed: Speed) -> u32 {
    match speed {
        Speed::Half => (FREQ / 2) as u32,
        Speed::Full => FREQ,
        Speed::Double => (2 * FREQ) as u32,
        Speed::Triple => (3 * FREQ) as u32,
        Speed::Max => DIVIDER,
        Speed::Custom(f) => f,
    }
}

/// The tick frequency a speed selection asks of the pacing clock; running
/// at maximum speed degenerates to one pacing step per divider window.
pub fn freq_of(speed: Speed) -> (r: u32)
    ensures
        r == spec_freq_of(speed),
{
    match speed {
        Speed::Half => FREQ / 2,
        Speed::Full => FREQ,
        Speed::Double => 2 * FREQ,
        Speed::Triple => 3 * FREQ,
        Speed::Max => DIVIDER,
        Speed::Custom(f) => f,
    }
}

/// Options of a running front end.
#[derive(Clone, Debug)]
pub struct Opts {
    /// Window title.
    pub title: String,
    /// Four host colours, lightest first.
    pub pal: [u32; 4],
    /// Emulation speed.
    pub speed: Speed,
}

/// Parsed command-line arguments.
#[derive(Clone, Debug)]
pub struct Args {
    /// Cartridge ROM image file.
    pub rom: Option<String>,
    /// Boot ROM image file.
    pub boot: Option<String>,
    /// Check ROM integrity.
    pub chk: bool,
    /// Force cartridge construction.
    pub force: bool,
    /// Logging directives.
    pub log: String,
    /// Exit after loading the cartridge.
    pub exit: bool,
    /// Launch in debug mode.
    pub debug: bool,
    /// Doctor logfile path.
    pub doctor: Option<String>,
    /// Launch with the interactive debugger.
    pub gbd: bool,
    /// Colour palette, lightest first.
    pub pal: [u32; 4],
    /// Emulation speed.
    pub speed: Speed,
}

} // verus!
