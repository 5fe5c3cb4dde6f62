//! Memory bank controllers.
//!
//! The controller interposes on cartridge bus accesses: reads in
//! `0x0000..0x8000` and the external-RAM window are translated into indices
//! into the cartridge's buffers, and writes into the ROM area are decoded as
//! control-register updates.

use vstd::prelude::*;
use vstd::arithmetic::mul::lemma_mul_inequality;

verus! {

/// Size of one ROM bank.
pub const ROM_BANK: usize = 0x4000;

/// Size of one external-RAM bank.
pub const RAM_BANK: usize = 0x2000;

/// Bank-controller state.
#[derive(Clone, Copy, Debug, PartialEq, Eq, Structural)]
pub enum Mbc {
    /// No controller: reads are direct, ROM writes are ignored.
    Raw,
    /// MBC1 registers.
    Mbc1 { lo: u8, hi: u8, ram_mode: bool, ram_enable: bool },
    /// MBC5 registers.
    Mbc5 { rom: u16, ram: u8, ram_enable: bool },
}

impl Mbc {
    /// Register ranges respected by the controller state.
    pub open spec fn wf(self) -> bool {
        match self {
            Mbc::Raw => true,
            Mbc::Mbc1 { lo, hi, .. } => 1 <= lo < 32 && hi < 4,
            Mbc::Mbc5 { rom, ram, .. } => rom < 512 && ram < 16,
        }
    }
}

/// ROM bank selected for the fixed window `0x0000..0x4000`.
///
/// Under MBC1 in RAM mode, large cartridges map bank `hi << 5` there;
/// otherwise the window always shows bank 0.
pub open spec fn spec_low_bank(mbc: Mbc, romsz: int) -> int {
    match mbc {
        Mbc::Mbc1 { hi, ram_mode, .. } => if ram_mode {
            (hi as int * 32) % (romsz / 0x4000)
        } else {
            0
        },
        _ => 0,
    }
}

/// ROM bank selected for the switchable window `0x4000..0x8000`.
pub open spec fn spec_high_bank(mbc: Mbc, romsz: int) -> int {
    match mbc {
        Mbc::Raw => 1,
        Mbc::Mbc1 { lo, hi, .. } => (hi as int * 32 + lo as int) % (romsz / 0x4000),
        Mbc::Mbc5 { rom, .. } => rom as int % (romsz / 0x4000),
    }
}

/// Index into the ROM buffer for a bus read at `addr < 0x8000`.
pub open spec fn spec_rom_index(mbc: Mbc, romsz: int, addr: int) -> int {
    if addr < 0x4000 {
        spec_low_bank(mbc, romsz) * 0x4000 + addr
    } else {
        spec_high_bank(mbc, romsz) * 0x4000 + (addr - 0x4000)
    }
}

/// Index into the RAM buffer for an external-RAM access at window offset
/// `off < 0x2000`, or `None` when the access reaches no RAM (absent or
/// disabled): such reads yield `0xff` and such writes are dropped.
pub open spec fn spec_ram_index(mbc: Mbc, ramlen: int, off: int) -> Option<int> {
    if ramlen == 0 {
        None
    } else {
        match mbc {
            Mbc::Raw => Some(off),
            Mbc::Mbc1 { hi, ram_mode, ram_enable, .. } => if ram_enable {
                let bank: int = if ram_mode {
                    hi as int % (ramlen / 0x2000)
                } else {
                    0
                };
                Some(bank * 0x2000 + off)
            } else {
                None
            },
            Mbc::Mbc5 { ram, ram_enable, .. } => if ram_enable {
                Some((ram as int % (ramlen / 0x2000)) * 0x2000 + off)
            } else {
                None
            },
        }
    }
}

/// Controller state after a write of `v` into the ROM area at `addr`.
pub open spec fn spec_mbc_write(mbc: Mbc, addr: int, v: u8) -> Mbc {
    match mbc {
        Mbc::Raw => Mbc::Raw,
        Mbc::Mbc1 { lo, hi, ram_mode, ram_enable } => {
            if addr < 0x2000 {
                Mbc::Mbc1 { lo, hi, ram_mode, ram_enable: v % 16 == 0x0a }
            } else if addr < 0x4000 {
                let b = v % 32;
                Mbc::Mbc1 { lo: if b == 0 { 1u8 } else { b }, hi, ram_mode, ram_enable }
            } else if addr < 0x6000 {
                Mbc::Mbc1 { lo, hi: v % 4, ram_mode, ram_enable }
            } else {
                Mbc::Mbc1 { lo, hi, ram_mode: v % 2 == 1, ram_enable }
            }
        },
        Mbc::Mbc5 { rom, ram, ram_enable } => {
            if addr < 0x2000 {
                Mbc::Mbc5 { rom, ram, ram_enable: v % 16 == 0x0a }
            } else if addr < 0x3000 {
                Mbc::Mbc5 { rom: ((rom / 256) * 256 + v) as u16, ram, ram_enable }
            } else if addr < 0x4000 {
                Mbc::Mbc5 { rom: ((v % 2) * 256 + rom % 256) as u16, ram, ram_enable }
            } else if addr < 0x6000 {
                Mbc::Mbc5 { rom, ram: v % 16, ram_enable }
            } else {
                Mbc::Mbc5 { rom, ram, ram_enable }
            }
        },
    }
}

/// The declared ROM size is one the header can produce: a power-of-two
/// multiple of 32 KiB up to 8 MiB.
pub open spec fn spec_romsz_valid(romsz: int) -> bool {
    ||| romsz == 0x0000_8000
    ||| romsz == 0x0001_0000
    ||| romsz == 0x0002_0000
    ||| romsz == 0x0004_0000
    ||| romsz == 0x0008_0000
    ||| romsz == 0x0010_0000
    ||| romsz == 0x0020_0000
    ||| romsz == 0x0040_0000
    ||| romsz == 0x0080_0000
}

/// The RAM buffer length is empty or a whole number of 8 KiB banks, at most
/// sixteen of them.
pub open spec fn spec_ramlen_valid(ramlen: int) -> bool {
    ||| ramlen == 0
    ||| ramlen == 0x0_2000
    ||| ramlen == 0x0_8000
    ||| ramlen == 0x1_0000
    ||| ramlen == 0x2_0000
}

/// Writes into the ROM area leave the controller well-formed.
pub proof fn lemma_mbc_write_wf(mbc: Mbc, addr: int, v: u8)
    requires
        mbc.wf(),
    ensures
        spec_mbc_write(mbc, addr, v).wf(),
{
}

/// A ROM read index always falls inside the ROM buffer.
pub proof fn lemma_rom_index_in_bounds(mbc: Mbc, romsz: int, addr: int)
    requires
        mbc.wf(),
        spec_romsz_valid(romsz),
        0 <= addr < 0x8000,
    ensures
        0 <= spec_rom_index(mbc, romsz, addr) < romsz,
{
    let nb = romsz / 0x4000;
    let low = spec_low_bank(mbc, romsz);
    let high = spec_high_bank(mbc, romsz);
    assert(0 <= low < nb);
    assert(0 <= high < nb);
    lemma_mul_inequality(low, nb - 1, 0x4000);
    lemma_mul_inequality(high, nb - 1, 0x4000);
}

/// A RAM access index, when the access reaches RAM, falls inside the RAM
/// buffer.
pub proof fn lemma_ram_index_in_bounds(mbc: Mbc, ramlen: int, off: int)
    requires
        mbc.wf(),
        spec_ramlen_valid(ramlen),
        0 <= off < 0x2000,
    ensures
        spec_ram_index(mbc, ramlen, off) matches Some(i) ==> 0 <= i < ramlen,
{
    if ramlen != 0 {
        let nb = ramlen / 0x2000;
        if let Some(i) = spec_ram_index(mbc, ramlen, off) {
            let bank = (i - off) / 0x2000;
            assert(0 <= bank < nb);
            lemma_mul_inequality(bank, nb - 1, 0x2000);
        }
    }
}

/// Round trip through the MBC1 bank-select register: after writing `v` to
/// the `0x2000..0x4000` register, a read in the switchable window at
/// `0x4000 + k` is served from ROM offset `bank * 0x4000 + k`, where `bank`
/// is the written five-bit value (zero promoted to one) combined with the
/// high bank bits, masked to the ROM's bank count.
pub proof fn lemma_mbc1_bank_select_round_trip(mbc: Mbc, romsz: int, addr: int, v: u8, k: int)
    requires
        mbc matches Mbc::Mbc1 { .. },
        mbc.wf(),
        spec_romsz_valid(romsz),
        0x2000 <= addr < 0x4000,
        0 <= k < 0x4000,
    ensures
        ({
            let lo: int = if v % 32 == 0 { 1 } else { (v % 32) as int };
            let hi = mbc->Mbc1_hi;
            let bank = (hi as int * 32 + lo as int) % (romsz / 0x4000);
            spec_rom_index(spec_mbc_write(mbc, addr, v), romsz, 0x4000 + k) == bank * 0x4000 + k
        }),
{
}

} // verus!
