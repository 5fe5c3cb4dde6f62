//! Cartridge header.
//!
//! Encoded within the ROM at `0x0100..0x0150` is a description of the
//! physical cartridge: its title, its memory bank controller, the sizes of
//! its ROM and external RAM, and three integrity fields (the boot logo, a
//! header checksum and a global checksum).

use vstd::prelude::*;

verus! {

/// Offset of the first header byte summed by the header checksum.
pub const TITLE_START: usize = 0x0134;

/// Offset one past the ROM area described by the header.
pub const HEADER_END: usize = 0x0150;

/// Hardware declared by the cartridge kind byte at `0x0147`.
///
/// Only the controllers named here are recognised; every variant records
/// which optional hardware (RAM, battery, clock, rumble) the byte declares.
#[derive(Clone, Copy, Debug, PartialEq, Eq, Structural)]
pub enum Kind {
    /// ROM (and optional RAM) wired directly; no bank controller.
    Raw { ram: bool, bat: bool },
    /// MBC1 controller.
    Mbc1 { ram: bool, bat: bool },
    /// MBC2 controller (built-in nibble RAM).
    Mbc2 { bat: bool },
    /// MBC3 controller.
    Mbc3 { ram: bool, bat: bool, rtc: bool },
    /// MBC5 controller.
    Mbc5 { ram: bool, bat: bool, rumble: bool },
}

/// A failure while reading the cartridge header.
#[derive(Clone, Copy, Debug, PartialEq, Eq, Structural)]
pub enum Error {
    /// The ROM image is shorter than the header area.
    Missing,
    /// Unknown cartridge kind byte.
    Kind(u8),
    /// Unsupported ROM size code.
    RomSize(u8),
    /// Unsupported RAM size code.
    RamSize(u8),
    /// The stored header checksum does not match the header bytes.
    Checksum,
    /// The logo area does not hold the boot logo.
    Logo,
    /// The stored global checksum does not match the ROM bytes.
    GlobalChecksum,
}

/// Parsed header fields.
#[derive(Clone, Debug)]
pub struct Header {
    /// Title bytes (`0x0134..0x0144`), NUL-padded ASCII.
    pub title: Vec<u8>,
    /// Declared cartridge hardware.
    pub cart: Kind,
    /// Declared ROM size in bytes.
    pub romsz: usize,
    /// Declared external RAM size in bytes.
    pub ramsz: usize,
    /// Destination byte says the cartridge is for the Japanese market.
    pub jpn: bool,
    /// Mask ROM version number.
    pub version: u8,
    /// The logo area holds the boot logo.
    pub logo_ok: bool,
    /// The stored header checksum matches the header bytes.
    pub hchk_ok: bool,
    /// The stored global checksum matches the ROM bytes.
    pub gchk_ok: bool,
}

/// Cartridge kind declared by `code`, or `None` for an unrecognised byte.
pub open spec fn spec_kind(code: u8) -> Option<Kind> {
    match code {
        0x00 => Some(Kind::Raw { ram: false, bat: false }),
        0x01 => Some(Kind::Mbc1 { ram: false, bat: false }),
        0x02 => Some(Kind::Mbc1 { ram: true, bat: false }),
        0x03 => Some(Kind::Mbc1 { ram: true, bat: true }),
        0x05 => Some(Kind::Mbc2 { bat: false }),
        0x06 => Some(Kind::Mbc2 { bat: true }),
        0x08 => Some(Kind::Raw { ram: true, bat: false }),
        0x09 => Some(Kind::Raw { ram: true, bat: true }),
        0x0f => Some(Kind::Mbc3 { ram: false, bat: true, rtc: true }),
        0x10 => Some(Kind::Mbc3 { ram: true, bat: true, rtc: true }),
        0x11 => Some(Kind::Mbc3 { ram: false, bat: false, rtc: false }),
        0x12 => Some(Kind::Mbc3 { ram: true, bat: false, rtc: false }),
        0x13 => Some(Kind::Mbc3 { ram: true, bat: true, rtc: false }),
        0x19 => Some(Kind::Mbc5 { ram: false, bat: false, rumble: false }),
        0x1a => Some(Kind::Mbc5 { ram: true, bat: false, rumble: false }),
        0x1b => Some(Kind::Mbc5 { ram: true, bat: true, rumble: false }),
        0x1c => Some(Kind::Mbc5 { ram: false, bat: false, rumble: true }),
        0x1d => Some(Kind::Mbc5 { ram: true, bat: false, rumble: true }),
        0x1e => Some(Kind::Mbc5 { ram: true, bat: true, rumble: true }),
        _ => None,
    }
}

/// ROM size in bytes declared by `code` (`32 KiB << code`), or `None`.
pub open spec fn spec_romsz(code: u8) -> Option<usize> {
    match code {
        0x00 => Some(0x0000_8000usize),
        0x01 => Some(0x0001_0000usize),
        0x02 => Some(0x0002_0000usize),
        0x03 => Some(0x0004_0000usize),
        0x04 => Some(0x0008_0000usize),
        0x05 => Some(0x0010_0000usize),
        0x06 => Some(0x0020_0000usize),
        0x07 => Some(0x0040_0000usize),
        0x08 => Some(0x0080_0000usize),
        _ => None,
    }
}

/// RAM size in bytes declared by `code`, or `None`.
pub open spec fn spec_ramsz(code: u8) -> Option<usize> {
    match code {
        0x00 => Some(0usize),
        0x02 => Some(0x0_2000usize),
        0x03 => Some(0x0_8000usize),
        0x04 => Some(0x2_0000usize),
        0x05 => Some(0x1_0000usize),
        _ => None,
    }
}

/// One step of the header checksum: `acc - byte - 1`, wrapping.
pub open spec fn hchk_step(acc: u8, byte: u8) -> u8 {
    ((acc - byte - 1) % 256) as u8
}

/// Header checksum over the first `n` bytes of the summed area
/// (`0x0134..=0x014c`).
pub open spec fn hchk_upto(rom: Seq<u8>, n: nat) -> u8
    decreases n,
{
    if n == 0 {
        0u8
    } else {
        hchk_step(hchk_upto(rom, (n - 1) as nat), rom[0x0134 + n - 1])
    }
}

/// Header checksum of the ROM: `-sum(bytes 0x0134..=0x014c) - 0x19 mod 256`.
pub open spec fn spec_hchk(rom: Seq<u8>) -> u8 {
    hchk_upto(rom, 25)
}

/// Global checksum over the first `n` ROM bytes, skipping its own two
/// storage bytes at `0x014e..=0x014f`.
pub open spec fn gchk_upto(rom: Seq<u8>, n: nat) -> u16
    decreases n,
{
    if n == 0 {
        0u16
    } else if n - 1 == 0x014e || n - 1 == 0x014f {
        gchk_upto(rom, (n - 1) as nat)
    } else {
        ((gchk_upto(rom, (n - 1) as nat) + rom[n - 1]) % 0x1_0000) as u16
    }
}

/// Global checksum of the ROM: the 16-bit sum of every byte except the two
/// that store it.
pub open spec fn spec_gchk(rom: Seq<u8>) -> u16 {
    gchk_upto(rom, rom.len())
}

/// The boot logo that `0x0104..0x0134` must hold for the boot ROM to unlock.
pub open spec fn spec_logo() -> Seq<u8> {
    seq![
        0xceu8, 0xed, 0x66, 0x66, 0xcc, 0x0d, 0x00, 0x0b, 0x03, 0x73, 0x00, 0x83, 0x00, 0x0c,
        0x00, 0x0d, 0x00, 0x08, 0x11, 0x1f, 0x88, 0x89, 0x00, 0x0e, 0xdc, 0xcc, 0x6e, 0xe6,
        0xdd, 0xdd, 0xd9, 0x99, 0xbb, 0xbb, 0x67, 0x63, 0x6e, 0x0e, 0xec, 0xcc, 0xdd, 0xdc,
        0x99, 0x9f, 0xbb, 0xb9, 0x33, 0x3e,
    ]
}

/// The boot logo as bytes.
pub fn logo() -> (r: Vec<u8>)
    ensures
        r@ == spec_logo(),
{
    let r: Vec<u8> = vec![
        0xceu8, 0xed, 0x66, 0x66, 0xcc, 0x0d, 0x00, 0x0b, 0x03, 0x73, 0x00, 0x83, 0x00, 0x0c,
        0x00, 0x0d, 0x00, 0x08, 0x11, 0x1f, 0x88, 0x89, 0x00, 0x0e, 0xdc, 0xcc, 0x6e, 0xe6,
        0xdd, 0xdd, 0xd9, 0x99, 0xbb, 0xbb, 0x67, 0x63, 0x6e, 0x0e, 0xec, 0xcc, 0xdd, 0xdc,
        0x99, 0x9f, 0xbb, 0xb9, 0x33, 0x3e,
    ];
    proof {
        assert(r@ =~= spec_logo());
    }
    r
}

/// The logo area of `rom` holds the boot logo.
pub open spec fn spec_logo_ok(rom: Seq<u8>) -> bool {
    rom.subrange(0x0104, 0x0134) == spec_logo()
}

/// The stored global checksum (big-endian at `0x014e`) matches the sum of
/// the ROM bytes.
pub open spec fn spec_gchk_ok(rom: Seq<u8>) -> bool {
    rom[0x014e] * 0x100 + rom[0x014f] == spec_gchk(rom)
}

/// The header can be parsed: the ROM covers the header area, the kind and
/// size codes are recognised, and the stored header checksum matches.
pub open spec fn spec_header_ok(rom: Seq<u8>) -> bool {
    &&& rom.len() >= HEADER_END
    &&& spec_kind(rom[0x0147]) is Some
    &&& spec_romsz(rom[0x0148]) is Some
    &&& spec_ramsz(rom[0x0149]) is Some
    &&& rom[0x014d] == spec_hchk(rom)
}

/// Computes the header checksum of `rom`.
fn hchk(rom: &[u8]) -> (r: u8)
    requires
        rom@.len() >= HEADER_END,
    ensures
        r == spec_hchk(rom@),
{
    let mut acc: u8 = 0;
    let mut i: usize = 0;
    while i < 25
        invariant
            i <= 25,
            rom@.len() >= HEADER_END,
            acc == hchk_upto(rom@, i as nat),
        decreases 25 - i,
    {
        let b = rom[TITLE_START + i];
        acc = acc.wrapping_sub(b).wrapping_sub(1);
        i = i + 1;
    }
    acc
}

/// Computes the global checksum of `rom`.
fn gchk(rom: &[u8]) -> (r: u16)
    requires
        rom@.len() >= HEADER_END,
    ensures
        r == spec_gchk(rom@),
{
    let mut acc: u16 = 0;
    let mut i: usize = 0;
    let n = rom.len();
    while i < n
        invariant
            i <= n,
            n == rom@.len() >= HEADER_END,
            acc == gchk_upto(rom@, i as nat),
        decreases n - i,
    {
        if i != 0x014e && i != 0x014f {
            acc = acc.wrapping_add(rom[i] as u16);
        }
        i = i + 1;
    }
    acc
}

impl Header {
    /// Parses the header out of a ROM image.
    ///
    /// Succeeds exactly when the image covers the header area, the kind and
    /// size codes are recognised, and the stored header checksum matches;
    /// the logo and global checksum are only recorded, not enforced.
    pub fn parse(rom: &[u8]) -> (r: Result<Header, Error>)
        ensures
            r is Ok <==> spec_header_ok(rom@),
            r matches Ok(h) ==> {
                &&& h.title@ == rom@.subrange(0x0134, 0x0144)
                &&& Some(h.cart) == spec_kind(rom@[0x0147])
                &&& Some(h.romsz) == spec_romsz(rom@[0x0148])
                &&& Some(h.ramsz) == spec_ramsz(rom@[0x0149])
                &&& h.jpn == (rom@[0x014a] == 0)
                &&& h.version == rom@[0x014c]
                &&& h.logo_ok == spec_logo_ok(rom@)
                &&& h.hchk_ok
                &&& h.gchk_ok == spec_gchk_ok(rom@)
            },
            r matches Err(e) ==> (e is Missing || e matches Error::Kind(_)
                || e matches Error::RomSize(_) || e matches Error::RamSize(_)
                || e is Checksum),
    {
        if rom.len() < HEADER_END {
            return Err(Error::Missing);
        }
        let cart = match Self::kind_of(rom[0x0147]) {
            Some(k) => k,
            None => { return Err(Error::Kind(rom[0x0147])); },
        };
        let romsz = match Self::romsz_of(rom[0x0148]) {
            Some(n) => n,
            None => { return Err(Error::RomSize(rom[0x0148])); },
        };
        let ramsz = match Self::ramsz_of(rom[0x0149]) {
            Some(n) => n,
            None => { return Err(Error::RamSize(rom[0x0149])); },
        };
        if rom[0x014d] != hchk(rom) {
            return Err(Error::Checksum);
        }
        let mut title: Vec<u8> = Vec::new();
        let mut i: usize = 0x0134;
        while i < 0x0144
            invariant
                0x0134 <= i <= 0x0144,
                rom@.len() >= HEADER_END,
                title@ == rom@.subrange(0x0134, i as int),
            decreases 0x0144 - i,
        {
            title.push(rom[i]);
            proof {
                assert(title@ =~= rom@.subrange(0x0134, i + 1));
            }
            i = i + 1;
        }
        Ok(Header {
            title,
            cart,
            romsz,
            ramsz,
            jpn: rom[0x014a] == 0,
            version: rom[0x014c],
            logo_ok: Self::logo_check(rom),
            hchk_ok: true,
            gchk_ok: Self::gchk_check(rom),
        })
    }

    /// Checks the whole header strictly: logo, header checksum, and global
    /// checksum must all match.
    pub fn check(rom: &[u8]) -> (r: Result<(), Error>)
        ensures
            r is Ok <==> (rom@.len() >= HEADER_END && spec_logo_ok(rom@)
                && rom@[0x014d] == spec_hchk(rom@) && spec_gchk_ok(rom@)),
            r matches Err(e) ==> (e is Missing || e is Logo || e is Checksum
                || e is GlobalChecksum),
    {
        if rom.len() < HEADER_END {
            return Err(Error::Missing);
        }
        if !Self::logo_check(rom) {
            return Err(Error::Logo);
        }
        if rom[0x014d] != hchk(rom) {
            return Err(Error::Checksum);
        }
        if !Self::gchk_check(rom) {
            return Err(Error::GlobalChecksum);
        }
        Ok(())
    }

    /// A blank header: no controller, 32 KiB of ROM, no RAM.
    pub fn blank() -> (r: Header)
        ensures
            r.cart == (Kind::Raw { ram: false, bat: false }),
            r.romsz == 0x8000usize,
            r.ramsz == 0usize,
            r.title@ == Seq::<u8>::empty(),
    {
        Header {
            title: Vec::new(),
            cart: Kind::Raw { ram: false, bat: false },
            romsz: 0x8000,
            ramsz: 0,
            jpn: false,
            version: 0,
            logo_ok: false,
            hchk_ok: false,
            gchk_ok: false,
        }
    }

    /// Cartridge kind declared by `code`.
    pub fn kind_of(code: u8) -> (r: Option<Kind>)
        ensures
            r == spec_kind(code),
    {
        match code {
            0x00 => Some(Kind::Raw { ram: false, bat: false }),
            0x01 => Some(Kind::Mbc1 { ram: false, bat: false }),
            0x02 => Some(Kind::Mbc1 { ram: true, bat: false }),
            0x03 => Some(Kind::Mbc1 { ram: true, bat: true }),
            0x05 => Some(Kind::Mbc2 { bat: false }),
            0x06 => Some(Kind::Mbc2 { bat: true }),
            0x08 => Some(Kind::Raw { ram: true, bat: false }),
            0x09 => Some(Kind::Raw { ram: true, bat: true }),
            0x0f => Some(Kind::Mbc3 { ram: false, bat: true, rtc: true }),
            0x10 => Some(Kind::Mbc3 { ram: true, bat: true, rtc: true }),
            0x11 => Some(Kind::Mbc3 { ram: false, bat: false, rtc: false }),
            0x12 => Some(Kind::Mbc3 { ram: true, bat: false, rtc: false }),
            0x13 => Some(Kind::Mbc3 { ram: true, bat: true, rtc: false }),
            0x19 => Some(Kind::Mbc5 { ram: false, bat: false, rumble: false }),
            0x1a => Some(Kind::Mbc5 { ram: true, bat: false, rumble: false }),
            0x1b => Some(Kind::Mbc5 { ram: true, bat: true, rumble: false }),
            0x1c => Some(Kind::Mbc5 { ram: false, bat: false, rumble: true }),
            0x1d => Some(Kind::Mbc5 { ram: true, bat: false, rumble: true }),
            0x1e => Some(Kind::Mbc5 { ram: true, bat: true, rumble: true }),
            _ => None,
        }
    }

    /// ROM size in bytes declared by `code`.
    pub fn romsz_of(code: u8) -> (r: Option<usize>)
        ensures
            r == spec_romsz(code),
    {
        match code {
            0x00 => Some(0x0000_8000usize),
            0x01 => Some(0x0001_0000usize),
            0x02 => Some(0x0002_0000usize),
            0x03 => Some(0x0004_0000usize),
            0x04 => Some(0x0008_0000usize),
            0x05 => Some(0x0010_0000usize),
            0x06 => Some(0x0020_0000usize),
            0x07 => Some(0x0040_0000usize),
            0x08 => Some(0x0080_0000usize),
            _ => None,
        }
    }

    /// RAM size in bytes declared by `code`.
    pub fn ramsz_of(code: u8) -> (r: Option<usize>)
        ensures
            r == spec_ramsz(code),
    {
        match code {
            0x00 => Some(0usize),
            0x02 => Some(0x0_2000usize),
            0x03 => Some(0x0_8000usize),
            0x04 => Some(0x2_0000usize),
            0x05 => Some(0x1_0000usize),
            _ => None,
        }
    }

    /// Whether the logo area of `rom` holds the boot logo.
    fn logo_check(rom: &[u8]) -> (r: bool)
        requires
            rom@.len() >= HEADER_END,
        ensures
            r == spec_logo_ok(rom@),
    {
        let want = logo();
        let mut i: usize = 0;
        while i < 48
            invariant
                i <= 48,
                rom@.len() >= HEADER_END,
                want@ == spec_logo(),
                forall|j: int| 0 <= j < i ==> rom@[0x0104 + j] == spec_logo()[j],
            decreases 48 - i,
        {
            if rom[0x0104 + i] != want[i] {
                proof {
                    assert(rom@.subrange(0x0104, 0x0134)[i as int] != spec_logo()[i as int]);
                }
                return false;
            }
            i = i + 1;
        }
        proof {
            assert(rom@.subrange(0x0104, 0x0134) =~= spec_logo());
        }
        true
    }

    /// Whether the stored global checksum of `rom` matches its bytes.
    fn gchk_check(rom: &[u8]) -> (r: bool)
        requires
            rom@.len() >= HEADER_END,
        ensures
            r == spec_gchk_ok(rom@),
    {
        let stored: u16 = (rom[0x014e] as u16) * 0x100 + (rom[0x014f] as u16);
        stored == gchk(rom)
    }
}

} // verus!
