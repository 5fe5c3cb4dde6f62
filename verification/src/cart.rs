//! Game ROM cartridge.
//!
//! Parses a [`Header`] from the ROM image, owns the ROM and external-RAM
//! buffers, and interposes a bank controller on bus accesses to
//! `0x0000..0x8000` and the external-RAM window.

use vstd::prelude::*;
use crate::header::{self, Header, Kind};
use crate::mbc::{self, Mbc};

verus! {

/// A failure while constructing a [`Cartridge`].
#[derive(Clone, Copy, Debug, PartialEq, Eq, Structural)]
pub enum Error {
    /// The header could not be parsed or checked.
    Header(header::Error),
    /// The image length differs from the declared ROM size under strict
    /// checking.
    Mismatch { declared: usize, found: usize },
    /// The declared cartridge kind has no controller implementation.
    Unimplemented(Kind),
}

/// The ROM image padded with `0xff` (or truncated) to the declared size.
pub open spec fn spec_pad(rom: Seq<u8>, romsz: int) -> Seq<u8> {
    Seq::new(romsz as nat, |i: int| if i < rom.len() { rom[i] } else { 0xffu8 })
}

/// Length of the external-RAM buffer for a cartridge kind: absent RAM gets
/// no buffer, and MBC1 cartridges get at least one full bank.
pub open spec fn spec_ram_len(cart: Kind, ramsz: int) -> int {
    match cart {
        Kind::Raw { ram, .. } => if ram { ramsz } else { 0 },
        Kind::Mbc1 { ram, .. } => if ram {
            if ramsz < 0x2000 { 0x2000 } else { ramsz }
        } else {
            0
        },
        Kind::Mbc5 { ram, .. } => if ram { ramsz } else { 0 },
        _ => 0,
    }
}

/// Initial controller state for a cartridge kind, when the kind is
/// supported.
pub open spec fn spec_mbc_init(cart: Kind) -> Option<Mbc> {
    match cart {
        Kind::Raw { .. } => Some(Mbc::Raw),
        Kind::Mbc1 { .. } => Some(
            Mbc::Mbc1 { lo: 1, hi: 0, ram_mode: false, ram_enable: false },
        ),
        Kind::Mbc5 { .. } => Some(Mbc::Mbc5 { rom: 1, ram: 0, ram_enable: false }),
        _ => None,
    }
}

/// Cartridge model: parsed header, ROM and RAM buffers, and the bank
/// controller interposed on their bus windows.
#[derive(Clone, Debug)]
pub struct Cartridge {
    /// Parsed header fields.
    pub header: Header,
    /// ROM bytes, padded up to the declared size.
    pub rom: Vec<u8>,
    /// External RAM bytes.
    pub ram: Vec<u8>,
    /// Bank-controller state.
    pub mbc: Mbc,
}

impl Cartridge {
    /// Buffer sizes and controller state agree with the header.
    pub open spec fn wf(self) -> bool {
        &&& mbc::spec_romsz_valid(self.header.romsz as int)
        &&& self.rom@.len() == self.header.romsz
        &&& self.ram@.len() == spec_ram_len(self.header.cart, self.header.ramsz as int)
        &&& mbc::spec_ramlen_valid(self.ram@.len() as int)
        &&& self.mbc.wf()
        &&& spec_mbc_matches(self.header.cart, self.mbc)
    }

    /// Builds the buffers and controller behind a parsed header.
    fn build(header: Header, rom: &[u8]) -> (r: Result<Cartridge, Error>)
        requires
            mbc::spec_romsz_valid(header.romsz as int),
            mbc::spec_ramlen_valid(spec_ram_len(header.cart, header.ramsz as int)),
        ensures
            r is Ok <==> spec_mbc_init(header.cart) is Some,
            r matches Ok(c) ==> {
                &&& c.wf()
                &&& c.header == header
                &&& c.rom@ == spec_pad(rom@, header.romsz as int)
                &&& c.ram@ == Seq::new(
                    spec_ram_len(header.cart, header.ramsz as int) as nat,
                    |i: int| 0u8,
                )
                &&& Some(c.mbc) == spec_mbc_init(header.cart)
            },
            r matches Err(e) ==> e == Error::Unimplemented(header.cart),
    {
        let mbc = match header.cart {
            Kind::Raw { .. } => Mbc::Raw,
            Kind::Mbc1 { .. } => Mbc::Mbc1 { lo: 1, hi: 0, ram_mode: false, ram_enable: false },
            Kind::Mbc5 { .. } => Mbc::Mbc5 { rom: 1, ram: 0, ram_enable: false },
            kind => { return Err(Error::Unimplemented(kind)); },
        };
        let romsz = header.romsz;
        let mut body: Vec<u8> = Vec::new();
        let n = rom.len();
        let mut i: usize = 0;
        while i < romsz
            invariant
                i <= romsz,
                n == rom@.len(),
                body@.len() == i,
                forall|j: int| 0 <= j < i ==> body@[j] == spec_pad(rom@, romsz as int)[j],
            decreases romsz - i,
        {
            if i < n {
                body.push(rom[i]);
            } else {
                body.push(0xff);
            }
            i = i + 1;
        }
        let ramlen = match header.cart {
            Kind::Raw { ram, .. } => if ram { header.ramsz } else { 0 },
            Kind::Mbc1 { ram, .. } => if ram {
                if header.ramsz < 0x2000 { 0x2000 } else { header.ramsz }
            } else {
                0
            },
            Kind::Mbc5 { ram, .. } => if ram { header.ramsz } else { 0 },
            _ => 0,
        };
        let eram: Vec<u8> = vec![0u8; ramlen];
        let c = Cartridge { header, rom: body, ram: eram, mbc };
        proof {
            assert(c.rom@ =~= spec_pad(rom@, c.header.romsz as int));
            assert(c.ram@ =~= Seq::new(
                spec_ram_len(c.header.cart, c.header.ramsz as int) as nat,
                |i: int| 0u8,
            ));
        }
        Ok(c)
    }

    /// Constructs a new `Cartridge` from a ROM image.
    ///
    /// Succeeds exactly when the header parses ([`header::spec_header_ok`])
    /// and its cartridge kind has a controller implementation; the image is
    /// padded with `0xff` up to the declared ROM size, or truncated down to
    /// it.
    pub fn new(rom: &[u8]) -> (r: Result<Cartridge, Error>)
        ensures
            r is Ok <==> (header::spec_header_ok(rom@) && spec_mbc_init(
                spec_kind_of(rom@),
            ) is Some),
            r matches Ok(c) ==> {
                &&& c.wf()
                &&& Some(c.header.cart) == header::spec_kind(rom@[0x0147])
                &&& Some(c.header.romsz) == header::spec_romsz(rom@[0x0148])
                &&& Some(c.header.ramsz) == header::spec_ramsz(rom@[0x0149])
                &&& c.rom@ == spec_pad(rom@, c.header.romsz as int)
                &&& Some(c.mbc) == spec_mbc_init(c.header.cart)
            },
            r matches Err(e) ==> if header::spec_header_ok(rom@) {
                e == Error::Unimplemented(spec_kind_of(rom@))
            } else {
                e matches Error::Header(_)
            },
    {
        let header = match Header::parse(rom) {
            Ok(h) => h,
            Err(e) => { return Err(Error::Header(e)); },
        };
        Self::build(header, rom)
    }

    /// Constructs a new `Cartridge`, explicitly checking the entire header:
    /// the logo and both checksums must match, and the image length must
    /// equal the declared ROM size.
    pub fn checked(rom: &[u8]) -> (r: Result<Cartridge, Error>)
        ensures
            r is Ok <==> {
                &&& header::spec_header_ok(rom@)
                &&& header::spec_logo_ok(rom@)
                &&& header::spec_gchk_ok(rom@)
                &&& spec_mbc_init(spec_kind_of(rom@)) is Some
                &&& header::spec_romsz(rom@[0x0148]) == Some(rom@.len() as usize)
            },
            r matches Ok(c) ==> {
                &&& c.wf()
                &&& c.rom@ == rom@
                &&& Some(c.mbc) == spec_mbc_init(c.header.cart)
            },
    {
        if let Err(e) = Header::check(rom) {
            return Err(Error::Header(e));
        }
        let header = match Header::parse(rom) {
            Ok(h) => h,
            Err(e) => { return Err(Error::Header(e)); },
        };
        if rom.len() != header.romsz {
            return Err(Error::Mismatch { declared: header.romsz, found: rom.len() });
        }
        let romsz = header.romsz;
        let r = Self::build(header, rom);
        proof {
            if r is Ok {
                assert(r->Ok_0.rom@ =~= rom@);
            }
        }
        r
    }

    /// Constructs a new `Cartridge` without enforcing the header: an image
    /// whose header does not parse gets a blank one.
    ///
    /// The caller must not hand in a parseable header whose kind has no
    /// controller implementation (the original construction has no error
    /// path here).
    pub fn unchecked(rom: &[u8]) -> (r: Cartridge)
        requires
            header::spec_header_ok(rom@) ==> spec_mbc_init(spec_kind_of(rom@)) is Some,
        ensures
            r.wf(),
            header::spec_header_ok(rom@) ==> {
                &&& Some(r.header.cart) == header::spec_kind(rom@[0x0147])
                &&& Some(r.header.romsz) == header::spec_romsz(rom@[0x0148])
                &&& Some(r.header.ramsz) == header::spec_ramsz(rom@[0x0149])
                &&& r.rom@ == spec_pad(rom@, r.header.romsz as int)
                &&& Some(r.mbc) == spec_mbc_init(r.header.cart)
            },
            !header::spec_header_ok(rom@) ==> {
                &&& r.header.cart == (Kind::Raw { ram: false, bat: false })
                &&& r.header.romsz == 0x8000
                &&& r.header.ramsz == 0
                &&& r.rom@ == spec_pad(rom@, 0x8000)
                &&& r.mbc == Mbc::Raw
            },
    {
        let header = match Header::parse(rom) {
            Ok(h) => h,
            Err(_) => Header::blank(),
        };
        match Self::build(header, rom) {
            Ok(c) => c,
            Err(_) => {
                proof {
                    assert(false);
                }
                Cartridge {
                    header: Header::blank(),
                    rom: Vec::new(),
                    ram: Vec::new(),
                    mbc: Mbc::Raw,
                }
            },
        }
    }

    /// Constructs a blank `Cartridge`: no controller, 32 KiB of `0xff` ROM,
    /// no RAM.
    pub fn blank() -> (r: Cartridge)
        ensures
            r.wf(),
            r.rom@ == Seq::new(0x8000, |i: int| 0xffu8),
            r.ram@.len() == 0,
            r.mbc == Mbc::Raw,
    {
        let rom: Vec<u8> = vec![0xffu8; 0x8000];
        let c = Cartridge { header: Header::blank(), rom, ram: Vec::new(), mbc: Mbc::Raw };
        proof {
            assert(c.rom@ =~= Seq::new(0x8000, |i: int| 0xffu8));
        }
        c
    }

    /// Gets a reference to the cartridge's header.
    pub fn header(&self) -> (r: &Header)
        ensures
            r == &self.header,
    {
        &self.header
    }

    /// Reads the byte served at ROM-area bus address `addr`, through the
    /// current bank selection.
    pub fn rom_read(&self, addr: u16) -> (r: u8)
        requires
            self.wf(),
            addr < 0x8000,
        ensures
            r == self.rom@[mbc::spec_rom_index(self.mbc, self.header.romsz as int, addr as int)],
    {
        proof {
            mbc::lemma_rom_index_in_bounds(self.mbc, self.header.romsz as int, addr as int);
        }
        let nb: usize = self.header.romsz / 0x4000;
        let bank: usize = if addr < 0x4000 {
            match self.mbc {
                Mbc::Mbc1 { hi, ram_mode: true, .. } => ((hi as usize) * 32) % nb,
                _ => 0,
            }
        } else {
            match self.mbc {
                Mbc::Raw => 1,
                Mbc::Mbc1 { lo, hi, .. } => ((hi as usize) * 32 + (lo as usize)) % nb,
                Mbc::Mbc5 { rom, .. } => (rom as usize) % nb,
            }
        };
        let off: usize = (addr as usize) % 0x4000;
        self.rom[bank * 0x4000 + off]
    }

    /// Applies a write of `v` at ROM-area bus address `addr` to the bank
    /// controller; the ROM buffer itself never changes.
    pub fn rom_write(&mut self, addr: u16, v: u8)
        requires
            old(self).wf(),
            addr < 0x8000,
        ensures
            final(self).wf(),
            final(self).mbc == mbc::spec_mbc_write(old(self).mbc, addr as int, v),
            final(self).header == old(self).header,
            final(self).rom@ == old(self).rom@,
            final(self).ram@ == old(self).ram@,
    {
        proof {
            mbc::lemma_mbc_write_wf(self.mbc, addr as int, v);
        }
        self.mbc = match self.mbc {
            Mbc::Raw => Mbc::Raw,
            Mbc::Mbc1 { lo, hi, ram_mode, ram_enable } => {
                if addr < 0x2000 {
                    Mbc::Mbc1 { lo, hi, ram_mode, ram_enable: v % 16 == 0x0a }
                } else if addr < 0x4000 {
                    let b = v % 32;
                    Mbc::Mbc1 { lo: if b == 0 { 1 } else { b }, hi, ram_mode, ram_enable }
                } else if addr < 0x6000 {
                    Mbc::Mbc1 { lo, hi: v % 4, ram_mode, ram_enable }
                } else {
                    Mbc::Mbc1 { lo, hi, ram_mode: v % 2 == 1, ram_enable }
                }
            },
            Mbc::Mbc5 { rom, ram, ram_enable } => {
                if addr < 0x2000 {
                    Mbc::Mbc5 { rom, ram, ram_enable: v % 16 == 0x0a }
                } else if addr < 0x3000 {
                    Mbc::Mbc5 { rom: (rom / 256) * 256 + (v as u16), ram, ram_enable }
                } else if addr < 0x4000 {
                    Mbc::Mbc5 { rom: ((v as u16) % 2) * 256 + rom % 256, ram, ram_enable }
                } else if addr < 0x6000 {
                    Mbc::Mbc5 { rom, ram: v % 16, ram_enable }
                } else {
                    Mbc::Mbc5 { rom, ram, ram_enable }
                }
            },
        };
    }

    /// Reads the byte served at external-RAM window offset `off`, or `0xff`
    /// when the access reaches no RAM.
    pub fn ram_read(&self, off: u16) -> (r: u8)
        requires
            self.wf(),
            off < 0x2000,
        ensures
            r == match mbc::spec_ram_index(self.mbc, self.ram@.len() as int, off as int) {
                Some(i) => self.ram@[i],
                None => 0xffu8,
            },
    {
        proof {
            mbc::lemma_ram_index_in_bounds(self.mbc, self.ram@.len() as int, off as int);
        }
        match self.ram_index(off) {
            Some(i) => self.ram[i],
            None => 0xff,
        }
    }

    /// Applies a write of `v` at external-RAM window offset `off`, dropped
    /// when the access reaches no RAM.
    pub fn ram_write(&mut self, off: u16, v: u8)
        requires
            old(self).wf(),
            off < 0x2000,
        ensures
            final(self).wf(),
            final(self).ram@ == match mbc::spec_ram_index(
                old(self).mbc,
                old(self).ram@.len() as int,
                off as int,
            ) {
                Some(i) => old(self).ram@.update(i, v),
                None => old(self).ram@,
            },
            final(self).header == old(self).header,
            final(self).rom@ == old(self).rom@,
            final(self).mbc == old(self).mbc,
    {
        proof {
            mbc::lemma_ram_index_in_bounds(self.mbc, self.ram@.len() as int, off as int);
        }
        match self.ram_index(off) {
            Some(i) => {
                self.ram[i] = v;
            },
            None => {},
        }
    }

    /// Returns the bank controller to its initial state; the ROM and the
    /// external RAM contents persist.
    pub fn reset(&mut self)
        requires
            old(self).wf(),
        ensures
            final(self).wf(),
            final(self).header == old(self).header,
            final(self).rom@ == old(self).rom@,
            final(self).ram@ == old(self).ram@,
            Some(final(self).mbc) == spec_mbc_init(old(self).header.cart),
    {
        self.mbc = match self.header.cart {
            Kind::Mbc1 { .. } => Mbc::Mbc1 { lo: 1, hi: 0, ram_mode: false, ram_enable: false },
            Kind::Mbc5 { .. } => Mbc::Mbc5 { rom: 1, ram: 0, ram_enable: false },
            _ => Mbc::Raw,
        };
    }

    /// Index into the RAM buffer reached by window offset `off`, if any.
    fn ram_index(&self, off: u16) -> (r: Option<usize>)
        requires
            self.wf(),
            off < 0x2000,
        ensures
            match r {
                Some(i) => {
                    &&& Some(i as int) == mbc::spec_ram_index(
                        self.mbc,
                        self.ram@.len() as int,
                        off as int,
                    )
                    &&& i < self.ram@.len()
                },
                None => mbc::spec_ram_index(
                    self.mbc,
                    self.ram@.len() as int,
                    off as int,
                ) is None,
            },
    {
        proof {
            mbc::lemma_ram_index_in_bounds(self.mbc, self.ram@.len() as int, off as int);
        }
        let ramlen = self.ram.len();
        if ramlen == 0 {
            return None;
        }
        let nb: usize = ramlen / 0x2000;
        match self.mbc {
            Mbc::Raw => Some(off as usize),
            Mbc::Mbc1 { hi, ram_mode, ram_enable, .. } => {
                if ram_enable {
                    let bank: usize = if ram_mode { (hi as usize) % nb } else { 0 };
                    Some(bank * 0x2000 + off as usize)
                } else {
                    None
                }
            },
            Mbc::Mbc5 { ram, ram_enable, .. } => {
                if ram_enable {
                    Some(((ram as usize) % nb) * 0x2000 + off as usize)
                } else {
                    None
                }
            },
        }
    }
}

/// The cartridge kind declared by a ROM image with a parseable header.
pub open spec fn spec_kind_of(rom: Seq<u8>) -> Kind {
    match header::spec_kind(rom[0x0147]) {
        Some(k) => k,
        None => Kind::Raw { ram: false, bat: false },
    }
}

/// The controller state variant agrees with the declared cartridge kind.
pub open spec fn spec_mbc_matches(cart: Kind, mbc: Mbc) -> bool {
    match cart {
        Kind::Raw { .. } => mbc is Raw,
        Kind::Mbc1 { .. } => mbc matches Mbc::Mbc1 { .. },
        Kind::Mbc5 { .. } => mbc matches Mbc::Mbc5 { .. },
        _ => false,
    }
}

} // verus!
