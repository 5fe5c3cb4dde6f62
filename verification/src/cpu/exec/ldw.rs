//! 16-bit load instructions: `LD rr,d16`, `LD (a16),SP`, `LD HL,SP+e8`
//! and `LD SP,HL`.

use vstd::prelude::*;
use crate::bus::{self, Bus};
use crate::cpu::{spec_hl, Cpu, Error, Operation, Return};

verus! {

/// The initial micro-step of this family.
pub fn default() -> (r: Operation)
    ensures
        r == Operation::Ldw(Ldw::Fetch),
{
    Operation::Ldw(Ldw::Fetch)
}

/// Micro-steps of the 16-bit loads.
#[derive(Clone, Copy, Debug, PartialEq, Eq, Structural)]
pub enum Ldw {
    /// Decode the form (same cycle as the opcode fetch).
    Fetch,
    /// Fetch the low immediate byte.
    Lo,
    /// Fetch the high immediate byte and store the pair.
    Hi(u8),
    /// Store the low `SP` byte at the absolute address.
    StoreLo(u16),
    /// Store the high `SP` byte one above it.
    StoreHi(u16),
    /// Fetch the signed offset of `LD HL,SP+e8`.
    E8,
    /// Compute `HL = SP + e8` and its flags.
    HlSpE8(u8),
    /// Copy `HL` into `SP`.
    SpHl,
}

impl Ldw {
    /// The effect of one micro-step, as a function.
    #[verifier::opaque]
    pub open spec fn spec_exec(self, code: u8, c: Cpu, b: bus::BusV) -> (Cpu, bus::BusV, Return) {
        match self {
            Ldw::Fetch => {
                if code == 0x01 || code == 0x11 || code == 0x21 || code == 0x31 || code
                    == 0x08 {
                    (c, b, Ok(Some(Operation::Ldw(Ldw::Lo))))
                } else if code == 0xf8 {
                    (c, b, Ok(Some(Operation::Ldw(Ldw::E8))))
                } else if code == 0xf9 {
                    (c, b, Ok(Some(Operation::Ldw(Ldw::SpHl))))
                } else {
                    (c, b, Err(Error::Opcode(code)))
                }
            },
            Ldw::Lo => (
                crate::cpu::exec::ld::spec_stepped(c),
                b,
                Ok(Some(Operation::Ldw(Ldw::Hi(bus::spec_read_cpu(b, c.pc))))),
            ),
            Ldw::Hi(lo) => {
                let a16 = (bus::spec_read_cpu(b, c.pc) * 256 + lo) as u16;
                let c2 = crate::cpu::exec::ld::spec_stepped(c);
                if code == 0x01 {
                    (Cpu { b: (a16 / 256) as u8, c: (a16 % 256) as u8, ..c2 }, b, Ok(None))
                } else if code == 0x11 {
                    (Cpu { d: (a16 / 256) as u8, e: (a16 % 256) as u8, ..c2 }, b, Ok(None))
                } else if code == 0x21 {
                    (Cpu { h: (a16 / 256) as u8, l: (a16 % 256) as u8, ..c2 }, b, Ok(None))
                } else if code == 0x31 {
                    (Cpu { sp: a16, ..c2 }, b, Ok(None))
                } else {
                    (c2, b, Ok(Some(Operation::Ldw(Ldw::StoreLo(a16)))))
                }
            },
            Ldw::StoreLo(a16) => (
                c,
                bus::spec_write(b, a16, (c.sp % 256) as u8),
                Ok(Some(Operation::Ldw(Ldw::StoreHi(a16)))),
            ),
            Ldw::StoreHi(a16) => (
                c,
                bus::spec_write(b, vstd::wrapping::u16_specs::wrapping_add(a16, 1), (c.sp / 256) as u8),
                Ok(None),
            ),
            Ldw::E8 => (
                crate::cpu::exec::ld::spec_stepped(c),
                b,
                Ok(Some(Operation::Ldw(Ldw::HlSpE8(bus::spec_read_cpu(b, c.pc))))),
            ),
            Ldw::HlSpE8(e8) => {
                let off: int = if e8 < 128 {
                    e8 as int
                } else {
                    e8 + 0xff00
                };
                let res = ((c.sp + off) % 0x1_0000) as u16;
                (
                    Cpu {
                        h: (res / 256) as u8,
                        l: (res % 256) as u8,
                        zf: false,
                        nf: false,
                        hf: (c.sp % 16) + (e8 % 16) > 0x0f,
                        cf: (c.sp % 256) + e8 > 0xff,
                        ..c
                    },
                    b,
                    Ok(None),
                )
            },
            Ldw::SpHl => (Cpu { sp: spec_hl(c), ..c }, b, Ok(None)),
        }
    }

    /// Advances this instruction by one micro-step.
    pub fn exec(self, code: u8, cpu: &mut Cpu, bus: &mut Bus) -> (r: Return)
        requires
            old(bus).wf(),
        ensures
            final(bus).wf(),
            (*final(cpu), final(bus)@, r) == self.spec_exec(code, *old(cpu), old(bus)@),
            r matches Err(e) ==> e matches Error::Opcode(_),
            self matches Ldw::StoreLo(a16) ==> final(bus)@ == bus::spec_write(
                old(bus)@,
                a16,
                (old(cpu).sp % 256) as u8,
            ),
            self matches Ldw::StoreHi(a16) ==> final(bus)@ == bus::spec_write(
                old(bus)@,
                vstd::wrapping::u16_specs::wrapping_add(a16, 1),
                (old(cpu).sp / 256) as u8,
            ),
            !(self matches Ldw::StoreLo(_) || self matches Ldw::StoreHi(_)) ==> *final(bus)
                == *old(bus),
            self is Lo ==> (r == Ok::<Option<Operation>, Error>(Some(Operation::Ldw(
                Ldw::Hi(bus::spec_read_cpu(old(bus)@, old(cpu).pc)),
            ))) && *final(cpu) == crate::cpu::exec::ld::spec_stepped(*old(cpu))),
            self matches Ldw::Hi(lo) ==> ({
                let a16 = (bus::spec_read_cpu(old(bus)@, old(cpu).pc) * 256 + lo) as u16;
                let stepped = crate::cpu::exec::ld::spec_stepped(*old(cpu));
                if code == 0x01 {
                    r == Ok::<Option<Operation>, Error>(None) && *final(cpu) == (Cpu {
                        b: (a16 / 256) as u8,
                        c: (a16 % 256) as u8,
                        ..stepped
                    })
                } else if code == 0x11 {
                    r == Ok::<Option<Operation>, Error>(None) && *final(cpu) == (Cpu {
                        d: (a16 / 256) as u8,
                        e: (a16 % 256) as u8,
                        ..stepped
                    })
                } else if code == 0x21 {
                    r == Ok::<Option<Operation>, Error>(None) && *final(cpu) == (Cpu {
                        h: (a16 / 256) as u8,
                        l: (a16 % 256) as u8,
                        ..stepped
                    })
                } else if code == 0x31 {
                    r == Ok::<Option<Operation>, Error>(None) && *final(cpu) == (Cpu {
                        sp: a16,
                        ..stepped
                    })
                } else {
                    r == Ok::<Option<Operation>, Error>(Some(Operation::Ldw(Ldw::StoreLo(
                        a16,
                    )))) && *final(cpu) == stepped
                }
            }),
            self matches Ldw::StoreLo(a16) ==> (r == Ok::<Option<Operation>, Error>(Some(
                Operation::Ldw(Ldw::StoreHi(a16)),
            )) && *final(cpu) == *old(cpu)),
            self matches Ldw::StoreHi(_) ==> (r == Ok::<Option<Operation>, Error>(None)
                && *final(cpu) == *old(cpu)),
            self is E8 ==> (r == Ok::<Option<Operation>, Error>(Some(Operation::Ldw(
                Ldw::HlSpE8(bus::spec_read_cpu(old(bus)@, old(cpu).pc)),
            ))) && *final(cpu) == crate::cpu::exec::ld::spec_stepped(*old(cpu))),
            self is SpHl ==> (r == Ok::<Option<Operation>, Error>(None) && *final(cpu) == (Cpu {
                sp: spec_hl(*old(cpu)),
                ..*old(cpu)
            })),
    {
        proof {
            reveal(Ldw::spec_exec);
        }
        match self {
            Ldw::Fetch => fetch(code, cpu),
            Ldw::Lo => {
                let lo = cpu.fetchbyte(bus);
                Ok(Some(Operation::Ldw(Ldw::Hi(lo))))
            },
            Ldw::Hi(lo) => {
                let hi = cpu.fetchbyte(bus);
                let a16: u16 = (hi as u16) * 256 + (lo as u16);
                if code == 0x01 {
                    cpu.set_bc(a16);
                    Ok(None)
                } else if code == 0x11 {
                    cpu.set_de(a16);
                    Ok(None)
                } else if code == 0x21 {
                    cpu.set_hl(a16);
                    Ok(None)
                } else if code == 0x31 {
                    cpu.sp = a16;
                    Ok(None)
                } else {
                    Ok(Some(Operation::Ldw(Ldw::StoreLo(a16))))
                }
            },
            Ldw::StoreLo(a16) => {
                bus.write(a16, (cpu.sp % 256) as u8);
                Ok(Some(Operation::Ldw(Ldw::StoreHi(a16))))
            },
            Ldw::StoreHi(a16) => {
                bus.write(a16.wrapping_add(1), (cpu.sp / 256) as u8);
                Ok(None)
            },
            Ldw::E8 => {
                let e8 = cpu.fetchbyte(bus);
                Ok(Some(Operation::Ldw(Ldw::HlSpE8(e8))))
            },
            Ldw::HlSpE8(e8) => hl_sp_e8(code, cpu, e8),
            Ldw::SpHl => {
                cpu.sp = cpu.hl();
                Ok(None)
            },
        }
    }
}

/// Decodes the form; any opcode outside the family is undefined here.
pub fn fetch(code: u8, cpu: &mut Cpu) -> (r: Return)
    ensures
        *final(cpu) == *old(cpu),
        (code == 0x01 || code == 0x11 || code == 0x21 || code == 0x31 || code == 0x08) ==> r
            == Ok::<Option<Operation>, Error>(Some(Operation::Ldw(Ldw::Lo))),
        code == 0xf8 ==> r == Ok::<Option<Operation>, Error>(Some(Operation::Ldw(Ldw::E8))),
        code == 0xf9 ==> r == Ok::<Option<Operation>, Error>(Some(Operation::Ldw(Ldw::SpHl))),
        !(code == 0x01 || code == 0x11 || code == 0x21 || code == 0x31 || code == 0x08 || code
            == 0xf8 || code == 0xf9) ==> r == Err::<Option<Operation>, Error>(Error::Opcode(code)),
{
    match code {
        0x01 | 0x11 | 0x21 | 0x31 | 0x08 => Ok(Some(Operation::Ldw(Ldw::Lo))),
        0xf8 => Ok(Some(Operation::Ldw(Ldw::E8))),
        0xf9 => Ok(Some(Operation::Ldw(Ldw::SpHl))),
        _ => Err(Error::Opcode(code)),
    }
}

/// Computes `HL = SP + e8` with the sign-extended offset; `Z` and `N`
/// clear, `H` and `C` come from the low-byte add of the unsigned offset.
pub fn hl_sp_e8(code: u8, cpu: &mut Cpu, e8: u8) -> (r: Return)
    ensures
        r == Ok::<Option<Operation>, Error>(None),
        ({
            let off: int = if e8 < 128 {
                e8 as int
            } else {
                e8 + 0xff00
            };
            let res = ((old(cpu).sp + off) % 0x1_0000) as u16;
            *final(cpu) == (Cpu {
                h: (res / 256) as u8,
                l: (res % 256) as u8,
                zf: false,
                nf: false,
                hf: (old(cpu).sp % 16) + (e8 % 16) > 0x0f,
                cf: (old(cpu).sp % 256) + e8 > 0xff,
                ..*old(cpu)
            })
        }),
{
    let sp = cpu.sp;
    let off: u32 = if e8 < 128 {
        e8 as u32
    } else {
        e8 as u32 + 0xff00
    };
    let res: u16 = ((sp as u32 + off) % 0x1_0000) as u16;
    cpu.set_hl(res);
    cpu.zf = false;
    cpu.nf = false;
    cpu.hf = (sp % 16) + (e8 as u16 % 16) > 0x0f;
    cpu.cf = (sp % 256) + e8 as u16 > 0xff;
    Ok(None)
}

} // verus!
