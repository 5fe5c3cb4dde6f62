//! 8-bit load instructions: register moves, immediate loads, the
//! indirect forms through `BC`, `DE` and `HL` (with post-increment and
//! post-decrement), and the high-page and absolute forms.

use vstd::prelude::*;
use crate::bus::{self, Bus};
use crate::cpu::{spec_bc, spec_de, spec_hl, spec_reg8, spec_set_reg8, Cpu, Error, Operation, Return};

verus! {

/// The initial micro-step of this family.
pub fn default() -> (r: Operation)
    ensures
        r == Operation::Ld(Ld::Fetch),
{
    Operation::Ld(Ld::Fetch)
}

/// Micro-steps of the 8-bit loads.
#[derive(Clone, Copy, Debug, PartialEq, Eq, Structural)]
pub enum Ld {
    /// Decode the form (same cycle as the opcode fetch).
    Fetch,
    /// Fetch an immediate data byte.
    DataImm,
    /// Fetch the low byte of an absolute address.
    AddrLo,
    /// Fetch the high byte of an absolute address.
    AddrHi(u8),
    /// Read the byte at the resolved address into the destination.
    Read(u16),
    /// Write the byte to the resolved address.
    Write(u16, u8),
}

/// The register file after one operand fetch: `PC` advanced, unless the
/// armed halt bug held it still.
pub open spec fn spec_stepped(c: Cpu) -> Cpu {
    Cpu {
        pc: if c.halt_bug {
            c.pc
        } else {
            vstd::wrapping::u16_specs::wrapping_add(c.pc, 1)
        },
        halt_bug: false,
        ..c
    }
}

/// `HL` after a post-increment or post-decrement form; other opcodes
/// leave it alone.
pub open spec fn spec_hl_after(c: Cpu, code: u8) -> u16 {
    if code == 0x22 || code == 0x2a {
        ((spec_hl(c) + 1) % 0x1_0000) as u16
    } else if code == 0x32 || code == 0x3a {
        (((spec_hl(c) - 1) % 0x1_0000 + 0x1_0000) % 0x1_0000) as u16
    } else {
        spec_hl(c)
    }
}

/// Decode of the fetch cycle: the state the register file moves to and
/// the micro-step that follows, if the opcode belongs to this family.
pub open spec fn spec_fetch(c: Cpu, code: u8) -> Option<(Cpu, Return)> {
    if 0x40 <= code < 0x80 && code != 0x76 {
        let dst = (((code - 0x40) / 8) % 8) as u8;
        let src = (code % 8) as u8;
        if src == 6 {
            Some((c, Ok(Some(Operation::Ld(Ld::Read(spec_hl(c)))))))
        } else if dst == 6 {
            Some((c, Ok(Some(Operation::Ld(Ld::Write(spec_hl(c), spec_reg8(c, src)))))))
        } else {
            Some((spec_set_reg8(c, dst, spec_reg8(c, src)), Ok(None)))
        }
    } else if code < 0x40 && code % 8 == 6 {
        // LD r,d8 and LD (HL),d8
        Some((c, Ok(Some(Operation::Ld(Ld::DataImm)))))
    } else if code == 0x02 {
        Some((c, Ok(Some(Operation::Ld(Ld::Write(spec_bc(c), c.a))))))
    } else if code == 0x12 {
        Some((c, Ok(Some(Operation::Ld(Ld::Write(spec_de(c), c.a))))))
    } else if code == 0x22 || code == 0x32 {
        let nhl = spec_hl_after(c, code);
        Some((
            Cpu { h: (nhl / 256) as u8, l: (nhl % 256) as u8, ..c },
            Ok(Some(Operation::Ld(Ld::Write(spec_hl(c), c.a)))),
        ))
    } else if code == 0x0a {
        Some((c, Ok(Some(Operation::Ld(Ld::Read(spec_bc(c)))))))
    } else if code == 0x1a {
        Some((c, Ok(Some(Operation::Ld(Ld::Read(spec_de(c)))))))
    } else if code == 0x2a || code == 0x3a {
        let nhl = spec_hl_after(c, code);
        Some((
            Cpu { h: (nhl / 256) as u8, l: (nhl % 256) as u8, ..c },
            Ok(Some(Operation::Ld(Ld::Read(spec_hl(c))))),
        ))
    } else if code == 0xe2 {
        Some((c, Ok(Some(Operation::Ld(Ld::Write((0xff00 + c.c) as u16, c.a))))))
    } else if code == 0xf2 {
        Some((c, Ok(Some(Operation::Ld(Ld::Read((0xff00 + c.c) as u16))))))
    } else if code == 0xe0 || code == 0xf0 {
        Some((c, Ok(Some(Operation::Ld(Ld::DataImm)))))
    } else if code == 0xea || code == 0xfa {
        Some((c, Ok(Some(Operation::Ld(Ld::AddrLo)))))
    } else {
        None
    }
}

impl Ld {
    /// The effect of one micro-step, as a function.
    #[verifier::opaque]
    pub open spec fn spec_exec(self, code: u8, c: Cpu, b: bus::BusV) -> (Cpu, bus::BusV, Return) {
        match self {
            Ld::Fetch => match spec_fetch(c, code) {
                Some(exp) => (exp.0, b, exp.1),
                None => (c, b, Err(Error::Opcode(code))),
            },
            Ld::DataImm => {
                let v = bus::spec_read_cpu(b, c.pc);
                let stepped = spec_stepped(c);
                if code == 0x36 {
                    (stepped, b, Ok(Some(Operation::Ld(Ld::Write(spec_hl(c), v)))))
                } else if code == 0xe0 {
                    (stepped, b, Ok(Some(Operation::Ld(Ld::Write((0xff00 + v) as u16, c.a)))))
                } else if code == 0xf0 {
                    (stepped, b, Ok(Some(Operation::Ld(Ld::Read((0xff00 + v) as u16)))))
                } else {
                    (spec_set_reg8(stepped, ((code / 8) % 8) as u8, v), b, Ok(None))
                }
            },
            Ld::AddrLo => (
                spec_stepped(c),
                b,
                Ok(Some(Operation::Ld(Ld::AddrHi(bus::spec_read_cpu(b, c.pc))))),
            ),
            Ld::AddrHi(lo) => {
                let a16 = (bus::spec_read_cpu(b, c.pc) * 256 + lo) as u16;
                let stepped = spec_stepped(c);
                if code == 0xea {
                    (stepped, b, Ok(Some(Operation::Ld(Ld::Write(a16, c.a)))))
                } else {
                    (stepped, b, Ok(Some(Operation::Ld(Ld::Read(a16)))))
                }
            },
            Ld::Read(addr) => {
                let v = bus::spec_read_cpu(b, addr);
                if 0x40 <= code < 0x80 {
                    (spec_set_reg8(c, (((code - 0x40) / 8)) as u8, v), b, Ok(None))
                } else {
                    (Cpu { a: v, ..c }, b, Ok(None))
                }
            },
            Ld::Write(addr, v) => (c, bus::spec_write(b, addr, v), Ok(None)),
        }
    }

    /// Advances this instruction by one micro-step.
    pub fn exec(self, code: u8, cpu: &mut Cpu, bus: &mut Bus) -> (r: Return)
        requires
            old(bus).wf(),
        ensures
            final(bus).wf(),
            (*final(cpu), final(bus)@, r) == self.spec_exec(code, *old(cpu), old(bus)@),
            r matches Err(e) ==> e matches Error::Opcode(_),
            self matches Ld::Write(addr, v) ==> (final(bus)@ == bus::spec_write(
                old(bus)@,
                addr,
                v,
            ) && r == Ok::<Option<Operation>, Error>(None) && *final(cpu) == *old(cpu)),
            !(self matches Ld::Write(..)) ==> *final(bus) == *old(bus),
            self is DataImm ==> ({
                let v = bus::spec_read_cpu(old(bus)@, old(cpu).pc);
                let stepped = spec_stepped(*old(cpu));
                if code == 0x36 {
                    r == Ok::<Option<Operation>, Error>(Some(Operation::Ld(Ld::Write(
                        spec_hl(*old(cpu)),
                        v,
                    )))) && *final(cpu) == stepped
                } else if code == 0xe0 {
                    r == Ok::<Option<Operation>, Error>(Some(Operation::Ld(Ld::Write(
                        (0xff00 + v) as u16,
                        old(cpu).a,
                    )))) && *final(cpu) == stepped
                } else if code == 0xf0 {
                    r == Ok::<Option<Operation>, Error>(Some(Operation::Ld(Ld::Read(
                        (0xff00 + v) as u16,
                    )))) && *final(cpu) == stepped
                } else {
                    r == Ok::<Option<Operation>, Error>(None) && *final(cpu) == spec_set_reg8(
                        stepped,
                        ((code / 8) % 8) as u8,
                        v,
                    )
                }
            }),
            self is AddrLo ==> (r == Ok::<Option<Operation>, Error>(Some(Operation::Ld(
                Ld::AddrHi(bus::spec_read_cpu(old(bus)@, old(cpu).pc)),
            ))) && *final(cpu) == spec_stepped(*old(cpu))),
            self matches Ld::AddrHi(lo) ==> ({
                let a16 = (bus::spec_read_cpu(old(bus)@, old(cpu).pc) * 256 + lo) as u16;
                *final(cpu) == spec_stepped(*old(cpu)) && r == Ok::<Option<Operation>, Error>(
                    Some(
                        if code == 0xea {
                            Operation::Ld(Ld::Write(a16, old(cpu).a))
                        } else {
                            Operation::Ld(Ld::Read(a16))
                        },
                    ),
                )
            }),
            self matches Ld::Read(addr) ==> (r == Ok::<Option<Operation>, Error>(None)
                && *final(cpu) == ({
                let v = bus::spec_read_cpu(old(bus)@, addr);
                if 0x40 <= code < 0x80 {
                    spec_set_reg8(*old(cpu), (((code - 0x40) / 8)) as u8, v)
                } else {
                    Cpu { a: v, ..*old(cpu) }
                }
            })),
    {
        proof {
            reveal(Ld::spec_exec);
        }
        match self {
            Ld::Fetch => fetch(code, cpu),
            Ld::DataImm => {
                let d8 = cpu.fetchbyte(bus);
                if code == 0x36 {
                    Ok(Some(Operation::Ld(Ld::Write(cpu.hl(), d8))))
                } else if code == 0xe0 {
                    Ok(Some(Operation::Ld(Ld::Write(0xff00 + d8 as u16, cpu.a))))
                } else if code == 0xf0 {
                    Ok(Some(Operation::Ld(Ld::Read(0xff00 + d8 as u16))))
                } else {
                    cpu.set_reg8((code / 8) % 8, d8);
                    Ok(None)
                }
            },
            Ld::AddrLo => {
                let lo = cpu.fetchbyte(bus);
                Ok(Some(Operation::Ld(Ld::AddrHi(lo))))
            },
            Ld::AddrHi(lo) => {
                let hi = cpu.fetchbyte(bus);
                let a16: u16 = (hi as u16) * 256 + (lo as u16);
                if code == 0xea {
                    Ok(Some(Operation::Ld(Ld::Write(a16, cpu.a))))
                } else {
                    Ok(Some(Operation::Ld(Ld::Read(a16))))
                }
            },
            Ld::Read(addr) => {
                let v = bus.read_cpu(addr);
                if 0x40 <= code && code < 0x80 {
                    cpu.set_reg8((code - 0x40) / 8, v);
                } else {
                    cpu.a = v;
                }
                Ok(None)
            },
            Ld::Write(addr, v) => {
                bus.write(addr, v);
                Ok(None)
            },
        }
    }
}

/// Decodes the form: register moves finish in the fetch cycle, every
/// other form resolves its address or operand in later cycles. The
/// post-increment and post-decrement forms adjust `HL` here.
#[verifier::rlimit(100)]
pub fn fetch(code: u8, cpu: &mut Cpu) -> (r: Return)
    ensures
        spec_fetch(*old(cpu), code) matches Some(exp) ==> (*final(cpu) == exp.0 && r == exp.1),
        spec_fetch(*old(cpu), code) is None ==> (*final(cpu) == *old(cpu) && r == Err::<Option<Operation>, Error>(Error::Opcode(code))),
{
    if 0x40 <= code && code < 0x80 && code != 0x76 {
        let dst = ((code - 0x40) / 8) % 8;
        let src = code % 8;
        if src == 6 {
            Ok(Some(Operation::Ld(Ld::Read(cpu.hl()))))
        } else if dst == 6 {
            let v = cpu.reg8(src);
            Ok(Some(Operation::Ld(Ld::Write(cpu.hl(), v))))
        } else {
            let v = cpu.reg8(src);
            cpu.set_reg8(dst, v);
            Ok(None)
        }
    } else if code < 0x40 && code % 8 == 6 {
        Ok(Some(Operation::Ld(Ld::DataImm)))
    } else if code == 0x02 {
        Ok(Some(Operation::Ld(Ld::Write(cpu.bc(), cpu.a))))
    } else if code == 0x12 {
        Ok(Some(Operation::Ld(Ld::Write(cpu.de(), cpu.a))))
    } else if code == 0x22 {
        let hl = cpu.hl();
        cpu.set_hl(hl.wrapping_add(1));
        Ok(Some(Operation::Ld(Ld::Write(hl, cpu.a))))
    } else if code == 0x32 {
        let hl = cpu.hl();
        cpu.set_hl(hl.wrapping_sub(1));
        Ok(Some(Operation::Ld(Ld::Write(hl, cpu.a))))
    } else if code == 0x0a {
        Ok(Some(Operation::Ld(Ld::Read(cpu.bc()))))
    } else if code == 0x1a {
        Ok(Some(Operation::Ld(Ld::Read(cpu.de()))))
    } else if code == 0x2a {
        let hl = cpu.hl();
        cpu.set_hl(hl.wrapping_add(1));
        Ok(Some(Operation::Ld(Ld::Read(hl))))
    } else if code == 0x3a {
        let hl = cpu.hl();
        cpu.set_hl(hl.wrapping_sub(1));
        Ok(Some(Operation::Ld(Ld::Read(hl))))
    } else if code == 0xe2 {
        Ok(Some(Operation::Ld(Ld::Write(0xff00 + cpu.c as u16, cpu.a))))
    } else if code == 0xf2 {
        Ok(Some(Operation::Ld(Ld::Read(0xff00 + cpu.c as u16))))
    } else if code == 0xe0 || code == 0xf0 {
        Ok(Some(Operation::Ld(Ld::DataImm)))
    } else if code == 0xea || code == 0xfa {
        Ok(Some(Operation::Ld(Ld::AddrLo)))
    } else {
        Err(Error::Opcode(code))
    }
}

} // verus!
