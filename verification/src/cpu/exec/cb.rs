//! The `0xCB`-prefixed instructions: the rotate and shift block
//! (`RLC`, `RRC`, `RL`, `RR`, `SLA`, `SRA`, `SWAP`, `SRL`) and the bit
//! block (`BIT`, `RES`, `SET`).

use vstd::prelude::*;
use crate::bus::{self, Bus};
use crate::cpu::{spec_hl, spec_reg8, spec_set_reg8, Cpu, Error, Operation, Return};

verus! {

/// The initial micro-step of this family.
pub fn default() -> (r: Operation)
    ensures
        r == Operation::Cb(Cb::Fetch),
{
    Operation::Cb(Cb::Fetch)
}

/// Micro-steps of the prefixed instructions.
#[derive(Clone, Copy, Debug, PartialEq, Eq, Structural)]
pub enum Cb {
    /// The prefix byte itself (same cycle as the opcode fetch).
    Fetch,
    /// Fetch the prefixed opcode; register forms execute at once.
    Op,
    /// Read the `(HL)` operand; `BIT` finishes here.
    ReadHl(u8),
    /// Write the transformed `(HL)` operand back.
    WriteHl(u8),
}

/// Weight of bit `b`.
pub open spec fn spec_bitmask(b: u8) -> u8 {
    if b % 8 == 0 {
        1u8
    } else if b % 8 == 1 {
        2u8
    } else if b % 8 == 2 {
        4u8
    } else if b % 8 == 3 {
        8u8
    } else if b % 8 == 4 {
        16u8
    } else if b % 8 == 5 {
        32u8
    } else if b % 8 == 6 {
        64u8
    } else {
        128u8
    }
}

/// Result and carry of the rotate/shift block operation `op` on `v` with
/// carry-in `cin`.
pub open spec fn spec_rot(op: u8, v: u8, cin: bool) -> (u8, bool) {
    let ci: int = if cin {
        1
    } else {
        0
    };
    if op % 8 == 0 {
        // RLC
        (((v * 2 + v / 128) % 256) as u8, v / 128 == 1)
    } else if op % 8 == 1 {
        // RRC
        ((v / 2 + (v % 2) * 128) as u8, v % 2 == 1)
    } else if op % 8 == 2 {
        // RL
        (((v * 2 + ci) % 256) as u8, v / 128 == 1)
    } else if op % 8 == 3 {
        // RR
        ((v / 2 + ci * 128) as u8, v % 2 == 1)
    } else if op % 8 == 4 {
        // SLA
        (((v * 2) % 256) as u8, v / 128 == 1)
    } else if op % 8 == 5 {
        // SRA
        ((v / 2 + (v / 128) * 128) as u8, v % 2 == 1)
    } else if op % 8 == 6 {
        // SWAP
        (((v % 16) * 16 + v / 16) as u8, false)
    } else {
        // SRL
        (v / 2, v % 2 == 1)
    }
}

/// The transformed operand and register file for prefixed opcode `c2` on
/// operand `v`: `None` in the result position when nothing is written
/// back (`BIT`).
pub open spec fn spec_cb_apply(c: Cpu, c2: u8, v: u8) -> (Option<u8>, Cpu) {
    let b = ((c2 / 8) % 8) as u8;
    if c2 < 0x40 {
        let rc = spec_rot(b, v, c.cf);
        (Some(rc.0), Cpu { zf: rc.0 == 0, nf: false, hf: false, cf: rc.1, ..c })
    } else if c2 < 0x80 {
        // BIT b
        (
            None,
            Cpu { zf: (v / spec_bitmask(b)) % 2 == 0, nf: false, hf: true, ..c },
        )
    } else if c2 < 0xc0 {
        // RES b
        let m = spec_bitmask(b);
        (Some(if (v / m) % 2 == 1 { (v - m) as u8 } else { v }), c)
    } else {
        // SET b
        let m = spec_bitmask(b);
        (Some(if (v / m) % 2 == 1 { v } else { (v + m) as u8 }), c)
    }
}

/// Weight of bit `b`.
fn bitmask(b: u8) -> (r: u8)
    ensures
        r == spec_bitmask(b),
{
    match b % 8 {
        0 => 1,
        1 => 2,
        2 => 4,
        3 => 8,
        4 => 16,
        5 => 32,
        6 => 64,
        _ => 128,
    }
}

/// Applies prefixed opcode `c2` to operand `v`, setting flags; hands back
/// the byte to write, if one is.
fn cb_apply(cpu: &mut Cpu, c2: u8, v: u8) -> (r: Option<u8>)
    ensures
        r == spec_cb_apply(*old(cpu), c2, v).0,
        *final(cpu) == spec_cb_apply(*old(cpu), c2, v).1,
{
    let b = (c2 / 8) % 8;
    if c2 < 0x40 {
        let ci: u16 = if cpu.cf {
            1
        } else {
            0
        };
        let (nv, carry): (u8, bool) = if b == 0 {
            (((v as u16 * 2 + (v / 128) as u16) % 256) as u8, v / 128 == 1)
        } else if b == 1 {
            (v / 2 + (v % 2) * 128, v % 2 == 1)
        } else if b == 2 {
            (((v as u16 * 2 + ci) % 256) as u8, v / 128 == 1)
        } else if b == 3 {
            (v / 2 + (ci as u8) * 128, v % 2 == 1)
        } else if b == 4 {
            (((v as u16 * 2) % 256) as u8, v / 128 == 1)
        } else if b == 5 {
            (v / 2 + (v / 128) * 128, v % 2 == 1)
        } else if b == 6 {
            ((v % 16) * 16 + v / 16, false)
        } else {
            (v / 2, v % 2 == 1)
        };
        cpu.zf = nv == 0;
        cpu.nf = false;
        cpu.hf = false;
        cpu.cf = carry;
        Some(nv)
    } else if c2 < 0x80 {
        let m = bitmask(b);
        cpu.zf = (v / m) % 2 == 0;
        cpu.nf = false;
        cpu.hf = true;
        None
    } else if c2 < 0xc0 {
        let m = bitmask(b);
        if (v / m) % 2 == 1 {
            Some(v - m)
        } else {
            Some(v)
        }
    } else {
        let m = bitmask(b);
        if (v / m) % 2 == 1 {
            Some(v)
        } else {
            Some(v + m)
        }
    }
}

impl Cb {
    /// The effect of one micro-step, as a function.
    #[verifier::opaque]
    pub open spec fn spec_exec(self, code: u8, c: Cpu, b: bus::BusV) -> (Cpu, bus::BusV, Return) {
        match self {
            Cb::Fetch => (c, b, Ok(Some(Operation::Cb(Cb::Op)))),
            Cb::Op => {
                let c2 = bus::spec_read_cpu(b, c.pc);
                let stepped = crate::cpu::exec::ld::spec_stepped(c);
                if c2 % 8 == 6 {
                    (stepped, b, Ok(Some(Operation::Cb(Cb::ReadHl(c2)))))
                } else {
                    let ap = spec_cb_apply(stepped, c2, spec_reg8(stepped, (c2 % 8) as u8));
                    let cf = match ap.0 {
                        Some(nv) => spec_set_reg8(ap.1, (c2 % 8) as u8, nv),
                        None => ap.1,
                    };
                    (cf, b, Ok(None))
                }
            },
            Cb::ReadHl(c2) => {
                let ap = spec_cb_apply(c, c2, bus::spec_read_cpu(b, spec_hl(c)));
                match ap.0 {
                    Some(nv) => (ap.1, b, Ok(Some(Operation::Cb(Cb::WriteHl(nv))))),
                    None => (ap.1, b, Ok(None)),
                }
            },
            Cb::WriteHl(nv) => (c, bus::spec_write(b, spec_hl(c), nv), Ok(None)),
        }
    }

    /// Advances this instruction by one micro-step.
    pub fn exec(self, code: u8, cpu: &mut Cpu, bus: &mut Bus) -> (r: Return)
        requires
            old(bus).wf(),
        ensures
            final(bus).wf(),
            (*final(cpu), final(bus)@, r) == self.spec_exec(code, *old(cpu), old(bus)@),
            r matches Err(e) ==> e matches Error::Opcode(_),
            self is Fetch ==> (r == Ok::<Option<Operation>, Error>(Some(Operation::Cb(Cb::Op)))
                && *final(cpu) == *old(cpu) && *final(bus) == *old(bus)),
            self is Op ==> (*final(bus) == *old(bus) && ({
                let c2 = bus::spec_read_cpu(old(bus)@, old(cpu).pc);
                let stepped = crate::cpu::exec::ld::spec_stepped(*old(cpu));
                if c2 % 8 == 6 {
                    r == Ok::<Option<Operation>, Error>(Some(Operation::Cb(Cb::ReadHl(c2))))
                        && *final(cpu) == stepped
                } else {
                    let ap = spec_cb_apply(stepped, c2, spec_reg8(stepped, (c2 % 8) as u8));
                    r == Ok::<Option<Operation>, Error>(None) && *final(cpu) == (match ap.0 {
                        Some(nv) => spec_set_reg8(ap.1, (c2 % 8) as u8, nv),
                        None => ap.1,
                    })
                }
            })),
            self matches Cb::ReadHl(c2) ==> (*final(bus) == *old(bus) && ({
                let v = bus::spec_read_cpu(old(bus)@, spec_hl(*old(cpu)));
                let ap = spec_cb_apply(*old(cpu), c2, v);
                *final(cpu) == ap.1 && r == Ok::<Option<Operation>, Error>(
                    match ap.0 {
                        Some(nv) => Some(Operation::Cb(Cb::WriteHl(nv))),
                        None => None,
                    },
                )
            })),
            self matches Cb::WriteHl(nv) ==> (r == Ok::<Option<Operation>, Error>(None)
                && *final(cpu) == *old(cpu) && final(bus)@ == bus::spec_write(
                old(bus)@,
                spec_hl(*old(cpu)),
                nv,
            )),
    {
        proof {
            reveal(Cb::spec_exec);
        }
        match self {
            Cb::Fetch => Ok(Some(Operation::Cb(Cb::Op))),
            Cb::Op => {
                let c2 = cpu.fetchbyte(bus);
                let sel = c2 % 8;
                if sel == 6 {
                    Ok(Some(Operation::Cb(Cb::ReadHl(c2))))
                } else {
                    let v = cpu.reg8(sel);
                    match cb_apply(cpu, c2, v) {
                        Some(nv) => {
                            cpu.set_reg8(sel, nv);
                        },
                        None => {},
                    }
                    Ok(None)
                }
            },
            Cb::ReadHl(c2) => {
                let v = cpu.readbyte(bus);
                match cb_apply(cpu, c2, v) {
                    Some(nv) => Ok(Some(Operation::Cb(Cb::WriteHl(nv)))),
                    None => Ok(None),
                }
            },
            Cb::WriteHl(nv) => {
                bus.write(cpu.hl(), nv);
                Ok(None)
            },
        }
    }
}

} // verus!
