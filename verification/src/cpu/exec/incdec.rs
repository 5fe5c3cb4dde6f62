//! Increment and decrement instructions, 8-bit (`INC r`, `DEC r`, with
//! their `(HL)` forms) and 16-bit (`INC rr`, `DEC rr`).

use vstd::prelude::*;
use crate::bus::{self, Bus};
use crate::cpu::{spec_bc, spec_de, spec_hl, spec_reg8, spec_set_reg8, Cpu, Error, Operation, Return};

verus! {

/// The initial micro-step of the 8-bit family.
pub fn default() -> (r: Operation)
    ensures
        r == Operation::Incdec(Incdec::Fetch),
{
    Operation::Incdec(Incdec::Fetch)
}

/// The initial micro-step of the 16-bit family.
pub fn default_wide() -> (r: Operation)
    ensures
        r == Operation::Incw(Incw::Fetch),
{
    Operation::Incw(Incw::Fetch)
}

/// Micro-steps of the 8-bit increments and decrements.
#[derive(Clone, Copy, Debug, PartialEq, Eq, Structural)]
pub enum Incdec {
    /// Register forms execute in the opcode-fetch cycle; `(HL)` forms go
    /// on to read.
    Fetch,
    /// Read the byte at `HL`.
    ReadHl,
    /// Write the adjusted byte back to `HL`.
    WriteHl(u8),
}

/// Micro-steps of the 16-bit increments and decrements.
#[derive(Clone, Copy, Debug, PartialEq, Eq, Structural)]
pub enum Incw {
    /// Validate the opcode (same cycle as the opcode fetch).
    Fetch,
    /// Adjust the pair in the second, internal cycle.
    Execute,
}

/// The opcode is a decrement (`code % 8 == 5` in the 8-bit block).
pub open spec fn spec_is_dec(code: u8) -> bool {
    code % 8 == 5
}

/// The adjusted byte and its flag effect: `Z` from the result, `N` set
/// for decrements, `H` from the low nibble's carry or borrow; `C` is
/// untouched.
pub open spec fn spec_adjust(c: Cpu, code: u8, v: u8) -> (u8, Cpu) {
    if spec_is_dec(code) {
        let nv = (((v - 1) % 256 + 256) % 256) as u8;
        (nv, Cpu { zf: nv == 0, nf: true, hf: v % 16 == 0, ..c })
    } else {
        let nv = ((v + 1) % 256) as u8;
        (nv, Cpu { zf: nv == 0, nf: false, hf: v % 16 == 15, ..c })
    }
}

/// Adjusts `v` by one and sets the flags.
fn adjust(cpu: &mut Cpu, code: u8, v: u8) -> (nv: u8)
    ensures
        nv == spec_adjust(*old(cpu), code, v).0,
        *final(cpu) == spec_adjust(*old(cpu), code, v).1,
{
    if code % 8 == 5 {
        let nv = v.wrapping_sub(1);
        cpu.zf = nv == 0;
        cpu.nf = true;
        cpu.hf = v % 16 == 0;
        nv
    } else {
        let nv = v.wrapping_add(1);
        cpu.zf = nv == 0;
        cpu.nf = false;
        cpu.hf = v % 16 == 15;
        nv
    }
}

impl Incdec {
    /// The effect of one micro-step, as a function.
    #[verifier::opaque]
    pub open spec fn spec_exec(self, code: u8, c: Cpu, b: bus::BusV) -> (Cpu, bus::BusV, Return) {
        match self {
            Incdec::Fetch => {
                if code < 0x40 && (code % 8 == 4 || code % 8 == 5) {
                    let sel = ((code / 8) % 8) as u8;
                    if sel == 6 {
                        (c, b, Ok(Some(Operation::Incdec(Incdec::ReadHl))))
                    } else {
                        let a = spec_adjust(c, code, spec_reg8(c, sel));
                        (spec_set_reg8(a.1, sel, a.0), b, Ok(None))
                    }
                } else {
                    (c, b, Err(Error::Opcode(code)))
                }
            },
            Incdec::ReadHl => (
                c,
                b,
                Ok(Some(Operation::Incdec(Incdec::WriteHl(bus::spec_read_cpu(b, spec_hl(c)))))),
            ),
            Incdec::WriteHl(v) => {
                let a = spec_adjust(c, code, v);
                (a.1, bus::spec_write(b, spec_hl(c), a.0), Ok(None))
            },
        }
    }

    /// Advances this instruction by one micro-step.
    pub fn exec(self, code: u8, cpu: &mut Cpu, bus: &mut Bus) -> (r: Return)
        requires
            old(bus).wf(),
        ensures
            final(bus).wf(),
            (*final(cpu), final(bus)@, r) == self.spec_exec(code, *old(cpu), old(bus)@),
            r matches Err(e) ==> e matches Error::Opcode(_),
            self is ReadHl ==> (r == Ok::<Option<Operation>, Error>(Some(Operation::Incdec(
                Incdec::WriteHl(bus::spec_read_cpu(old(bus)@, spec_hl(*old(cpu)))),
            ))) && *final(cpu) == *old(cpu) && *final(bus) == *old(bus)),
            self matches Incdec::WriteHl(v) ==> (r == Ok::<Option<Operation>, Error>(None)
                && *final(cpu) == spec_adjust(*old(cpu), code, v).1 && final(bus)@
                == bus::spec_write(
                old(bus)@,
                spec_hl(*old(cpu)),
                spec_adjust(*old(cpu), code, v).0,
            )),
    {
        proof {
            reveal(Incdec::spec_exec);
        }
        match self {
            Incdec::Fetch => fetch(code, cpu),
            Incdec::ReadHl => {
                let v = cpu.readbyte(bus);
                Ok(Some(Operation::Incdec(Incdec::WriteHl(v))))
            },
            Incdec::WriteHl(v) => {
                let nv = adjust(cpu, code, v);
                bus.write(cpu.hl(), nv);
                Ok(None)
            },
        }
    }
}

/// Decodes an 8-bit increment or decrement: register forms adjust at
/// once, the `(HL)` forms go on to their read and write cycles.
pub fn fetch(code: u8, cpu: &mut Cpu) -> (r: Return)
    ensures
        ({
            let sel = ((code / 8) % 8) as u8;
            if code < 0x40 && (code % 8 == 4 || code % 8 == 5) {
                if sel == 6 {
                    r == Ok::<Option<Operation>, Error>(Some(Operation::Incdec(Incdec::ReadHl))) && *final(cpu) == *old(cpu)
                } else {
                    let v = spec_reg8(*old(cpu), sel);
                    let a = spec_adjust(*old(cpu), code, v);
                    r == Ok::<Option<Operation>, Error>(None) && *final(cpu) == spec_set_reg8(
                        a.1,
                        sel,
                        a.0,
                    )
                }
            } else {
                r == Err::<Option<Operation>, Error>(Error::Opcode(code)) && *final(cpu) == *old(cpu)
            }
        }),
{
    if code < 0x40 && (code % 8 == 4 || code % 8 == 5) {
        let sel = (code / 8) % 8;
        if sel == 6 {
            Ok(Some(Operation::Incdec(Incdec::ReadHl)))
        } else {
            let v = cpu.reg8(sel);
            let nv = adjust(cpu, code, v);
            cpu.set_reg8(sel, nv);
            Ok(None)
        }
    } else {
        Err(Error::Opcode(code))
    }
}

/// The adjusted 16-bit pair value for a wide increment or decrement.
pub open spec fn spec_widestep(code: u8, v: u16) -> u16 {
    if code % 16 == 3 {
        ((v + 1) % 0x1_0000) as u16
    } else {
        (((v - 1) % 0x1_0000 + 0x1_0000) % 0x1_0000) as u16
    }
}

impl Incw {
    /// The effect of one micro-step, as a function.
    #[verifier::opaque]
    pub open spec fn spec_exec(self, code: u8, c: Cpu, b: bus::BusV) -> (Cpu, bus::BusV, Return) {
        match self {
            Incw::Fetch => {
                if code < 0x40 && (code % 16 == 3 || code % 16 == 11) {
                    (c, b, Ok(Some(Operation::Incw(Incw::Execute))))
                } else {
                    (c, b, Err(Error::Opcode(code)))
                }
            },
            Incw::Execute => {
                let sel = (code / 16) % 4;
                let v = if sel == 0 {
                    spec_bc(c)
                } else if sel == 1 {
                    spec_de(c)
                } else if sel == 2 {
                    spec_hl(c)
                } else {
                    c.sp
                };
                let nv = spec_widestep(code, v);
                let c2 = if sel == 0 {
                    Cpu { b: (nv / 256) as u8, c: (nv % 256) as u8, ..c }
                } else if sel == 1 {
                    Cpu { d: (nv / 256) as u8, e: (nv % 256) as u8, ..c }
                } else if sel == 2 {
                    Cpu { h: (nv / 256) as u8, l: (nv % 256) as u8, ..c }
                } else {
                    Cpu { sp: nv, ..c }
                };
                (c2, b, Ok(None))
            },
        }
    }

    /// Advances this instruction by one micro-step.
    pub fn exec(self, code: u8, cpu: &mut Cpu, bus: &mut Bus) -> (r: Return)
        requires
            old(bus).wf(),
        ensures
            final(bus).wf(),
            (*final(cpu), final(bus)@, r) == self.spec_exec(code, *old(cpu), old(bus)@),
            *final(bus) == *old(bus),
            r matches Err(e) ==> e matches Error::Opcode(_),
    {
        proof {
            reveal(Incw::spec_exec);
        }
        match self {
            Incw::Fetch => fetch_wide(code, cpu),
            Incw::Execute => execute_wide(code, cpu),
        }
    }
}

/// Validates a 16-bit increment or decrement; the adjustment happens in
/// the second, internal cycle.
pub fn fetch_wide(code: u8, cpu: &mut Cpu) -> (r: Return)
    ensures
        *final(cpu) == *old(cpu),
        (code < 0x40 && (code % 16 == 3 || code % 16 == 11)) ==> r == Ok::<Option<Operation>, Error>(Some(
            Operation::Incw(Incw::Execute),
        )),
        !(code < 0x40 && (code % 16 == 3 || code % 16 == 11)) ==> r == Err::<Option<Operation>, Error>(Error::Opcode(code)),
{
    if code < 0x40 && (code % 16 == 3 || code % 16 == 11) {
        Ok(Some(Operation::Incw(Incw::Execute)))
    } else {
        Err(Error::Opcode(code))
    }
}

/// Adjusts the selected pair by one; wide adjustments touch no flags.
#[verifier::rlimit(100)]
pub fn execute_wide(code: u8, cpu: &mut Cpu) -> (r: Return)
    ensures
        r == Ok::<Option<Operation>, Error>(None),
        ({
            let sel = (code / 16) % 4;
            let v = if sel == 0 {
                spec_bc(*old(cpu))
            } else if sel == 1 {
                spec_de(*old(cpu))
            } else if sel == 2 {
                spec_hl(*old(cpu))
            } else {
                old(cpu).sp
            };
            let nv = spec_widestep(code, v);
            if sel == 0 {
                *final(cpu) == (Cpu { b: (nv / 256) as u8, c: (nv % 256) as u8, ..*old(cpu) })
            } else if sel == 1 {
                *final(cpu) == (Cpu { d: (nv / 256) as u8, e: (nv % 256) as u8, ..*old(cpu) })
            } else if sel == 2 {
                *final(cpu) == (Cpu { h: (nv / 256) as u8, l: (nv % 256) as u8, ..*old(cpu) })
            } else {
                *final(cpu) == (Cpu { sp: nv, ..*old(cpu) })
            }
        }),
{
    let sel = (code / 16) % 4;
    let v: u16 = if sel == 0 {
        cpu.bc()
    } else if sel == 1 {
        cpu.de()
    } else if sel == 2 {
        cpu.hl()
    } else {
        cpu.sp
    };
    let nv: u16 = if code % 16 == 3 {
        v.wrapping_add(1)
    } else {
        v.wrapping_sub(1)
    };
    if sel == 0 {
        cpu.set_bc(nv);
    } else if sel == 1 {
        cpu.set_de(nv);
    } else if sel == 2 {
        cpu.set_hl(nv);
    } else {
        cpu.sp = nv;
    }
    Ok(None)
}

} // verus!
