//! Jump instructions: `JR`, `JP`, `RET`, `RETI` and `RST`, with their
//! conditional forms.

use vstd::prelude::*;
use crate::bus::{self, Bus};
use crate::cpu::{spec_hl, Cpu, Error, Operation, Return};

verus! {

/// The initial micro-step of this family.
pub fn default() -> (r: Operation)
    ensures
        r == Operation::Jump(Jump::Fetch),
{
    Operation::Jump(Jump::Fetch)
}

/// Micro-steps of the jump family.
#[derive(Clone, Copy, Debug, PartialEq, Eq, Structural)]
pub enum Jump {
    /// Decode the form (same cycle as the opcode fetch).
    Fetch,
    /// Fetch the relative offset and evaluate the condition.
    JrE8,
    /// Apply the relative jump.
    JrJump(u8),
    /// Fetch the low target byte.
    Lo,
    /// Fetch the high target byte and evaluate the condition.
    Hi(u8),
    /// Load the absolute target into `PC`.
    JpJump(u16),
    /// Evaluate a conditional return.
    RetCheck,
    /// Pop the low return byte.
    PopLo,
    /// Pop the high return byte.
    PopHi(u8),
    /// Load the return address into `PC` (and restore `IME` for `RETI`).
    RetJump(u16),
    /// Internal delay cycle of `RST`.
    RstDelay,
    /// Push the high `PC` byte.
    RstPushHi,
    /// Push the low `PC` byte and jump to the restart vector.
    RstPushLo,
}

/// The condition an opcode's bits 3-4 select, over the current flags;
/// unconditional forms are always taken.
pub open spec fn spec_cond(code: u8, c: Cpu) -> bool {
    if code == 0x20 || code == 0xc0 || code == 0xc2 {
        !c.zf
    } else if code == 0x28 || code == 0xc8 || code == 0xca {
        c.zf
    } else if code == 0x30 || code == 0xd0 || code == 0xd2 {
        !c.cf
    } else if code == 0x38 || code == 0xd8 || code == 0xda {
        c.cf
    } else {
        true
    }
}

/// `PC` after a relative jump by the signed offset `e8`.
pub open spec fn spec_jr_target(pc: u16, e8: u8) -> u16 {
    let off: int = if e8 < 128 {
        e8 as int
    } else {
        e8 - 256
    };
    (((pc + off) % 0x1_0000 + 0x1_0000) % 0x1_0000) as u16
}

impl Jump {
    /// The effect of one micro-step, as a function.
    #[verifier::opaque]
    pub open spec fn spec_exec(self, code: u8, c: Cpu, b: bus::BusV) -> (Cpu, bus::BusV, Return) {
        match self {
            Jump::Fetch => {
                if code == 0x18 || code == 0x20 || code == 0x28 || code == 0x30 || code
                    == 0x38 {
                    (c, b, Ok(Some(Operation::Jump(Jump::JrE8))))
                } else if code == 0xc3 || code == 0xc2 || code == 0xca || code == 0xd2
                    || code == 0xda {
                    (c, b, Ok(Some(Operation::Jump(Jump::Lo))))
                } else if code == 0xe9 {
                    (Cpu { pc: spec_hl(c), ..c }, b, Ok(None))
                } else if code == 0xc9 || code == 0xd9 {
                    (c, b, Ok(Some(Operation::Jump(Jump::PopLo))))
                } else if code == 0xc0 || code == 0xc8 || code == 0xd0 || code == 0xd8 {
                    (c, b, Ok(Some(Operation::Jump(Jump::RetCheck))))
                } else if code >= 0xc0 && code % 8 == 7 {
                    (c, b, Ok(Some(Operation::Jump(Jump::RstDelay))))
                } else {
                    (c, b, Err(Error::Opcode(code)))
                }
            },
            Jump::JrE8 => {
                let e8 = bus::spec_read_cpu(b, c.pc);
                let c2 = crate::cpu::exec::ld::spec_stepped(c);
                if spec_cond(code, c) {
                    (c2, b, Ok(Some(Operation::Jump(Jump::JrJump(e8)))))
                } else {
                    (c2, b, Ok(None))
                }
            },
            Jump::JrJump(e8) => (Cpu { pc: spec_jr_target(c.pc, e8), ..c }, b, Ok(None)),
            Jump::Lo => (
                crate::cpu::exec::ld::spec_stepped(c),
                b,
                Ok(Some(Operation::Jump(Jump::Hi(bus::spec_read_cpu(b, c.pc))))),
            ),
            Jump::Hi(lo) => {
                let a16 = (bus::spec_read_cpu(b, c.pc) * 256 + lo) as u16;
                let c2 = crate::cpu::exec::ld::spec_stepped(c);
                if spec_cond(code, c) {
                    (c2, b, Ok(Some(Operation::Jump(Jump::JpJump(a16)))))
                } else {
                    (c2, b, Ok(None))
                }
            },
            Jump::JpJump(a16) => (Cpu { pc: a16, ..c }, b, Ok(None)),
            Jump::RetCheck => {
                if spec_cond(code, c) {
                    (c, b, Ok(Some(Operation::Jump(Jump::PopLo))))
                } else {
                    (c, b, Ok(None))
                }
            },
            Jump::PopLo => (
                Cpu { sp: vstd::wrapping::u16_specs::wrapping_add(c.sp, 1), ..c },
                b,
                Ok(Some(Operation::Jump(Jump::PopHi(bus::spec_read_cpu(b, c.sp))))),
            ),
            Jump::PopHi(lo) => (
                Cpu { sp: vstd::wrapping::u16_specs::wrapping_add(c.sp, 1), ..c },
                b,
                Ok(Some(Operation::Jump(Jump::RetJump(
                    (bus::spec_read_cpu(b, c.sp) * 256 + lo) as u16,
                )))),
            ),
            Jump::RetJump(a16) => (
                Cpu { pc: a16, ime: c.ime || code == 0xd9, ..c },
                b,
                Ok(None),
            ),
            Jump::RstDelay => (c, b, Ok(Some(Operation::Jump(Jump::RstPushHi)))),
            Jump::RstPushHi => (
                Cpu { sp: vstd::wrapping::u16_specs::wrapping_sub(c.sp, 1), ..c },
                bus::spec_write(b, vstd::wrapping::u16_specs::wrapping_sub(c.sp, 1), (c.pc / 256) as u8),
                Ok(Some(Operation::Jump(Jump::RstPushLo))),
            ),
            Jump::RstPushLo => (
                Cpu {
                    sp: vstd::wrapping::u16_specs::wrapping_sub(c.sp, 1),
                    pc: (vstd::wrapping::u8_specs::wrapping_sub(code, 0xc7)) as u16,
                    ..c
                },
                bus::spec_write(b, vstd::wrapping::u16_specs::wrapping_sub(c.sp, 1), (c.pc % 256) as u8),
                Ok(None),
            ),
        }
    }

    /// Advances this instruction by one micro-step.
    #[verifier::rlimit(100)]
    pub fn exec(self, code: u8, cpu: &mut Cpu, bus: &mut Bus) -> (r: Return)
        requires
            old(bus).wf(),
        ensures
            final(bus).wf(),
            (*final(cpu), final(bus)@, r) == self.spec_exec(code, *old(cpu), old(bus)@),
            r matches Err(e) ==> e matches Error::Opcode(_),
            self is RstPushHi ==> final(bus)@ == bus::spec_write(
                old(bus)@,
                vstd::wrapping::u16_specs::wrapping_sub(old(cpu).sp, 1),
                (old(cpu).pc / 256) as u8,
            ),
            self is RstPushLo ==> final(bus)@ == bus::spec_write(
                old(bus)@,
                vstd::wrapping::u16_specs::wrapping_sub(old(cpu).sp, 1),
                (old(cpu).pc % 256) as u8,
            ),
            !(self is RstPushHi || self is RstPushLo) ==> *final(bus) == *old(bus),
            self matches Jump::JrJump(e8) ==> (r == Ok::<Option<Operation>, Error>(None)
                && *final(cpu) == (Cpu { pc: spec_jr_target(old(cpu).pc, e8), ..*old(cpu) })),
            self matches Jump::JpJump(a16) ==> (r == Ok::<Option<Operation>, Error>(None)
                && *final(cpu) == (Cpu { pc: a16, ..*old(cpu) })),
            self matches Jump::RetJump(a16) ==> (r == Ok::<Option<Operation>, Error>(None)
                && *final(cpu) == (Cpu {
                    pc: a16,
                    ime: old(cpu).ime || code == 0xd9,
                    ..*old(cpu)
                })),
            self is JrE8 ==> ({
                let e8 = bus::spec_read_cpu(old(bus)@, old(cpu).pc);
                *final(cpu) == crate::cpu::exec::ld::spec_stepped(*old(cpu)) && r == Ok::<
                    Option<Operation>,
                    Error,
                >(
                    if spec_cond(code, *old(cpu)) {
                        Some(Operation::Jump(Jump::JrJump(e8)))
                    } else {
                        None
                    },
                )
            }),
            self is Lo ==> (r == Ok::<Option<Operation>, Error>(Some(Operation::Jump(
                Jump::Hi(bus::spec_read_cpu(old(bus)@, old(cpu).pc)),
            ))) && *final(cpu) == crate::cpu::exec::ld::spec_stepped(*old(cpu))),
            self matches Jump::Hi(lo) ==> ({
                let a16 = (bus::spec_read_cpu(old(bus)@, old(cpu).pc) * 256 + lo) as u16;
                *final(cpu) == crate::cpu::exec::ld::spec_stepped(*old(cpu)) && r == Ok::<
                    Option<Operation>,
                    Error,
                >(
                    if spec_cond(code, *old(cpu)) {
                        Some(Operation::Jump(Jump::JpJump(a16)))
                    } else {
                        None
                    },
                )
            }),
            self is RetCheck ==> (*final(cpu) == *old(cpu) && r == Ok::<
                Option<Operation>,
                Error,
            >(
                if spec_cond(code, *old(cpu)) {
                    Some(Operation::Jump(Jump::PopLo))
                } else {
                    None
                },
            )),
            self is PopLo ==> (r == Ok::<Option<Operation>, Error>(Some(Operation::Jump(
                Jump::PopHi(bus::spec_read_cpu(old(bus)@, old(cpu).sp)),
            ))) && *final(cpu) == (Cpu {
                sp: vstd::wrapping::u16_specs::wrapping_add(old(cpu).sp, 1),
                ..*old(cpu)
            })),
            self matches Jump::PopHi(lo) ==> (r == Ok::<Option<Operation>, Error>(Some(
                Operation::Jump(
                    Jump::RetJump(
                        (bus::spec_read_cpu(old(bus)@, old(cpu).sp) * 256 + lo) as u16,
                    ),
                ),
            )) && *final(cpu) == (Cpu {
                sp: vstd::wrapping::u16_specs::wrapping_add(old(cpu).sp, 1),
                ..*old(cpu)
            })),
            self is RstDelay ==> (r == Ok::<Option<Operation>, Error>(Some(Operation::Jump(
                Jump::RstPushHi,
            ))) && *final(cpu) == *old(cpu)),
            self is RstPushHi ==> (r == Ok::<Option<Operation>, Error>(Some(Operation::Jump(
                Jump::RstPushLo,
            ))) && *final(cpu) == (Cpu {
                sp: vstd::wrapping::u16_specs::wrapping_sub(old(cpu).sp, 1),
                ..*old(cpu)
            })),
            self is RstPushLo ==> (r == Ok::<Option<Operation>, Error>(None) && *final(cpu)
                == (Cpu {
                sp: vstd::wrapping::u16_specs::wrapping_sub(old(cpu).sp, 1),
                pc: (vstd::wrapping::u8_specs::wrapping_sub(code, 0xc7)) as u16,
                ..*old(cpu)
            })),
    {
        proof {
            reveal(Jump::spec_exec);
        }
        match self {
            Jump::Fetch => fetch(code, cpu),
            Jump::JrE8 => {
                let e8 = cpu.fetchbyte(bus);
                if cond(code, cpu) {
                    Ok(Some(Operation::Jump(Jump::JrJump(e8))))
                } else {
                    Ok(None)
                }
            },
            Jump::JrJump(e8) => {
                let off: u32 = if e8 < 128 {
                    e8 as u32
                } else {
                    e8 as u32 + 0xff00
                };
                cpu.pc = ((cpu.pc as u32 + off) % 0x1_0000) as u16;
                Ok(None)
            },
            Jump::Lo => {
                let lo = cpu.fetchbyte(bus);
                Ok(Some(Operation::Jump(Jump::Hi(lo))))
            },
            Jump::Hi(lo) => {
                let hi = cpu.fetchbyte(bus);
                let a16: u16 = (hi as u16) * 256 + (lo as u16);
                if cond(code, cpu) {
                    Ok(Some(Operation::Jump(Jump::JpJump(a16))))
                } else {
                    Ok(None)
                }
            },
            Jump::JpJump(a16) => {
                cpu.pc = a16;
                Ok(None)
            },
            Jump::RetCheck => {
                if cond(code, cpu) {
                    Ok(Some(Operation::Jump(Jump::PopLo)))
                } else {
                    Ok(None)
                }
            },
            Jump::PopLo => {
                let lo = cpu.popbyte(bus);
                Ok(Some(Operation::Jump(Jump::PopHi(lo))))
            },
            Jump::PopHi(lo) => {
                let hi = cpu.popbyte(bus);
                let a16: u16 = (hi as u16) * 256 + (lo as u16);
                Ok(Some(Operation::Jump(Jump::RetJump(a16))))
            },
            Jump::RetJump(a16) => {
                cpu.pc = a16;
                if code == 0xd9 {
                    cpu.ime = true;
                }
                Ok(None)
            },
            Jump::RstDelay => Ok(Some(Operation::Jump(Jump::RstPushHi))),
            Jump::RstPushHi => {
                let hi = (cpu.pc / 256) as u8;
                cpu.pushbyte(bus, hi);
                Ok(Some(Operation::Jump(Jump::RstPushLo)))
            },
            Jump::RstPushLo => {
                let lo = (cpu.pc % 256) as u8;
                cpu.pushbyte(bus, lo);
                cpu.pc = code.wrapping_sub(0xc7) as u16;
                Ok(None)
            },
        }
    }
}

/// Evaluates the opcode's condition over the current flags.
fn cond(code: u8, cpu: &Cpu) -> (r: bool)
    ensures
        r == spec_cond(code, *cpu),
{
    if code == 0x20 || code == 0xc0 || code == 0xc2 {
        !cpu.zf
    } else if code == 0x28 || code == 0xc8 || code == 0xca {
        cpu.zf
    } else if code == 0x30 || code == 0xd0 || code == 0xd2 {
        !cpu.cf
    } else if code == 0x38 || code == 0xd8 || code == 0xda {
        cpu.cf
    } else {
        true
    }
}

/// Decodes the form. `JP HL` finishes in the fetch cycle; every other
/// form takes more cycles.
pub fn fetch(code: u8, cpu: &mut Cpu) -> (r: Return)
    ensures
        r matches Err(e) ==> e == Error::Opcode(code),
        !(code == 0x18 || code == 0x20 || code == 0x28 || code == 0x30 || code == 0x38
            || code == 0xc3 || code == 0xc2 || code == 0xca || code == 0xd2 || code == 0xda
            || code == 0xe9 || code == 0xc9 || code == 0xd9 || code == 0xc0 || code == 0xc8
            || code == 0xd0 || code == 0xd8 || (code >= 0xc0 && code % 8 == 7)) ==> (r
            == Err::<Option<Operation>, Error>(Error::Opcode(code)) && *final(cpu) == *old(
            cpu,
        )),
        code == 0xe9 ==> (r == Ok::<Option<Operation>, Error>(None) && *final(cpu) == (Cpu {
            pc: spec_hl(*old(cpu)),
            ..*old(cpu)
        })),
        (code == 0x18 || code == 0x20 || code == 0x28 || code == 0x30 || code == 0x38) ==> (r
            == Ok::<Option<Operation>, Error>(Some(Operation::Jump(Jump::JrE8))) && *final(cpu) == *old(cpu)),
        (code == 0xc3 || code == 0xc2 || code == 0xca || code == 0xd2 || code == 0xda) ==> (r
            == Ok::<Option<Operation>, Error>(Some(Operation::Jump(Jump::Lo))) && *final(cpu) == *old(cpu)),
        (code == 0xc9 || code == 0xd9) ==> (r == Ok::<Option<Operation>, Error>(Some(Operation::Jump(Jump::PopLo)))
            && *final(cpu) == *old(cpu)),
        (code == 0xc0 || code == 0xc8 || code == 0xd0 || code == 0xd8) ==> (r == Ok::<Option<Operation>, Error>(Some(
            Operation::Jump(Jump::RetCheck),
        )) && *final(cpu) == *old(cpu)),
        (code >= 0xc0 && code % 8 == 7) ==> (r == Ok::<Option<Operation>, Error>(Some(Operation::Jump(Jump::RstDelay)))
            && *final(cpu) == *old(cpu)),
{
    match code {
        0x18 | 0x20 | 0x28 | 0x30 | 0x38 => Ok(Some(Operation::Jump(Jump::JrE8))),
        0xc3 | 0xc2 | 0xca | 0xd2 | 0xda => Ok(Some(Operation::Jump(Jump::Lo))),
        0xe9 => {
            cpu.pc = cpu.hl();
            Ok(None)
        },
        0xc9 | 0xd9 => Ok(Some(Operation::Jump(Jump::PopLo))),
        0xc0 | 0xc8 | 0xd0 | 0xd8 => Ok(Some(Operation::Jump(Jump::RetCheck))),
        0xc7 | 0xcf | 0xd7 | 0xdf | 0xe7 | 0xef | 0xf7 | 0xff => Ok(Some(Operation::Jump(
            Jump::RstDelay,
        ))),
        _ => Err(Error::Opcode(code)),
    }
}

} // verus!
