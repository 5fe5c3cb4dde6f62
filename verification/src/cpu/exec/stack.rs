//! Stack instructions: `PUSH rr` and `POP rr`.

use vstd::prelude::*;
use crate::bus::{self, Bus};
use crate::cpu::{spec_af, spec_bc, spec_de, spec_hl, Cpu, Error, Operation, Return};

verus! {

/// The initial micro-step of this family.
pub fn default() -> (r: Operation)
    ensures
        r == Operation::Stack(Stack::Fetch),
{
    Operation::Stack(Stack::Fetch)
}

/// Micro-steps of the stack instructions.
#[derive(Clone, Copy, Debug, PartialEq, Eq, Structural)]
pub enum Stack {
    /// Decode the form (same cycle as the opcode fetch).
    Fetch,
    /// Internal delay cycle of a push.
    Delay,
    /// Push the pair's high byte.
    PushHi,
    /// Push the pair's low byte.
    PushLo,
    /// Pop the pair's low byte.
    PopLo,
    /// Pop the pair's high byte and store the pair.
    PopHi(u8),
}

/// The pair selected by opcode bits 4-5: `BC`, `DE`, `HL` or `AF`.
pub open spec fn spec_pair(c: Cpu, code: u8) -> u16 {
    let sel = (code / 16) % 4;
    if sel == 0 {
        spec_bc(c)
    } else if sel == 1 {
        spec_de(c)
    } else if sel == 2 {
        spec_hl(c)
    } else {
        spec_af(c)
    }
}

impl Stack {
    /// The effect of one micro-step, as a function.
    #[verifier::opaque]
    pub open spec fn spec_exec(self, code: u8, c: Cpu, b: bus::BusV) -> (Cpu, bus::BusV, Return) {
        match self {
            Stack::Fetch => {
                if code == 0xc5 || code == 0xd5 || code == 0xe5 || code == 0xf5 {
                    (c, b, Ok(Some(Operation::Stack(Stack::Delay))))
                } else if code == 0xc1 || code == 0xd1 || code == 0xe1 || code == 0xf1 {
                    (c, b, Ok(Some(Operation::Stack(Stack::PopLo))))
                } else {
                    (c, b, Err(Error::Opcode(code)))
                }
            },
            Stack::Delay => (c, b, Ok(Some(Operation::Stack(Stack::PushHi)))),
            Stack::PushHi => (
                Cpu { sp: vstd::wrapping::u16_specs::wrapping_sub(c.sp, 1), ..c },
                bus::spec_write(b, vstd::wrapping::u16_specs::wrapping_sub(c.sp, 1), (spec_pair(c, code) / 256) as u8),
                Ok(Some(Operation::Stack(Stack::PushLo))),
            ),
            Stack::PushLo => (
                Cpu { sp: vstd::wrapping::u16_specs::wrapping_sub(c.sp, 1), ..c },
                bus::spec_write(b, vstd::wrapping::u16_specs::wrapping_sub(c.sp, 1), (spec_pair(c, code) % 256) as u8),
                Ok(None),
            ),
            Stack::PopLo => (
                Cpu { sp: vstd::wrapping::u16_specs::wrapping_add(c.sp, 1), ..c },
                b,
                Ok(Some(Operation::Stack(Stack::PopHi(bus::spec_read_cpu(b, c.sp))))),
            ),
            Stack::PopHi(lo) => {
                let hi = bus::spec_read_cpu(b, c.sp);
                let up = Cpu { sp: vstd::wrapping::u16_specs::wrapping_add(c.sp, 1), ..c };
                let sel = (code / 16) % 4;
                let c2 = if sel == 0 {
                    Cpu { b: hi, c: lo, ..up }
                } else if sel == 1 {
                    Cpu { d: hi, e: lo, ..up }
                } else if sel == 2 {
                    Cpu { h: hi, l: lo, ..up }
                } else {
                    Cpu {
                        a: hi,
                        zf: (lo / 128) % 2 == 1,
                        nf: (lo / 64) % 2 == 1,
                        hf: (lo / 32) % 2 == 1,
                        cf: (lo / 16) % 2 == 1,
                        ..up
                    }
                };
                (c2, b, Ok(None))
            },
        }
    }

    /// Advances this instruction by one micro-step.
    pub fn exec(self, code: u8, cpu: &mut Cpu, bus: &mut Bus) -> (r: Return)
        requires
            old(bus).wf(),
        ensures
            final(bus).wf(),
            (*final(cpu), final(bus)@, r) == self.spec_exec(code, *old(cpu), old(bus)@),
            r matches Err(e) ==> e matches Error::Opcode(_),
            self is PushHi ==> final(bus)@ == bus::spec_write(
                old(bus)@,
                vstd::wrapping::u16_specs::wrapping_sub(old(cpu).sp, 1),
                (spec_pair(*old(cpu), code) / 256) as u8,
            ),
            self is PushLo ==> final(bus)@ == bus::spec_write(
                old(bus)@,
                vstd::wrapping::u16_specs::wrapping_sub(old(cpu).sp, 1),
                (spec_pair(*old(cpu), code) % 256) as u8,
            ),
            !(self is PushHi || self is PushLo) ==> *final(bus) == *old(bus),
            self is Delay ==> (r == Ok::<Option<Operation>, Error>(Some(Operation::Stack(
                Stack::PushHi,
            ))) && *final(cpu) == *old(cpu)),
            self is PushHi ==> (r == Ok::<Option<Operation>, Error>(Some(Operation::Stack(
                Stack::PushLo,
            ))) && *final(cpu) == (Cpu {
                sp: vstd::wrapping::u16_specs::wrapping_sub(old(cpu).sp, 1),
                ..*old(cpu)
            })),
            self is PushLo ==> (r == Ok::<Option<Operation>, Error>(None) && *final(cpu) == (
            Cpu { sp: vstd::wrapping::u16_specs::wrapping_sub(old(cpu).sp, 1), ..*old(cpu) })),
            self is PopLo ==> (r == Ok::<Option<Operation>, Error>(Some(Operation::Stack(
                Stack::PopHi(bus::spec_read_cpu(old(bus)@, old(cpu).sp)),
            ))) && *final(cpu) == (Cpu {
                sp: vstd::wrapping::u16_specs::wrapping_add(old(cpu).sp, 1),
                ..*old(cpu)
            })),
            self matches Stack::PopHi(lo) ==> (r == Ok::<Option<Operation>, Error>(None) && ({
                let hi = bus::spec_read_cpu(old(bus)@, old(cpu).sp);
                let up = Cpu {
                    sp: vstd::wrapping::u16_specs::wrapping_add(old(cpu).sp, 1),
                    ..*old(cpu)
                };
                let sel = (code / 16) % 4;
                if sel == 0 {
                    *final(cpu) == (Cpu { b: hi, c: lo, ..up })
                } else if sel == 1 {
                    *final(cpu) == (Cpu { d: hi, e: lo, ..up })
                } else if sel == 2 {
                    *final(cpu) == (Cpu { h: hi, l: lo, ..up })
                } else {
                    *final(cpu) == (Cpu {
                        a: hi,
                        zf: (lo / 128) % 2 == 1,
                        nf: (lo / 64) % 2 == 1,
                        hf: (lo / 32) % 2 == 1,
                        cf: (lo / 16) % 2 == 1,
                        ..up
                    })
                }
            })),
    {
        proof {
            reveal(Stack::spec_exec);
        }
        match self {
            Stack::Fetch => fetch(code, cpu),
            Stack::Delay => Ok(Some(Operation::Stack(Stack::PushHi))),
            Stack::PushHi => {
                let v = pair(cpu, code);
                cpu.pushbyte(bus, (v / 256) as u8);
                Ok(Some(Operation::Stack(Stack::PushLo)))
            },
            Stack::PushLo => {
                let v = pair(cpu, code);
                cpu.pushbyte(bus, (v % 256) as u8);
                Ok(None)
            },
            Stack::PopLo => {
                let lo = cpu.popbyte(bus);
                Ok(Some(Operation::Stack(Stack::PopHi(lo))))
            },
            Stack::PopHi(lo) => {
                let hi = cpu.popbyte(bus);
                let sel = (code / 16) % 4;
                if sel == 0 {
                    cpu.b = hi;
                    cpu.c = lo;
                } else if sel == 1 {
                    cpu.d = hi;
                    cpu.e = lo;
                } else if sel == 2 {
                    cpu.h = hi;
                    cpu.l = lo;
                } else {
                    cpu.a = hi;
                    cpu.set_f(lo);
                }
                Ok(None)
            },
        }
    }
}

/// The selected pair's current value.
fn pair(cpu: &Cpu, code: u8) -> (r: u16)
    ensures
        r == spec_pair(*cpu, code),
{
    let sel = (code / 16) % 4;
    if sel == 0 {
        cpu.bc()
    } else if sel == 1 {
        cpu.de()
    } else if sel == 2 {
        cpu.hl()
    } else {
        (cpu.a as u16) * 256 + (cpu.f() as u16)
    }
}

/// Decodes the form: a push burns an internal cycle first, a pop starts
/// reading at once.
pub fn fetch(code: u8, cpu: &mut Cpu) -> (r: Return)
    ensures
        *final(cpu) == *old(cpu),
        (code == 0xc5 || code == 0xd5 || code == 0xe5 || code == 0xf5) ==> r == Ok::<Option<Operation>, Error>(Some(
            Operation::Stack(Stack::Delay),
        )),
        (code == 0xc1 || code == 0xd1 || code == 0xe1 || code == 0xf1) ==> r == Ok::<Option<Operation>, Error>(Some(
            Operation::Stack(Stack::PopLo),
        )),
        !(code == 0xc5 || code == 0xd5 || code == 0xe5 || code == 0xf5 || code == 0xc1 || code
            == 0xd1 || code == 0xe1 || code == 0xf1) ==> r == Err::<Option<Operation>, Error>(Error::Opcode(code)),
{
    match code {
        0xc5 | 0xd5 | 0xe5 | 0xf5 => Ok(Some(Operation::Stack(Stack::Delay))),
        0xc1 | 0xd1 | 0xe1 | 0xf1 => Ok(Some(Operation::Stack(Stack::PopLo))),
        _ => Err(Error::Opcode(code)),
    }
}

} // verus!
