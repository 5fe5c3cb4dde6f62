//! 16-bit add instructions: `ADD HL,rr` and `ADD SP,e8`.

use vstd::prelude::*;
use crate::bus::{self, Bus};
use crate::cpu::{spec_bc, spec_de, spec_hl, Cpu, Error, Operation, Return};

verus! {

/// The initial micro-step of this family.
pub fn default() -> (r: Operation)
    ensures
        r == Operation::Addw(Addw::Fetch),
{
    Operation::Addw(Addw::Fetch)
}

/// Micro-steps of the 16-bit adds.
#[derive(Clone, Copy, Debug, PartialEq, Eq, Structural)]
pub enum Addw {
    /// Latch the operands (same cycle as the opcode fetch).
    Fetch,
    /// Second cycle of `ADD HL,rr`: add and set flags.
    Execute(u16, u16),
    /// Second cycle of `ADD SP,e8`: fetch the offset.
    DelayA0xE8,
    /// Third cycle of `ADD SP,e8`: internal delay.
    DelayB0xE8(u8),
    /// Fourth cycle of `ADD SP,e8`: add and set flags.
    Execute0xE8(u8),
}

impl Addw {
    /// The effect of one micro-step, as a function.
    #[verifier::opaque]
    pub open spec fn spec_exec(self, code: u8, c: Cpu, b: bus::BusV) -> (Cpu, bus::BusV, Return) {
        match self {
            Addw::Fetch => {
                if code == 0x09 {
                    (c, b, Ok(Some(Operation::Addw(Addw::Execute(spec_hl(c), spec_bc(c))))))
                } else if code == 0x19 {
                    (c, b, Ok(Some(Operation::Addw(Addw::Execute(spec_hl(c), spec_de(c))))))
                } else if code == 0x29 {
                    (c, b, Ok(Some(Operation::Addw(Addw::Execute(spec_hl(c), spec_hl(c))))))
                } else if code == 0x39 {
                    (c, b, Ok(Some(Operation::Addw(Addw::Execute(spec_hl(c), c.sp)))))
                } else if code == 0xe8 {
                    (c, b, Ok(Some(Operation::Addw(Addw::DelayA0xE8))))
                } else {
                    (c, b, Err(Error::Opcode(code)))
                }
            },
            Addw::Execute(op1, op2) => {
                let res = ((op1 + op2) % 0x1_0000) as u16;
                (
                    Cpu {
                        h: (res / 256) as u8,
                        l: (res % 256) as u8,
                        nf: false,
                        hf: (op1 % 0x1000) + (op2 % 0x1000) > 0x0fff,
                        cf: op1 + op2 > 0xffff,
                        ..c
                    },
                    b,
                    Ok(None),
                )
            },
            Addw::DelayA0xE8 => (
                crate::cpu::exec::ld::spec_stepped(c),
                b,
                Ok(Some(Operation::Addw(Addw::DelayB0xE8(bus::spec_read_cpu(b, c.pc))))),
            ),
            Addw::DelayB0xE8(e8) => (c, b, Ok(Some(Operation::Addw(Addw::Execute0xE8(e8))))),
            Addw::Execute0xE8(e8) => {
                let off: int = if e8 < 128 {
                    e8 as int
                } else {
                    e8 + 0xff00
                };
                (
                    Cpu {
                        sp: ((c.sp + off) % 0x1_0000) as u16,
                        zf: false,
                        nf: false,
                        hf: (c.sp % 16) + (e8 % 16) > 0x0f,
                        cf: (c.sp % 256) + e8 > 0xff,
                        ..c
                    },
                    b,
                    Ok(None),
                )
            },
        }
    }

    /// Advances this instruction by one micro-step.
    pub fn exec(self, code: u8, cpu: &mut Cpu, bus: &mut Bus) -> (r: Return)
        requires
            old(bus).wf(),
        ensures
            final(bus).wf(),
            (*final(cpu), final(bus)@, r) == self.spec_exec(code, *old(cpu), old(bus)@),
            r matches Err(e) ==> e matches Error::Opcode(_),
            *final(bus) == *old(bus),
            self matches Addw::Execute(op1, op2) ==> (r == Ok::<Option<Operation>, Error>(None)
                && ({
                let res = ((op1 + op2) % 0x1_0000) as u16;
                *final(cpu) == (Cpu {
                    h: (res / 256) as u8,
                    l: (res % 256) as u8,
                    nf: false,
                    hf: (op1 % 0x1000) + (op2 % 0x1000) > 0x0fff,
                    cf: op1 + op2 > 0xffff,
                    ..*old(cpu)
                })
            })),
    {
        proof {
            reveal(Addw::spec_exec);
        }
        match self {
            Addw::Fetch => fetch(code, cpu),
            Addw::Execute(op1, op2) => execute(code, cpu, op1, op2),
            Addw::DelayA0xE8 => delay_a_0xe8(code, cpu, bus),
            Addw::DelayB0xE8(e8) => delay_b_0xe8(code, cpu, e8),
            Addw::Execute0xE8(e8) => execute_0xe8(code, cpu, e8),
        }
    }
}

/// Latches the two operands of `ADD HL,rr`, or starts the `ADD SP,e8`
/// form; any other opcode is undefined here.
pub fn fetch(code: u8, cpu: &mut Cpu) -> (r: Return)
    ensures
        *final(cpu) == *old(cpu),
        code == 0x09 ==> r == Ok::<Option<Operation>, Error>(Some(Operation::Addw(Addw::Execute(
            spec_hl(*old(cpu)),
            spec_bc(*old(cpu)),
        )))),
        code == 0x19 ==> r == Ok::<Option<Operation>, Error>(Some(Operation::Addw(Addw::Execute(
            spec_hl(*old(cpu)),
            spec_de(*old(cpu)),
        )))),
        code == 0x29 ==> r == Ok::<Option<Operation>, Error>(Some(Operation::Addw(Addw::Execute(
            spec_hl(*old(cpu)),
            spec_hl(*old(cpu)),
        )))),
        code == 0x39 ==> r == Ok::<Option<Operation>, Error>(Some(Operation::Addw(Addw::Execute(
            spec_hl(*old(cpu)),
            old(cpu).sp,
        )))),
        code == 0xe8 ==> r == Ok::<Option<Operation>, Error>(Some(Operation::Addw(Addw::DelayA0xE8))),
        (code != 0x09 && code != 0x19 && code != 0x29 && code != 0x39 && code != 0xe8) ==> r
            == Err::<Option<Operation>, Error>(Error::Opcode(code)),
{
    match code {
        0x09 => {
            let op1 = cpu.hl();
            let op2 = cpu.bc();
            Ok(Some(Operation::Addw(Addw::Execute(op1, op2))))
        },
        0x19 => {
            let op1 = cpu.hl();
            let op2 = cpu.de();
            Ok(Some(Operation::Addw(Addw::Execute(op1, op2))))
        },
        0x29 => {
            let op1 = cpu.hl();
            let op2 = cpu.hl();
            Ok(Some(Operation::Addw(Addw::Execute(op1, op2))))
        },
        0x39 => {
            let op1 = cpu.hl();
            let op2 = cpu.sp;
            Ok(Some(Operation::Addw(Addw::Execute(op1, op2))))
        },
        0xe8 => Ok(Some(Operation::Addw(Addw::DelayA0xE8))),
        _ => Err(Error::Opcode(code)),
    }
}

/// Executes `ADD HL,rr`: `HL` takes the wrapping 16-bit sum; `N` clears,
/// `H` is the carry out of bit 11, `C` the carry out of bit 15, and `Z`
/// is unchanged.
pub fn execute(code: u8, cpu: &mut Cpu, op1: u16, op2: u16) -> (r: Return)
    ensures
        r == Ok::<Option<Operation>, Error>(None),
        ({
            let res = ((op1 + op2) % 0x1_0000) as u16;
            *final(cpu) == (Cpu {
                h: (res / 256) as u8,
                l: (res % 256) as u8,
                nf: false,
                hf: (op1 % 0x1000) + (op2 % 0x1000) > 0x0fff,
                cf: op1 + op2 > 0xffff,
                ..*old(cpu)
            })
        }),
        spec_hl(*final(cpu)) == ((op1 + op2) % 0x1_0000) as u16,
{
    let sum: u32 = op1 as u32 + op2 as u32;
    let res: u16 = (sum % 0x1_0000) as u16;
    cpu.set_hl(res);
    cpu.nf = false;
    cpu.hf = (op1 % 0x1000) + (op2 % 0x1000) > 0x0fff;
    cpu.cf = sum > 0xffff;
    Ok(None)
}

/// Fetches the signed offset of `ADD SP,e8`.
pub fn delay_a_0xe8(code: u8, cpu: &mut Cpu, bus: &Bus) -> (r: Return)
    requires
        bus.wf(),
    ensures
        r == Ok::<Option<Operation>, Error>(Some(Operation::Addw(Addw::DelayB0xE8(
            bus::spec_read_cpu(bus@, old(cpu).pc),
        )))),
        *final(cpu) == (Cpu {
            pc: if old(cpu).halt_bug {
                old(cpu).pc
            } else {
                vstd::wrapping::u16_specs::wrapping_add(old(cpu).pc, 1)
            },
            halt_bug: false,
            ..*old(cpu)
        }),
{
    let e8 = cpu.fetchbyte(bus);
    Ok(Some(Operation::Addw(Addw::DelayB0xE8(e8))))
}

/// Internal delay cycle of `ADD SP,e8`.
pub fn delay_b_0xe8(code: u8, cpu: &mut Cpu, e8: u8) -> (r: Return)
    ensures
        r == Ok::<Option<Operation>, Error>(Some(Operation::Addw(Addw::Execute0xE8(e8)))),
        *final(cpu) == *old(cpu),
{
    Ok(Some(Operation::Addw(Addw::Execute0xE8(e8))))
}

/// Executes `ADD SP,e8`: `SP` takes the sum with the sign-extended
/// offset; `Z` and `N` clear, and `H`/`C` come from the low-byte add of
/// the unsigned offset.
pub fn execute_0xe8(code: u8, cpu: &mut Cpu, e8: u8) -> (r: Return)
    ensures
        r == Ok::<Option<Operation>, Error>(None),
        ({
            let off: int = if e8 < 128 {
                e8 as int
            } else {
                e8 + 0xff00
            };
            *final(cpu) == (Cpu {
                sp: ((old(cpu).sp + off) % 0x1_0000) as u16,
                zf: false,
                nf: false,
                hf: (old(cpu).sp % 16) + (e8 % 16) > 0x0f,
                cf: (old(cpu).sp % 256) + e8 > 0xff,
                ..*old(cpu)
            })
        }),
{
    let op1 = cpu.sp;
    let off: u32 = if e8 < 128 {
        e8 as u32
    } else {
        e8 as u32 + 0xff00
    };
    let res: u16 = ((op1 as u32 + off) % 0x1_0000) as u16;
    cpu.sp = res;
    cpu.zf = false;
    cpu.nf = false;
    cpu.hf = (op1 % 16) + (e8 as u16 % 16) > 0x0f;
    cpu.cf = (op1 % 256) + e8 as u16 > 0xff;
    Ok(None)
}

} // verus!
