//! Bitwise or instructions: `OR r`, `OR (HL)`, `OR d8`.

use vstd::prelude::*;
use crate::bus::{self, Bus};
use crate::cpu::{spec_hl, spec_reg8, Cpu, Error, Operation, Return};

verus! {

/// The initial micro-step of this family.
pub fn default() -> (r: Operation)
    ensures
        r == Operation::Or(Or::Fetch),
{
    Operation::Or(Or::Fetch)
}

/// Micro-steps of the or family: register forms finish in the fetch
/// cycle; the memory and immediate forms read their operand one cycle
/// later.
#[derive(Clone, Copy, Debug, PartialEq, Eq, Structural)]
pub enum Or {
    /// Decode the operand (same cycle as the opcode fetch).
    Fetch,
    /// Read the operand at `HL`, then execute.
    ReadHl,
    /// Fetch the immediate operand, then execute.
    ReadImm,
}

impl Or {
    /// The effect of one micro-step, as a function: the new register
    /// file, the new bus model, and what the step hands back.
    #[verifier::opaque]
    pub open spec fn spec_exec(self, code: u8, c: Cpu, b: bus::BusV) -> (Cpu, bus::BusV, Return) {
        match self {
            Or::Fetch => {
                if code == 0xb6 {
                    (c, b, Ok(Some(Operation::Or(Or::ReadHl))))
                } else if code == 0xf6 {
                    (c, b, Ok(Some(Operation::Or(Or::ReadImm))))
                } else if 0xb0 <= code < 0xb8 {
                    (spec_or(c, spec_reg8(c, (code % 8) as u8)), b, Ok(None))
                } else {
                    (c, b, Err(Error::Opcode(code)))
                }
            },
            Or::ReadHl => (spec_or(c, bus::spec_read_cpu(b, spec_hl(c))), b, Ok(None)),
            Or::ReadImm => (
                spec_or(crate::cpu::exec::ld::spec_stepped(c), bus::spec_read_cpu(b, c.pc)),
                b,
                Ok(None),
            ),
        }
    }

    /// Advances this instruction by one micro-step.
    pub fn exec(self, code: u8, cpu: &mut Cpu, bus: &mut Bus) -> (r: Return)
        requires
            old(bus).wf(),
        ensures
            final(bus).wf(),
            (*final(cpu), final(bus)@, r) == self.spec_exec(code, *old(cpu), old(bus)@),
            r matches Err(e) ==> e matches Error::Opcode(_),
            *final(bus) == *old(bus),
            self is ReadHl ==> (r == Ok::<Option<Operation>, Error>(None) && *final(cpu)
                == spec_or(*old(cpu), bus::spec_read_cpu(old(bus)@, spec_hl(*old(cpu))))),
            self is ReadImm ==> (r == Ok::<Option<Operation>, Error>(None) && *final(cpu)
                == spec_or(
                Cpu {
                    pc: if old(cpu).halt_bug {
                        old(cpu).pc
                    } else {
                        vstd::wrapping::u16_specs::wrapping_add(old(cpu).pc, 1)
                    },
                    halt_bug: false,
                    ..*old(cpu)
                },
                bus::spec_read_cpu(old(bus)@, old(cpu).pc),
            )),
    {
        proof {
            reveal(Or::spec_exec);
        }
        match self {
            Or::Fetch => fetch(code, cpu),
            Or::ReadHl => {
                let op2 = cpu.readbyte(bus);
                execute(code, cpu, op2)
            },
            Or::ReadImm => {
                let op2 = cpu.fetchbyte(bus);
                execute(code, cpu, op2)
            },
        }
    }
}

/// Decodes the operand: a register form executes at once; the `(HL)` and
/// immediate forms go on to their read cycle; any other opcode is
/// undefined here.
pub fn fetch(code: u8, cpu: &mut Cpu) -> (r: Return)
    ensures
        code == 0xb6 ==> (r == Ok::<Option<Operation>, Error>(Some(Operation::Or(Or::ReadHl))) && *final(cpu) == *old(
            cpu,
        )),
        code == 0xf6 ==> (r == Ok::<Option<Operation>, Error>(Some(Operation::Or(Or::ReadImm))) && *final(cpu) == *old(
            cpu,
        )),
        (0xb0 <= code < 0xb8 && code != 0xb6) ==> (r == Ok::<Option<Operation>, Error>(None)
            && *final(cpu) == spec_or(*old(cpu), spec_reg8(*old(cpu), (code % 8) as u8))),
        !(0xb0 <= code < 0xb8 || code == 0xf6) ==> (r == Err::<Option<Operation>, Error>(Error::Opcode(code))
            && *final(cpu) == *old(cpu)),
{
    match code {
        0xb6 => Ok(Some(Operation::Or(Or::ReadHl))),
        0xf6 => Ok(Some(Operation::Or(Or::ReadImm))),
        0xb0 | 0xb1 | 0xb2 | 0xb3 | 0xb4 | 0xb5 | 0xb7 => {
            let op2 = cpu.reg8(code % 8);
            execute(code, cpu, op2)
        },
        _ => Err(Error::Opcode(code)),
    }
}

/// The register file after `OR op2`: the accumulator takes `A | op2`,
/// `Z` reflects a zero result, and `N`, `H`, `C` clear.
pub open spec fn spec_or(c: Cpu, op2: u8) -> Cpu {
    Cpu { a: c.a | op2, zf: (c.a | op2) == 0, nf: false, hf: false, cf: false, ..c }
}

/// Executes the or and sets the flags.
pub fn execute(code: u8, cpu: &mut Cpu, op2: u8) -> (r: Return)
    ensures
        r == Ok::<Option<Operation>, Error>(None),
        *final(cpu) == spec_or(*old(cpu), op2),
{
    let res = cpu.a | op2;
    cpu.a = res;
    cpu.zf = res == 0;
    cpu.nf = false;
    cpu.hf = false;
    cpu.cf = false;
    Ok(None)
}

} // verus!
