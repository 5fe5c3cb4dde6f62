//! The `STOP` instruction, recognised as a no-op skeleton that skips the
//! byte following its two-byte form.

use vstd::prelude::*;
use crate::bus::{self, Bus};
use crate::cpu::{Cpu, Error, Operation, Return};

verus! {

/// The initial micro-step of this family.
pub fn default() -> (r: Operation)
    ensures
        r == Operation::Stop(Stop::Execute),
{
    Operation::Stop(Stop::Execute)
}

/// Micro-steps of `STOP`.
#[derive(Clone, Copy, Debug, PartialEq, Eq, Structural)]
pub enum Stop {
    /// Validate and skip the padding byte (same cycle as the opcode
    /// fetch).
    Execute,
}

impl Stop {
    /// The effect of one micro-step, as a function.
    #[verifier::opaque]
    pub open spec fn spec_exec(self, code: u8, c: Cpu, b: bus::BusV) -> (Cpu, bus::BusV, Return) {
        if code == 0x10 {
            (
                Cpu { pc: vstd::wrapping::u16_specs::wrapping_add(c.pc, 1), ..c },
                b,
                Ok(None),
            )
        } else {
            (c, b, Err(Error::Opcode(code)))
        }
    }

    /// Advances this instruction by one micro-step.
    pub fn exec(self, code: u8, cpu: &mut Cpu, bus: &mut Bus) -> (r: Return)
        requires
            old(bus).wf(),
        ensures
            final(bus).wf(),
            (*final(cpu), final(bus)@, r) == self.spec_exec(code, *old(cpu), old(bus)@),
            r matches Err(e) ==> e matches Error::Opcode(_),
            *final(bus) == *old(bus),
            code == 0x10 ==> (r == Ok::<Option<Operation>, Error>(None) && *final(cpu) == (Cpu {
                pc: vstd::wrapping::u16_specs::wrapping_add(old(cpu).pc, 1),
                ..*old(cpu)
            })),
            code != 0x10 ==> (r == Err::<Option<Operation>, Error>(Error::Opcode(code)) && *final(cpu) == *old(cpu)),
    {
        proof {
            reveal(Stop::spec_exec);
        }
        match self {
            Stop::Execute => execute(code, cpu),
        }
    }
}

/// Executes `STOP`: advances `PC` past the padding byte and finishes.
pub fn execute(code: u8, cpu: &mut Cpu) -> (r: Return)
    ensures
        code == 0x10 ==> (r == Ok::<Option<Operation>, Error>(None) && *final(cpu) == (Cpu {
            pc: vstd::wrapping::u16_specs::wrapping_add(old(cpu).pc, 1),
            ..*old(cpu)
        })),
        code != 0x10 ==> (r == Err::<Option<Operation>, Error>(Error::Opcode(code)) && *final(cpu) == *old(cpu)),
{
    if code != 0x10 {
        return Err(Error::Opcode(code));
    }
    cpu.pc = cpu.pc.wrapping_add(1);
    Ok(None)
}

} // verus!
