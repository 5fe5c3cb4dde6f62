//! Call instructions: `CALL a16` and its conditional forms.

use vstd::prelude::*;
use crate::bus::{self, Bus};
use crate::cpu::{Cpu, Error, Operation, Return};

verus! {

/// The initial micro-step of this family.
pub fn default() -> (r: Operation)
    ensures
        r == Operation::Call(Call::Fetch0),
{
    Operation::Call(Call::Fetch0)
}

/// Micro-steps of a call: validate, fetch the target low and high bytes,
/// evaluate the condition, push the return address, jump.
#[derive(Clone, Copy, Debug, PartialEq, Eq, Structural)]
pub enum Call {
    /// Validate the opcode (same cycle as the opcode fetch).
    Fetch0,
    /// Fetch the low target byte.
    Fetch1,
    /// Fetch the high target byte and evaluate the condition.
    Check(u8),
    /// Push the high byte of the return address.
    Push0(u16),
    /// Push the low byte of the return address.
    Push1(u16, u8),
    /// Load the target into `PC`.
    Jump(u16),
}

impl Call {
    /// The effect of one micro-step, as a function.
    #[verifier::opaque]
    pub open spec fn spec_exec(self, code: u8, c: Cpu, b: bus::BusV) -> (Cpu, bus::BusV, Return) {
        match self {
            Call::Fetch0 => {
                if code == 0xc4 || code == 0xcc || code == 0xcd || code == 0xd4 || code
                    == 0xdc {
                    (c, b, Ok(Some(Operation::Call(Call::Fetch1))))
                } else {
                    (c, b, Err(Error::Opcode(code)))
                }
            },
            Call::Fetch1 => (
                crate::cpu::exec::ld::spec_stepped(c),
                b,
                Ok(Some(Operation::Call(Call::Check(bus::spec_read_cpu(b, c.pc))))),
            ),
            Call::Check(a8) => {
                let a16 = (bus::spec_read_cpu(b, c.pc) * 256 + a8) as u16;
                let c2 = crate::cpu::exec::ld::spec_stepped(c);
                if spec_cond(code, c) {
                    (c2, b, Ok(Some(Operation::Call(Call::Push0(a16)))))
                } else {
                    (c2, b, Ok(None))
                }
            },
            Call::Push0(a16) => (
                Cpu { sp: vstd::wrapping::u16_specs::wrapping_sub(c.sp, 1), ..c },
                bus::spec_write(b, vstd::wrapping::u16_specs::wrapping_sub(c.sp, 1), (c.pc / 256) as u8),
                Ok(Some(Operation::Call(Call::Push1(a16, (c.pc % 256) as u8)))),
            ),
            Call::Push1(a16, pc0) => (
                Cpu { sp: vstd::wrapping::u16_specs::wrapping_sub(c.sp, 1), ..c },
                bus::spec_write(b, vstd::wrapping::u16_specs::wrapping_sub(c.sp, 1), pc0),
                Ok(Some(Operation::Call(Call::Jump(a16)))),
            ),
            Call::Jump(a16) => (Cpu { pc: a16, ..c }, b, Ok(None)),
        }
    }

    /// Advances this instruction by one micro-step.
    pub fn exec(self, code: u8, cpu: &mut Cpu, bus: &mut Bus) -> (r: Return)
        requires
            old(bus).wf(),
        ensures
            final(bus).wf(),
            (*final(cpu), final(bus)@, r) == self.spec_exec(code, *old(cpu), old(bus)@),
            r matches Err(e) ==> e matches Error::Opcode(_),
    {
        proof {
            reveal(Call::spec_exec);
        }
        match self {
            Call::Fetch0 => fetch0(code, cpu),
            Call::Fetch1 => fetch1(code, cpu, bus),
            Call::Check(a8) => check(code, cpu, bus, a8),
            Call::Push0(a16) => push0(code, cpu, bus, a16),
            Call::Push1(a16, pc0) => push1(code, cpu, bus, a16, pc0),
            Call::Jump(a16) => jump(code, cpu, a16),
        }
    }
}

/// Validates the opcode; any byte outside the call family is undefined
/// here.
pub fn fetch0(code: u8, cpu: &mut Cpu) -> (r: Return)
    ensures
        *final(cpu) == *old(cpu),
        (code == 0xc4 || code == 0xcc || code == 0xcd || code == 0xd4 || code == 0xdc) ==> r
            == Ok::<Option<Operation>, Error>(Some(Operation::Call(Call::Fetch1))),
        !(code == 0xc4 || code == 0xcc || code == 0xcd || code == 0xd4 || code == 0xdc) ==> r
            == Err::<Option<Operation>, Error>(Error::Opcode(code)),
{
    match code {
        0xc4 | 0xcc | 0xcd | 0xd4 | 0xdc => Ok(Some(Operation::Call(Call::Fetch1))),
        _ => Err(Error::Opcode(code)),
    }
}

/// Fetches the low byte of the call target.
pub fn fetch1(code: u8, cpu: &mut Cpu, bus: &Bus) -> (r: Return)
    requires
        bus.wf(),
    ensures
        r == Ok::<Option<Operation>, Error>(Some(Operation::Call(Call::Check(bus::spec_read_cpu(bus@, old(cpu).pc))))),
        *final(cpu) == (Cpu {
            pc: if old(cpu).halt_bug {
                old(cpu).pc
            } else {
                vstd::wrapping::u16_specs::wrapping_add(old(cpu).pc, 1)
            },
            halt_bug: false,
            ..*old(cpu)
        }),
{
    let a8 = cpu.fetchbyte(bus);
    Ok(Some(Operation::Call(Call::Check(a8))))
}

/// The call condition an opcode selects, over the current flags.
pub open spec fn spec_cond(code: u8, c: Cpu) -> bool {
    if code == 0xc4 {
        !c.zf
    } else if code == 0xcc {
        c.zf
    } else if code == 0xd4 {
        !c.cf
    } else if code == 0xdc {
        c.cf
    } else {
        true
    }
}

/// Fetches the high byte of the call target and evaluates the condition:
/// a failed condition finishes the instruction after three cycles, a met
/// one goes on to push the return address.
pub fn check(code: u8, cpu: &mut Cpu, bus: &Bus, a8: u8) -> (r: Return)
    requires
        bus.wf(),
    ensures
        *final(cpu) == (Cpu {
            pc: if old(cpu).halt_bug {
                old(cpu).pc
            } else {
                vstd::wrapping::u16_specs::wrapping_add(old(cpu).pc, 1)
            },
            halt_bug: false,
            ..*old(cpu)
        }),
        ({
            let a16 = (bus::spec_read_cpu(bus@, old(cpu).pc) * 256 + a8) as u16;
            if spec_cond(code, *old(cpu)) {
                r == Ok::<Option<Operation>, Error>(Some(Operation::Call(Call::Push0(a16))))
            } else {
                r == Ok::<Option<Operation>, Error>(None)
            }
        }),
{
    let b8 = cpu.fetchbyte(bus);
    let a16: u16 = (b8 as u16) * 256 + (a8 as u16);
    let cond = match code {
        0xc4 => !cpu.zf,
        0xcc => cpu.zf,
        0xd4 => !cpu.cf,
        0xdc => cpu.cf,
        _ => true,
    };
    if cond {
        Ok(Some(Operation::Call(Call::Push0(a16))))
    } else {
        Ok(None)
    }
}

/// Pushes the high byte of the return address.
pub fn push0(code: u8, cpu: &mut Cpu, bus: &mut Bus, a16: u16) -> (r: Return)
    requires
        old(bus).wf(),
    ensures
        final(bus).wf(),
        r == Ok::<Option<Operation>, Error>(Some(Operation::Call(Call::Push1(a16, (old(cpu).pc % 256) as u8)))),
        final(bus)@ == bus::spec_write(
            old(bus)@,
            vstd::wrapping::u16_specs::wrapping_sub(old(cpu).sp, 1),
            (old(cpu).pc / 256) as u8,
        ),
        *final(cpu) == (Cpu {
            sp: vstd::wrapping::u16_specs::wrapping_sub(old(cpu).sp, 1),
            ..*old(cpu)
        }),
{
    let pc0 = (cpu.pc % 256) as u8;
    let hi = (cpu.pc / 256) as u8;
    cpu.pushbyte(bus, hi);
    Ok(Some(Operation::Call(Call::Push1(a16, pc0))))
}

/// Pushes the low byte of the return address.
pub fn push1(code: u8, cpu: &mut Cpu, bus: &mut Bus, a16: u16, pc0: u8) -> (r: Return)
    requires
        old(bus).wf(),
    ensures
        final(bus).wf(),
        r == Ok::<Option<Operation>, Error>(Some(Operation::Call(Call::Jump(a16)))),
        final(bus)@ == bus::spec_write(
            old(bus)@,
            vstd::wrapping::u16_specs::wrapping_sub(old(cpu).sp, 1),
            pc0,
        ),
        *final(cpu) == (Cpu {
            sp: vstd::wrapping::u16_specs::wrapping_sub(old(cpu).sp, 1),
            ..*old(cpu)
        }),
{
    cpu.pushbyte(bus, pc0);
    Ok(Some(Operation::Call(Call::Jump(a16))))
}

/// Performs the jump.
pub fn jump(code: u8, cpu: &mut Cpu, a16: u16) -> (r: Return)
    ensures
        r == Ok::<Option<Operation>, Error>(None),
        *final(cpu) == (Cpu { pc: a16, ..*old(cpu) }),
{
    cpu.pc = a16;
    Ok(None)
}

} // verus!
