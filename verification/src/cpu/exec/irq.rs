//! Interrupt service sequence.
//!
//! Entering a handler takes five machine cycles: the dispatch cycle and
//! one more idle cycle, pushing the high and then the low byte of `PC`,
//! and the jump to the handler vector. The interrupt's `IF` bit and `IME`
//! were already cleared when the sequence was selected.

use vstd::prelude::*;
use crate::bus::{self, Bus};
use crate::cpu::{Cpu, Error, Operation, Return};

verus! {

/// Micro-steps of the interrupt service sequence.
#[derive(Clone, Copy, Debug, PartialEq, Eq, Structural)]
pub enum Int {
    /// Second idle cycle.
    Delay(u16),
    /// Push the high `PC` byte.
    PushHi(u16),
    /// Push the low `PC` byte.
    PushLo(u16),
    /// Jump to the handler vector.
    Jump(u16),
}

impl Int {
    /// The effect of one micro-step, as a function.
    #[verifier::opaque]
    pub open spec fn spec_exec(self, code: u8, c: Cpu, b: bus::BusV) -> (Cpu, bus::BusV, Return) {
        match self {
            Int::Delay(v) => (c, b, Ok(Some(Operation::Int(Int::PushHi(v))))),
            Int::PushHi(v) => (
                Cpu { sp: vstd::wrapping::u16_specs::wrapping_sub(c.sp, 1), ..c },
                bus::spec_write(b, vstd::wrapping::u16_specs::wrapping_sub(c.sp, 1), (c.pc / 256) as u8),
                Ok(Some(Operation::Int(Int::PushLo(v)))),
            ),
            Int::PushLo(v) => (
                Cpu { sp: vstd::wrapping::u16_specs::wrapping_sub(c.sp, 1), ..c },
                bus::spec_write(b, vstd::wrapping::u16_specs::wrapping_sub(c.sp, 1), (c.pc % 256) as u8),
                Ok(Some(Operation::Int(Int::Jump(v)))),
            ),
            Int::Jump(v) => (Cpu { pc: v, ..c }, b, Ok(None)),
        }
    }

    /// Advances the service sequence by one micro-step.
    pub fn exec(self, code: u8, cpu: &mut Cpu, bus: &mut Bus) -> (r: Return)
        requires
            old(bus).wf(),
        ensures
            final(bus).wf(),
            (*final(cpu), final(bus)@, r) == self.spec_exec(code, *old(cpu), old(bus)@),
            r matches Err(e) ==> e matches Error::Opcode(_),
            self matches Int::Delay(v) ==> (r == Ok::<Option<Operation>, Error>(Some(Operation::Int(Int::PushHi(v))))
                && *final(cpu) == *old(cpu) && *final(bus) == *old(bus)),
            self matches Int::PushHi(v) ==> (r == Ok::<Option<Operation>, Error>(Some(Operation::Int(Int::PushLo(v))))
                && final(bus)@ == bus::spec_write(
                old(bus)@,
                vstd::wrapping::u16_specs::wrapping_sub(old(cpu).sp, 1),
                (old(cpu).pc / 256) as u8,
            )),
            self matches Int::PushLo(v) ==> (r == Ok::<Option<Operation>, Error>(Some(Operation::Int(Int::Jump(v))))
                && final(bus)@ == bus::spec_write(
                old(bus)@,
                vstd::wrapping::u16_specs::wrapping_sub(old(cpu).sp, 1),
                (old(cpu).pc % 256) as u8,
            )),
            self matches Int::Jump(v) ==> (r == Ok::<Option<Operation>, Error>(None)
                && *final(cpu) == (Cpu { pc: v, ..*old(cpu) }) && *final(bus) == *old(bus)),
    {
        proof {
            reveal(Int::spec_exec);
        }
        match self {
            Int::Delay(v) => Ok(Some(Operation::Int(Int::PushHi(v)))),
            Int::PushHi(v) => {
                let hi = (cpu.pc / 256) as u8;
                cpu.pushbyte(bus, hi);
                Ok(Some(Operation::Int(Int::PushLo(v))))
            },
            Int::PushLo(v) => {
                let lo = (cpu.pc % 256) as u8;
                cpu.pushbyte(bus, lo);
                Ok(Some(Operation::Int(Int::Jump(v))))
            },
            Int::Jump(v) => {
                cpu.pc = v;
                Ok(None)
            },
        }
    }
}

} // verus!
