//! One-cycle control and accumulator instructions: `NOP`, `HALT`, `DI`,
//! `EI`, the accumulator rotates, `DAA`, `CPL`, `SCF` and `CCF`.

use vstd::prelude::*;
use crate::bus::{self, Bus};
use crate::cpu::{Cpu, Error, Operation, Return};
use crate::pic;

verus! {

/// The initial micro-step of this family.
pub fn default() -> (r: Operation)
    ensures
        r == Operation::Misc(Misc::Execute),
{
    Operation::Misc(Misc::Execute)
}

/// Micro-steps of the one-cycle instructions.
#[derive(Clone, Copy, Debug, PartialEq, Eq, Structural)]
pub enum Misc {
    /// Execute in the opcode-fetch cycle.
    Execute,
}

/// The register file after the one-cycle instruction `code`, given
/// whether an interrupt is pending (which decides the halt bug).
pub open spec fn spec_misc(c: Cpu, code: u8, pending: bool) -> Cpu {
    if code == 0x00 {
        c
    } else if code == 0x76 {
        // HALT, with the halt bug when interrupts are disabled but one is
        // already pending.
        if !c.ime && pending {
            Cpu { halt_bug: true, ..c }
        } else {
            Cpu { halted: true, ..c }
        }
    } else if code == 0xf3 {
        // DI takes effect immediately.
        Cpu { ime: false, ei_delay: false, ..c }
    } else if code == 0xfb {
        // EI takes effect after the next instruction.
        Cpu { ei_delay: true, ..c }
    } else if code == 0x07 {
        // RLCA
        let nv = ((c.a * 2 + c.a / 128) % 256) as u8;
        Cpu { a: nv, zf: false, nf: false, hf: false, cf: c.a / 128 == 1, ..c }
    } else if code == 0x0f {
        // RRCA
        let nv = ((c.a / 2 + (c.a % 2) * 128)) as u8;
        Cpu { a: nv, zf: false, nf: false, hf: false, cf: c.a % 2 == 1, ..c }
    } else if code == 0x17 {
        // RLA
        let cin: int = if c.cf {
            1
        } else {
            0
        };
        let nv = ((c.a * 2 + cin) % 256) as u8;
        Cpu { a: nv, zf: false, nf: false, hf: false, cf: c.a / 128 == 1, ..c }
    } else if code == 0x1f {
        // RRA
        let cin: int = if c.cf {
            128
        } else {
            0
        };
        let nv = (c.a / 2 + cin) as u8;
        Cpu { a: nv, zf: false, nf: false, hf: false, cf: c.a % 2 == 1, ..c }
    } else if code == 0x27 {
        // DAA: binary-coded-decimal correction after an add or subtract.
        spec_daa(c)
    } else if code == 0x2f {
        // CPL
        Cpu { a: (255 - c.a) as u8, nf: true, hf: true, ..c }
    } else if code == 0x37 {
        // SCF
        Cpu { nf: false, hf: false, cf: true, ..c }
    } else {
        // CCF
        Cpu { nf: false, hf: false, cf: !c.cf, ..c }
    }
}

/// The register file after `DAA`: the accumulator is corrected to packed
/// decimal according to the `N`, `H` and `C` flags of the preceding
/// operation.
pub open spec fn spec_daa(c: Cpu) -> Cpu {
    if !c.nf {
        let lo: int = if c.hf || c.a % 16 > 9 {
            6
        } else {
            0
        };
        let hi: int = if c.cf || c.a > 0x99 {
            0x60
        } else {
            0
        };
        let nv = ((c.a + lo + hi) % 256) as u8;
        Cpu { a: nv, zf: nv == 0, hf: false, cf: c.cf || c.a > 0x99, ..c }
    } else {
        let lo: int = if c.hf {
            6
        } else {
            0
        };
        let hi: int = if c.cf {
            0x60
        } else {
            0
        };
        let nv = (((c.a - lo - hi) % 256 + 256) % 256) as u8;
        Cpu { a: nv, zf: nv == 0, hf: false, ..c }
    }
}

impl Misc {
    /// The effect of one micro-step, as a function.
    #[verifier::opaque]
    pub open spec fn spec_exec(self, code: u8, c: Cpu, b: bus::BusV) -> (Cpu, bus::BusV, Return) {
        if spec_is_misc(code) {
            (spec_misc(c, code, pic::spec_pending(b.pic)), b, Ok(None))
        } else {
            (c, b, Err(Error::Opcode(code)))
        }
    }

    /// Advances this instruction by one micro-step.
    pub fn exec(self, code: u8, cpu: &mut Cpu, bus: &mut Bus) -> (r: Return)
        requires
            old(bus).wf(),
        ensures
            final(bus).wf(),
            (*final(cpu), final(bus)@, r) == self.spec_exec(code, *old(cpu), old(bus)@),
            r matches Err(e) ==> e matches Error::Opcode(_),
            *final(bus) == *old(bus),
            spec_is_misc(code) ==> (r == Ok::<Option<Operation>, Error>(None) && *final(cpu)
                == spec_misc(*old(cpu), code, pic::spec_pending(old(bus).pic))),
            !spec_is_misc(code) ==> (r == Err::<Option<Operation>, Error>(Error::Opcode(code)) && *final(cpu) == *old(cpu)),
    {
        proof {
            reveal(Misc::spec_exec);
        }
        match self {
            Misc::Execute => execute(code, cpu, bus),
        }
    }
}

/// The opcode belongs to this family.
pub open spec fn spec_is_misc(code: u8) -> bool {
    code == 0x00 || code == 0x76 || code == 0xf3 || code == 0xfb || code == 0x07 || code
        == 0x0f || code == 0x17 || code == 0x1f || code == 0x27 || code == 0x2f || code == 0x37
        || code == 0x3f
}

/// Applies the decimal correction of `DAA`.
fn daa(cpu: &mut Cpu)
    ensures
        *final(cpu) == spec_daa(*old(cpu)),
{
    let a = cpu.a;
    if !cpu.nf {
        let lo: u8 = if cpu.hf || a % 16 > 9 {
            6
        } else {
            0
        };
        let carry = cpu.cf || a > 0x99;
        let hi: u8 = if carry {
            0x60
        } else {
            0
        };
        let nv = ((a as u16 + lo as u16 + hi as u16) % 256) as u8;
        cpu.a = nv;
        cpu.zf = nv == 0;
        cpu.hf = false;
        cpu.cf = carry;
    } else {
        let lo: u8 = if cpu.hf {
            6
        } else {
            0
        };
        let hi: u8 = if cpu.cf {
            0x60
        } else {
            0
        };
        let nv = a.wrapping_sub(lo).wrapping_sub(hi);
        cpu.a = nv;
        cpu.zf = nv == 0;
        cpu.hf = false;
    }
}

/// Executes the one-cycle instruction.
#[verifier::rlimit(100)]
pub fn execute(code: u8, cpu: &mut Cpu, bus: &Bus) -> (r: Return)
    ensures
        spec_is_misc(code) ==> (r == Ok::<Option<Operation>, Error>(None) && *final(cpu)
            == spec_misc(*old(cpu), code, pic::spec_pending(bus.pic))),
        !spec_is_misc(code) ==> (r == Err::<Option<Operation>, Error>(Error::Opcode(code)) && *final(cpu) == *old(cpu)),
{
    if code == 0x00 {
    } else if code == 0x76 {
        let pending = bus.pic.pending_int().is_some();
        if !cpu.ime && pending {
            cpu.halt_bug = true;
        } else {
            cpu.halted = true;
        }
    } else if code == 0xf3 {
        cpu.ime = false;
        cpu.ei_delay = false;
    } else if code == 0xfb {
        cpu.ei_delay = true;
    } else if code == 0x07 {
        let a = cpu.a;
        cpu.a = ((a as u16 * 2 + (a / 128) as u16) % 256) as u8;
        cpu.zf = false;
        cpu.nf = false;
        cpu.hf = false;
        cpu.cf = a / 128 == 1;
    } else if code == 0x0f {
        let a = cpu.a;
        cpu.a = a / 2 + (a % 2) * 128;
        cpu.zf = false;
        cpu.nf = false;
        cpu.hf = false;
        cpu.cf = a % 2 == 1;
    } else if code == 0x17 {
        let a = cpu.a;
        let cin: u8 = if cpu.cf {
            1
        } else {
            0
        };
        cpu.a = ((a as u16 * 2 + cin as u16) % 256) as u8;
        cpu.zf = false;
        cpu.nf = false;
        cpu.hf = false;
        cpu.cf = a / 128 == 1;
    } else if code == 0x1f {
        let a = cpu.a;
        let cin: u8 = if cpu.cf {
            128
        } else {
            0
        };
        cpu.a = a / 2 + cin;
        cpu.zf = false;
        cpu.nf = false;
        cpu.hf = false;
        cpu.cf = a % 2 == 1;
    } else if code == 0x27 {
        daa(cpu);
    } else if code == 0x2f {
        cpu.a = 255 - cpu.a;
        cpu.nf = true;
        cpu.hf = true;
    } else if code == 0x37 {
        cpu.nf = false;
        cpu.hf = false;
        cpu.cf = true;
    } else if code == 0x3f {
        cpu.nf = false;
        cpu.hf = false;
        cpu.cf = !cpu.cf;
    } else {
        return Err(Error::Opcode(code));
    }
    Ok(None)
}

} // verus!
