//! 8-bit accumulator arithmetic: `ADD`, `ADC`, `SUB`, `SBC`, `AND`,
//! `XOR` and `CP`, in their register, `(HL)` and immediate forms.

use vstd::prelude::*;
use crate::bus::{self, Bus};
use crate::cpu::{spec_hl, spec_reg8, Cpu, Error, Operation, Return};

verus! {

/// The initial micro-step of this family.
pub fn default() -> (r: Operation)
    ensures
        r == Operation::Alu(Alu::Fetch),
{
    Operation::Alu(Alu::Fetch)
}

/// Micro-steps of the accumulator arithmetic.
#[derive(Clone, Copy, Debug, PartialEq, Eq, Structural)]
pub enum Alu {
    /// Decode the operand (same cycle as the opcode fetch).
    Fetch,
    /// Read the operand at `HL`, then execute.
    ReadHl,
    /// Fetch the immediate operand, then execute.
    ReadImm,
}

/// Which of the eight operations the opcode selects (`(code / 8) % 8`).
pub open spec fn spec_op_of(code: u8) -> u8 {
    ((code / 8) % 8) as u8
}

/// The register file after the selected operation applies `op2` to the
/// accumulator, with the SM83 flag rules for each operation.
pub open spec fn spec_alu(code: u8, c: Cpu, op2: u8) -> Cpu {
    let op = spec_op_of(code);
    if op == 0 {
        // ADD
        let res = ((c.a + op2) % 256) as u8;
        Cpu {
            a: res,
            zf: res == 0,
            nf: false,
            hf: (c.a % 16) + (op2 % 16) > 15,
            cf: c.a + op2 > 255,
            ..c
        }
    } else if op == 1 {
        // ADC
        let cin: int = if c.cf {
            1
        } else {
            0
        };
        let res = ((c.a + op2 + cin) % 256) as u8;
        Cpu {
            a: res,
            zf: res == 0,
            nf: false,
            hf: (c.a % 16) + (op2 % 16) + cin > 15,
            cf: c.a + op2 + cin > 255,
            ..c
        }
    } else if op == 2 {
        // SUB
        let res = (((c.a - op2) % 256 + 256) % 256) as u8;
        Cpu {
            a: res,
            zf: res == 0,
            nf: true,
            hf: (c.a % 16) < (op2 % 16),
            cf: (c.a as int) < op2,
            ..c
        }
    } else if op == 3 {
        // SBC
        let cin: int = if c.cf {
            1
        } else {
            0
        };
        let res = (((c.a - op2 - cin) % 256 + 256) % 256) as u8;
        Cpu {
            a: res,
            zf: res == 0,
            nf: true,
            hf: (c.a % 16) < (op2 % 16) + cin,
            cf: (c.a as int) < op2 + cin,
            ..c
        }
    } else if op == 4 {
        // AND
        let res = c.a & op2;
        Cpu { a: res, zf: res == 0, nf: false, hf: true, cf: false, ..c }
    } else if op == 5 {
        // XOR
        let res = c.a ^ op2;
        Cpu { a: res, zf: res == 0, nf: false, hf: false, cf: false, ..c }
    } else {
        // CP: the flags of SUB with the accumulator kept.
        Cpu {
            zf: c.a == op2,
            nf: true,
            hf: (c.a % 16) < (op2 % 16),
            cf: (c.a as int) < op2,
            ..c
        }
    }
}

impl Alu {
    /// The effect of one micro-step, as a function.
    #[verifier::opaque]
    pub open spec fn spec_exec(self, code: u8, c: Cpu, b: bus::BusV) -> (Cpu, bus::BusV, Return) {
        match self {
            Alu::Fetch => {
                if spec_is_reg_form(code) {
                    if code % 8 == 6 {
                        (c, b, Ok(Some(Operation::Alu(Alu::ReadHl))))
                    } else {
                        (spec_alu(code, c, spec_reg8(c, (code % 8) as u8)), b, Ok(None))
                    }
                } else if spec_is_imm_form(code) {
                    (c, b, Ok(Some(Operation::Alu(Alu::ReadImm))))
                } else {
                    (c, b, Err(Error::Opcode(code)))
                }
            },
            Alu::ReadHl => (spec_alu(code, c, bus::spec_read_cpu(b, spec_hl(c))), b, Ok(None)),
            Alu::ReadImm => (
                spec_alu(
                    code,
                    crate::cpu::exec::ld::spec_stepped(c),
                    bus::spec_read_cpu(b, c.pc),
                ),
                b,
                Ok(None),
            ),
        }
    }

    /// Advances this instruction by one micro-step.
    pub fn exec(self, code: u8, cpu: &mut Cpu, bus: &mut Bus) -> (r: Return)
        requires
            old(bus).wf(),
        ensures
            final(bus).wf(),
            (*final(cpu), final(bus)@, r) == self.spec_exec(code, *old(cpu), old(bus)@),
            r matches Err(e) ==> e matches Error::Opcode(_),
            *final(bus) == *old(bus),
            self is ReadHl ==> (r == Ok::<Option<Operation>, Error>(None) && *final(cpu)
                == spec_alu(code, *old(cpu), bus::spec_read_cpu(old(bus)@, spec_hl(*old(cpu))))),
            self is ReadImm ==> (r == Ok::<Option<Operation>, Error>(None) && *final(cpu)
                == spec_alu(
                code,
                crate::cpu::exec::ld::spec_stepped(*old(cpu)),
                bus::spec_read_cpu(old(bus)@, old(cpu).pc),
            )),
    {
        proof {
            reveal(Alu::spec_exec);
        }
        match self {
            Alu::Fetch => fetch(code, cpu),
            Alu::ReadHl => {
                let op2 = cpu.readbyte(bus);
                execute(code, cpu, op2)
            },
            Alu::ReadImm => {
                let op2 = cpu.fetchbyte(bus);
                execute(code, cpu, op2)
            },
        }
    }
}

/// The opcode belongs to this family's register block (`OR` excluded,
/// which has its own module).
pub open spec fn spec_is_reg_form(code: u8) -> bool {
    0x80 <= code < 0xc0 && !(0xb0 <= code < 0xb8)
}

/// The opcode is an immediate form of this family.
pub open spec fn spec_is_imm_form(code: u8) -> bool {
    code == 0xc6 || code == 0xce || code == 0xd6 || code == 0xde || code == 0xe6 || code
        == 0xee || code == 0xfe
}

/// Decodes the operand: register forms execute at once, the `(HL)` and
/// immediate forms go on to their read cycle.
pub fn fetch(code: u8, cpu: &mut Cpu) -> (r: Return)
    ensures
        (spec_is_reg_form(code) && code % 8 == 6) ==> (r == Ok::<Option<Operation>, Error>(Some(Operation::Alu(
            Alu::ReadHl,
        ))) && *final(cpu) == *old(cpu)),
        (spec_is_reg_form(code) && code % 8 != 6) ==> (r == Ok::<Option<Operation>, Error>(
            None,
        ) && *final(cpu) == spec_alu(code, *old(cpu), spec_reg8(*old(cpu), (code % 8) as u8))),
        spec_is_imm_form(code) ==> (r == Ok::<Option<Operation>, Error>(Some(Operation::Alu(Alu::ReadImm)))
            && *final(cpu) == *old(cpu)),
        !(spec_is_reg_form(code) || spec_is_imm_form(code)) ==> (r == Err::<Option<Operation>, Error>(Error::Opcode(code))
            && *final(cpu) == *old(cpu)),
{
    if code >= 0x80 && code < 0xc0 && !(code >= 0xb0 && code < 0xb8) {
        if code % 8 == 6 {
            Ok(Some(Operation::Alu(Alu::ReadHl)))
        } else {
            let op2 = cpu.reg8(code % 8);
            execute(code, cpu, op2)
        }
    } else if code == 0xc6 || code == 0xce || code == 0xd6 || code == 0xde || code == 0xe6
        || code == 0xee || code == 0xfe {
        Ok(Some(Operation::Alu(Alu::ReadImm)))
    } else {
        Err(Error::Opcode(code))
    }
}

/// Applies the selected operation to the accumulator and sets the flags.
#[verifier::rlimit(100)]
pub fn execute(code: u8, cpu: &mut Cpu, op2: u8) -> (r: Return)
    ensures
        r == Ok::<Option<Operation>, Error>(None),
        *final(cpu) == spec_alu(code, *old(cpu), op2),
{
    let op = (code / 8) % 8;
    let a = cpu.a;
    if op == 0 {
        let sum: u16 = a as u16 + op2 as u16;
        let res = (sum % 256) as u8;
        cpu.a = res;
        cpu.zf = res == 0;
        cpu.nf = false;
        cpu.hf = (a % 16) + (op2 % 16) > 15;
        cpu.cf = sum > 255;
    } else if op == 1 {
        let cin: u16 = if cpu.cf {
            1
        } else {
            0
        };
        let sum: u16 = a as u16 + op2 as u16 + cin;
        let res = (sum % 256) as u8;
        cpu.a = res;
        cpu.zf = res == 0;
        cpu.nf = false;
        cpu.hf = (a % 16) as u16 + (op2 % 16) as u16 + cin > 15;
        cpu.cf = sum > 255;
    } else if op == 2 {
        let res = a.wrapping_sub(op2);
        cpu.a = res;
        cpu.zf = res == 0;
        cpu.nf = true;
        cpu.hf = (a % 16) < (op2 % 16);
        cpu.cf = a < op2;
    } else if op == 3 {
        let cin: u16 = if cpu.cf {
            1
        } else {
            0
        };
        let res = a.wrapping_sub(op2).wrapping_sub(cin as u8);
        cpu.a = res;
        cpu.zf = res == 0;
        cpu.nf = true;
        cpu.hf = ((a % 16) as u16) < (op2 % 16) as u16 + cin;
        cpu.cf = (a as u16) < op2 as u16 + cin;
    } else if op == 4 {
        let res = a & op2;
        cpu.a = res;
        cpu.zf = res == 0;
        cpu.nf = false;
        cpu.hf = true;
        cpu.cf = false;
    } else if op == 5 {
        let res = a ^ op2;
        cpu.a = res;
        cpu.zf = res == 0;
        cpu.nf = false;
        cpu.hf = false;
        cpu.cf = false;
    } else {
        cpu.zf = a == op2;
        cpu.nf = true;
        cpu.hf = (a % 16) < (op2 % 16);
        cpu.cf = a < op2;
    }
    Ok(None)
}

} // verus!
