//! SM83 processor.
//!
//! The processor is a micro-step state machine: each machine cycle it
//! either services an interrupt, fetches and decodes an opcode, or
//! advances the instruction in flight by one micro-step. Every micro-step
//! performs at most one bus transaction; the step that shares the opcode
//! fetch cycle never touches the bus.
//!
//! Flags are kept as four booleans, so the low nibble of the flag register
//! is zero in every reachable state.

use vstd::prelude::*;
use crate::bus::Bus;
use crate::pic::{self, Interrupt};

pub mod exec;

use crate::cpu::exec::{addw, alu, call, cb, incdec, irq, jump, ld, ldw, misc, or, stack, stop};

verus! {

/// A failure surfaced from a micro-step to the host loop.
#[derive(Clone, Copy, Debug, PartialEq, Eq, Structural)]
pub enum Error {
    /// An undefined opcode was executed.
    Opcode(u8),
    /// A recognised opcode has no implementation.
    Unimplemented(u8),
}

/// What a micro-step hands back: the next micro-step of the instruction,
/// or `None` when the instruction is finished.
pub type Return = Result<Option<Operation>, Error>;

/// Instruction in flight, carrying which micro-step within it comes next.
#[derive(Clone, Copy, Debug, PartialEq, Eq, Structural)]
pub enum Operation {
    Addw(addw::Addw),
    Call(call::Call),
    Or(or::Or),
    Stop(stop::Stop),
    Ld(ld::Ld),
    Ldw(ldw::Ldw),
    Stack(stack::Stack),
    Alu(alu::Alu),
    Incdec(incdec::Incdec),
    Incw(incdec::Incw),
    Misc(misc::Misc),
    Jump(jump::Jump),
    Cb(cb::Cb),
    Int(irq::Int),
}

/// Processor stage: between instructions, or inside one.
#[derive(Clone, Copy, Debug, PartialEq, Eq, Structural)]
pub enum Stage {
    /// The next cycle fetches (or services an interrupt).
    Fetch,
    /// The instruction with this opcode is in flight.
    Execute(u8, Operation),
}

/// Register file and execution state.
#[derive(Clone, Copy, Debug, PartialEq, Eq, Structural)]
pub struct Cpu {
    pub a: u8,
    pub b: u8,
    pub c: u8,
    pub d: u8,
    pub e: u8,
    pub h: u8,
    pub l: u8,
    /// Zero flag (`F` bit 7).
    pub zf: bool,
    /// Subtraction flag (`F` bit 6).
    pub nf: bool,
    /// Half-carry flag (`F` bit 5).
    pub hf: bool,
    /// Carry flag (`F` bit 4).
    pub cf: bool,
    pub sp: u16,
    pub pc: u16,
    /// Interrupt master enable.
    pub ime: bool,
    /// `EI` took effect this instruction; `IME` sets at the next boundary.
    pub ei_delay: bool,
    /// The processor sleeps until an interrupt is pending.
    pub halted: bool,
    /// The halt bug is armed: the next opcode fetch does not advance `PC`.
    pub halt_bug: bool,
    /// Current stage.
    pub stage: Stage,
}

/// The flag register byte: the four flags in the high nibble, the low
/// nibble zero.
pub open spec fn spec_f(c: Cpu) -> u8 {
    ((if c.zf {
        128int
    } else {
        0int
    }) + (if c.nf {
        64int
    } else {
        0int
    }) + (if c.hf {
        32int
    } else {
        0int
    }) + (if c.cf {
        16int
    } else {
        0int
    })) as u8
}

/// The 16-bit pairs.
pub open spec fn spec_af(c: Cpu) -> u16 {
    (c.a * 256 + spec_f(c)) as u16
}

pub open spec fn spec_bc(c: Cpu) -> u16 {
    (c.b * 256 + c.c) as u16
}

pub open spec fn spec_de(c: Cpu) -> u16 {
    (c.d * 256 + c.e) as u16
}

pub open spec fn spec_hl(c: Cpu) -> u16 {
    (c.h * 256 + c.l) as u16
}

/// In every reachable state the flag register's low nibble reads zero:
/// the four flags live in the high nibble and nothing else is stored.
pub proof fn lemma_flags_low_nibble_zero(c: Cpu)
    ensures
        spec_f(c) % 16 == 0,
        spec_f(c) & 0x0f == 0,
{
    let f = spec_f(c);
    assert(f % 16 == 0);
    assert(f % 16 == 0 ==> f & 0x0f == 0) by (bit_vector);
}

impl Cpu {
    /// A processor in its post-reset state: cleared registers, about to
    /// fetch from address zero.
    pub fn new() -> (r: Cpu)
        ensures
            r == Cpu::spec_reset(),
    {
        Cpu {
            a: 0,
            b: 0,
            c: 0,
            d: 0,
            e: 0,
            h: 0,
            l: 0,
            zf: false,
            nf: false,
            hf: false,
            cf: false,
            sp: 0,
            pc: 0,
            ime: false,
            ei_delay: false,
            halted: false,
            halt_bug: false,
            stage: Stage::Fetch,
        }
    }

    /// The post-reset register file.
    pub open spec fn spec_reset() -> Cpu {
        Cpu {
            a: 0,
            b: 0,
            c: 0,
            d: 0,
            e: 0,
            h: 0,
            l: 0,
            zf: false,
            nf: false,
            hf: false,
            cf: false,
            sp: 0,
            pc: 0,
            ime: false,
            ei_delay: false,
            halted: false,
            halt_bug: false,
            stage: Stage::Fetch,
        }
    }

    /// Returns the processor to its post-reset state.
    pub fn reset(&mut self)
        ensures
            *final(self) == Cpu::spec_reset(),
    {
        *self = Cpu::new();
    }

    /// The flag register byte.
    pub fn f(&self) -> (r: u8)
        ensures
            r == spec_f(*self),
    {
        (if self.zf {
            128u8
        } else {
            0u8
        }) + (if self.nf {
            64u8
        } else {
            0u8
        }) + (if self.hf {
            32u8
        } else {
            0u8
        }) + (if self.cf {
            16u8
        } else {
            0u8
        })
    }

    /// Stores the flag register byte; the low nibble is discarded.
    pub fn set_f(&mut self, v: u8)
        ensures
            *final(self) == (Cpu {
                zf: (v / 128) % 2 == 1,
                nf: (v / 64) % 2 == 1,
                hf: (v / 32) % 2 == 1,
                cf: (v / 16) % 2 == 1,
                ..*old(self)
            }),
    {
        self.zf = (v / 128) % 2 == 1;
        self.nf = (v / 64) % 2 == 1;
        self.hf = (v / 32) % 2 == 1;
        self.cf = (v / 16) % 2 == 1;
    }

    /// The `BC` pair.
    pub fn bc(&self) -> (r: u16)
        ensures
            r == spec_bc(*self),
    {
        (self.b as u16) * 256 + (self.c as u16)
    }

    /// The `DE` pair.
    pub fn de(&self) -> (r: u16)
        ensures
            r == spec_de(*self),
    {
        (self.d as u16) * 256 + (self.e as u16)
    }

    /// The `HL` pair.
    pub fn hl(&self) -> (r: u16)
        ensures
            r == spec_hl(*self),
    {
        (self.h as u16) * 256 + (self.l as u16)
    }

    /// Stores the `BC` pair.
    pub fn set_bc(&mut self, v: u16)
        ensures
            *final(self) == (Cpu { b: (v / 256) as u8, c: (v % 256) as u8, ..*old(self) }),
            spec_bc(*final(self)) == v,
    {
        self.b = (v / 256) as u8;
        self.c = (v % 256) as u8;
    }

    /// Stores the `DE` pair.
    pub fn set_de(&mut self, v: u16)
        ensures
            *final(self) == (Cpu { d: (v / 256) as u8, e: (v % 256) as u8, ..*old(self) }),
            spec_de(*final(self)) == v,
    {
        self.d = (v / 256) as u8;
        self.e = (v % 256) as u8;
    }

    /// Stores the `HL` pair.
    pub fn set_hl(&mut self, v: u16)
        ensures
            *final(self) == (Cpu { h: (v / 256) as u8, l: (v % 256) as u8, ..*old(self) }),
            spec_hl(*final(self)) == v,
    {
        self.h = (v / 256) as u8;
        self.l = (v % 256) as u8;
    }

    /// Reads the 8-bit register selected by the low three opcode bits
    /// (`B,C,D,E,H,L,-,A`); selector 6 (`(HL)`) is not a register and
    /// yields the accumulator here, callers route it to memory first.
    pub fn reg8(&self, sel: u8) -> (r: u8)
        ensures
            r == spec_reg8(*self, sel),
    {
        match sel % 8 {
            0 => self.b,
            1 => self.c,
            2 => self.d,
            3 => self.e,
            4 => self.h,
            5 => self.l,
            6 => self.a,
            _ => self.a,
        }
    }

    /// Stores the 8-bit register selected by the low three opcode bits.
    pub fn set_reg8(&mut self, sel: u8, v: u8)
        ensures
            *final(self) == spec_set_reg8(*old(self), sel, v),
    {
        match sel % 8 {
            0 => { self.b = v; },
            1 => { self.c = v; },
            2 => { self.d = v; },
            3 => { self.e = v; },
            4 => { self.h = v; },
            5 => { self.l = v; },
            6 => { self.a = v; },
            _ => { self.a = v; },
        }
    }

    /// Fetches the byte at `PC` and advances `PC`, except that an armed
    /// halt bug reads without advancing and disarms.
    pub fn fetchbyte(&mut self, bus: &Bus) -> (r: u8)
        requires
            bus.wf(),
        ensures
            r == crate::bus::spec_read_cpu(bus@, old(self).pc),
            *final(self) == (Cpu {
                pc: if old(self).halt_bug {
                    old(self).pc
                } else {
                    vstd::wrapping::u16_specs::wrapping_add(old(self).pc, 1)
                },
                halt_bug: false,
                ..*old(self)
            }),
    {
        let v = bus.read_cpu(self.pc);
        if self.halt_bug {
            self.halt_bug = false;
        } else {
            self.pc = self.pc.wrapping_add(1);
        }
        v
    }

    /// Reads the byte at `HL`.
    pub fn readbyte(&mut self, bus: &Bus) -> (r: u8)
        requires
            bus.wf(),
        ensures
            r == crate::bus::spec_read_cpu(bus@, spec_hl(*old(self))),
            *final(self) == *old(self),
    {
        bus.read_cpu(self.hl())
    }

    /// Pushes a byte: decrements `SP`, then stores at the new `SP`.
    pub fn pushbyte(&mut self, bus: &mut Bus, v: u8)
        requires
            old(bus).wf(),
        ensures
            final(bus).wf(),
            final(bus)@ == crate::bus::spec_write(
                old(bus)@,
                vstd::wrapping::u16_specs::wrapping_sub(old(self).sp, 1),
                v,
            ),
            *final(self) == (Cpu {
                sp: vstd::wrapping::u16_specs::wrapping_sub(old(self).sp, 1),
                ..*old(self)
            }),
    {
        self.sp = self.sp.wrapping_sub(1);
        bus.write(self.sp, v);
    }

    /// Pops a byte: loads from `SP`, then increments `SP`.
    pub fn popbyte(&mut self, bus: &Bus) -> (r: u8)
        requires
            bus.wf(),
        ensures
            r == crate::bus::spec_read_cpu(bus@, old(self).sp),
            *final(self) == (Cpu {
                sp: vstd::wrapping::u16_specs::wrapping_add(old(self).sp, 1),
                ..*old(self)
            }),
    {
        let v = bus.read_cpu(self.sp);
        self.sp = self.sp.wrapping_add(1);
        v
    }

    /// One machine cycle, as the contract of the processor prescribes:
    /// a halted processor with nothing pending sleeps; at an instruction
    /// boundary a pending, enabled interrupt starts the five-cycle
    /// service sequence, otherwise the next opcode is fetched, decoded
    /// and its first micro-step (which never touches the bus) runs;
    /// inside an instruction the next micro-step runs with its single
    /// bus transaction. An undefined opcode surfaces [`Error::Opcode`].
    #[verifier::rlimit(100)]
    #[verifier::spinoff_prover]
    pub fn cycle(&mut self, bus: &mut Bus) -> (r: Result<(), Error>)
        requires
            old(bus).wf(),
        ensures
            final(bus).wf(),
            (*final(self), final(bus)@, r) == spec_cpu_cycle(*old(self), old(bus)@),
            r matches Err(e) ==> e matches Error::Opcode(_),
            (old(self).stage is Fetch && old(self).halted && !pic::spec_pending(
                old(bus).pic,
            )) ==> (*final(self) == *old(self) && *final(bus) == *old(bus) && r == Ok::<
                (),
                Error,
            >(())),
            (old(self).stage is Fetch && (!old(self).halted || pic::spec_pending(
                old(bus).pic,
            )) && old(self).ime && pic::spec_pending(old(bus).pic)) ==> ({
                let i = pic::spec_next(old(bus).pic)->Some_0;
                &&& r == Ok::<(), Error>(())
                &&& !final(self).ime
                &&& final(self).stage == Stage::Execute(
                    0,
                    Operation::Int(irq::Int::Delay(i.spec_vector())),
                )
                &&& final(bus).pic.active == pic::spec_clear_bit(
                    old(bus).pic.active,
                    i.spec_mask(),
                )
                &&& final(bus).pic.enable == old(bus).pic.enable
            }),
    {
        match self.stage {
            Stage::Fetch => {
                if self.halted {
                    if bus.pic.pending_int().is_some() {
                        self.halted = false;
                    } else {
                        return Ok(());
                    }
                }
                // EI enables interrupts only after the instruction that
                // follows it, so this boundary still dispatches on the
                // old master-enable value.
                let ime_now = self.ime;
                if self.ei_delay {
                    self.ei_delay = false;
                    self.ime = true;
                }
                if ime_now {
                    match bus.pic.pending_int() {
                        Some(i) => {
                            self.ime = false;
                            bus.pic.ack(i);
                            self.stage = Stage::Execute(
                                0,
                                Operation::Int(irq::Int::Delay(i.vector())),
                            );
                            return Ok(());
                        },
                        None => {},
                    }
                }
                let code = self.fetchbyte(bus);
                match decode(code) {
                    Ok(op) => self.step(bus, code, op),
                    Err(e) => {
                        self.stage = Stage::Fetch;
                        Err(e)
                    },
                }
            },
            Stage::Execute(code, op) => self.step(bus, code, op),
        }
    }

    /// Runs one micro-step and stores the stage it hands back.
    #[verifier::rlimit(100)]
    #[verifier::spinoff_prover]
    fn step(&mut self, bus: &mut Bus, code: u8, op: Operation) -> (r: Result<(), Error>)
        requires
            old(bus).wf(),
        ensures
            final(bus).wf(),
            (*final(self), final(bus)@, r) == spec_step(*old(self), old(bus)@, code, op),
            r matches Err(e) ==> e matches Error::Opcode(_),
    {
        let next = match op {
            Operation::Addw(x) => step_addw(x, code, self, bus),
            Operation::Call(x) => step_call(x, code, self, bus),
            Operation::Or(x) => step_or(x, code, self, bus),
            Operation::Stop(x) => step_stop(x, code, self, bus),
            Operation::Ld(x) => step_ld(x, code, self, bus),
            Operation::Ldw(x) => step_ldw(x, code, self, bus),
            Operation::Stack(x) => step_stack(x, code, self, bus),
            Operation::Alu(x) => step_alu(x, code, self, bus),
            Operation::Incdec(x) => step_incdec(x, code, self, bus),
            Operation::Incw(x) => step_incw(x, code, self, bus),
            Operation::Misc(x) => step_misc(x, code, self, bus),
            Operation::Jump(x) => step_jump(x, code, self, bus),
            Operation::Cb(x) => step_cb(x, code, self, bus),
            Operation::Int(x) => step_int(x, code, self, bus),
        };
        match next {
            Ok(Some(op2)) => {
                self.stage = Stage::Execute(code, op2);
                Ok(())
            },
            Ok(None) => {
                self.stage = Stage::Fetch;
                Ok(())
            },
            Err(e) => {
                self.stage = Stage::Fetch;
                Err(e)
            },
        }
    }

    /// The processor can do work: it is not halted, or an interrupt is
    /// pending to wake it.
    pub fn enabled(&self, bus: &Bus) -> (r: bool)
        ensures
            r == (!self.halted || pic::spec_pending(bus.pic)),
    {
        !self.halted || bus.pic.pending_int().is_some()
    }
}

/// One micro-step of its family, summarised as the interpreter function.
fn step_addw(x: addw::Addw, code: u8, cpu: &mut Cpu, bus: &mut Bus) -> (r: Return)
    requires
        old(bus).wf(),
    ensures
        final(bus).wf(),
        (*final(cpu), final(bus)@, r) == spec_op_exec(
            Operation::Addw(x),
            code,
            *old(cpu),
            old(bus)@,
        ),
        r matches Err(e) ==> e matches Error::Opcode(_),
{
    proof {
        reveal(spec_op_exec);
    }
    x.exec(code, cpu, bus)
}

/// One micro-step of its family, summarised as the interpreter function.
fn step_call(x: call::Call, code: u8, cpu: &mut Cpu, bus: &mut Bus) -> (r: Return)
    requires
        old(bus).wf(),
    ensures
        final(bus).wf(),
        (*final(cpu), final(bus)@, r) == spec_op_exec(
            Operation::Call(x),
            code,
            *old(cpu),
            old(bus)@,
        ),
        r matches Err(e) ==> e matches Error::Opcode(_),
{
    proof {
        reveal(spec_op_exec);
    }
    x.exec(code, cpu, bus)
}

/// One micro-step of its family, summarised as the interpreter function.
fn step_or(x: or::Or, code: u8, cpu: &mut Cpu, bus: &mut Bus) -> (r: Return)
    requires
        old(bus).wf(),
    ensures
        final(bus).wf(),
        (*final(cpu), final(bus)@, r) == spec_op_exec(
            Operation::Or(x),
            code,
            *old(cpu),
            old(bus)@,
        ),
        r matches Err(e) ==> e matches Error::Opcode(_),
{
    proof {
        reveal(spec_op_exec);
    }
    x.exec(code, cpu, bus)
}

/// One micro-step of its family, summarised as the interpreter function.
fn step_stop(x: stop::Stop, code: u8, cpu: &mut Cpu, bus: &mut Bus) -> (r: Return)
    requires
        old(bus).wf(),
    ensures
        final(bus).wf(),
        (*final(cpu), final(bus)@, r) == spec_op_exec(
            Operation::Stop(x),
            code,
            *old(cpu),
            old(bus)@,
        ),
        r matches Err(e) ==> e matches Error::Opcode(_),
{
    proof {
        reveal(spec_op_exec);
    }
    x.exec(code, cpu, bus)
}

/// One micro-step of its family, summarised as the interpreter function.
fn step_ld(x: ld::Ld, code: u8, cpu: &mut Cpu, bus: &mut Bus) -> (r: Return)
    requires
        old(bus).wf(),
    ensures
        final(bus).wf(),
        (*final(cpu), final(bus)@, r) == spec_op_exec(
            Operation::Ld(x),
            code,
            *old(cpu),
            old(bus)@,
        ),
        r matches Err(e) ==> e matches Error::Opcode(_),
{
    proof {
        reveal(spec_op_exec);
    }
    x.exec(code, cpu, bus)
}

/// One micro-step of its family, summarised as the interpreter function.
fn step_ldw(x: ldw::Ldw, code: u8, cpu: &mut Cpu, bus: &mut Bus) -> (r: Return)
    requires
        old(bus).wf(),
    ensures
        final(bus).wf(),
        (*final(cpu), final(bus)@, r) == spec_op_exec(
            Operation::Ldw(x),
            code,
            *old(cpu),
            old(bus)@,
        ),
        r matches Err(e) ==> e matches Error::Opcode(_),
{
    proof {
        reveal(spec_op_exec);
    }
    x.exec(code, cpu, bus)
}

/// One micro-step of its family, summarised as the interpreter function.
fn step_stack(x: stack::Stack, code: u8, cpu: &mut Cpu, bus: &mut Bus) -> (r: Return)
    requires
        old(bus).wf(),
    ensures
        final(bus).wf(),
        (*final(cpu), final(bus)@, r) == spec_op_exec(
            Operation::Stack(x),
            code,
            *old(cpu),
            old(bus)@,
        ),
        r matches Err(e) ==> e matches Error::Opcode(_),
{
    proof {
        reveal(spec_op_exec);
    }
    x.exec(code, cpu, bus)
}

/// One micro-step of its family, summarised as the interpreter function.
fn step_alu(x: alu::Alu, code: u8, cpu: &mut Cpu, bus: &mut Bus) -> (r: Return)
    requires
        old(bus).wf(),
    ensures
        final(bus).wf(),
        (*final(cpu), final(bus)@, r) == spec_op_exec(
            Operation::Alu(x),
            code,
            *old(cpu),
            old(bus)@,
        ),
        r matches Err(e) ==> e matches Error::Opcode(_),
{
    proof {
        reveal(spec_op_exec);
    }
    x.exec(code, cpu, bus)
}

/// One micro-step of its family, summarised as the interpreter function.
fn step_incdec(x: incdec::Incdec, code: u8, cpu: &mut Cpu, bus: &mut Bus) -> (r: Return)
    requires
        old(bus).wf(),
    ensures
        final(bus).wf(),
        (*final(cpu), final(bus)@, r) == spec_op_exec(
            Operation::Incdec(x),
            code,
            *old(cpu),
            old(bus)@,
        ),
        r matches Err(e) ==> e matches Error::Opcode(_),
{
    proof {
        reveal(spec_op_exec);
    }
    x.exec(code, cpu, bus)
}

/// One micro-step of its family, summarised as the interpreter function.
fn step_incw(x: incdec::Incw, code: u8, cpu: &mut Cpu, bus: &mut Bus) -> (r: Return)
    requires
        old(bus).wf(),
    ensures
        final(bus).wf(),
        (*final(cpu), final(bus)@, r) == spec_op_exec(
            Operation::Incw(x),
            code,
            *old(cpu),
            old(bus)@,
        ),
        r matches Err(e) ==> e matches Error::Opcode(_),
{
    proof {
        reveal(spec_op_exec);
    }
    x.exec(code, cpu, bus)
}

/// One micro-step of its family, summarised as the interpreter function.
fn step_misc(x: misc::Misc, code: u8, cpu: &mut Cpu, bus: &mut Bus) -> (r: Return)
    requires
        old(bus).wf(),
    ensures
        final(bus).wf(),
        (*final(cpu), final(bus)@, r) == spec_op_exec(
            Operation::Misc(x),
            code,
            *old(cpu),
            old(bus)@,
        ),
        r matches Err(e) ==> e matches Error::Opcode(_),
{
    proof {
        reveal(spec_op_exec);
    }
    x.exec(code, cpu, bus)
}

/// One micro-step of its family, summarised as the interpreter function.
fn step_jump(x: jump::Jump, code: u8, cpu: &mut Cpu, bus: &mut Bus) -> (r: Return)
    requires
        old(bus).wf(),
    ensures
        final(bus).wf(),
        (*final(cpu), final(bus)@, r) == spec_op_exec(
            Operation::Jump(x),
            code,
            *old(cpu),
            old(bus)@,
        ),
        r matches Err(e) ==> e matches Error::Opcode(_),
{
    proof {
        reveal(spec_op_exec);
    }
    x.exec(code, cpu, bus)
}

/// One micro-step of its family, summarised as the interpreter function.
fn step_cb(x: cb::Cb, code: u8, cpu: &mut Cpu, bus: &mut Bus) -> (r: Return)
    requires
        old(bus).wf(),
    ensures
        final(bus).wf(),
        (*final(cpu), final(bus)@, r) == spec_op_exec(
            Operation::Cb(x),
            code,
            *old(cpu),
            old(bus)@,
        ),
        r matches Err(e) ==> e matches Error::Opcode(_),
{
    proof {
        reveal(spec_op_exec);
    }
    x.exec(code, cpu, bus)
}

/// One micro-step of its family, summarised as the interpreter function.
fn step_int(x: irq::Int, code: u8, cpu: &mut Cpu, bus: &mut Bus) -> (r: Return)
    requires
        old(bus).wf(),
    ensures
        final(bus).wf(),
        (*final(cpu), final(bus)@, r) == spec_op_exec(
            Operation::Int(x),
            code,
            *old(cpu),
            old(bus)@,
        ),
        r matches Err(e) ==> e matches Error::Opcode(_),
{
    proof {
        reveal(spec_op_exec);
    }
    x.exec(code, cpu, bus)
}

/// The 8-bit register selected by the low three opcode bits.
pub open spec fn spec_reg8(c: Cpu, sel: u8) -> u8 {
    let s = sel % 8;
    if s == 0 {
        c.b
    } else if s == 1 {
        c.c
    } else if s == 2 {
        c.d
    } else if s == 3 {
        c.e
    } else if s == 4 {
        c.h
    } else if s == 5 {
        c.l
    } else {
        c.a
    }
}

/// The register file with the selected 8-bit register replaced.
pub open spec fn spec_set_reg8(c: Cpu, sel: u8, v: u8) -> Cpu {
    let s = sel % 8;
    if s == 0 {
        Cpu { b: v, ..c }
    } else if s == 1 {
        Cpu { c: v, ..c }
    } else if s == 2 {
        Cpu { d: v, ..c }
    } else if s == 3 {
        Cpu { e: v, ..c }
    } else if s == 4 {
        Cpu { h: v, ..c }
    } else if s == 5 {
        Cpu { l: v, ..c }
    } else {
        Cpu { a: v, ..c }
    }
}


/// The instruction (and its first micro-step) an opcode selects, or its
/// undefined-opcode report: the dispatch table as a function.
pub open spec fn spec_decode(code: u8) -> Result<Operation, Error> {
    if code == 0xd3 || code == 0xdb || code == 0xdd || code == 0xe3 || code == 0xe4 || code
        == 0xeb || code == 0xec || code == 0xed || code == 0xf4 || code == 0xfc || code
        == 0xfd {
        Err(Error::Opcode(code))
    } else if code == 0x09 || code == 0x19 || code == 0x29 || code == 0x39 || code == 0xe8 {
        Ok(Operation::Addw(addw::Addw::Fetch))
    } else if code == 0xc4 || code == 0xcc || code == 0xcd || code == 0xd4 || code == 0xdc {
        Ok(Operation::Call(call::Call::Fetch0))
    } else if (0xb0 <= code < 0xb8) || code == 0xf6 {
        Ok(Operation::Or(or::Or::Fetch))
    } else if code == 0x10 {
        Ok(Operation::Stop(stop::Stop::Execute))
    } else if code == 0x01 || code == 0x11 || code == 0x21 || code == 0x31 || code == 0x08
        || code == 0xf8 || code == 0xf9 {
        Ok(Operation::Ldw(ldw::Ldw::Fetch))
    } else if code == 0xc1 || code == 0xd1 || code == 0xe1 || code == 0xf1 || code == 0xc5
        || code == 0xd5 || code == 0xe5 || code == 0xf5 {
        Ok(Operation::Stack(stack::Stack::Fetch))
    } else if code < 0x40 && (code % 16 == 3 || code % 16 == 11) {
        Ok(Operation::Incw(incdec::Incw::Fetch))
    } else if code < 0x40 && (code % 8 == 4 || code % 8 == 5) {
        Ok(Operation::Incdec(incdec::Incdec::Fetch))
    } else if code == 0x18 || code == 0x20 || code == 0x28 || code == 0x30 || code == 0x38
        || code == 0xc3 || code == 0xc2 || code == 0xca || code == 0xd2 || code == 0xda
        || code == 0xe9 || code == 0xc9 || code == 0xd9 || code == 0xc0 || code == 0xc8
        || code == 0xd0 || code == 0xd8 || code == 0xc7 || code == 0xcf || code == 0xd7
        || code == 0xdf || code == 0xe7 || code == 0xef || code == 0xf7 || code == 0xff {
        Ok(Operation::Jump(jump::Jump::Fetch))
    } else if code == 0xcb {
        Ok(Operation::Cb(cb::Cb::Fetch))
    } else if code == 0x00 || code == 0x76 || code == 0xf3 || code == 0xfb || code == 0x07
        || code == 0x0f || code == 0x17 || code == 0x1f || code == 0x27 || code == 0x2f
        || code == 0x37 || code == 0x3f {
        Ok(Operation::Misc(misc::Misc::Execute))
    } else if (0x80 <= code < 0xc0 && !(0xb0 <= code < 0xb8)) || code == 0xc6 || code == 0xce
        || code == 0xd6 || code == 0xde || code == 0xe6 || code == 0xee || code == 0xfe {
        Ok(Operation::Alu(alu::Alu::Fetch))
    } else {
        Ok(Operation::Ld(ld::Ld::Fetch))
    }
}

/// The effect of one micro-step of any instruction, as a function.
#[verifier::opaque]
pub open spec fn spec_op_exec(op: Operation, code: u8, c: Cpu, b: crate::bus::BusV) -> (
    Cpu,
    crate::bus::BusV,
    Return,
) {
    match op {
        Operation::Addw(x) => x.spec_exec(code, c, b),
        Operation::Call(x) => x.spec_exec(code, c, b),
        Operation::Or(x) => x.spec_exec(code, c, b),
        Operation::Stop(x) => x.spec_exec(code, c, b),
        Operation::Ld(x) => x.spec_exec(code, c, b),
        Operation::Ldw(x) => x.spec_exec(code, c, b),
        Operation::Stack(x) => x.spec_exec(code, c, b),
        Operation::Alu(x) => x.spec_exec(code, c, b),
        Operation::Incdec(x) => x.spec_exec(code, c, b),
        Operation::Incw(x) => x.spec_exec(code, c, b),
        Operation::Misc(x) => x.spec_exec(code, c, b),
        Operation::Jump(x) => x.spec_exec(code, c, b),
        Operation::Cb(x) => x.spec_exec(code, c, b),
        Operation::Int(x) => x.spec_exec(code, c, b),
    }
}

/// One micro-step plus the stage bookkeeping: the instruction's next
/// micro-step is stored, a finished instruction (or a fault) returns the
/// processor to the fetch boundary.
pub open spec fn spec_step(c: Cpu, b: crate::bus::BusV, code: u8, op: Operation) -> (
    Cpu,
    crate::bus::BusV,
    Result<(), Error>,
) {
    let (c2, b2, ret) = spec_op_exec(op, code, c, b);
    match ret {
        Ok(Some(op2)) => (Cpu { stage: Stage::Execute(code, op2), ..c2 }, b2, Ok(())),
        Ok(None) => (Cpu { stage: Stage::Fetch, ..c2 }, b2, Ok(())),
        Err(e) => (Cpu { stage: Stage::Fetch, ..c2 }, b2, Err(e)),
    }
}

/// One whole machine cycle of the processor, as a function: a halted
/// processor with nothing pending sleeps; at a fetch boundary a pending,
/// enabled interrupt starts the service sequence (clearing its request
/// and the master enable), otherwise the opcode at `PC` is fetched,
/// decoded and its first micro-step runs; inside an instruction the next
/// micro-step runs.
pub open spec fn spec_cpu_cycle(c: Cpu, b: crate::bus::BusV) -> (
    Cpu,
    crate::bus::BusV,
    Result<(), Error>,
) {
    match c.stage {
        Stage::Execute(code, op) => spec_step(c, b, code, op),
        Stage::Fetch => {
            if c.halted && !pic::spec_pending(b.pic) {
                (c, b, Ok(()))
            } else {
                let c0 = Cpu { halted: false, ..c };
                let ime_now = c0.ime;
                let c1 = if c0.ei_delay {
                    Cpu { ime: true, ei_delay: false, ..c0 }
                } else {
                    c0
                };
                if ime_now && pic::spec_pending(b.pic) {
                    let i = match pic::spec_next(b.pic) {
                        Some(i) => i,
                        None => Interrupt::VBlank,
                    };
                    (
                        Cpu {
                            ime: false,
                            stage: Stage::Execute(
                                0,
                                Operation::Int(irq::Int::Delay(i.spec_vector())),
                            ),
                            ..c1
                        },
                        crate::bus::BusV {
                            pic: crate::pic::Pic {
                                active: pic::spec_clear_bit(b.pic.active, i.spec_mask()),
                                ..b.pic
                            },
                            ..b
                        },
                        Ok(()),
                    )
                } else {
                    let code = crate::bus::spec_read_cpu(b, c1.pc);
                    let c2 = ld::spec_stepped(c1);
                    match spec_decode(code) {
                        Err(e) => (Cpu { stage: Stage::Fetch, ..c2 }, b, Err(e)),
                        Ok(op) => spec_step(c2, b, code, op),
                    }
                }
            }
        },
    }
}

/// Selects the instruction (and its first micro-step) for an opcode, or
/// reports it undefined.
pub fn decode(code: u8) -> (r: Result<Operation, Error>)
    ensures
        r == spec_decode(code),
        r is Err <==> (code == 0xd3 || code == 0xdb || code == 0xdd || code == 0xe3 || code
            == 0xe4 || code == 0xeb || code == 0xec || code == 0xed || code == 0xf4 || code
            == 0xfc || code == 0xfd),
        r matches Err(e) ==> e == Error::Opcode(code),
{
    match code {
        0xd3 | 0xdb | 0xdd | 0xe3 | 0xe4 | 0xeb | 0xec | 0xed | 0xf4 | 0xfc | 0xfd => Err(
            Error::Opcode(code),
        ),
        0x09 | 0x19 | 0x29 | 0x39 | 0xe8 => Ok(addw::default()),
        0xc4 | 0xcc | 0xcd | 0xd4 | 0xdc => Ok(call::default()),
        0xb0 | 0xb1 | 0xb2 | 0xb3 | 0xb4 | 0xb5 | 0xb6 | 0xb7 | 0xf6 => Ok(or::default()),
        0x10 => Ok(stop::default()),
        0x01 | 0x11 | 0x21 | 0x31 | 0x08 | 0xf8 | 0xf9 => Ok(ldw::default()),
        0xc1 | 0xd1 | 0xe1 | 0xf1 | 0xc5 | 0xd5 | 0xe5 | 0xf5 => Ok(stack::default()),
        0x03 | 0x13 | 0x23 | 0x33 | 0x0b | 0x1b | 0x2b | 0x3b => Ok(incdec::default_wide()),
        0x04 | 0x0c | 0x14 | 0x1c | 0x24 | 0x2c | 0x34 | 0x3c | 0x05 | 0x0d | 0x15 | 0x1d
            | 0x25 | 0x2d | 0x35 | 0x3d => Ok(incdec::default()),
        0x18 | 0x20 | 0x28 | 0x30 | 0x38 | 0xc3 | 0xc2 | 0xca | 0xd2 | 0xda | 0xe9 | 0xc9
            | 0xd9 | 0xc0 | 0xc8 | 0xd0 | 0xd8 | 0xc7 | 0xcf | 0xd7 | 0xdf | 0xe7 | 0xef
            | 0xf7 | 0xff => Ok(jump::default()),
        0xcb => Ok(cb::default()),
        0x00 | 0x76 | 0xf3 | 0xfb | 0x07 | 0x0f | 0x17 | 0x1f | 0x27 | 0x2f | 0x37 | 0x3f => Ok(
            misc::default(),
        ),
        0x80 | 0x81 | 0x82 | 0x83 | 0x84 | 0x85 | 0x86 | 0x87 | 0x88 | 0x89 | 0x8a | 0x8b
            | 0x8c | 0x8d | 0x8e | 0x8f | 0x90 | 0x91 | 0x92 | 0x93 | 0x94 | 0x95 | 0x96
            | 0x97 | 0x98 | 0x99 | 0x9a | 0x9b | 0x9c | 0x9d | 0x9e | 0x9f | 0xa0 | 0xa1
            | 0xa2 | 0xa3 | 0xa4 | 0xa5 | 0xa6 | 0xa7 | 0xa8 | 0xa9 | 0xaa | 0xab | 0xac
            | 0xad | 0xae | 0xaf | 0xb8 | 0xb9 | 0xba | 0xbb | 0xbc | 0xbd | 0xbe | 0xbf
            | 0xc6 | 0xce | 0xd6 | 0xde | 0xe6 | 0xee | 0xfe => Ok(alu::default()),
        _ => Ok(ld::default()),
    }
}

} // verus!
