//! Instruction execution.
//!
//! One module per instruction family. Each family is an enum of
//! micro-steps; a step consumes one machine cycle, performs at most one
//! bus transaction, and hands back the next step or finishes the
//! instruction.

pub mod addw;
pub mod alu;
pub mod call;
pub mod cb;
pub mod incdec;
pub mod irq;
pub mod jump;
pub mod ld;
pub mod ldw;
pub mod misc;
pub mod or;
pub mod stack;
pub mod stop;
