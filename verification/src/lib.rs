//! A CHIP-8-style bytecode interpreter: a fetch-decode-execute engine over a
//! fixed 4096-byte memory image, sixteen 8-bit general-purpose registers, and
//! a bounded call stack of sixteen return addresses.
//!
//! The machine state lives in [`cpu::CPU`]; raw 16-bit instruction words are
//! decoded into [`instruction::Instruction`] values before execution.

pub mod cpu;
pub mod dangling_pointer;
pub mod instruction;
