//! A small two-pass assembler for a 32-bit RISC instruction set.
//!
//! Source lines are classified by mnemonic, their operands parsed into a
//! typed [`instructions::Instruction`] value, and each instruction packed
//! into a 32-bit machine word.  Branch instructions may name labels; a
//! two-pass driver resolves label names to relative offsets before the
//! lines reach the encoder.

pub mod cond;
pub mod error;
pub mod instructions;
pub mod mnemonics;
pub mod program;
pub mod text;
