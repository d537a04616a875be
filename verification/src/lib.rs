//! A register machine over a 15-bit address space with a closed set of
//! 22 instructions: bounded memory, operand and instruction decoding, and the
//! fetch-decode-execute loop, each stated against a mathematical model.

pub mod decode;
pub mod fault;
pub mod instruction;
pub mod laws;
pub mod memory;
pub mod operand;
pub mod state;
pub mod vm;
