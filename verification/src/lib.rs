//! Instruction-level emulation of a small 8-bit accumulator machine of the
//! 6502 family: processor state, condition flags, an opcode table and the
//! fetch / decode / execute loop, each with a machine-checked contract.

pub mod composition;
pub mod cpu;
pub mod fault;
pub mod flags;
pub mod laws;
pub mod opcode;
