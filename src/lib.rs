//! A 6502-class processor core: a memory bus that routes addresses to
//! pluggable backends, the opcode table, instruction decoding, addressing
//! modes and instruction execution with status-flag semantics.

pub mod bus;
pub mod cpu;
pub mod memory;
pub mod instruction;
pub mod opcode;
