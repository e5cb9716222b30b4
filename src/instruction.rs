use crate::opcode::OpCode;
use vstd::prelude::*;

verus! {

/// A decoded instruction: its opcode and its raw operand (0 when the
/// opcode takes none, else the one byte zero-extended or the two bytes
/// little-endian).
#[derive(Clone, Copy, Debug, PartialEq, Eq, Structural)]
pub struct Instruction {
    pub opcode: OpCode,
    pub operand: u16,
}

} // verus!
