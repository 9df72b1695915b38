//! The ways in which a run can fail.

use vstd::prelude::*;

verus! {

/// Why the engine stopped a run before `HALT`.
#[derive(Clone, Copy, Debug, PartialEq, Eq, Structural)]
pub enum FaultKind {
    /// An instruction needed more operands than the stack held.
    StackUnderflow,
    /// A load or store named an address outside memory.
    MemoryOutOfBounds,
    /// `DIV` with a zero divisor.
    DivideByZero,
    /// An opcode or its operand bytes lie past the end of the program.
    TruncatedProgram,
    /// The byte at the instruction pointer is no opcode.
    UnknownOpcode,
    /// `RET` popped a value that is no offset into the program.
    InvalidReturn,
}

/// A fault together with the offset of the instruction that raised it.
#[derive(Clone, Copy, Debug, PartialEq, Eq, Structural)]
pub struct Fault {
    pub kind: FaultKind,
    pub ip: usize,
}

} // verus!
