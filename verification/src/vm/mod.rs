//! Instruction format, encoder and execution engine.

pub mod bytes;
pub mod encoder;
pub mod fault;
pub mod laws;
pub mod machine;
pub mod opcode;
pub mod output;
pub mod semantics;
